//! The lines the probe prints about its own progress: diagnostic events of
//! an experiment, the lifecycle state, and the stages of the UDP handshake.
use vstd::prelude::*;
use crate::lifecycle::{Lifecycle, State};
use crate::text::{decimal, push_decimal, push_str, string_of};

verus! {

/// The text of a boolean.
pub open spec fn bool_text(b: bool) -> Seq<char> {
    if b {
        "true"@
    } else {
        "false"@
    }
}

fn push_bool(out: &mut Vec<char>, b: bool)
    ensures
        final(out)@ == old(out)@ + bool_text(b),
{
    if b {
        push_str(out, "true");
    } else {
        push_str(out, "false");
    }
}

/// A diagnostic event of an experiment, as one JSON object; `fields`
/// continues the object with more members.
pub open spec fn diagnostic_line_of(
    experiment_id: Seq<char>,
    role: Seq<char>,
    event: Seq<char>,
    seq: nat,
    fields: Seq<char>,
) -> Seq<char> {
    "{\"experiment_id\":\""@ + experiment_id + "\",\"role\":\""@ + role + "\",\"event\":\""@
        + event + "\",\"seq\":"@ + decimal(seq) + fields + " }"@
}

pub fn diagnostic_line(experiment_id: &str, role: &str, event: &str, seq: usize, fields: &str) -> (s:
    String)
    ensures
        s@ == diagnostic_line_of(experiment_id@, role@, event@, seq as nat, fields@),
{
    let mut out: Vec<char> = Vec::new();
    push_str(&mut out, "{\"experiment_id\":\"");
    push_str(&mut out, experiment_id);
    push_str(&mut out, "\",\"role\":\"");
    push_str(&mut out, role);
    push_str(&mut out, "\",\"event\":\"");
    push_str(&mut out, event);
    push_str(&mut out, "\",\"seq\":");
    push_decimal(&mut out, seq as u64);
    push_str(&mut out, fields);
    push_str(&mut out, " }");
    string_of(out.as_slice())
}

/// The lifecycle line: the state and whether readiness is reported.
pub open spec fn lifecycle_line_of(lifecycle: Lifecycle) -> Seq<char> {
    "lifecycle_state="@ + lifecycle.current().name() + " readiness="@ + bool_text(
        lifecycle.satisfied() == Set::<crate::lifecycle::ReadinessPrerequisite>::full()
            && lifecycle.current() == crate::lifecycle::State::Ready,
    )
}

pub fn lifecycle_line(lifecycle: &Lifecycle) -> (s: String)
    ensures
        s@ == lifecycle_line_of(*lifecycle),
{
    let mut out: Vec<char> = Vec::new();
    push_str(&mut out, "lifecycle_state=");
    push_str(&mut out, lifecycle.state().as_str());
    push_str(&mut out, " readiness=");
    push_bool(&mut out, lifecycle.readiness());
    string_of(out.as_slice())
}

/// The lifecycle line names the state and reports readiness true exactly
/// when the service is READY with every prerequisite satisfied; in any other
/// state it reports readiness false.
pub proof fn law_lifecycle_line_reports_readiness(l: Lifecycle)
    ensures
        lifecycle_line_of(l) == "lifecycle_state="@ + l.current().name() + " readiness=true"@
            <==> (l.current() == State::Ready && forall|p: crate::lifecycle::ReadinessPrerequisite|
            l.satisfied().contains(p)),
        l.current() != State::Ready ==> lifecycle_line_of(l) == "lifecycle_state="@
            + l.current().name() + " readiness=false"@,
{
    reveal_strlit("true");
    reveal_strlit("false");
    reveal_strlit(" readiness=");
    reveal_strlit(" readiness=true");
    reveal_strlit(" readiness=false");
    let head = "lifecycle_state="@ + l.current().name();
    assert(" readiness="@ + "true"@ =~= " readiness=true"@);
    assert(" readiness="@ + "false"@ =~= " readiness=false"@);
    assert(head + " readiness="@ + "true"@ =~= head + " readiness=true"@);
    assert(head + " readiness="@ + "false"@ =~= head + " readiness=false"@);
    assert((head + " readiness=true"@).len() != (head + " readiness=false"@).len());
    if forall|p: crate::lifecycle::ReadinessPrerequisite| l.satisfied().contains(p) {
        assert(l.satisfied() =~= Set::<crate::lifecycle::ReadinessPrerequisite>::full());
    }
}

/// The state a lifecycle in state `s` drains to: a ready one drains, any
/// other stays.
pub open spec fn drained(s: State) -> State {
    if s == State::Ready {
        State::Draining
    } else {
        s
    }
}

/// Shutting down on a signal: the lifecycle drains and is reported, then
/// stops and is reported again. Neither line reports readiness.
pub fn signal_shutdown(lifecycle: &mut Lifecycle) -> (lines: (String, String))
    ensures
        final(lifecycle).current() == State::Stopped,
        final(lifecycle).satisfied() == old(lifecycle).satisfied(),
        lines.0@ == "lifecycle_state="@ + drained(old(lifecycle).current()).name()
            + " readiness=false"@,
        lines.1@ == "lifecycle_state=STOPPED readiness=false"@,
{
    lifecycle.drain();
    let first = lifecycle_line(lifecycle);
    lifecycle.stopped();
    let second = lifecycle_line(lifecycle);
    proof {
        reveal_strlit("lifecycle_state=");
        reveal_strlit(" readiness=");
        reveal_strlit(" readiness=false");
        reveal_strlit("false");
        reveal_strlit("STOPPED");
        reveal_strlit("lifecycle_state=STOPPED readiness=false");
        assert(" readiness="@ + bool_text(false) =~= " readiness=false"@);
        assert(first@ =~= "lifecycle_state="@ + drained(old(lifecycle).current()).name()
            + " readiness=false"@);
        assert(second@ =~= "lifecycle_state=STOPPED readiness=false"@);
    }
    (first, second)
}

/// The progress of one side of the UDP handshake: its role and the last
/// stage it completed.
#[derive(Clone, Copy, Debug)]
pub struct HandshakeDiagnostics {
    pub role: &'static str,
    pub last_success: &'static str,
}

/// A handshake progress line.
pub open spec fn handshake_line_of(ok: bool, role: Seq<char>, stage: Seq<char>, last: Seq<char>) -> Seq<
    char,
> {
    "{\"ok\":"@ + bool_text(ok) + ",\"subsystem\":\"udp_handshake\",\"role\":\""@ + role
        + "\",\"stage\":\""@ + stage + "\",\"last_success_stage\":\""@ + last + "\"}"@
}

fn handshake_line(ok: bool, role: &str, stage: &str, last: &str) -> (s: String)
    ensures
        s@ == handshake_line_of(ok, role@, stage@, last@),
{
    let mut out: Vec<char> = Vec::new();
    push_str(&mut out, "{\"ok\":");
    push_bool(&mut out, ok);
    push_str(&mut out, ",\"subsystem\":\"udp_handshake\",\"role\":\"");
    push_str(&mut out, role);
    push_str(&mut out, "\",\"stage\":\"");
    push_str(&mut out, stage);
    push_str(&mut out, "\",\"last_success_stage\":\"");
    push_str(&mut out, last);
    push_str(&mut out, "\"}");
    string_of(out.as_slice())
}

impl HandshakeDiagnostics {
    /// A side that has completed no stage yet.
    pub fn new(role: &'static str) -> (d: Self)
        ensures
            d.role == role,
            d.last_success@ == "none"@,
    {
        HandshakeDiagnostics { role, last_success: "none" }
    }

    /// Records that `stage` completed, and gives its progress line.
    pub fn event(&mut self, stage: &'static str) -> (line: String)
        ensures
            final(self).role == old(self).role,
            final(self).last_success == stage,
            line@ == handshake_line_of(true, old(self).role@, stage@, stage@),
    {
        self.last_success = stage;
        handshake_line(true, self.role, stage, self.last_success)
    }

    /// The line reporting that the handshake timed out after the last
    /// completed stage.
    pub fn timeout(&self) -> (line: String)
        ensures
            line@ == handshake_line_of(false, self.role@, "timeout"@, self.last_success@),
    {
        handshake_line(false, self.role, "timeout", self.last_success)
    }
}

} // verus!
