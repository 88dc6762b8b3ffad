//! Local-only reachability requests. A request is refused unless it targets
//! a loopback address; there is no raw or privileged protocol here.
use vstd::prelude::*;
use crate::net::{IpAddress, SocketAddress};
use crate::text::{chars_of, decimal, hex_char, hex_digit, push_decimal, push_str, string_of};

verus! {

pub const SCHEMA_VERSION: &'static str = "reachability-matrix.v1";
/// The longest probe timeout, in milliseconds.
pub const MAX_TIMEOUT_MS: u64 = 5000;
/// The largest probe payload, in bytes.
pub const MAX_PAYLOAD_BYTES: usize = 1200;

#[derive(Clone, Copy, Debug, Eq, PartialEq, Structural)]
pub enum Transport {
    Tcp,
    Udp,
}

impl Transport {
    pub open spec fn name(self) -> Seq<char> {
        match self {
            Transport::Tcp => "tcp"@,
            Transport::Udp => "udp"@,
        }
    }

    pub fn as_str(self) -> (s: &'static str)
        ensures
            s@ == self.name(),
    {
        match self {
            Transport::Tcp => "tcp",
            Transport::Udp => "udp",
        }
    }
}

#[derive(Clone, Copy, Debug, Eq, PartialEq, Structural)]
pub enum IpVersion {
    V4,
    V6,
}

impl IpVersion {
    pub open spec fn name(self) -> Seq<char> {
        match self {
            IpVersion::V4 => "ipv4"@,
            IpVersion::V6 => "ipv6"@,
        }
    }

    pub fn as_str(self) -> (s: &'static str)
        ensures
            s@ == self.name(),
    {
        match self {
            IpVersion::V4 => "ipv4",
            IpVersion::V6 => "ipv6",
        }
    }
}

/// Whether the address family of `ip` differs from `version`.
pub open spec fn family_mismatch(ip: IpAddress, version: IpVersion) -> bool {
    (ip is V4 && version == IpVersion::V6) || (ip is V6 && version == IpVersion::V4)
}

/// The checks of a reachability request, in order: the target is loopback,
/// its family is the asked IP version, its port is not zero, the timeout is
/// 1 to 5000 ms and the payload 1 to 1200 bytes.
pub open spec fn validation_of(
    target: SocketAddress,
    version: IpVersion,
    timeout_ms: u64,
    payload: usize,
) -> Result<(), Seq<char>> {
    if !target.ip.loopback() {
        Err("target must be loopback; public/WAN probing is disabled"@)
    } else if family_mismatch(target.ip, version) {
        Err("IP version does not match target"@)
    } else if target.port == 0 {
        Err("target port must be non-zero"@)
    } else if timeout_ms == 0 || timeout_ms > 5000 {
        Err("timeout must be 1-5000 ms"@)
    } else if payload == 0 || payload > 1200 {
        Err("payload must be 1-1200 bytes"@)
    } else {
        Ok(())
    }
}

/// A reachability request is accepted exactly when its target is a
/// loopback address of the asked IP version with a nonzero port, its
/// timeout is 1 to 5000 ms and its payload 1 to 1200 bytes.
pub proof fn law_reachability_requests(target: SocketAddress, version: IpVersion, timeout_ms: u64, payload: usize)
    ensures
        validation_of(target, version, timeout_ms, payload) is Ok <==> {
            &&& target.ip.loopback()
            &&& (target.ip is V4 <==> version == IpVersion::V4)
            &&& target.port != 0
            &&& 1 <= timeout_ms <= 5000
            &&& 1 <= payload <= 1200
        },
        !target.ip.loopback() ==> validation_of(target, version, timeout_ms, payload) == Err::<
            (),
            Seq<char>,
        >("target must be loopback; public/WAN probing is disabled"@),
{
}

pub fn validate(target: SocketAddress, version: IpVersion, timeout_ms: u64, payload: usize) -> (r:
    Result<(), &'static str>)
    ensures
        match validation_of(target, version, timeout_ms, payload) {
            Ok(()) => r is Ok,
            Err(m) => r matches Err(e) && e@ == m,
        },
{
    if !target.ip.is_loopback() {
        return Err("target must be loopback; public/WAN probing is disabled");
    }
    let mismatch = match (target.ip, version) {
        (IpAddress::V4(_), IpVersion::V6) => true,
        (IpAddress::V6(_), IpVersion::V4) => true,
        _ => false,
    };
    if mismatch {
        return Err("IP version does not match target");
    }
    if target.port == 0 {
        return Err("target port must be non-zero");
    }
    if timeout_ms == 0 || timeout_ms > MAX_TIMEOUT_MS {
        return Err("timeout must be 1-5000 ms");
    }
    if payload == 0 || payload > MAX_PAYLOAD_BYTES {
        return Err("payload must be 1-1200 bytes");
    }
    Ok(())
}

/// A control character: U+0000 to U+001F or U+007F to U+009F.
pub open spec fn is_control(c: char) -> bool {
    (c as u32) <= 0x1f || (0x7f <= (c as u32) && (c as u32) <= 0x9f)
}

/// The JSON escape of one character.
pub open spec fn escape_char(c: char) -> Seq<char> {
    if c == '"' {
        seq!['\\', '"']
    } else if c == '\\' {
        seq!['\\', '\\']
    } else if c == '\n' {
        seq!['\\', 'n']
    } else if c == '\r' {
        seq!['\\', 'r']
    } else if c == '\t' {
        seq!['\\', 't']
    } else if is_control(c) {
        seq![
            '\\',
            'u',
            '0',
            '0',
            hex_char(((c as u32) / 16) as nat),
            hex_char(((c as u32) % 16) as nat),
        ]
    } else {
        seq![c]
    }
}

/// The JSON escapes of the characters of `s`, in order.
pub open spec fn escape_all(s: Seq<char>) -> Seq<char>
    decreases s.len(),
{
    if s.len() == 0 {
        Seq::empty()
    } else {
        escape_all(s.drop_last()) + escape_char(s.last())
    }
}

/// The JSON string literal of `s`.
pub open spec fn json_literal(s: Seq<char>) -> Seq<char> {
    seq!['"'] + escape_all(s) + seq!['"']
}

/// JSON escaping leaves no control character in the text and no quote
/// without a backslash before it, keeps plain text (no quote, backslash or
/// control character) exactly as it is, and never shortens it.
pub proof fn law_json_escape(s: Seq<char>)
    ensures
        forall|i: int| 0 <= i < escape_all(s).len() ==> !is_control(#[trigger] escape_all(s)[i]),
        (forall|i: int|
            0 <= i < s.len() ==> #[trigger] s[i] != '"' && s[i] != '\\' && !is_control(s[i]))
            ==> escape_all(s) == s,
        escape_all(s).len() >= s.len(),
        forall|i: int|
            0 <= i < escape_all(s).len() && #[trigger] escape_all(s)[i] == '"' ==> i > 0
                && escape_all(s)[i - 1] == '\\',
    decreases s.len(),
{
    if s.len() > 0 {
        let init = s.drop_last();
        let c = s.last();
        law_json_escape(init);
        let e = escape_char(c);
        assert(forall|i: int| 0 <= i < e.len() ==> !is_control(#[trigger] e[i])) by {
            if is_control(c) && c != '\n' && c != '\r' && c != '\t' && c != '"' && c != '\\' {
                let hi = ((c as u32) / 16) as nat;
                let lo = ((c as u32) % 16) as nat;
                assert(hi < 16 && lo < 16);
                assert((hex_char(hi) as u32) >= 48);
                assert((hex_char(lo) as u32) >= 48);
            }
        }
        assert(forall|i: int| 0 <= i < e.len() && #[trigger] e[i] == '"' ==> i == 1 && e[0] == '\\')
            by {
            if is_control(c) && c != '\n' && c != '\r' && c != '\t' && c != '"' && c != '\\' {
                let hi = ((c as u32) / 16) as nat;
                let lo = ((c as u32) % 16) as nat;
                assert(hi < 16 && lo < 16);
                assert((hex_char(hi) as u32) >= 48);
                assert((hex_char(lo) as u32) >= 48);
            }
        }
        assert forall|i: int|
            0 <= i < escape_all(s).len() && #[trigger] escape_all(s)[i] == '"' implies i > 0
                && escape_all(s)[i - 1] == '\\' by {
            let n = escape_all(init).len() as int;
            if i < n {
                assert(escape_all(s)[i] == escape_all(init)[i]);
                assert(escape_all(s)[i - 1] == escape_all(init)[i - 1]);
            } else {
                assert(escape_all(s)[i] == e[i - n]);
                assert(escape_all(s)[i - 1] == e[i - n - 1]);
            }
        }
        assert forall|i: int| 0 <= i < escape_all(s).len() implies !is_control(
            #[trigger] escape_all(s)[i],
        ) by {
            if i < escape_all(init).len() {
                assert(escape_all(s)[i] == escape_all(init)[i]);
            } else {
                assert(escape_all(s)[i] == e[i - escape_all(init).len()]);
            }
        }
        if forall|i: int|
            0 <= i < s.len() ==> #[trigger] s[i] != '"' && s[i] != '\\' && !is_control(s[i]) {
            assert(forall|i: int|
                0 <= i < init.len() ==> #[trigger] init[i] != '"' && init[i] != '\\' && !is_control(
                    init[i],
                )) by {
                assert forall|i: int| 0 <= i < init.len() implies #[trigger] init[i] != '"'
                    && init[i] != '\\' && !is_control(init[i]) by {
                    assert(init[i] == s[i]);
                }
            }
            assert(c == s[s.len() - 1]);
            assert(s =~= init + seq![c]);
        }
    }
}

fn push_escaped(out: &mut Vec<char>, c: char)
    ensures
        final(out)@ == old(out)@ + escape_char(c),
{
    if c == '"' {
        out.push('\\');
        out.push('"');
    } else if c == '\\' {
        out.push('\\');
        out.push('\\');
    } else if c == '\n' {
        out.push('\\');
        out.push('n');
    } else if c == '\r' {
        out.push('\\');
        out.push('r');
    } else if c == '\t' {
        out.push('\\');
        out.push('t');
    } else if (c as u32) <= 0x1f || (0x7f <= (c as u32) && (c as u32) <= 0x9f) {
        let v = c as u32;
        out.push('\\');
        out.push('u');
        out.push('0');
        out.push('0');
        out.push(hex_digit((v / 16) as u8));
        out.push(hex_digit((v % 16) as u8));
    } else {
        out.push(c);
    }
    assert(final(out)@ =~= old(out)@ + escape_char(c));
}

/// Writes `s` as a JSON string literal.
pub fn json_string(s: &str) -> (r: String)
    ensures
        r@ == json_literal(s@),
{
    let cs = chars_of(s);
    let mut out: Vec<char> = Vec::new();
    out.push('"');
    let mut i: usize = 0;
    while i < cs.len()
        invariant
            cs@ == s@,
            i <= cs@.len(),
            out@ == seq!['"'] + escape_all(cs@.take(i as int)),
        decreases cs@.len() - i,
    {
        let ghost before = out@;
        push_escaped(&mut out, cs[i]);
        proof {
            assert(cs@.take(i + 1).drop_last() =~= cs@.take(i as int));
            assert(cs@.take(i + 1).last() == cs@[i as int]);
            assert(out@ =~= seq!['"'] + escape_all(cs@.take(i + 1)));
        }
        i = i + 1;
    }
    out.push('"');
    assert(cs@.take(cs@.len() as int) =~= cs@);
    assert(out@ =~= json_literal(s@));
    string_of(out.as_slice())
}

/// What became of one probe case.
#[derive(Clone, Debug)]
pub enum ProbeOutcome {
    /// The request was refused before any socket was opened.
    Refused(&'static str),
    /// The target answered: the round trip in milliseconds, already written
    /// with three decimals, and the bytes of the answer.
    Reached { rtt_ms: String, bytes: usize },
    /// The socket operation failed, with the kind of failure as text.
    Failed(String),
}

/// Writes `s` after `out` as a JSON string literal.
fn push_json_string(out: &mut Vec<char>, s: &str)
    ensures
        final(out)@ == old(out)@ + json_literal(s@),
{
    push_str(out, json_string(s).as_str());
}

/// The members of a probe case that its outcome decides: reachability, the
/// round trip, the payload bytes and the error.
pub open spec fn outcome_members(outcome: ProbeOutcome) -> Seq<char> {
    match outcome {
        ProbeOutcome::Refused(m) => ",\"reachable\":false,\"rtt_ms\":null,\"payload_bytes\":0,\"error\":"@
            + json_literal(m@),
        ProbeOutcome::Reached { rtt_ms, bytes } => ",\"reachable\":true,\"rtt_ms\":"@ + rtt_ms@
            + ",\"payload_bytes\":"@ + decimal(bytes as nat) + ",\"error\":null"@,
        ProbeOutcome::Failed(kind) => ",\"reachable\":false,\"rtt_ms\":null,\"payload_bytes\":0,\"error\":"@
            + json_literal(kind@),
    }
}

/// The reachability artifact of one probe case: the schema, the local-only
/// scope and metadata, and the case itself.
pub open spec fn artifact_of(
    transport: Transport,
    version: IpVersion,
    target: Seq<char>,
    outcome: ProbeOutcome,
) -> Seq<char> {
    "{\"schema_version\":\"reachability-matrix.v1\",\"observed_at_unix_ms\":null,\"scope\":\"local-loopback\",\"metadata\":{\"privileged\":false,\"raw_protocol\":false,\"third_party_scan\":false},\"cases\":[{\"transport\":\""@
        + transport.name() + "\",\"ip_version\":\""@ + version.name() + "\",\"target\":"@
        + json_literal(target) + outcome_members(outcome) + "}]}"@
}

/// Writes the reachability artifact of one probe case.
pub fn artifact(transport: Transport, version: IpVersion, target: &str, outcome: &ProbeOutcome) -> (s:
    String)
    ensures
        s@ == artifact_of(transport, version, target@, *outcome),
{
    let mut out: Vec<char> = Vec::new();
    push_str(
        &mut out,
        "{\"schema_version\":\"reachability-matrix.v1\",\"observed_at_unix_ms\":null,\"scope\":\"local-loopback\",\"metadata\":{\"privileged\":false,\"raw_protocol\":false,\"third_party_scan\":false},\"cases\":[{\"transport\":\"",
    );
    push_str(&mut out, transport.as_str());
    push_str(&mut out, "\",\"ip_version\":\"");
    push_str(&mut out, version.as_str());
    push_str(&mut out, "\",\"target\":");
    push_json_string(&mut out, target);
    let ghost head = out@;
    match outcome {
        ProbeOutcome::Refused(m) => {
            push_str(
                &mut out,
                ",\"reachable\":false,\"rtt_ms\":null,\"payload_bytes\":0,\"error\":",
            );
            push_json_string(&mut out, m);
        },
        ProbeOutcome::Reached { rtt_ms, bytes } => {
            push_str(&mut out, ",\"reachable\":true,\"rtt_ms\":");
            push_str(&mut out, rtt_ms.as_str());
            push_str(&mut out, ",\"payload_bytes\":");
            push_decimal(&mut out, *bytes as u64);
            push_str(&mut out, ",\"error\":null");
        },
        ProbeOutcome::Failed(kind) => {
            push_str(
                &mut out,
                ",\"reachable\":false,\"rtt_ms\":null,\"payload_bytes\":0,\"error\":",
            );
            push_json_string(&mut out, kind.as_str());
        },
    }
    assert(out@ =~= head + outcome_members(*outcome));
    push_str(&mut out, "}]}");
    string_of(out.as_slice())
}

/// Whether the case of a probe reached its target.
pub open spec fn reached(outcome: ProbeOutcome) -> bool {
    outcome is Reached
}

/// The human-readable verdict of a probe and its exit status: a cheerful
/// mew and 0 when the target was reached, a sad one and 1 otherwise.
pub fn verdict(outcome: &ProbeOutcome) -> (r: (&'static str, i32))
    ensures
        reached(*outcome) ==> r.0@ == "喵~！"@ && r.1 == 0,
        !reached(*outcome) ==> r.0@ == "喵呜呜呜呜…"@ && r.1 == 1,
{
    match outcome {
        ProbeOutcome::Reached { .. } => ("喵~！", 0),
        _ => ("喵呜呜呜呜…", 1),
    }
}

} // verus!
