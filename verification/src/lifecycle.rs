//! Small, explicit service lifecycle used by the bounded runners.
use vstd::prelude::*;

verus! {

/// The externally reported lifecycle state of a runner.
#[derive(Clone, Copy, Debug, PartialEq, Eq, Structural)]
pub enum State {
    Starting,
    Ready,
    Draining,
    Stopped,
    Failed,
}

impl State {
    /// The upper-case name under which the state is reported.
    pub open spec fn name(self) -> Seq<char> {
        match self {
            State::Starting => "STARTING"@,
            State::Ready => "READY"@,
            State::Draining => "DRAINING"@,
            State::Stopped => "STOPPED"@,
            State::Failed => "FAILED"@,
        }
    }

    pub fn as_str(self) -> (s: &'static str)
        ensures
            s@ == self.name(),
    {
        match self {
            State::Starting => "STARTING",
            State::Ready => "READY",
            State::Draining => "DRAINING",
            State::Stopped => "STOPPED",
            State::Failed => "FAILED",
        }
    }
}

/// A condition that must hold before a runner may report readiness.
#[derive(Clone, Copy, Debug, PartialEq, Eq, Structural)]
pub enum ReadinessPrerequisite {
    ConfigurationAccepted,
    IdentityInitialized,
    TrustPolicyInitialized,
    SocketBound,
    IoConfigured,
}

impl ReadinessPrerequisite {
    /// The single bit that records this prerequisite in the satisfied mask.
    pub open spec fn mask_bit(self) -> u8 {
        match self {
            ReadinessPrerequisite::ConfigurationAccepted => 1,
            ReadinessPrerequisite::IdentityInitialized => 2,
            ReadinessPrerequisite::TrustPolicyInitialized => 4,
            ReadinessPrerequisite::SocketBound => 8,
            ReadinessPrerequisite::IoConfigured => 16,
        }
    }

    pub fn bit(self) -> (b: u8)
        ensures
            b == self.mask_bit(),
    {
        match self {
            ReadinessPrerequisite::ConfigurationAccepted => 1,
            ReadinessPrerequisite::IdentityInitialized => 2,
            ReadinessPrerequisite::TrustPolicyInitialized => 4,
            ReadinessPrerequisite::SocketBound => 8,
            ReadinessPrerequisite::IoConfigured => 16,
        }
    }
}

/// The mask in which every prerequisite is satisfied.
pub const ALL_PREREQUISITES: u8 = 31;

/// The prerequisites recorded in a mask.
pub open spec fn prerequisites_in(mask: u8) -> Set<ReadinessPrerequisite> {
    Set::new(|p: ReadinessPrerequisite| mask & p.mask_bit() != 0)
}

/// A runner's lifecycle: its reported state and the readiness prerequisites
/// satisfied so far. There is one owner of it: it is neither copied nor
/// cloned, so every change is made to the one value that every report reads.
#[derive(Debug)]
pub struct Lifecycle {
    state: State,
    prerequisites: u8,
}

proof fn lemma_mask_bits(m: u8)
    ensures
        (m & 1u8 != 0) == (m % 2 == 1),
        m < 32 ==> (m == 31 <==> (m & 1u8 != 0 && m & 2u8 != 0 && m & 4u8 != 0 && m & 8u8 != 0
            && m & 16u8 != 0)),
{
    assert((m & 1u8 != 0) == (m % 2 == 1)) by (bit_vector);
    assert(m < 32 ==> (m == 31 <==> (m & 1u8 != 0 && m & 2u8 != 0 && m & 4u8 != 0 && m & 8u8
        != 0 && m & 16u8 != 0))) by (bit_vector);
}

proof fn lemma_mask_or(m: u8, b: u8, c: u8)
    ensures
        ((m | b) & c != 0) == (m & c != 0 || b & c != 0),
        m < 32 && b < 32 ==> (m | b) < 32,
{
    assert(((m | b) & c != 0) == (m & c != 0 || b & c != 0)) by (bit_vector);
    assert(m < 32 && b < 32 ==> (m | b) < 32) by (bit_vector);
}

proof fn lemma_distinct_bits(p: ReadinessPrerequisite, q: ReadinessPrerequisite)
    ensures
        (p.mask_bit() & q.mask_bit() != 0) == (p == q),
{
    let a = p.mask_bit();
    let b = q.mask_bit();
    assert(a == 1 || a == 2 || a == 4 || a == 8 || a == 16);
    assert(b == 1 || b == 2 || b == 4 || b == 8 || b == 16);
    assert((a == 1 || a == 2 || a == 4 || a == 8 || a == 16) && (b == 1 || b == 2 || b == 4 || b
        == 8 || b == 16) ==> ((a & b != 0) == (a == b))) by (bit_vector);
}

proof fn lemma_full_mask(m: u8)
    requires
        m < 32,
    ensures
        (m == ALL_PREREQUISITES) == (prerequisites_in(m) == Set::<ReadinessPrerequisite>::full()),
{
    lemma_mask_bits(m);
    if m == ALL_PREREQUISITES {
        assert(prerequisites_in(m) =~= Set::<ReadinessPrerequisite>::full()) by {
            assert forall|p: ReadinessPrerequisite| prerequisites_in(m).contains(p) by {
                match p {
                    ReadinessPrerequisite::ConfigurationAccepted => {},
                    ReadinessPrerequisite::IdentityInitialized => {},
                    ReadinessPrerequisite::TrustPolicyInitialized => {},
                    ReadinessPrerequisite::SocketBound => {},
                    ReadinessPrerequisite::IoConfigured => {},
                }
            }
        }
    } else if prerequisites_in(m) == Set::<ReadinessPrerequisite>::full() {
        assert(prerequisites_in(m).contains(ReadinessPrerequisite::ConfigurationAccepted));
        assert(prerequisites_in(m).contains(ReadinessPrerequisite::IdentityInitialized));
        assert(prerequisites_in(m).contains(ReadinessPrerequisite::TrustPolicyInitialized));
        assert(prerequisites_in(m).contains(ReadinessPrerequisite::SocketBound));
        assert(prerequisites_in(m).contains(ReadinessPrerequisite::IoConfigured));
    }
}

impl Lifecycle {
    #[verifier::type_invariant]
    spec fn mask_is_bounded(self) -> bool {
        self.prerequisites < 32
    }

    /// The state the lifecycle currently reports.
    pub closed spec fn current(&self) -> State {
        self.state
    }

    /// The prerequisites satisfied so far.
    pub closed spec fn satisfied(&self) -> Set<ReadinessPrerequisite> {
        prerequisites_in(self.prerequisites)
    }

    pub fn new() -> (r: Self)
        ensures
            r.current() == State::Starting,
            r.satisfied() == Set::<ReadinessPrerequisite>::empty(),
    {
        let r = Lifecycle { state: State::Starting, prerequisites: 0 };
        proof {
            assert forall|p: ReadinessPrerequisite| !prerequisites_in(0).contains(p) by {
                let b = p.mask_bit();
                assert(0u8 & b == 0) by (bit_vector);
            }
            assert(prerequisites_in(0) =~= Set::<ReadinessPrerequisite>::empty());
        }
        r
    }

    pub fn state(&self) -> (s: State)
        ensures
            s == self.current(),
    {
        self.state
    }

    /// Records that `prerequisite` holds; recording it again changes nothing.
    pub fn satisfy(&mut self, prerequisite: ReadinessPrerequisite)
        ensures
            final(self).satisfied() == old(self).satisfied().insert(prerequisite),
            final(self).current() == old(self).current(),
    {
        proof {
            use_type_invariant(&*self);
        }
        let old_mask = self.prerequisites;
        let b = prerequisite.bit();
        proof {
            lemma_mask_or(old_mask, b, 0);
        }
        self.prerequisites = old_mask | b;
        proof {
            assert forall|p: ReadinessPrerequisite|
                #[trigger] prerequisites_in(old_mask | b).contains(p)
                    == old(self).satisfied().insert(prerequisite).contains(p) by {
                lemma_mask_or(old_mask, b, p.mask_bit());
                lemma_distinct_bits(prerequisite, p);
                let c = p.mask_bit();
                assert((b & c != 0) == (c & b != 0)) by (bit_vector);
            }
            assert(prerequisites_in(old_mask | b) =~= old(self).satisfied().insert(prerequisite));
        }
    }

    /// Ready is reported only in the Ready state with every prerequisite satisfied.
    pub fn readiness(&self) -> (r: bool)
        ensures
            r == (self.satisfied() == Set::<ReadinessPrerequisite>::full() && self.current()
                == State::Ready),
    {
        proof {
            use_type_invariant(self);
            lemma_full_mask(self.prerequisites);
        }
        self.prerequisites == ALL_PREREQUISITES && self.state == State::Ready
    }

    /// Moves to Ready when every prerequisite is satisfied, and to Failed otherwise.
    pub fn finalize_readiness(&mut self) -> (r: Result<(), ()>)
        ensures
            r is Ok <==> old(self).satisfied() == Set::<ReadinessPrerequisite>::full(),
            final(self).current() == (if r is Ok {
                State::Ready
            } else {
                State::Failed
            }),
            final(self).satisfied() == old(self).satisfied(),
    {
        proof {
            use_type_invariant(&*self);
            lemma_full_mask(self.prerequisites);
        }
        if self.prerequisites == ALL_PREREQUISITES {
            self.state = State::Ready;
            Ok(())
        } else {
            self.state = State::Failed;
            Err(())
        }
    }

    /// Moves from Ready to Draining; in any other state nothing changes.
    pub fn drain(&mut self)
        ensures
            final(self).current() == (if old(self).current() == State::Ready {
                State::Draining
            } else {
                old(self).current()
            }),
            final(self).satisfied() == old(self).satisfied(),
    {
        proof {
            use_type_invariant(&*self);
        }
        if self.state == State::Ready {
            self.state = State::Draining;
        }
    }

    pub fn stopped(&mut self)
        ensures
            final(self).current() == State::Stopped,
            final(self).satisfied() == old(self).satisfied(),
    {
        proof {
            use_type_invariant(&*self);
        }
        self.state = State::Stopped;
    }

    pub fn failed(&mut self)
        ensures
            final(self).current() == State::Failed,
            final(self).satisfied() == old(self).satisfied(),
    {
        proof {
            use_type_invariant(&*self);
        }
        self.state = State::Failed;
    }
}


/// Every named prerequisite is required: with any one of them unsatisfied,
/// the satisfied set is not complete, so `finalize_readiness` fails and the
/// lifecycle reports no readiness.
pub proof fn law_every_prerequisite_required(
    satisfied: Set<ReadinessPrerequisite>,
    missing: ReadinessPrerequisite,
)
    requires
        !satisfied.contains(missing),
    ensures
        satisfied != Set::<ReadinessPrerequisite>::full(),
{
    assert(Set::<ReadinessPrerequisite>::full().contains(missing));
}

/// Satisfying the five named prerequisites, in any order and each any
/// number of times, completes the set.
pub proof fn law_all_prerequisites_complete(satisfied: Set<ReadinessPrerequisite>)
    ensures
        satisfied.insert(ReadinessPrerequisite::ConfigurationAccepted).insert(
            ReadinessPrerequisite::IdentityInitialized,
        ).insert(ReadinessPrerequisite::TrustPolicyInitialized).insert(
            ReadinessPrerequisite::SocketBound,
        ).insert(ReadinessPrerequisite::IoConfigured) == Set::<ReadinessPrerequisite>::full(),
{
    let t = satisfied.insert(ReadinessPrerequisite::ConfigurationAccepted).insert(
        ReadinessPrerequisite::IdentityInitialized,
    ).insert(ReadinessPrerequisite::TrustPolicyInitialized).insert(
        ReadinessPrerequisite::SocketBound,
    ).insert(ReadinessPrerequisite::IoConfigured);
    assert forall|p: ReadinessPrerequisite| #[trigger] t.contains(p) by {
        match p {
            ReadinessPrerequisite::ConfigurationAccepted => {},
            ReadinessPrerequisite::IdentityInitialized => {},
            ReadinessPrerequisite::TrustPolicyInitialized => {},
            ReadinessPrerequisite::SocketBound => {},
            ReadinessPrerequisite::IoConfigured => {},
        }
    }
    assert(t =~= Set::<ReadinessPrerequisite>::full());
}

/// Satisfying a prerequisite twice is the same as satisfying it once.
pub proof fn law_satisfy_idempotent(satisfied: Set<ReadinessPrerequisite>, p: ReadinessPrerequisite)
    ensures
        satisfied.insert(p).insert(p) == satisfied.insert(p),
{
    assert(satisfied.insert(p).insert(p) =~= satisfied.insert(p));
}

/// The order in which prerequisites are satisfied does not matter.
pub proof fn law_satisfy_order_free(
    satisfied: Set<ReadinessPrerequisite>,
    p: ReadinessPrerequisite,
    q: ReadinessPrerequisite,
)
    ensures
        satisfied.insert(p).insert(q) == satisfied.insert(q).insert(p),
{
    assert(satisfied.insert(p).insert(q) =~= satisfied.insert(q).insert(p));
}

} // verus!
