//! The observation window of Carrier health: a datagram that proves progress
//! restarts the window, junk datagrams are ignored up to a budget, and a
//! window that ends without progress is a failure to record.
//!
//! Times are microseconds on one monotonic clock. The health evidence itself
//! is kept by the caller, which records a progress event when `observe`
//! answers [`WindowStep::Progress`], and a failure event when it answers
//! [`WindowStep::Expired`] or when `expire` succeeds, restarting the window
//! once the failure is recorded.
use vstd::prelude::*;

verus! {

/// How an arriving datagram bears on Carrier health.
#[derive(Clone, Copy, Debug, PartialEq, Eq, Structural)]
pub enum HealthDatagram {
    WrongPeer,
    MalformedOrUnadmitted,
    StaleOrNonmatchingAuthenticated,
    PermittedProgress,
}

#[derive(Clone, Copy, Debug, PartialEq, Eq)]
pub enum HealthWindowError {
    /// The health evidence refused an event.
    Evidence(&'static str),
    /// More junk datagrams arrived than the window admits.
    AdmissionBudgetExhausted { ignored: usize },
    /// The window has not ended yet.
    NotExpired,
}

/// What the caller must do after a datagram was observed.
#[derive(Clone, Copy, Debug, PartialEq, Eq, Structural)]
pub enum WindowStep {
    /// The window had ended: record a failure, then restart the window.
    Expired,
    /// The window restarted on progress: record a progress event.
    Progress,
    /// The datagram was ignored.
    Ignored,
}

pub struct HealthObservationWindow {
    started_at: u64,
    deadline: u64,
    duration: u64,
    ignored: usize,
    max_ignored: usize,
}

impl HealthObservationWindow {
    #[verifier::type_invariant]
    spec fn well_formed(self) -> bool {
        &&& self.deadline == self.started_at + self.duration
        &&& self.ignored <= self.max_ignored
    }

    pub closed spec fn start(&self) -> u64 {
        self.started_at
    }

    pub closed spec fn end(&self) -> u64 {
        self.deadline
    }

    pub closed spec fn length(&self) -> u64 {
        self.duration
    }

    pub closed spec fn ignored_count(&self) -> usize {
        self.ignored
    }

    pub closed spec fn budget(&self) -> usize {
        self.max_ignored
    }

    pub fn new(started_at: u64, duration: u64, max_ignored: usize) -> (w: Self)
        requires
            started_at + duration <= u64::MAX,
        ensures
            w.start() == started_at,
            w.end() == started_at + duration,
            w.length() == duration,
            w.ignored_count() == 0,
            w.budget() == max_ignored,
    {
        HealthObservationWindow {
            started_at,
            deadline: started_at + duration,
            duration,
            ignored: 0,
            max_ignored,
        }
    }

    pub fn started_at(&self) -> (t: u64)
        ensures
            t == self.start(),
    {
        self.started_at
    }

    pub fn deadline(&self) -> (t: u64)
        ensures
            t == self.end(),
    {
        self.deadline
    }

    /// Starts a fresh window at `now`, with no datagram ignored.
    pub fn restart(&mut self, now: u64)
        requires
            now + old(self).length() <= u64::MAX,
        ensures
            final(self).start() == now,
            final(self).end() == now + old(self).length(),
            final(self).length() == old(self).length(),
            final(self).ignored_count() == 0,
            final(self).budget() == old(self).budget(),
    {
        *self = HealthObservationWindow {
            started_at: now,
            deadline: now + self.duration,
            duration: self.duration,
            ignored: 0,
            max_ignored: self.max_ignored,
        };
    }

    /// Observes a datagram at `now`. An ended window is reported first and
    /// left as it is; progress restarts the window; junk is counted until the
    /// budget is spent and refused after that, without moving the window.
    pub fn observe(&mut self, datagram: HealthDatagram, now: u64) -> (r: Result<
        WindowStep,
        HealthWindowError,
    >)
        requires
            now + old(self).length() <= u64::MAX,
        ensures
            final(self).length() == old(self).length(),
            final(self).budget() == old(self).budget(),
            now >= old(self).end() ==> r == Ok::<WindowStep, HealthWindowError>(WindowStep::Expired)
                && *final(self) == *old(self),
            now < old(self).end() && datagram == HealthDatagram::PermittedProgress ==> r == Ok::<
                WindowStep,
                HealthWindowError,
            >(WindowStep::Progress) && final(self).start() == now && final(self).end() == now
                + old(self).length() && final(self).ignored_count() == 0,
            now < old(self).end() && datagram != HealthDatagram::PermittedProgress ==> (if old(
                self,
            ).ignored_count() == old(self).budget() {
                r == Err::<WindowStep, HealthWindowError>(
                    HealthWindowError::AdmissionBudgetExhausted { ignored: old(self).ignored_count() },
                ) && *final(self) == *old(self)
            } else {
                r == Ok::<WindowStep, HealthWindowError>(WindowStep::Ignored) && final(self).start()
                    == old(self).start() && final(self).end() == old(self).end()
                    && final(self).ignored_count() == old(self).ignored_count() + 1
            }),
    {
        proof {
            use_type_invariant(&*self);
        }
        if now >= self.deadline {
            return Ok(WindowStep::Expired);
        }
        match datagram {
            HealthDatagram::PermittedProgress => {
                self.restart(now);
                Ok(WindowStep::Progress)
            },
            _ => {
                if self.ignored == self.max_ignored {
                    return Err(HealthWindowError::AdmissionBudgetExhausted { ignored: self.ignored });
                }
                self.ignored = self.ignored + 1;
                Ok(WindowStep::Ignored)
            },
        }
    }

    /// Whether the window may be expired at `now`: only at or after its end.
    pub fn check_expired(&self, now: u64) -> (r: Result<(), HealthWindowError>)
        ensures
            now < self.end() ==> r == Err::<(), HealthWindowError>(HealthWindowError::NotExpired),
            now >= self.end() ==> r is Ok,
    {
        if now < self.deadline {
            return Err(HealthWindowError::NotExpired);
        }
        Ok(())
    }
}

} // verus!
