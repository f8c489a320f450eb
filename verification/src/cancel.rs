//! The cancellation of a run.
//!
//! One signal tells how hard a run is asked to stop. It only ever gets
//! stronger, so that asking twice, or asking for less, changes nothing.

use vstd::prelude::*;
use crate::dup::Dup;
use crate::time::Instant;

verus! {

/// How hard a run is asked to stop. Each is more than the one before it.
#[derive(Debug, Clone, Copy, PartialEq, Eq, Structural)]
pub enum CancelSignal {
    /// Not at all.
    Idle,
    /// Running phases end, queued ones are skipped, the teardown runs.
    Graceful,
    /// Running phases are killed, the teardown still runs.
    Interrupt,
    /// Everything is killed, without a teardown.
    Force,
}

impl DeepView for CancelSignal {
    type V = CancelSignal;

    open spec fn deep_view(&self) -> CancelSignal {
        *self
    }
}

impl Dup for CancelSignal {
    fn dup(&self) -> (copy: Self) {
        *self
    }
}

/// How strong a signal is.
pub open spec fn strength(s: CancelSignal) -> int {
    match s {
        CancelSignal::Idle => 0,
        CancelSignal::Graceful => 1,
        CancelSignal::Interrupt => 2,
        CancelSignal::Force => 3,
    }
}

fn reaches(s: CancelSignal, least: CancelSignal) -> (yes: bool)
    ensures
        yes == (strength(s) >= strength(least)),
{
    match (s, least) {
        (_, CancelSignal::Idle) => true,
        (CancelSignal::Idle, _) => false,
        (_, CancelSignal::Graceful) => true,
        (CancelSignal::Graceful, _) => false,
        (_, CancelSignal::Interrupt) => true,
        (CancelSignal::Interrupt, _) => false,
        (CancelSignal::Force, CancelSignal::Force) => true,
    }
}

/// The stronger of two signals.
pub open spec fn stronger(a: CancelSignal, b: CancelSignal) -> CancelSignal {
    if strength(a) >= strength(b) {
        a
    } else {
        b
    }
}

/// The side that asks a run to stop.
#[derive(Debug, PartialEq, Eq)]
pub struct CancelToken {
    pub signal: CancelSignal,
    /// When the operating system ends the process, where it said so.
    pub deadline: Option<Instant>,
    /// Whether the teardown of the run has begun.
    pub teardown: bool,
}

/// What a run sees of its cancellation.
#[derive(Debug, PartialEq, Eq)]
pub struct Receiver {
    pub signal: CancelSignal,
    pub deadline: Option<Instant>,
    /// Whether nobody can ask any more.
    pub abandoned: bool,
}

/// What a wait for a signal gives: the signal once it is strong enough; where
/// nobody can ask any more a force kill, so that the run winds down; nothing
/// while it is to wait on.
pub open spec fn awaited(r: Receiver, least: CancelSignal) -> Option<CancelSignal> {
    if strength(r.signal) >= strength(least) {
        Some(r.signal)
    } else if r.abandoned {
        Some(CancelSignal::Force)
    } else {
        None
    }
}

impl CancelToken {
    /// Nobody has asked yet.
    pub fn new() -> (token: Self)
        ensures
            token == (CancelToken {
                signal: CancelSignal::Idle,
                deadline: None,
                teardown: false,
            }),
    {
        CancelToken { signal: CancelSignal::Idle, deadline: None, teardown: false }
    }

    /// What the run sees, where the asking side is there or gone.
    pub fn receiver(&self, abandoned: bool) -> (r: Receiver)
        ensures
            r == (Receiver { signal: self.signal, deadline: self.deadline, abandoned }),
    {
        Receiver { signal: self.signal, deadline: self.deadline, abandoned }
    }

    /// Asks for a graceful stop, and says whether that is news.
    pub fn cancel(&mut self) -> (changed: bool)
        ensures
            *final(self) == (CancelToken {
                signal: stronger(old(self).signal, CancelSignal::Graceful),
                ..*old(self)
            }),
            changed == (final(self).signal != old(self).signal),
    {
        if reaches(self.signal, CancelSignal::Graceful) {
            false
        } else {
            self.signal = CancelSignal::Graceful;
            true
        }
    }

    /// Asks for the running phases to be killed, and says whether that is
    /// news.
    pub fn interrupt(&mut self) -> (changed: bool)
        ensures
            *final(self) == (CancelToken {
                signal: stronger(old(self).signal, CancelSignal::Interrupt),
                ..*old(self)
            }),
            changed == (final(self).signal != old(self).signal),
    {
        if reaches(self.signal, CancelSignal::Interrupt) {
            false
        } else {
            self.signal = CancelSignal::Interrupt;
            true
        }
    }

    /// Asks for an interrupt with a deadline behind it. A deadline that is
    /// known is not moved.
    pub fn interrupt_by(&mut self, deadline: Option<Instant>) -> (changed: bool)
        ensures
            *final(self) == (CancelToken {
                signal: stronger(old(self).signal, CancelSignal::Interrupt),
                deadline: if old(self).deadline is Some {
                    old(self).deadline
                } else {
                    deadline
                },
                ..*old(self)
            }),
            changed == (final(self).signal != old(self).signal),
    {
        if self.deadline.is_none() {
            self.deadline = deadline;
        }
        self.interrupt()
    }

    /// Asks for a force kill, and says whether that is news.
    pub fn kill(&mut self) -> (changed: bool)
        ensures
            *final(self) == (CancelToken { signal: CancelSignal::Force, ..*old(self) }),
            changed == (final(self).signal != old(self).signal),
    {
        if reaches(self.signal, CancelSignal::Force) {
            false
        } else {
            self.signal = CancelSignal::Force;
            true
        }
    }

    /// Records that the teardown of the run has begun.
    pub fn mark_teardown_started(&mut self)
        ensures
            *final(self) == (CancelToken { teardown: true, ..*old(self) }),
    {
        self.teardown = true;
    }

    /// Whether the teardown of the run has begun.
    pub fn teardown_started(&self) -> (yes: bool)
        ensures
            yes == self.teardown,
    {
        self.teardown
    }
}

impl Receiver {
    /// When the operating system ends the process, where it said so.
    pub fn deadline(&self) -> (at: Option<Instant>)
        ensures
            at == self.deadline,
    {
        self.deadline
    }

    fn wait_for(&self, least: CancelSignal) -> (signal: Option<CancelSignal>)
        ensures
            signal == awaited(*self, least),
    {
        if reaches(self.signal, least) {
            Some(self.signal)
        } else if self.abandoned {
            Some(CancelSignal::Force)
        } else {
            None
        }
    }

    /// What a wait for any stop gives; `None` to wait on.
    pub fn wait_any(&self) -> (signal: Option<CancelSignal>)
        ensures
            signal == awaited(*self, CancelSignal::Graceful),
    {
        self.wait_for(CancelSignal::Graceful)
    }

    /// What a wait for an interrupt gives; `None` to wait on.
    pub fn wait_interrupt(&self) -> (signal: Option<CancelSignal>)
        ensures
            signal == awaited(*self, CancelSignal::Interrupt),
    {
        self.wait_for(CancelSignal::Interrupt)
    }

    /// What a wait for a force kill gives; `None` to wait on.
    pub fn wait_force(&self) -> (signal: Option<CancelSignal>)
        ensures
            signal == awaited(*self, CancelSignal::Force),
    {
        self.wait_for(CancelSignal::Force)
    }
}

// ---------------------------------------------------------------------------
// Laws
// ---------------------------------------------------------------------------

/// Asking never weakens the signal, and asking twice is asking once.
pub proof fn law_cancellation_escalates(have: CancelSignal, ask: CancelSignal)
    ensures
        strength(stronger(have, ask)) >= strength(have),
        strength(stronger(have, ask)) >= strength(ask),
        stronger(stronger(have, ask), ask) == stronger(have, ask),
        stronger(CancelSignal::Force, ask) == CancelSignal::Force,
{
}

/// The order in which stops are asked for does not matter.
pub proof fn law_order_of_asking_does_not_matter(
    have: CancelSignal,
    a: CancelSignal,
    b: CancelSignal,
)
    ensures
        stronger(stronger(have, a), b) == stronger(stronger(have, b), a),
{
}

/// Whoever waits for less is woken by more.
pub proof fn law_stronger_signals_wake_weaker_waits(
    r: Receiver,
    least: CancelSignal,
    more: CancelSignal,
)
    requires
        strength(least) <= strength(more),
        awaited(r, more) is Some,
    ensures
        awaited(r, least) is Some,
{
}

} // verus!
