//! The mutual-exclusion core. One guard serializes the two sync
//! directions: a significant event starts a pass only when no pass is in
//! flight, the losing side of a race drops its event instead of queuing
//! it, and a completed pass — failed or not — always releases the guard.
//! A trace model of the same step function carries the proofs that at most
//! one pass is ever active and that no failure can lock the reactor up.

use vstd::prelude::*;

use crate::config::Mirror;
use crate::events::ChangeEvent;
use crate::events::Direction;
use crate::events::spec_is_significant;

verus! {

/// Whether a successful forward pass is followed by a diff report, or
/// reporting is switched off entirely.
#[derive(Clone, Copy, Debug, PartialEq, Eq, Structural)]
pub enum DiffMode {
    NotCopied,
    Off,
}

/// The single mutual-exclusion token. Its holder is the direction of the
/// pass currently in flight, if any; both direction loops contend on one
/// instance of it, only ever through non-blocking acquisition.
pub struct SyncGuard {
    holder: Option<Direction>,
}

impl SyncGuard {
    /// The direction of the pass currently in flight, if any.
    pub closed spec fn spec_holder(self) -> Option<Direction> {
        self.holder
    }

    pub fn new() -> (guard: SyncGuard)
        ensures
            guard.spec_holder() is None,
    {
        SyncGuard { holder: None }
    }

    /// Non-blocking acquisition: succeeds exactly when the guard is free,
    /// and a losing caller leaves the guard exactly as it found it.
    pub fn try_acquire(&mut self, direction: Direction) -> (acquired: bool)
        ensures
            acquired == (old(self).spec_holder() is None),
            acquired ==> final(self).spec_holder() == Some(direction),
            !acquired ==> final(self).spec_holder() == old(self).spec_holder(),
    {
        match self.holder {
            Option::None => {
                self.holder = Some(direction);
                true
            },
            Option::Some(_) => false,
        }
    }

    /// Releasing is unconditional on how the pass went: the guard is free
    /// afterwards, always.
    pub fn release(&mut self)
        requires
            old(self).spec_holder() is Some,
        ensures
            final(self).spec_holder() is None,
    {
        self.holder = None;
    }
}

/// One input consumed by the reactor: either a watcher delivered an event
/// on one side, or the pass in flight finished with the given result.
pub enum ReactorInput {
    Trigger { direction: Direction, significant: bool },
    Completion { direction: Direction, success: bool },
}

/// The reactor's whole step function over the guard state. A significant
/// trigger on a free guard hands the guard to its direction; a trigger on
/// a held guard is dropped, not queued; a completion frees the guard
/// whether the pass succeeded or failed.
pub open spec fn spec_step(holder: Option<Direction>, input: ReactorInput) -> Option<Direction> {
    match input {
        ReactorInput::Trigger { direction, significant } => {
            if significant && holder is None {
                Some(direction)
            } else {
                holder
            }
        },
        ReactorInput::Completion { .. } => None,
    }
}

/// Whether this input begins a sync pass: a significant trigger arriving
/// while the guard is free.
pub open spec fn spec_starts(holder: Option<Direction>, input: ReactorInput) -> bool {
    input matches ReactorInput::Trigger { significant, .. } && significant && holder is None
}

/// Whether this input ends a sync pass: a completion arriving while one
/// is in flight.
pub open spec fn spec_finishes(holder: Option<Direction>, input: ReactorInput) -> bool {
    input is Completion && holder is Some
}

/// The guard state after consuming a whole trace of inputs, in order.
pub open spec fn spec_holder_after(init: Option<Direction>, trace: Seq<ReactorInput>) -> Option<
    Direction,
>
    decreases trace.len(),
{
    if trace.len() == 0 {
        init
    } else {
        spec_step(spec_holder_after(init, trace.drop_last()), trace.last())
    }
}

/// How many external sync invocations are active after a trace: passes
/// begun minus passes finished, counting one for a pass already in flight
/// at the start.
pub open spec fn spec_in_flight(init: Option<Direction>, trace: Seq<ReactorInput>) -> int
    decreases trace.len(),
{
    if trace.len() == 0 {
        if init is Some {
            1
        } else {
            0
        }
    } else {
        let before = spec_holder_after(init, trace.drop_last());
        spec_in_flight(init, trace.drop_last()) + (
        if spec_starts(before, trace.last()) {
            1int
        } else {
            0int
        }) - (
        if spec_finishes(before, trace.last()) {
            1int
        } else {
            0int
        })
    }
}

/// Mutual exclusion: however forward and reverse triggers and completions
/// interleave, the number of sync invocations in flight equals whether the
/// guard is held, so it never exceeds one.
pub proof fn lemma_mutual_exclusion(init: Option<Direction>, trace: Seq<ReactorInput>)
    ensures
        spec_in_flight(init, trace) == (
        if spec_holder_after(init, trace) is Some {
            1int
        } else {
            0int
        }),
        0 <= spec_in_flight(init, trace) <= 1,
    decreases trace.len(),
{
    if trace.len() > 0 {
        lemma_mutual_exclusion(init, trace.drop_last());
    }
}

/// Mutual exclusion at every instant of an interleaving: no prefix of the
/// trace ever has more than one sync invocation active.
pub proof fn lemma_at_most_one_in_flight(init: Option<Direction>, trace: Seq<ReactorInput>)
    ensures
        forall|i: int|
            0 <= i <= trace.len() ==> 0 <= spec_in_flight(init, #[trigger] trace.take(i)) <= 1,
{
    assert forall|i: int|
        0 <= i <= trace.len() implies 0 <= spec_in_flight(init, #[trigger] trace.take(i)) <= 1 by {
        lemma_mutual_exclusion(init, trace.take(i));
    }
}

/// No lockout: a trace that ends with a completion — a failed pass as much
/// as a successful one — leaves the guard free, so the next significant
/// event in either direction begins a pass.
pub proof fn lemma_no_lockout(init: Option<Direction>, trace: Seq<ReactorInput>, direction: Direction)
    requires
        trace.len() > 0,
        trace.last() is Completion,
    ensures
        spec_holder_after(init, trace) is None,
        spec_starts(
            spec_holder_after(init, trace),
            ReactorInput::Trigger { direction, significant: true },
        ),
{
}

/// The reactor: the validated mirror configuration, the reporting mode,
/// and the one guard both direction loops contend on.
pub struct Watchdog {
    pub reactor: Mirror,
    pub mode: DiffMode,
    pub guard: SyncGuard,
}

impl Watchdog {
    /// The direction of the sync pass in flight, if any.
    pub open spec fn spec_holder(self) -> Option<Direction> {
        self.guard.spec_holder()
    }

    pub fn new(reactor: Mirror, mode: DiffMode) -> (watchdog: Watchdog)
        ensures
            watchdog.reactor == reactor,
            watchdog.mode == mode,
            watchdog.spec_holder() is None,
    {
        Watchdog { reactor, mode, guard: SyncGuard::new() }
    }

    /// The in-flight direction, for the surrounding loop to inspect.
    pub fn in_flight(&self) -> (direction: Option<Direction>)
        ensures
            direction == self.spec_holder(),
    {
        match self.guard.holder {
            Option::None => None,
            Option::Some(d) => Some(d),
        }
    }

    /// One watcher event arrives on the given side. The pass starts
    /// exactly when the event is significant and no pass is in flight;
    /// otherwise the event is dropped and nothing changes. The caller runs
    /// the external sync only when told to, and reports back through
    /// [`Watchdog::on_sync_complete`].
    pub fn on_event(&mut self, direction: Direction, event: &ChangeEvent) -> (started: bool)
        ensures
            started == (spec_is_significant(*event) && old(self).spec_holder() is None),
            final(self).spec_holder() == spec_step(
                old(self).spec_holder(),
                ReactorInput::Trigger {
                    direction,
                    significant: spec_is_significant(*event),
                },
            ),
            started ==> final(self).spec_holder() == Some(direction),
            !started ==> final(self).spec_holder() == old(self).spec_holder(),
            final(self).reactor == old(self).reactor,
            final(self).mode == old(self).mode,
    {
        if crate::events::is_significant(event) {
            self.guard.try_acquire(direction)
        } else {
            false
        }
    }

    /// The pass in flight finished. The guard is released no matter how
    /// the pass went — a failed sync must never leave the reactor locked —
    /// and the caller is told to compute a diff report exactly when a
    /// forward pass succeeded and reporting is on.
    pub fn on_sync_complete(&mut self, outcome: &crate::executor::SyncOutcome) -> (report: bool)
        requires
            old(self).spec_holder() == Some(outcome.direction),
        ensures
            final(self).spec_holder() is None,
            final(self).spec_holder() == spec_step(
                old(self).spec_holder(),
                ReactorInput::Completion {
                    direction: outcome.direction,
                    success: outcome.success,
                },
            ),
            report == (outcome.direction is Forward && outcome.success && old(self).mode is NotCopied),
            final(self).reactor == old(self).reactor,
            final(self).mode == old(self).mode,
    {
        self.guard.release();
        matches!(outcome.direction, Direction::Forward) && outcome.success && matches!(
            self.mode,
            DiffMode::NotCopied,
        )
    }
}

} // verus!
