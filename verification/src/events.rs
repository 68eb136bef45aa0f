//! Change events delivered by the watchers, and the significance filter
//! that decides which of them can affect tree contents.

use vstd::prelude::*;

verus! {

/// Which way a sync pass copies: `Forward` is source to target, `Reverse`
/// is target to source.
#[derive(Clone, Copy, Debug, PartialEq, Eq, Structural)]
pub enum Direction {
    Forward,
    Reverse,
}

/// A raw filesystem change notification for one watched tree, reduced to
/// the shapes this system distinguishes. Anything that cannot change tree
/// contents (metadata-only touches, notices without a structural effect)
/// arrives as `Other`.
#[derive(Clone, Debug)]
pub enum ChangeEvent {
    Created(String),
    Removed(String),
    Written(String),
    Renamed(String, String),
    Other,
}

/// The significance table: exactly the event kinds that can alter tree
/// contents count, everything else is noise.
pub open spec fn spec_is_significant(event: ChangeEvent) -> bool {
    match event {
        ChangeEvent::Created(_) => true,
        ChangeEvent::Removed(_) => true,
        ChangeEvent::Written(_) => true,
        ChangeEvent::Renamed(_, _) => true,
        ChangeEvent::Other => false,
    }
}

/// The event filter: a total, stateless predicate. An event either warrants
/// a sync pass or is discarded; the answer depends on the event alone.
pub fn is_significant(event: &ChangeEvent) -> (significant: bool)
    ensures
        significant == spec_is_significant(*event),
{
    match event {
        ChangeEvent::Created(_) => true,
        ChangeEvent::Removed(_) => true,
        ChangeEvent::Written(_) => true,
        ChangeEvent::Renamed(_, _) => true,
        ChangeEvent::Other => false,
    }
}

} // verus!
