//! Raw filesystem events and their classification.

use vstd::prelude::*;

verus! {

/// The kind of a raw filesystem notification. Creations, modifications
/// and removals are the relevant kinds; everything else is observed but
/// never starts or extends a debounce window.
#[derive(Clone, Copy, Debug, PartialEq, Eq, Structural)]
pub enum EventKind {
    Created,
    Modified,
    Removed,
    Other,
}

/// A single filesystem notification: its kind and the affected path.
/// Transient; it is not retained beyond the coalescing window.
#[derive(Debug)]
pub struct RawEvent {
    pub kind: EventKind,
    pub path: String,
}

/// A kind is relevant when it reports a creation, modification or removal.
pub open spec fn is_relevant(k: EventKind) -> bool {
    match k {
        EventKind::Created => true,
        EventKind::Modified => true,
        EventKind::Removed => true,
        EventKind::Other => false,
    }
}

/// Decides whether an event kind is one of the relevant kinds.
pub fn kind_is_relevant(k: &EventKind) -> (r: bool)
    ensures
        r == is_relevant(*k),
{
    match k {
        EventKind::Created => true,
        EventKind::Modified => true,
        EventKind::Removed => true,
        EventKind::Other => false,
    }
}

} // verus!
