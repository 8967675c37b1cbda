//! Spatial resolution: which output a global coordinate lands on.
//!
//! The dispatcher works against a read snapshot of the compositor's live
//! state — the output list, the seat's active output and the current pointer
//! position — extracted under the shared state's read guard and released
//! before any injection call is made, so the guard never overlaps the call.

use vstd::prelude::*;
use crate::geometry::{Point, Rect};

verus! {

/// A read snapshot of the compositor state a single request is resolved
/// against.
#[derive(Debug)]
pub struct Snapshot {
    /// Geometry of every known output, in global coordinates.
    pub outputs: Vec<Rect>,
    /// Index of the seat's currently active output, the fallback when no
    /// output contains a position.
    pub active_output: usize,
    /// The pointer's current global position.
    pub pointer_position: Point,
    /// Whether the last-active seat has a keyboard handle.
    pub has_keyboard: bool,
    /// Whether the last-active seat has a pointer handle.
    pub has_pointer: bool,
    /// Whether the last-active seat has a touch handle.
    pub has_touch: bool,
}

impl Snapshot {
    /// A usable snapshot: at least one output, a valid active-output index,
    /// and well-formed geometry throughout.
    pub open spec fn wf(self) -> bool {
        &&& self.active_output < self.outputs@.len()
        &&& forall|j: int| 0 <= j < self.outputs@.len() ==> (#[trigger] self.outputs@[j]).wf()
    }
}

/// The first output in `outputs` whose geometry contains `p`, if any.
pub open spec fn spec_find_containing(outputs: Seq<Rect>, p: Point) -> Option<int>
    decreases outputs.len(),
{
    if outputs.len() == 0 {
        None
    } else if outputs[0].spec_contains(p) {
        Some(0)
    } else {
        match spec_find_containing(outputs.drop_first(), p) {
            Some(i) => Some(i + 1),
            None => None,
        }
    }
}

/// [`spec_find_containing`] returns the least index of a containing output,
/// and `None` exactly when no output contains the point.
pub proof fn lemma_find_containing(outputs: Seq<Rect>, p: Point)
    ensures
        match spec_find_containing(outputs, p) {
            Some(i) => {
                &&& 0 <= i < outputs.len()
                &&& outputs[i].spec_contains(p)
                &&& forall|j: int| 0 <= j < i ==> !(#[trigger] outputs[j]).spec_contains(p)
            },
            None => forall|j: int|
                0 <= j < outputs.len() ==> !(#[trigger] outputs[j]).spec_contains(p),
        },
    decreases outputs.len(),
{
    if outputs.len() == 0 {
    } else if outputs[0].spec_contains(p) {
    } else {
        let rest = outputs.drop_first();
        lemma_find_containing(rest, p);
        assert(forall|j: int| 0 <= j < rest.len() ==> #[trigger] rest[j] == outputs[j + 1]);
        match spec_find_containing(rest, p) {
            Some(i) => {
                assert(rest[i] == outputs[i + 1]);
                assert forall|j: int| 0 <= j < i + 1 implies !(#[trigger] outputs[j]).spec_contains(
                    p,
                ) by {
                    if j > 0 {
                        assert(!rest[j - 1].spec_contains(p));
                    }
                }
            },
            None => {
                assert forall|j: int|
                    0 <= j < outputs.len() implies !(#[trigger] outputs[j]).spec_contains(p) by {
                    if j > 0 {
                        assert(!rest[j - 1].spec_contains(p));
                    }
                }
            },
        }
    }
}

/// Find the first output containing `p`, scanning in the snapshot's order.
pub fn find_containing_output(outputs: &Vec<Rect>, p: &Point) -> (r: Option<usize>)
    requires
        forall|j: int| 0 <= j < outputs@.len() ==> (#[trigger] outputs@[j]).wf(),
    ensures
        match r {
            Some(i) => spec_find_containing(outputs@, *p) == Some(i as int),
            None => spec_find_containing(outputs@, *p) is None,
        },
{
    let mut i: usize = 0;
    while i < outputs.len()
        invariant
            i <= outputs@.len(),
            forall|j: int| 0 <= j < outputs@.len() ==> (#[trigger] outputs@[j]).wf(),
            forall|j: int| 0 <= j < i ==> !(#[trigger] outputs@[j]).spec_contains(*p),
        decreases outputs@.len() - i,
    {
        if outputs[i].contains(p) {
            proof {
                lemma_find_containing(outputs@, *p);
            }
            return Some(i);
        }
        i = i + 1;
    }
    proof {
        lemma_find_containing(outputs@, *p);
    }
    None
}

/// The output a position resolves to: the first output containing it, or the
/// seat's active output when none does.
pub open spec fn spec_resolved_output(snap: Snapshot, p: Point) -> int {
    match spec_find_containing(snap.outputs@, p) {
        Some(i) => i,
        None => snap.active_output as int,
    }
}

/// Resolve `p` against the snapshot's outputs, falling back to the active
/// output.
pub fn resolve_output(snap: &Snapshot, p: &Point) -> (idx: usize)
    requires
        snap.wf(),
    ensures
        idx as int == spec_resolved_output(*snap, *p),
        idx < snap.outputs@.len(),
{
    match find_containing_output(&snap.outputs, p) {
        Some(i) => {
            proof {
                lemma_find_containing(snap.outputs@, *p);
            }
            i
        },
        None => snap.active_output,
    }
}

/// The output under which a touch target is looked up: touch contacts
/// resolve exactly as pointer positions do — the first output containing the
/// point, falling back to the seat's active output when none does.
pub fn resolve_touch_target(snap: &Snapshot, p: &Point) -> (idx: usize)
    requires
        snap.wf(),
    ensures
        idx as int == spec_resolved_output(*snap, *p),
        idx < snap.outputs@.len(),
{
    resolve_output(snap, p)
}

} // verus!
