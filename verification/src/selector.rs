//! Monitor selection: picks the display a capture targets.

use vstd::prelude::*;
use crate::error::CaptureError;

verus! {

/// The origin of one display as reported by enumeration. Only the origin
/// coordinates take part in selection, so only they are modelled.
#[derive(Clone, Copy, Debug, PartialEq, Eq, Structural)]
pub struct MonitorDescriptor {
    pub x: i32,
    pub y: i32,
}

/// A display whose origin is exactly (0, 0) is the active one.
pub open spec fn at_origin(m: MonitorDescriptor) -> bool {
    m.x == 0 && m.y == 0
}

/// Index `i` is the one selection must pick from `monitors`: the first display
/// sitting at the origin or, when none does, the first display in enumeration
/// order. Enumeration order itself is the platform's business, not ours.
pub open spec fn spec_selected(monitors: Seq<MonitorDescriptor>, i: int) -> bool {
    &&& 0 <= i < monitors.len()
    &&& if exists|j: int| 0 <= j < monitors.len() && at_origin(monitors[j]) {
        at_origin(monitors[i]) && (forall|j: int| 0 <= j < i ==> !at_origin(monitors[j]))
    } else {
        i == 0
    }
}

/// Picks the index of the display to capture, or `None` for an empty list.
pub fn select_index(monitors: &Vec<MonitorDescriptor>) -> (r: Option<usize>)
    ensures
        match r {
            Option::None => monitors@.len() == 0,
            Option::Some(i) => spec_selected(monitors@, i as int),
        },
{
    let n = monitors.len();
    let mut i: usize = 0;
    while i < n
        invariant
            n == monitors@.len(),
            i <= n,
            forall|j: int| 0 <= j < i ==> !at_origin(monitors@[j]),
        decreases n - i,
    {
        let m = monitors[i];
        if m.x == 0 && m.y == 0 {
            assert(at_origin(monitors@[i as int]));
            return Some(i);
        }
        i = i + 1;
    }
    if n > 0 {
        Some(0)
    } else {
        None
    }
}

/// Selects the display to capture, failing only on an empty display list.
pub fn select(monitors: &Vec<MonitorDescriptor>) -> (r: Result<MonitorDescriptor, CaptureError>)
    ensures
        monitors@.len() == 0 <==> r is Err,
        r matches Err(e) ==> e is NoDisplayFound,
        r matches Ok(m) ==> exists|i: int| spec_selected(monitors@, i) && m == monitors@[i],
{
    match select_index(monitors) {
        Some(i) => Ok(monitors[i]),
        None => Err(CaptureError::NoDisplayFound),
    }
}

} // verus!
