//! Mouse input: a left click moves on to the next point of interest.

use vstd::prelude::*;

use crate::events::CyclePOIEvent;

verus! {

/// A left click moves on to the next point of interest.
pub fn mouse_click(left_just_pressed: bool) -> (r: Option<CyclePOIEvent>)
    ensures
        r == (if left_just_pressed {
            Some(CyclePOIEvent)
        } else {
            None
        }),
{
    if left_just_pressed {
        Some(CyclePOIEvent {})
    } else {
        None
    }
}

} // verus!
