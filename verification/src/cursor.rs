//! Whether the pointer is held by the window, which is also whether the
//! controller listens to input.

use vstd::prelude::*;

verus! {

/// Whether the pointer is held after a frame: a click takes hold of it, the
/// escape key lets go of it, and the escape key wins where both happen.
pub open spec fn holds_after(held: bool, clicked: bool, escaped: bool) -> bool {
    if escaped {
        false
    } else if clicked {
        true
    } else {
        held
    }
}

/// Whether the pointer is held after a frame.
pub fn manage_cursor(held: bool, clicked: bool, escaped: bool) -> (r: bool)
    ensures
        r == holds_after(held, clicked, escaped),
{
    let mut now = held;
    if clicked {
        now = true;
    }
    if escaped {
        now = false;
    }
    now
}

} // verus!
