use vstd::prelude::*;

use crate::geometry::{Point, Rectangle};
use crate::resize::InputEvent;

verus! {

/// The title strip's reaction to one host event: whether to publish its
/// press-to-move message.
///
/// The strip emits the message exactly on a pointer press inside its bounds
/// — a mouse button press or a first touch contact, never motion. It does no
/// tracking of its own: the message is meant to start the window manager's
/// native move drag. It never captures an event, so releases and everything
/// else pass through to the surrounding tree untouched.
pub fn drag_window_on_event(event: InputEvent, bounds: &Rectangle, cursor: Point) -> (emit: bool)
    requires
        bounds.wf(),
        cursor.wf(),
    ensures
        emit == (event is PointerPressed && bounds.spec_contains(cursor)),
{
    match event {
        InputEvent::PointerPressed => bounds.contains(cursor),
        _ => false,
    }
}

} // verus!
