use vstd::prelude::*;

use crate::geometry::Rectangle;
use crate::resize::ResizeEvent;

verus! {

/// A press on one of the three title-bar buttons.
#[derive(Clone, Copy, Debug, PartialEq, Eq, Structural)]
pub enum TitleEvents {
    Minimize,
    Restore,
    Close,
}

/// An application-level window event: a resize gesture from the resize
/// controller, a title-bar button press, or the start of a native move drag
/// from the title strip.
#[derive(Clone, Copy, Debug, PartialEq, Eq, Structural)]
pub enum WindowEvents {
    ResizeEvent(ResizeEvent),
    TitleEvent(TitleEvents),
    DragWindow,
}

/// An abstract command for the host window manager. These are the only
/// effects the chrome ever requests; it never mutates the window itself.
#[derive(Clone, Copy, Debug, PartialEq, Eq, Structural)]
pub enum WindowAction {
    Resize { width: u32, height: u32 },
    Move { x: i32, y: i32 },
    SetMinimized(bool),
    Close,
    BeginNativeDrag,
}

/// A pixel extent squeezed into the `u32` a resize command carries: negative
/// values become zero, values past `u32::MAX` become `u32::MAX`.
pub open spec fn sat_u32(v: int) -> u32 {
    if v < 0 {
        0u32
    } else if v > 0xFFFF_FFFF {
        0xFFFF_FFFFu32
    } else {
        v as u32
    }
}

/// A pixel position squeezed into the `i32` a move command carries,
/// saturating at both ends.
pub open spec fn sat_i32(v: int) -> i32 {
    if v < -0x8000_0000 {
        (-0x8000_0000) as i32
    } else if v > 0x7FFF_FFFF {
        0x7FFF_FFFFi32
    } else {
        v as i32
    }
}

/// The ordered batch of window-manager actions one window event translates
/// to. A size-only gesture becomes a single resize; a combined gesture
/// becomes a resize followed by a move — the resize always comes first, to
/// keep visible flicker down. The title buttons map to minimize, restore and
/// close; the title strip's press-to-move event to a native drag. Geometry
/// saturates into the command's integer widths.
pub open spec fn spec_event_actions(event: WindowEvents) -> Seq<WindowAction> {
    match event {
        WindowEvents::ResizeEvent(re) => match re {
            ResizeEvent::ResizeXY(size) => seq![
                WindowAction::Resize {
                    width: sat_u32(size.width as int),
                    height: sat_u32(size.height as int),
                },
            ],
            ResizeEvent::ResizeWindow(rect) => seq![
                WindowAction::Resize {
                    width: sat_u32(rect.width as int),
                    height: sat_u32(rect.height as int),
                },
                WindowAction::Move { x: sat_i32(rect.x as int), y: sat_i32(rect.y as int) },
            ],
        },
        WindowEvents::TitleEvent(te) => match te {
            TitleEvents::Minimize => seq![WindowAction::SetMinimized(true)],
            TitleEvents::Restore => seq![WindowAction::SetMinimized(false)],
            TitleEvents::Close => seq![WindowAction::Close],
        },
        WindowEvents::DragWindow => seq![WindowAction::BeginNativeDrag],
    }
}

fn saturate_u32(v: i64) -> (r: u32)
    ensures
        r == sat_u32(v as int),
{
    if v < 0 {
        0
    } else if v > 0xFFFF_FFFFi64 {
        0xFFFF_FFFFu32
    } else {
        v as u32
    }
}

fn saturate_i32(v: i64) -> (r: i32)
    ensures
        r == sat_i32(v as int),
{
    if v < -0x8000_0000i64 {
        -0x8000_0000i32
    } else if v > 0x7FFF_FFFFi64 {
        0x7FFF_FFFFi32
    } else {
        v as i32
    }
}

/// Each title-bar button always translates to exactly its one action:
/// minimize to `SetMinimized(true)`, restore to `SetMinimized(false)`, close
/// to `Close`. The translation takes nothing but the event, so the batch is
/// the same whatever drag a resize controller happens to be in.
pub proof fn lemma_title_actions_fixed()
    ensures
        spec_event_actions(WindowEvents::TitleEvent(TitleEvents::Minimize)) == seq![
            WindowAction::SetMinimized(true),
        ],
        spec_event_actions(WindowEvents::TitleEvent(TitleEvents::Restore)) == seq![
            WindowAction::SetMinimized(false),
        ],
        spec_event_actions(WindowEvents::TitleEvent(TitleEvents::Close)) == seq![
            WindowAction::Close,
        ],
{
}

/// A combined resize-and-move gesture always translates to a batch of
/// exactly two actions, the resize strictly before the move.
pub proof fn lemma_resize_window_batch(rect: Rectangle)
    ensures
        spec_event_actions(WindowEvents::ResizeEvent(ResizeEvent::ResizeWindow(rect))).len() == 2,
        spec_event_actions(WindowEvents::ResizeEvent(ResizeEvent::ResizeWindow(rect)))[0] is Resize,
        spec_event_actions(WindowEvents::ResizeEvent(ResizeEvent::ResizeWindow(rect)))[1] is Move,
{
}

/// The stateless window chrome: its composition lives in the embedding
/// shell, its event translation here.
pub struct Window;

impl Window {
    /// Translates one window event into its ordered action batch; the whole
    /// mapping is `spec_event_actions`.
    pub fn event_handler(event: WindowEvents) -> (r: Vec<WindowAction>)
        ensures
            r@ == spec_event_actions(event),
    {
        let mut actions: Vec<WindowAction> = Vec::new();
        match event {
            WindowEvents::ResizeEvent(re) => match re {
                ResizeEvent::ResizeXY(size) => {
                    actions.push(
                        WindowAction::Resize {
                            width: saturate_u32(size.width),
                            height: saturate_u32(size.height),
                        },
                    );
                },
                ResizeEvent::ResizeWindow(rect) => {
                    actions.push(
                        WindowAction::Resize {
                            width: saturate_u32(rect.width),
                            height: saturate_u32(rect.height),
                        },
                    );
                    actions.push(WindowAction::Move { x: saturate_i32(rect.x), y: saturate_i32(rect.y) });
                },
            },
            WindowEvents::TitleEvent(te) => match te {
                TitleEvents::Minimize => {
                    actions.push(WindowAction::SetMinimized(true));
                },
                TitleEvents::Restore => {
                    actions.push(WindowAction::SetMinimized(false));
                },
                TitleEvents::Close => {
                    actions.push(WindowAction::Close);
                },
            },
            WindowEvents::DragWindow => {
                actions.push(WindowAction::BeginNativeDrag);
            },
        }
        proof {
            assert(actions@ =~= spec_event_actions(event));
        }
        actions
    }
}

} // verus!
