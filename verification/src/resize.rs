use vstd::prelude::*;

use crate::geometry::{coord_ok, Point, Rectangle, Size};

verus! {

/// Width, in logical pixels, of the zone along each border of the content
/// bounds where a press starts a resize gesture instead of reaching the
/// wrapped child.
pub const EDGE_MARGIN: i64 = 5;

/// The single active resize direction tracked across frames for one widget
/// instance. At most one direction is active at a time; a press in a corner
/// resolves to one direction by the fixed priority of `spec_hit_test`, so no
/// diagonal mode exists.
#[derive(Clone, Copy, Debug, PartialEq, Eq, Structural)]
pub enum DragMode {
    Idle,
    Left,
    Right,
    Top,
    Bottom,
}

/// A geometry-only gesture event produced while a drag mode is active.
///
/// `ResizeXY` carries a new size alone (right/bottom drags); `ResizeWindow`
/// carries a combined new position and size (left/top drags, where the
/// window origin moves).
#[derive(Clone, Copy, Debug, PartialEq, Eq, Structural)]
pub enum ResizeEvent {
    ResizeXY(Size),
    ResizeWindow(Rectangle),
}

/// The host events the gesture engine reacts to, reduced to plain values.
/// Mouse and touch are folded together: a left-button press and a first
/// finger contact are both `PointerPressed`; a left-button release, a finger
/// lift and a lost finger are all `PointerReleased`. The cursor position
/// travels beside the event, not inside it. Every other host event is
/// `Other`.
#[derive(Clone, Copy, Debug, PartialEq, Eq, Structural)]
pub enum InputEvent {
    WindowResized { width: u32, height: u32 },
    WindowMoved { x: i32, y: i32 },
    PointerMoved,
    PointerPressed,
    PointerReleased,
    Other,
}

/// The cursor shape the widget asks for while hovering: a horizontal resize
/// hint over the left/right zones, a vertical one over the top/bottom zones,
/// and otherwise whatever the wrapped child chooses.
#[derive(Clone, Copy, Debug, PartialEq, Eq, Structural)]
pub enum CursorHint {
    ResizeHorizontal,
    ResizeVertical,
    Child,
}

/// Per-widget persistent state of the resize controller.
///
/// `window_size` and `window_position` are the last geometry the window
/// system reported; they are updated only from `WindowResized` /
/// `WindowMoved` notifications, never inferred from drags.
/// `edge_affordance_enabled` is the master toggle for edge hit-testing and
/// cursor hinting.
#[derive(Clone, Copy, Debug, PartialEq, Eq, Structural)]
pub struct ResizeState {
    pub mode: DragMode,
    pub window_size: Size,
    pub window_position: Point,
    pub edge_affordance_enabled: bool,
}

/// Which drag mode a press at `p` against content bounds `bounds` selects.
/// The four zone tests run in a fixed priority order — left, right, top,
/// bottom — so a corner press resolves to the horizontal direction. A press
/// strictly inside the margin-free interior selects no mode (`Idle`).
pub open spec fn spec_hit_test(bounds: Rectangle, p: Point) -> DragMode {
    if p.x < bounds.x + EDGE_MARGIN {
        DragMode::Left
    } else if p.x > bounds.x + bounds.width - EDGE_MARGIN {
        DragMode::Right
    } else if p.y < bounds.y + EDGE_MARGIN {
        DragMode::Top
    } else if p.y > bounds.y + bounds.height - EDGE_MARGIN {
        DragMode::Bottom
    } else {
        DragMode::Idle
    }
}

/// A requested extent, clamped to a minimum of one pixel so that a drag past
/// the opposite edge can never ask the window manager for a zero or negative
/// size.
pub open spec fn min_one(v: int) -> int {
    if v < 1 {
        1
    } else {
        v
    }
}

/// The gesture event a pointer motion to `cursor` produces, given the active
/// drag mode and the last window geometry reported by the window system.
///
/// The cursor coordinate enters the formulas directly, not as a delta from
/// the press point: a right drag requests width `cursor.x`, a bottom drag
/// height `cursor.y`, and left/top drags move the origin by the raw cursor
/// coordinate while shrinking the extent by the same amount. Widths and
/// heights are clamped to at least one pixel; no other clamping is done.
pub open spec fn spec_motion_event(
    mode: DragMode,
    window_position: Point,
    window_size: Size,
    cursor: Point,
) -> Option<ResizeEvent> {
    match mode {
        DragMode::Idle => None,
        DragMode::Right => Some(
            ResizeEvent::ResizeXY(
                Size { width: min_one(cursor.x as int) as i64, height: window_size.height },
            ),
        ),
        DragMode::Bottom => Some(
            ResizeEvent::ResizeXY(
                Size { width: window_size.width, height: min_one(cursor.y as int) as i64 },
            ),
        ),
        DragMode::Left => Some(
            ResizeEvent::ResizeWindow(
                Rectangle {
                    x: (window_position.x + cursor.x) as i64,
                    y: window_position.y,
                    width: min_one(window_size.width - cursor.x) as i64,
                    height: window_size.height,
                },
            ),
        ),
        DragMode::Top => Some(
            ResizeEvent::ResizeWindow(
                Rectangle {
                    x: window_position.x,
                    y: (window_position.y + cursor.y) as i64,
                    width: window_size.width,
                    height: min_one(window_size.height - cursor.y) as i64,
                },
            ),
        ),
    }
}

/// The full transition of the resize controller on one host event: the next
/// state, whether the event was captured (consumed rather than forwarded to
/// the wrapped child), and the gesture event emitted, if any.
///
/// Window-system notifications overwrite the stored geometry regardless of
/// drag mode. A pointer motion emits a gesture event exactly while a mode is
/// active and changes no state. Any pointer release forces `Idle`,
/// regardless of mode and cursor position. A press selects a mode by
/// `spec_hit_test` against the content bounds while the edge affordance is
/// enabled, and only such a press is captured; every other press, and every
/// other event, is forwarded unchanged.
pub open spec fn spec_handle_event(
    s: ResizeState,
    event: InputEvent,
    content_bounds: Rectangle,
    cursor: Point,
) -> (ResizeState, bool, Option<ResizeEvent>) {
    match event {
        InputEvent::WindowResized { width, height } => (
            ResizeState {
                window_size: Size { width: width as i64, height: height as i64 },
                ..s
            },
            false,
            None,
        ),
        InputEvent::WindowMoved { x, y } => (
            ResizeState { window_position: Point { x: x as i64, y: y as i64 }, ..s },
            false,
            None,
        ),
        InputEvent::PointerMoved => (
            s,
            false,
            spec_motion_event(s.mode, s.window_position, s.window_size, cursor),
        ),
        InputEvent::PointerReleased => (ResizeState { mode: DragMode::Idle, ..s }, false, None),
        InputEvent::PointerPressed => {
            if s.edge_affordance_enabled && spec_hit_test(content_bounds, cursor) != DragMode::Idle {
                (ResizeState { mode: spec_hit_test(content_bounds, cursor), ..s }, true, None)
            } else {
                (s, false, None)
            }
        },
        InputEvent::Other => (s, false, None),
    }
}

/// The cursor hint shown while hovering: while the edge affordance is
/// enabled, the same four-zone test as for presses, against the current
/// cursor position, mapped to a horizontal hint for the left/right zones and
/// a vertical one for the top/bottom zones; otherwise, and outside every
/// zone, the child decides.
pub open spec fn spec_cursor_hint(s: ResizeState, content_bounds: Rectangle, cursor: Point) -> CursorHint {
    if s.edge_affordance_enabled {
        match spec_hit_test(content_bounds, cursor) {
            DragMode::Left => CursorHint::ResizeHorizontal,
            DragMode::Right => CursorHint::ResizeHorizontal,
            DragMode::Top => CursorHint::ResizeVertical,
            DragMode::Bottom => CursorHint::ResizeVertical,
            DragMode::Idle => CursorHint::Child,
        }
    } else {
        CursorHint::Child
    }
}

impl ResizeState {
    /// The stored geometry is small enough for the motion arithmetic: it
    /// always is, because it only ever comes from `u32` sizes and `i32`
    /// positions delivered by the window system, or from the defaults.
    pub open spec fn wf(self) -> bool {
        self.window_size.wf() && self.window_position.wf()
    }

    /// Performs the edge hit-test of a press at `p` against the content
    /// bounds, in the fixed priority order left, right, top, bottom.
    pub fn hit_test(bounds: &Rectangle, p: Point) -> (r: DragMode)
        requires
            bounds.wf(),
            p.wf(),
        ensures
            r == spec_hit_test(*bounds, p),
    {
        if p.x < bounds.x + EDGE_MARGIN {
            DragMode::Left
        } else if p.x > bounds.x + bounds.width - EDGE_MARGIN {
            DragMode::Right
        } else if p.y < bounds.y + EDGE_MARGIN {
            DragMode::Top
        } else if p.y > bounds.y + bounds.height - EDGE_MARGIN {
            DragMode::Bottom
        } else {
            DragMode::Idle
        }
    }

    /// Reacts to one host event: updates the state and reports whether the
    /// event was captured and which gesture event, if any, to publish. The
    /// whole transition is `spec_handle_event`.
    pub fn handle_event(&mut self, event: InputEvent, content_bounds: &Rectangle, cursor: Point) -> (r: (
        bool,
        Option<ResizeEvent>,
    ))
        requires
            old(self).wf(),
            content_bounds.wf(),
            cursor.wf(),
        ensures
            final(self).wf(),
            (*final(self), r.0, r.1) == spec_handle_event(*old(self), event, *content_bounds, cursor),
    {
        match event {
            InputEvent::WindowResized { width, height } => {
                self.window_size = Size { width: width as i64, height: height as i64 };
                (false, None)
            },
            InputEvent::WindowMoved { x, y } => {
                self.window_position = Point { x: x as i64, y: y as i64 };
                (false, None)
            },
            InputEvent::PointerMoved => {
                let ev = match self.mode {
                    DragMode::Idle => None,
                    DragMode::Right => Some(
                        ResizeEvent::ResizeXY(
                            Size {
                                width: if cursor.x < 1 {
                                    1
                                } else {
                                    cursor.x
                                },
                                height: self.window_size.height,
                            },
                        ),
                    ),
                    DragMode::Bottom => Some(
                        ResizeEvent::ResizeXY(
                            Size {
                                width: self.window_size.width,
                                height: if cursor.y < 1 {
                                    1
                                } else {
                                    cursor.y
                                },
                            },
                        ),
                    ),
                    DragMode::Left => {
                        let w: i64 = self.window_size.width - cursor.x;
                        Some(
                            ResizeEvent::ResizeWindow(
                                Rectangle {
                                    x: self.window_position.x + cursor.x,
                                    y: self.window_position.y,
                                    width: if w < 1 {
                                        1
                                    } else {
                                        w
                                    },
                                    height: self.window_size.height,
                                },
                            ),
                        )
                    },
                    DragMode::Top => {
                        let h: i64 = self.window_size.height - cursor.y;
                        Some(
                            ResizeEvent::ResizeWindow(
                                Rectangle {
                                    x: self.window_position.x,
                                    y: self.window_position.y + cursor.y,
                                    width: self.window_size.width,
                                    height: if h < 1 {
                                        1
                                    } else {
                                        h
                                    },
                                },
                            ),
                        )
                    },
                };
                (false, ev)
            },
            InputEvent::PointerReleased => {
                self.mode = DragMode::Idle;
                (false, None)
            },
            InputEvent::PointerPressed => {
                if self.edge_affordance_enabled {
                    let hit = Self::hit_test(content_bounds, cursor);
                    if hit != DragMode::Idle {
                        self.mode = hit;
                        (true, None)
                    } else {
                        (false, None)
                    }
                } else {
                    (false, None)
                }
            },
            InputEvent::Other => (false, None),
        }
    }

    /// The cursor hint for the current cursor position; see
    /// `spec_cursor_hint`.
    pub fn cursor_hint(&self, content_bounds: &Rectangle, cursor: Point) -> (r: CursorHint)
        requires
            content_bounds.wf(),
            cursor.wf(),
        ensures
            r == spec_cursor_hint(*self, *content_bounds, cursor),
    {
        if self.edge_affordance_enabled {
            match Self::hit_test(content_bounds, cursor) {
                DragMode::Left => CursorHint::ResizeHorizontal,
                DragMode::Right => CursorHint::ResizeHorizontal,
                DragMode::Top => CursorHint::ResizeVertical,
                DragMode::Bottom => CursorHint::ResizeVertical,
                DragMode::Idle => CursorHint::Child,
            }
        } else {
            CursorHint::Child
        }
    }
}

/// A press in an edge zone, while the edge affordance is enabled, always
/// selects that zone's drag mode and is captured. The clauses spell out the
/// fixed priority: the left test wins outright; the right test wins over
/// top and bottom; top wins over bottom; so a corner press resolves to its
/// horizontal direction.
pub proof fn lemma_press_edge_sets_mode(s: ResizeState, bounds: Rectangle, p: Point)
    requires
        s.edge_affordance_enabled,
    ensures
        p.x < bounds.x + EDGE_MARGIN ==> spec_handle_event(
            s,
            InputEvent::PointerPressed,
            bounds,
            p,
        ).0.mode is Left,
        p.x >= bounds.x + EDGE_MARGIN && p.x > bounds.x + bounds.width - EDGE_MARGIN
            ==> spec_handle_event(s, InputEvent::PointerPressed, bounds, p).0.mode is Right,
        bounds.x + EDGE_MARGIN <= p.x <= bounds.x + bounds.width - EDGE_MARGIN && p.y < bounds.y
            + EDGE_MARGIN ==> spec_handle_event(s, InputEvent::PointerPressed, bounds, p).0.mode is Top,
        bounds.x + EDGE_MARGIN <= p.x <= bounds.x + bounds.width - EDGE_MARGIN && p.y >= bounds.y
            + EDGE_MARGIN && p.y > bounds.y + bounds.height - EDGE_MARGIN ==> spec_handle_event(
            s,
            InputEvent::PointerPressed,
            bounds,
            p,
        ).0.mode is Bottom,
        spec_hit_test(bounds, p) != DragMode::Idle ==> spec_handle_event(
            s,
            InputEvent::PointerPressed,
            bounds,
            p,
        ).1,
{
}

/// A press strictly inside the margin-free interior changes nothing while no
/// drag is active: the mode stays `Idle`, no gesture event is emitted, and
/// the event is forwarded to the wrapped child (not captured).
pub proof fn lemma_interior_press_forwarded(s: ResizeState, bounds: Rectangle, p: Point)
    requires
        s.mode is Idle,
        bounds.x + EDGE_MARGIN <= p.x <= bounds.x + bounds.width - EDGE_MARGIN,
        bounds.y + EDGE_MARGIN <= p.y <= bounds.y + bounds.height - EDGE_MARGIN,
    ensures
        spec_handle_event(s, InputEvent::PointerPressed, bounds, p) == (
            s,
            false,
            None::<ResizeEvent>,
        ),
{
}

/// A pointer release — a lifted button, a lifted finger or a lost finger —
/// always forces the mode back to `Idle`, whatever the mode was and wherever
/// the cursor is, and touches nothing else. This guards against a stuck drag
/// when a release arrives outside the widget's bounds.
pub proof fn lemma_release_always_idles(s: ResizeState, bounds: Rectangle, cursor: Point)
    ensures
        spec_handle_event(s, InputEvent::PointerReleased, bounds, cursor).0 == (ResizeState {
            mode: DragMode::Idle,
            ..s
        }),
        !spec_handle_event(s, InputEvent::PointerReleased, bounds, cursor).1,
        spec_handle_event(s, InputEvent::PointerReleased, bounds, cursor).2 is None,
{
}

/// The drag mode moves only on explicit press and release events: a window
/// notification, a pointer motion and every other event leave it exactly as
/// it was.
pub proof fn lemma_mode_moves_only_on_press_or_release(
    s: ResizeState,
    event: InputEvent,
    bounds: Rectangle,
    cursor: Point,
)
    requires
        !(event is PointerPressed),
        !(event is PointerReleased),
    ensures
        spec_handle_event(s, event, bounds, cursor).0.mode == s.mode,
{
}

/// The stored window geometry is fed by window-system notifications alone:
/// no pointer event — not even the drags themselves — touches it.
pub proof fn lemma_geometry_comes_from_notifications_alone(
    s: ResizeState,
    event: InputEvent,
    bounds: Rectangle,
    cursor: Point,
)
    requires
        !(event is WindowResized),
        !(event is WindowMoved),
    ensures
        spec_handle_event(s, event, bounds, cursor).0.window_size == s.window_size,
        spec_handle_event(s, event, bounds, cursor).0.window_position == s.window_position,
{
}

/// The controller consumes an event only when a press lands in an edge zone
/// while the edge affordance is enabled — so child widgets never see
/// edge-region presses, and see everything else.
pub proof fn lemma_capture_only_on_edge_press(
    s: ResizeState,
    event: InputEvent,
    bounds: Rectangle,
    cursor: Point,
)
    ensures
        spec_handle_event(s, event, bounds, cursor).1 <==> (event is PointerPressed
            && s.edge_affordance_enabled && spec_hit_test(bounds, cursor) != DragMode::Idle),
{
}

/// Delivering a release while already `Idle` is a no-op, so a second release
/// in a row is too: both leave the state exactly as it was, capture nothing
/// and emit no gesture event.
pub proof fn lemma_release_idempotent_when_idle(
    s: ResizeState,
    bounds1: Rectangle,
    cursor1: Point,
    bounds2: Rectangle,
    cursor2: Point,
)
    requires
        s.mode is Idle,
    ensures
        spec_handle_event(s, InputEvent::PointerReleased, bounds1, cursor1) == (
            s,
            false,
            None::<ResizeEvent>,
        ),
        spec_handle_event(
            spec_handle_event(s, InputEvent::PointerReleased, bounds1, cursor1).0,
            InputEvent::PointerReleased,
            bounds2,
            cursor2,
        ) == (s, false, None::<ResizeEvent>),
{
}

impl Default for ResizeState {
    /// The state a freshly created widget node starts in: no active drag,
    /// zero geometry until the window system reports some, edge affordance
    /// on.
    fn default() -> (r: Self)
        ensures
            r == (ResizeState {
                mode: DragMode::Idle,
                window_size: Size { width: 0, height: 0 },
                window_position: Point { x: 0, y: 0 },
                edge_affordance_enabled: true,
            }),
            r.wf(),
    {
        ResizeState {
            mode: DragMode::Idle,
            window_size: Size { width: 0, height: 0 },
            window_position: Point { x: 0, y: 0 },
            edge_affordance_enabled: true,
        }
    }
}

} // verus!
