use window_chrome::geometry::{Point, Rectangle, Size};
use window_chrome::resize::{CursorHint, DragMode, InputEvent, ResizeEvent, ResizeState};

fn window_at(x: i64, y: i64, width: i64, height: i64) -> ResizeState {
    let mut state = ResizeState::default();
    let (captured, event) = state.handle_event(
        InputEvent::WindowMoved {
            x: x as i32,
            y: y as i32,
        },
        &Rectangle::new(Point::new(0, 0), Size::new(0, 0)),
        Point::new(0, 0),
    );
    assert!(!captured);
    assert!(event.is_none());
    let (captured, event) = state.handle_event(
        InputEvent::WindowResized {
            width: width as u32,
            height: height as u32,
        },
        &Rectangle::new(Point::new(0, 0), Size::new(0, 0)),
        Point::new(0, 0),
    );
    assert!(!captured);
    assert!(event.is_none());
    state
}

#[test]
fn default_state_is_idle() {
    let state = ResizeState::default();
    assert_eq!(state.mode, DragMode::Idle);
    assert_eq!(state.window_size, Size::new(0, 0));
    assert_eq!(state.window_position, Point::new(0, 0));
    assert!(state.edge_affordance_enabled);
}

#[test]
fn window_notifications_update_geometry() {
    let state = window_at(100, 100, 800, 600);
    assert_eq!(state.window_position, Point::new(100, 100));
    assert_eq!(state.window_size, Size::new(800, 600));
    assert_eq!(state.mode, DragMode::Idle);
}

#[test]
fn press_in_left_margin_sets_left() {
    let mut state = window_at(100, 100, 800, 600);
    let bounds = Rectangle::new(Point::new(100, 100), Size::new(800, 600));
    let (captured, event) = state.handle_event(InputEvent::PointerPressed, &bounds, Point::new(104, 300));
    assert_eq!(state.mode, DragMode::Left);
    assert!(captured);
    assert!(event.is_none());
}

#[test]
fn press_in_right_margin_sets_right() {
    let mut state = window_at(100, 100, 800, 600);
    let bounds = Rectangle::new(Point::new(100, 100), Size::new(800, 600));
    let (captured, _) = state.handle_event(InputEvent::PointerPressed, &bounds, Point::new(896, 300));
    assert_eq!(state.mode, DragMode::Right);
    assert!(captured);
}

#[test]
fn press_in_top_margin_sets_top() {
    let mut state = window_at(100, 100, 800, 600);
    let bounds = Rectangle::new(Point::new(100, 100), Size::new(800, 600));
    let (captured, _) = state.handle_event(InputEvent::PointerPressed, &bounds, Point::new(400, 104));
    assert_eq!(state.mode, DragMode::Top);
    assert!(captured);
}

#[test]
fn press_in_bottom_margin_sets_bottom() {
    let mut state = window_at(100, 100, 800, 600);
    let bounds = Rectangle::new(Point::new(100, 100), Size::new(800, 600));
    let (captured, _) = state.handle_event(InputEvent::PointerPressed, &bounds, Point::new(400, 696));
    assert_eq!(state.mode, DragMode::Bottom);
    assert!(captured);
}

#[test]
fn corner_press_prefers_horizontal() {
    // top-left corner: the left test fires before the top test
    let mut state = window_at(100, 100, 800, 600);
    let bounds = Rectangle::new(Point::new(100, 100), Size::new(800, 600));
    state.handle_event(InputEvent::PointerPressed, &bounds, Point::new(101, 101));
    assert_eq!(state.mode, DragMode::Left);

    // bottom-right corner: the right test fires before the bottom test
    let mut state = window_at(100, 100, 800, 600);
    state.handle_event(InputEvent::PointerPressed, &bounds, Point::new(899, 699));
    assert_eq!(state.mode, DragMode::Right);
}

#[test]
fn press_on_margin_boundary_is_not_an_edge() {
    // x == bounds.x + 5 fails the strict left test
    let mut state = window_at(100, 100, 800, 600);
    let bounds = Rectangle::new(Point::new(100, 100), Size::new(800, 600));
    let (captured, event) = state.handle_event(InputEvent::PointerPressed, &bounds, Point::new(105, 300));
    assert_eq!(state.mode, DragMode::Idle);
    assert!(!captured);
    assert!(event.is_none());
}

#[test]
fn interior_press_is_forwarded() {
    let mut state = window_at(100, 100, 800, 600);
    let bounds = Rectangle::new(Point::new(100, 100), Size::new(800, 600));
    let (captured, event) = state.handle_event(InputEvent::PointerPressed, &bounds, Point::new(400, 300));
    assert_eq!(state.mode, DragMode::Idle);
    assert!(!captured);
    assert!(event.is_none());
}

#[test]
fn press_ignored_while_affordance_disabled() {
    let mut state = window_at(100, 100, 800, 600);
    state.edge_affordance_enabled = false;
    let bounds = Rectangle::new(Point::new(100, 100), Size::new(800, 600));
    let (captured, event) = state.handle_event(InputEvent::PointerPressed, &bounds, Point::new(101, 300));
    assert_eq!(state.mode, DragMode::Idle);
    assert!(!captured);
    assert!(event.is_none());
}

#[test]
fn left_edge_drag_scenario() {
    // window at (100,100), size (800,600); press at (102,300): 102 < 105
    let mut state = window_at(100, 100, 800, 600);
    let bounds = Rectangle::new(Point::new(100, 100), Size::new(800, 600));
    let (captured, _) = state.handle_event(InputEvent::PointerPressed, &bounds, Point::new(102, 300));
    assert_eq!(state.mode, DragMode::Left);
    assert!(captured);

    // move to (110,300): x = 100 + 110, width = 800 - 110
    let (captured, event) = state.handle_event(InputEvent::PointerMoved, &bounds, Point::new(110, 300));
    assert!(!captured);
    assert_eq!(
        event,
        Some(ResizeEvent::ResizeWindow(Rectangle {
            x: 210,
            y: 100,
            width: 690,
            height: 600,
        }))
    );
    assert_eq!(state.mode, DragMode::Left);
}

#[test]
fn right_edge_drag_scenario() {
    // window at (100,100), size (800,600); press at (898,300): 898 > 895
    let mut state = window_at(100, 100, 800, 600);
    let bounds = Rectangle::new(Point::new(100, 100), Size::new(800, 600));
    let (captured, _) = state.handle_event(InputEvent::PointerPressed, &bounds, Point::new(898, 300));
    assert_eq!(state.mode, DragMode::Right);
    assert!(captured);

    let (_, event) = state.handle_event(InputEvent::PointerMoved, &bounds, Point::new(850, 300));
    assert_eq!(
        event,
        Some(ResizeEvent::ResizeXY(Size {
            width: 850,
            height: 600,
        }))
    );
}

#[test]
fn top_edge_drag_emits_resize_window() {
    let mut state = window_at(100, 100, 800, 600);
    let bounds = Rectangle::new(Point::new(100, 100), Size::new(800, 600));
    state.handle_event(InputEvent::PointerPressed, &bounds, Point::new(400, 103));
    assert_eq!(state.mode, DragMode::Top);
    let (_, event) = state.handle_event(InputEvent::PointerMoved, &bounds, Point::new(400, 20));
    assert_eq!(
        event,
        Some(ResizeEvent::ResizeWindow(Rectangle {
            x: 100,
            y: 120,
            width: 800,
            height: 580,
        }))
    );
}

#[test]
fn bottom_edge_drag_emits_resize_xy() {
    let mut state = window_at(100, 100, 800, 600);
    let bounds = Rectangle::new(Point::new(100, 100), Size::new(800, 600));
    state.handle_event(InputEvent::PointerPressed, &bounds, Point::new(400, 698));
    assert_eq!(state.mode, DragMode::Bottom);
    let (_, event) = state.handle_event(InputEvent::PointerMoved, &bounds, Point::new(400, 720));
    assert_eq!(
        event,
        Some(ResizeEvent::ResizeXY(Size {
            width: 800,
            height: 720,
        }))
    );
}

#[test]
fn motion_without_active_mode_is_a_no_op() {
    let mut state = window_at(100, 100, 800, 600);
    let bounds = Rectangle::new(Point::new(100, 100), Size::new(800, 600));
    let before = state;
    let (captured, event) = state.handle_event(InputEvent::PointerMoved, &bounds, Point::new(400, 300));
    assert!(!captured);
    assert!(event.is_none());
    assert_eq!(state, before);
}

#[test]
fn emitted_sizes_clamp_to_one_pixel() {
    // a right drag past the left edge would ask for a non-positive width
    let mut state = window_at(100, 100, 800, 600);
    let bounds = Rectangle::new(Point::new(100, 100), Size::new(800, 600));
    state.handle_event(InputEvent::PointerPressed, &bounds, Point::new(898, 300));
    let (_, event) = state.handle_event(InputEvent::PointerMoved, &bounds, Point::new(-40, 300));
    assert_eq!(
        event,
        Some(ResizeEvent::ResizeXY(Size {
            width: 1,
            height: 600,
        }))
    );

    // a left drag past the right edge would ask for a negative width
    let mut state = window_at(100, 100, 800, 600);
    state.handle_event(InputEvent::PointerPressed, &bounds, Point::new(102, 300));
    let (_, event) = state.handle_event(InputEvent::PointerMoved, &bounds, Point::new(900, 300));
    assert_eq!(
        event,
        Some(ResizeEvent::ResizeWindow(Rectangle {
            x: 1000,
            y: 100,
            width: 1,
            height: 600,
        }))
    );
}

#[test]
fn release_resets_any_mode() {
    let bounds = Rectangle::new(Point::new(100, 100), Size::new(800, 600));
    let presses = [
        Point::new(101, 300),
        Point::new(899, 300),
        Point::new(400, 101),
        Point::new(400, 699),
    ];
    for press in presses {
        let mut state = window_at(100, 100, 800, 600);
        state.handle_event(InputEvent::PointerPressed, &bounds, press);
        assert_ne!(state.mode, DragMode::Idle);
        // the release cursor position does not matter
        let (captured, event) =
            state.handle_event(InputEvent::PointerReleased, &bounds, Point::new(-5000, 9000));
        assert_eq!(state.mode, DragMode::Idle);
        assert!(!captured);
        assert!(event.is_none());
        assert_eq!(state.window_size, Size::new(800, 600));
        assert_eq!(state.window_position, Point::new(100, 100));
    }
}

#[test]
fn double_release_while_idle_stays_idle() {
    let mut state = window_at(100, 100, 800, 600);
    let bounds = Rectangle::new(Point::new(100, 100), Size::new(800, 600));
    assert_eq!(state.mode, DragMode::Idle);
    let before = state;
    let (captured, event) = state.handle_event(InputEvent::PointerReleased, &bounds, Point::new(400, 300));
    assert_eq!(state, before);
    assert!(!captured);
    assert!(event.is_none());
    let (captured, event) = state.handle_event(InputEvent::PointerReleased, &bounds, Point::new(10, 10));
    assert_eq!(state, before);
    assert!(!captured);
    assert!(event.is_none());
}

#[test]
fn notifications_apply_during_a_drag() {
    let mut state = window_at(100, 100, 800, 600);
    let bounds = Rectangle::new(Point::new(100, 100), Size::new(800, 600));
    state.handle_event(InputEvent::PointerPressed, &bounds, Point::new(898, 300));
    assert_eq!(state.mode, DragMode::Right);
    state.handle_event(
        InputEvent::WindowResized { width: 640, height: 480 },
        &bounds,
        Point::new(0, 0),
    );
    assert_eq!(state.mode, DragMode::Right);
    assert_eq!(state.window_size, Size::new(640, 480));
    // the next motion uses the freshly reported geometry
    let (_, event) = state.handle_event(InputEvent::PointerMoved, &bounds, Point::new(850, 300));
    assert_eq!(
        event,
        Some(ResizeEvent::ResizeXY(Size {
            width: 850,
            height: 480,
        }))
    );
}

#[test]
fn other_events_change_nothing() {
    let mut state = window_at(100, 100, 800, 600);
    let bounds = Rectangle::new(Point::new(100, 100), Size::new(800, 600));
    let before = state;
    let (captured, event) = state.handle_event(InputEvent::Other, &bounds, Point::new(101, 101));
    assert_eq!(state, before);
    assert!(!captured);
    assert!(event.is_none());
}

#[test]
fn cursor_hint_follows_the_zones() {
    let state = window_at(100, 100, 800, 600);
    let bounds = Rectangle::new(Point::new(100, 100), Size::new(800, 600));
    assert_eq!(state.cursor_hint(&bounds, Point::new(101, 300)), CursorHint::ResizeHorizontal);
    assert_eq!(state.cursor_hint(&bounds, Point::new(899, 300)), CursorHint::ResizeHorizontal);
    assert_eq!(state.cursor_hint(&bounds, Point::new(400, 101)), CursorHint::ResizeVertical);
    assert_eq!(state.cursor_hint(&bounds, Point::new(400, 699)), CursorHint::ResizeVertical);
    assert_eq!(state.cursor_hint(&bounds, Point::new(400, 300)), CursorHint::Child);
    // a corner hints horizontally, like the press priority
    assert_eq!(state.cursor_hint(&bounds, Point::new(101, 101)), CursorHint::ResizeHorizontal);
}

#[test]
fn cursor_hint_disabled_delegates_to_child() {
    let mut state = window_at(100, 100, 800, 600);
    state.edge_affordance_enabled = false;
    let bounds = Rectangle::new(Point::new(100, 100), Size::new(800, 600));
    assert_eq!(state.cursor_hint(&bounds, Point::new(101, 300)), CursorHint::Child);
}

#[test]
fn hit_test_matches_the_priority_order() {
    let bounds = Rectangle::new(Point::new(0, 0), Size::new(200, 100));
    assert_eq!(ResizeState::hit_test(&bounds, Point::new(4, 50)), DragMode::Left);
    assert_eq!(ResizeState::hit_test(&bounds, Point::new(196, 50)), DragMode::Right);
    assert_eq!(ResizeState::hit_test(&bounds, Point::new(100, 4)), DragMode::Top);
    assert_eq!(ResizeState::hit_test(&bounds, Point::new(100, 96)), DragMode::Bottom);
    assert_eq!(ResizeState::hit_test(&bounds, Point::new(100, 50)), DragMode::Idle);
    assert_eq!(ResizeState::hit_test(&bounds, Point::new(4, 4)), DragMode::Left);
    assert_eq!(ResizeState::hit_test(&bounds, Point::new(196, 96)), DragMode::Right);
}
