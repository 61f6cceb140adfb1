use warp_tui::alt_screen::{visible_cursor, AltScreenElement, EventRoute};
use warp_tui::geometry::{
    cell_point, Point, TuiConstraint, TuiPoint, TuiScreenPoint, TuiScreenRect, TuiSize,
};
use warp_tui::mouse::{
    alt_screen_scroll_to_pty_bytes, mouse_event_to_pty_bytes, policy, report_all, ModifiersState,
    MouseAction, MouseButton, MouseReportPolicy, MouseState, TuiEvent,
};

/// Builds retained screen bounds anchored at `(x, y)`.
fn bounds(x: i32, y: i32, width: u16, height: u16) -> TuiScreenRect {
    TuiScreenRect::new(TuiScreenPoint::new(x, y), TuiSize::new(width, height))
}

/// Encodes `event` with the alt-screen mouse-event adapter.
fn mouse_bytes(
    event: &TuiEvent,
    area: TuiScreenRect,
    policy: MouseReportPolicy,
) -> Option<Vec<u8>> {
    mouse_event_to_pty_bytes(event, area, policy)
}

#[test]
fn layout_fills_the_allocated_pane() {
    let mut element = AltScreenElement::new();
    let expected_size = TuiSize::new(42, 8);
    let size = element.layout(TuiConstraint::loose(expected_size));
    assert_eq!(size, expected_size);
    // The laid-out size is retained for the size wrapper and mouse
    // hit-testing to read back.
    assert_eq!(element.size(), Some(expected_size));
}

#[test]
fn sgr_mouse_events_use_area_relative_coordinates() {
    let area = bounds(10, 5, 20, 10);
    let position = TuiPoint::new(12, 6);
    let modifiers = ModifiersState::default();
    let cases = [
        (
            TuiEvent::LeftMouseDown {
                position,
                modifiers,
                click_count: 1,
                is_first_mouse: false,
            },
            b"\x1b[<0;3;2M".as_slice(),
        ),
        (
            TuiEvent::RightMouseDown {
                position,
                modifiers,
                click_count: 1,
            },
            b"\x1b[<2;3;2M".as_slice(),
        ),
        (
            TuiEvent::LeftMouseUp {
                position,
                modifiers,
            },
            b"\x1b[<0;3;2m".as_slice(),
        ),
        (
            TuiEvent::LeftMouseDragged {
                position,
                modifiers,
            },
            b"\x1b[<32;3;2M".as_slice(),
        ),
        (
            TuiEvent::MouseMoved {
                position,
                modifiers,
                is_synthetic: false,
            },
            b"\x1b[<35;3;2M".as_slice(),
        ),
        (
            TuiEvent::ScrollWheel {
                position,
                delta: (0, 1),
                precise: false,
                modifiers,
            },
            b"\x1b[<64;3;2M".as_slice(),
        ),
        (
            TuiEvent::ScrollWheel {
                position,
                delta: (0, -1),
                precise: false,
                modifiers,
            },
            b"\x1b[<65;3;2M".as_slice(),
        ),
    ];

    for (event, expected) in cases {
        assert_eq!(
            mouse_bytes(&event, area, report_all()).as_deref(),
            Some(expected)
        );
    }
}

#[test]
fn events_are_gated_by_their_policy_category() {
    let area = bounds(0, 0, 10, 10);
    let position = TuiPoint::new(2, 3);
    let modifiers = ModifiersState::default();
    let left_down = TuiEvent::LeftMouseDown {
        position,
        modifiers,
        click_count: 1,
        is_first_mouse: false,
    };
    let left_dragged = TuiEvent::LeftMouseDragged {
        position,
        modifiers,
    };
    let moved = TuiEvent::MouseMoved {
        position,
        modifiers,
        is_synthetic: false,
    };

    // Buttons (clicks and drags) follow `report_buttons`; motion is
    // independent and follows `report_motion`.
    assert!(mouse_bytes(&left_down, area, policy(false, true, true)).is_none());
    assert!(mouse_bytes(&left_down, area, policy(true, false, false)).is_some());
    assert!(mouse_bytes(&left_dragged, area, policy(false, true, true)).is_none());
    assert!(mouse_bytes(&left_dragged, area, policy(true, false, false)).is_some());
    assert!(mouse_bytes(&moved, area, policy(true, false, true)).is_none());
    assert!(mouse_bytes(&moved, area, policy(false, true, false)).is_some());
}

#[test]
fn scroll_uses_sgr_when_allowed_and_arrows_otherwise() {
    let scroll = TuiEvent::ScrollWheel {
        position: TuiPoint::new(2, 3),
        delta: (0, 1),
        precise: false,
        modifiers: ModifiersState::default(),
    };
    let area = bounds(0, 0, 10, 10);

    assert_eq!(
        mouse_bytes(&scroll, area, policy(false, false, false)).as_deref(),
        Some(b"\x1bOA".as_slice())
    );
    assert_eq!(
        mouse_bytes(&scroll, area, policy(false, false, true)).as_deref(),
        Some(b"\x1b[<64;3;4M".as_slice())
    );
}

#[test]
fn unsupported_or_intercepted_mouse_events_are_not_forwarded() {
    let area = bounds(5, 5, 10, 10);
    let modifiers = ModifiersState::default();

    let outside = TuiEvent::LeftMouseDown {
        position: TuiPoint::new(4, 5),
        modifiers,
        click_count: 1,
        is_first_mouse: false,
    };
    let shifted = TuiEvent::LeftMouseDown {
        position: TuiPoint::new(6, 6),
        modifiers: ModifiersState {
            shift: true,
            ..Default::default()
        },
        click_count: 1,
        is_first_mouse: false,
    };
    let middle = TuiEvent::MiddleMouseDown {
        position: TuiPoint::new(6, 6),
        modifiers,
        click_count: 1,
    };
    let synthetic_move = TuiEvent::MouseMoved {
        position: TuiPoint::new(6, 6),
        modifiers,
        is_synthetic: true,
    };
    let horizontal_scroll = TuiEvent::ScrollWheel {
        position: TuiPoint::new(6, 6),
        delta: (1, 0),
        precise: false,
        modifiers,
    };

    assert!(mouse_bytes(&outside, area, report_all()).is_none());
    assert!(mouse_bytes(&shifted, area, report_all()).is_none());
    assert!(mouse_bytes(&middle, area, report_all()).is_none());
    assert!(mouse_bytes(&synthetic_move, area, report_all()).is_none());
    assert!(mouse_bytes(&horizontal_scroll, area, report_all()).is_none());
}

#[test]
fn modifier_keys_are_encoded_in_the_button_number() {
    let area = bounds(0, 0, 10, 10);
    let position = TuiPoint::new(0, 0);
    let ctrl_click = TuiEvent::LeftMouseDown {
        position,
        modifiers: ModifiersState {
            ctrl: true,
            ..Default::default()
        },
        click_count: 1,
        is_first_mouse: false,
    };
    let alt_right = TuiEvent::RightMouseDown {
        position,
        modifiers: ModifiersState {
            alt: true,
            ..Default::default()
        },
        click_count: 1,
    };
    let shift_move = TuiEvent::MouseMoved {
        position,
        modifiers: ModifiersState {
            shift: true,
            ..Default::default()
        },
        is_synthetic: false,
    };
    assert_eq!(
        mouse_bytes(&ctrl_click, area, report_all()).as_deref(),
        Some(b"\x1b[<16;1;1M".as_slice())
    );
    assert_eq!(
        mouse_bytes(&alt_right, area, report_all()).as_deref(),
        Some(b"\x1b[<10;1;1M".as_slice())
    );
    // Shift is only reserved for clicks and drags; hover reports carry it.
    assert_eq!(
        mouse_bytes(&shift_move, area, report_all()).as_deref(),
        Some(b"\x1b[<39;1;1M".as_slice())
    );
}

#[test]
fn coordinates_use_multi_digit_decimals() {
    let area = bounds(-3, 2, 300, 200);
    let event = TuiEvent::LeftMouseUp {
        position: TuiPoint::new(120, 151),
        modifiers: ModifiersState::default(),
    };
    assert_eq!(
        mouse_bytes(&event, area, report_all()).as_deref(),
        Some(b"\x1b[<0;124;150m".as_slice())
    );
}

#[test]
fn moving_area_and_pointer_together_keeps_the_report() {
    let modifiers = ModifiersState::default();
    let at = |x: u16, y: u16| TuiEvent::LeftMouseDragged {
        position: TuiPoint::new(x, y),
        modifiers,
    };
    let a = mouse_bytes(&at(12, 6), bounds(10, 5, 20, 10), report_all());
    let b = mouse_bytes(&at(52, 46), bounds(50, 45, 20, 10), report_all());
    assert!(a.is_some());
    assert_eq!(a, b);
}

#[test]
fn multi_notch_scroll_repeats_each_unit() {
    let area = bounds(0, 0, 10, 10);
    let scroll = |rows: i64| TuiEvent::ScrollWheel {
        position: TuiPoint::new(1, 1),
        delta: (0, rows),
        precise: false,
        modifiers: ModifiersState::default(),
    };
    assert_eq!(
        mouse_bytes(&scroll(3), area, policy(false, false, false)).as_deref(),
        Some(b"\x1bOA\x1bOA\x1bOA".as_slice())
    );
    assert_eq!(
        mouse_bytes(&scroll(-2), area, policy(false, false, false)).as_deref(),
        Some(b"\x1bOB\x1bOB".as_slice())
    );
    assert_eq!(
        mouse_bytes(&scroll(-2), area, report_all()).as_deref(),
        Some(b"\x1b[<65;2;2M\x1b[<65;2;2M".as_slice())
    );
    // Wheel deltas that do not fit a 32-bit row count are dropped.
    assert!(mouse_bytes(&scroll(i64::MAX), area, report_all()).is_none());
}

#[test]
fn scroll_encoder_handles_zero_and_both_directions() {
    let point = Point::new(0, 4);
    assert_eq!(alt_screen_scroll_to_pty_bytes(0, point, true), None);
    assert_eq!(
        alt_screen_scroll_to_pty_bytes(1, point, true).as_deref(),
        Some(b"\x1b[<64;5;1M".as_slice())
    );
    assert_eq!(
        alt_screen_scroll_to_pty_bytes(-1, point, false).as_deref(),
        Some(b"\x1bOB".as_slice())
    );
}

#[test]
fn sgr_report_encodes_button_action_and_cell() {
    let report = MouseState::new(
        MouseButton::Left,
        MouseAction::Released,
        ModifiersState::default(),
        Point::new(9, 0),
    );
    assert_eq!(report.to_sgr_bytes(), b"\x1b[<0;1;10m".to_vec());
}

#[test]
fn cell_point_is_relative_and_half_open() {
    let area = bounds(5, 5, 10, 10);
    assert_eq!(cell_point(TuiPoint::new(5, 5), area), Some(Point::new(0, 0)));
    assert_eq!(cell_point(TuiPoint::new(14, 14), area), Some(Point::new(9, 9)));
    assert_eq!(cell_point(TuiPoint::new(15, 6), area), None);
    assert_eq!(cell_point(TuiPoint::new(6, 15), area), None);
    assert_eq!(cell_point(TuiPoint::new(4, 6), area), None);
    assert!(area.contains(TuiPoint::new(10, 10)));
    assert!(!bounds(0, 0, 0, 5).contains(TuiPoint::new(0, 0)));
}

#[test]
fn policy_is_derived_from_host_gating() {
    let p = MouseReportPolicy::current(true, true, false);
    assert_eq!(p, policy(false, true, true));
    let q = MouseReportPolicy::current(false, false, true);
    assert_eq!(q, policy(true, false, false));
    assert_eq!(report_all(), policy(true, true, true));
}

#[test]
fn events_are_routed_by_kind_and_retained_area() {
    let mut element = AltScreenElement::new();
    let click = TuiEvent::LeftMouseDown {
        position: TuiPoint::new(3, 2),
        modifiers: ModifiersState::default(),
        click_count: 1,
        is_first_mouse: false,
    };
    // Keys go to the host's encoder unless an IME composition is running.
    assert_eq!(
        element.dispatch_event(&TuiEvent::KeyDown { is_composing: false }, report_all()),
        EventRoute::EncodeKeystroke
    );
    assert_eq!(
        element.dispatch_event(&TuiEvent::KeyDown { is_composing: true }, report_all()),
        EventRoute::Ignore
    );
    // Pointer events need a laid-out and painted element.
    assert_eq!(element.dispatch_event(&click, report_all()), EventRoute::Ignore);
    element.layout(TuiConstraint::loose(TuiSize::new(20, 10)));
    assert_eq!(element.hit_area(), None);
    assert_eq!(element.dispatch_event(&click, report_all()), EventRoute::Ignore);
    assert_eq!(element.render(TuiScreenPoint::new(1, 1)), Some(TuiSize::new(20, 10)));
    assert_eq!(element.origin(), Some(TuiScreenPoint::new(1, 1)));
    assert_eq!(
        element.dispatch_event(&click, report_all()),
        EventRoute::ForwardToPty(b"\x1b[<0;3;2M".to_vec())
    );
    assert_eq!(
        element.dispatch_event(&click, policy(false, true, true)),
        EventRoute::Ignore
    );
    assert_eq!(element.dispatch_event(&TuiEvent::Other, report_all()), EventRoute::Ignore);
}

#[test]
fn render_before_layout_paints_nothing() {
    let mut element = AltScreenElement::new();
    assert_eq!(element.render(TuiScreenPoint::new(0, 0)), None);
    assert_eq!(element.origin(), Some(TuiScreenPoint::new(0, 0)));
    assert_eq!(element.size(), None);
}

#[test]
fn cursor_is_shown_only_inside_the_visible_grid() {
    let size = TuiSize::new(80, 24);
    assert_eq!(visible_cursor(true, Point::new(5, 7), 0, size), Some((7, 5)));
    assert_eq!(visible_cursor(false, Point::new(5, 7), 0, size), None);
    // History rows are subtracted to get a screen-relative row.
    assert_eq!(visible_cursor(true, Point::new(105, 7), 100, size), Some((7, 5)));
    assert_eq!(visible_cursor(true, Point::new(5, 7), 100, size), None);
    assert_eq!(visible_cursor(true, Point::new(24, 0), 0, size), None);
    assert_eq!(visible_cursor(true, Point::new(0, 80), 0, size), None);
    assert_eq!(visible_cursor(true, Point::new(23, 79), 0, size), Some((79, 23)));
}
