//! Translation of pointer events into the bytes an alt-screen application
//! reads from its PTY: SGR (mode 1006) mouse reports, and arrow-key presses
//! as the fallback for wheel scrolling when the application does not take
//! wheel reports.
use vstd::prelude::*;

use crate::geometry::{cell_point, spec_cell_point, Point, TuiPoint, TuiScreenRect};

verus! {

/// Modifier keys held while an event happened.
#[derive(Clone, Copy, Debug, PartialEq, Eq, Structural)]
pub struct ModifiersState {
    pub shift: bool,
    pub alt: bool,
    pub ctrl: bool,
    pub cmd: bool,
    pub func: bool,
}

impl Default for ModifiersState {
    fn default() -> (m: ModifiersState)
        ensures
            !m.shift && !m.alt && !m.ctrl && !m.cmd && !m.func,
    {
        ModifiersState { shift: false, alt: false, ctrl: false, cmd: false, func: false }
    }
}

/// No modifier held.
pub open spec fn no_modifiers() -> ModifiersState {
    ModifiersState { shift: false, alt: false, ctrl: false, cmd: false, func: false }
}

/// An input event delivered to a TUI element. Keyboard events only carry
/// whether an IME composition is in progress; their keystroke is encoded by
/// the host, which owns the key tables.
#[derive(Clone, Copy, Debug, PartialEq, Eq)]
pub enum TuiEvent {
    KeyDown { is_composing: bool },
    LeftMouseDown { position: TuiPoint, modifiers: ModifiersState, click_count: u32, is_first_mouse: bool },
    RightMouseDown { position: TuiPoint, modifiers: ModifiersState, click_count: u32 },
    MiddleMouseDown { position: TuiPoint, modifiers: ModifiersState, click_count: u32 },
    LeftMouseUp { position: TuiPoint, modifiers: ModifiersState },
    LeftMouseDragged { position: TuiPoint, modifiers: ModifiersState },
    MouseMoved { position: TuiPoint, modifiers: ModifiersState, is_synthetic: bool },
    ScrollWheel { position: TuiPoint, delta: (i64, i64), precise: bool, modifiers: ModifiersState },
    /// Any event without a pointer position that this element does not handle.
    Other,
}

/// The pointer position of an event, if it has one.
pub open spec fn spec_event_position(event: TuiEvent) -> Option<TuiPoint> {
    match event {
        TuiEvent::LeftMouseDown { position, .. } => Some(position),
        TuiEvent::RightMouseDown { position, .. } => Some(position),
        TuiEvent::MiddleMouseDown { position, .. } => Some(position),
        TuiEvent::LeftMouseUp { position, .. } => Some(position),
        TuiEvent::LeftMouseDragged { position, .. } => Some(position),
        TuiEvent::MouseMoved { position, .. } => Some(position),
        TuiEvent::ScrollWheel { position, .. } => Some(position),
        TuiEvent::KeyDown { .. } => None,
        TuiEvent::Other => None,
    }
}

impl TuiEvent {
    pub fn position(&self) -> (p: Option<TuiPoint>)
        ensures
            p == spec_event_position(*self),
    {
        match *self {
            TuiEvent::LeftMouseDown { position, .. } => Some(position),
            TuiEvent::RightMouseDown { position, .. } => Some(position),
            TuiEvent::MiddleMouseDown { position, .. } => Some(position),
            TuiEvent::LeftMouseUp { position, .. } => Some(position),
            TuiEvent::LeftMouseDragged { position, .. } => Some(position),
            TuiEvent::MouseMoved { position, .. } => Some(position),
            TuiEvent::ScrollWheel { position, .. } => Some(position),
            TuiEvent::KeyDown { .. } => None,
            TuiEvent::Other => None,
        }
    }
}

/// Which alt-screen mouse reports the active app and user settings allow.
#[derive(Clone, Copy, Debug, PartialEq, Eq, Structural)]
pub struct MouseReportPolicy {
    /// Clicks, releases, and drags.
    pub report_buttons: bool,
    /// Hover motion.
    pub report_motion: bool,
    /// Wheel events as SGR reports (arrow-key fallback otherwise).
    pub report_scroll: bool,
}

impl MouseReportPolicy {
    /// Derives the policy from the host's gating: buttons are reported unless
    /// the host intercepts mouse input (checked without shift; per-event shift
    /// is checked when the event is translated), hover motion when the
    /// application enabled motion tracking, and wheel reports unless the host
    /// intercepts scrolling.
    pub fn current(intercepts_mouse: bool, motion_mode_set: bool, intercepts_scroll: bool) -> (p:
        MouseReportPolicy)
        ensures
            p.report_buttons == !intercepts_mouse,
            p.report_motion == motion_mode_set,
            p.report_scroll == !intercepts_scroll,
    {
        MouseReportPolicy {
            report_buttons: !intercepts_mouse,
            report_motion: motion_mode_set,
            report_scroll: !intercepts_scroll,
        }
    }
}

/// Builds a reporting policy with the given per-category flags.
pub fn policy(buttons: bool, motion: bool, scroll: bool) -> (p: MouseReportPolicy)
    ensures
        p.report_buttons == buttons,
        p.report_motion == motion,
        p.report_scroll == scroll,
{
    MouseReportPolicy { report_buttons: buttons, report_motion: motion, report_scroll: scroll }
}

/// A policy allowing every report category.
pub fn report_all() -> (p: MouseReportPolicy)
    ensures
        p.report_buttons && p.report_motion && p.report_scroll,
{
    policy(true, true, true)
}

/// The button field of a mouse report.
#[derive(Clone, Copy, Debug, PartialEq, Eq, Structural)]
pub enum MouseButton {
    Left,
    Right,
    /// Motion with the left button held.
    LeftDrag,
    /// Motion with no button held.
    Move,
    WheelUp,
    WheelDown,
}

#[derive(Clone, Copy, Debug, PartialEq, Eq, Structural)]
pub enum MouseAction {
    Pressed,
    Released,
}

/// A mouse report about to be sent to the application.
#[derive(Clone, Copy, Debug, PartialEq, Eq, Structural)]
pub struct MouseState {
    pub button: MouseButton,
    pub action: MouseAction,
    pub modifiers: ModifiersState,
    pub point: Point,
}

/// What a pointer event becomes once its cell is known and the policy applied.
#[derive(Clone, Copy, Debug, PartialEq, Eq, Structural)]
pub enum MouseInput {
    Report(MouseState),
    /// Vertical wheel motion by `rows` (positive: up).
    Scroll { rows: i32, point: Point },
}

/// SGR button number (xterm): low bits name the button, 32 marks motion,
/// 64 marks the wheel.
pub open spec fn button_code(button: MouseButton) -> nat {
    match button {
        MouseButton::Left => 0,
        MouseButton::Right => 2,
        MouseButton::LeftDrag => 32,
        MouseButton::Move => 35,
        MouseButton::WheelUp => 64,
        MouseButton::WheelDown => 65,
    }
}

/// SGR modifier bits: shift 4, alt 8, ctrl 16.
pub open spec fn modifier_code(m: ModifiersState) -> nat {
    (if m.shift { 4nat } else { 0nat }) + (if m.alt { 8nat } else { 0nat }) + (if m.ctrl {
        16nat
    } else {
        0nat
    })
}

/// ASCII decimal digits of `n`, most significant first, without leading zeros.
pub open spec fn decimal(n: nat) -> Seq<u8>
    decreases n,
{
    if n < 10 {
        seq![(48 + n) as u8]
    } else {
        decimal(n / 10).push((48 + n % 10) as u8)
    }
}

/// `ESC [ < code ; column ; row M` for a press, with a final `m` for a
/// release; column and row are 1-based.
pub open spec fn sgr_report(state: MouseState) -> Seq<u8> {
    seq![27u8, 91u8, 60u8] + decimal(button_code(state.button) + modifier_code(state.modifiers))
        + seq![59u8] + decimal((state.point.col + 1) as nat) + seq![59u8] + decimal((state.point.row + 1) as nat)
        + seq![
        if state.action == MouseAction::Pressed {
            77u8
        } else {
            109u8
        },
    ]
}

/// `unit` repeated `n` times.
pub open spec fn repeat(unit: Seq<u8>, n: nat) -> Seq<u8>
    decreases n,
{
    if n == 0 {
        Seq::empty()
    } else {
        repeat(unit, (n - 1) as nat) + unit
    }
}

pub open spec fn abs(x: int) -> nat {
    if x < 0 {
        (-x) as nat
    } else {
        x as nat
    }
}

/// What one wheel notch is sent as: an SGR wheel report when the application
/// takes them, otherwise an up/down arrow in SS3 form (`ESC O A` / `ESC O B`).
pub open spec fn scroll_unit(up: bool, point: Point, report_scroll: bool) -> Seq<u8> {
    if report_scroll {
        sgr_report(
            MouseState {
                button: if up {
                    MouseButton::WheelUp
                } else {
                    MouseButton::WheelDown
                },
                action: MouseAction::Pressed,
                modifiers: no_modifiers(),
                point,
            },
        )
    } else {
        seq![27u8, 79u8, if up { 65u8 } else { 66u8 }]
    }
}

/// Wheel motion of `rows` notches at `point`: one unit per notch, nothing
/// for zero.
pub open spec fn spec_scroll_bytes(rows: int, point: Point, report_scroll: bool) -> Option<
    Seq<u8>,
> {
    if rows == 0 {
        None
    } else {
        Some(repeat(scroll_unit(rows > 0, point, report_scroll), abs(rows)))
    }
}

/// The report a pointer event becomes, given its cell and the policy.
pub open spec fn spec_mouse_input(event: TuiEvent, bounds: TuiScreenRect, policy: MouseReportPolicy) -> Option<
    MouseInput,
> {
    match spec_event_position(event) {
        None => None,
        Some(position) => match spec_cell_point(position, bounds) {
            None => None,
            Some(point) => match event {
                TuiEvent::ScrollWheel { delta, .. } => if i32::MIN <= delta.1 <= i32::MAX {
                    Some(MouseInput::Scroll { rows: delta.1 as i32, point })
                } else {
                    None
                },
                TuiEvent::LeftMouseDown { modifiers, .. } => if policy.report_buttons
                    && !modifiers.shift {
                    Some(
                        MouseInput::Report(
                            MouseState {
                                button: MouseButton::Left,
                                action: MouseAction::Pressed,
                                modifiers,
                                point,
                            },
                        ),
                    )
                } else {
                    None
                },
                TuiEvent::RightMouseDown { modifiers, .. } => if policy.report_buttons
                    && !modifiers.shift {
                    Some(
                        MouseInput::Report(
                            MouseState {
                                button: MouseButton::Right,
                                action: MouseAction::Pressed,
                                modifiers,
                                point,
                            },
                        ),
                    )
                } else {
                    None
                },
                TuiEvent::LeftMouseUp { modifiers, .. } => if policy.report_buttons
                    && !modifiers.shift {
                    Some(
                        MouseInput::Report(
                            MouseState {
                                button: MouseButton::Left,
                                action: MouseAction::Released,
                                modifiers,
                                point,
                            },
                        ),
                    )
                } else {
                    None
                },
                TuiEvent::LeftMouseDragged { modifiers, .. } => if policy.report_buttons
                    && !modifiers.shift {
                    Some(
                        MouseInput::Report(
                            MouseState {
                                button: MouseButton::LeftDrag,
                                action: MouseAction::Pressed,
                                modifiers,
                                point,
                            },
                        ),
                    )
                } else {
                    None
                },
                TuiEvent::MouseMoved { modifiers, is_synthetic, .. } => if policy.report_motion
                    && !is_synthetic {
                    Some(
                        MouseInput::Report(
                            MouseState {
                                button: MouseButton::Move,
                                action: MouseAction::Pressed,
                                modifiers,
                                point,
                            },
                        ),
                    )
                } else {
                    None
                },
                _ => None,
            },
        },
    }
}

/// The bytes a pointer event is forwarded as, or `None` when it is not forwarded.
pub open spec fn spec_mouse_event_bytes(
    event: TuiEvent,
    bounds: TuiScreenRect,
    policy: MouseReportPolicy,
) -> Option<Seq<u8>> {
    match spec_mouse_input(event, bounds, policy) {
        None => None,
        Some(MouseInput::Report(state)) => Some(sgr_report(state)),
        Some(MouseInput::Scroll { rows, point }) => spec_scroll_bytes(
            rows as int,
            point,
            policy.report_scroll,
        ),
    }
}

/// The byte view of an optional buffer.
pub open spec fn opt_bytes(b: Option<Vec<u8>>) -> Option<Seq<u8>> {
    match b {
        Some(v) => Some(v@),
        None => None,
    }
}

/// Appends the decimal digits of `n`.
fn push_decimal(out: &mut Vec<u8>, n: u64)
    ensures
        final(out)@ == old(out)@ + decimal(n as nat),
    decreases n,
{
    if n >= 10 {
        push_decimal(out, n / 10);
    }
    let digit: u8 = (n % 10) as u8;
    out.push(48u8 + digit);
    proof {
        if n < 10 {
            assert(old(out)@ + decimal(n as nat) =~= old(out)@.push((48 + n) as u8));
        } else {
            assert(old(out)@ + decimal(n as nat) =~= (old(out)@ + decimal((n / 10) as nat)).push(
                (48 + n % 10) as u8,
            ));
        }
    }
}

/// Appends every byte of `src`.
fn extend_bytes(out: &mut Vec<u8>, src: &Vec<u8>)
    ensures
        final(out)@ == old(out)@ + src@,
{
    let mut i: usize = 0;
    while i < src.len()
        invariant
            i <= src.len(),
            out@ == old(out)@ + src@.take(i as int),
        decreases src.len() - i,
    {
        out.push(src[i]);
        i = i + 1;
        assert(src@.take(i as int) =~= src@.take(i - 1).push(src@[i - 1]));
    }
    assert(src@.take(src.len() as int) =~= src@);
}

fn button_number(button: MouseButton) -> (n: u64)
    ensures
        n == button_code(button),
{
    match button {
        MouseButton::Left => 0,
        MouseButton::Right => 2,
        MouseButton::LeftDrag => 32,
        MouseButton::Move => 35,
        MouseButton::WheelUp => 64,
        MouseButton::WheelDown => 65,
    }
}

fn modifier_number(m: ModifiersState) -> (n: u64)
    ensures
        n == modifier_code(m),
{
    let mut n: u64 = 0;
    if m.shift {
        n = n + 4;
    }
    if m.alt {
        n = n + 8;
    }
    if m.ctrl {
        n = n + 16;
    }
    n
}

impl MouseState {
    pub fn new(button: MouseButton, action: MouseAction, modifiers: ModifiersState, point: Point) -> (s:
        MouseState)
        ensures
            s == (MouseState { button, action, modifiers, point }),
    {
        MouseState { button, action, modifiers, point }
    }

    /// Encodes this report in SGR form.
    pub fn to_sgr_bytes(&self) -> (bytes: Vec<u8>)
        requires
            self.point.row < usize::MAX,
            self.point.col < usize::MAX,
        ensures
            bytes@ == sgr_report(*self),
    {
        let mut out: Vec<u8> = Vec::new();
        out.push(27u8);
        out.push(91u8);
        out.push(60u8);
        push_decimal(&mut out, button_number(self.button) + modifier_number(self.modifiers));
        out.push(59u8);
        push_decimal(&mut out, self.point.col as u64 + 1);
        out.push(59u8);
        push_decimal(&mut out, self.point.row as u64 + 1);
        let last: u8 = match self.action {
            MouseAction::Pressed => 77u8,
            MouseAction::Released => 109u8,
        };
        out.push(last);
        assert(out@ =~= sgr_report(*self));
        out
    }
}

/// Encodes vertical wheel motion for the alt screen: `rows` notches (positive
/// scrolls up) at `point`, as SGR wheel reports when `report_scroll` holds and
/// as arrow keys otherwise.
pub fn alt_screen_scroll_to_pty_bytes(rows: i32, point: Point, report_scroll: bool) -> (bytes:
    Option<Vec<u8>>)
    requires
        point.row < usize::MAX,
        point.col < usize::MAX,
    ensures
        opt_bytes(bytes) == spec_scroll_bytes(rows as int, point, report_scroll),
{
    if rows == 0 {
        return None;
    }
    let up = rows > 0;
    let unit: Vec<u8> = if report_scroll {
        let button = if up {
            MouseButton::WheelUp
        } else {
            MouseButton::WheelDown
        };
        let state = MouseState::new(
            button,
            MouseAction::Pressed,
            ModifiersState::default(),
            point,
        );
        state.to_sgr_bytes()
    } else {
        let mut v: Vec<u8> = Vec::new();
        v.push(27u8);
        v.push(79u8);
        v.push(if up { 65u8 } else { 66u8 });
        v
    };
    assert(unit@ == scroll_unit(up, point, report_scroll));
    let count: u32 = if rows > 0 {
        rows as u32
    } else {
        (-(rows as i64)) as u32
    };
    let mut out: Vec<u8> = Vec::new();
    let mut i: u32 = 0;
    while i < count
        invariant
            i <= count,
            count == abs(rows as int),
            unit@ == scroll_unit(up, point, report_scroll),
            out@ == repeat(unit@, i as nat),
        decreases count - i,
    {
        extend_bytes(&mut out, &unit);
        i = i + 1;
    }
    Some(out)
}

/// The report a pointer event becomes, if any: its cell inside `bounds`, and
/// the policy category it falls under (buttons, motion, or the wheel).
pub fn mouse_input(event: &TuiEvent, bounds: TuiScreenRect, policy: MouseReportPolicy) -> (input:
    Option<MouseInput>)
    ensures
        input == spec_mouse_input(*event, bounds, policy),
        input matches Some(i) ==> match i {
            MouseInput::Report(s) => s.point.row < bounds.size.height && s.point.col
                < bounds.size.width,
            MouseInput::Scroll { point, .. } => point.row < bounds.size.height && point.col
                < bounds.size.width,
        },
{
    let position = match event.position() {
        Some(p) => p,
        None => return None,
    };
    let point = match cell_point(position, bounds) {
        Some(p) => p,
        None => return None,
    };
    match *event {
        TuiEvent::ScrollWheel { delta, .. } => {
            let rows = delta.1;
            if i32::MIN as i64 <= rows && rows <= i32::MAX as i64 {
                Some(MouseInput::Scroll { rows: rows as i32, point })
            } else {
                None
            }
        },
        TuiEvent::LeftMouseDown { modifiers, .. } => {
            if policy.report_buttons && !modifiers.shift {
                Some(
                    MouseInput::Report(
                        MouseState::new(MouseButton::Left, MouseAction::Pressed, modifiers, point),
                    ),
                )
            } else {
                None
            }
        },
        TuiEvent::RightMouseDown { modifiers, .. } => {
            if policy.report_buttons && !modifiers.shift {
                Some(
                    MouseInput::Report(
                        MouseState::new(MouseButton::Right, MouseAction::Pressed, modifiers, point),
                    ),
                )
            } else {
                None
            }
        },
        TuiEvent::LeftMouseUp { modifiers, .. } => {
            if policy.report_buttons && !modifiers.shift {
                Some(
                    MouseInput::Report(
                        MouseState::new(MouseButton::Left, MouseAction::Released, modifiers, point),
                    ),
                )
            } else {
                None
            }
        },
        TuiEvent::LeftMouseDragged { modifiers, .. } => {
            if policy.report_buttons && !modifiers.shift {
                Some(
                    MouseInput::Report(
                        MouseState::new(
                            MouseButton::LeftDrag,
                            MouseAction::Pressed,
                            modifiers,
                            point,
                        ),
                    ),
                )
            } else {
                None
            }
        },
        TuiEvent::MouseMoved { modifiers, is_synthetic, .. } => {
            if policy.report_motion && !is_synthetic {
                Some(
                    MouseInput::Report(
                        MouseState::new(MouseButton::Move, MouseAction::Pressed, modifiers, point),
                    ),
                )
            } else {
                None
            }
        },
        _ => None,
    }
}

/// Encodes a supported pointer event for the active alt-screen application.
pub fn mouse_event_to_pty_bytes(
    event: &TuiEvent,
    bounds: TuiScreenRect,
    policy: MouseReportPolicy,
) -> (bytes: Option<Vec<u8>>)
    ensures
        opt_bytes(bytes) == spec_mouse_event_bytes(*event, bounds, policy),
{
    match mouse_input(event, bounds, policy) {
        None => None,
        Some(MouseInput::Report(state)) => Some(state.to_sgr_bytes()),
        Some(MouseInput::Scroll { rows, point }) => alt_screen_scroll_to_pty_bytes(
            rows,
            point,
            policy.report_scroll,
        ),
    }
}


/// The event with its pointer position replaced by `p` (events without a
/// position are returned unchanged).
pub open spec fn with_position(event: TuiEvent, p: TuiPoint) -> TuiEvent {
    match event {
        TuiEvent::LeftMouseDown { modifiers, click_count, is_first_mouse, .. } =>
            TuiEvent::LeftMouseDown { position: p, modifiers, click_count, is_first_mouse },
        TuiEvent::RightMouseDown { modifiers, click_count, .. } => TuiEvent::RightMouseDown {
            position: p,
            modifiers,
            click_count,
        },
        TuiEvent::MiddleMouseDown { modifiers, click_count, .. } => TuiEvent::MiddleMouseDown {
            position: p,
            modifiers,
            click_count,
        },
        TuiEvent::LeftMouseUp { modifiers, .. } => TuiEvent::LeftMouseUp { position: p, modifiers },
        TuiEvent::LeftMouseDragged { modifiers, .. } => TuiEvent::LeftMouseDragged {
            position: p,
            modifiers,
        },
        TuiEvent::MouseMoved { modifiers, is_synthetic, .. } => TuiEvent::MouseMoved {
            position: p,
            modifiers,
            is_synthetic,
        },
        TuiEvent::ScrollWheel { delta, precise, modifiers, .. } => TuiEvent::ScrollWheel {
            position: p,
            delta,
            precise,
            modifiers,
        },
        other => other,
    }
}

/// Clicks, releases and drags: the events gated by `report_buttons`.
pub open spec fn is_button_event(event: TuiEvent) -> bool {
    ||| event is LeftMouseDown
    ||| event is RightMouseDown
    ||| event is LeftMouseUp
    ||| event is LeftMouseDragged
}

/// Reports use coordinates relative to the element: moving the element and
/// the pointer by the same offset leaves the forwarded bytes unchanged.
pub proof fn lemma_area_relative_coordinates(
    event: TuiEvent,
    position: TuiPoint,
    bounds: TuiScreenRect,
    moved_position: TuiPoint,
    moved_bounds: TuiScreenRect,
    policy: MouseReportPolicy,
    dx: int,
    dy: int,
)
    requires
        spec_event_position(event) == Some(position),
        moved_position.x == position.x + dx,
        moved_position.y == position.y + dy,
        moved_bounds.origin.x == bounds.origin.x + dx,
        moved_bounds.origin.y == bounds.origin.y + dy,
        moved_bounds.size == bounds.size,
    ensures
        spec_mouse_event_bytes(with_position(event, moved_position), moved_bounds, policy)
            == spec_mouse_event_bytes(event, bounds, policy),
{
    assert(spec_event_position(with_position(event, moved_position)) == Some(moved_position));
    assert(spec_cell_point(moved_position, moved_bounds) == spec_cell_point(position, bounds));
}

/// Clicks, releases and drags follow `report_buttons` alone: they are never
/// forwarded when it is off, and the other two categories do not affect them.
pub proof fn lemma_buttons_follow_report_buttons(
    event: TuiEvent,
    bounds: TuiScreenRect,
    p: MouseReportPolicy,
    q: MouseReportPolicy,
)
    requires
        is_button_event(event),
    ensures
        !p.report_buttons ==> spec_mouse_event_bytes(event, bounds, p) is None,
        p.report_buttons == q.report_buttons ==> spec_mouse_event_bytes(event, bounds, p)
            == spec_mouse_event_bytes(event, bounds, q),
{
}

/// Hover motion follows `report_motion` alone.
pub proof fn lemma_motion_follows_report_motion(
    event: TuiEvent,
    bounds: TuiScreenRect,
    p: MouseReportPolicy,
    q: MouseReportPolicy,
)
    requires
        event is MouseMoved,
    ensures
        !p.report_motion ==> spec_mouse_event_bytes(event, bounds, p) is None,
        p.report_motion == q.report_motion ==> spec_mouse_event_bytes(event, bounds, p)
            == spec_mouse_event_bytes(event, bounds, q),
{
}

/// Wheel events are always forwarded from inside the element (when they move
/// vertically); `report_scroll` only chooses between SGR wheel reports and
/// arrow keys.
pub proof fn lemma_scroll_follows_report_scroll(
    event: TuiEvent,
    bounds: TuiScreenRect,
    p: MouseReportPolicy,
    q: MouseReportPolicy,
)
    requires
        event is ScrollWheel,
    ensures
        p.report_scroll == q.report_scroll ==> spec_mouse_event_bytes(event, bounds, p)
            == spec_mouse_event_bytes(event, bounds, q),
        (spec_mouse_event_bytes(event, bounds, p) is Some) == (spec_mouse_event_bytes(
            event,
            bounds,
            q,
        ) is Some),
{
}

/// Events that are never forwarded: pointer events outside the element,
/// shift-held clicks and drags (shift is the host's selection override), the
/// middle button, synthetic hover, purely horizontal wheel motion, and events
/// without a pointer.
pub proof fn lemma_unforwarded_events(event: TuiEvent, bounds: TuiScreenRect, p: MouseReportPolicy)
    ensures
        spec_event_position(event) matches Some(pos) && !crate::geometry::rect_contains(bounds, pos)
            ==> spec_mouse_event_bytes(event, bounds, p) is None,
        spec_event_position(event) is None ==> spec_mouse_event_bytes(event, bounds, p) is None,
        event is MiddleMouseDown ==> spec_mouse_event_bytes(event, bounds, p) is None,
        (event matches TuiEvent::MouseMoved { is_synthetic, .. } && is_synthetic)
            ==> spec_mouse_event_bytes(event, bounds, p) is None,
        (event matches TuiEvent::ScrollWheel { delta, .. } && delta.1 == 0)
            ==> spec_mouse_event_bytes(event, bounds, p) is None,
        (is_button_event(event) && match event {
            TuiEvent::LeftMouseDown { modifiers, .. } => modifiers.shift,
            TuiEvent::RightMouseDown { modifiers, .. } => modifiers.shift,
            TuiEvent::LeftMouseUp { modifiers, .. } => modifiers.shift,
            TuiEvent::LeftMouseDragged { modifiers, .. } => modifiers.shift,
            _ => false,
        }) ==> spec_mouse_event_bytes(event, bounds, p) is None,
{
}

/// The cell of `position` relative to the top-left corner of `bounds`.
pub open spec fn relative_cell(position: TuiPoint, bounds: TuiScreenRect) -> Point {
    Point {
        row: (position.y - bounds.origin.y) as usize,
        col: (position.x - bounds.origin.x) as usize,
    }
}

/// The SGR report of `button`/`action` with `modifiers` at `position` inside `bounds`.
pub open spec fn report_at(
    button: MouseButton,
    action: MouseAction,
    modifiers: ModifiersState,
    position: TuiPoint,
    bounds: TuiScreenRect,
) -> Seq<u8> {
    sgr_report(
        MouseState { button, action, modifiers, point: relative_cell(position, bounds) },
    )
}

/// Inside the element, with button reports allowed and shift not held,
/// every click, release and drag is forwarded as the SGR report of its
/// button at its cell: left and right presses, left releases, and left
/// drags, whatever the click count (double and triple clicks included) and
/// whether the click also focused the window.
pub proof fn lemma_button_events_are_reported(
    position: TuiPoint,
    bounds: TuiScreenRect,
    p: MouseReportPolicy,
    modifiers: ModifiersState,
    click_count: u32,
    is_first_mouse: bool,
)
    requires
        crate::geometry::rect_contains(bounds, position),
        p.report_buttons,
        !modifiers.shift,
    ensures
        spec_mouse_event_bytes(
            TuiEvent::LeftMouseDown { position, modifiers, click_count, is_first_mouse },
            bounds,
            p,
        ) == Some(report_at(MouseButton::Left, MouseAction::Pressed, modifiers, position, bounds)),
        spec_mouse_event_bytes(
            TuiEvent::RightMouseDown { position, modifiers, click_count },
            bounds,
            p,
        ) == Some(report_at(MouseButton::Right, MouseAction::Pressed, modifiers, position, bounds)),
        spec_mouse_event_bytes(TuiEvent::LeftMouseUp { position, modifiers }, bounds, p) == Some(
            report_at(MouseButton::Left, MouseAction::Released, modifiers, position, bounds),
        ),
        spec_mouse_event_bytes(TuiEvent::LeftMouseDragged { position, modifiers }, bounds, p)
            == Some(
            report_at(MouseButton::LeftDrag, MouseAction::Pressed, modifiers, position, bounds),
        ),
{
}

/// The click count and first-mouse flag of a press never change what is sent.
pub proof fn lemma_click_count_is_not_reported(
    position: TuiPoint,
    bounds: TuiScreenRect,
    p: MouseReportPolicy,
    modifiers: ModifiersState,
    c1: u32,
    c2: u32,
    f1: bool,
    f2: bool,
)
    ensures
        spec_mouse_event_bytes(
            TuiEvent::LeftMouseDown { position, modifiers, click_count: c1, is_first_mouse: f1 },
            bounds,
            p,
        ) == spec_mouse_event_bytes(
            TuiEvent::LeftMouseDown { position, modifiers, click_count: c2, is_first_mouse: f2 },
            bounds,
            p,
        ),
        spec_mouse_event_bytes(
            TuiEvent::RightMouseDown { position, modifiers, click_count: c1 },
            bounds,
            p,
        ) == spec_mouse_event_bytes(
            TuiEvent::RightMouseDown { position, modifiers, click_count: c2 },
            bounds,
            p,
        ),
{
}

/// Real hover motion inside the element, with motion reports allowed, is
/// forwarded as a no-button motion report at its cell.
pub proof fn lemma_motion_is_reported(
    position: TuiPoint,
    bounds: TuiScreenRect,
    p: MouseReportPolicy,
    modifiers: ModifiersState,
)
    requires
        crate::geometry::rect_contains(bounds, position),
        p.report_motion,
    ensures
        spec_mouse_event_bytes(
            TuiEvent::MouseMoved { position, modifiers, is_synthetic: false },
            bounds,
            p,
        ) == Some(report_at(MouseButton::Move, MouseAction::Pressed, modifiers, position, bounds)),
{
}

/// Vertical wheel motion inside the element always reaches the application:
/// one notch up is one wheel-up report at the cell (or one up arrow, `ESC O
/// A`, when wheel reports are off), one notch down a wheel-down report (or
/// `ESC O B`), and `n` notches send `n` such units.
pub proof fn lemma_wheel_is_forwarded(
    position: TuiPoint,
    bounds: TuiScreenRect,
    p: MouseReportPolicy,
    modifiers: ModifiersState,
    cols: i64,
    rows: i64,
    precise: bool,
)
    requires
        crate::geometry::rect_contains(bounds, position),
        rows != 0,
        i32::MIN <= rows <= i32::MAX,
    ensures
        ({
            let event = TuiEvent::ScrollWheel { position, delta: (cols, rows), precise, modifiers };
            let unit = if p.report_scroll {
                report_at(
                    if rows > 0 {
                        MouseButton::WheelUp
                    } else {
                        MouseButton::WheelDown
                    },
                    MouseAction::Pressed,
                    no_modifiers(),
                    position,
                    bounds,
                )
            } else {
                seq![27u8, 79u8, if rows > 0 { 65u8 } else { 66u8 }]
            };
            &&& spec_mouse_event_bytes(event, bounds, p) == Some(repeat(unit, abs(rows as int)))
            &&& rows == 1 ==> spec_mouse_event_bytes(event, bounds, p) == Some(unit)
            &&& rows == -1 ==> spec_mouse_event_bytes(event, bounds, p) == Some(unit)
        }),
{
    let u = scroll_unit(rows > 0, relative_cell(position, bounds), p.report_scroll);
    assert(repeat(u, 0) =~= Seq::<u8>::empty());
    assert(repeat(u, 1) =~= u);
}

} // verus!
