//! State and decisions of the full-screen alt-screen element.
//!
//! When a PTY application switches to the alternate screen (vim, htop, less,
//! ...), the session renders this element over the whole pane and forwards
//! input straight to the application: keystrokes are encoded by the host,
//! pointer events become SGR mouse reports (see [`crate::mouse`]) once they
//! are hit-tested against the area the element last occupied.
use vstd::prelude::*;

use crate::geometry::{Point, TuiConstraint, TuiScreenPoint, TuiScreenRect, TuiSize};
use crate::mouse::{
    mouse_event_to_pty_bytes, spec_mouse_event_bytes, MouseReportPolicy, TuiEvent,
};

verus! {

/// The alt-screen element's retained layout: the size it was last laid out
/// at and the screen point it was last painted at.
pub struct AltScreenElement {
    size: Option<TuiSize>,
    origin: Option<TuiScreenPoint>,
}

/// Where an input event goes.
#[derive(Debug, PartialEq, Eq)]
pub enum EventRoute {
    /// A key press to be encoded by the host's key tables and sent to the PTY.
    EncodeKeystroke,
    /// Bytes to send to the PTY as they are.
    ForwardToPty(Vec<u8>),
    /// Not for the application (IME composition, unsupported or gated events).
    Ignore,
}

/// The area pointer events are hit-tested against: known once the element
/// has been both laid out and painted.
pub open spec fn spec_hit_area(size: Option<TuiSize>, origin: Option<TuiScreenPoint>) -> Option<
    TuiScreenRect,
> {
    match (origin, size) {
        (Some(o), Some(s)) => Some(TuiScreenRect { origin: o, size: s }),
        _ => None,
    }
}

/// How an event is routed, with the forwarded bytes as a sequence.
pub open spec fn spec_route(
    event: TuiEvent,
    area: Option<TuiScreenRect>,
    policy: MouseReportPolicy,
) -> Option<Option<Seq<u8>>> {
    match event {
        TuiEvent::KeyDown { is_composing } => if is_composing {
            None
        } else {
            Some(None)
        },
        _ => match area {
            None => None,
            Some(r) => match spec_mouse_event_bytes(event, r, policy) {
                Some(b) => Some(Some(b)),
                None => None,
            },
        },
    }
}

/// `Some(None)` for a keystroke to encode, `Some(Some(b))` for bytes to
/// forward, `None` when the event is ignored.
pub open spec fn route_view(route: EventRoute) -> Option<Option<Seq<u8>>> {
    match route {
        EventRoute::EncodeKeystroke => Some(None),
        EventRoute::ForwardToPty(b) => Some(Some(b@)),
        EventRoute::Ignore => None,
    }
}

impl AltScreenElement {
    pub closed spec fn spec_size(&self) -> Option<TuiSize> {
        self.size
    }

    pub closed spec fn spec_origin(&self) -> Option<TuiScreenPoint> {
        self.origin
    }

    pub open spec fn spec_area(&self) -> Option<TuiScreenRect> {
        spec_hit_area(self.spec_size(), self.spec_origin())
    }

    /// An element that has not been laid out or painted yet.
    pub fn new() -> (e: AltScreenElement)
        ensures
            e.spec_size() is None,
            e.spec_origin() is None,
    {
        AltScreenElement { size: None, origin: None }
    }

    /// The alt-screen application owns the whole pane: takes the largest size
    /// allowed and retains it for sizing the PTY and hit-testing.
    pub fn layout(&mut self, constraint: TuiConstraint) -> (size: TuiSize)
        ensures
            size == constraint.max,
            final(self).spec_size() == Some(constraint.max),
            final(self).spec_origin() == old(self).spec_origin(),
    {
        let size = constraint.max;
        self.size = Some(size);
        size
    }

    /// Records where the element is painted; returns the size to paint the
    /// grid at, or `None` when the element has not been laid out (nothing is
    /// painted then).
    pub fn render(&mut self, origin: TuiScreenPoint) -> (paint: Option<TuiSize>)
        ensures
            final(self).spec_origin() == Some(origin),
            final(self).spec_size() == old(self).spec_size(),
            paint == old(self).spec_size(),
    {
        self.origin = Some(origin);
        self.size
    }

    /// The size from the last layout.
    pub fn size(&self) -> (s: Option<TuiSize>)
        ensures
            s == self.spec_size(),
    {
        self.size
    }

    /// The screen point of the last paint.
    pub fn origin(&self) -> (o: Option<TuiScreenPoint>)
        ensures
            o == self.spec_origin(),
    {
        self.origin
    }

    /// The retained screen area, once both laid out and painted.
    pub fn hit_area(&self) -> (r: Option<TuiScreenRect>)
        ensures
            r == self.spec_area(),
    {
        match (self.origin, self.size) {
            (Some(origin), Some(size)) => Some(TuiScreenRect::new(origin, size)),
            _ => None,
        }
    }

    /// Routes an input event: key presses go to the host's encoder unless an
    /// IME composition is in progress; pointer events are translated to
    /// mouse reports against the retained area under `policy`.
    pub fn dispatch_event(&self, event: &TuiEvent, policy: MouseReportPolicy) -> (route:
        EventRoute)
        ensures
            route_view(route) == spec_route(*event, self.spec_area(), policy),
    {
        match *event {
            TuiEvent::KeyDown { is_composing } => {
                if is_composing {
                    EventRoute::Ignore
                } else {
                    EventRoute::EncodeKeystroke
                }
            },
            _ => match self.hit_area() {
                None => EventRoute::Ignore,
                Some(area) => {
                    let bytes = mouse_event_to_pty_bytes(event, area, policy);
                    match bytes {
                        Some(b) => EventRoute::ForwardToPty(b),
                        None => EventRoute::Ignore,
                    }
                },
            },
        }
    }
}

/// The hardware cursor cell, relative to the element, for a cursor shown at
/// grid `cursor` (rows counted from the top of the scrollback): history rows
/// are subtracted so the cursor maps to a visible row, and it is shown only
/// when it falls inside `size`.
pub open spec fn spec_visible_cursor(
    show_cursor: bool,
    cursor: Point,
    history_size: usize,
    size: TuiSize,
) -> Option<(u16, u16)> {
    if show_cursor && cursor.row >= history_size && cursor.col < size.width && cursor.row
        - history_size < size.height {
        Some((cursor.col as u16, (cursor.row - history_size) as u16))
    } else {
        None
    }
}

/// Computes where the terminal cursor is submitted, if anywhere.
pub fn visible_cursor(show_cursor: bool, cursor: Point, history_size: usize, size: TuiSize) -> (cell:
    Option<(u16, u16)>)
    ensures
        cell == spec_visible_cursor(show_cursor, cursor, history_size, size),
        cell matches Some((col, row)) ==> col < size.width && row < size.height,
{
    if !show_cursor {
        return None;
    }
    let row = match cursor.row.checked_sub(history_size) {
        Some(r) => r,
        None => return None,
    };
    if cursor.col < size.width as usize && row < size.height as usize {
        Some((cursor.col as u16, row as u16))
    } else {
        None
    }
}

/// Every event other than a key press is routed exactly as the mouse
/// encoder decides: once the element has an area, it is forwarded with the
/// encoder's bytes when the encoder produces some, and ignored otherwise;
/// before the element has an area nothing is forwarded.
pub proof fn lemma_pointer_routes_follow_encoder(
    event: TuiEvent,
    area: Option<TuiScreenRect>,
    policy: MouseReportPolicy,
)
    requires
        !(event is KeyDown),
    ensures
        area is None ==> spec_route(event, area, policy) is None,
        area matches Some(r) ==> (spec_route(event, area, policy) == match spec_mouse_event_bytes(
            event,
            r,
            policy,
        ) {
            Some(b) => Some(Some(b)),
            None => None::<Option<Seq<u8>>>,
        }),
{
}

/// Key presses never depend on the area or the mouse policy: they go to the
/// host's encoder unless an IME composition is in progress.
pub proof fn lemma_keys_are_encoded_unless_composing(
    is_composing: bool,
    area: Option<TuiScreenRect>,
    policy: MouseReportPolicy,
)
    ensures
        spec_route(TuiEvent::KeyDown { is_composing }, area, policy) == if is_composing {
            None::<Option<Seq<u8>>>
        } else {
            Some(None)
        },
{
}

/// Once laid out and painted, a wheel event inside the element is always
/// forwarded to the application.
pub proof fn lemma_wheel_reaches_application(
    event: TuiEvent,
    area: TuiScreenRect,
    policy: MouseReportPolicy,
)
    requires
        event matches TuiEvent::ScrollWheel { position, delta, .. } && crate::geometry::rect_contains(
            area,
            position,
        ) && delta.1 != 0 && i32::MIN <= delta.1 <= i32::MAX,
    ensures
        spec_route(event, Some(area), policy) matches Some(Some(b)) && Some(b)
            == spec_mouse_event_bytes(event, area, policy),
{
    match event {
        TuiEvent::ScrollWheel { position, delta, precise, modifiers } => {
            crate::mouse::lemma_wheel_is_forwarded(
                position,
                area,
                policy,
                modifiers,
                delta.0,
                delta.1,
                precise,
            );
        },
        _ => {},
    }
}

} // verus!
