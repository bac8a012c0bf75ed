//! The selection state machine: it takes one input event at a time and
//! decides what the overlay should do next.
use vstd::prelude::*;
use crate::geometry::{Point, Rect, rect_of};
use crate::pixels::ScreenData;
use crate::throttle::{Throttle, allows, accepted, NANOS_PER_HALF_SECOND, REFRESH_RATE};

verus! {

/// The hardware keycode of the key that cancels the capture (Escape).
pub const CANCEL_KEYCODE: u32 = 9;

/// The hardware keycode of the key that confirms the capture (Return).
pub const CONFIRM_KEYCODE: u32 = 36;

/// The pointer button that starts and ends a drag.
pub const PRIMARY_BUTTON: u32 = 1;

/// Where the selection is in its lifecycle.
#[derive(Copy, Clone, Debug, PartialEq, Eq, Structural)]
pub enum SelectionState {
    NotCreated,
    Selecting,
    Selected,
}

/// What a key press means to the selection.
#[derive(Copy, Clone, Debug, PartialEq, Eq, Structural)]
pub enum Key {
    Confirm,
    Cancel,
    Other,
}

pub open spec fn key_of(keycode: u32) -> Key {
    if keycode == CANCEL_KEYCODE {
        Key::Cancel
    } else if keycode == CONFIRM_KEYCODE {
        Key::Confirm
    } else {
        Key::Other
    }
}

impl Key {
    /// The logical key of a hardware keycode.
    pub fn from_keycode(keycode: u32) -> (k: Key)
        ensures
            k == key_of(keycode),
    {
        if keycode == CANCEL_KEYCODE {
            Key::Cancel
        } else if keycode == CONFIRM_KEYCODE {
            Key::Confirm
        } else {
            Key::Other
        }
    }
}

/// An input event from the overlay, with the pointer position where it has one.
#[derive(Copy, Clone, Debug, PartialEq, Eq, Structural)]
pub enum Event {
    PointerMove { x: i32, y: i32 },
    ButtonDown { button: u32, x: i32, y: i32 },
    ButtonUp { button: u32, x: i32, y: i32 },
    KeyDown { key: Key },
    Other,
}

/// What the overlay does in answer to an event.
#[derive(Copy, Clone, Debug, PartialEq, Eq, Structural)]
pub enum Action {
    /// Nothing visible changes.
    Nothing,
    /// Clear the overlay and outline this rectangle.
    Redraw(Rect),
    /// Capture this rectangle, save it and end the session.
    Capture(Rect),
    /// End the session without capturing anything.
    Cancel,
}

/// The state of one capture session: the selection lifecycle, the drag's
/// anchor and current corner, the redraw throttle and the captured screen.
#[derive(Copy, Clone, Debug, PartialEq, Eq, Structural)]
pub struct Selector {
    pub state: SelectionState,
    pub point_one: Point,
    pub point_two: Point,
    pub throttle: Throttle,
    pub screen: ScreenData,
}

/// The selection's state and action after `e` arrives at time `now`.
///
/// A pointer move counts only while selecting and only when the pointer has
/// moved: the new corner is always recorded, and it is drawn if the throttle
/// allows. A primary button press starts a new drag at the pointer. A primary
/// button release sets the final corner and always redraws. Confirm captures
/// the selection, or the whole screen when nothing was ever selected; cancel
/// ends the session. Everything else changes nothing.
pub open spec fn next(s: Selector, e: Event, now: u64) -> (Selector, Action) {
    match e {
        Event::PointerMove { x, y } => {
            if s.state == SelectionState::Selecting && (x != s.point_two.x || y != s.point_two.y) {
                let moved = Selector { point_two: Point { x, y }, ..s };
                if allows(s.throttle, now) {
                    (
                        Selector { throttle: accepted(s.throttle, now), ..moved },
                        Action::Redraw(rect_of(s.point_one, Point { x, y })),
                    )
                } else {
                    (moved, Action::Nothing)
                }
            } else {
                (s, Action::Nothing)
            }
        },
        Event::ButtonDown { button, x, y } => {
            if button == PRIMARY_BUTTON {
                (
                    Selector {
                        state: SelectionState::Selecting,
                        point_one: Point { x, y },
                        point_two: Point { x, y },
                        ..s
                    },
                    Action::Nothing,
                )
            } else {
                (s, Action::Nothing)
            }
        },
        Event::ButtonUp { button, x, y } => {
            if button == PRIMARY_BUTTON {
                (
                    Selector { state: SelectionState::Selected, point_two: Point { x, y }, ..s },
                    Action::Redraw(rect_of(s.point_one, Point { x, y })),
                )
            } else {
                (s, Action::Nothing)
            }
        },
        Event::KeyDown { key } => match key {
            Key::Cancel => (s, Action::Cancel),
            Key::Confirm => (s, Action::Capture(capture_rect(s))),
            Key::Other => (s, Action::Nothing),
        },
        Event::Other => (s, Action::Nothing),
    }
}

/// What confirm captures: the whole screen before any drag, else the
/// rectangle between the anchor and the current corner.
pub open spec fn capture_rect(s: Selector) -> Rect {
    if s.state == SelectionState::NotCreated {
        rect_of(Point { x: 0, y: 0 }, Point { x: s.screen.width, y: s.screen.height })
    } else {
        rect_of(s.point_one, s.point_two)
    }
}

impl Selector {
    /// A fresh session over `screen`, started at time `start`: nothing is
    /// selected yet and the throttle counts from `start`.
    pub fn new(screen: ScreenData, start: u64) -> (s: Self)
        ensures
            s.state == SelectionState::NotCreated,
            s.point_one == (Point { x: 0, y: 0 }),
            s.point_two == (Point { x: 0, y: 0 }),
            s.throttle == (Throttle {
                last_accepted: start,
                min_interval: NANOS_PER_HALF_SECOND / REFRESH_RATE,
            }),
            s.screen == screen,
    {
        Selector {
            state: SelectionState::NotCreated,
            point_one: Point::new(0, 0),
            point_two: Point::new(0, 0),
            throttle: Throttle::for_rate(start, REFRESH_RATE),
            screen,
        }
    }

    /// Takes one event, arriving at time `now`, and says what to do.
    pub fn handle_event(&mut self, e: Event, now: u64) -> (a: Action)
        ensures
            (*final(self), a) == next(*old(self), e, now),
    {
        match e {
            Event::PointerMove { x, y } => {
                if self.state == SelectionState::Selecting && (x != self.point_two.x || y
                    != self.point_two.y) {
                    self.point_two = Point::new(x, y);
                    if self.throttle.allow_redraw(now) {
                        self.throttle.accept(now);
                        Action::Redraw(Rect::from_points(self.point_one, self.point_two))
                    } else {
                        Action::Nothing
                    }
                } else {
                    Action::Nothing
                }
            },
            Event::ButtonDown { button, x, y } => {
                if button == PRIMARY_BUTTON {
                    self.point_one = Point::new(x, y);
                    self.point_two = Point::new(x, y);
                    self.state = SelectionState::Selecting;
                }
                Action::Nothing
            },
            Event::ButtonUp { button, x, y } => {
                if button == PRIMARY_BUTTON {
                    self.point_two = Point::new(x, y);
                    self.state = SelectionState::Selected;
                    Action::Redraw(Rect::from_points(self.point_one, self.point_two))
                } else {
                    Action::Nothing
                }
            },
            Event::KeyDown { key } => match key {
                Key::Cancel => Action::Cancel,
                Key::Confirm => Action::Capture(self.capture_rect()),
                Key::Other => Action::Nothing,
            },
            Event::Other => Action::Nothing,
        }
    }

    /// The rectangle that confirm captures now.
    pub fn capture_rect(&self) -> (r: Rect)
        ensures
            r == capture_rect(*self),
    {
        if self.state == SelectionState::NotCreated {
            self.screen.full_rect()
        } else {
            Rect::from_points(self.point_one, self.point_two)
        }
    }
}

/// Confirming before any drag captures exactly the whole screen, from the
/// origin to the screen's width and height.
pub proof fn lemma_confirm_without_drag(s: Selector, now: u64)
    requires
        s.state == SelectionState::NotCreated,
    ensures
        next(s, Event::KeyDown { key: Key::Confirm }, now).1 == Action::Capture(
            rect_of(Point { x: 0, y: 0 }, Point { x: s.screen.width, y: s.screen.height }),
        ),
{
}

/// Releasing the primary button always redraws the final rectangle, whether
/// or not the throttle would allow a redraw at that moment.
pub proof fn lemma_release_always_redraws(s: Selector, x: i32, y: i32, now: u64)
    ensures
        next(s, Event::ButtonUp { button: PRIMARY_BUTTON, x, y }, now).1 == Action::Redraw(
            rect_of(s.point_one, Point { x, y }),
        ),
        next(s, Event::ButtonUp { button: PRIMARY_BUTTON, x, y }, now).0.state
            == SelectionState::Selected,
{
}

/// A pointer move that the throttle holds back still records the new
/// corner, so the next redraw shows the latest position.
pub proof fn lemma_throttled_move_keeps_position(s: Selector, x: i32, y: i32, now: u64)
    requires
        s.state == SelectionState::Selecting,
        !allows(s.throttle, now),
    ensures
        next(s, Event::PointerMove { x, y }, now).0.point_two == (Point { x, y }),
        next(s, Event::PointerMove { x, y }, now).1 == Action::Nothing,
{
}

} // verus!
