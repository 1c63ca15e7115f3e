//! From what the mouse, the touch screen and the keyboard report to the
//! events of the drag rules.

use vstd::prelude::*;
use crate::events::{DragEndEvent, DragMoveEvent, DragStartEvent, RotateEvent};
use crate::geometry::Point;
use crate::rotation::ROTATION_STEP;
use crate::source::DragSource;

verus! {

/// What a touch does.
#[derive(PartialEq, Eq, Structural, Clone, Copy, Debug)]
pub enum TouchPhase {
    Started,
    Moved,
    Ended,
    Cancelled,
}

/// An event for the drag rules.
#[derive(PartialEq, Eq, Structural, Clone, Copy, Debug)]
pub enum DragEvent {
    Start(DragStartEvent),
    Move(DragMoveEvent),
    End(DragEndEvent),
}

/// A key that turns the held shape, or any other.
#[derive(PartialEq, Eq, Structural, Clone, Copy, Debug)]
pub enum KeyCode {
    E,
    Q,
    Other,
}

/// The sense of a turn.
#[derive(PartialEq, Eq, Structural, Clone, Copy, Debug)]
pub enum Turn {
    Clockwise,
    CounterClockwise,
}

/// What the left mouse button leads to in a frame: a release ends the drag,
/// wherever the cursor is; a press starts one and a held button moves it,
/// each only while the cursor is over the window.
pub open spec fn mouse_event(just_released: bool, just_pressed: bool, pressed: bool, cursor: Option<Point>) -> Option<
    DragEvent,
> {
    if just_released {
        Some(DragEvent::End(DragEndEvent { drag_source: DragSource::Mouse }))
    } else if just_pressed {
        match cursor {
            Some(position) => Some(
                DragEvent::Start(DragStartEvent { drag_source: DragSource::Mouse, position }),
            ),
            None => None,
        }
    } else if pressed {
        match cursor {
            Some(position) => Some(
                DragEvent::Move(DragMoveEvent { drag_source: DragSource::Mouse, new_position: position }),
            ),
            None => None,
        }
    } else {
        None
    }
}

/// What a touch leads to: a start, a move, or an end; a cancelled touch
/// ends like a lifted one.
pub open spec fn touch_event(phase: TouchPhase, id: u64, position: Point) -> DragEvent {
    match phase {
        TouchPhase::Started => DragEvent::Start(
            DragStartEvent { drag_source: DragSource::Touch { id }, position },
        ),
        TouchPhase::Moved => DragEvent::Move(
            DragMoveEvent { drag_source: DragSource::Touch { id }, new_position: position },
        ),
        TouchPhase::Ended => DragEvent::End(DragEndEvent { drag_source: DragSource::Touch { id } }),
        TouchPhase::Cancelled => DragEvent::End(DragEndEvent { drag_source: DragSource::Touch { id } }),
    }
}

/// Turns the state of the left mouse button into an event.
pub fn mousebutton_listener(just_released: bool, just_pressed: bool, pressed: bool, cursor: Option<Point>) -> (event:
    Option<DragEvent>)
    ensures
        event == mouse_event(just_released, just_pressed, pressed, cursor),
{
    if just_released {
        Some(DragEvent::End(DragEndEvent { drag_source: DragSource::Mouse }))
    } else if just_pressed {
        match cursor {
            Some(position) => Some(
                DragEvent::Start(DragStartEvent { drag_source: DragSource::Mouse, position }),
            ),
            None => None,
        }
    } else if pressed {
        match cursor {
            Some(position) => Some(
                DragEvent::Move(DragMoveEvent { drag_source: DragSource::Mouse, new_position: position }),
            ),
            None => None,
        }
    } else {
        None
    }
}

/// Turns a touch into an event.
pub fn touch_listener(phase: TouchPhase, id: u64, position: Point) -> (event: DragEvent)
    ensures
        event == touch_event(phase, id, position),
{
    let drag_source = DragSource::Touch { id };
    match phase {
        TouchPhase::Started => DragEvent::Start(DragStartEvent { drag_source, position }),
        TouchPhase::Moved => DragEvent::Move(DragMoveEvent { drag_source, new_position: position }),
        TouchPhase::Ended => DragEvent::End(DragEndEvent { drag_source }),
        TouchPhase::Cancelled => DragEvent::End(DragEndEvent { drag_source }),
    }
}

impl Turn {
    /// The rotation that a turn by key or wheel asks for: a sixteenth of a
    /// turn, clockwise being the negative sense, snapped to sixteenths.
    pub open spec fn rotation(self) -> RotateEvent {
        RotateEvent {
            angle: match self {
                Turn::Clockwise => -0x1000_0000i32,
                Turn::CounterClockwise => 0x1000_0000i32,
            },
            snap_resolution: Some(0x1000_0000u32),
        }
    }

    /// The rotation that this turn asks for.
    pub fn rotate_event(self) -> (event: RotateEvent)
        ensures
            event == self.rotation(),
    {
        let step: i32 = ROTATION_STEP as i32;
        let angle: i32 = match self {
            Turn::Clockwise => -step,
            Turn::CounterClockwise => step,
        };
        RotateEvent { angle, snap_resolution: Some(ROTATION_STEP) }
    }
}

/// The turn that a key asks for: Q turns clockwise and E the other way
/// when pressed, and nothing else turns.
pub fn keyboard_listener(key: KeyCode, pressed: bool) -> (turn: Option<Turn>)
    ensures
        turn == if pressed && key == KeyCode::Q {
            Some(Turn::Clockwise)
        } else if pressed && key == KeyCode::E {
            Some(Turn::CounterClockwise)
        } else {
            None
        },
{
    if !pressed {
        return None;
    }
    match key {
        KeyCode::E => Some(Turn::CounterClockwise),
        KeyCode::Q => Some(Turn::Clockwise),
        KeyCode::Other => None,
    }
}

} // verus!
