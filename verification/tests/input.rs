use equilibrium::events::{DragEndEvent, DragMoveEvent, DragStartEvent};
use equilibrium::geometry::Point;
use equilibrium::input::{
    keyboard_listener, mousebutton_listener, touch_listener, DragEvent, KeyCode, TouchPhase, Turn,
};
use equilibrium::source::DragSource;

#[test]
fn mouse_button_becomes_drag_events() {
    let at = Some(Point::new(3, 4));
    assert_eq!(
        mousebutton_listener(true, false, false, None),
        Some(DragEvent::End(DragEndEvent { drag_source: DragSource::Mouse }))
    );
    assert_eq!(
        mousebutton_listener(true, true, true, at),
        Some(DragEvent::End(DragEndEvent { drag_source: DragSource::Mouse }))
    );
    assert_eq!(
        mousebutton_listener(false, true, true, at),
        Some(DragEvent::Start(DragStartEvent {
            drag_source: DragSource::Mouse,
            position: Point::new(3, 4)
        }))
    );
    assert_eq!(
        mousebutton_listener(false, false, true, at),
        Some(DragEvent::Move(DragMoveEvent {
            drag_source: DragSource::Mouse,
            new_position: Point::new(3, 4)
        }))
    );
    assert_eq!(mousebutton_listener(false, true, true, None), None);
    assert_eq!(mousebutton_listener(false, false, true, None), None);
    assert_eq!(mousebutton_listener(false, false, false, at), None);
}

#[test]
fn touches_become_drag_events() {
    let source = DragSource::Touch { id: 5 };
    let at = Point::new(3, 4);
    assert_eq!(
        touch_listener(TouchPhase::Started, 5, at),
        DragEvent::Start(DragStartEvent { drag_source: source, position: at })
    );
    assert_eq!(
        touch_listener(TouchPhase::Moved, 5, at),
        DragEvent::Move(DragMoveEvent { drag_source: source, new_position: at })
    );
    assert_eq!(
        touch_listener(TouchPhase::Ended, 5, at),
        DragEvent::End(DragEndEvent { drag_source: source })
    );
    assert_eq!(
        touch_listener(TouchPhase::Cancelled, 5, at),
        DragEvent::End(DragEndEvent { drag_source: source })
    );
}

#[test]
fn q_and_e_turn() {
    assert_eq!(keyboard_listener(KeyCode::Q, true), Some(Turn::Clockwise));
    assert_eq!(keyboard_listener(KeyCode::E, true), Some(Turn::CounterClockwise));
    assert_eq!(keyboard_listener(KeyCode::Other, true), None);
    assert_eq!(keyboard_listener(KeyCode::Q, false), None);
    assert_eq!(keyboard_listener(KeyCode::E, false), None);
}
