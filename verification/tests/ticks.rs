use press_edge::adapter;
use press_edge::adapter::{press_all, ActionQueryFailure};
use press_edge::edge::{detect_edge, EdgeMemory};
use press_edge::event::{InputPress, PointerButton, PointerId, PressDirection};

const A: PointerId = PointerId::Custom(0xA);
const B: PointerId = PointerId::Custom(0xB);

fn down(pointer_id: PointerId) -> InputPress {
    InputPress { pointer_id, direction: PressDirection::Down, button: PointerButton::Primary }
}

fn up(pointer_id: PointerId) -> InputPress {
    InputPress { pointer_id, direction: PressDirection::Up, button: PointerButton::Primary }
}

#[test]
fn released_then_released_emits_nothing() {
    let listeners = vec![A, B];
    let mut memory = EdgeMemory::holding(false);
    let events = adapter::trigger(Ok(false), &listeners, &mut memory).unwrap();
    assert_eq!(events, vec![]);
    assert!(!memory.is_pressed());
}

#[test]
fn released_then_pressed_sends_down_to_every_listener() {
    let listeners = vec![A, B];
    let mut memory = EdgeMemory::holding(false);
    let events = adapter::trigger(Ok(true), &listeners, &mut memory).unwrap();
    assert_eq!(events.len(), 2);
    assert!(events.contains(&down(A)));
    assert!(events.contains(&down(B)));
    assert_eq!(events, vec![down(A), down(B)]);
    assert!(memory.is_pressed());
    assert_eq!(memory, EdgeMemory::holding(true));
}

#[test]
fn pressed_then_pressed_emits_nothing() {
    let listeners = vec![A, B];
    let mut memory = EdgeMemory::holding(true);
    let events = adapter::trigger(Ok(true), &listeners, &mut memory).unwrap();
    assert_eq!(events, vec![]);
    assert!(memory.is_pressed());
}

#[test]
fn pressed_then_released_sends_up() {
    let listeners = vec![A];
    let mut memory = EdgeMemory::holding(true);
    let events = adapter::trigger(Ok(false), &listeners, &mut memory).unwrap();
    assert_eq!(events, vec![up(A)]);
    assert!(!memory.is_pressed());
}

#[test]
fn press_hold_release_over_four_ticks() {
    let listeners = vec![A];
    let mut memory = EdgeMemory::new();
    let tick1 = adapter::trigger(Ok(false), &listeners, &mut memory).unwrap();
    assert_eq!(tick1, vec![]);
    assert!(!memory.is_pressed());
    let tick2 = adapter::trigger(Ok(true), &listeners, &mut memory).unwrap();
    assert_eq!(tick2, vec![down(A)]);
    assert!(memory.is_pressed());
    let tick3 = adapter::trigger(Ok(true), &listeners, &mut memory).unwrap();
    assert_eq!(tick3, vec![]);
    assert!(memory.is_pressed());
    let tick4 = adapter::trigger(Ok(false), &listeners, &mut memory).unwrap();
    assert_eq!(tick4, vec![up(A)]);
    assert!(!memory.is_pressed());
}

#[test]
fn failed_query_is_handed_on_and_changes_nothing() {
    let listeners = vec![A, B];
    let mut memory = EdgeMemory::new();
    assert_eq!(adapter::trigger(Ok(true), &listeners, &mut memory), Ok(vec![down(A), down(B)]));
    let failed = adapter::trigger(Err(ActionQueryFailure::StateUnavailable), &listeners, &mut memory);
    assert_eq!(failed, Err(ActionQueryFailure::StateUnavailable));
    assert!(memory.is_pressed());
    // The tick after the failure is compared with the last sample that was seen.
    assert_eq!(adapter::trigger(Ok(true), &listeners, &mut memory), Ok(vec![]));
    assert_eq!(adapter::trigger(Ok(false), &listeners, &mut memory), Ok(vec![up(A), up(B)]));
}

#[test]
fn failed_query_on_released_memory_fabricates_no_edge() {
    let listeners = vec![A];
    let mut memory = EdgeMemory::new();
    let failed = adapter::trigger(Err(ActionQueryFailure::RuntimeUninitialized), &listeners, &mut memory);
    assert_eq!(failed, Err(ActionQueryFailure::RuntimeUninitialized));
    assert_eq!(memory, EdgeMemory::new());
}

#[test]
fn every_failure_comes_back_as_it_was_given() {
    let failures = [
        ActionQueryFailure::ActionNotFound,
        ActionQueryFailure::RuntimeUninitialized,
        ActionQueryFailure::StateUnavailable,
    ];
    for failure in failures {
        for pressed in [false, true] {
            let mut memory = EdgeMemory::holding(pressed);
            assert_eq!(adapter::trigger(Err(failure), &vec![A, B], &mut memory), Err(failure));
            assert_eq!(memory.is_pressed(), pressed);
        }
    }
}

#[test]
fn detect_edge_on_all_four_pairs() {
    assert_eq!(detect_edge(false, false), None);
    assert_eq!(detect_edge(false, true), Some(PressDirection::Down));
    assert_eq!(detect_edge(true, false), Some(PressDirection::Up));
    assert_eq!(detect_edge(true, true), None);
}

#[test]
fn observe_reports_the_edge_and_remembers_the_sample() {
    let mut memory = EdgeMemory::new();
    assert_eq!(memory.observe(false), None);
    assert_eq!(memory.observe(true), Some(PressDirection::Down));
    assert!(memory.is_pressed());
    assert_eq!(memory.observe(true), None);
    assert_eq!(memory.observe(false), Some(PressDirection::Up));
    assert!(!memory.is_pressed());
}

#[test]
fn fresh_memory_is_released() {
    assert!(!EdgeMemory::new().is_pressed());
    assert!(!EdgeMemory::default().is_pressed());
    assert_eq!(EdgeMemory::new(), EdgeMemory::holding(false));
    assert_ne!(EdgeMemory::new(), EdgeMemory::holding(true));
}

#[test]
fn memory_is_updated_without_listeners() {
    let nobody: Vec<PointerId> = Vec::new();
    let mut memory = EdgeMemory::new();
    assert_eq!(memory.tick(true, &nobody), vec![]);
    assert!(memory.is_pressed());
    assert_eq!(memory.tick(false, &nobody), vec![]);
    assert!(!memory.is_pressed());
    // The edge was consumed by the tick without listeners.
    assert_eq!(memory.tick(false, &vec![A]), vec![]);
}

#[test]
fn press_all_keeps_the_order_of_the_listeners() {
    let listeners = vec![B, PointerId::Mouse, PointerId::Touch(7), A];
    assert_eq!(
        press_all(&listeners, PressDirection::Up),
        vec![up(B), up(PointerId::Mouse), up(PointerId::Touch(7)), up(A)]
    );
    assert_eq!(press_all(&Vec::new(), PressDirection::Down), vec![]);
}

#[test]
fn a_listener_named_twice_is_pressed_twice() {
    let mut memory = EdgeMemory::new();
    assert_eq!(memory.tick(true, &vec![A, A]), vec![down(A), down(A)]);
}

#[test]
fn events_use_the_primary_button() {
    let event = InputPress::new_primary(PointerId::Touch(3), PressDirection::Down);
    assert_eq!(event.pointer_id, PointerId::Touch(3));
    assert_eq!(event.direction, PressDirection::Down);
    assert_eq!(event.button, PointerButton::Primary);
    let release = InputPress::new_primary(PointerId::Mouse, PressDirection::Up);
    assert_eq!(release, up(PointerId::Mouse));
}

#[test]
fn listeners_may_change_between_ticks() {
    let mut memory = EdgeMemory::new();
    assert_eq!(memory.tick(true, &vec![A]), vec![down(A)]);
    assert_eq!(memory.tick(false, &vec![B]), vec![up(B)]);
}
