use reaping::input::{contains_input, Input, InputTranslator, Keycode, MouseButton, RawEvent};
use reaping::math::Vector2;

#[test]
fn two_keys_map_to_each_direction() {
    let t = InputTranslator::new();
    assert_eq!(t.translate(&RawEvent::KeyDown(Keycode::W)), Some(Input::Up));
    assert_eq!(t.translate(&RawEvent::KeyDown(Keycode::Up)), Some(Input::Up));
    assert_eq!(t.translate(&RawEvent::KeyDown(Keycode::S)), Some(Input::Down));
    assert_eq!(t.translate(&RawEvent::KeyDown(Keycode::Down)), Some(Input::Down));
    assert_eq!(t.translate(&RawEvent::KeyDown(Keycode::A)), Some(Input::Left));
    assert_eq!(t.translate(&RawEvent::KeyDown(Keycode::Left)), Some(Input::Left));
    assert_eq!(t.translate(&RawEvent::KeyDown(Keycode::D)), Some(Input::Right));
    assert_eq!(t.translate(&RawEvent::KeyDown(Keycode::Right)), Some(Input::Right));
}

#[test]
fn confirm_comes_from_return_or_left_click() {
    let t = InputTranslator::new();
    assert_eq!(t.translate(&RawEvent::KeyDown(Keycode::Return)), Some(Input::Enter));
    assert_eq!(
        t.translate(&RawEvent::MouseButtonDown(MouseButton::Left)),
        Some(Input::Enter)
    );
}

#[test]
fn escape_pauses_and_quit_exits() {
    let t = InputTranslator::new();
    assert_eq!(t.translate(&RawEvent::KeyDown(Keycode::Escape)), Some(Input::Pause));
    assert_eq!(t.translate(&RawEvent::Quit), Some(Input::Exit));
}

#[test]
fn pointer_motion_keeps_its_position() {
    let t = InputTranslator::new();
    let position = Vector2::new(12, 34);
    assert_eq!(
        t.translate(&RawEvent::MouseMotion(position)),
        Some(Input::MouseMotion(position))
    );
}

#[test]
fn unrecognized_events_are_dropped() {
    let t = InputTranslator::new();
    assert_eq!(t.translate(&RawEvent::KeyDown(Keycode::Other)), None);
    assert_eq!(t.translate(&RawEvent::MouseButtonDown(MouseButton::Other)), None);
    assert_eq!(t.translate(&RawEvent::Unknown), None);
}

#[test]
fn contains_input_finds_the_needle() {
    let buffer = vec![Input::Up, Input::Pause, Input::Down];
    assert!(contains_input(&buffer, Input::Pause));
    assert!(!contains_input(&buffer, Input::Enter));
    assert!(!contains_input(&Vec::new(), Input::Pause));
}
