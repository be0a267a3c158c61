use stg_engine::input::{
    react, Event, Key, Keys, Reaction, WindowChange, NORMAL_BOX_SPEED, SLOW_BOX_SPEED,
};
use stg_engine::shape::Color;

#[test]
fn the_two_speeds() {
    assert_eq!(NORMAL_BOX_SPEED, 10);
    assert_eq!(SLOW_BOX_SPEED, 5);
}

#[test]
fn no_key_is_down_in_none() {
    let keys = Keys::none();
    assert!(!keys.up && !keys.down && !keys.left && !keys.right);
    assert!(!keys.left_shift && !keys.right_shift && !keys.z);
}

#[test]
fn speed_is_slow_while_a_shift_key_is_down() {
    assert_eq!(Keys::none().speed(), 10);
    assert_eq!(Keys { left_shift: true, ..Keys::none() }.speed(), 5);
    assert_eq!(Keys { right_shift: true, ..Keys::none() }.speed(), 5);
    assert_eq!(Keys { left_shift: true, right_shift: true, ..Keys::none() }.speed(), 5);
    assert_eq!(Keys { up: true, z: true, ..Keys::none() }.speed(), 10);
}

#[test]
fn color_is_red_while_z_is_down() {
    assert_eq!(Keys::none().color(), Color::Black);
    assert_eq!(Keys { z: true, ..Keys::none() }.color(), Color::Red);
    assert_eq!(Keys { left_shift: true, up: true, ..Keys::none() }.color(), Color::Black);
}

#[test]
fn quit_and_escape_stop_the_loop() {
    assert_eq!(react(Event::Quit), Reaction::Stop);
    assert_eq!(react(Event::KeyDown(Some(Key::Escape))), Reaction::Stop);
}

#[test]
fn a_resized_window_is_refreshed() {
    assert_eq!(react(Event::Window(WindowChange::Resized)), Reaction::Refresh);
}

#[test]
fn other_events_are_ignored() {
    assert_eq!(react(Event::Other), Reaction::Ignore);
    assert_eq!(react(Event::KeyDown(Some(Key::Other))), Reaction::Ignore);
    assert_eq!(react(Event::KeyDown(None)), Reaction::Ignore);
    assert_eq!(react(Event::Window(WindowChange::Other)), Reaction::Ignore);
}
