use glfw_triangle::event::{handle_events, Action, WindowEvent, WindowState, KEY_Q};
use glfw_triangle::glfw_handle_event;

const KEY_A: i32 = 65;
const KEY_ESCAPE: i32 = 256;

fn key(key: i32, action: Action) -> WindowEvent {
    WindowEvent::Key { key, action }
}

#[test]
fn new_window_is_open() {
    assert!(!WindowState::new().should_close());
}

#[test]
fn quit_key_is_the_letter_q() {
    assert_eq!(KEY_Q, 81);
    assert_eq!(KEY_Q, 'Q' as i32);
}

#[test]
fn close_flag_can_be_set_and_cleared() {
    let mut window = WindowState::new();
    window.set_should_close(true);
    assert!(window.should_close());
    window.set_should_close(false);
    assert!(!window.should_close());
}

#[test]
fn close_event_sets_the_flag() {
    let mut window = WindowState::new();
    glfw_handle_event(&mut window, WindowEvent::Close);
    assert!(window.should_close());
}

#[test]
fn quit_key_press_sets_the_flag() {
    let mut window = WindowState::new();
    glfw_handle_event(&mut window, key(KEY_Q, Action::Press));
    assert!(window.should_close());
}

#[test]
fn other_key_press_leaves_the_flag_clear() {
    for code in [KEY_A, KEY_ESCAPE, 80, 82, 0, -1, i32::MIN, i32::MAX] {
        let mut window = WindowState::new();
        glfw_handle_event(&mut window, key(code, Action::Press));
        assert!(!window.should_close(), "key {code}");
    }
}

#[test]
fn quit_key_release_and_repeat_are_ignored() {
    let mut window = WindowState::new();
    glfw_handle_event(&mut window, key(KEY_Q, Action::Release));
    assert!(!window.should_close());
    glfw_handle_event(&mut window, key(KEY_Q, Action::Repeat));
    assert!(!window.should_close());
}

#[test]
fn other_events_are_ignored() {
    let mut window = WindowState::new();
    glfw_handle_event(&mut window, WindowEvent::Other);
    assert!(!window.should_close());
}

#[test]
fn no_event_clears_a_set_flag() {
    for event in [
        WindowEvent::Other,
        WindowEvent::Close,
        key(KEY_A, Action::Press),
        key(KEY_Q, Action::Release),
        key(KEY_Q, Action::Press),
    ] {
        let mut window = WindowState::new();
        window.set_should_close(true);
        glfw_handle_event(&mut window, event);
        assert!(window.should_close());
    }
}

#[test]
fn handler_leaves_nothing_else_changed() {
    let mut window = WindowState::new();
    glfw_handle_event(&mut window, key(KEY_A, Action::Press));
    assert_eq!(window, WindowState::new());
}

#[test]
fn empty_batch_changes_nothing() {
    let mut window = WindowState::new();
    handle_events(&mut window, &vec![]);
    assert!(!window.should_close());
    window.set_should_close(true);
    handle_events(&mut window, &vec![]);
    assert!(window.should_close());
}

#[test]
fn quiet_batch_leaves_the_flag_clear() {
    let mut window = WindowState::new();
    let batch = vec![
        key(KEY_A, Action::Press),
        WindowEvent::Other,
        key(KEY_Q, Action::Release),
        key(KEY_A, Action::Release),
    ];
    handle_events(&mut window, &batch);
    assert!(!window.should_close());
}

#[test]
fn batch_with_a_close_request_sets_the_flag_wherever_it_stands() {
    for place in 0..4 {
        let mut batch = vec![WindowEvent::Other, key(KEY_A, Action::Press), WindowEvent::Other];
        batch.insert(place, WindowEvent::Close);
        let mut window = WindowState::new();
        handle_events(&mut window, &batch);
        assert!(window.should_close(), "place {place}");
    }
}

#[test]
fn batch_with_a_quit_key_press_sets_the_flag() {
    let mut window = WindowState::new();
    let batch = vec![key(KEY_A, Action::Press), key(KEY_Q, Action::Press), WindowEvent::Other];
    handle_events(&mut window, &batch);
    assert!(window.should_close());
}
