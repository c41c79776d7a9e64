//! The dispatcher: state, the engine call each operation issues, and
//! input rejection.

use enigo::{EngineCall, Enigo, InputError, Key, MouseButton, Search};

#[test]
fn fresh_state_has_sentinel_target_and_default_delay() {
    let e = Enigo::default();
    assert_eq!(e.delay(), 12000);
    assert_eq!(e.window(), 0);
}

#[test]
fn setters_persist_until_changed() {
    let mut e = Enigo::default();
    e.set_window(42);
    assert_eq!(e.window(), 42);
    assert_eq!(e.delay(), 12000);
    assert_eq!(
        e.mouse_down(MouseButton::Left),
        EngineCall::MouseDown { window: 42, button: 1 }
    );
    assert_eq!(
        e.mouse_click(MouseButton::Right),
        EngineCall::ClickWindow { window: 42, button: 3 }
    );
    assert_eq!(e.window_focus(), EngineCall::FocusWindow { window: 42 });
    assert_eq!(e.window_pid(), EngineCall::WindowPid { window: 42 });

    e.set_delay(5000);
    assert_eq!(e.delay(), 5000);
    assert_eq!(e.window(), 42);
    match e.key_click(Key::Tab).unwrap() {
        EngineCall::KeySequenceClick { window, token, delay } => {
            assert_eq!(window, 42);
            assert_eq!(token, "Tab");
            assert_eq!(delay, 5000);
        }
        other => panic!("unexpected call {:?}", other),
    }

    e.set_window(7);
    assert_eq!(
        e.mouse_up(MouseButton::Middle),
        EngineCall::MouseUp { window: 7, button: 2 }
    );
}

#[test]
fn mouse_moves_carry_coordinates() {
    let e = Enigo::default();
    assert_eq!(
        e.mouse_move_to(10, -20),
        EngineCall::MouseMove { x: 10, y: -20, screen: 0 }
    );
    assert_eq!(
        e.mouse_move_relative(-5, 6),
        EngineCall::MouseMoveRelative { x: -5, y: 6 }
    );
}

#[test]
fn horizontal_scroll_sign_selects_button_and_magnitude_counts() {
    let e = Enigo::default();
    let left = e.mouse_scroll_x(-3);
    assert_eq!(left.len(), 3);
    for call in &left {
        assert_eq!(*call, EngineCall::ClickWindow { window: 0, button: 6 });
    }
    let right = e.mouse_scroll_x(3);
    assert_eq!(right.len(), 3);
    for call in &right {
        assert_eq!(*call, EngineCall::ClickWindow { window: 0, button: 7 });
    }
    assert!(e.mouse_scroll_x(0).is_empty());
}

#[test]
fn vertical_scroll_sign_selects_button_and_magnitude_counts() {
    let e = Enigo::default();
    let up = e.mouse_scroll_y(-2);
    assert_eq!(up.len(), 2);
    for call in &up {
        assert_eq!(*call, EngineCall::ClickWindow { window: 0, button: 4 });
    }
    let down = e.mouse_scroll_y(2);
    assert_eq!(down.len(), 2);
    for call in &down {
        assert_eq!(*call, EngineCall::ClickWindow { window: 0, button: 5 });
    }
    assert!(e.mouse_scroll_y(0).is_empty());
}

#[test]
fn scroll_uses_current_target_window() {
    let mut e = Enigo::default();
    e.set_window(9);
    let calls = e.mouse_scroll_x(1);
    assert_eq!(calls, vec![EngineCall::ClickWindow { window: 9, button: 7 }]);
}

#[test]
fn text_with_embedded_null_is_rejected() {
    let e = Enigo::default();
    assert_eq!(e.key_sequence("a\0b"), Err(InputError::EmbeddedNull));
    assert_eq!(e.key_sequence("\0"), Err(InputError::EmbeddedNull));
}

#[test]
fn plain_text_is_forwarded_with_current_delay() {
    let mut e = Enigo::default();
    e.set_window(3);
    e.set_delay(777);
    match e.key_sequence("hello world").unwrap() {
        EngineCall::EnterText { window, text, delay } => {
            assert_eq!(window, 3);
            assert_eq!(text, "hello world");
            assert_eq!(delay, 777);
        }
        other => panic!("unexpected call {:?}", other),
    }
    assert!(e.key_sequence("").is_ok());
}

#[test]
fn key_tokens_never_trip_the_null_check() {
    let e = Enigo::default();
    assert!(e.key_down(Key::Shift).is_ok());
    assert!(e.key_up(Key::Shift).is_ok());
    assert!(e.key_click(Key::Layout('\0')).is_ok());
    match e.key_click(Key::Layout('\0')).unwrap() {
        EngineCall::KeySequenceClick { token, .. } => assert_eq!(token, "U0"),
        other => panic!("unexpected call {:?}", other),
    }
    match e.key_down(Key::Raw(65)).unwrap() {
        EngineCall::KeySequenceDown { token, .. } => assert_eq!(token, "65"),
        other => panic!("unexpected call {:?}", other),
    }
    match e.key_up(Key::Meta).unwrap() {
        EngineCall::KeySequenceUp { token, .. } => assert_eq!(token, "Super"),
        other => panic!("unexpected call {:?}", other),
    }
}

#[test]
fn pid_search_sets_only_the_pid_criteria() {
    let e = Enigo::default();
    let expected = Search {
        pid: 1234,
        max_depth: 100,
        searchmask: 1 << 3,
        ..Search::default()
    };
    assert_eq!(
        e.search_window_by_pid(1234),
        EngineCall::SearchWindows { search: expected }
    );

    let d = Search::default();
    assert_eq!(d.title, None);
    assert_eq!(d.winclass, None);
    assert_eq!(d.winclassname, None);
    assert_eq!(d.winname, None);
    assert_eq!(d.winrole, None);
    assert_eq!(d.pid, 0);
    assert_eq!(d.max_depth, 0);
    assert_eq!(d.only_visible, 0);
    assert_eq!(d.screen, 0);
    assert_eq!(d.require, 0);
    assert_eq!(d.searchmask, 0);
    assert_eq!(d.desktop, 0);
    assert_eq!(d.limit, 0);
}

#[test]
fn search_mask_pid_bit_is_bit_three() {
    let e = Enigo::default();
    match e.search_window_by_pid(55) {
        EngineCall::SearchWindows { search } => {
            assert_eq!(search.pid, 55);
            assert_eq!(search.searchmask, 8);
            assert_eq!(search.max_depth, 100);
        }
        other => panic!("unexpected call {:?}", other),
    }
}
