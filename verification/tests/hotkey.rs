use spotlight_web::hotkey::{HotkeyListener, KeyState, ShortcutBinding};
use spotlight_web::visibility::{Visibility, WindowAction, WindowProbe};

fn launcher() -> ShortcutBinding {
    ShortcutBinding { modifiers: 1, key: 62 }
}

fn armed() -> HotkeyListener {
    let mut listener = HotkeyListener::new(launcher());
    let started = listener.registered(Ok(()), WindowProbe::Reported(Visibility::Hidden));
    assert!(started.is_ok());
    listener
}

#[test]
fn a_new_listener_is_not_armed() {
    let listener = HotkeyListener::new(launcher());
    assert_eq!(listener.binding, launcher());
    assert!(!listener.armed);
    assert!(!listener.held);
}

#[test]
fn registration_arms_and_reveals_the_window() {
    let mut listener = HotkeyListener::new(launcher());
    let plan = listener
        .registered(Ok(()), WindowProbe::Reported(Visibility::Hidden))
        .expect("registration succeeded");
    assert_eq!(plan, vec![WindowAction::Show, WindowAction::SetFocus]);
    assert!(listener.armed);
    assert!(!listener.held);
    assert_eq!(listener.binding, launcher());
}

#[test]
fn registration_without_a_window_asks_nothing_of_it() {
    let mut listener = HotkeyListener::new(launcher());
    let plan = listener.registered(Ok(()), WindowProbe::Absent).expect("registration succeeded");
    assert_eq!(plan, vec![]);
    assert!(listener.armed);
}

#[test]
fn failed_registration_ends_startup() {
    let mut listener = HotkeyListener::new(launcher());
    let before = listener;
    let error = listener
        .registered(Err(String::from("already taken")), WindowProbe::Reported(Visibility::Hidden))
        .expect_err("registration failed");
    assert_eq!(error.reason, "already taken");
    assert_eq!(listener, before);
    assert!(!listener.on_event(launcher(), KeyState::Pressed));
}

#[test]
fn a_press_asks_for_a_toggle() {
    let mut listener = armed();
    assert!(listener.on_event(launcher(), KeyState::Pressed));
    assert!(listener.held);
}

#[test]
fn a_release_asks_for_nothing() {
    let mut listener = armed();
    assert!(!listener.on_event(launcher(), KeyState::Released));
    assert!(listener.on_event(launcher(), KeyState::Pressed));
    assert!(!listener.on_event(launcher(), KeyState::Released));
    assert!(!listener.held);
}

#[test]
fn a_repeated_press_asks_for_nothing() {
    let mut listener = armed();
    assert!(listener.on_event(launcher(), KeyState::Pressed));
    assert!(!listener.on_event(launcher(), KeyState::Pressed));
    assert!(!listener.on_event(launcher(), KeyState::Pressed));
    assert!(!listener.on_event(launcher(), KeyState::Released));
    assert!(listener.on_event(launcher(), KeyState::Pressed));
}

#[test]
fn another_combination_is_ignored() {
    let mut listener = armed();
    let before = listener;
    assert!(!listener.on_event(ShortcutBinding { modifiers: 2, key: 62 }, KeyState::Pressed));
    assert!(!listener.on_event(ShortcutBinding { modifiers: 1, key: 63 }, KeyState::Pressed));
    assert_eq!(listener, before);
    assert!(listener.on_event(launcher(), KeyState::Pressed));
}

#[test]
fn events_before_registration_are_ignored() {
    let mut listener = HotkeyListener::new(launcher());
    assert!(!listener.on_event(launcher(), KeyState::Pressed));
    assert!(!listener.held);
}
