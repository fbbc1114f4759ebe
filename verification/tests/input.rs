use rdp_remote::input::{InjectError, InputAction, InputEvent, InputInjector, MouseButton, MouseFlag};

#[test]
fn test_input_event_creation() {
    let move_event = InputEvent::MouseMove { x: 100, y: 200 };
    assert!(matches!(move_event, InputEvent::MouseMove { x, y } if x == 100 && y == 200));

    let click_event = InputEvent::MouseButton { button: MouseButton::Left, pressed: true };
    assert!(matches!(click_event, InputEvent::MouseButton { button: MouseButton::Left, pressed: true }));

    let wheel_event = InputEvent::MouseWheel { delta: 120 };
    assert!(matches!(wheel_event, InputEvent::MouseWheel { delta: 120 }));

    let key_event = InputEvent::Keyboard { key: 0x41, pressed: true };
    assert!(matches!(key_event, InputEvent::Keyboard { key: 0x41, pressed: true }));
}

#[test]
fn plans_for_each_event() {
    let injector = InputInjector::new();
    assert_eq!(
        injector.plan(&InputEvent::MouseMove { x: -5, y: 7 }),
        InputAction::MoveCursor { x: -5, y: 7 }
    );
    assert_eq!(
        injector.plan(&InputEvent::MouseButton { button: MouseButton::Right, pressed: false }),
        InputAction::Mouse { flag: MouseFlag::RightUp, data: 0 }
    );
    assert_eq!(
        injector.plan(&InputEvent::MouseWheel { delta: -120 }),
        InputAction::Mouse { flag: MouseFlag::Wheel, data: (-120i32) as u32 }
    );
    assert_eq!(
        injector.plan(&InputEvent::Keyboard { key: 0x41, pressed: false }),
        InputAction::Key { virtual_key: 0x41, key_up: true }
    );
}

#[test]
fn injection_outcomes_and_texts() {
    let injector = InputInjector::new();
    let release = injector.plan(&InputEvent::MouseButton { button: MouseButton::Right, pressed: false });
    assert_eq!(injector.injection_result(release, true), Ok(()));
    let refused = injector.injection_result(release, false);
    assert_eq!(refused, Err(InjectError::Refused(release)));
    assert_eq!(refused.unwrap_err().to_string(), "SendInput failed for mouse button");
    let wheel = injector.plan(&InputEvent::MouseWheel { delta: 1 });
    assert_eq!(injector.injection_result(wheel, false).unwrap_err().to_string(), "SendInput failed for mouse wheel");
    let moved = injector.plan(&InputEvent::MouseMove { x: 1, y: 2 });
    assert_eq!(injector.injection_result(moved, false).unwrap_err().to_string(), "SetCursorPos failed");
    let key = injector.plan(&InputEvent::Keyboard { key: 0x41, pressed: true });
    assert_eq!(injector.injection_result(key, false).unwrap_err().to_string(), "SendInput failed for keyboard");
    assert_eq!(InjectError::Unsupported.to_string(), "Input injection is only supported on Windows");
}
