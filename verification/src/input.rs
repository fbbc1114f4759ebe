//! Remote input on the agent: the events the client sends, what each
//! asks the operating system to do, and what its answer means.

use vstd::prelude::*;

verus! {

broadcast use vstd::string::group_string_axioms;

/// An input event to reproduce on the agent's machine.
#[derive(Debug, Clone)]
pub enum InputEvent {
    MouseMove { x: i32, y: i32 },
    MouseButton { button: MouseButton, pressed: bool },
    MouseWheel { delta: i32 },
    Keyboard { key: u16, pressed: bool },
}

/// A mouse button.
#[derive(Debug, Clone, Copy, PartialEq, Eq, Structural)]
pub enum MouseButton {
    Left,
    Right,
    Middle,
}

/// The kind of synthetic mouse input sent for an event.
#[derive(Debug, Clone, Copy, PartialEq, Eq, Structural)]
pub enum MouseFlag {
    LeftDown,
    LeftUp,
    RightDown,
    RightUp,
    MiddleDown,
    MiddleUp,
    Wheel,
}

/// What the operating system is asked to do for an input event.
#[derive(Debug, Clone, Copy, PartialEq, Eq, Structural)]
pub enum InputAction {
    /// Put the cursor at `(x, y)`.
    MoveCursor { x: i32, y: i32 },
    /// Send a mouse input with the given kind and data word.
    Mouse { flag: MouseFlag, data: u32 },
    /// Send a key press or release for a virtual key code.
    Key { virtual_key: u16, key_up: bool },
}

/// Why an input event could not be injected.
#[derive(Debug, Clone, Copy, PartialEq, Eq, Structural)]
pub enum InjectError {
    /// This platform has no input injection.
    Unsupported,
    /// The operating system refused the input carrying out this action.
    Refused(InputAction),
}

/// The display text of an injection error: which system call failed, and
/// for what kind of input.
pub open spec fn inject_error_text(e: InjectError) -> Seq<char> {
    match e {
        InjectError::Unsupported => "Input injection is only supported on Windows"@,
        InjectError::Refused(InputAction::MoveCursor { .. }) => "SetCursorPos failed"@,
        InjectError::Refused(InputAction::Mouse { flag: MouseFlag::Wheel, .. }) => "SendInput failed for mouse wheel"@,
        InjectError::Refused(InputAction::Mouse { .. }) => "SendInput failed for mouse button"@,
        InjectError::Refused(InputAction::Key { .. }) => "SendInput failed for keyboard"@,
    }
}

impl InjectError {
    /// The error's display text.
    pub fn to_string(&self) -> (s: String)
        ensures
            s@ == inject_error_text(*self),
    {
        match self {
            InjectError::Unsupported => "Input injection is only supported on Windows".to_string(),
            InjectError::Refused(InputAction::MoveCursor { .. }) => "SetCursorPos failed".to_string(),
            InjectError::Refused(InputAction::Mouse { flag: MouseFlag::Wheel, .. }) => {
                "SendInput failed for mouse wheel".to_string()
            },
            InjectError::Refused(InputAction::Mouse { .. }) => "SendInput failed for mouse button".to_string(),
            InjectError::Refused(InputAction::Key { .. }) => "SendInput failed for keyboard".to_string(),
        }
    }
}

/// The action for an event: a move places the cursor; a button press or
/// release sends the matching button input; a wheel turn sends a wheel input
/// whose data word is the delta's two's-complement bit pattern; a key sends
/// a key press or release.
pub open spec fn action_for(event: InputEvent) -> InputAction {
    match event {
        InputEvent::MouseMove { x, y } => InputAction::MoveCursor { x, y },
        InputEvent::MouseButton { button, pressed } => InputAction::Mouse {
            flag: match button {
                MouseButton::Left => if pressed {
                    MouseFlag::LeftDown
                } else {
                    MouseFlag::LeftUp
                },
                MouseButton::Right => if pressed {
                    MouseFlag::RightDown
                } else {
                    MouseFlag::RightUp
                },
                MouseButton::Middle => if pressed {
                    MouseFlag::MiddleDown
                } else {
                    MouseFlag::MiddleUp
                },
            },
            data: 0,
        },
        InputEvent::MouseWheel { delta } => InputAction::Mouse { flag: MouseFlag::Wheel, data: delta as u32 },
        InputEvent::Keyboard { key, pressed } => InputAction::Key { virtual_key: key, key_up: !pressed },
    }
}

/// Reproduces remote input on this machine.
pub struct InputInjector;

impl InputInjector {
    pub fn new() -> (i: Self) {
        InputInjector
    }

    /// What the operating system is asked to do for `event`.
    pub fn plan(&self, event: &InputEvent) -> (a: InputAction)
        ensures
            a == action_for(*event),
            *event == (InputEvent::MouseButton { button: MouseButton::Left, pressed: true }) ==> a == (
            InputAction::Mouse { flag: MouseFlag::LeftDown, data: 0 }),
            *event == (InputEvent::MouseButton { button: MouseButton::Left, pressed: false }) ==> a == (
            InputAction::Mouse { flag: MouseFlag::LeftUp, data: 0 }),
            *event == (InputEvent::MouseButton { button: MouseButton::Right, pressed: true }) ==> a == (
            InputAction::Mouse { flag: MouseFlag::RightDown, data: 0 }),
            *event == (InputEvent::MouseButton { button: MouseButton::Right, pressed: false }) ==> a == (
            InputAction::Mouse { flag: MouseFlag::RightUp, data: 0 }),
            *event == (InputEvent::MouseButton { button: MouseButton::Middle, pressed: true }) ==> a == (
            InputAction::Mouse { flag: MouseFlag::MiddleDown, data: 0 }),
            *event == (InputEvent::MouseButton { button: MouseButton::Middle, pressed: false }) ==> a == (
            InputAction::Mouse { flag: MouseFlag::MiddleUp, data: 0 }),
            *event matches InputEvent::MouseMove { x, y } ==> a == (InputAction::MoveCursor { x: x, y: y }),
            *event matches InputEvent::Keyboard { key, pressed } ==> a == (InputAction::Key {
                virtual_key: key,
                key_up: !pressed,
            }),
    {
        match event {
            InputEvent::MouseMove { x, y } => InputAction::MoveCursor { x: *x, y: *y },
            InputEvent::MouseButton { button, pressed } => {
                let flag = match button {
                    MouseButton::Left => if *pressed {
                        MouseFlag::LeftDown
                    } else {
                        MouseFlag::LeftUp
                    },
                    MouseButton::Right => if *pressed {
                        MouseFlag::RightDown
                    } else {
                        MouseFlag::RightUp
                    },
                    MouseButton::Middle => if *pressed {
                        MouseFlag::MiddleDown
                    } else {
                        MouseFlag::MiddleUp
                    },
                };
                InputAction::Mouse { flag, data: 0 }
            },
            InputEvent::MouseWheel { delta } => InputAction::Mouse { flag: MouseFlag::Wheel, data: *delta as u32 },
            InputEvent::Keyboard { key, pressed } => InputAction::Key { virtual_key: *key, key_up: !*pressed },
        }
    }

    /// The outcome of carrying out `action` once the system has answered:
    /// `Ok` when it accepted the input (the cursor was placed, or at least
    /// one input was inserted), otherwise the refusal of that action.
    pub fn injection_result(&self, action: InputAction, accepted: bool) -> (r: Result<(), InjectError>)
        ensures
            r == (if accepted {
                Ok::<(), InjectError>(())
            } else {
                Err(InjectError::Refused(action))
            }),
    {
        if accepted {
            Ok(())
        } else {
            Err(InjectError::Refused(action))
        }
    }
}

/// Law: a button press sends that button's "down" input and a release its
/// "up" input, with a zero data word: left, right and middle each have their
/// own pair, and a press is never sent as a release or the other way round.
pub proof fn law_button_press_and_release(button: MouseButton, pressed: bool)
    ensures
        button == MouseButton::Left && pressed ==> action_for(InputEvent::MouseButton { button, pressed })
            == (InputAction::Mouse { flag: MouseFlag::LeftDown, data: 0 }),
        button == MouseButton::Left && !pressed ==> action_for(InputEvent::MouseButton { button, pressed })
            == (InputAction::Mouse { flag: MouseFlag::LeftUp, data: 0 }),
        button == MouseButton::Right && pressed ==> action_for(InputEvent::MouseButton { button, pressed })
            == (InputAction::Mouse { flag: MouseFlag::RightDown, data: 0 }),
        button == MouseButton::Right && !pressed ==> action_for(InputEvent::MouseButton { button, pressed })
            == (InputAction::Mouse { flag: MouseFlag::RightUp, data: 0 }),
        button == MouseButton::Middle && pressed ==> action_for(InputEvent::MouseButton { button, pressed })
            == (InputAction::Mouse { flag: MouseFlag::MiddleDown, data: 0 }),
        button == MouseButton::Middle && !pressed ==> action_for(InputEvent::MouseButton { button, pressed })
            == (InputAction::Mouse { flag: MouseFlag::MiddleUp, data: 0 }),
{
}

/// Law: a move places the cursor at the event's own coordinates, and a key
/// event sends that virtual key, released exactly when the event is not a
/// press.
pub proof fn law_move_and_key_carry_their_values(x: i32, y: i32, key: u16, pressed: bool)
    ensures
        action_for(InputEvent::MouseMove { x, y }) == (InputAction::MoveCursor { x: x, y: y }),
        action_for(InputEvent::Keyboard { key, pressed }) == (InputAction::Key {
            virtual_key: key,
            key_up: !pressed,
        }),
{
}

} // verus!
