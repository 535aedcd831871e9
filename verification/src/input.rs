//! Game controller and mouse input as the player takes it: which button of the device
//! is which button of the player, and how the left stick stands in for the
//! directional pad.

use vstd::prelude::*;

verus! {

/// Which ways the left stick is pushed past its dead zone.
#[derive(Clone, Copy, Debug, PartialEq, Eq, Structural)]
pub struct AxisState {
    pub up: bool,
    pub down: bool,
    pub left: bool,
    pub right: bool,
}

impl Default for AxisState {
    /// The stick at rest.
    fn default() -> (state: AxisState)
        ensures
            state == (AxisState { up: false, down: false, left: false, right: false }),
    {
        AxisState { up: false, down: false, left: false, right: false }
    }
}

/// The buttons of a game controller device.
#[derive(Clone, Copy, Debug, PartialEq, Eq, Structural)]
pub enum ControllerButton {
    A,
    B,
    X,
    Y,
    Back,
    Guide,
    Start,
    LeftStick,
    RightStick,
    LeftShoulder,
    RightShoulder,
    DPadUp,
    DPadDown,
    DPadLeft,
    DPadRight,
    Misc1,
    Paddle1,
    Paddle2,
    Paddle3,
    Paddle4,
    Touchpad,
}

/// The axes of a game controller device.
#[derive(Clone, Copy, Debug, PartialEq, Eq, Structural)]
pub enum ControllerAxis {
    LeftX,
    LeftY,
    RightX,
    RightY,
    TriggerLeft,
    TriggerRight,
}

/// The buttons of a mouse device.
#[derive(Clone, Copy, Debug, PartialEq, Eq, Structural)]
pub enum DeviceMouseButton {
    Unknown,
    Left,
    Middle,
    Right,
    X1,
    X2,
}

/// The gamepad buttons the player knows.
#[derive(Clone, Copy, Debug, PartialEq, Eq, Structural)]
pub enum GamepadButton {
    South,
    East,
    North,
    West,
    Start,
    Select,
    DPadUp,
    DPadDown,
    DPadLeft,
    DPadRight,
    LeftTrigger,
    RightTrigger,
}

/// The mouse buttons the player knows.
#[derive(Clone, Copy, Debug, PartialEq, Eq, Structural)]
pub enum MouseButton {
    Left,
    Middle,
    Right,
}

/// A gamepad button going down or coming up.
#[derive(Clone, Copy, Debug, PartialEq, Eq, Structural)]
pub enum GamepadEvent {
    ButtonDown(GamepadButton),
    ButtonUp(GamepadButton),
}

/// How far from its center a stick must be to count as pushed.
pub const DEADZONE: i16 = 8000;

/// The player's button for a button of the device, if the player has one for it. The
/// face buttons go by where they sit, the shoulder buttons are the triggers, and back
/// is select.
pub open spec fn gamepad_button_of(button: ControllerButton) -> Option<GamepadButton> {
    match button {
        ControllerButton::DPadUp => Some(GamepadButton::DPadUp),
        ControllerButton::DPadDown => Some(GamepadButton::DPadDown),
        ControllerButton::DPadLeft => Some(GamepadButton::DPadLeft),
        ControllerButton::DPadRight => Some(GamepadButton::DPadRight),
        ControllerButton::A => Some(GamepadButton::South),
        ControllerButton::B => Some(GamepadButton::East),
        ControllerButton::X => Some(GamepadButton::West),
        ControllerButton::Y => Some(GamepadButton::North),
        ControllerButton::Start => Some(GamepadButton::Start),
        ControllerButton::Back => Some(GamepadButton::Select),
        ControllerButton::RightShoulder => Some(GamepadButton::RightTrigger),
        ControllerButton::LeftShoulder => Some(GamepadButton::LeftTrigger),
        _ => None,
    }
}

/// The player's button for a button of the device, if the player has one for it.
pub fn sdl_gamepadbutton_to_ruffle(button: ControllerButton) -> (mapped: Option<GamepadButton>)
    ensures
        mapped == gamepad_button_of(button),
{
    match button {
        ControllerButton::DPadUp => Some(GamepadButton::DPadUp),
        ControllerButton::DPadDown => Some(GamepadButton::DPadDown),
        ControllerButton::DPadLeft => Some(GamepadButton::DPadLeft),
        ControllerButton::DPadRight => Some(GamepadButton::DPadRight),
        ControllerButton::A => Some(GamepadButton::South),
        ControllerButton::B => Some(GamepadButton::East),
        ControllerButton::X => Some(GamepadButton::West),
        ControllerButton::Y => Some(GamepadButton::North),
        ControllerButton::Start => Some(GamepadButton::Start),
        ControllerButton::Back => Some(GamepadButton::Select),
        ControllerButton::RightShoulder => Some(GamepadButton::RightTrigger),
        ControllerButton::LeftShoulder => Some(GamepadButton::LeftTrigger),
        _ => None,
    }
}

/// The player's button for a button of the mouse: left, right and middle are passed
/// on, the others are not.
pub fn sdl_mousebutton_to_ruffle(button: DeviceMouseButton) -> (mapped: Option<MouseButton>)
    ensures
        mapped == (match button {
            DeviceMouseButton::Left => Some(MouseButton::Left),
            DeviceMouseButton::Right => Some(MouseButton::Right),
            DeviceMouseButton::Middle => Some(MouseButton::Middle),
            _ => None::<MouseButton>,
        }),
{
    match button {
        DeviceMouseButton::Left => Some(MouseButton::Left),
        DeviceMouseButton::Right => Some(MouseButton::Right),
        DeviceMouseButton::Middle => Some(MouseButton::Middle),
        _ => None,
    }
}

/// The state of the stick after `axis` moved to `value`. The horizontal axis of the
/// left stick decides left and right, its vertical axis up and down; every other axis
/// leaves the state as it is.
pub open spec fn axis_moved(state: AxisState, axis: ControllerAxis, value: i16) -> AxisState {
    AxisState {
        up: if axis == ControllerAxis::LeftY {
            value < -DEADZONE
        } else {
            state.up
        },
        down: if axis == ControllerAxis::LeftY {
            value > DEADZONE
        } else {
            state.down
        },
        left: if axis == ControllerAxis::LeftX {
            value < -DEADZONE
        } else {
            state.left
        },
        right: if axis == ControllerAxis::LeftX {
            value > DEADZONE
        } else {
            state.right
        },
    }
}

/// The event for a direction that changed: the button of the directional pad goes down
/// when the stick is pushed that way and comes up when it is not. A direction that did
/// not change is no event.
pub open spec fn direction_event(was: bool, is: bool, button: GamepadButton) -> Seq<GamepadEvent> {
    if was == is {
        seq![]
    } else if is {
        seq![GamepadEvent::ButtonDown(button)]
    } else {
        seq![GamepadEvent::ButtonUp(button)]
    }
}

/// The events of a stick movement from `before` to `after`: up, down, left, right.
pub open spec fn axis_events(before: AxisState, after: AxisState) -> Seq<GamepadEvent> {
    direction_event(before.up, after.up, GamepadButton::DPadUp) + direction_event(
        before.down,
        after.down,
        GamepadButton::DPadDown,
    ) + direction_event(before.left, after.left, GamepadButton::DPadLeft) + direction_event(
        before.right,
        after.right,
        GamepadButton::DPadRight,
    )
}

impl AxisState {
    /// Takes the movement of `axis` to `value` and hands back the button events it
    /// stands for.
    pub fn axis_motion(&mut self, axis: ControllerAxis, value: i16) -> (events: Vec<GamepadEvent>)
        ensures
            *final(self) == axis_moved(*old(self), axis, value),
            events@ == axis_events(*old(self), *final(self)),
    {
        let x_axis = axis == ControllerAxis::LeftX;
        let y_axis = axis == ControllerAxis::LeftY;
        let left = if x_axis {
            value < -DEADZONE
        } else {
            self.left
        };
        let right = if x_axis {
            value > DEADZONE
        } else {
            self.right
        };
        let up = if y_axis {
            value < -DEADZONE
        } else {
            self.up
        };
        let down = if y_axis {
            value > DEADZONE
        } else {
            self.down
        };
        let mut events = Vec::new();
        if up != self.up {
            if up {
                events.push(GamepadEvent::ButtonDown(GamepadButton::DPadUp));
            } else {
                events.push(GamepadEvent::ButtonUp(GamepadButton::DPadUp));
            }
            self.up = up;
        }
        if down != self.down {
            if down {
                events.push(GamepadEvent::ButtonDown(GamepadButton::DPadDown));
            } else {
                events.push(GamepadEvent::ButtonUp(GamepadButton::DPadDown));
            }
            self.down = down;
        }
        if left != self.left {
            if left {
                events.push(GamepadEvent::ButtonDown(GamepadButton::DPadLeft));
            } else {
                events.push(GamepadEvent::ButtonUp(GamepadButton::DPadLeft));
            }
            self.left = left;
        }
        if right != self.right {
            if right {
                events.push(GamepadEvent::ButtonDown(GamepadButton::DPadRight));
            } else {
                events.push(GamepadEvent::ButtonUp(GamepadButton::DPadRight));
            }
            self.right = right;
        }
        assert(events@ =~= axis_events(*old(self), *self));
        events
    }
}

} // verus!
