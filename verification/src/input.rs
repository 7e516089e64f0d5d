//! Input device management.
//!
//! An input device pairs a kind (pointer, keypad, encoder, button) with a
//! read callback the runtime polls. Each poll must synchronously fill in the
//! current sample; there is no queue, so only the latest sample at poll time
//! is visible. [`TouchPoint`] is the sample a touch driver produces and
//! [`InputData`] is the record a read callback fills in.

use vstd::prelude::*;
use crate::LvglError;

verus! {

/// The kind of an input device.
#[derive(Debug, Clone, Copy, PartialEq, Eq, Structural)]
pub enum InputType {
    /// Touchpad or mouse.
    Pointer,
    /// Keypad or keyboard.
    Keypad,
    /// Encoder with rotation and button.
    Encoder,
    /// Physical button mapped to coordinates.
    Button,
}

/// Pressed/released state of a pointer sample.
#[derive(Debug, Clone, Copy, PartialEq, Eq, Structural)]
pub enum InputState {
    Released,
    Pressed,
}

/// The record a read callback fills in for the runtime: coordinates and the
/// pressed/released state.
#[derive(Debug, Clone, Copy, PartialEq, Eq, Structural)]
pub struct InputData {
    pub x: i32,
    pub y: i32,
    pub state: InputState,
}

/// An input device: its kind and whether a read callback is registered.
#[derive(Debug, Clone, Copy, PartialEq, Eq, Structural)]
pub struct InputDevice {
    kind: Option<InputType>,
    read_cb_set: bool,
}

impl InputDevice {
    pub closed spec fn spec_kind(&self) -> Option<InputType> {
        self.kind
    }

    pub closed spec fn spec_read_cb_set(&self) -> bool {
        self.read_cb_set
    }

    /// Create an input device with no kind and no callback yet.
    pub fn create() -> (r: Result<InputDevice, LvglError>)
        ensures
            r matches Ok(d) && d.spec_kind() is None && !d.spec_read_cb_set(),
    {
        Ok(InputDevice { kind: None, read_cb_set: false })
    }

    /// Set the device kind.
    pub fn set_type(&mut self, indev_type: InputType)
        ensures
            final(self).spec_kind() == Some(indev_type),
            final(self).spec_read_cb_set() == old(self).spec_read_cb_set(),
    {
        self.kind = Some(indev_type);
    }

    /// Record that a read callback has been registered.
    pub fn set_read_cb(&mut self)
        ensures
            final(self).spec_read_cb_set(),
            final(self).spec_kind() == old(self).spec_kind(),
    {
        self.read_cb_set = true;
    }
}

/// One touch sample as a driver reports it.
#[derive(Debug, Clone, Copy, PartialEq, Eq, Structural)]
pub struct TouchPoint {
    pub x: i32,
    pub y: i32,
    pub pressed: bool,
}

impl TouchPoint {
    pub fn new(x: i32, y: i32, pressed: bool) -> (r: TouchPoint)
        ensures
            r == (TouchPoint { x, y, pressed }),
    {
        TouchPoint { x, y, pressed }
    }

    /// Write this sample into the record a read callback hands to the
    /// runtime: the coordinates verbatim, and the pressed flag as the
    /// discrete input state.
    pub fn write_to(&self, data: &mut InputData)
        ensures
            *final(data) == (InputData {
                x: self.x,
                y: self.y,
                state: if self.pressed {
                    InputState::Pressed
                } else {
                    InputState::Released
                },
            }),
    {
        data.x = self.x;
        data.y = self.y;
        data.state = if self.pressed {
            InputState::Pressed
        } else {
            InputState::Released
        };
    }
}

} // verus!
