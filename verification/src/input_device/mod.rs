use vstd::prelude::*;

pub mod joypad;

use joypad::{Joypad, JoypadButton};

verus! {

/// The kinds of controller that can be plugged into a port.
#[derive(Debug, Clone, Copy, PartialEq, Eq, Structural)]
pub enum NESDeviceType {
    Joypad,
}

/// A controller as the console sees it through $4016/$4017.
pub trait NESDevice {
    /// A read of the controller's port.
    fn read(&mut self) -> u8;

    /// A write to $4016.
    fn write(&mut self, data: u8);

    fn get_type(&self) -> NESDeviceType;

    /// Presses (`pressed`) or releases the buttons of `button`.
    fn set_button_pressed_status(&mut self, button: JoypadButton, pressed: bool);
}

/// A fresh controller of the given kind.
pub fn new_device(device_type: NESDeviceType) -> (device: Joypad)
    ensures
        device == Joypad::initial(),
{
    match device_type {
        NESDeviceType::Joypad => Joypad::new(),
    }
}

} // verus!
