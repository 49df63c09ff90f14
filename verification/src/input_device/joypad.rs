use vstd::prelude::*;

use super::{NESDevice, NESDeviceType};
use crate::tools::set_bits;

verus! {

/// The buttons of a standard controller, one bit each, in the order they are reported
/// (A first).
#[derive(Debug, Clone, Copy, PartialEq, Eq, Structural)]
pub struct JoypadButton(pub u8);

impl JoypadButton {
    pub const RIGHT: u8 = 0b1000_0000;
    pub const LEFT: u8 = 0b0100_0000;
    pub const DOWN: u8 = 0b0010_0000;
    pub const UP: u8 = 0b0001_0000;
    pub const START: u8 = 0b0000_1000;
    pub const SELECT: u8 = 0b0000_0100;
    pub const BUTTON_B: u8 = 0b0000_0010;
    pub const BUTTON_A: u8 = 0b0000_0001;

    pub fn from_bits_truncate(bits: u8) -> (b: Self)
        ensures
            b.0 == bits,
    {
        JoypadButton(bits)
    }

    pub fn bits(&self) -> (bits: u8)
        ensures
            bits == self.0,
    {
        self.0
    }

    /// Switches the buttons of `other` on (`value`) or off.
    pub fn set(&mut self, other: JoypadButton, value: bool)
        ensures
            final(self).0 == set_bits(old(self).0, other.0, value),
    {
        if value {
            self.0 = self.0 | other.0;
        } else {
            self.0 = self.0 & !other.0;
        }
    }
}

/// A standard controller: an 8-bit shift register of button states, reloaded while the
/// strobe is high.
#[derive(Debug, Clone, Copy, PartialEq, Eq, Structural)]
pub struct Joypad {
    pub strobe: bool,
    pub button_index: u8,
    pub button_status: JoypadButton,
}

impl Joypad {
    pub open spec fn initial() -> Joypad {
        Joypad { strobe: false, button_index: 0, button_status: JoypadButton(0) }
    }

    /// A read: the state of the current button (1 once all eight have been read), after which
    /// the next button is selected unless the strobe is high.
    pub open spec fn spec_read(self) -> (u8, Joypad) {
        if self.button_index > 7 {
            (1, self)
        } else {
            (
                (self.button_status.0 >> self.button_index) & 1u8,
                if !self.strobe { Joypad { button_index: (self.button_index + 1) as u8, ..self } } else { self },
            )
        }
    }

    /// A write: bit 0 sets the strobe; a high strobe restarts at the first button.
    pub open spec fn spec_write(self, data: u8) -> Joypad {
        let strobe: bool = data & 1u8 == 1;
        Joypad { strobe, button_index: if strobe { 0 } else { self.button_index }, ..self }
    }

    pub fn new() -> (joypad: Self)
        ensures
            joypad == Joypad::initial(),
    {
        Joypad { strobe: false, button_index: 0, button_status: JoypadButton::from_bits_truncate(0) }
    }
}

impl NESDevice for Joypad {
    fn read(&mut self) -> (data: u8)
        ensures
            (data, *final(self)) == old(self).spec_read(),
    {
        if self.button_index > 7 {
            return 1;
        }
        let status: u8 = self.button_status.bits();
        let index: u8 = self.button_index;
        let response: u8 = (status & (1 << index)) >> index;
        assert(response == (status >> index) & 1u8) by (bit_vector)
            requires
                index <= 7,
                response == (status & (1u8 << index)) >> index,
        ;
        if !self.strobe && self.button_index <= 7 {
            self.button_index += 1;
        }
        response
    }

    fn write(&mut self, data: u8)
        ensures
            *final(self) == old(self).spec_write(data),
    {
        self.strobe = data & 1 == 1;
        if self.strobe {
            self.button_index = 0
        }
    }

    fn get_type(&self) -> (t: NESDeviceType)
        ensures
            t == NESDeviceType::Joypad,
    {
        NESDeviceType::Joypad
    }

    fn set_button_pressed_status(&mut self, button: JoypadButton, pressed: bool)
        ensures
            *final(self) == (Joypad { button_status: JoypadButton(set_bits(old(self).button_status.0, button.0, pressed)), ..*old(self) }),
    {
        self.button_status.set(button, pressed);
    }
}

impl Joypad {
    /// `n` reads in a row: the bytes they return and the controller after them.
    pub open spec fn reads(self, n: nat) -> (Seq<u8>, Joypad)
        decreases n,
    {
        if n == 0 {
            (Seq::empty(), self)
        } else {
            let r: (u8, Joypad) = self.spec_read();
            let rest: (Seq<u8>, Joypad) = r.1.reads((n - 1) as nat);
            (seq![r.0] + rest.0, rest.1)
        }
    }

    /// What the `i`-th of a run of reads from button `first` on reports with the strobe low:
    /// the buttons in order (A, B, Select, Start, Up, Down, Left, Right), then 1.
    pub open spec fn reported(self, first: nat, i: nat) -> u8 {
        if first + i < 8 { (self.button_status.0 >> ((first + i) as u8)) & 1u8 } else { 1 }
    }
}

/// With the strobe high every read reports button A and changes nothing.
pub proof fn lemma_strobe_high(j: Joypad)
    requires
        j.strobe,
        j.button_index == 0,
    ensures
        j.spec_read() == ((j.button_status.0 >> 0u8) & 1u8, j),
{
}

/// With the strobe low, reads report the buttons one after the other and then 1 for ever.
pub proof fn lemma_report_order(j: Joypad, n: nat)
    requires
        !j.strobe,
        j.button_index <= 8,
    ensures
        j.reads(n).0.len() == n,
        forall|i: int| 0 <= i < n ==> #[trigger] j.reads(n).0[i] == j.reported(j.button_index as nat, i as nat),
    decreases n,
{
    if n > 0 {
        let r: (u8, Joypad) = j.spec_read();
        lemma_report_order(r.1, (n - 1) as nat);
        assert forall|i: int| 0 <= i < n implies #[trigger] j.reads(n).0[i] == j.reported(j.button_index as nat, i as nat) by {
            if i > 0 {
                assert(j.reads(n).0[i] == r.1.reads((n - 1) as nat).0[i - 1]);
                assert(r.1.button_status == j.button_status);
            }
        }
    }
}

} // verus!
