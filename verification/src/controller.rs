use crate::bits::{bit_is_set, test_bit};
use vstd::prelude::*;

verus! {

/// The eight buttons of a standard controller as a bit set.
/// Bit 0 is A, then B, Select, Start, Up, Down, Left and, in bit 7, Right.
#[derive(Clone, Copy, PartialEq, Eq, Structural, Debug)]
pub struct JoypadRegister {
    pub bits: u8,
}

impl JoypadRegister {
    pub const BUTTON_A: u8 = 0b0000_0001;

    pub const BUTTON_B: u8 = 0b0000_0010;

    pub const SELECT: u8 = 0b0000_0100;

    pub const START: u8 = 0b0000_1000;

    pub const UP: u8 = 0b0001_0000;

    pub const DOWN: u8 = 0b0010_0000;

    pub const LEFT: u8 = 0b0100_0000;

    pub const RIGHT: u8 = 0b1000_0000;

    /// What a read reports for the button at `button_index`: its bit,
    /// and 1 for every index behind the eighth button.
    pub open spec fn button_state(self, button_index: u8) -> u8 {
        if button_index >= 8 || bit_is_set(self.bits, button_index as int) {
            1
        } else {
            0
        }
    }

    /// The set after the buttons of `buttons` were pressed or released.
    pub open spec fn with(self, buttons: JoypadRegister, pressed: bool) -> JoypadRegister {
        if pressed {
            JoypadRegister { bits: self.bits | buttons.bits }
        } else {
            JoypadRegister { bits: self.bits & !buttons.bits }
        }
    }

    /// The empty set: no button is pressed.
    pub fn new() -> (register: JoypadRegister)
        ensures
            register.bits == 0,
    {
        JoypadRegister { bits: 0 }
    }

    /// The set whose bits are those of `bits`; every bit names a button.
    pub fn from_bits_truncate(bits: u8) -> (register: JoypadRegister)
        ensures
            register.bits == bits,
    {
        JoypadRegister { bits }
    }

    pub fn bits(&self) -> (bits: u8)
        ensures
            bits == self.bits,
    {
        self.bits
    }

    /// Presses or releases every button of `buttons`.
    pub fn set(&mut self, buttons: JoypadRegister, pressed: bool)
        ensures
            *final(self) == old(self).with(buttons, pressed),
    {
        if pressed {
            self.bits = self.bits | buttons.bits;
        } else {
            self.bits = self.bits & !buttons.bits;
        }
    }

    pub fn get_button_state(&self, button_index: u8) -> (state: u8)
        ensures
            state == self.button_state(button_index),
    {
        if button_index >= 8 {
            1
        } else if test_bit(self.bits, button_index) {
            1
        } else {
            0
        }
    }
}

/// The state of one controller port.
#[derive(Clone, Copy, PartialEq, Eq, Structural, Debug)]
pub struct ControllerState {
    pub buttons: JoypadRegister,
    pub strobe: bool,
    pub button_index: u8,
}

impl ControllerState {
    /// The read position never passes the slot behind the eighth button.
    pub open spec fn wf(self) -> bool {
        self.button_index <= 8
    }

    /// A port right after power-on.
    pub open spec fn initial() -> ControllerState {
        ControllerState { buttons: JoypadRegister { bits: 0 }, strobe: false, button_index: 0 }
    }

    /// The byte that a read of the port returns.
    pub open spec fn read_value(self) -> u8 {
        self.buttons.button_state(self.button_index)
    }

    /// The port after a read: the position moves on unless the strobe holds
    /// it or all eight buttons were reported.
    pub open spec fn after_read(self) -> ControllerState {
        if !self.strobe && self.button_index <= 7 {
            ControllerState { button_index: (self.button_index + 1) as u8, ..self }
        } else {
            self
        }
    }

    /// The port after a write: bit 0 is the strobe, and a set strobe
    /// rewinds the read position.
    pub open spec fn after_write(self, value: u8) -> ControllerState {
        if bit_is_set(value, 0) {
            ControllerState { strobe: true, button_index: 0, ..self }
        } else {
            ControllerState { strobe: false, ..self }
        }
    }

    /// The port after buttons were pressed or released.
    pub open spec fn after_set(self, buttons: JoypadRegister, pressed: bool) -> ControllerState {
        ControllerState { buttons: self.buttons.with(buttons, pressed), ..self }
    }
}

/// A standard controller: a shift register that reports one button per read.
pub struct Controller {
    buttons: JoypadRegister,
    strobe: bool,
    button_index: u8,
}

impl View for Controller {
    type V = ControllerState;

    closed spec fn view(&self) -> ControllerState {
        ControllerState {
            buttons: self.buttons,
            strobe: self.strobe,
            button_index: self.button_index,
        }
    }
}

impl Controller {
    pub fn new() -> (controller: Controller)
        ensures
            controller@ == ControllerState::initial(),
            controller@.wf(),
    {
        Controller { buttons: JoypadRegister::new(), strobe: false, button_index: 0 }
    }

    pub fn set_button_status(&mut self, button: JoypadRegister, status: bool)
        ensures
            final(self)@ == old(self)@.after_set(button, status),
    {
        self.buttons.set(button, status);
    }

    pub fn read(&mut self) -> (state: u8)
        ensures
            state == old(self)@.read_value(),
            final(self)@ == old(self)@.after_read(),
            old(self)@.wf() ==> final(self)@.wf(),
    {
        let button_state = self.buttons.get_button_state(self.button_index);
        if !self.strobe && self.button_index <= 7 {
            self.button_index += 1;
        }
        button_state
    }

    pub fn write(&mut self, value: u8)
        ensures
            final(self)@ == old(self)@.after_write(value),
            old(self)@.wf() ==> final(self)@.wf(),
    {
        self.strobe = test_bit(value, 0);
        if self.strobe {
            self.button_index = 0;
        }
    }
}

} // verus!
