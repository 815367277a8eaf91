//! The standard controller: eight buttons behind a shift register.

use vstd::prelude::*;

verus! {

/// The set of buttons that are held down, one bit each.
#[derive(Clone, Copy, Debug, PartialEq, Eq, Structural)]
pub struct JoypadButton {
    pub bits: u8,
}

impl JoypadButton {
    pub const BUTTON_A: u8 = 0b0000_0001;
    pub const BUTTON_B: u8 = 0b0000_0010;
    pub const SELECT: u8 = 0b0000_0100;
    pub const START: u8 = 0b0000_1000;
    pub const UP: u8 = 0b0001_0000;
    pub const DOWN: u8 = 0b0010_0000;
    pub const LEFT: u8 = 0b0100_0000;
    pub const RIGHT: u8 = 0b1000_0000;

    /// No button held.
    pub fn empty() -> (r: JoypadButton)
        ensures
            r.bits == 0,
    {
        JoypadButton { bits: 0 }
    }

    /// The set whose bits are `bits`; every bit names a button, so this
    /// never fails.
    pub fn from_bits(bits: u8) -> (r: Option<JoypadButton>)
        ensures
            r == Some(JoypadButton { bits }),
    {
        Some(JoypadButton { bits })
    }

    pub open spec fn spec_bits(self) -> u8 {
        self.bits
    }

    #[verifier::when_used_as_spec(spec_bits)]
    pub fn bits(self) -> (r: u8)
        ensures
            r == self.bits,
    {
        self.bits
    }

    pub open spec fn spec_contains(self, mask: u8) -> bool {
        self.bits & mask == mask
    }

    /// Every button of `mask` is held.
    #[verifier::when_used_as_spec(spec_contains)]
    pub fn contains(self, mask: u8) -> (r: bool)
        ensures
            r == self.spec_contains(mask),
    {
        self.bits & mask == mask
    }

    /// The set with the buttons of `mask` held (`on`) or let go.
    pub open spec fn with(self, mask: u8, on: bool) -> JoypadButton {
        if on {
            JoypadButton { bits: self.bits | mask }
        } else {
            JoypadButton { bits: self.bits & !mask }
        }
    }

    pub fn set(&mut self, mask: u8, on: bool)
        ensures
            *final(self) == old(self).with(mask, on),
    {
        if on {
            self.bits = self.bits | mask;
        } else {
            self.bits = self.bits & !mask;
        }
    }
}

/// One controller port.
#[derive(Clone, Copy, Debug, PartialEq, Eq, Structural)]
pub struct Joypad {
    /// While set, the shift register is reloaded on every access.
    pub strobe: bool,
    /// The button that the next read reports, 0 to 8.
    pub button_index: u8,
    pub button_status: JoypadButton,
}

impl Joypad {
    /// A controller with no button held and the strobe down.
    pub open spec fn idle() -> Joypad {
        Joypad { strobe: false, button_index: 0, button_status: JoypadButton { bits: 0 } }
    }

    pub fn new() -> (j: Joypad)
        ensures
            j == Joypad::idle(),
    {
        Joypad { strobe: false, button_index: 0, button_status: JoypadButton { bits: 0 } }
    }

    /// The controller after the byte `data` was written to its port: bit 0
    /// is the new strobe; the register restarts at button A while the strobe
    /// is up and at the moment it falls.
    pub open spec fn after_write(self, data: u8) -> Joypad {
        Joypad {
            strobe: data & 1 == 1,
            button_index: if data & 1 == 1 || self.strobe {
                0
            } else {
                self.button_index
            },
            button_status: self.button_status,
        }
    }

    pub fn write(&mut self, data: u8)
        ensures
            *final(self) == old(self).after_write(data),
    {
        let strobe = data & 1 == 1;
        if strobe || self.strobe {
            self.button_index = 0;
        }
        self.strobe = strobe;
    }

    /// The byte that a read of the port gives: button A while the strobe is
    /// up, else the button that the register stands at, and 1 once all
    /// eight have been read.
    pub open spec fn read_value(self) -> u8 {
        if self.strobe {
            self.button_status.bits & 1
        } else if self.button_index < 8 {
            (self.button_status.bits >> self.button_index) & 1
        } else {
            1
        }
    }

    /// The controller after a read of the port: the register moves on by
    /// one button unless the strobe is up or all eight have been read.
    pub open spec fn after_read(self) -> Joypad {
        if !self.strobe && self.button_index < 8 {
            Joypad { button_index: (self.button_index + 1) as u8, ..self }
        } else {
            self
        }
    }

    pub fn read(&mut self) -> (r: u8)
        ensures
            r == old(self).read_value(),
            *final(self) == old(self).after_read(),
    {
        if self.strobe {
            self.button_status.bits & 1
        } else if self.button_index < 8 {
            let r: u8 = (self.button_status.bits >> self.button_index) & 1;
            self.button_index = self.button_index + 1;
            r
        } else {
            1
        }
    }

    pub fn set_button_pressed_status(&mut self, button: u8, pressed: bool)
        ensures
            *final(self) == (Joypad {
                button_status: old(self).button_status.with(button, pressed),
                ..*old(self)
            }),
    {
        self.button_status.set(button, pressed);
    }
}

impl Joypad {
    /// The controller after `n` reads of the port.
    pub open spec fn after_reads(self, n: nat) -> Joypad
        decreases n,
    {
        if n == 0 {
            self
        } else {
            self.after_read().after_reads((n - 1) as nat)
        }
    }
}

/// Once the strobe has gone up and down, the reads of the port give the
/// eight buttons in turn, A first, and then 1 for ever.
pub proof fn lemma_reads_in_order(pad: Joypad, data: u8, k: nat)
    requires
        data & 1 == 0,
        pad.strobe,
    ensures
        pad.after_write(data).after_reads(k).read_value() == if k < 8 {
            (pad.button_status.bits >> (k as u8)) & 1
        } else {
            1u8
        },
{
    lemma_reads_from(pad.after_write(data), k);
}

/// With the strobe down, the read after `k` more reads gives the button
/// `k` places on from where the register stands, and 1 once the eight
/// buttons are through.
pub proof fn lemma_reads_from(pad: Joypad, k: nat)
    requires
        !pad.strobe,
        pad.button_index <= 8,
    ensures
        pad.after_reads(k).button_status == pad.button_status,
        !pad.after_reads(k).strobe,
        pad.after_reads(k).button_index == if pad.button_index + k < 8 {
            pad.button_index + k
        } else {
            8
        },
        pad.after_reads(k).read_value() == if pad.button_index + k < 8 {
            (pad.button_status.bits >> ((pad.button_index + k) as u8)) & 1
        } else {
            1u8
        },
    decreases k,
{
    if k > 0 {
        lemma_reads_from(pad.after_read(), (k - 1) as nat);
    }
}

} // verus!
