//! The whole machine behind a handful of calls: load, reset, step, read
//! the picture, press a button.

use vstd::prelude::*;
use crate::hw::bus::Bus;
use crate::hw::cartridge::{load_error, Cartridge, CartridgeError};
use crate::hw::cpu::tracer::trace_line;
use crate::hw::cpu::{CpuError, StepOutcome, CPU};
use crate::hw::joypad::Joypad;
use crate::rendering::frame::Frame;
use crate::rendering::renderer::{render, shows};

verus! {

pub struct Emulator {
    pub cpu: CPU,
    /// The picture of the last frame that was completed; black before the
    /// first.
    pub current_frame: Frame,
}

impl Emulator {
    pub open spec fn wf(&self) -> bool {
        &&& self.cpu.wf()
        &&& self.current_frame.wf()
    }

    /// The machine as it is made of the iNES image `rom`: the cartridge
    /// of the image in the slot of a bus that is switched on, every
    /// register of the processor at 0, and a black picture.
    pub open spec fn made_of(&self, rom: Seq<u8>) -> bool {
        &&& self.wf()
        &&& self.cpu.bus.powered_on(self.cpu.bus.cartridge)
        &&& match self.cpu.bus.cartridge {
            Some(c) => c.holds(rom),
            None => false,
        }
        &&& self.cpu.register_a == 0
        &&& self.cpu.register_x == 0
        &&& self.cpu.register_y == 0
        &&& self.cpu.status.bits == 0
        &&& self.cpu.stack_pointer == 0
        &&& self.cpu.program_counter == 0
        &&& forall|i: int|
            0 <= i < self.current_frame.data@.len() ==> self.current_frame.data@[i] == 0
    }

    /// The machine after the buttons of the mask `key` were pressed or let
    /// go on the first controller.
    pub open spec fn after_key_event(&self, key: u8, pressed: bool) -> Emulator {
        Emulator {
            cpu: CPU {
                bus: Bus {
                    joypad1: Joypad {
                        button_status: self.cpu.bus.joypad1.button_status.with(key, pressed),
                        ..self.cpu.bus.joypad1
                    },
                    ..self.cpu.bus
                },
                ..self.cpu
            },
            ..*self
        }
    }

    /// The machine is `before` after one step: the processor has taken
    /// the step; where the step went through and a frame ended in it, the
    /// picture shows the state of the picture unit at the end of the step,
    /// and else the picture is that of `before`.
    pub open spec fn stepped_from(&self, before: &Emulator) -> bool {
        &&& self.cpu == before.cpu.after_step()
        &&& if before.cpu.step_error() is None && before.cpu.step_outcome().frame_complete {
            shows(&self.current_frame, &self.cpu.bus.ppu)
        } else {
            self.current_frame == before.current_frame
        }
    }

    /// Says whether the machine is in a state that its own operations
    /// leave it in.
    pub fn is_wf(&self) -> (ok: bool)
        ensures
            ok == self.wf(),
    {
        self.cpu.is_wf() && self.current_frame.is_wf()
    }

    /// A machine with the cartridge of the iNES image `rom` in the slot.
    /// The image is turned down as `Cartridge::new` turns it down.
    pub fn new(rom: Vec<u8>) -> (r: Result<Emulator, CartridgeError>)
        ensures
            match r {
                Ok(emulator) => load_error(rom@) is None && emulator.made_of(rom@),
                Err(e) => load_error(rom@) == Some(e),
            },
    {
        match Cartridge::new(rom) {
            Ok(cartridge) => {
                let bus = Bus::new(Some(cartridge));
                Ok(Emulator { cpu: CPU::with_bus(bus), current_frame: Frame::new() })
            },
            Err(e) => Err(e),
        }
    }

    /// Presses or lets go the buttons of the mask `key` on the first
    /// controller.
    pub fn set_key_event(&mut self, key: u8, pressed: bool)
        ensures
            *final(self) == old(self).after_key_event(key, pressed),
    {
        if pressed {
            self.cpu.bus.set_key_to_press(key);
        } else {
            self.cpu.bus.set_key_to_release(key);
        }
    }

    pub fn reset_cpu(&mut self)
        requires
            old(self).wf(),
        ensures
            final(self).wf(),
            *final(self) == (Emulator { cpu: old(self).cpu.after_reset(), ..*old(self) }),
    {
        self.cpu.reset();
    }

    /// One step of the processor. When a frame ends in it, the state of
    /// the picture unit at the end of the step is drawn into
    /// `current_frame`; else the picture stays.
    pub fn step_emulation(&mut self) -> (r: Result<StepOutcome, CpuError>)
        requires
            old(self).wf(),
        ensures
            final(self).wf(),
            final(self).stepped_from(old(self)),
            match r {
                Ok(outcome) => old(self).cpu.step_error() is None && outcome == old(
                    self,
                ).cpu.step_outcome(),
                Err(e) => old(self).cpu.step_error() == Some(e),
            },
    {
        match self.cpu.step() {
            Ok(outcome) => {
                if outcome.frame_complete {
                    render(&self.cpu.bus.ppu, &mut self.current_frame);
                }
                Ok(outcome)
            },
            Err(e) => Err(e),
        }
    }

    /// As `step_emulation`, and gives the trace line of the instruction
    /// that is carried out.
    pub fn step_emulation_traced(&mut self) -> (r: (Vec<u8>, Result<StepOutcome, CpuError>))
        requires
            old(self).wf(),
        ensures
            final(self).wf(),
            final(self).stepped_from(old(self)),
            r.0@ == trace_line(&old(self).cpu.after_interrupt_poll()),
            match r.1 {
                Ok(outcome) => old(self).cpu.step_error() is None && outcome == old(
                    self,
                ).cpu.step_outcome(),
                Err(e) => old(self).cpu.step_error() == Some(e),
            },
    {
        let (line, r) = self.cpu.step_with_trace();
        match r {
            Ok(outcome) => {
                if outcome.frame_complete {
                    render(&self.cpu.bus.ppu, &mut self.current_frame);
                }
                (line, Ok(outcome))
            },
            Err(e) => (line, Err(e)),
        }
    }

    /// A copy of the bytes of the current picture.
    pub fn get_current_frame(&self) -> (data: Vec<u8>)
        ensures
            data@ == self.current_frame.data@,
    {
        self.current_frame.bytes()
    }

    /// Reads `address` as the processor would, with what that does to the
    /// port that is read.
    pub fn get_value_at_address(&mut self, address: u16) -> (value: u8)
        requires
            old(self).wf(),
        ensures
            final(self).wf(),
            value == old(self).cpu.read(address),
            *final(self) == (Emulator { cpu: old(self).cpu.after_mem_read(address), ..*old(self) }),
    {
        self.cpu.mem_read(address)
    }
}

} // verus!
