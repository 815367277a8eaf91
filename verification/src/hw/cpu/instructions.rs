//! The instructions, one function each, with the state that each leaves.

use vstd::prelude::*;
use crate::hw::bits::{lemma_bit7, lemma_flag_kept, lemma_flag_written, lemma_single_bits_apart};
use crate::hw::bus::{Bus, BusError};
use crate::hw::cpu::opcodes::Instruction;
use crate::hw::cpu::{
    add16,
    add8,
    unwrap8,
    wrap16,
    wrap8,
    AddressingMode,
    CpuFlags,
    BRK_VECTOR,
    CPU,
    NMI_VECTOR,
};

verus! {

/// `value` shifted left by one bit, with `carry_in` entering at bit 0.
pub open spec fn shifted_left(value: u8, carry_in: bool) -> u8 {
    ((value % 128) * 2 + if carry_in {
        1int
    } else {
        0int
    }) as u8
}

/// `value` shifted right by one bit, with `carry_in` entering at bit 7.
pub open spec fn shifted_right(value: u8, carry_in: bool) -> u8 {
    (value / 2 + if carry_in {
        128int
    } else {
        0int
    }) as u8
}

/// The sum of the accumulator, a byte of memory and the carry.
pub open spec fn carry_sum(a: u8, m: u8, carry: bool) -> int {
    a + m + if carry {
        1int
    } else {
        0int
    }
}

/// The signed overflow of an addition of `a` and `m` that gave `result`:
/// both have a sign that the result does not have.
pub open spec fn signed_overflow(a: u8, m: u8, result: u8) -> bool {
    (a ^ result) & (m ^ result) & 0x80 != 0
}

pub(crate) fn shift_left(value: u8, carry_in: bool) -> (r: u8)
    ensures
        r == shifted_left(value, carry_in),
{
    let low: u8 = if carry_in {
        1
    } else {
        0
    };
    (value % 128) * 2 + low
}

pub(crate) fn shift_right(value: u8, carry_in: bool) -> (r: u8)
    ensures
        r == shifted_right(value, carry_in),
{
    let high: u8 = if carry_in {
        128
    } else {
        0
    };
    value / 2 + high
}

impl CPU {
    // ---------------------------------------------------------------
    // Loads, stores, transfers
    // ---------------------------------------------------------------

    /// The processor after the operand was read into a register: Zero and
    /// Negative follow the byte. The register itself is set by the caller.
    pub open spec fn after_load(&self, mode: AddressingMode) -> CPU {
        let read = self.after_operand_read(mode);
        CPU { status: read.status.with_zn(self.operand_value(mode)), ..read }
    }

    pub open spec fn after_lda(&self, mode: AddressingMode) -> CPU {
        CPU { register_a: self.operand_value(mode), ..self.after_load(mode) }
    }

    pub open spec fn after_ldx(&self, mode: AddressingMode) -> CPU {
        CPU { register_x: self.operand_value(mode), ..self.after_load(mode) }
    }

    pub open spec fn after_ldy(&self, mode: AddressingMode) -> CPU {
        CPU { register_y: self.operand_value(mode), ..self.after_load(mode) }
    }

    pub(crate) fn lda(&mut self, mode: AddressingMode) -> (page_crossed: bool)
        requires
            old(self).wf(),
        ensures
            final(self).wf(),
            *final(self) == old(self).after_lda(mode),
            page_crossed == old(self).operand(mode).page_crossed,
    {
        let (param, page_crossed) = self.get_operand_value(mode);
        self.register_a = param;
        self.update_z_and_n_flags(param);
        page_crossed
    }

    pub(crate) fn ldx(&mut self, mode: AddressingMode) -> (page_crossed: bool)
        requires
            old(self).wf(),
        ensures
            final(self).wf(),
            *final(self) == old(self).after_ldx(mode),
            page_crossed == old(self).operand(mode).page_crossed,
    {
        let (param, page_crossed) = self.get_operand_value(mode);
        self.register_x = param;
        self.update_z_and_n_flags(param);
        page_crossed
    }

    pub(crate) fn ldy(&mut self, mode: AddressingMode) -> (page_crossed: bool)
        requires
            old(self).wf(),
        ensures
            final(self).wf(),
            *final(self) == old(self).after_ldy(mode),
            page_crossed == old(self).operand(mode).page_crossed,
    {
        let (param, page_crossed) = self.get_operand_value(mode);
        self.register_y = param;
        self.update_z_and_n_flags(param);
        page_crossed
    }

    /// The processor after `value` was written to the operand. Where the
    /// operand lies in the program ROM nothing is written.
    pub open spec fn after_store(&self, mode: AddressingMode, value: u8) -> CPU {
        self.after_addressing(mode).after_mem_write(self.operand(mode).addr, value)
    }

    pub open spec fn after_sta(&self, mode: AddressingMode) -> CPU {
        self.after_store(mode, self.register_a)
    }

    pub open spec fn after_stx(&self, mode: AddressingMode) -> CPU {
        self.after_store(mode, self.register_x)
    }

    pub open spec fn after_sty(&self, mode: AddressingMode) -> CPU {
        self.after_store(mode, self.register_y)
    }

    pub(crate) fn store(&mut self, mode: AddressingMode, value: u8) -> (r: Result<(), BusError>)
        requires
            old(self).wf(),
        ensures
            final(self).wf(),
            *final(self) == old(self).after_store(mode, value),
            match r {
                Ok(_) => old(self).store_error(mode) is None,
                Err(e) => old(self).store_error(mode) == Some(e),
            },
    {
        let operand = self.get_operand_address(mode);
        self.mem_write(operand.addr, value)
    }

    pub(crate) fn sta(&mut self, mode: AddressingMode) -> (r: Result<(), BusError>)
        requires
            old(self).wf(),
        ensures
            final(self).wf(),
            *final(self) == old(self).after_sta(mode),
            match r {
                Ok(_) => old(self).store_error(mode) is None,
                Err(e) => old(self).store_error(mode) == Some(e),
            },
    {
        self.store(mode, self.register_a)
    }

    pub(crate) fn stx(&mut self, mode: AddressingMode) -> (r: Result<(), BusError>)
        requires
            old(self).wf(),
        ensures
            final(self).wf(),
            *final(self) == old(self).after_stx(mode),
            match r {
                Ok(_) => old(self).store_error(mode) is None,
                Err(e) => old(self).store_error(mode) == Some(e),
            },
    {
        self.store(mode, self.register_x)
    }

    pub(crate) fn sty(&mut self, mode: AddressingMode) -> (r: Result<(), BusError>)
        requires
            old(self).wf(),
        ensures
            final(self).wf(),
            *final(self) == old(self).after_sty(mode),
            match r {
                Ok(_) => old(self).store_error(mode) is None,
                Err(e) => old(self).store_error(mode) == Some(e),
            },
    {
        self.store(mode, self.register_y)
    }

    pub open spec fn after_tax(&self) -> CPU {
        CPU { register_x: self.register_a, status: self.status.with_zn(self.register_a), ..*self }
    }

    pub open spec fn after_tay(&self) -> CPU {
        CPU { register_y: self.register_a, status: self.status.with_zn(self.register_a), ..*self }
    }

    pub open spec fn after_tsx(&self) -> CPU {
        CPU {
            register_x: self.stack_pointer,
            status: self.status.with_zn(self.stack_pointer),
            ..*self
        }
    }

    pub open spec fn after_txa(&self) -> CPU {
        CPU { register_a: self.register_x, status: self.status.with_zn(self.register_x), ..*self }
    }

    /// X goes to the stack pointer, and Zero and Negative follow it.
    pub open spec fn after_txs(&self) -> CPU {
        CPU {
            stack_pointer: self.register_x,
            status: self.status.with_zn(self.register_x),
            ..*self
        }
    }

    pub open spec fn after_tya(&self) -> CPU {
        CPU { register_a: self.register_y, status: self.status.with_zn(self.register_y), ..*self }
    }

    pub(crate) fn tax(&mut self)
        ensures
            *final(self) == old(self).after_tax(),
    {
        self.register_x = self.register_a;
        self.update_z_and_n_flags(self.register_x);
    }

    pub(crate) fn tay(&mut self)
        ensures
            *final(self) == old(self).after_tay(),
    {
        self.register_y = self.register_a;
        self.update_z_and_n_flags(self.register_y);
    }

    pub(crate) fn tsx(&mut self)
        ensures
            *final(self) == old(self).after_tsx(),
    {
        self.register_x = self.stack_pointer;
        self.update_z_and_n_flags(self.register_x);
    }

    pub(crate) fn txa(&mut self)
        ensures
            *final(self) == old(self).after_txa(),
    {
        self.register_a = self.register_x;
        self.update_z_and_n_flags(self.register_a);
    }

    pub(crate) fn txs(&mut self)
        ensures
            *final(self) == old(self).after_txs(),
    {
        self.stack_pointer = self.register_x;
        self.update_z_and_n_flags(self.stack_pointer);
    }

    pub(crate) fn tya(&mut self)
        ensures
            *final(self) == old(self).after_tya(),
    {
        self.register_a = self.register_y;
        self.update_z_and_n_flags(self.register_a);
    }

    // ---------------------------------------------------------------
    // Stack instructions
    // ---------------------------------------------------------------

    pub open spec fn after_pha(&self) -> CPU {
        self.after_push(self.register_a)
    }

    /// The status register is pushed with Break and bit 5 set.
    pub open spec fn after_php(&self) -> CPU {
        self.after_push(self.status.pushed_by_instruction())
    }

    pub open spec fn after_pla(&self) -> CPU {
        CPU {
            register_a: self.pulled(),
            status: self.status.with_zn(self.pulled()),
            ..self.after_pull()
        }
    }

    /// The status register is pulled with Break cleared and bit 5 set.
    pub open spec fn after_plp(&self) -> CPU {
        CPU { status: CpuFlags::pulled(self.pulled()), ..self.after_pull() }
    }

    pub(crate) fn pha(&mut self)
        requires
            old(self).wf(),
        ensures
            final(self).wf(),
            *final(self) == old(self).after_pha(),
    {
        self.stack_push(self.register_a);
    }

    pub(crate) fn php(&mut self)
        requires
            old(self).wf(),
        ensures
            final(self).wf(),
            *final(self) == old(self).after_php(),
    {
        let mut flags = self.status;
        flags.insert(CpuFlags::BREAK);
        flags.insert(CpuFlags::BIT5);
        self.stack_push(flags.bits());
    }

    pub(crate) fn pla(&mut self)
        requires
            old(self).wf(),
        ensures
            final(self).wf(),
            *final(self) == old(self).after_pla(),
    {
        self.register_a = self.stack_pop();
        self.update_z_and_n_flags(self.register_a);
    }

    pub(crate) fn pull_status(&mut self)
        requires
            old(self).wf(),
        ensures
            final(self).wf(),
            *final(self) == old(self).after_plp(),
    {
        let bits = self.stack_pop();
        let mut flags = CpuFlags { bits };
        flags.remove(CpuFlags::BREAK);
        flags.insert(CpuFlags::BIT5);
        self.status = flags;
    }

    pub(crate) fn plp(&mut self)
        requires
            old(self).wf(),
        ensures
            final(self).wf(),
            *final(self) == old(self).after_plp(),
    {
        self.pull_status();
    }

    // ---------------------------------------------------------------
    // Decrements and increments
    // ---------------------------------------------------------------

    /// The processor after the operand was read and `value` written back
    /// in its place: Zero and Negative follow `value`. Where the operand
    /// lies in the program ROM nothing is written.
    pub open spec fn after_modify(&self, mode: AddressingMode, value: u8) -> CPU {
        let read = self.after_operand_read(mode);
        CPU {
            status: read.status.with_zn(value),
            ..read.after_mem_write(self.operand(mode).addr, value)
        }
    }

    pub open spec fn after_dec(&self, mode: AddressingMode) -> CPU {
        self.after_modify(mode, add8(self.operand_value(mode), -1))
    }

    pub open spec fn after_inc(&self, mode: AddressingMode) -> CPU {
        self.after_modify(mode, add8(self.operand_value(mode), 1))
    }

    pub open spec fn after_dex(&self) -> CPU {
        CPU {
            register_x: add8(self.register_x, -1),
            status: self.status.with_zn(add8(self.register_x, -1)),
            ..*self
        }
    }

    pub open spec fn after_dey(&self) -> CPU {
        CPU {
            register_y: add8(self.register_y, -1),
            status: self.status.with_zn(add8(self.register_y, -1)),
            ..*self
        }
    }

    pub open spec fn after_inx(&self) -> CPU {
        CPU {
            register_x: add8(self.register_x, 1),
            status: self.status.with_zn(add8(self.register_x, 1)),
            ..*self
        }
    }

    pub open spec fn after_iny(&self) -> CPU {
        CPU {
            register_y: add8(self.register_y, 1),
            status: self.status.with_zn(add8(self.register_y, 1)),
            ..*self
        }
    }

    pub(crate) fn write_back(&mut self, addr: u16, value: u8) -> (r: Result<(), BusError>)
        requires
            old(self).wf(),
        ensures
            final(self).wf(),
            *final(self) == (CPU {
                status: old(self).status.with_zn(value),
                ..old(self).after_mem_write(addr, value)
            }),
            match r {
                Ok(_) => Bus::write_error(addr) is None,
                Err(e) => Bus::write_error(addr) == Some(e),
            },
    {
        self.update_z_and_n_flags(value);
        self.mem_write(addr, value)
    }

    pub(crate) fn dec(&mut self, mode: AddressingMode) -> (r: Result<(), BusError>)
        requires
            old(self).wf(),
        ensures
            final(self).wf(),
            *final(self) == old(self).after_dec(mode),
            match r {
                Ok(_) => old(self).store_error(mode) is None,
                Err(e) => old(self).store_error(mode) == Some(e),
            },
    {
        let operand = self.get_operand_address(mode);
        let value = self.mem_read(operand.addr);
        self.write_back(operand.addr, unwrap8(value, 1))
    }

    pub(crate) fn inc(&mut self, mode: AddressingMode) -> (r: Result<(), BusError>)
        requires
            old(self).wf(),
        ensures
            final(self).wf(),
            *final(self) == old(self).after_inc(mode),
            match r {
                Ok(_) => old(self).store_error(mode) is None,
                Err(e) => old(self).store_error(mode) == Some(e),
            },
    {
        let operand = self.get_operand_address(mode);
        let value = self.mem_read(operand.addr);
        self.write_back(operand.addr, wrap8(value, 1))
    }

    pub(crate) fn dex(&mut self)
        ensures
            *final(self) == old(self).after_dex(),
    {
        self.register_x = unwrap8(self.register_x, 1);
        self.update_z_and_n_flags(self.register_x);
    }

    pub(crate) fn dey(&mut self)
        ensures
            *final(self) == old(self).after_dey(),
    {
        self.register_y = unwrap8(self.register_y, 1);
        self.update_z_and_n_flags(self.register_y);
    }

    pub(crate) fn inx(&mut self)
        ensures
            *final(self) == old(self).after_inx(),
    {
        self.register_x = wrap8(self.register_x, 1);
        self.update_z_and_n_flags(self.register_x);
    }

    pub(crate) fn iny(&mut self)
        ensures
            *final(self) == old(self).after_iny(),
    {
        self.register_y = wrap8(self.register_y, 1);
        self.update_z_and_n_flags(self.register_y);
    }

    // ---------------------------------------------------------------
    // Logical operations
    // ---------------------------------------------------------------

    /// The processor after the operand was read and `value` put into the
    /// accumulator: Zero and Negative follow `value`.
    pub open spec fn after_accumulate(&self, mode: AddressingMode, value: u8) -> CPU {
        let read = self.after_operand_read(mode);
        CPU { register_a: value, status: read.status.with_zn(value), ..read }
    }

    pub open spec fn after_and(&self, mode: AddressingMode) -> CPU {
        self.after_accumulate(mode, self.register_a & self.operand_value(mode))
    }

    pub open spec fn after_eor(&self, mode: AddressingMode) -> CPU {
        self.after_accumulate(mode, self.register_a ^ self.operand_value(mode))
    }

    pub open spec fn after_ora(&self, mode: AddressingMode) -> CPU {
        self.after_accumulate(mode, self.register_a | self.operand_value(mode))
    }

    /// BIT: Zero says whether accumulator and operand share no bit;
    /// Negative and Overflow are bits 7 and 6 of the operand.
    pub open spec fn after_bit(&self, mode: AddressingMode) -> CPU {
        let value = self.operand_value(mode);
        let read = self.after_operand_read(mode);
        CPU {
            status: read.status.with(CpuFlags::ZERO, self.register_a & value == 0).with(
                CpuFlags::NEGATIVE,
                value >= 0x80,
            ).with(CpuFlags::OVERFLOW, value / 64 % 2 == 1),
            ..read
        }
    }

    pub(crate) fn and(&mut self, mode: AddressingMode) -> (page_crossed: bool)
        requires
            old(self).wf(),
        ensures
            final(self).wf(),
            *final(self) == old(self).after_and(mode),
            page_crossed == old(self).operand(mode).page_crossed,
    {
        let (value, page_crossed) = self.get_operand_value(mode);
        self.register_a = self.register_a & value;
        self.update_z_and_n_flags(self.register_a);
        page_crossed
    }

    pub(crate) fn eor(&mut self, mode: AddressingMode) -> (page_crossed: bool)
        requires
            old(self).wf(),
        ensures
            final(self).wf(),
            *final(self) == old(self).after_eor(mode),
            page_crossed == old(self).operand(mode).page_crossed,
    {
        let (value, page_crossed) = self.get_operand_value(mode);
        self.register_a = self.register_a ^ value;
        self.update_z_and_n_flags(self.register_a);
        page_crossed
    }

    pub(crate) fn ora(&mut self, mode: AddressingMode) -> (page_crossed: bool)
        requires
            old(self).wf(),
        ensures
            final(self).wf(),
            *final(self) == old(self).after_ora(mode),
            page_crossed == old(self).operand(mode).page_crossed,
    {
        let (value, page_crossed) = self.get_operand_value(mode);
        self.register_a = self.register_a | value;
        self.update_z_and_n_flags(self.register_a);
        page_crossed
    }

    pub(crate) fn bit(&mut self, mode: AddressingMode)
        requires
            old(self).wf(),
        ensures
            final(self).wf(),
            *final(self) == old(self).after_bit(mode),
    {
        let (value, _) = self.get_operand_value(mode);
        self.status.set(CpuFlags::ZERO, self.register_a & value == 0);
        self.status.set(CpuFlags::NEGATIVE, value >= 0x80);
        self.status.set(CpuFlags::OVERFLOW, value / 64 % 2 == 1);
    }

    // ---------------------------------------------------------------
    // Shifts and rotations
    // ---------------------------------------------------------------

    /// The processor after the accumulator was replaced by its shifted or
    /// rotated value `value`, with `carry` the bit that left it.
    pub open spec fn after_shift_a(&self, value: u8, carry: bool) -> CPU {
        CPU {
            register_a: value,
            status: self.status.with(CpuFlags::CARRY, carry).with_zn(value),
            ..*self
        }
    }

    /// The processor after the operand was read and replaced by its
    /// shifted or rotated value `value`, with `carry` the bit that left
    /// it.
    pub open spec fn after_shift(&self, mode: AddressingMode, value: u8, carry: bool) -> CPU {
        let read = self.after_operand_read(mode);
        CPU {
            status: read.status.with(CpuFlags::CARRY, carry).with_zn(value),
            ..read.after_mem_write(self.operand(mode).addr, value)
        }
    }

    pub open spec fn after_asla(&self) -> CPU {
        self.after_shift_a(shifted_left(self.register_a, false), self.register_a >= 0x80)
    }

    pub open spec fn after_lsra(&self) -> CPU {
        self.after_shift_a(shifted_right(self.register_a, false), self.register_a % 2 == 1)
    }

    pub open spec fn after_rola(&self) -> CPU {
        self.after_shift_a(
            shifted_left(self.register_a, self.status.contains(CpuFlags::CARRY)),
            self.register_a >= 0x80,
        )
    }

    pub open spec fn after_rora(&self) -> CPU {
        self.after_shift_a(
            shifted_right(self.register_a, self.status.contains(CpuFlags::CARRY)),
            self.register_a % 2 == 1,
        )
    }

    pub open spec fn after_asl(&self, mode: AddressingMode) -> CPU {
        let value = self.operand_value(mode);
        self.after_shift(mode, shifted_left(value, false), value >= 0x80)
    }

    pub open spec fn after_lsr(&self, mode: AddressingMode) -> CPU {
        let value = self.operand_value(mode);
        self.after_shift(mode, shifted_right(value, false), value % 2 == 1)
    }

    pub open spec fn after_rol(&self, mode: AddressingMode) -> CPU {
        let value = self.operand_value(mode);
        self.after_shift(
            mode,
            shifted_left(value, self.status.contains(CpuFlags::CARRY)),
            value >= 0x80,
        )
    }

    pub open spec fn after_ror(&self, mode: AddressingMode) -> CPU {
        let value = self.operand_value(mode);
        self.after_shift(
            mode,
            shifted_right(value, self.status.contains(CpuFlags::CARRY)),
            value % 2 == 1,
        )
    }

    pub(crate) fn shift_a(&mut self, value: u8, carry: bool)
        ensures
            *final(self) == old(self).after_shift_a(value, carry),
    {
        self.status.set(CpuFlags::CARRY, carry);
        self.register_a = value;
        self.update_z_and_n_flags(value);
    }

    pub(crate) fn asla(&mut self)
        ensures
            *final(self) == old(self).after_asla(),
    {
        let value = self.register_a;
        self.shift_a(shift_left(value, false), value >= 0x80);
    }

    pub(crate) fn lsra(&mut self)
        ensures
            *final(self) == old(self).after_lsra(),
    {
        let value = self.register_a;
        self.shift_a(shift_right(value, false), value % 2 == 1);
    }

    pub(crate) fn rola(&mut self)
        ensures
            *final(self) == old(self).after_rola(),
    {
        let value = self.register_a;
        let old_carry = self.status.contains(CpuFlags::CARRY);
        self.shift_a(shift_left(value, old_carry), value >= 0x80);
    }

    pub(crate) fn rora(&mut self)
        ensures
            *final(self) == old(self).after_rora(),
    {
        let value = self.register_a;
        let old_carry = self.status.contains(CpuFlags::CARRY);
        self.shift_a(shift_right(value, old_carry), value % 2 == 1);
    }

    pub(crate) fn shift_back(&mut self, addr: u16, value: u8, carry: bool) -> (r: Result<(), BusError>)
        requires
            old(self).wf(),
        ensures
            final(self).wf(),
            *final(self) == (CPU {
                status: old(self).status.with(CpuFlags::CARRY, carry).with_zn(value),
                ..old(self).after_mem_write(addr, value)
            }),
            match r {
                Ok(_) => Bus::write_error(addr) is None,
                Err(e) => Bus::write_error(addr) == Some(e),
            },
    {
        self.status.set(CpuFlags::CARRY, carry);
        self.write_back(addr, value)
    }

    pub(crate) fn asl(&mut self, mode: AddressingMode) -> (r: Result<(), BusError>)
        requires
            old(self).wf(),
        ensures
            final(self).wf(),
            *final(self) == old(self).after_asl(mode),
            match r {
                Ok(_) => old(self).store_error(mode) is None,
                Err(e) => old(self).store_error(mode) == Some(e),
            },
    {
        let operand = self.get_operand_address(mode);
        let value = self.mem_read(operand.addr);
        self.shift_back(operand.addr, shift_left(value, false), value >= 0x80)
    }

    pub(crate) fn lsr(&mut self, mode: AddressingMode) -> (r: Result<(), BusError>)
        requires
            old(self).wf(),
        ensures
            final(self).wf(),
            *final(self) == old(self).after_lsr(mode),
            match r {
                Ok(_) => old(self).store_error(mode) is None,
                Err(e) => old(self).store_error(mode) == Some(e),
            },
    {
        let operand = self.get_operand_address(mode);
        let value = self.mem_read(operand.addr);
        self.shift_back(operand.addr, shift_right(value, false), value % 2 == 1)
    }

    pub(crate) fn rol(&mut self, mode: AddressingMode) -> (r: Result<(), BusError>)
        requires
            old(self).wf(),
        ensures
            final(self).wf(),
            *final(self) == old(self).after_rol(mode),
            match r {
                Ok(_) => old(self).store_error(mode) is None,
                Err(e) => old(self).store_error(mode) == Some(e),
            },
    {
        let old_carry = self.status.contains(CpuFlags::CARRY);
        let operand = self.get_operand_address(mode);
        let value = self.mem_read(operand.addr);
        self.shift_back(operand.addr, shift_left(value, old_carry), value >= 0x80)
    }

    pub(crate) fn ror(&mut self, mode: AddressingMode) -> (r: Result<(), BusError>)
        requires
            old(self).wf(),
        ensures
            final(self).wf(),
            *final(self) == old(self).after_ror(mode),
            match r {
                Ok(_) => old(self).store_error(mode) is None,
                Err(e) => old(self).store_error(mode) == Some(e),
            },
    {
        let old_carry = self.status.contains(CpuFlags::CARRY);
        let operand = self.get_operand_address(mode);
        let value = self.mem_read(operand.addr);
        self.shift_back(operand.addr, shift_right(value, old_carry), value % 2 == 1)
    }

    // ---------------------------------------------------------------
    // Flags
    // ---------------------------------------------------------------

    /// The processor with the flags of `mask` set (`on`) or cleared.
    pub open spec fn with_flag(&self, mask: u8, on: bool) -> CPU {
        CPU { status: self.status.with(mask, on), ..*self }
    }

    pub(crate) fn clc(&mut self)
        ensures
            *final(self) == old(self).with_flag(CpuFlags::CARRY, false),
    {
        self.status.remove(CpuFlags::CARRY);
    }

    pub(crate) fn cld(&mut self)
        ensures
            *final(self) == old(self).with_flag(CpuFlags::DECIMAL, false),
    {
        self.status.remove(CpuFlags::DECIMAL);
    }

    pub(crate) fn cli(&mut self)
        ensures
            *final(self) == old(self).with_flag(CpuFlags::INTERRUPT, false),
    {
        self.status.remove(CpuFlags::INTERRUPT);
    }

    pub(crate) fn clv(&mut self)
        ensures
            *final(self) == old(self).with_flag(CpuFlags::OVERFLOW, false),
    {
        self.status.remove(CpuFlags::OVERFLOW);
    }

    pub(crate) fn sec(&mut self)
        ensures
            *final(self) == old(self).with_flag(CpuFlags::CARRY, true),
    {
        self.status.insert(CpuFlags::CARRY);
    }

    pub(crate) fn sed(&mut self)
        ensures
            *final(self) == old(self).with_flag(CpuFlags::DECIMAL, true),
    {
        self.status.insert(CpuFlags::DECIMAL);
    }

    pub(crate) fn sei(&mut self)
        ensures
            *final(self) == old(self).with_flag(CpuFlags::INTERRUPT, true),
    {
        self.status.insert(CpuFlags::INTERRUPT);
    }

    // ---------------------------------------------------------------
    // Comparisons
    // ---------------------------------------------------------------

    /// The processor after the operand was read and held against
    /// `register`: Carry says that the register is not below the operand,
    /// Zero and Negative follow the difference.
    pub open spec fn after_compare(&self, mode: AddressingMode, register: u8) -> CPU {
        let value = self.operand_value(mode);
        let read = self.after_operand_read(mode);
        CPU {
            status: read.status.with(CpuFlags::CARRY, register >= value).with_zn(
                add8(register, -value),
            ),
            ..read
        }
    }

    pub(crate) fn compare(&mut self, mode: AddressingMode, register: u8) -> (page_crossed: bool)
        requires
            old(self).wf(),
        ensures
            final(self).wf(),
            *final(self) == old(self).after_compare(mode, register),
            page_crossed == old(self).operand(mode).page_crossed,
    {
        let (value, page_crossed) = self.get_operand_value(mode);
        self.status.set(CpuFlags::CARRY, register >= value);
        self.update_z_and_n_flags(unwrap8(register, value));
        page_crossed
    }

    pub(crate) fn cmp(&mut self, mode: AddressingMode) -> (page_crossed: bool)
        requires
            old(self).wf(),
        ensures
            final(self).wf(),
            *final(self) == old(self).after_compare(mode, old(self).register_a),
            page_crossed == old(self).operand(mode).page_crossed,
    {
        self.compare(mode, self.register_a)
    }

    pub(crate) fn cpx(&mut self, mode: AddressingMode) -> (page_crossed: bool)
        requires
            old(self).wf(),
        ensures
            final(self).wf(),
            *final(self) == old(self).after_compare(mode, old(self).register_x),
            page_crossed == old(self).operand(mode).page_crossed,
    {
        self.compare(mode, self.register_x)
    }

    pub(crate) fn cpy(&mut self, mode: AddressingMode) -> (page_crossed: bool)
        requires
            old(self).wf(),
        ensures
            final(self).wf(),
            *final(self) == old(self).after_compare(mode, old(self).register_y),
            page_crossed == old(self).operand(mode).page_crossed,
    {
        self.compare(mode, self.register_y)
    }

    // ---------------------------------------------------------------
    // Arithmetic
    // ---------------------------------------------------------------

    /// The processor after `m` and the carry were added to the
    /// accumulator: the accumulator holds the low eight bits of the sum,
    /// Carry says that the sum went past 255, Overflow that it went out of
    /// the signed range, Zero and Negative follow the accumulator. The
    /// Decimal flag has no part in it.
    pub open spec fn after_add(&self, m: u8) -> CPU {
        let sum = carry_sum(self.register_a, m, self.status.contains(CpuFlags::CARRY));
        let result = (sum % 256) as u8;
        CPU {
            register_a: result,
            status: self.status.with(CpuFlags::CARRY, sum > 255).with(
                CpuFlags::OVERFLOW,
                signed_overflow(self.register_a, m, result),
            ).with_zn(result),
            ..*self
        }
    }

    pub open spec fn after_adc(&self, mode: AddressingMode) -> CPU {
        self.after_operand_read(mode).after_add(self.operand_value(mode))
    }

    /// SBC adds the complement of the operand: A + (255 - M) + C.
    pub open spec fn after_sbc(&self, mode: AddressingMode) -> CPU {
        self.after_operand_read(mode).after_add((255 - self.operand_value(mode)) as u8)
    }

    pub(crate) fn add_to_register_a(&mut self, m: u8)
        ensures
            *final(self) == old(self).after_add(m),
    {
        let a = self.register_a;
        let carry: u16 = if self.status.contains(CpuFlags::CARRY) {
            1
        } else {
            0
        };
        let sum: u16 = a as u16 + m as u16 + carry;
        let result: u8 = (sum % 256) as u8;
        self.status.set(CpuFlags::CARRY, sum > 255);
        self.status.set(CpuFlags::OVERFLOW, (a ^ result) & (m ^ result) & 0x80 != 0);
        self.register_a = result;
        self.update_z_and_n_flags(result);
    }

    pub(crate) fn adc(&mut self, mode: AddressingMode) -> (page_crossed: bool)
        requires
            old(self).wf(),
        ensures
            final(self).wf(),
            *final(self) == old(self).after_adc(mode),
            page_crossed == old(self).operand(mode).page_crossed,
    {
        let (value, page_crossed) = self.get_operand_value(mode);
        self.add_to_register_a(value);
        page_crossed
    }

    pub(crate) fn sbc(&mut self, mode: AddressingMode) -> (page_crossed: bool)
        requires
            old(self).wf(),
        ensures
            final(self).wf(),
            *final(self) == old(self).after_sbc(mode),
            page_crossed == old(self).operand(mode).page_crossed,
    {
        let (value, page_crossed) = self.get_operand_value(mode);
        self.add_to_register_a(255 - value);
        page_crossed
    }

    // ---------------------------------------------------------------
    // Branches, jumps, interrupts
    // ---------------------------------------------------------------

    /// Whether the branch `instruction` is taken.
    pub open spec fn branch_taken(&self, instruction: Instruction) -> bool {
        match instruction {
            Instruction::BCC => !self.status.contains(CpuFlags::CARRY),
            Instruction::BCS => self.status.contains(CpuFlags::CARRY),
            Instruction::BNE => !self.status.contains(CpuFlags::ZERO),
            Instruction::BEQ => self.status.contains(CpuFlags::ZERO),
            Instruction::BPL => !self.status.contains(CpuFlags::NEGATIVE),
            Instruction::BMI => self.status.contains(CpuFlags::NEGATIVE),
            Instruction::BVC => !self.status.contains(CpuFlags::OVERFLOW),
            Instruction::BVS => self.status.contains(CpuFlags::OVERFLOW),
            _ => false,
        }
    }

    /// The processor after a branch: at the target when the branch is
    /// taken, else past the offset byte.
    pub open spec fn after_branch(&self, mode: AddressingMode, taken: bool) -> CPU {
        CPU {
            program_counter: if taken {
                self.operand(mode).addr
            } else {
                add16(self.program_counter, 1)
            },
            ..self.after_addressing(mode)
        }
    }

    /// Cycles that a branch takes beyond its base: one when it is taken,
    /// and one more when the target lies in another page than the next
    /// instruction.
    pub open spec fn branch_cycles(&self, mode: AddressingMode, taken: bool) -> u8 {
        if !taken {
            0
        } else if self.operand(mode).page_crossed {
            2
        } else {
            1
        }
    }

    pub(crate) fn branch(&mut self, mode: AddressingMode, condition: bool) -> (extra: u8)
        requires
            old(self).wf(),
        ensures
            final(self).wf(),
            *final(self) == old(self).after_branch(mode, condition),
            extra == old(self).branch_cycles(mode, condition),
    {
        let next = wrap16(self.program_counter, 1);
        let operand = self.get_operand_address(mode);
        if condition {
            self.program_counter = operand.addr;
            if operand.page_crossed {
                2
            } else {
                1
            }
        } else {
            self.program_counter = next;
            0
        }
    }

    pub(crate) fn is_taken(&self, instruction: Instruction) -> (taken: bool)
        ensures
            taken == self.branch_taken(instruction),
    {
        match instruction {
            Instruction::BCC => !self.status.contains(CpuFlags::CARRY),
            Instruction::BCS => self.status.contains(CpuFlags::CARRY),
            Instruction::BNE => !self.status.contains(CpuFlags::ZERO),
            Instruction::BEQ => self.status.contains(CpuFlags::ZERO),
            Instruction::BPL => !self.status.contains(CpuFlags::NEGATIVE),
            Instruction::BMI => self.status.contains(CpuFlags::NEGATIVE),
            Instruction::BVC => !self.status.contains(CpuFlags::OVERFLOW),
            Instruction::BVS => self.status.contains(CpuFlags::OVERFLOW),
            _ => false,
        }
    }

    pub open spec fn after_jmp(&self, mode: AddressingMode) -> CPU {
        CPU { program_counter: self.operand(mode).addr, ..self.after_addressing(mode) }
    }

    /// JSR pushes the address of its own last byte, high byte first, and
    /// goes to the target.
    pub open spec fn after_jsr(&self, mode: AddressingMode) -> CPU {
        CPU {
            program_counter: self.operand(mode).addr,
            ..self.after_addressing(mode).after_push_u16(add16(self.program_counter, 1))
        }
    }

    /// RTS pulls an address, low byte first, and goes to the byte after
    /// it.
    pub open spec fn after_rts(&self) -> CPU {
        CPU { program_counter: add16(self.pulled_u16(), 1), ..self.after_pull().after_pull() }
    }

    /// BRK pushes the address of the byte after its padding byte, then the
    /// status register with Break and bit 5 set, disables interrupts and
    /// goes to the address at 0xFFFE.
    pub open spec fn after_brk(&self) -> CPU {
        let pushed = self.after_push_u16(add16(self.program_counter, 1)).after_push(
            self.status.pushed_by_instruction(),
        );
        CPU {
            status: self.status.with(CpuFlags::INTERRUPT, true),
            program_counter: pushed.read_u16(BRK_VECTOR),
            ..pushed.after_read_u16(BRK_VECTOR)
        }
    }

    /// RTI pulls the status register, as PLP does, and then the program
    /// counter, low byte first.
    pub open spec fn after_rti(&self) -> CPU {
        let flags = self.after_plp();
        CPU { program_counter: flags.pulled_u16(), ..flags.after_pull().after_pull() }
    }

    /// Entering the interrupt handler of the picture unit: the program
    /// counter is pushed, then the status register with Break clear and
    /// bit 5 set; interrupts are disabled, and the program goes on at the
    /// address at 0xFFFA.
    pub open spec fn after_nmi(&self) -> CPU {
        let pushed = self.after_push_u16(self.program_counter).after_push(
            self.status.pushed_by_interrupt(),
        );
        CPU {
            status: self.status.with(CpuFlags::INTERRUPT, true),
            program_counter: pushed.read_u16(NMI_VECTOR),
            ..pushed.after_read_u16(NMI_VECTOR)
        }
    }

    pub(crate) fn jmp(&mut self, mode: AddressingMode)
        requires
            old(self).wf(),
        ensures
            final(self).wf(),
            *final(self) == old(self).after_jmp(mode),
    {
        let operand = self.get_operand_address(mode);
        self.program_counter = operand.addr;
    }

    pub(crate) fn jsr(&mut self, mode: AddressingMode)
        requires
            old(self).wf(),
        ensures
            final(self).wf(),
            *final(self) == old(self).after_jsr(mode),
    {
        let last = wrap16(self.program_counter, 1);
        let operand = self.get_operand_address(mode);
        self.stack_push_u16(last);
        self.program_counter = operand.addr;
    }

    pub(crate) fn rts(&mut self)
        requires
            old(self).wf(),
        ensures
            final(self).wf(),
            *final(self) == old(self).after_rts(),
    {
        let addr = self.stack_pop_u16();
        self.program_counter = wrap16(addr, 1);
    }

    pub(crate) fn enter_handler(&mut self, return_to: u16, pushed_status: u8, vector: u16)
        requires
            old(self).wf(),
        ensures
            final(self).wf(),
            *final(self) == (CPU {
                status: old(self).status.with(CpuFlags::INTERRUPT, true),
                program_counter: old(self).after_push_u16(return_to).after_push(
                    pushed_status,
                ).read_u16(vector),
                ..old(self).after_push_u16(return_to).after_push(pushed_status).after_read_u16(
                    vector,
                )
            }),
    {
        self.stack_push_u16(return_to);
        self.stack_push(pushed_status);
        self.status.insert(CpuFlags::INTERRUPT);
        self.program_counter = self.mem_read_u16(vector);
    }

    pub(crate) fn brk(&mut self)
        requires
            old(self).wf(),
        ensures
            final(self).wf(),
            *final(self) == old(self).after_brk(),
    {
        let mut flags = self.status;
        flags.insert(CpuFlags::BREAK);
        flags.insert(CpuFlags::BIT5);
        self.enter_handler(wrap16(self.program_counter, 1), flags.bits(), BRK_VECTOR);
    }

    pub(crate) fn rti(&mut self)
        requires
            old(self).wf(),
        ensures
            final(self).wf(),
            *final(self) == old(self).after_rti(),
    {
        self.pull_status();
        self.program_counter = self.stack_pop_u16();
    }

    pub(crate) fn interrupt_nmi(&mut self)
        requires
            old(self).wf(),
        ensures
            final(self).wf(),
            *final(self) == old(self).after_nmi(),
    {
        let mut flags = self.status;
        flags.remove(CpuFlags::BREAK);
        flags.insert(CpuFlags::BIT5);
        self.enter_handler(self.program_counter, flags.bits(), NMI_VECTOR);
    }
}

/// ADC adds the operand M and the carry C to the accumulator A: afterwards
/// the accumulator holds (A + M + C) mod 256, Carry says that A + M + C is
/// more than 255, Overflow that ((A ^ A') & (M ^ A') & 0x80) is not 0 for
/// the new accumulator A', Zero that A' is 0, and Negative is bit 7 of A'.
pub proof fn lemma_adc(cpu: CPU, mode: AddressingMode)
    ensures
        ({
            let after = cpu.after_adc(mode);
            let a = cpu.register_a;
            let m = cpu.operand_value(mode);
            let sum = carry_sum(a, m, cpu.status.contains(CpuFlags::CARRY));
            &&& after.register_a == sum % 256
            &&& after.status.contains(CpuFlags::CARRY) == (sum > 255)
            &&& after.status.contains(CpuFlags::OVERFLOW) == ((a ^ after.register_a) & (m
                ^ after.register_a) & 0x80 != 0)
            &&& after.status.contains(CpuFlags::ZERO) == (after.register_a == 0)
            &&& after.status.contains(CpuFlags::NEGATIVE) == (after.register_a & 0x80 != 0)
        }),
{
    let a = cpu.register_a;
    let m = cpu.operand_value(mode);
    let sum = carry_sum(a, m, cpu.status.contains(CpuFlags::CARRY));
    let result = (sum % 256) as u8;
    let start = cpu.status.bits;
    let carried = cpu.status.with(CpuFlags::CARRY, sum > 255).bits;
    let overflowed = cpu.status.with(CpuFlags::CARRY, sum > 255).with(
        CpuFlags::OVERFLOW,
        signed_overflow(a, m, result),
    ).bits;
    let zeroed = (CpuFlags { bits: overflowed }).with(CpuFlags::ZERO, result == 0).bits;
    lemma_single_bits_apart();
    lemma_flag_written(start, CpuFlags::CARRY, sum > 255);
    lemma_flag_kept(carried, CpuFlags::OVERFLOW, signed_overflow(a, m, result), CpuFlags::CARRY);
    lemma_flag_written(carried, CpuFlags::OVERFLOW, signed_overflow(a, m, result));
    lemma_flag_kept(overflowed, CpuFlags::ZERO, result == 0, CpuFlags::CARRY);
    lemma_flag_kept(overflowed, CpuFlags::ZERO, result == 0, CpuFlags::OVERFLOW);
    lemma_flag_written(overflowed, CpuFlags::ZERO, result == 0);
    lemma_flag_kept(zeroed, CpuFlags::NEGATIVE, result >= 0x80, CpuFlags::CARRY);
    lemma_flag_kept(zeroed, CpuFlags::NEGATIVE, result >= 0x80, CpuFlags::OVERFLOW);
    lemma_flag_kept(zeroed, CpuFlags::NEGATIVE, result >= 0x80, CpuFlags::ZERO);
    lemma_flag_written(zeroed, CpuFlags::NEGATIVE, result >= 0x80);
    lemma_bit7(result);
}

/// PHP and then PLP leave the stack pointer and every flag as they were,
/// but for Break, which is then clear, and bit 5, which is then set.
pub proof fn lemma_php_plp(cpu: CPU)
    ensures
        cpu.after_php().after_plp().status == cpu.status.with(CpuFlags::BREAK, false).with(
            CpuFlags::BIT5,
            true,
        ),
        cpu.after_php().after_plp().status.bits == (cpu.status.bits & !0x10u8) | 0x20,
        cpu.after_php().after_plp().stack_pointer == cpu.stack_pointer,
        cpu.after_php().after_plp().register_a == cpu.register_a,
        cpu.after_php().after_plp().register_x == cpu.register_x,
        cpu.after_php().after_plp().register_y == cpu.register_y,
        cpu.after_php().after_plp().program_counter == cpu.program_counter,
{
    let bits = cpu.status.bits;
    assert(((((bits | 0x10) | 0x20) & !0x10u8) | 0x20) == (bits & !0x10u8) | 0x20) by (bit_vector);
}

/// PHA and then PLA leave the accumulator and the stack pointer as they
/// were, and set Zero and Negative from the accumulator.
pub proof fn lemma_pha_pla(cpu: CPU)
    ensures
        cpu.after_pha().after_pla().register_a == cpu.register_a,
        cpu.after_pha().after_pla().stack_pointer == cpu.stack_pointer,
        cpu.after_pha().after_pla().status == cpu.status.with_zn(cpu.register_a),
        cpu.after_pha().after_pla().status.contains(CpuFlags::ZERO) == (cpu.register_a == 0),
        cpu.after_pha().after_pla().status.contains(CpuFlags::NEGATIVE) == (cpu.register_a
            >= 0x80),
{
    let a = cpu.register_a;
    let zeroed = cpu.status.with(CpuFlags::ZERO, a == 0).bits;
    lemma_single_bits_apart();
    lemma_flag_written(cpu.status.bits, CpuFlags::ZERO, a == 0);
    lemma_flag_kept(zeroed, CpuFlags::NEGATIVE, a >= 0x80, CpuFlags::ZERO);
    lemma_flag_written(zeroed, CpuFlags::NEGATIVE, a >= 0x80);
}

} // verus!
