//! Decoding and carrying out instructions, one at a time or until the
//! program stops.

use vstd::prelude::*;
use crate::hw::bus::{Bus, BusError};
use crate::hw::cpu::opcodes::{
    lemma_table_rows,
    lookup,
    operand_len,
    spec_lookup,
    Instruction,
    OpCode,
};
use crate::hw::cpu::{
    add16,
    wrap16,
    AddressingMode,
    CpuError,
    CpuFlags,
    StepOutcome,
    BRK_OPCODE,
    CPU,
    NMI_CYCLES,
};
use crate::hw::cpu::tracer::{trace, trace_line};
use crate::hw::ppu::PPU;

verus! {

pub(crate) fn written(r: Result<(), BusError>) -> (out: Result<u8, BusError>)
    ensures
        out == match r {
            Ok(_) => Ok::<u8, BusError>(0u8),
            Err(e) => Err::<u8, BusError>(e),
        },
{
    match r {
        Ok(_) => Ok(0),
        Err(e) => Err(e),
    }
}

pub(crate) fn penalty(page_crossed: bool) -> (extra: u8)
    ensures
        extra == if page_crossed {
            1u8
        } else {
            0u8
        },
{
    if page_crossed {
        1
    } else {
        0
    }
}

impl CPU {
    // ---------------------------------------------------------------
    // One instruction
    // ---------------------------------------------------------------

    /// The processor after an instruction that reads its operand.
    #[verifier::opaque]
    pub open spec fn after_execute_read(&self, op: OpCode) -> CPU {
        let mode = op.addressing_mode;
        match op.instruction {
            Instruction::LDA => self.after_lda(mode),
            Instruction::LDX => self.after_ldx(mode),
            Instruction::LDY => self.after_ldy(mode),
            Instruction::ADC => self.after_adc(mode),
            Instruction::SBC => self.after_sbc(mode),
            Instruction::AND => self.after_and(mode),
            Instruction::EOR => self.after_eor(mode),
            Instruction::ORA => self.after_ora(mode),
            Instruction::CMP => self.after_compare(mode, self.register_a),
            Instruction::CPX => self.after_compare(mode, self.register_x),
            _ => self.after_compare(mode, self.register_y),
        }
    }

    /// The processor after an instruction that writes to its operand.
    #[verifier::opaque]
    pub open spec fn after_execute_write(&self, op: OpCode) -> CPU {
        let mode = op.addressing_mode;
        match op.instruction {
            Instruction::STA => self.after_sta(mode),
            Instruction::STX => self.after_stx(mode),
            Instruction::STY => self.after_sty(mode),
            Instruction::DEC => self.after_dec(mode),
            Instruction::INC => self.after_inc(mode),
            Instruction::ASL => self.after_asl(mode),
            Instruction::LSR => self.after_lsr(mode),
            Instruction::ROL => self.after_rol(mode),
            _ => self.after_ror(mode),
        }
    }

    /// The processor after an instruction that works on registers, flags
    /// or the stack alone.
    #[verifier::opaque]
    pub open spec fn after_execute_register(&self, op: OpCode) -> CPU {
        match op.instruction {
            Instruction::TAX => self.after_tax(),
            Instruction::TAY => self.after_tay(),
            Instruction::TSX => self.after_tsx(),
            Instruction::TXA => self.after_txa(),
            Instruction::TXS => self.after_txs(),
            Instruction::TYA => self.after_tya(),
            Instruction::PHA => self.after_pha(),
            Instruction::PHP => self.after_php(),
            Instruction::PLA => self.after_pla(),
            Instruction::PLP => self.after_plp(),
            Instruction::DEX => self.after_dex(),
            Instruction::DEY => self.after_dey(),
            Instruction::INX => self.after_inx(),
            Instruction::INY => self.after_iny(),
            Instruction::ASLA => self.after_asla(),
            Instruction::LSRA => self.after_lsra(),
            Instruction::ROLA => self.after_rola(),
            Instruction::RORA => self.after_rora(),
            Instruction::CLC => self.with_flag(CpuFlags::CARRY, false),
            Instruction::CLD => self.with_flag(CpuFlags::DECIMAL, false),
            Instruction::CLI => self.with_flag(CpuFlags::INTERRUPT, false),
            Instruction::CLV => self.with_flag(CpuFlags::OVERFLOW, false),
            Instruction::SEC => self.with_flag(CpuFlags::CARRY, true),
            Instruction::SED => self.with_flag(CpuFlags::DECIMAL, true),
            Instruction::SEI => self.with_flag(CpuFlags::INTERRUPT, true),
            _ => *self,
        }
    }

    /// The processor after a jump, a call, a return, a software interrupt
    /// or BIT.
    #[verifier::opaque]
    pub open spec fn after_execute_flow(&self, op: OpCode) -> CPU {
        let mode = op.addressing_mode;
        match op.instruction {
            Instruction::JMP => self.after_jmp(mode),
            Instruction::JSR => self.after_jsr(mode),
            Instruction::RTS => self.after_rts(),
            Instruction::BRK => self.after_brk(),
            Instruction::RTI => self.after_rti(),
            _ => self.after_bit(mode),
        }
    }

    /// The processor after the instruction of `op` was carried out, the
    /// program counter standing just past the opcode before and, unless
    /// the instruction sets it, after.
    pub open spec fn after_execute(&self, op: OpCode) -> CPU {
        if op.instruction.reads_operand() {
            self.after_execute_read(op)
        } else if op.instruction.writes_operand() {
            self.after_execute_write(op)
        } else if op.instruction.is_branch() {
            self.after_branch(op.addressing_mode, self.branch_taken(op.instruction))
        } else if op.instruction.sets_pc() || op.instruction == Instruction::BIT {
            self.after_execute_flow(op)
        } else {
            self.after_execute_register(op)
        }
    }

    /// The error that the instruction of `op` meets, if any: an
    /// instruction that writes to memory fails where its operand lies in
    /// the program ROM.
    pub open spec fn execute_error(&self, op: OpCode) -> Option<BusError> {
        if op.instruction.writes_operand() {
            self.store_error(op.addressing_mode)
        } else {
            None
        }
    }

    /// Cycles that the instruction of `op` takes beyond the base count of
    /// its opcode: one where an instruction that only reads its operand
    /// finds it in another page than the address it indexed from, and
    /// those of a branch.
    pub open spec fn extra_cycles(&self, op: OpCode) -> u8 {
        if op.instruction.reads_operand() {
            if self.operand(op.addressing_mode).page_crossed {
                1
            } else {
                0
            }
        } else if op.instruction.is_branch() {
            self.branch_cycles(op.addressing_mode, self.branch_taken(op.instruction))
        } else {
            0
        }
    }

    pub(crate) fn execute_read(&mut self, op: OpCode) -> (page_crossed: bool)
        requires
            old(self).wf(),
            op.instruction.reads_operand(),
        ensures
            final(self).wf(),
            *final(self) == old(self).after_execute_read(op),
            page_crossed == old(self).operand(op.addressing_mode).page_crossed,
    {
        reveal(CPU::after_execute_read);
        let mode = op.addressing_mode;
        match op.instruction {
            Instruction::LDA => self.lda(mode),
            Instruction::LDX => self.ldx(mode),
            Instruction::LDY => self.ldy(mode),
            Instruction::ADC => self.adc(mode),
            Instruction::SBC => self.sbc(mode),
            Instruction::AND => self.and(mode),
            Instruction::EOR => self.eor(mode),
            Instruction::ORA => self.ora(mode),
            Instruction::CMP => self.cmp(mode),
            Instruction::CPX => self.cpx(mode),
            _ => self.cpy(mode),
        }
    }

    pub(crate) fn execute_write(&mut self, op: OpCode) -> (r: Result<(), BusError>)
        requires
            old(self).wf(),
            op.instruction.writes_operand(),
        ensures
            final(self).wf(),
            *final(self) == old(self).after_execute_write(op),
            match r {
                Ok(_) => old(self).store_error(op.addressing_mode) is None,
                Err(e) => old(self).store_error(op.addressing_mode) == Some(e),
            },
    {
        reveal(CPU::after_execute_write);
        let mode = op.addressing_mode;
        match op.instruction {
            Instruction::STA => self.sta(mode),
            Instruction::STX => self.stx(mode),
            Instruction::STY => self.sty(mode),
            Instruction::DEC => self.dec(mode),
            Instruction::INC => self.inc(mode),
            Instruction::ASL => self.asl(mode),
            Instruction::LSR => self.lsr(mode),
            Instruction::ROL => self.rol(mode),
            _ => self.ror(mode),
        }
    }

    pub(crate) fn execute_register(&mut self, op: OpCode)
        requires
            old(self).wf(),
        ensures
            final(self).wf(),
            *final(self) == old(self).after_execute_register(op),
    {
        reveal(CPU::after_execute_register);
        match op.instruction {
            Instruction::TAX => self.tax(),
            Instruction::TAY => self.tay(),
            Instruction::TSX => self.tsx(),
            Instruction::TXA => self.txa(),
            Instruction::TXS => self.txs(),
            Instruction::TYA => self.tya(),
            Instruction::PHA => self.pha(),
            Instruction::PHP => self.php(),
            Instruction::PLA => self.pla(),
            Instruction::PLP => self.plp(),
            Instruction::DEX => self.dex(),
            Instruction::DEY => self.dey(),
            Instruction::INX => self.inx(),
            Instruction::INY => self.iny(),
            Instruction::ASLA => self.asla(),
            Instruction::LSRA => self.lsra(),
            Instruction::ROLA => self.rola(),
            Instruction::RORA => self.rora(),
            Instruction::CLC => self.clc(),
            Instruction::CLD => self.cld(),
            Instruction::CLI => self.cli(),
            Instruction::CLV => self.clv(),
            Instruction::SEC => self.sec(),
            Instruction::SED => self.sed(),
            Instruction::SEI => self.sei(),
            _ => {},
        }
    }

    pub(crate) fn execute_flow(&mut self, op: OpCode)
        requires
            old(self).wf(),
        ensures
            final(self).wf(),
            *final(self) == old(self).after_execute_flow(op),
    {
        reveal(CPU::after_execute_flow);
        let mode = op.addressing_mode;
        match op.instruction {
            Instruction::JMP => self.jmp(mode),
            Instruction::JSR => self.jsr(mode),
            Instruction::RTS => self.rts(),
            Instruction::BRK => self.brk(),
            Instruction::RTI => self.rti(),
            _ => self.bit(mode),
        }
    }

    /// Carries out the instruction of `op` and gives the cycles that it
    /// takes beyond its base count.
    pub(crate) fn execute(&mut self, op: OpCode) -> (r: Result<u8, BusError>)
        requires
            old(self).wf(),
        ensures
            final(self).wf(),
            *final(self) == old(self).after_execute(op),
            match r {
                Ok(extra) => old(self).execute_error(op) is None && extra == old(self).extra_cycles(
                    op,
                ),
                Err(e) => old(self).execute_error(op) == Some(e),
            },
    {
        if op.instruction.reads_operand() {
            Ok(penalty(self.execute_read(op)))
        } else if op.instruction.writes_operand() {
            written(self.execute_write(op))
        } else if op.instruction.is_branch() {
            let taken = self.is_taken(op.instruction);
            Ok(self.branch(op.addressing_mode, taken))
        } else if op.instruction.sets_pc() || op.instruction == Instruction::BIT {
            self.execute_flow(op);
            Ok(0)
        } else {
            self.execute_register(op);
            Ok(0)
        }
    }
}

/// The processor's word for an error of the bus.
pub open spec fn cpu_error(e: BusError) -> CpuError {
    match e {
        BusError::WriteToRom { addr } => CpuError::WriteToRom { addr },
    }
}

impl CPU {
    // ---------------------------------------------------------------
    // Interrupts
    // ---------------------------------------------------------------

    /// The picture unit has raised its interrupt, and the processor has
    /// not taken it yet.
    pub open spec fn nmi_pending(&self) -> bool {
        self.bus.ppu.nmi_interrupt is Some
    }

    /// The processor with the interrupt of the picture unit taken off the
    /// bus.
    pub open spec fn with_nmi_taken(&self) -> CPU {
        CPU { bus: Bus { ppu: PPU { nmi_interrupt: None, ..self.bus.ppu }, ..self.bus }, ..*self }
    }

    /// The processor after it looked for an interrupt between two
    /// instructions: where one is pending it is taken, the handler is
    /// entered, and seven cycles pass.
    pub open spec fn after_interrupt_poll(&self) -> CPU {
        if self.nmi_pending() {
            let entered = self.with_nmi_taken().after_nmi();
            CPU { bus: entered.bus.after_tick(NMI_CYCLES), ..entered }
        } else {
            *self
        }
    }

    /// What looking for an interrupt reports: seven cycles where one was
    /// taken, else none, and whether a frame ended in them.
    pub open spec fn interrupt_poll_outcome(&self) -> StepOutcome {
        if self.nmi_pending() {
            StepOutcome {
                cycles: NMI_CYCLES,
                frame_complete: self.with_nmi_taken().after_nmi().bus.frame_ends_within(NMI_CYCLES),
            }
        } else {
            StepOutcome { cycles: 0, frame_complete: false }
        }
    }

    /// Looks for an interrupt of the picture unit and, where one is
    /// pending, enters its handler.
    pub fn poll_interrupt(&mut self) -> (outcome: StepOutcome)
        requires
            old(self).wf(),
        ensures
            final(self).wf(),
            *final(self) == old(self).after_interrupt_poll(),
            outcome == old(self).interrupt_poll_outcome(),
    {
        match self.bus.poll_nmi_status() {
            Some(_) => {
                self.interrupt_nmi();
                let frame_complete = self.bus.tick(NMI_CYCLES);
                StepOutcome { cycles: NMI_CYCLES, frame_complete }
            },
            None => StepOutcome { cycles: 0, frame_complete: false },
        }
    }

    // ---------------------------------------------------------------
    // Fetch, decode, execute
    // ---------------------------------------------------------------

    /// The byte at the program counter.
    pub open spec fn fetched(&self) -> u8 {
        self.read(self.program_counter)
    }

    /// The row of the opcode table for the byte at the program counter.
    pub open spec fn decoded(&self) -> Option<OpCode> {
        spec_lookup(self.fetched())
    }

    /// The processor after the opcode was read, the program counter
    /// standing just past it.
    pub open spec fn after_fetch(&self) -> CPU {
        CPU {
            program_counter: add16(self.program_counter, 1),
            ..self.after_mem_read(self.program_counter)
        }
    }

    /// Cycles that the instruction `op` at the program counter takes: the
    /// base count of its opcode and what comes on top.
    pub open spec fn instruction_cycles(&self, op: OpCode) -> u8 {
        (op.cycles + self.after_fetch().extra_cycles(op)) as u8
    }

    /// The processor after the instruction `op` at the program counter was
    /// carried out without error, before the clock is let run: an
    /// instruction that does not set the program counter leaves it past
    /// its last byte.
    pub open spec fn after_instruction(&self, op: OpCode) -> CPU {
        let done = self.after_fetch().after_execute(op);
        if op.instruction.sets_pc() {
            done
        } else {
            CPU { program_counter: add16(done.program_counter, op.bytes - 1), ..done }
        }
    }

    /// Why the instruction at the program counter cannot be carried out,
    /// if it cannot: the byte there is no official opcode, or the
    /// instruction writes to the program ROM.
    pub open spec fn execute_next_error(&self) -> Option<CpuError> {
        match self.decoded() {
            None => Some(CpuError::IllegalOpcode { opcode: self.fetched(), pc: self.program_counter }),
            Some(op) => match self.after_fetch().execute_error(op) {
                Some(e) => Some(cpu_error(e)),
                None => None,
            },
        }
    }

    /// The processor after the instruction at the program counter. Where
    /// the byte there is no opcode, only the read of it has taken place,
    /// and the program counter stays; where the instruction fails, it has
    /// been carried out up to the write, and no cycle passes.
    pub open spec fn after_execute_next(&self) -> CPU {
        match self.decoded() {
            None => self.after_mem_read(self.program_counter),
            Some(op) => if self.after_fetch().execute_error(op) is Some {
                self.after_fetch().after_execute(op)
            } else {
                CPU {
                    bus: self.after_instruction(op).bus.after_tick(self.instruction_cycles(op)),
                    ..self.after_instruction(op)
                }
            },
        }
    }

    /// What the instruction at the program counter reports when it is
    /// carried out without error: its cycles, and whether a frame ended in
    /// them.
    pub open spec fn execute_next_outcome(&self) -> StepOutcome {
        let op = self.decoded().unwrap();
        StepOutcome {
            cycles: self.instruction_cycles(op),
            frame_complete: self.after_instruction(op).bus.frame_ends_within(
                self.instruction_cycles(op),
            ),
        }
    }

    /// Carries out the instruction at the program counter and lets the
    /// clock run for the cycles that it takes.
    pub fn execute_next(&mut self) -> (r: Result<StepOutcome, CpuError>)
        requires
            old(self).wf(),
        ensures
            final(self).wf(),
            *final(self) == old(self).after_execute_next(),
            match r {
                Ok(outcome) => old(self).execute_next_error() is None && outcome == old(
                    self,
                ).execute_next_outcome(),
                Err(e) => old(self).execute_next_error() == Some(e),
            },
    {
        let pc = self.program_counter;
        let code = self.mem_read(pc);
        match lookup(code) {
            None => Err(CpuError::IllegalOpcode { opcode: code, pc }),
            Some(op) => {
                proof {
                    lemma_table_rows(code);
                }
                self.program_counter = wrap16(pc, 1);
                match self.execute(op) {
                    Err(BusError::WriteToRom { addr }) => Err(CpuError::WriteToRom { addr }),
                    Ok(extra) => {
                        if !op.instruction.sets_pc() {
                            self.program_counter = wrap16(self.program_counter, op.bytes - 1);
                        }
                        let cycles: u8 = op.cycles + extra;
                        let frame_complete = self.bus.tick(cycles);
                        Ok(StepOutcome { cycles, frame_complete })
                    },
                }
            },
        }
    }

    // ---------------------------------------------------------------
    // Steps
    // ---------------------------------------------------------------

    /// The processor after one step: a look for an interrupt, then one
    /// instruction.
    pub open spec fn after_step(&self) -> CPU {
        self.after_interrupt_poll().after_execute_next()
    }

    /// Why a step fails, if it does.
    pub open spec fn step_error(&self) -> Option<CpuError> {
        self.after_interrupt_poll().execute_next_error()
    }

    /// What a step without error reports: the cycles of the interrupt
    /// entry and of the instruction, and whether a frame ended in them.
    pub open spec fn step_outcome(&self) -> StepOutcome {
        StepOutcome {
            cycles: (self.interrupt_poll_outcome().cycles
                + self.after_interrupt_poll().execute_next_outcome().cycles) as u8,
            frame_complete: self.interrupt_poll_outcome().frame_complete
                || self.after_interrupt_poll().execute_next_outcome().frame_complete,
        }
    }

    /// One step of the machine: takes a pending interrupt of the picture
    /// unit, carries out one instruction, and lets the picture unit run
    /// three dots for every cycle that passed.
    pub fn step(&mut self) -> (r: Result<StepOutcome, CpuError>)
        requires
            old(self).wf(),
        ensures
            final(self).wf(),
            *final(self) == old(self).after_step(),
            match r {
                Ok(outcome) => old(self).step_error() is None && outcome == old(self).step_outcome(),
                Err(e) => old(self).step_error() == Some(e),
            },
    {
        let entered = self.poll_interrupt();
        proof {
            lemma_table_rows(self.fetched());
        }
        match self.execute_next() {
            Ok(done) => Ok(
                StepOutcome {
                    cycles: entered.cycles + done.cycles,
                    frame_complete: entered.frame_complete || done.frame_complete,
                },
            ),
            Err(e) => Err(e),
        }
    }

    /// As `step`, and gives the trace line of the instruction that is
    /// carried out: the line is taken after the look for an interrupt, so
    /// that it shows the first instruction of a handler that is entered.
    pub fn step_with_trace(&mut self) -> (r: (Vec<u8>, Result<StepOutcome, CpuError>))
        requires
            old(self).wf(),
        ensures
            final(self).wf(),
            *final(self) == old(self).after_step(),
            r.0@ == trace_line(&old(self).after_interrupt_poll()),
            match r.1 {
                Ok(outcome) => old(self).step_error() is None && outcome == old(self).step_outcome(),
                Err(e) => old(self).step_error() == Some(e),
            },
    {
        let entered = self.poll_interrupt();
        let line = trace(self);
        proof {
            lemma_table_rows(self.fetched());
        }
        match self.execute_next() {
            Ok(done) => (
                line,
                Ok(
                    StepOutcome {
                        cycles: entered.cycles + done.cycles,
                        frame_complete: entered.frame_complete || done.frame_complete,
                    },
                ),
            ),
            Err(e) => (line, Err(e)),
        }
    }

    /// The processor stands at a BRK, at which `run` stops.
    pub open spec fn at_halt(&self) -> bool {
        self.fetched() == BRK_OPCODE
    }

    /// The processor when `run_with_limit` returns, given `limit` steps:
    /// before each step it looks for an interrupt; at a BRK it moves past
    /// the opcode and stops; after an instruction that fails it stops.
    pub open spec fn after_run(&self, limit: nat) -> CPU
        decreases limit,
    {
        let polled = self.after_interrupt_poll();
        if limit == 0 {
            *self
        } else if polled.at_halt() {
            CPU { program_counter: add16(polled.program_counter, 1), ..polled }
        } else if polled.execute_next_error() is Some {
            polled.after_execute_next()
        } else {
            polled.after_execute_next().after_run((limit - 1) as nat)
        }
    }

    /// What `run_with_limit` returns, given `limit` steps: `Ok(true)` where
    /// the program reached a BRK, `Ok(false)` where the steps ran out
    /// first, and the error of the instruction that failed.
    pub open spec fn run_result(&self, limit: nat) -> Result<bool, CpuError>
        decreases limit,
    {
        let polled = self.after_interrupt_poll();
        if limit == 0 {
            Ok(false)
        } else if polled.at_halt() {
            Ok(true)
        } else if polled.execute_next_error() is Some {
            Err(polled.execute_next_error().unwrap())
        } else {
            polled.after_execute_next().run_result((limit - 1) as nat)
        }
    }

    /// Runs the program until it reaches a BRK, an instruction fails or
    /// `limit` instructions have been carried out.
    pub fn run_with_limit(&mut self, limit: u64) -> (r: Result<bool, CpuError>)
        requires
            old(self).wf(),
        ensures
            final(self).wf(),
            *final(self) == old(self).after_run(limit as nat),
            r == old(self).run_result(limit as nat),
    {
        let mut left: u64 = limit;
        while left > 0
            invariant
                self.wf(),
                self.after_run(left as nat) == old(self).after_run(limit as nat),
                self.run_result(left as nat) == old(self).run_result(limit as nat),
            decreases left,
        {
            self.poll_interrupt();
            if self.bus.peek(self.program_counter) == BRK_OPCODE {
                self.program_counter = wrap16(self.program_counter, 1);
                return Ok(true);
            }
            match self.execute_next() {
                Err(e) => {
                    return Err(e);
                },
                Ok(_) => {},
            }
            left = left - 1;
        }
        Ok(false)
    }

    /// Runs the program until it reaches a BRK or an instruction fails.
    /// The result is as that of `run_with_limit`, with 2^64 - 1 steps.
    pub fn run(&mut self) -> (r: Result<bool, CpuError>)
        requires
            old(self).wf(),
        ensures
            final(self).wf(),
            *final(self) == old(self).after_run(u64::MAX as nat),
            r == old(self).run_result(u64::MAX as nat),
    {
        self.run_with_limit(u64::MAX)
    }
}

/// Carrying out an instruction that reads its operand leaves the program
/// counter where it was.
proof fn lemma_read_keeps_pc(cpu: CPU, op: OpCode)
    ensures
        cpu.after_execute_read(op).program_counter == cpu.program_counter,
{
    reveal(CPU::after_execute_read);
}

/// Carrying out an instruction that writes to its operand leaves the
/// program counter where it was.
proof fn lemma_write_keeps_pc(cpu: CPU, op: OpCode)
    ensures
        cpu.after_execute_write(op).program_counter == cpu.program_counter,
{
    reveal(CPU::after_execute_write);
}

/// Carrying out an instruction on registers, flags or the stack leaves the
/// program counter where it was; so does BIT.
proof fn lemma_register_keeps_pc(cpu: CPU, op: OpCode)
    ensures
        cpu.after_execute_register(op).program_counter == cpu.program_counter,
        op.instruction == Instruction::BIT ==> cpu.after_execute_flow(op).program_counter
            == cpu.program_counter,
{
    reveal(CPU::after_execute_register);
    reveal(CPU::after_execute_flow);
}

/// The instruction `op` at the program counter, carried out without
/// error, leaves the program counter just past its last byte, unless it is
/// a jump, a call, a return, a software interrupt or a branch that is
/// taken.
proof fn lemma_instruction_pc(cpu: CPU, op: OpCode)
    requires
        op.bytes == 1 + operand_len(op.addressing_mode),
        op.instruction.is_branch() ==> op.addressing_mode == AddressingMode::Relative,
        op.instruction != Instruction::JMP,
        op.instruction != Instruction::JSR,
        op.instruction != Instruction::RTS,
        op.instruction != Instruction::RTI,
        op.instruction != Instruction::BRK,
        !(op.instruction.is_branch() && cpu.after_fetch().branch_taken(op.instruction)),
    ensures
        cpu.after_instruction(op).program_counter == add16(cpu.program_counter, op.bytes as int),
{
    let fetched = cpu.after_fetch();
    lemma_read_keeps_pc(fetched, op);
    lemma_write_keeps_pc(fetched, op);
    lemma_register_keeps_pc(fetched, op);
    assert(fetched.program_counter == add16(cpu.program_counter, 1));
    if op.instruction.is_branch() {
        assert(fetched.after_execute(op).program_counter == add16(fetched.program_counter, 1));
    } else {
        assert(fetched.after_execute(op).program_counter == fetched.program_counter);
    }
}

/// An instruction that is carried out without error leaves the program
/// counter just past its last byte, unless it is a jump, a call, a return,
/// a software interrupt or a branch that is taken. This holds of a step
/// that enters no interrupt handler first.
pub proof fn lemma_pc_advances(cpu: CPU)
    requires
        !cpu.nmi_pending(),
        cpu.decoded() is Some,
        cpu.step_error() is None,
        ({
            let instruction = cpu.decoded().unwrap().instruction;
            &&& instruction != Instruction::JMP
            &&& instruction != Instruction::JSR
            &&& instruction != Instruction::RTS
            &&& instruction != Instruction::RTI
            &&& instruction != Instruction::BRK
            &&& !(instruction.is_branch() && cpu.after_fetch().branch_taken(instruction))
        }),
    ensures
        cpu.after_step().program_counter == add16(
            cpu.program_counter,
            cpu.decoded().unwrap().bytes as int,
        ),
{
    let op = cpu.decoded().unwrap();
    lemma_table_rows(cpu.fetched());
    lemma_instruction_pc(cpu, op);
    assert(cpu.after_interrupt_poll() == cpu);
    assert(cpu.after_step().program_counter == cpu.after_instruction(op).program_counter);
}

} // verus!
