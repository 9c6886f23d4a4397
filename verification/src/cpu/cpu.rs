use crate::bits::{
    add_byte, add_word, high, low, make_word, shift_left, shift_right, sub_byte, test_bit, word_of,
};
use crate::bus::Bus;
use crate::cpu::opcode::{lookup, AddressingMode, Instruction, OpCode, MAX_BASE_CYCLES};
use crate::cpu::register::{ProcessorStatus, ProgramCounter, Register, Stack, StackOperation};
use crate::cpu::state::{CpuState, Registers, StepOutcome};
use crate::error::EmulatorError;
use vstd::prelude::*;

verus! {

/// The CPU: its registers, and the bus that it alone drives.
pub struct CPU {
    pub accumulator: Register<u8>,
    pub register_x: Register<u8>,
    pub register_y: Register<u8>,
    pub program_counter: ProgramCounter,
    pub status: ProcessorStatus,
    pub bus: Bus,
    pub stack: Stack,
}

impl View for CPU {
    type V = CpuState;

    open spec fn view(&self) -> CpuState {
        CpuState {
            regs: Registers {
                a: self.accumulator@,
                x: self.register_x@,
                y: self.register_y@,
                sp: self.stack@,
                p: self.status,
            },
            pc: self.program_counter@,
            bus: self.bus@,
        }
    }
}

/// Whether bits 6 and 7 together say that an addition overflowed: the
/// operands `a` and `m` have the same sign and the result `r` another.
proof fn lemma_overflow_bit(a: u8, m: u8, r: u8)
    by (bit_vector)
    ensures
        ((m ^ r) & (r ^ a) & 0x80 != 0) == (((a >= 128) == (m >= 128)) && ((a >= 128) != (r
            >= 128))),
{
}

fn penalty(cycles: u8, page_crossed: bool) -> (total: u8)
    requires
        cycles <= MAX_BASE_CYCLES,
    ensures
        total == crate::cpu::state::with_penalty(cycles, page_crossed),
{
    if page_crossed {
        cycles + 1
    } else {
        cycles
    }
}

impl CPU {
    /// A CPU on `bus`, with every register at its power-on value. The
    /// program counter is loaded by `reset_interrupt`.
    pub fn new(bus: Bus) -> (cpu: CPU)
        ensures
            cpu@ == (CpuState {
                regs: Registers { a: 0, x: 0, y: 0, sp: 0xFD, p: ProcessorStatus::initial() },
                pc: 0,
                bus: bus@,
            }),
    {
        CPU {
            accumulator: Register::new(0),
            register_x: Register::new(0),
            register_y: Register::new(0),
            program_counter: ProgramCounter::new(),
            status: ProcessorStatus::new(),
            stack: Stack::new(),
            bus,
        }
    }

    /// Executes exactly one instruction and returns the cycles that it
    /// took; `None` where the instruction was KIL, which halts the CPU.
    /// The cycles do not pass on the bus: `run` lets them pass.
    pub fn step(&mut self) -> (cycles: Result<Option<u8>, EmulatorError>)
        requires
            old(self)@.wf(),
        ensures
            (final(self)@, cycles) == old(self)@.step(),
            final(self)@.wf(),
    {
        proof {
            reveal(CpuState::step);
        }
        let instruction = self.next_instruction()?;
        match instruction.opcode {
            OpCode::KIL => {
                return Ok(None);
            },
            OpCode::XAA => {
                return Err(EmulatorError::UnstableOpCode(0x8B));
            },
            _ => {},
        }
        let passed_cycles = self.execute(&instruction)?;
        Ok(Some(passed_cycles))
    }

    /// One round of the run loop: a pending NMI is served, one instruction
    /// is executed and its cycles pass on the bus.
    fn advance(&mut self) -> (outcome: Result<StepOutcome, EmulatorError>)
        requires
            old(self)@.wf(),
        ensures
            (final(self)@, outcome) == old(self)@.advance(),
            final(self)@.wf(),
    {
        if self.bus.poll_nmi_interrupt() {
            self.nmi_interrupt();
        }
        match self.step()? {
            None => Ok(StepOutcome::Halted),
            Some(passed_cycles) => {
                self.bus.tick(passed_cycles);
                if self.bus.poll_frame() {
                    Ok(StepOutcome::FrameReady)
                } else {
                    Ok(StepOutcome::Continue)
                }
            },
        }
    }

    /// Runs the machine: before every instruction a pending NMI is served,
    /// and after it the cycles of the instruction pass on the bus. The run
    /// ends when the CPU halts, when a frame is ready for the host, when an
    /// error stops the machine, or after `budget` instructions.
    pub fn run(&mut self, budget: usize) -> (outcome: Result<StepOutcome, EmulatorError>)
        requires
            old(self)@.wf(),
        ensures
            (final(self)@, outcome) == old(self)@.run(budget as nat),
            final(self)@.wf(),
    {
        let mut left: usize = budget;
        while left > 0
            invariant
                self@.wf(),
                old(self)@.run(budget as nat) == self@.run(left as nat),
            decreases left,
        {
            let outcome = self.advance();
            match outcome {
                Ok(StepOutcome::Continue) => {},
                _ => {
                    return outcome;
                },
            }
            left = left - 1;
        }
        Ok(StepOutcome::Continue)
    }

    /// Resolves the operand whose bytes lie at `address`: whether a page
    /// was crossed, and the effective address.
    #[verifier::rlimit(50)]
    pub fn get_operand_address(&mut self, addressing_mode: &AddressingMode, address: u16) -> (found:
        Result<(bool, u16), EmulatorError>)
        requires
            old(self)@.wf(),
            addressing_mode.has_address(),
        ensures
            (final(self)@, found) == old(self)@.operand_address(*addressing_mode, address),
            final(self)@.wf(),
    {
        match addressing_mode {
            AddressingMode::Absolute => Ok((false, self.bus.read_word(address))),
            AddressingMode::AbsoluteX => {
                let absolute_address = self.bus.read_word(address);
                let absolute_address_x = add_word(absolute_address, self.register_x.get());
                Ok((high(absolute_address) != high(absolute_address_x), absolute_address_x))
            },
            AddressingMode::AbsoluteY => {
                let absolute_address = self.bus.read_word(address);
                let absolute_address_y = add_word(absolute_address, self.register_y.get());
                Ok((high(absolute_address) != high(absolute_address_y), absolute_address_y))
            },
            AddressingMode::Immediate | AddressingMode::Relative => Ok((false, address)),
            AddressingMode::IndexedIndirectX => {
                let operand = self.bus.read_byte(address)?;
                let indirect_address = add_byte(operand, self.register_x.get());
                Ok((false, self.bus.read_word(indirect_address as u16)))
            },
            AddressingMode::Indirect => {
                let indirect_address = self.bus.read_word(address);
                let low_value = self.bus.read_byte(indirect_address)?;
                let high_value = self.bus.read_byte(
                    make_word(add_byte(low(indirect_address), 1), high(indirect_address)),
                )?;
                Ok((false, make_word(low_value, high_value)))
            },
            AddressingMode::IndirectIndexedY => {
                let indirect_address = self.bus.read_byte(address)?;
                let real_address = self.bus.read_word(indirect_address as u16);
                let real_address_y = add_word(real_address, self.register_y.get());
                Ok((high(real_address) != high(real_address_y), real_address_y))
            },
            AddressingMode::ZeroPage => {
                let operand = self.bus.read_byte(address)?;
                Ok((false, operand as u16))
            },
            AddressingMode::ZeroPageX => {
                let operand = self.bus.read_byte(address)?;
                Ok((false, add_byte(operand, self.register_x.get()) as u16))
            },
            AddressingMode::ZeroPageY => {
                let operand = self.bus.read_byte(address)?;
                Ok((false, add_byte(operand, self.register_y.get()) as u16))
            },
            AddressingMode::Accumulator | AddressingMode::Implied => Ok((false, 0)),
        }
    }

    /// Resets the CPU: the program counter is loaded from the reset vector,
    /// the two bytes at 0xFFFC and 0xFFFD, A, X and Y are cleared, P
    /// becomes 0x24 and S 0xFD. The seven cycles of the reset sequence pass
    /// on the bus.
    pub fn reset_interrupt(&mut self)
        requires
            old(self)@.wf(),
        ensures
            final(self)@ == old(self)@.reset(),
            final(self)@.regs.a == 0,
            final(self)@.regs.x == 0,
            final(self)@.regs.y == 0,
            final(self)@.regs.sp == 0xFD,
            final(self)@.regs.p.bits() == 0x24,
            final(self)@.pc == old(self)@.bus.read_word(0xFFFC),
            final(self)@.pc == word_of(
                old(self)@.bus.peek_or_zero(0xFFFC),
                old(self)@.bus.peek_or_zero(0xFFFD),
            ),
            final(self)@.wf(),
    {
        proof {
            crate::bus::lemma_prg_word_is_two_bytes(self.bus@, 0xFFFC);
        }
        self.program_counter.set(self.bus.read_word(0xFFFC));
        self.accumulator.set(0);
        self.register_x.set(0);
        self.register_y.set(0);
        self.status.reset();
        self.stack.reset();
        self.bus.tick(7);
    }

    /// Resets the CPU; another name for `reset_interrupt`.
    pub fn reset(&mut self)
        requires
            old(self)@.wf(),
        ensures
            final(self)@ == old(self)@.reset(),
            final(self)@.wf(),
    {
        self.reset_interrupt();
    }

    pub fn adc(&mut self, instruction: &Instruction) -> (executed: Result<u8, EmulatorError>)
        requires
            old(self)@.wf(),
            instruction.cycles <= MAX_BASE_CYCLES,
            instruction.mode.has_address(),
        ensures
            (final(self)@, executed) == old(self)@.exec_read(
                OpCode::ADC,
                instruction.mode,
                instruction.cycles,
            ),
            final(self)@.wf(),
    {
        proof {
            reveal(CpuState::exec_read);
        }
        let (page_crossed, value) = self.get_value(&instruction.mode)?;
        self.adc_operation(value);
        Ok(penalty(instruction.cycles, page_crossed))
    }

    /// A, C, V, Z, N = A + M + C; SBC and its kin use it with the inverted
    /// operand.
    pub fn adc_operation(&mut self, value: u8)
        ensures
            final(self)@ == old(self)@.with_regs(old(self)@.regs.adc(value)),
    {
        let (partial, no_borrow_add_carry) = self.accumulator.add(value);
        let carry = self.status.get_carry_flag();
        let wide: u16 = partial as u16 + carry as u16;
        let result: u8 = (wide % 256) as u8;
        let borrow_add_carry = wide > 255;
        proof {
            lemma_overflow_bit(self.accumulator@, value, result);
        }
        self.status.set_carry_flag_to(borrow_add_carry || no_borrow_add_carry);
        self.status.set_overflow_flag_to(
            (value ^ result) & (result ^ self.accumulator.get()) & 0x80 != 0,
        );
        self.status.set_zero_flag(result);
        self.status.set_negative_flag(result);
        self.accumulator.set(result);
    }

    pub fn and(&mut self, instruction: &Instruction) -> (executed: Result<u8, EmulatorError>)
        requires
            old(self)@.wf(),
            instruction.cycles <= MAX_BASE_CYCLES,
            instruction.mode.has_address(),
        ensures
            (final(self)@, executed) == old(self)@.exec_read(
                OpCode::AND,
                instruction.mode,
                instruction.cycles,
            ),
            final(self)@.wf(),
    {
        proof {
            reveal(CpuState::exec_read);
        }
        let (page_crossed, value) = self.get_value(&instruction.mode)?;
        let value = self.accumulator.get() & value;
        self.accumulator.set(value);
        self.status.set_zero_flag(value);
        self.status.set_negative_flag(value);
        Ok(penalty(instruction.cycles, page_crossed))
    }

    pub fn asl(&mut self, instruction: &Instruction) -> (executed: Result<u8, EmulatorError>)
        requires
            old(self)@.wf(),
            instruction.cycles <= MAX_BASE_CYCLES,
            instruction.mode != AddressingMode::Implied,
        ensures
            (final(self)@, executed) == old(self)@.exec_modify(
                OpCode::ASL,
                instruction.mode,
                instruction.cycles,
            ),
            final(self)@.wf(),
    {
        proof {
            reveal(CpuState::exec_modify);
        }
        let carry = self.status.get_carry_flag();
        let (old_value, shifted_value) = match instruction.mode {
            AddressingMode::Accumulator => {
                let old_value = self.accumulator.get();
                let shifted_value = shift_left(old_value, 0);
                self.accumulator.set(shifted_value);
                (old_value, shifted_value)
            },
            _ => {
                let (_, old_value_address) = self.read_operand_address(&instruction.mode)?;
                let old_value = self.bus.read_byte(old_value_address)?;
                let shifted_value = shift_left(old_value, 0);
                self.bus.write_byte(old_value_address, shifted_value)?;
                (old_value, shifted_value)
            },
        };
        self.status.set_carry_flag_to(old_value >= 128);
        self.status.set_zero_flag(shifted_value);
        self.status.set_negative_flag(shifted_value);
        Ok(instruction.cycles)
    }

    pub fn bcc(&mut self, instruction: &Instruction) -> (executed: Result<u8, EmulatorError>)
        requires
            old(self)@.wf(),
            instruction.cycles <= MAX_BASE_CYCLES,
            instruction.mode.has_address(),
        ensures
            (final(self)@, executed) == old(self)@.exec_branch(
                OpCode::BCC,
                instruction.mode,
                instruction.cycles,
            ),
            final(self)@.wf(),
    {
        proof {
            reveal(CpuState::exec_branch);
        }
        let (_, offset) = self.get_value(&instruction.mode)?;
        if !self.status.is_carry_flag_set() {
            let page_crossed = self.program_counter.move_with_offset(offset);
            if page_crossed {
                Ok(instruction.cycles + 2)
            } else {
                Ok(instruction.cycles + 1)
            }
        } else {
            Ok(instruction.cycles)
        }
    }

    pub fn bcs(&mut self, instruction: &Instruction) -> (executed: Result<u8, EmulatorError>)
        requires
            old(self)@.wf(),
            instruction.cycles <= MAX_BASE_CYCLES,
            instruction.mode.has_address(),
        ensures
            (final(self)@, executed) == old(self)@.exec_branch(
                OpCode::BCS,
                instruction.mode,
                instruction.cycles,
            ),
            final(self)@.wf(),
    {
        proof {
            reveal(CpuState::exec_branch);
        }
        let (_, offset) = self.get_value(&instruction.mode)?;
        if self.status.is_carry_flag_set() {
            let page_crossed = self.program_counter.move_with_offset(offset);
            if page_crossed {
                Ok(instruction.cycles + 2)
            } else {
                Ok(instruction.cycles + 1)
            }
        } else {
            Ok(instruction.cycles)
        }
    }

    pub fn beq(&mut self, instruction: &Instruction) -> (executed: Result<u8, EmulatorError>)
        requires
            old(self)@.wf(),
            instruction.cycles <= MAX_BASE_CYCLES,
            instruction.mode.has_address(),
        ensures
            (final(self)@, executed) == old(self)@.exec_branch(
                OpCode::BEQ,
                instruction.mode,
                instruction.cycles,
            ),
            final(self)@.wf(),
    {
        proof {
            reveal(CpuState::exec_branch);
        }
        let (_, offset) = self.get_value(&instruction.mode)?;
        if self.status.is_zero_flag_set() {
            let page_crossed = self.program_counter.move_with_offset(offset);
            if page_crossed {
                Ok(instruction.cycles + 2)
            } else {
                Ok(instruction.cycles + 1)
            }
        } else {
            Ok(instruction.cycles)
        }
    }

    pub fn bit(&mut self, instruction: &Instruction) -> (executed: Result<u8, EmulatorError>)
        requires
            old(self)@.wf(),
            instruction.cycles <= MAX_BASE_CYCLES,
            instruction.mode.has_address(),
        ensures
            (final(self)@, executed) == old(self)@.exec_read(
                OpCode::BIT,
                instruction.mode,
                instruction.cycles,
            ),
            final(self)@.wf(),
    {
        proof {
            reveal(CpuState::exec_read);
        }
        let (page_crossed, value) = self.get_value(&instruction.mode)?;
        self.status.set_zero_flag(self.accumulator.get() & value);
        self.status.set_negative_flag(value);
        self.status.set_overflow_flag_to(test_bit(value, 6));
        Ok(penalty(instruction.cycles, page_crossed))
    }

    pub fn bmi(&mut self, instruction: &Instruction) -> (executed: Result<u8, EmulatorError>)
        requires
            old(self)@.wf(),
            instruction.cycles <= MAX_BASE_CYCLES,
            instruction.mode.has_address(),
        ensures
            (final(self)@, executed) == old(self)@.exec_branch(
                OpCode::BMI,
                instruction.mode,
                instruction.cycles,
            ),
            final(self)@.wf(),
    {
        proof {
            reveal(CpuState::exec_branch);
        }
        let (_, offset) = self.get_value(&instruction.mode)?;
        if self.status.is_negative_flag_set() {
            let page_crossed = self.program_counter.move_with_offset(offset);
            if page_crossed {
                Ok(instruction.cycles + 2)
            } else {
                Ok(instruction.cycles + 1)
            }
        } else {
            Ok(instruction.cycles)
        }
    }

    pub fn bne(&mut self, instruction: &Instruction) -> (executed: Result<u8, EmulatorError>)
        requires
            old(self)@.wf(),
            instruction.cycles <= MAX_BASE_CYCLES,
            instruction.mode.has_address(),
        ensures
            (final(self)@, executed) == old(self)@.exec_branch(
                OpCode::BNE,
                instruction.mode,
                instruction.cycles,
            ),
            final(self)@.wf(),
    {
        proof {
            reveal(CpuState::exec_branch);
        }
        let (_, offset) = self.get_value(&instruction.mode)?;
        if !self.status.is_zero_flag_set() {
            let page_crossed = self.program_counter.move_with_offset(offset);
            if page_crossed {
                Ok(instruction.cycles + 2)
            } else {
                Ok(instruction.cycles + 1)
            }
        } else {
            Ok(instruction.cycles)
        }
    }

    pub fn bpl(&mut self, instruction: &Instruction) -> (executed: Result<u8, EmulatorError>)
        requires
            old(self)@.wf(),
            instruction.cycles <= MAX_BASE_CYCLES,
            instruction.mode.has_address(),
        ensures
            (final(self)@, executed) == old(self)@.exec_branch(
                OpCode::BPL,
                instruction.mode,
                instruction.cycles,
            ),
            final(self)@.wf(),
    {
        proof {
            reveal(CpuState::exec_branch);
        }
        let (_, offset) = self.get_value(&instruction.mode)?;
        if !self.status.is_negative_flag_set() {
            let page_crossed = self.program_counter.move_with_offset(offset);
            if page_crossed {
                Ok(instruction.cycles + 2)
            } else {
                Ok(instruction.cycles + 1)
            }
        } else {
            Ok(instruction.cycles)
        }
    }

    pub fn brk(&mut self, instruction: &Instruction) -> (executed: Result<u8, EmulatorError>)
        requires
            old(self)@.wf(),
            instruction.cycles <= MAX_BASE_CYCLES,
        ensures
            (final(self)@, executed) == old(self)@.exec_brk(instruction.cycles),
            final(self)@.wf(),
    {
        self.stack.push(self.program_counter.get(), &mut self.bus);
        self.stack.push(self.status.get() + 16, &mut self.bus);
        self.program_counter.set(self.bus.read_word(0xFFFE));
        self.status.set_interrupt_disable_flag_to(true);
        Ok(instruction.cycles)
    }

    pub fn bvc(&mut self, instruction: &Instruction) -> (executed: Result<u8, EmulatorError>)
        requires
            old(self)@.wf(),
            instruction.cycles <= MAX_BASE_CYCLES,
            instruction.mode.has_address(),
        ensures
            (final(self)@, executed) == old(self)@.exec_branch(
                OpCode::BVC,
                instruction.mode,
                instruction.cycles,
            ),
            final(self)@.wf(),
    {
        proof {
            reveal(CpuState::exec_branch);
        }
        let (_, offset) = self.get_value(&instruction.mode)?;
        if !self.status.is_overflow_flag_set() {
            let page_crossed = self.program_counter.move_with_offset(offset);
            if page_crossed {
                Ok(instruction.cycles + 2)
            } else {
                Ok(instruction.cycles + 1)
            }
        } else {
            Ok(instruction.cycles)
        }
    }

    pub fn bvs(&mut self, instruction: &Instruction) -> (executed: Result<u8, EmulatorError>)
        requires
            old(self)@.wf(),
            instruction.cycles <= MAX_BASE_CYCLES,
            instruction.mode.has_address(),
        ensures
            (final(self)@, executed) == old(self)@.exec_branch(
                OpCode::BVS,
                instruction.mode,
                instruction.cycles,
            ),
            final(self)@.wf(),
    {
        proof {
            reveal(CpuState::exec_branch);
        }
        let (_, offset) = self.get_value(&instruction.mode)?;
        if self.status.is_overflow_flag_set() {
            let page_crossed = self.program_counter.move_with_offset(offset);
            if page_crossed {
                Ok(instruction.cycles + 2)
            } else {
                Ok(instruction.cycles + 1)
            }
        } else {
            Ok(instruction.cycles)
        }
    }

    pub fn clc(&mut self, instruction: &Instruction) -> (executed: Result<u8, EmulatorError>)
        requires
            old(self)@.wf(),
            instruction.cycles <= MAX_BASE_CYCLES,
        ensures
            (final(self)@, executed) == old(self)@.exec_implied(OpCode::CLC, instruction.cycles),
            final(self)@.wf(),
    {
        self.status.set_carry_flag_to(false);
        Ok(instruction.cycles)
    }

    pub fn cld(&mut self, instruction: &Instruction) -> (executed: Result<u8, EmulatorError>)
        requires
            old(self)@.wf(),
            instruction.cycles <= MAX_BASE_CYCLES,
        ensures
            (final(self)@, executed) == old(self)@.exec_implied(OpCode::CLD, instruction.cycles),
            final(self)@.wf(),
    {
        self.status.set_decimal_mode_flag_to(false);
        Ok(instruction.cycles)
    }

    pub fn cli(&mut self, instruction: &Instruction) -> (executed: Result<u8, EmulatorError>)
        requires
            old(self)@.wf(),
            instruction.cycles <= MAX_BASE_CYCLES,
        ensures
            (final(self)@, executed) == old(self)@.exec_implied(OpCode::CLI, instruction.cycles),
            final(self)@.wf(),
    {
        self.status.set_interrupt_disable_flag_to(false);
        Ok(instruction.cycles)
    }

    pub fn clv(&mut self, instruction: &Instruction) -> (executed: Result<u8, EmulatorError>)
        requires
            old(self)@.wf(),
            instruction.cycles <= MAX_BASE_CYCLES,
        ensures
            (final(self)@, executed) == old(self)@.exec_implied(OpCode::CLV, instruction.cycles),
            final(self)@.wf(),
    {
        self.status.set_overflow_flag_to(false);
        Ok(instruction.cycles)
    }

    pub fn cmp(&mut self, instruction: &Instruction) -> (executed: Result<u8, EmulatorError>)
        requires
            old(self)@.wf(),
            instruction.cycles <= MAX_BASE_CYCLES,
            instruction.mode.has_address(),
        ensures
            (final(self)@, executed) == old(self)@.exec_read(
                OpCode::CMP,
                instruction.mode,
                instruction.cycles,
            ),
            final(self)@.wf(),
    {
        proof {
            reveal(CpuState::exec_read);
        }
        let (page_crossed, value) = self.get_value(&instruction.mode)?;
        let result = self.accumulator.sub(value);
        self.status.set_carry_flag_to(self.accumulator.get() >= value);
        self.status.set_zero_flag(result);
        self.status.set_negative_flag(result);
        Ok(penalty(instruction.cycles, page_crossed))
    }

    pub fn cpx(&mut self, instruction: &Instruction) -> (executed: Result<u8, EmulatorError>)
        requires
            old(self)@.wf(),
            instruction.cycles <= MAX_BASE_CYCLES,
            instruction.mode.has_address(),
        ensures
            (final(self)@, executed) == old(self)@.exec_read(
                OpCode::CPX,
                instruction.mode,
                instruction.cycles,
            ),
            final(self)@.wf(),
    {
        proof {
            reveal(CpuState::exec_read);
        }
        let (page_crossed, value) = self.get_value(&instruction.mode)?;
        let result = self.register_x.sub(value);
        self.status.set_carry_flag_to(self.register_x.get() >= value);
        self.status.set_zero_flag(result);
        self.status.set_negative_flag(result);
        Ok(penalty(instruction.cycles, page_crossed))
    }

    pub fn cpy(&mut self, instruction: &Instruction) -> (executed: Result<u8, EmulatorError>)
        requires
            old(self)@.wf(),
            instruction.cycles <= MAX_BASE_CYCLES,
            instruction.mode.has_address(),
        ensures
            (final(self)@, executed) == old(self)@.exec_read(
                OpCode::CPY,
                instruction.mode,
                instruction.cycles,
            ),
            final(self)@.wf(),
    {
        proof {
            reveal(CpuState::exec_read);
        }
        let (page_crossed, value) = self.get_value(&instruction.mode)?;
        let result = self.register_y.sub(value);
        self.status.set_carry_flag_to(self.register_y.get() >= value);
        self.status.set_zero_flag(result);
        self.status.set_negative_flag(result);
        Ok(penalty(instruction.cycles, page_crossed))
    }

    pub fn dec(&mut self, instruction: &Instruction) -> (executed: Result<u8, EmulatorError>)
        requires
            old(self)@.wf(),
            instruction.cycles <= MAX_BASE_CYCLES,
            instruction.mode.has_address(),
        ensures
            (final(self)@, executed) == old(self)@.exec_modify(
                OpCode::DEC,
                instruction.mode,
                instruction.cycles,
            ),
            final(self)@.wf(),
    {
        proof {
            reveal(CpuState::exec_modify);
        }
        let (_, address) = self.read_operand_address(&instruction.mode)?;
        let fetched = self.bus.read_byte(address)?;
        let carry = self.status.get_carry_flag();
        let value = sub_byte(fetched, 1);
        self.bus.write_byte(address, value)?;
        self.status.set_zero_flag(value);
        self.status.set_negative_flag(value);
        Ok(instruction.cycles)
    }

    pub fn dex(&mut self, instruction: &Instruction) -> (executed: Result<u8, EmulatorError>)
        requires
            old(self)@.wf(),
            instruction.cycles <= MAX_BASE_CYCLES,
        ensures
            (final(self)@, executed) == old(self)@.exec_implied(OpCode::DEX, instruction.cycles),
            final(self)@.wf(),
    {
        self.register_x.dec();
        self.status.set_zero_flag(self.register_x.get());
        self.status.set_negative_flag(self.register_x.get());
        Ok(instruction.cycles)
    }

    pub fn dey(&mut self, instruction: &Instruction) -> (executed: Result<u8, EmulatorError>)
        requires
            old(self)@.wf(),
            instruction.cycles <= MAX_BASE_CYCLES,
        ensures
            (final(self)@, executed) == old(self)@.exec_implied(OpCode::DEY, instruction.cycles),
            final(self)@.wf(),
    {
        self.register_y.dec();
        self.status.set_zero_flag(self.register_y.get());
        self.status.set_negative_flag(self.register_y.get());
        Ok(instruction.cycles)
    }

    pub fn eor(&mut self, instruction: &Instruction) -> (executed: Result<u8, EmulatorError>)
        requires
            old(self)@.wf(),
            instruction.cycles <= MAX_BASE_CYCLES,
            instruction.mode.has_address(),
        ensures
            (final(self)@, executed) == old(self)@.exec_read(
                OpCode::EOR,
                instruction.mode,
                instruction.cycles,
            ),
            final(self)@.wf(),
    {
        proof {
            reveal(CpuState::exec_read);
        }
        let (page_crossed, value) = self.get_value(&instruction.mode)?;
        let value = self.accumulator.get() ^ value;
        self.accumulator.set(value);
        self.status.set_zero_flag(value);
        self.status.set_negative_flag(value);
        Ok(penalty(instruction.cycles, page_crossed))
    }

    pub fn inc(&mut self, instruction: &Instruction) -> (executed: Result<u8, EmulatorError>)
        requires
            old(self)@.wf(),
            instruction.cycles <= MAX_BASE_CYCLES,
            instruction.mode.has_address(),
        ensures
            (final(self)@, executed) == old(self)@.exec_modify(
                OpCode::INC,
                instruction.mode,
                instruction.cycles,
            ),
            final(self)@.wf(),
    {
        proof {
            reveal(CpuState::exec_modify);
        }
        let (_, address) = self.read_operand_address(&instruction.mode)?;
        let fetched = self.bus.read_byte(address)?;
        let carry = self.status.get_carry_flag();
        let value = add_byte(fetched, 1);
        self.bus.write_byte(address, value)?;
        self.status.set_zero_flag(value);
        self.status.set_negative_flag(value);
        Ok(instruction.cycles)
    }

    pub fn inx(&mut self, instruction: &Instruction) -> (executed: Result<u8, EmulatorError>)
        requires
            old(self)@.wf(),
            instruction.cycles <= MAX_BASE_CYCLES,
        ensures
            (final(self)@, executed) == old(self)@.exec_implied(OpCode::INX, instruction.cycles),
            final(self)@.wf(),
    {
        let value = self.register_x.inc();
        self.status.set_zero_flag(value);
        self.status.set_negative_flag(value);
        Ok(instruction.cycles)
    }

    pub fn iny(&mut self, instruction: &Instruction) -> (executed: Result<u8, EmulatorError>)
        requires
            old(self)@.wf(),
            instruction.cycles <= MAX_BASE_CYCLES,
        ensures
            (final(self)@, executed) == old(self)@.exec_implied(OpCode::INY, instruction.cycles),
            final(self)@.wf(),
    {
        let value = self.register_y.inc();
        self.status.set_zero_flag(value);
        self.status.set_negative_flag(value);
        Ok(instruction.cycles)
    }

    pub fn jmp(&mut self, instruction: &Instruction) -> (executed: Result<u8, EmulatorError>)
        requires
            old(self)@.wf(),
            instruction.cycles <= MAX_BASE_CYCLES,
            instruction.mode.has_address(),
        ensures
            (final(self)@, executed) == old(self)@.exec_jmp(instruction.mode, instruction.cycles),
            final(self)@.wf(),
    {
        let (_, address) = self.read_operand_address(&instruction.mode)?;
        self.program_counter.set(address);
        Ok(instruction.cycles)
    }

    pub fn jsr(&mut self, instruction: &Instruction) -> (executed: Result<u8, EmulatorError>)
        requires
            old(self)@.wf(),
            instruction.cycles <= MAX_BASE_CYCLES,
            instruction.mode.has_address(),
        ensures
            (final(self)@, executed) == old(self)@.exec_jsr(instruction.mode, instruction.cycles),
            final(self)@.wf(),
    {
        let (_, address) = self.read_operand_address(&instruction.mode)?;
        self.stack.push(self.program_counter.get().wrapping_sub(1), &mut self.bus);
        self.program_counter.set(address);
        Ok(instruction.cycles)
    }

    pub fn lda(&mut self, instruction: &Instruction) -> (executed: Result<u8, EmulatorError>)
        requires
            old(self)@.wf(),
            instruction.cycles <= MAX_BASE_CYCLES,
            instruction.mode.has_address(),
        ensures
            (final(self)@, executed) == old(self)@.exec_read(
                OpCode::LDA,
                instruction.mode,
                instruction.cycles,
            ),
            final(self)@.wf(),
    {
        proof {
            reveal(CpuState::exec_read);
        }
        let (page_crossed, value) = self.get_value(&instruction.mode)?;
        self.accumulator.set(value);
        self.status.set_zero_flag(value);
        self.status.set_negative_flag(value);
        Ok(penalty(instruction.cycles, page_crossed))
    }

    pub fn ldx(&mut self, instruction: &Instruction) -> (executed: Result<u8, EmulatorError>)
        requires
            old(self)@.wf(),
            instruction.cycles <= MAX_BASE_CYCLES,
            instruction.mode.has_address(),
        ensures
            (final(self)@, executed) == old(self)@.exec_read(
                OpCode::LDX,
                instruction.mode,
                instruction.cycles,
            ),
            final(self)@.wf(),
    {
        proof {
            reveal(CpuState::exec_read);
        }
        let (page_crossed, value) = self.get_value(&instruction.mode)?;
        self.register_x.set(value);
        self.status.set_zero_flag(value);
        self.status.set_negative_flag(value);
        Ok(penalty(instruction.cycles, page_crossed))
    }

    pub fn ldy(&mut self, instruction: &Instruction) -> (executed: Result<u8, EmulatorError>)
        requires
            old(self)@.wf(),
            instruction.cycles <= MAX_BASE_CYCLES,
            instruction.mode.has_address(),
        ensures
            (final(self)@, executed) == old(self)@.exec_read(
                OpCode::LDY,
                instruction.mode,
                instruction.cycles,
            ),
            final(self)@.wf(),
    {
        proof {
            reveal(CpuState::exec_read);
        }
        let (page_crossed, value) = self.get_value(&instruction.mode)?;
        self.register_y.set(value);
        self.status.set_zero_flag(value);
        self.status.set_negative_flag(value);
        Ok(penalty(instruction.cycles, page_crossed))
    }

    pub fn lsr(&mut self, instruction: &Instruction) -> (executed: Result<u8, EmulatorError>)
        requires
            old(self)@.wf(),
            instruction.cycles <= MAX_BASE_CYCLES,
            instruction.mode != AddressingMode::Implied,
        ensures
            (final(self)@, executed) == old(self)@.exec_modify(
                OpCode::LSR,
                instruction.mode,
                instruction.cycles,
            ),
            final(self)@.wf(),
    {
        proof {
            reveal(CpuState::exec_modify);
        }
        let carry = self.status.get_carry_flag();
        let (old_value, shifted_value) = match instruction.mode {
            AddressingMode::Accumulator => {
                let old_value = self.accumulator.get();
                let shifted_value = old_value / 2;
                self.accumulator.set(shifted_value);
                (old_value, shifted_value)
            },
            _ => {
                let (_, old_value_address) = self.read_operand_address(&instruction.mode)?;
                let old_value = self.bus.read_byte(old_value_address)?;
                let shifted_value = old_value / 2;
                self.bus.write_byte(old_value_address, shifted_value)?;
                (old_value, shifted_value)
            },
        };
        self.status.set_carry_flag_to(old_value % 2 == 1);
        self.status.set_zero_flag(shifted_value);
        self.status.set_negative_flag(0);
        Ok(instruction.cycles)
    }

    pub fn nop(&mut self, instruction: &Instruction) -> (executed: Result<u8, EmulatorError>)
        requires
            old(self)@.wf(),
            instruction.cycles <= MAX_BASE_CYCLES,
        ensures
            (final(self)@, executed) == old(self)@.exec_skip(instruction.mode, instruction.cycles),
            final(self)@.wf(),
    {
        proof {
            reveal(CpuState::exec_skip);
        }
        match instruction.mode {
            AddressingMode::Implied | AddressingMode::Accumulator => Ok(instruction.cycles),
            _ => {
                let (page_crossed, _) = self.read_operand_address(&instruction.mode)?;
                Ok(penalty(instruction.cycles, page_crossed))
            },
        }
    }

    pub fn ora(&mut self, instruction: &Instruction) -> (executed: Result<u8, EmulatorError>)
        requires
            old(self)@.wf(),
            instruction.cycles <= MAX_BASE_CYCLES,
            instruction.mode.has_address(),
        ensures
            (final(self)@, executed) == old(self)@.exec_read(
                OpCode::ORA,
                instruction.mode,
                instruction.cycles,
            ),
            final(self)@.wf(),
    {
        proof {
            reveal(CpuState::exec_read);
        }
        let (page_crossed, value) = self.get_value(&instruction.mode)?;
        let value = self.accumulator.get() | value;
        self.accumulator.set(value);
        self.status.set_zero_flag(value);
        self.status.set_negative_flag(value);
        Ok(penalty(instruction.cycles, page_crossed))
    }

    pub fn pha(&mut self, instruction: &Instruction) -> (executed: Result<u8, EmulatorError>)
        requires
            old(self)@.wf(),
            instruction.cycles <= MAX_BASE_CYCLES,
        ensures
            (final(self)@, executed) == old(self)@.exec_pha(instruction.cycles),
            final(self)@.wf(),
    {
        self.stack.push(self.accumulator.get(), &mut self.bus);
        Ok(instruction.cycles)
    }

    pub fn php(&mut self, instruction: &Instruction) -> (executed: Result<u8, EmulatorError>)
        requires
            old(self)@.wf(),
            instruction.cycles <= MAX_BASE_CYCLES,
        ensures
            (final(self)@, executed) == old(self)@.exec_php(instruction.cycles),
            final(self)@.wf(),
    {
        let status = self.status.get() + 16;
        self.stack.push(status, &mut self.bus);
        Ok(instruction.cycles)
    }

    pub fn pla(&mut self, instruction: &Instruction) -> (executed: Result<u8, EmulatorError>)
        requires
            old(self)@.wf(),
            instruction.cycles <= MAX_BASE_CYCLES,
        ensures
            (final(self)@, executed) == old(self)@.exec_pla(instruction.cycles),
            final(self)@.wf(),
    {
        let value: u8 = self.stack.pull(&mut self.bus);
        self.accumulator.set(value);
        self.status.set_zero_flag(value);
        self.status.set_negative_flag(value);
        Ok(instruction.cycles)
    }

    pub fn plp(&mut self, instruction: &Instruction) -> (executed: Result<u8, EmulatorError>)
        requires
            old(self)@.wf(),
            instruction.cycles <= MAX_BASE_CYCLES,
        ensures
            (final(self)@, executed) == old(self)@.exec_plp(instruction.cycles),
            final(self)@.wf(),
    {
        let value: u8 = self.stack.pull(&mut self.bus);
        self.status.update(value);
        Ok(instruction.cycles)
    }

    pub fn rol(&mut self, instruction: &Instruction) -> (executed: Result<u8, EmulatorError>)
        requires
            old(self)@.wf(),
            instruction.cycles <= MAX_BASE_CYCLES,
            instruction.mode != AddressingMode::Implied,
        ensures
            (final(self)@, executed) == old(self)@.exec_modify(
                OpCode::ROL,
                instruction.mode,
                instruction.cycles,
            ),
            final(self)@.wf(),
    {
        proof {
            reveal(CpuState::exec_modify);
        }
        let carry = self.status.get_carry_flag();
        let (old_value, shifted_value) = match instruction.mode {
            AddressingMode::Accumulator => {
                let old_value = self.accumulator.get();
                let shifted_value = shift_left(old_value, carry);
                self.accumulator.set(shifted_value);
                (old_value, shifted_value)
            },
            _ => {
                let (_, old_value_address) = self.read_operand_address(&instruction.mode)?;
                let old_value = self.bus.read_byte(old_value_address)?;
                let shifted_value = shift_left(old_value, carry);
                self.bus.write_byte(old_value_address, shifted_value)?;
                (old_value, shifted_value)
            },
        };
        self.status.set_carry_flag_to(old_value >= 128);
        self.status.set_zero_flag(shifted_value);
        self.status.set_negative_flag(shifted_value);
        Ok(instruction.cycles)
    }

    pub fn ror(&mut self, instruction: &Instruction) -> (executed: Result<u8, EmulatorError>)
        requires
            old(self)@.wf(),
            instruction.cycles <= MAX_BASE_CYCLES,
            instruction.mode != AddressingMode::Implied,
        ensures
            (final(self)@, executed) == old(self)@.exec_modify(
                OpCode::ROR,
                instruction.mode,
                instruction.cycles,
            ),
            final(self)@.wf(),
    {
        proof {
            reveal(CpuState::exec_modify);
        }
        let carry = self.status.get_carry_flag();
        let (old_value, shifted_value) = match instruction.mode {
            AddressingMode::Accumulator => {
                let old_value = self.accumulator.get();
                let shifted_value = shift_right(old_value, carry);
                self.accumulator.set(shifted_value);
                (old_value, shifted_value)
            },
            _ => {
                let (_, old_value_address) = self.read_operand_address(&instruction.mode)?;
                let old_value = self.bus.read_byte(old_value_address)?;
                let shifted_value = shift_right(old_value, carry);
                self.bus.write_byte(old_value_address, shifted_value)?;
                (old_value, shifted_value)
            },
        };
        self.status.set_carry_flag_to(old_value % 2 == 1);
        self.status.set_zero_flag(shifted_value);
        self.status.set_negative_flag(shifted_value);
        Ok(instruction.cycles)
    }

    pub fn rti(&mut self, instruction: &Instruction) -> (executed: Result<u8, EmulatorError>)
        requires
            old(self)@.wf(),
            instruction.cycles <= MAX_BASE_CYCLES,
        ensures
            (final(self)@, executed) == old(self)@.exec_rti(instruction.cycles),
            final(self)@.wf(),
    {
        let status: u8 = self.stack.pull(&mut self.bus);
        let program_counter: u16 = self.stack.pull(&mut self.bus);
        self.status.update(status);
        self.program_counter.set(program_counter);
        Ok(instruction.cycles)
    }

    pub fn rts(&mut self, instruction: &Instruction) -> (executed: Result<u8, EmulatorError>)
        requires
            old(self)@.wf(),
            instruction.cycles <= MAX_BASE_CYCLES,
        ensures
            (final(self)@, executed) == old(self)@.exec_rts(instruction.cycles),
            final(self)@.wf(),
    {
        let program_counter: u16 = self.stack.pull(&mut self.bus);
        self.program_counter.set(program_counter.wrapping_add(1));
        Ok(instruction.cycles)
    }

    pub fn sbc(&mut self, instruction: &Instruction) -> (executed: Result<u8, EmulatorError>)
        requires
            old(self)@.wf(),
            instruction.cycles <= MAX_BASE_CYCLES,
            instruction.mode.has_address(),
        ensures
            (final(self)@, executed) == old(self)@.exec_read(
                OpCode::SBC,
                instruction.mode,
                instruction.cycles,
            ),
            final(self)@.wf(),
    {
        proof {
            reveal(CpuState::exec_read);
        }
        let (page_crossed, value) = self.get_value(&instruction.mode)?;
        self.adc_operation(255 - value);
        Ok(penalty(instruction.cycles, page_crossed))
    }

    pub fn sec(&mut self, instruction: &Instruction) -> (executed: Result<u8, EmulatorError>)
        requires
            old(self)@.wf(),
            instruction.cycles <= MAX_BASE_CYCLES,
        ensures
            (final(self)@, executed) == old(self)@.exec_implied(OpCode::SEC, instruction.cycles),
            final(self)@.wf(),
    {
        self.status.set_carry_flag_to(true);
        Ok(instruction.cycles)
    }

    pub fn sed(&mut self, instruction: &Instruction) -> (executed: Result<u8, EmulatorError>)
        requires
            old(self)@.wf(),
            instruction.cycles <= MAX_BASE_CYCLES,
        ensures
            (final(self)@, executed) == old(self)@.exec_implied(OpCode::SED, instruction.cycles),
            final(self)@.wf(),
    {
        self.status.set_decimal_mode_flag_to(true);
        Ok(instruction.cycles)
    }

    pub fn sei(&mut self, instruction: &Instruction) -> (executed: Result<u8, EmulatorError>)
        requires
            old(self)@.wf(),
            instruction.cycles <= MAX_BASE_CYCLES,
        ensures
            (final(self)@, executed) == old(self)@.exec_implied(OpCode::SEI, instruction.cycles),
            final(self)@.wf(),
    {
        self.status.set_interrupt_disable_flag_to(true);
        Ok(instruction.cycles)
    }

    pub fn sta(&mut self, instruction: &Instruction) -> (executed: Result<u8, EmulatorError>)
        requires
            old(self)@.wf(),
            instruction.cycles <= MAX_BASE_CYCLES,
            instruction.mode.has_address(),
        ensures
            (final(self)@, executed) == old(self)@.exec_store(
                OpCode::STA,
                instruction.mode,
                instruction.cycles,
            ),
            final(self)@.wf(),
    {
        proof {
            reveal(CpuState::exec_store);
        }
        let (_, address) = self.read_operand_address(&instruction.mode)?;
        self.bus.write_byte(address, self.accumulator.get())?;
        Ok(instruction.cycles)
    }

    pub fn stx(&mut self, instruction: &Instruction) -> (executed: Result<u8, EmulatorError>)
        requires
            old(self)@.wf(),
            instruction.cycles <= MAX_BASE_CYCLES,
            instruction.mode.has_address(),
        ensures
            (final(self)@, executed) == old(self)@.exec_store(
                OpCode::STX,
                instruction.mode,
                instruction.cycles,
            ),
            final(self)@.wf(),
    {
        proof {
            reveal(CpuState::exec_store);
        }
        let (_, address) = self.read_operand_address(&instruction.mode)?;
        self.bus.write_byte(address, self.register_x.get())?;
        Ok(instruction.cycles)
    }

    pub fn sty(&mut self, instruction: &Instruction) -> (executed: Result<u8, EmulatorError>)
        requires
            old(self)@.wf(),
            instruction.cycles <= MAX_BASE_CYCLES,
            instruction.mode.has_address(),
        ensures
            (final(self)@, executed) == old(self)@.exec_store(
                OpCode::STY,
                instruction.mode,
                instruction.cycles,
            ),
            final(self)@.wf(),
    {
        proof {
            reveal(CpuState::exec_store);
        }
        let (_, address) = self.read_operand_address(&instruction.mode)?;
        self.bus.write_byte(address, self.register_y.get())?;
        Ok(instruction.cycles)
    }

    pub fn tax(&mut self, instruction: &Instruction) -> (executed: Result<u8, EmulatorError>)
        requires
            old(self)@.wf(),
            instruction.cycles <= MAX_BASE_CYCLES,
        ensures
            (final(self)@, executed) == old(self)@.exec_implied(OpCode::TAX, instruction.cycles),
            final(self)@.wf(),
    {
        self.register_x.set(self.accumulator.get());
        self.status.set_zero_flag(self.register_x.get());
        self.status.set_negative_flag(self.register_x.get());
        Ok(instruction.cycles)
    }

    pub fn tay(&mut self, instruction: &Instruction) -> (executed: Result<u8, EmulatorError>)
        requires
            old(self)@.wf(),
            instruction.cycles <= MAX_BASE_CYCLES,
        ensures
            (final(self)@, executed) == old(self)@.exec_implied(OpCode::TAY, instruction.cycles),
            final(self)@.wf(),
    {
        self.register_y.set(self.accumulator.get());
        self.status.set_zero_flag(self.register_y.get());
        self.status.set_negative_flag(self.register_y.get());
        Ok(instruction.cycles)
    }

    pub fn tsx(&mut self, instruction: &Instruction) -> (executed: Result<u8, EmulatorError>)
        requires
            old(self)@.wf(),
            instruction.cycles <= MAX_BASE_CYCLES,
        ensures
            (final(self)@, executed) == old(self)@.exec_implied(OpCode::TSX, instruction.cycles),
            final(self)@.wf(),
    {
        self.register_x.set(self.stack.get_pointer());
        self.status.set_zero_flag(self.register_x.get());
        self.status.set_negative_flag(self.register_x.get());
        Ok(instruction.cycles)
    }

    pub fn txa(&mut self, instruction: &Instruction) -> (executed: Result<u8, EmulatorError>)
        requires
            old(self)@.wf(),
            instruction.cycles <= MAX_BASE_CYCLES,
        ensures
            (final(self)@, executed) == old(self)@.exec_implied(OpCode::TXA, instruction.cycles),
            final(self)@.wf(),
    {
        self.accumulator.set(self.register_x.get());
        self.status.set_zero_flag(self.accumulator.get());
        self.status.set_negative_flag(self.accumulator.get());
        Ok(instruction.cycles)
    }

    pub fn txs(&mut self, instruction: &Instruction) -> (executed: Result<u8, EmulatorError>)
        requires
            old(self)@.wf(),
            instruction.cycles <= MAX_BASE_CYCLES,
        ensures
            (final(self)@, executed) == old(self)@.exec_implied(OpCode::TXS, instruction.cycles),
            final(self)@.wf(),
    {
        self.stack.set_pointer(self.register_x.get());
        Ok(instruction.cycles)
    }

    pub fn tya(&mut self, instruction: &Instruction) -> (executed: Result<u8, EmulatorError>)
        requires
            old(self)@.wf(),
            instruction.cycles <= MAX_BASE_CYCLES,
        ensures
            (final(self)@, executed) == old(self)@.exec_implied(OpCode::TYA, instruction.cycles),
            final(self)@.wf(),
    {
        self.accumulator.set(self.register_y.get());
        self.status.set_zero_flag(self.accumulator.get());
        self.status.set_negative_flag(self.accumulator.get());
        Ok(instruction.cycles)
    }

    pub fn aac(&mut self, instruction: &Instruction) -> (executed: Result<u8, EmulatorError>)
        requires
            old(self)@.wf(),
            instruction.cycles <= MAX_BASE_CYCLES,
            instruction.mode.has_address(),
        ensures
            (final(self)@, executed) == old(self)@.exec_read(
                OpCode::AAC,
                instruction.mode,
                instruction.cycles,
            ),
            final(self)@.wf(),
    {
        proof {
            reveal(CpuState::exec_read);
        }
        let (page_crossed, value) = self.get_value(&instruction.mode)?;
        let value = self.accumulator.get() & value;
        self.accumulator.set(value);
        self.status.set_zero_flag(value);
        self.status.set_negative_flag(value);
        self.status.set_carry_flag_to(value >= 128);
        Ok(penalty(instruction.cycles, page_crossed))
    }

    pub fn sax(&mut self, instruction: &Instruction) -> (executed: Result<u8, EmulatorError>)
        requires
            old(self)@.wf(),
            instruction.cycles <= MAX_BASE_CYCLES,
            instruction.mode.has_address(),
        ensures
            (final(self)@, executed) == old(self)@.exec_store(
                OpCode::SAX,
                instruction.mode,
                instruction.cycles,
            ),
            final(self)@.wf(),
    {
        proof {
            reveal(CpuState::exec_store);
        }
        let (_, address) = self.read_operand_address(&instruction.mode)?;
        self.bus.write_byte(address, self.accumulator.get() & self.register_x.get())?;
        Ok(instruction.cycles)
    }

    pub fn arr(&mut self, instruction: &Instruction) -> (executed: Result<u8, EmulatorError>)
        requires
            old(self)@.wf(),
            instruction.cycles <= MAX_BASE_CYCLES,
            instruction.mode.has_address(),
        ensures
            (final(self)@, executed) == old(self)@.exec_read(
                OpCode::ARR,
                instruction.mode,
                instruction.cycles,
            ),
            final(self)@.wf(),
    {
        proof {
            reveal(CpuState::exec_read);
        }
        let (page_crossed, value) = self.get_value(&instruction.mode)?;
        let value = shift_right(self.accumulator.get() & value, self.status.get_carry_flag());
        self.accumulator.set(value);
        self.status.set_zero_flag(value);
        self.status.set_negative_flag(value);
        let bit_6 = test_bit(value, 6);
        let bit_5 = test_bit(value, 5);
        self.status.set_carry_flag_to(bit_6);
        self.status.set_overflow_flag_to(bit_6 != bit_5);
        Ok(penalty(instruction.cycles, page_crossed))
    }

    pub fn asr(&mut self, instruction: &Instruction) -> (executed: Result<u8, EmulatorError>)
        requires
            old(self)@.wf(),
            instruction.cycles <= MAX_BASE_CYCLES,
            instruction.mode.has_address(),
        ensures
            (final(self)@, executed) == old(self)@.exec_read(
                OpCode::ASR,
                instruction.mode,
                instruction.cycles,
            ),
            final(self)@.wf(),
    {
        proof {
            reveal(CpuState::exec_read);
        }
        let (page_crossed, value) = self.get_value(&instruction.mode)?;
        let masked = self.accumulator.get() & value;
        let shifted_value = masked / 2;
        self.accumulator.set(shifted_value);
        self.status.set_zero_flag(shifted_value);
        self.status.set_negative_flag(shifted_value);
        self.status.set_carry_flag_to(masked % 2 == 1);
        Ok(penalty(instruction.cycles, page_crossed))
    }

    pub fn atx(&mut self, instruction: &Instruction) -> (executed: Result<u8, EmulatorError>)
        requires
            old(self)@.wf(),
            instruction.cycles <= MAX_BASE_CYCLES,
            instruction.mode.has_address(),
        ensures
            (final(self)@, executed) == old(self)@.exec_read(
                OpCode::ATX,
                instruction.mode,
                instruction.cycles,
            ),
            final(self)@.wf(),
    {
        proof {
            reveal(CpuState::exec_read);
        }
        let (page_crossed, value) = self.get_value(&instruction.mode)?;
        let value = self.accumulator.get() & value;
        self.register_x.set(value);
        self.accumulator.set(value);
        self.status.set_zero_flag(value);
        self.status.set_negative_flag(value);
        Ok(penalty(instruction.cycles, page_crossed))
    }

    pub fn axa(&mut self, instruction: &Instruction) -> (executed: Result<u8, EmulatorError>)
        requires
            old(self)@.wf(),
            instruction.cycles <= MAX_BASE_CYCLES,
            instruction.mode.has_address(),
        ensures
            (final(self)@, executed) == old(self)@.exec_store(
                OpCode::AXA,
                instruction.mode,
                instruction.cycles,
            ),
            final(self)@.wf(),
    {
        proof {
            reveal(CpuState::exec_store);
        }
        let (_, address) = self.read_operand_address(&instruction.mode)?;
        let result = self.accumulator.get() & self.register_x.get();
        self.bus.write_byte(address, result & add_byte(high(address), 1))?;
        Ok(instruction.cycles)
    }

    pub fn axs(&mut self, instruction: &Instruction) -> (executed: Result<u8, EmulatorError>)
        requires
            old(self)@.wf(),
            instruction.cycles <= MAX_BASE_CYCLES,
            instruction.mode.has_address(),
        ensures
            (final(self)@, executed) == old(self)@.exec_read(
                OpCode::AXS,
                instruction.mode,
                instruction.cycles,
            ),
            final(self)@.wf(),
    {
        proof {
            reveal(CpuState::exec_read);
        }
        let (page_crossed, value) = self.get_value(&instruction.mode)?;
        let value = sub_byte(self.accumulator.get() & self.register_x.get(), value);
        self.register_x.set(value);
        self.status.set_zero_flag(value);
        self.status.set_negative_flag(value);
        Ok(penalty(instruction.cycles, page_crossed))
    }

    pub fn dcp(&mut self, instruction: &Instruction) -> (executed: Result<u8, EmulatorError>)
        requires
            old(self)@.wf(),
            instruction.cycles <= MAX_BASE_CYCLES,
            instruction.mode.has_address(),
        ensures
            (final(self)@, executed) == old(self)@.exec_modify(
                OpCode::DCP,
                instruction.mode,
                instruction.cycles,
            ),
            final(self)@.wf(),
    {
        proof {
            reveal(CpuState::exec_modify);
        }
        let (_, address) = self.read_operand_address(&instruction.mode)?;
        let fetched = self.bus.read_byte(address)?;
        let carry = self.status.get_carry_flag();
        let value = sub_byte(fetched, 1);
        self.bus.write_byte(address, value)?;
        let result = self.accumulator.sub(value);
        self.status.set_carry_flag_to(self.accumulator.get() >= value);
        self.status.set_zero_flag(result);
        self.status.set_negative_flag(result);
        Ok(instruction.cycles)
    }

    pub fn dop(&mut self, instruction: &Instruction) -> (executed: Result<u8, EmulatorError>)
        requires
            old(self)@.wf(),
            instruction.cycles <= MAX_BASE_CYCLES,
        ensures
            (final(self)@, executed) == old(self)@.exec_skip(instruction.mode, instruction.cycles),
            final(self)@.wf(),
    {
        proof {
            reveal(CpuState::exec_skip);
        }
        self.nop(instruction)
    }

    pub fn isb(&mut self, instruction: &Instruction) -> (executed: Result<u8, EmulatorError>)
        requires
            old(self)@.wf(),
            instruction.cycles <= MAX_BASE_CYCLES,
            instruction.mode.has_address(),
        ensures
            (final(self)@, executed) == old(self)@.exec_modify(
                OpCode::ISB,
                instruction.mode,
                instruction.cycles,
            ),
            final(self)@.wf(),
    {
        proof {
            reveal(CpuState::exec_modify);
        }
        let (_, address) = self.read_operand_address(&instruction.mode)?;
        let fetched = self.bus.read_byte(address)?;
        let carry = self.status.get_carry_flag();
        let value = add_byte(fetched, 1);
        self.bus.write_byte(address, value)?;
        self.adc_operation(255 - value);
        Ok(instruction.cycles)
    }

    pub fn lar(&mut self, instruction: &Instruction) -> (executed: Result<u8, EmulatorError>)
        requires
            old(self)@.wf(),
            instruction.cycles <= MAX_BASE_CYCLES,
            instruction.mode.has_address(),
        ensures
            (final(self)@, executed) == old(self)@.exec_read(
                OpCode::LAR,
                instruction.mode,
                instruction.cycles,
            ),
            final(self)@.wf(),
    {
        proof {
            reveal(CpuState::exec_read);
        }
        let (page_crossed, value) = self.get_value(&instruction.mode)?;
        let value = value & self.stack.get_pointer();
        self.register_x.set(value);
        self.accumulator.set(value);
        self.stack.set_pointer(value);
        self.status.set_zero_flag(value);
        self.status.set_negative_flag(value);
        Ok(penalty(instruction.cycles, page_crossed))
    }

    pub fn lax(&mut self, instruction: &Instruction) -> (executed: Result<u8, EmulatorError>)
        requires
            old(self)@.wf(),
            instruction.cycles <= MAX_BASE_CYCLES,
            instruction.mode.has_address(),
        ensures
            (final(self)@, executed) == old(self)@.exec_read(
                OpCode::LAX,
                instruction.mode,
                instruction.cycles,
            ),
            final(self)@.wf(),
    {
        proof {
            reveal(CpuState::exec_read);
        }
        let (page_crossed, value) = self.get_value(&instruction.mode)?;
        self.register_x.set(value);
        self.accumulator.set(value);
        self.status.set_zero_flag(value);
        self.status.set_negative_flag(value);
        Ok(penalty(instruction.cycles, page_crossed))
    }

    pub fn rla(&mut self, instruction: &Instruction) -> (executed: Result<u8, EmulatorError>)
        requires
            old(self)@.wf(),
            instruction.cycles <= MAX_BASE_CYCLES,
            instruction.mode.has_address(),
        ensures
            (final(self)@, executed) == old(self)@.exec_modify(
                OpCode::RLA,
                instruction.mode,
                instruction.cycles,
            ),
            final(self)@.wf(),
    {
        proof {
            reveal(CpuState::exec_modify);
        }
        let (_, address) = self.read_operand_address(&instruction.mode)?;
        let fetched = self.bus.read_byte(address)?;
        let carry = self.status.get_carry_flag();
        let value = shift_left(fetched, carry);
        self.bus.write_byte(address, value)?;
        self.status.set_carry_flag_to(fetched >= 128);
        let result = self.accumulator.get() & value;
        self.accumulator.set(result);
        self.status.set_zero_flag(result);
        self.status.set_negative_flag(result);
        Ok(instruction.cycles)
    }

    pub fn rra(&mut self, instruction: &Instruction) -> (executed: Result<u8, EmulatorError>)
        requires
            old(self)@.wf(),
            instruction.cycles <= MAX_BASE_CYCLES,
            instruction.mode.has_address(),
        ensures
            (final(self)@, executed) == old(self)@.exec_modify(
                OpCode::RRA,
                instruction.mode,
                instruction.cycles,
            ),
            final(self)@.wf(),
    {
        proof {
            reveal(CpuState::exec_modify);
        }
        let (_, address) = self.read_operand_address(&instruction.mode)?;
        let fetched = self.bus.read_byte(address)?;
        let carry = self.status.get_carry_flag();
        let value = shift_right(fetched, carry);
        self.bus.write_byte(address, value)?;
        self.status.set_carry_flag_to(fetched % 2 == 1);
        self.status.set_zero_flag(value);
        self.status.set_negative_flag(value);
        self.adc_operation(value);
        Ok(instruction.cycles)
    }

    pub fn slo(&mut self, instruction: &Instruction) -> (executed: Result<u8, EmulatorError>)
        requires
            old(self)@.wf(),
            instruction.cycles <= MAX_BASE_CYCLES,
            instruction.mode.has_address(),
        ensures
            (final(self)@, executed) == old(self)@.exec_modify(
                OpCode::SLO,
                instruction.mode,
                instruction.cycles,
            ),
            final(self)@.wf(),
    {
        proof {
            reveal(CpuState::exec_modify);
        }
        let (_, address) = self.read_operand_address(&instruction.mode)?;
        let fetched = self.bus.read_byte(address)?;
        let carry = self.status.get_carry_flag();
        let value = shift_left(fetched, 0);
        self.bus.write_byte(address, value)?;
        self.status.set_carry_flag_to(fetched >= 128);
        let result = self.accumulator.get() | value;
        self.accumulator.set(result);
        self.status.set_zero_flag(result);
        self.status.set_negative_flag(result);
        Ok(instruction.cycles)
    }

    pub fn sre(&mut self, instruction: &Instruction) -> (executed: Result<u8, EmulatorError>)
        requires
            old(self)@.wf(),
            instruction.cycles <= MAX_BASE_CYCLES,
            instruction.mode.has_address(),
        ensures
            (final(self)@, executed) == old(self)@.exec_modify(
                OpCode::SRE,
                instruction.mode,
                instruction.cycles,
            ),
            final(self)@.wf(),
    {
        proof {
            reveal(CpuState::exec_modify);
        }
        let (_, address) = self.read_operand_address(&instruction.mode)?;
        let fetched = self.bus.read_byte(address)?;
        let carry = self.status.get_carry_flag();
        let value = fetched / 2;
        self.bus.write_byte(address, value)?;
        self.status.set_carry_flag_to(fetched % 2 == 1);
        let result = self.accumulator.get() ^ value;
        self.accumulator.set(result);
        self.status.set_zero_flag(result);
        self.status.set_negative_flag(result);
        Ok(instruction.cycles)
    }

    pub fn sxa(&mut self, instruction: &Instruction) -> (executed: Result<u8, EmulatorError>)
        requires
            old(self)@.wf(),
            instruction.cycles <= MAX_BASE_CYCLES,
            instruction.mode.has_address(),
        ensures
            (final(self)@, executed) == old(self)@.exec_store(
                OpCode::SXA,
                instruction.mode,
                instruction.cycles,
            ),
            final(self)@.wf(),
    {
        proof {
            reveal(CpuState::exec_store);
        }
        let (_, address) = self.read_operand_address(&instruction.mode)?;
        self.bus.write_byte(address, self.register_x.get() & add_byte(high(address), 1))?;
        Ok(instruction.cycles)
    }

    pub fn sya(&mut self, instruction: &Instruction) -> (executed: Result<u8, EmulatorError>)
        requires
            old(self)@.wf(),
            instruction.cycles <= MAX_BASE_CYCLES,
            instruction.mode.has_address(),
        ensures
            (final(self)@, executed) == old(self)@.exec_store(
                OpCode::SYA,
                instruction.mode,
                instruction.cycles,
            ),
            final(self)@.wf(),
    {
        proof {
            reveal(CpuState::exec_store);
        }
        let (_, address) = self.read_operand_address(&instruction.mode)?;
        self.bus.write_byte(address, self.register_y.get() & add_byte(high(address), 1))?;
        Ok(instruction.cycles)
    }

    pub fn top(&mut self, instruction: &Instruction) -> (executed: Result<u8, EmulatorError>)
        requires
            old(self)@.wf(),
            instruction.cycles <= MAX_BASE_CYCLES,
        ensures
            (final(self)@, executed) == old(self)@.exec_skip(instruction.mode, instruction.cycles),
            final(self)@.wf(),
    {
        proof {
            reveal(CpuState::exec_skip);
        }
        self.nop(instruction)
    }

    pub fn xas(&mut self, instruction: &Instruction) -> (executed: Result<u8, EmulatorError>)
        requires
            old(self)@.wf(),
            instruction.cycles <= MAX_BASE_CYCLES,
            instruction.mode.has_address(),
        ensures
            (final(self)@, executed) == old(self)@.exec_store(
                OpCode::XAS,
                instruction.mode,
                instruction.cycles,
            ),
            final(self)@.wf(),
    {
        proof {
            reveal(CpuState::exec_store);
        }
        let (_, address) = self.read_operand_address(&instruction.mode)?;
        let result = self.accumulator.get() & self.register_x.get();
        self.stack.set_pointer(result);
        self.bus.write_byte(address, result & add_byte(high(address), 1))?;
        Ok(instruction.cycles)
    }

    /// Executes `instruction`, whose opcode byte was fetched already, and
    /// returns the cycles that it took.
    #[verifier::rlimit(50)]
    pub fn execute(&mut self, instruction: &Instruction) -> (executed: Result<u8, EmulatorError>)
        requires
            old(self)@.wf(),
            instruction.wf(),
        ensures
            (final(self)@, executed) == old(self)@.execute(*instruction),
            final(self)@.wf(),
    {
        proof {
            reveal(CpuState::execute);
        }
        match instruction.opcode {
            OpCode::ADC => self.adc(instruction),
            OpCode::AND => self.and(instruction),
            OpCode::ASL => self.asl(instruction),
            OpCode::BCC => self.bcc(instruction),
            OpCode::BCS => self.bcs(instruction),
            OpCode::BEQ => self.beq(instruction),
            OpCode::BIT => self.bit(instruction),
            OpCode::BMI => self.bmi(instruction),
            OpCode::BNE => self.bne(instruction),
            OpCode::BPL => self.bpl(instruction),
            OpCode::BRK => self.brk(instruction),
            OpCode::BVC => self.bvc(instruction),
            OpCode::BVS => self.bvs(instruction),
            OpCode::CLC => self.clc(instruction),
            OpCode::CLD => self.cld(instruction),
            OpCode::CLI => self.cli(instruction),
            OpCode::CLV => self.clv(instruction),
            OpCode::CMP => self.cmp(instruction),
            OpCode::CPX => self.cpx(instruction),
            OpCode::CPY => self.cpy(instruction),
            OpCode::DEC => self.dec(instruction),
            OpCode::DEX => self.dex(instruction),
            OpCode::DEY => self.dey(instruction),
            OpCode::EOR => self.eor(instruction),
            OpCode::INC => self.inc(instruction),
            OpCode::INX => self.inx(instruction),
            OpCode::INY => self.iny(instruction),
            OpCode::JMP => self.jmp(instruction),
            OpCode::JSR => self.jsr(instruction),
            OpCode::LDA => self.lda(instruction),
            OpCode::LDX => self.ldx(instruction),
            OpCode::LDY => self.ldy(instruction),
            OpCode::LSR => self.lsr(instruction),
            OpCode::NOP => self.nop(instruction),
            OpCode::ORA => self.ora(instruction),
            OpCode::PHA => self.pha(instruction),
            OpCode::PHP => self.php(instruction),
            OpCode::PLA => self.pla(instruction),
            OpCode::PLP => self.plp(instruction),
            OpCode::ROL => self.rol(instruction),
            OpCode::ROR => self.ror(instruction),
            OpCode::RTI => self.rti(instruction),
            OpCode::RTS => self.rts(instruction),
            OpCode::SBC => self.sbc(instruction),
            OpCode::SEC => self.sec(instruction),
            OpCode::SED => self.sed(instruction),
            OpCode::SEI => self.sei(instruction),
            OpCode::STA => self.sta(instruction),
            OpCode::STX => self.stx(instruction),
            OpCode::STY => self.sty(instruction),
            OpCode::TAX => self.tax(instruction),
            OpCode::TAY => self.tay(instruction),
            OpCode::TSX => self.tsx(instruction),
            OpCode::TXA => self.txa(instruction),
            OpCode::TXS => self.txs(instruction),
            OpCode::TYA => self.tya(instruction),
            OpCode::AAC => self.aac(instruction),
            OpCode::SAX => self.sax(instruction),
            OpCode::ARR => self.arr(instruction),
            OpCode::ASR => self.asr(instruction),
            OpCode::ATX => self.atx(instruction),
            OpCode::AXA => self.axa(instruction),
            OpCode::AXS => self.axs(instruction),
            OpCode::DCP => self.dcp(instruction),
            OpCode::DOP => self.dop(instruction),
            OpCode::ISB => self.isb(instruction),
            OpCode::KIL => Ok(instruction.cycles),
            OpCode::LAR => self.lar(instruction),
            OpCode::LAX => self.lax(instruction),
            OpCode::RLA => self.rla(instruction),
            OpCode::RRA => self.rra(instruction),
            OpCode::SLO => self.slo(instruction),
            OpCode::SRE => self.sre(instruction),
            OpCode::SXA => self.sxa(instruction),
            OpCode::SYA => self.sya(instruction),
            OpCode::TOP => self.top(instruction),
            OpCode::XAA => Ok(instruction.cycles),
            OpCode::XAS => self.xas(instruction),
        }
    }

    /// Fetches the opcode at the program counter, moves the counter behind
    /// it and looks the opcode up: the result is the entry of the opcode
    /// table, or the byte as an unknown opcode where the table holds none.
    pub fn next_instruction(&mut self) -> (fetched: Result<Instruction, EmulatorError>)
        requires
            old(self)@.wf(),
        ensures
            (final(self)@, fetched) == old(self)@.fetch(),
            final(self)@.wf(),
            match fetched {
                Ok(instruction) => instruction.wf(),
                Err(_) => true,
            },
    {
        let opcode = self.bus.read_byte(self.program_counter.get())?;
        self.program_counter.inc();
        match lookup(opcode) {
            Some(instruction) => Ok(instruction),
            None => Err(EmulatorError::UnknownOpCode(opcode)),
        }
    }

    /// Serves an NMI: the program counter and P are pushed, I is set,
    /// seven cycles pass and the program goes on at the NMI vector.
    pub fn nmi_interrupt(&mut self)
        requires
            old(self)@.wf(),
        ensures
            final(self)@ == old(self)@.nmi(),
            final(self)@.wf(),
    {
        self.stack.push(self.program_counter.get(), &mut self.bus);
        self.stack.push(self.status.get(), &mut self.bus);
        self.status.set_interrupt_disable_flag_to(true);
        self.bus.tick(7);
        self.program_counter.set(self.bus.read_word(0xFFFA));
    }

    /// Resolves the operand at the program counter and moves the counter
    /// behind it.
    pub fn read_operand_address(&mut self, addressing_mode: &AddressingMode) -> (found: Result<
        (bool, u16),
        EmulatorError,
    >)
        requires
            old(self)@.wf(),
            addressing_mode.has_address(),
        ensures
            (final(self)@, found) == old(self)@.take_operand(*addressing_mode),
            final(self)@.wf(),
    {
        let result = self.get_operand_address(addressing_mode, self.program_counter.get())?;
        let width: u16 = addressing_mode.operand_bytes() as u16;
        self.program_counter.add(width);
        Ok(result)
    }

    /// Resolves the operand at the program counter and reads the byte it
    /// names.
    pub fn get_value(&mut self, addressing_mode: &AddressingMode) -> (found: Result<
        (bool, u8),
        EmulatorError,
    >)
        requires
            old(self)@.wf(),
            addressing_mode.has_address(),
        ensures
            (final(self)@, found) == old(self)@.take_value(*addressing_mode),
            final(self)@.wf(),
    {
        let (page_crossed, address) = self.read_operand_address(addressing_mode)?;
        let value = self.bus.read_byte(address)?;
        Ok((page_crossed, value))
    }
}

} // verus!
