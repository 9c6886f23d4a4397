use crate::bits::{bit_is_set, bit_weight, high_byte, low_byte, word_of, wrap16, wrap8};
use crate::bus::BusState;
use crate::cpu::opcode::{opcode_table, AddressingMode, Instruction, OpCode};
use crate::cpu::register::{
    branch_offset, pull_byte, pull_word, push_byte, push_word, ProcessorStatus,
};
use crate::error::EmulatorError;
use vstd::prelude::*;

verus! {

/// Where the CPU finds the address to go on at after an NMI.
pub const NMI_INTERRUPT_VECTOR: u16 = 0xFFFA;

/// Where the CPU finds the address to go on at after a reset.
pub const RESET_INTERRUPT_VECTOR: u16 = 0xFFFC;

/// Where the CPU finds the address to go on at after BRK or an IRQ.
pub const IRQ_INTERRUPT_VECTOR: u16 = 0xFFFE;

/// CPU cycles that the NMI sequence takes.
pub const NMI_CYCLES: u8 = 7;

/// CPU cycles that the reset sequence takes.
pub const RESET_CYCLES: u8 = 7;

/// What one round of the run loop leaves the host to do.
#[derive(Clone, Copy, PartialEq, Eq, Structural, Debug)]
pub enum StepOutcome {
    /// Nothing: the next instruction can run.
    Continue,
    /// The PPU completed a frame, which is ready to be drawn.
    FrameReady,
    /// The CPU ran into KIL and halted.
    Halted,
}

/// The registers that instructions compute on.
pub struct Registers {
    pub a: u8,
    pub x: u8,
    pub y: u8,
    pub sp: u8,
    pub p: ProcessorStatus,
}

/// The byte read as a signed number from -128 to 127.
pub open spec fn signed(value: u8) -> int {
    branch_offset(value)
}

/// A byte with all its bits inverted.
pub open spec fn inverted(value: u8) -> u8 {
    (255 - value) as u8
}

/// What operations that read their operand do to the registers.
impl Registers {
    pub open spec fn with_a(self, value: u8) -> Registers {
        Registers { a: value, p: self.p.with_zn(value), ..self }
    }

    pub open spec fn with_x(self, value: u8) -> Registers {
        Registers { x: value, p: self.p.with_zn(value), ..self }
    }

    pub open spec fn with_y(self, value: u8) -> Registers {
        Registers { y: value, p: self.p.with_zn(value), ..self }
    }

    /// A, C, V, Z, N = A + M + C. V is set where the sum of A and M as
    /// signed numbers, with the carry, does not fit into a signed byte.
    pub open spec fn adc(self, m: u8) -> Registers {
        let sum = self.a + m + bit_weight(0, self.p.carry);
        let signed_sum = signed(self.a) + signed(m) + bit_weight(0, self.p.carry);
        let result = wrap8(sum);
        Registers {
            a: result,
            p: ProcessorStatus {
                carry: sum > 255,
                overflow: signed_sum < -128 || signed_sum > 127,
                ..self.p
            }.with_zn(result),
            ..self
        }
    }

    /// SBC is ADC of the inverted operand.
    pub open spec fn sbc(self, m: u8) -> Registers {
        self.adc(inverted(m))
    }

    /// C where the register is at least M, Z where they are equal, N from
    /// bit 7 of their difference.
    pub open spec fn compare(self, register: u8, m: u8) -> Registers {
        Registers {
            p: ProcessorStatus { carry: register >= m, ..self.p }.with_zn(wrap8(register - m)),
            ..self
        }
    }

    /// Z where A and M share no bit, N from bit 7 of M, V from bit 6.
    pub open spec fn bit(self, m: u8) -> Registers {
        Registers {
            p: ProcessorStatus {
                zero: self.a & m == 0,
                negative: m >= 128,
                overflow: bit_is_set(m, 6),
                ..self.p
            },
            ..self
        }
    }

    /// AND, and C takes N.
    pub open spec fn aac(self, m: u8) -> Registers {
        let result = self.a & m;
        Registers {
            a: result,
            p: ProcessorStatus { carry: result >= 128, ..self.p.with_zn(result) },
            ..self
        }
    }

    /// AND, then rotate A right through the carry. C is bit 6 of the
    /// result, and V is set where exactly one of its bits 6 and 5 is.
    pub open spec fn arr(self, m: u8) -> Registers {
        let result = ((self.a & m) / 2 + bit_weight(7, self.p.carry)) as u8;
        Registers {
            a: result,
            p: ProcessorStatus {
                carry: bit_is_set(result, 6),
                overflow: bit_is_set(result, 6) != bit_is_set(result, 5),
                ..self.p.with_zn(result)
            },
            ..self
        }
    }

    /// AND, then shift A right; C takes the bit shifted out.
    pub open spec fn asr(self, m: u8) -> Registers {
        let masked = self.a & m;
        let result = masked / 2;
        Registers {
            a: result,
            p: ProcessorStatus { carry: masked % 2 == 1, ..self.p.with_zn(result) },
            ..self
        }
    }

    /// AND, and X takes A.
    pub open spec fn atx(self, m: u8) -> Registers {
        let result = self.a & m;
        Registers { a: result, x: result, p: self.p.with_zn(result), ..self }
    }

    /// X = (A AND X) - M; Z and N from X.
    pub open spec fn axs(self, m: u8) -> Registers {
        let result = wrap8((self.a & self.x) - m);
        Registers { x: result, p: self.p.with_zn(result), ..self }
    }

    /// A = X = S = M AND S.
    pub open spec fn lar(self, m: u8) -> Registers {
        let result = m & self.sp;
        Registers { a: result, x: result, sp: result, p: self.p.with_zn(result), ..self }
    }

    /// A = X = M.
    pub open spec fn lax(self, m: u8) -> Registers {
        Registers { a: m, x: m, p: self.p.with_zn(m), ..self }
    }

    /// The registers after an operation that reads the operand `m`.
    /// Operations that read nothing leave them as they are.
    pub open spec fn after_read(self, opcode: OpCode, m: u8) -> Registers {
        match opcode {
            OpCode::ADC => self.adc(m),
            OpCode::AND => self.with_a(self.a & m),
            OpCode::BIT => self.bit(m),
            OpCode::CMP => self.compare(self.a, m),
            OpCode::CPX => self.compare(self.x, m),
            OpCode::CPY => self.compare(self.y, m),
            OpCode::EOR => self.with_a(self.a ^ m),
            OpCode::LDA => self.with_a(m),
            OpCode::LDX => self.with_x(m),
            OpCode::LDY => self.with_y(m),
            OpCode::ORA => self.with_a(self.a | m),
            OpCode::SBC => self.sbc(m),
            OpCode::AAC => self.aac(m),
            OpCode::ARR => self.arr(m),
            OpCode::ASR => self.asr(m),
            OpCode::ATX => self.atx(m),
            OpCode::AXS => self.axs(m),
            OpCode::LAR => self.lar(m),
            OpCode::LAX => self.lax(m),
            _ => self,
        }
    }

    /// Shift left: C takes bit 7.
    pub open spec fn asl(self, m: u8) -> (u8, Registers) {
        let result = wrap8(m * 2);
        (
            result,
            Registers { p: ProcessorStatus { carry: m >= 128, ..self.p }.with_zn(result), ..self },
        )
    }

    /// Shift right: C takes bit 0, and N is cleared.
    pub open spec fn lsr(self, m: u8) -> (u8, Registers) {
        let result = m / 2;
        (
            result,
            Registers {
                p: ProcessorStatus {
                    carry: m % 2 == 1,
                    zero: result == 0,
                    negative: false,
                    ..self.p
                },
                ..self
            },
        )
    }

    /// Rotate left through the carry.
    pub open spec fn rol(self, m: u8) -> (u8, Registers) {
        let result = wrap8(m * 2 + bit_weight(0, self.p.carry));
        (
            result,
            Registers { p: ProcessorStatus { carry: m >= 128, ..self.p }.with_zn(result), ..self },
        )
    }

    /// Rotate right through the carry.
    pub open spec fn ror(self, m: u8) -> (u8, Registers) {
        let result = (m / 2 + bit_weight(7, self.p.carry)) as u8;
        (
            result,
            Registers {
                p: ProcessorStatus { carry: m % 2 == 1, ..self.p }.with_zn(result),
                ..self
            },
        )
    }

    pub open spec fn inc(self, m: u8) -> (u8, Registers) {
        (wrap8(m + 1), Registers { p: self.p.with_zn(wrap8(m + 1)), ..self })
    }

    pub open spec fn dec(self, m: u8) -> (u8, Registers) {
        (wrap8(m - 1), Registers { p: self.p.with_zn(wrap8(m - 1)), ..self })
    }

    /// The byte that an operation which reads, changes and writes back the
    /// operand `m` writes, and the registers after it. The undocumented
    /// ones do what a documented one does and then let A take part: SLO is
    /// ASL then ORA, RLA is ROL then AND, SRE is LSR then EOR, RRA is ROR
    /// then ADC, DCP is DEC then CMP, ISB is INC then SBC.
    pub open spec fn after_modify(self, opcode: OpCode, m: u8) -> (u8, Registers) {
        match opcode {
            OpCode::ASL => self.asl(m),
            OpCode::LSR => self.lsr(m),
            OpCode::ROL => self.rol(m),
            OpCode::ROR => self.ror(m),
            OpCode::INC => self.inc(m),
            OpCode::DEC => self.dec(m),
            OpCode::SLO => {
                let shifted = self.asl(m);
                (shifted.0, shifted.1.with_a(self.a | shifted.0))
            },
            OpCode::RLA => {
                let rotated = self.rol(m);
                (rotated.0, rotated.1.with_a(self.a & rotated.0))
            },
            OpCode::SRE => {
                let shifted = self.lsr(m);
                (shifted.0, shifted.1.with_a(self.a ^ shifted.0))
            },
            OpCode::RRA => {
                let rotated = self.ror(m);
                (rotated.0, rotated.1.adc(rotated.0))
            },
            OpCode::DCP => (wrap8(m - 1), self.compare(self.a, wrap8(m - 1))),
            OpCode::ISB => (wrap8(m + 1), self.sbc(wrap8(m + 1))),
            _ => (m, self),
        }
    }

    /// The byte that a store writes to `address`. The unstable stores
    /// write a register masked with the high byte of the address plus one.
    pub open spec fn stored_value(self, opcode: OpCode, address: u16) -> u8 {
        match opcode {
            OpCode::STA => self.a,
            OpCode::STX => self.x,
            OpCode::STY => self.y,
            OpCode::SAX => self.a & self.x,
            OpCode::AXA => (self.a & self.x) & wrap8(high_byte(address) + 1),
            OpCode::SXA => self.x & wrap8(high_byte(address) + 1),
            OpCode::SYA => self.y & wrap8(high_byte(address) + 1),
            OpCode::XAS => (self.a & self.x) & wrap8(high_byte(address) + 1),
            _ => 0,
        }
    }

    /// The registers after a store: only XAS changes one, S takes A AND X.
    pub open spec fn after_store(self, opcode: OpCode) -> Registers {
        match opcode {
            OpCode::XAS => Registers { sp: self.a & self.x, ..self },
            _ => self,
        }
    }

    /// The registers after an operation without an operand.
    pub open spec fn after_implied(self, opcode: OpCode) -> Registers {
        match opcode {
            OpCode::CLC => Registers { p: ProcessorStatus { carry: false, ..self.p }, ..self },
            OpCode::CLD => Registers { p: ProcessorStatus { decimal: false, ..self.p }, ..self },
            OpCode::CLI => Registers {
                p: ProcessorStatus { interrupt_disable: false, ..self.p },
                ..self
            },
            OpCode::CLV => Registers { p: ProcessorStatus { overflow: false, ..self.p }, ..self },
            OpCode::SEC => Registers { p: ProcessorStatus { carry: true, ..self.p }, ..self },
            OpCode::SED => Registers { p: ProcessorStatus { decimal: true, ..self.p }, ..self },
            OpCode::SEI => Registers {
                p: ProcessorStatus { interrupt_disable: true, ..self.p },
                ..self
            },
            OpCode::DEX => self.with_x(wrap8(self.x - 1)),
            OpCode::DEY => self.with_y(wrap8(self.y - 1)),
            OpCode::INX => self.with_x(wrap8(self.x + 1)),
            OpCode::INY => self.with_y(wrap8(self.y + 1)),
            OpCode::TAX => self.with_x(self.a),
            OpCode::TAY => self.with_y(self.a),
            OpCode::TSX => self.with_x(self.sp),
            OpCode::TXA => self.with_a(self.x),
            OpCode::TXS => Registers { sp: self.x, ..self },
            OpCode::TYA => self.with_a(self.y),
            _ => self,
        }
    }

    /// Whether a branch is taken.
    pub open spec fn branch_taken(self, opcode: OpCode) -> bool {
        match opcode {
            OpCode::BCC => !self.p.carry,
            OpCode::BCS => self.p.carry,
            OpCode::BEQ => self.p.zero,
            OpCode::BMI => self.p.negative,
            OpCode::BNE => !self.p.zero,
            OpCode::BPL => !self.p.negative,
            OpCode::BVC => !self.p.overflow,
            OpCode::BVS => self.p.overflow,
            _ => false,
        }
    }
}

/// The cycles of an instruction whose read crossed a page or did not.
pub open spec fn with_penalty(cycles: u8, page_crossed: bool) -> u8 {
    if page_crossed {
        (cycles + 1) as u8
    } else {
        cycles
    }
}

/// The CPU with everything on its bus, as plain values.
pub struct CpuState {
    pub regs: Registers,
    pub pc: u16,
    pub bus: BusState,
}

/// What an instruction leaves: the machine after it and the cycles it
/// took, or the machine where it stopped and why.
pub type Executed = (CpuState, Result<u8, EmulatorError>);

impl CpuState {
    pub open spec fn wf(self) -> bool {
        self.bus.wf()
    }

    pub open spec fn with_regs(self, regs: Registers) -> CpuState {
        CpuState { regs, ..self }
    }

    /// A read of one byte through the bus.
    pub open spec fn read(self, address: u16) -> (CpuState, Result<u8, EmulatorError>) {
        let outcome = self.bus.read(address);
        (CpuState { bus: outcome.0, ..self }, outcome.1)
    }

    /// A write of one byte through the bus.
    pub open spec fn write(self, address: u16, value: u8) -> (CpuState, Result<(), EmulatorError>) {
        let outcome = self.bus.write(address, value);
        (CpuState { bus: outcome.0, ..self }, outcome.1)
    }

    /// The machine after `value` was pushed.
    pub open spec fn push(self, value: u8) -> CpuState {
        let pushed = push_byte(self.regs.sp, self.bus, value);
        CpuState { regs: Registers { sp: pushed.0, ..self.regs }, bus: pushed.1, ..self }
    }

    /// The machine after the word `value` was pushed, high byte first.
    pub open spec fn push16(self, value: u16) -> CpuState {
        let pushed = push_word(self.regs.sp, self.bus, value);
        CpuState { regs: Registers { sp: pushed.0, ..self.regs }, bus: pushed.1, ..self }
    }

    /// The machine after a byte was pulled, and the byte.
    pub open spec fn pull(self) -> (CpuState, u8) {
        let pulled = pull_byte(self.regs.sp, self.bus);
        (CpuState { regs: Registers { sp: pulled.0, ..self.regs }, ..self }, pulled.1)
    }

    /// The machine after a word was pulled, low byte first, and the word.
    pub open spec fn pull16(self) -> (CpuState, u16) {
        let pulled = pull_word(self.regs.sp, self.bus);
        (CpuState { regs: Registers { sp: pulled.0, ..self.regs }, ..self }, pulled.1)
    }

    /// The effective address of an operand that adds an index register to
    /// a base address, and whether the index took it to another page.
    pub open spec fn indexed(base: u16, index: u8) -> (bool, u16) {
        let address = wrap16(base + index);
        (base / 256 != address / 256, address)
    }

    /// The place of the high byte of the word that JMP (indirect) reads
    /// through `pointer`: the next byte of the same page, so that behind
    /// the last byte of a page comes its first.
    pub open spec fn indirect_high(pointer: u16) -> u16 {
        word_of(wrap8(low_byte(pointer) + 1), high_byte(pointer))
    }

    /// Resolves the operand whose bytes lie at `at`: the machine
    /// afterwards and, where every read on the way was granted, whether a
    /// page was crossed and the effective address. The implied and the
    /// accumulator mode have no operand to resolve.
    pub open spec fn operand_address(self, mode: AddressingMode, at: u16) -> (
        CpuState,
        Result<(bool, u16), EmulatorError>,
    ) {
        match mode {
            AddressingMode::Absolute => (self, Ok((false, self.bus.read_word(at)))),
            AddressingMode::AbsoluteX => (
                self,
                Ok(Self::indexed(self.bus.read_word(at), self.regs.x)),
            ),
            AddressingMode::AbsoluteY => (
                self,
                Ok(Self::indexed(self.bus.read_word(at), self.regs.y)),
            ),
            AddressingMode::Immediate | AddressingMode::Relative => (self, Ok((false, at))),
            AddressingMode::Indirect => {
                let pointer = self.bus.read_word(at);
                let low = self.read(pointer);
                match low.1 {
                    Err(error) => (low.0, Err(error)),
                    Ok(low_value) => {
                        let high = low.0.read(Self::indirect_high(pointer));
                        match high.1 {
                            Err(error) => (high.0, Err(error)),
                            Ok(high_value) => (high.0, Ok((false, word_of(low_value, high_value)))),
                        }
                    },
                }
            },
            AddressingMode::Implied | AddressingMode::Accumulator => (self, Ok((false, 0))),
            AddressingMode::IndirectIndexedY => {
                let operand = self.read(at);
                match operand.1 {
                    Err(error) => (operand.0, Err(error)),
                    Ok(value) => (
                        operand.0,
                        Ok(Self::indexed(operand.0.bus.read_word(value as u16), self.regs.y)),
                    ),
                }
            },
            _ => {
                let operand = self.read(at);
                match operand.1 {
                    Err(error) => (operand.0, Err(error)),
                    Ok(value) => (operand.0, Ok((false, operand.0.zero_page_target(mode, value)))),
                }
            },
        }
    }

    /// The effective address of an operand in page zero, from the operand
    /// byte `value`: the byte itself, the byte plus an index register
    /// within page zero, or the word that the pointer in page zero holds.
    pub open spec fn zero_page_target(self, mode: AddressingMode, value: u8) -> u16 {
        match mode {
            AddressingMode::ZeroPageX => wrap8(value + self.regs.x) as u16,
            AddressingMode::ZeroPageY => wrap8(value + self.regs.y) as u16,
            AddressingMode::IndexedIndirectX => self.bus.read_word(
                wrap8(value + self.regs.x) as u16,
            ),
            AddressingMode::IndirectIndexedY => Self::indexed(
                self.bus.read_word(value as u16),
                self.regs.y,
            ).1,
            _ => value as u16,
        }
    }

    /// Resolves the operand at the program counter and moves the counter
    /// behind it.
    pub open spec fn take_operand(self, mode: AddressingMode) -> (
        CpuState,
        Result<(bool, u16), EmulatorError>,
    ) {
        let resolved = self.operand_address(mode, self.pc);
        match resolved.1 {
            Err(error) => resolved,
            Ok(_) => (
                CpuState { pc: wrap16(self.pc + mode.spec_operand_bytes()), ..resolved.0 },
                resolved.1,
            ),
        }
    }

    /// Resolves the operand at the program counter and reads the byte that
    /// it names.
    pub open spec fn take_value(self, mode: AddressingMode) -> (
        CpuState,
        Result<(bool, u8), EmulatorError>,
    ) {
        let resolved = self.take_operand(mode);
        match resolved.1 {
            Err(error) => (resolved.0, Err(error)),
            Ok(found) => {
                let fetched = resolved.0.read(found.1);
                match fetched.1 {
                    Err(error) => (fetched.0, Err(error)),
                    Ok(value) => (fetched.0, Ok((found.0, value))),
                }
            },
        }
    }

    /// An instruction that reads its operand: the registers change as
    /// `after_read` says, and a page crossed on the way costs one cycle.
    #[verifier::opaque]
    pub open spec fn exec_read(self, opcode: OpCode, mode: AddressingMode, cycles: u8) -> Executed {
        let taken = self.take_value(mode);
        match taken.1 {
            Err(error) => (taken.0, Err(error)),
            Ok(found) => (
                taken.0.with_regs(taken.0.regs.after_read(opcode, found.1)),
                Ok(with_penalty(cycles, found.0)),
            ),
        }
    }

    /// An instruction that only resolves its operand, as the undocumented
    /// NOPs with an operand do.
    #[verifier::opaque]
    pub open spec fn exec_skip(self, mode: AddressingMode, cycles: u8) -> Executed {
        if mode.has_address() {
            let taken = self.take_operand(mode);
            match taken.1 {
                Err(error) => (taken.0, Err(error)),
                Ok(found) => (taken.0, Ok(with_penalty(cycles, found.0))),
            }
        } else {
            (self, Ok(cycles))
        }
    }

    /// An instruction that stores a register.
    #[verifier::opaque]
    pub open spec fn exec_store(self, opcode: OpCode, mode: AddressingMode, cycles: u8) -> Executed {
        let taken = self.take_operand(mode);
        match taken.1 {
            Err(error) => (taken.0, Err(error)),
            Ok(found) => {
                let prepared = taken.0.with_regs(taken.0.regs.after_store(opcode));
                let written = prepared.write(
                    found.1,
                    taken.0.regs.stored_value(opcode, found.1),
                );
                match written.1 {
                    Err(error) => (written.0, Err(error)),
                    Ok(_) => (written.0, Ok(cycles)),
                }
            },
        }
    }

    /// An instruction that reads a byte, changes it and writes it back. In
    /// the accumulator mode the byte is A.
    #[verifier::opaque]
    pub open spec fn exec_modify(self, opcode: OpCode, mode: AddressingMode, cycles: u8)
        -> Executed {
        if mode == AddressingMode::Accumulator {
            let changed = self.regs.after_modify(opcode, self.regs.a);
            (self.with_regs(Registers { a: changed.0, ..changed.1 }), Ok(cycles))
        } else {
            let taken = self.take_operand(mode);
            match taken.1 {
                Err(error) => (taken.0, Err(error)),
                Ok(found) => {
                    let fetched = taken.0.read(found.1);
                    match fetched.1 {
                        Err(error) => (fetched.0, Err(error)),
                        Ok(value) => {
                            let changed = fetched.0.regs.after_modify(opcode, value);
                            let written = fetched.0.write(found.1, changed.0);
                            match written.1 {
                                Err(error) => (written.0, Err(error)),
                                Ok(_) => (written.0.with_regs(changed.1), Ok(cycles)),
                            }
                        },
                    }
                },
            }
        }
    }

    /// An instruction without an operand.
    pub open spec fn exec_implied(self, opcode: OpCode, cycles: u8) -> Executed {
        (self.with_regs(self.regs.after_implied(opcode)), Ok(cycles))
    }

    /// A branch: not taken it costs the base cycles, taken one more, and
    /// taken to another page two more.
    #[verifier::opaque]
    pub open spec fn exec_branch(self, opcode: OpCode, mode: AddressingMode, cycles: u8)
        -> Executed {
        let taken = self.take_value(mode);
        match taken.1 {
            Err(error) => (taken.0, Err(error)),
            Ok(found) => if taken.0.regs.branch_taken(opcode) {
                let target = wrap16(taken.0.pc + branch_offset(found.1));
                (
                    CpuState { pc: target, ..taken.0 },
                    Ok(
                        if taken.0.pc / 256 != target / 256 {
                            (cycles + 2) as u8
                        } else {
                            (cycles + 1) as u8
                        },
                    ),
                )
            } else {
                (taken.0, Ok(cycles))
            },
        }
    }

    /// The byte that PHP and BRK push: P with B set.
    pub open spec fn status_with_break(self) -> u8 {
        (self.regs.p.bits() + 16) as u8
    }

    /// BRK: push the program counter and P with B set, go on at the IRQ
    /// vector and set I.
    pub open spec fn exec_brk(self, cycles: u8) -> Executed {
        let pushed = self.push16(self.pc).push(self.status_with_break());
        (
            CpuState {
                pc: pushed.bus.read_word(IRQ_INTERRUPT_VECTOR),
                regs: Registers {
                    p: ProcessorStatus { interrupt_disable: true, ..pushed.regs.p },
                    ..pushed.regs
                },
                ..pushed
            },
            Ok(cycles),
        )
    }

    pub open spec fn exec_jmp(self, mode: AddressingMode, cycles: u8) -> Executed {
        let taken = self.take_operand(mode);
        match taken.1 {
            Err(error) => (taken.0, Err(error)),
            Ok(found) => (CpuState { pc: found.1, ..taken.0 }, Ok(cycles)),
        }
    }

    /// JSR: push the address of the last byte of the instruction and go on
    /// at the operand.
    pub open spec fn exec_jsr(self, mode: AddressingMode, cycles: u8) -> Executed {
        let taken = self.take_operand(mode);
        match taken.1 {
            Err(error) => (taken.0, Err(error)),
            Ok(found) => (
                CpuState { pc: found.1, ..taken.0.push16(wrap16(taken.0.pc - 1)) },
                Ok(cycles),
            ),
        }
    }

    pub open spec fn exec_pha(self, cycles: u8) -> Executed {
        (self.push(self.regs.a), Ok(cycles))
    }

    pub open spec fn exec_php(self, cycles: u8) -> Executed {
        (self.push(self.status_with_break()), Ok(cycles))
    }

    pub open spec fn exec_pla(self, cycles: u8) -> Executed {
        let pulled = self.pull();
        (pulled.0.with_regs(pulled.0.regs.with_a(pulled.1)), Ok(cycles))
    }

    /// PLP: P takes the six flags of the byte pulled; B and U are not
    /// held.
    pub open spec fn exec_plp(self, cycles: u8) -> Executed {
        let pulled = self.pull();
        (
            pulled.0.with_regs(
                Registers { p: ProcessorStatus::from_bits(pulled.1), ..pulled.0.regs },
            ),
            Ok(cycles),
        )
    }

    pub open spec fn exec_rti(self, cycles: u8) -> Executed {
        let status = self.pull();
        let counter = status.0.pull16();
        (
            CpuState {
                pc: counter.1,
                regs: Registers { p: ProcessorStatus::from_bits(status.1), ..counter.0.regs },
                ..counter.0
            },
            Ok(cycles),
        )
    }

    pub open spec fn exec_rts(self, cycles: u8) -> Executed {
        let counter = self.pull16();
        (CpuState { pc: wrap16(counter.1 + 1), ..counter.0 }, Ok(cycles))
    }

    /// What the instruction does to the machine, and the cycles it takes.
    /// KIL and XAA are not executed; `step` handles them.
    #[verifier::opaque]
    pub open spec fn execute(self, instruction: Instruction) -> Executed {
        let mode = instruction.mode;
        let cycles = instruction.cycles;
        match instruction.opcode {
            OpCode::ADC
            | OpCode::AND
            | OpCode::BIT
            | OpCode::CMP
            | OpCode::CPX
            | OpCode::CPY
            | OpCode::EOR
            | OpCode::LDA
            | OpCode::LDX
            | OpCode::LDY
            | OpCode::ORA
            | OpCode::SBC
            | OpCode::AAC
            | OpCode::ARR
            | OpCode::ASR
            | OpCode::ATX
            | OpCode::AXS
            | OpCode::LAR
            | OpCode::LAX => self.exec_read(instruction.opcode, mode, cycles),
            OpCode::NOP | OpCode::DOP | OpCode::TOP => self.exec_skip(mode, cycles),
            OpCode::STA
            | OpCode::STX
            | OpCode::STY
            | OpCode::SAX
            | OpCode::AXA
            | OpCode::SXA
            | OpCode::SYA
            | OpCode::XAS => self.exec_store(instruction.opcode, mode, cycles),
            OpCode::ASL
            | OpCode::LSR
            | OpCode::ROL
            | OpCode::ROR
            | OpCode::INC
            | OpCode::DEC
            | OpCode::SLO
            | OpCode::RLA
            | OpCode::SRE
            | OpCode::RRA
            | OpCode::DCP
            | OpCode::ISB => self.exec_modify(instruction.opcode, mode, cycles),
            OpCode::BCC
            | OpCode::BCS
            | OpCode::BEQ
            | OpCode::BMI
            | OpCode::BNE
            | OpCode::BPL
            | OpCode::BVC
            | OpCode::BVS => self.exec_branch(instruction.opcode, mode, cycles),
            OpCode::BRK => self.exec_brk(cycles),
            OpCode::JMP => self.exec_jmp(mode, cycles),
            OpCode::JSR => self.exec_jsr(mode, cycles),
            OpCode::PHA => self.exec_pha(cycles),
            OpCode::PHP => self.exec_php(cycles),
            OpCode::PLA => self.exec_pla(cycles),
            OpCode::PLP => self.exec_plp(cycles),
            OpCode::RTI => self.exec_rti(cycles),
            OpCode::RTS => self.exec_rts(cycles),
            OpCode::KIL | OpCode::XAA => (self, Ok(cycles)),
            _ => self.exec_implied(instruction.opcode, cycles),
        }
    }

    /// The machine after a reset: the program counter is loaded from the
    /// reset vector, A, X and Y are 0, P is 0x24 and S is 0xFD. The reset
    /// sequence takes seven cycles.
    pub open spec fn reset(self) -> CpuState {
        CpuState {
            pc: self.bus.read_word(RESET_INTERRUPT_VECTOR),
            regs: Registers { a: 0, x: 0, y: 0, sp: 0xFD, p: ProcessorStatus::initial() },
            bus: self.bus.tick(RESET_CYCLES),
        }
    }

    /// The NMI sequence: push the program counter and P (with B clear and
    /// U set), set I, let seven cycles pass and go on at the NMI vector.
    pub open spec fn nmi(self) -> CpuState {
        let pushed = self.push16(self.pc).push(self.regs.p.bits());
        let ticked = pushed.bus.tick(NMI_CYCLES);
        CpuState {
            pc: ticked.read_word(NMI_INTERRUPT_VECTOR),
            regs: Registers {
                p: ProcessorStatus { interrupt_disable: true, ..pushed.regs.p },
                ..pushed.regs
            },
            bus: ticked,
        }
    }

    /// The machine after the CPU polled for an NMI and served it where
    /// one was pending.
    pub open spec fn serve_nmi(self) -> CpuState {
        let polled = self.bus.poll_nmi();
        let waiting = CpuState { bus: polled.0, ..self };
        if polled.1 {
            waiting.nmi()
        } else {
            waiting
        }
    }

    /// The machine after the cycles of an instruction passed and a frame
    /// completed on the way was handed out, and what is left to do.
    pub open spec fn finish(self, cycles: u8) -> (CpuState, StepOutcome) {
        let polled = self.bus.tick(cycles).poll_frame();
        (
            CpuState { bus: polled.0, ..self },
            if polled.1 {
                StepOutcome::FrameReady
            } else {
                StepOutcome::Continue
            },
        )
    }

    /// The fetch of an instruction: the byte at the program counter is
    /// read, the counter moves behind it, and the byte is looked up in the
    /// opcode table. The result is the entry of the table, or the byte as
    /// an unknown opcode where the table holds none, never both; a read
    /// that the bus refuses leaves the counter where it was.
    pub open spec fn fetch(self) -> (CpuState, Result<Instruction, EmulatorError>) {
        let fetched = self.read(self.pc);
        match fetched.1 {
            Err(error) => (fetched.0, Err(error)),
            Ok(byte) => (
                CpuState { pc: wrap16(self.pc + 1), ..fetched.0 },
                match opcode_table(byte) {
                    Some(instruction) => Ok(instruction),
                    None => Err(EmulatorError::UnknownOpCode(byte)),
                },
            ),
        }
    }

    /// One instruction: fetch the opcode at the program counter, decode it
    /// and execute the instruction. The result is the cycles that the
    /// instruction took, or `None` where it was KIL, which halts the CPU.
    /// XAA is not executed: what it does is not determined.
    #[verifier::opaque]
    pub open spec fn step(self) -> (CpuState, Result<Option<u8>, EmulatorError>) {
        let fetched = self.fetch();
        match fetched.1 {
            Err(error) => (fetched.0, Err(error)),
            Ok(instruction) => if instruction.opcode == OpCode::KIL {
                (fetched.0, Ok(None))
            } else if instruction.opcode == OpCode::XAA {
                (fetched.0, Err(EmulatorError::UnstableOpCode(0x8B)))
            } else {
                let executed = fetched.0.execute(instruction);
                match executed.1 {
                    Err(error) => (executed.0, Err(error)),
                    Ok(cycles) => (executed.0, Ok(Some(cycles))),
                }
            },
        }
    }

    /// One round of the run loop: serve a pending NMI, execute one
    /// instruction and let its cycles pass on the bus.
    pub open spec fn advance(self) -> (CpuState, Result<StepOutcome, EmulatorError>) {
        let stepped = self.serve_nmi().step();
        match stepped.1 {
            Err(error) => (stepped.0, Err(error)),
            Ok(None) => (stepped.0, Ok(StepOutcome::Halted)),
            Ok(Some(cycles)) => {
                let finished = stepped.0.finish(cycles);
                (finished.0, Ok(finished.1))
            },
        }
    }

    /// Runs round after round until something is left for the host to do,
    /// but `budget` rounds at most. Where the budget runs out first the
    /// outcome is `Continue`.
    pub open spec fn run(self, budget: nat) -> (CpuState, Result<StepOutcome, EmulatorError>)
        decreases budget,
    {
        if budget == 0 {
            (self, Ok(StepOutcome::Continue))
        } else {
            let stepped = self.advance();
            if stepped.1 == Ok::<StepOutcome, EmulatorError>(StepOutcome::Continue) {
                stepped.0.run((budget - 1) as nat)
            } else {
                stepped
            }
        }
    }
}

} // verus!
