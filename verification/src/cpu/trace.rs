use crate::bits::{add_byte, add_word, high, low, low_byte, make_word, word_of, wrap16, wrap8};
use crate::cpu::cpu::CPU;
use crate::cpu::opcode::{lookup, opcode_table, AddressingMode, Instruction, OpCode};
use crate::cpu::register::branch_offset;
use crate::cpu::state::CpuState;
use crate::text::{
    collect_string, pad_to, push_aligned, push_decimal, push_hex_byte, push_hex_word, push_padding,
    put_aligned, put_decimal, put_hex_byte, put_hex_word,
};
use vstd::prelude::*;

verus! {

/// The column at which the hex dump of a trace line ends.
pub const HEX_DUMP_END: usize = 14;

/// The column at which the register snapshot of a trace line begins.
pub const SNAPSHOT_START: usize = 47;

impl OpCode {
    /// The three letters that stand for the operation in a trace. The
    /// undocumented NOPs with an operand are written as NOP.
    pub open spec fn letters(self) -> (char, char, char) {
        match self {
            OpCode::ADC => ('A', 'D', 'C'),
            OpCode::AND => ('A', 'N', 'D'),
            OpCode::ASL => ('A', 'S', 'L'),
            OpCode::BCC => ('B', 'C', 'C'),
            OpCode::BCS => ('B', 'C', 'S'),
            OpCode::BEQ => ('B', 'E', 'Q'),
            OpCode::BIT => ('B', 'I', 'T'),
            OpCode::BMI => ('B', 'M', 'I'),
            OpCode::BNE => ('B', 'N', 'E'),
            OpCode::BPL => ('B', 'P', 'L'),
            OpCode::BRK => ('B', 'R', 'K'),
            OpCode::BVC => ('B', 'V', 'C'),
            OpCode::BVS => ('B', 'V', 'S'),
            OpCode::CLC => ('C', 'L', 'C'),
            OpCode::CLD => ('C', 'L', 'D'),
            OpCode::CLI => ('C', 'L', 'I'),
            OpCode::CLV => ('C', 'L', 'V'),
            OpCode::CMP => ('C', 'M', 'P'),
            OpCode::CPX => ('C', 'P', 'X'),
            OpCode::CPY => ('C', 'P', 'Y'),
            OpCode::DEC => ('D', 'E', 'C'),
            OpCode::DEX => ('D', 'E', 'X'),
            OpCode::DEY => ('D', 'E', 'Y'),
            OpCode::EOR => ('E', 'O', 'R'),
            OpCode::INC => ('I', 'N', 'C'),
            OpCode::INX => ('I', 'N', 'X'),
            OpCode::INY => ('I', 'N', 'Y'),
            OpCode::JMP => ('J', 'M', 'P'),
            OpCode::JSR => ('J', 'S', 'R'),
            OpCode::LDA => ('L', 'D', 'A'),
            OpCode::LDX => ('L', 'D', 'X'),
            OpCode::LDY => ('L', 'D', 'Y'),
            OpCode::LSR => ('L', 'S', 'R'),
            OpCode::NOP => ('N', 'O', 'P'),
            OpCode::ORA => ('O', 'R', 'A'),
            OpCode::PHA => ('P', 'H', 'A'),
            OpCode::PHP => ('P', 'H', 'P'),
            OpCode::PLA => ('P', 'L', 'A'),
            OpCode::PLP => ('P', 'L', 'P'),
            OpCode::ROL => ('R', 'O', 'L'),
            OpCode::ROR => ('R', 'O', 'R'),
            OpCode::RTI => ('R', 'T', 'I'),
            OpCode::RTS => ('R', 'T', 'S'),
            OpCode::SBC => ('S', 'B', 'C'),
            OpCode::SEC => ('S', 'E', 'C'),
            OpCode::SED => ('S', 'E', 'D'),
            OpCode::SEI => ('S', 'E', 'I'),
            OpCode::STA => ('S', 'T', 'A'),
            OpCode::STX => ('S', 'T', 'X'),
            OpCode::STY => ('S', 'T', 'Y'),
            OpCode::TAX => ('T', 'A', 'X'),
            OpCode::TAY => ('T', 'A', 'Y'),
            OpCode::TSX => ('T', 'S', 'X'),
            OpCode::TXA => ('T', 'X', 'A'),
            OpCode::TXS => ('T', 'X', 'S'),
            OpCode::TYA => ('T', 'Y', 'A'),
            OpCode::AAC => ('A', 'A', 'C'),
            OpCode::SAX => ('S', 'A', 'X'),
            OpCode::ARR => ('A', 'R', 'R'),
            OpCode::ASR => ('A', 'S', 'R'),
            OpCode::ATX => ('A', 'T', 'X'),
            OpCode::AXA => ('A', 'X', 'A'),
            OpCode::AXS => ('A', 'X', 'S'),
            OpCode::DCP => ('D', 'C', 'P'),
            OpCode::DOP => ('N', 'O', 'P'),
            OpCode::ISB => ('I', 'S', 'B'),
            OpCode::KIL => ('K', 'I', 'L'),
            OpCode::LAR => ('L', 'A', 'R'),
            OpCode::LAX => ('L', 'A', 'X'),
            OpCode::RLA => ('R', 'L', 'A'),
            OpCode::RRA => ('R', 'R', 'A'),
            OpCode::SLO => ('S', 'L', 'O'),
            OpCode::SRE => ('S', 'R', 'E'),
            OpCode::SXA => ('S', 'X', 'A'),
            OpCode::SYA => ('S', 'Y', 'A'),
            OpCode::TOP => ('N', 'O', 'P'),
            OpCode::XAA => ('X', 'A', 'A'),
            OpCode::XAS => ('X', 'A', 'S'),
        }
    }
}

impl OpCode {
    /// The operation as a disassembler writes it: its three letters, with
    /// a `*` in front where it is undocumented.
    pub open spec fn mnemonic_text(self) -> Seq<char> {
        let letters = Seq::<char>::empty().push(self.letters().0).push(self.letters().1).push(
            self.letters().2,
        );
        if self.is_undocumented() {
            seq!['*'] + letters
        } else {
            letters
        }
    }

    pub fn mnemonic(&self) -> (text: String)
        ensures
            text@ == self.mnemonic_text(),
    {
        let mut text: Vec<char> = Vec::new();
        if self.undocumented() {
            text.push('*');
        }
        let letters = mnemonic_letters(*self);
        text.push(letters.0);
        text.push(letters.1);
        text.push(letters.2);
        assert(text@ =~= self.mnemonic_text());
        collect_string(text)
    }
}

/// Whether a trace marks the instruction with `*`: the undocumented
/// operations, and the undocumented opcode bytes of NOP and SBC.
pub open spec fn is_marked(byte: u8, opcode: OpCode) -> bool {
    opcode.is_undocumented() || (opcode == OpCode::NOP && byte != 0xEA) || (opcode == OpCode::SBC
        && byte == 0xEB)
}

/// `text` followed by the mnemonic, four columns wide.
pub open spec fn put_mnemonic(text: Seq<char>, byte: u8, opcode: OpCode) -> Seq<char> {
    text.push(
        if is_marked(byte, opcode) {
            '*'
        } else {
            ' '
        },
    ).push(opcode.letters().0).push(opcode.letters().1).push(opcode.letters().2)
}

/// `text` followed by ` = ` and a stored byte.
pub open spec fn put_stored(text: Seq<char>, stored: u8) -> Seq<char> {
    put_hex_byte(text.push(' ').push('=').push(' '), stored)
}

/// `text` followed by an operand in page zero with its index register, as
/// in `$10,X @ 15 = 00`.
pub open spec fn put_indexed_byte(
    text: Seq<char>,
    operand: u8,
    register: char,
    target: u16,
    stored: u8,
) -> Seq<char> {
    put_stored(
        put_hex_byte(
            put_hex_byte(text.push('$'), operand).push(',').push(register).push(' ').push(
                '@',
            ).push(' '),
            low_byte(target),
        ),
        stored,
    )
}

/// `text` followed by an absolute operand with its index register, as in
/// `$0300,Y @ 0305 = 00`.
pub open spec fn put_indexed_word(
    text: Seq<char>,
    operand: u16,
    register: char,
    target: u16,
    stored: u8,
) -> Seq<char> {
    put_stored(
        put_hex_word(
            put_hex_word(text.push('$'), operand).push(',').push(register).push(' ').push(
                '@',
            ).push(' '),
            target,
        ),
        stored,
    )
}

/// `text` followed by an indexed indirect operand, as in
/// `($80,X) @ 85 = 0200 = 5A`.
pub open spec fn put_indexed_indirect(
    text: Seq<char>,
    operand: u8,
    pointer: u8,
    target: u16,
    stored: u8,
) -> Seq<char> {
    put_stored(
        put_hex_word(
            put_hex_byte(
                put_hex_byte(text.push('(').push('$'), operand).push(',').push('X').push(
                    ')',
                ).push(' ').push('@').push(' '),
                pointer,
            ).push(' ').push('=').push(' '),
            target,
        ),
        stored,
    )
}

/// `text` followed by an indirect indexed operand, as in
/// `($89),Y = 0300 @ 0305 = 89`.
pub open spec fn put_indirect_indexed(
    text: Seq<char>,
    operand: u8,
    base: u16,
    target: u16,
    stored: u8,
) -> Seq<char> {
    put_stored(
        put_hex_word(
            put_hex_word(
                put_hex_byte(text.push('(').push('$'), operand).push(')').push(',').push(
                    'Y',
                ).push(' ').push('=').push(' '),
                base,
            ).push(' ').push('@').push(' '),
            target,
        ),
        stored,
    )
}

impl CpuState {
    /// The byte at `address` as far as it can be read without changing
    /// the machine; 0 for a register.
    pub open spec fn inspect(self, address: u16) -> u8 {
        self.bus.peek_or_zero(address)
    }

    /// The effective address of the operand whose bytes lie at `at`, found
    /// without changing the machine.
    pub open spec fn inspect_operand(self, mode: AddressingMode, at: u16) -> u16 {
        match mode {
            AddressingMode::Absolute => self.bus.read_word(at),
            AddressingMode::AbsoluteX => Self::indexed(self.bus.read_word(at), self.regs.x).1,
            AddressingMode::AbsoluteY => Self::indexed(self.bus.read_word(at), self.regs.y).1,
            AddressingMode::Indirect => {
                let pointer = self.bus.read_word(at);
                word_of(self.inspect(pointer), self.inspect(Self::indirect_high(pointer)))
            },
            AddressingMode::Immediate | AddressingMode::Relative => at,
            AddressingMode::Implied | AddressingMode::Accumulator => 0,
            _ => self.zero_page_target(mode, self.inspect(at)),
        }
    }

    /// `text` followed by the operand of the instruction at the program
    /// counter as a disassembler writes it, with the effective address and
    /// the byte stored there where the mode has them.
    pub open spec fn put_operand(self, text: Seq<char>, instruction: Instruction) -> Seq<char> {
        let at = wrap16(self.pc + 1);
        let first = self.inspect(at);
        let target = self.inspect_operand(instruction.mode, at);
        let stored = self.inspect(target);
        match instruction.mode {
            AddressingMode::Implied => text,
            AddressingMode::Accumulator => text.push('A'),
            AddressingMode::Immediate => put_hex_byte(text.push('#').push('$'), first),
            AddressingMode::ZeroPage => put_stored(
                put_hex_byte(text.push('$'), low_byte(target)),
                stored,
            ),
            AddressingMode::ZeroPageX => put_indexed_byte(text, first, 'X', target, stored),
            AddressingMode::ZeroPageY => put_indexed_byte(text, first, 'Y', target, stored),
            AddressingMode::IndexedIndirectX => put_indexed_indirect(
                text,
                first,
                wrap8(first + self.regs.x),
                target,
                stored,
            ),
            AddressingMode::IndirectIndexedY => put_indirect_indexed(
                text,
                first,
                self.bus.read_word(first as u16),
                target,
                stored,
            ),
            AddressingMode::Relative => put_hex_word(
                text.push('$'),
                wrap16(wrap16(self.pc + 2) + branch_offset(first)),
            ),
            AddressingMode::Indirect => put_hex_word(
                put_hex_word(text.push('(').push('$'), self.bus.read_word(at)).push(')').push(
                    ' ',
                ).push('=').push(' '),
                target,
            ),
            AddressingMode::Absolute => if instruction.opcode == OpCode::JMP || instruction.opcode
                == OpCode::JSR {
                put_hex_word(text.push('$'), target)
            } else {
                put_stored(put_hex_word(text.push('$'), target), stored)
            },
            AddressingMode::AbsoluteX => put_indexed_word(
                text,
                self.bus.read_word(at),
                'X',
                target,
                stored,
            ),
            AddressingMode::AbsoluteY => put_indexed_word(
                text,
                self.bus.read_word(at),
                'Y',
                target,
                stored,
            ),
        }
    }

    /// `text` followed by the bytes of the instruction at the program
    /// counter in hexadecimal, with a space between two bytes.
    pub open spec fn put_hex_dump(self, text: Seq<char>, width: u8) -> Seq<char> {
        let opcode = put_hex_byte(text, self.inspect(self.pc));
        if width == 0 {
            opcode
        } else {
            let first = put_hex_byte(opcode.push(' '), self.inspect(wrap16(self.pc + 1)));
            if width == 1 {
                first
            } else {
                put_hex_byte(first.push(' '), self.inspect(wrap16(self.pc + 2)))
            }
        }
    }

    /// The first part of a trace line: the program counter, the bytes of
    /// the instruction there and the instruction as a disassembler writes
    /// it. A byte that is no opcode is written as `???`.
    pub open spec fn trace_assembly(self) -> Seq<char> {
        let byte = self.inspect(self.pc);
        let counter = put_hex_word(Seq::empty(), self.pc).push(' ').push(' ');
        match opcode_table(byte) {
            None => pad_to(put_hex_byte(counter, byte), 14).push(' ').push(' ').push('?').push(
                '?',
            ).push('?'),
            Some(instruction) => {
                let dump = pad_to(
                    self.put_hex_dump(counter, instruction.mode.spec_operand_bytes()),
                    14,
                );
                let named = put_mnemonic(dump.push(' '), byte, instruction.opcode);
                if instruction.mode == AddressingMode::Implied {
                    named
                } else {
                    self.put_operand(named.push(' '), instruction)
                }
            },
        }
    }

    /// The trace line of the machine before its next instruction: the
    /// assembly, filled up to 47 columns, then the registers, the position
    /// of the PPU as scanline and dot, and the CPU cycles passed.
    pub open spec fn trace_line(self) -> Seq<char> {
        let assembly = pad_to(self.trace_assembly(), 47);
        let a = put_hex_byte(assembly.push(' ').push('A').push(':'), self.regs.a);
        let x = put_hex_byte(a.push(' ').push('X').push(':'), self.regs.x);
        let y = put_hex_byte(x.push(' ').push('Y').push(':'), self.regs.y);
        let p = put_hex_byte(y.push(' ').push('P').push(':'), self.regs.p.bits());
        let sp = put_hex_byte(p.push(' ').push('S').push('P').push(':'), self.regs.sp);
        let scanline = put_aligned(
            sp.push(' ').push('P').push('P').push('U').push(':'),
            self.bus.ppu.scanline as nat,
        );
        let dot = put_aligned(scanline.push(','), self.bus.ppu.dot as nat);
        put_decimal(dot.push(' ').push('C').push('Y').push('C').push(':'), self.bus.cycles as nat)
    }
}

fn mnemonic_letters(opcode: OpCode) -> (letters: (char, char, char))
    ensures
        letters == opcode.letters(),
{
    match opcode {
        OpCode::ADC => ('A', 'D', 'C'),
        OpCode::AND => ('A', 'N', 'D'),
        OpCode::ASL => ('A', 'S', 'L'),
        OpCode::BCC => ('B', 'C', 'C'),
        OpCode::BCS => ('B', 'C', 'S'),
        OpCode::BEQ => ('B', 'E', 'Q'),
        OpCode::BIT => ('B', 'I', 'T'),
        OpCode::BMI => ('B', 'M', 'I'),
        OpCode::BNE => ('B', 'N', 'E'),
        OpCode::BPL => ('B', 'P', 'L'),
        OpCode::BRK => ('B', 'R', 'K'),
        OpCode::BVC => ('B', 'V', 'C'),
        OpCode::BVS => ('B', 'V', 'S'),
        OpCode::CLC => ('C', 'L', 'C'),
        OpCode::CLD => ('C', 'L', 'D'),
        OpCode::CLI => ('C', 'L', 'I'),
        OpCode::CLV => ('C', 'L', 'V'),
        OpCode::CMP => ('C', 'M', 'P'),
        OpCode::CPX => ('C', 'P', 'X'),
        OpCode::CPY => ('C', 'P', 'Y'),
        OpCode::DEC => ('D', 'E', 'C'),
        OpCode::DEX => ('D', 'E', 'X'),
        OpCode::DEY => ('D', 'E', 'Y'),
        OpCode::EOR => ('E', 'O', 'R'),
        OpCode::INC => ('I', 'N', 'C'),
        OpCode::INX => ('I', 'N', 'X'),
        OpCode::INY => ('I', 'N', 'Y'),
        OpCode::JMP => ('J', 'M', 'P'),
        OpCode::JSR => ('J', 'S', 'R'),
        OpCode::LDA => ('L', 'D', 'A'),
        OpCode::LDX => ('L', 'D', 'X'),
        OpCode::LDY => ('L', 'D', 'Y'),
        OpCode::LSR => ('L', 'S', 'R'),
        OpCode::NOP => ('N', 'O', 'P'),
        OpCode::ORA => ('O', 'R', 'A'),
        OpCode::PHA => ('P', 'H', 'A'),
        OpCode::PHP => ('P', 'H', 'P'),
        OpCode::PLA => ('P', 'L', 'A'),
        OpCode::PLP => ('P', 'L', 'P'),
        OpCode::ROL => ('R', 'O', 'L'),
        OpCode::ROR => ('R', 'O', 'R'),
        OpCode::RTI => ('R', 'T', 'I'),
        OpCode::RTS => ('R', 'T', 'S'),
        OpCode::SBC => ('S', 'B', 'C'),
        OpCode::SEC => ('S', 'E', 'C'),
        OpCode::SED => ('S', 'E', 'D'),
        OpCode::SEI => ('S', 'E', 'I'),
        OpCode::STA => ('S', 'T', 'A'),
        OpCode::STX => ('S', 'T', 'X'),
        OpCode::STY => ('S', 'T', 'Y'),
        OpCode::TAX => ('T', 'A', 'X'),
        OpCode::TAY => ('T', 'A', 'Y'),
        OpCode::TSX => ('T', 'S', 'X'),
        OpCode::TXA => ('T', 'X', 'A'),
        OpCode::TXS => ('T', 'X', 'S'),
        OpCode::TYA => ('T', 'Y', 'A'),
        OpCode::AAC => ('A', 'A', 'C'),
        OpCode::SAX => ('S', 'A', 'X'),
        OpCode::ARR => ('A', 'R', 'R'),
        OpCode::ASR => ('A', 'S', 'R'),
        OpCode::ATX => ('A', 'T', 'X'),
        OpCode::AXA => ('A', 'X', 'A'),
        OpCode::AXS => ('A', 'X', 'S'),
        OpCode::DCP => ('D', 'C', 'P'),
        OpCode::DOP => ('N', 'O', 'P'),
        OpCode::ISB => ('I', 'S', 'B'),
        OpCode::KIL => ('K', 'I', 'L'),
        OpCode::LAR => ('L', 'A', 'R'),
        OpCode::LAX => ('L', 'A', 'X'),
        OpCode::RLA => ('R', 'L', 'A'),
        OpCode::RRA => ('R', 'R', 'A'),
        OpCode::SLO => ('S', 'L', 'O'),
        OpCode::SRE => ('S', 'R', 'E'),
        OpCode::SXA => ('S', 'X', 'A'),
        OpCode::SYA => ('S', 'Y', 'A'),
        OpCode::TOP => ('N', 'O', 'P'),
        OpCode::XAA => ('X', 'A', 'A'),
        OpCode::XAS => ('X', 'A', 'S'),
    }
}

fn push_mnemonic(text: &mut Vec<char>, byte: u8, opcode: OpCode)
    ensures
        final(text)@ == put_mnemonic(old(text)@, byte, opcode),
{
    let marked = opcode.undocumented() || (match opcode {
        OpCode::NOP => byte != 0xEA,
        OpCode::SBC => byte == 0xEB,
        _ => false,
    });
    if marked {
        text.push('*');
    } else {
        text.push(' ');
    }
    let letters = mnemonic_letters(opcode);
    text.push(letters.0);
    text.push(letters.1);
    text.push(letters.2);
}

fn push_stored(text: &mut Vec<char>, stored: u8)
    ensures
        final(text)@ == put_stored(old(text)@, stored),
{
    text.push(' ');
    text.push('=');
    text.push(' ');
    push_hex_byte(text, stored);
}

fn push_indexed_byte(text: &mut Vec<char>, operand: u8, register: char, target: u16, stored: u8)
    ensures
        final(text)@ == put_indexed_byte(old(text)@, operand, register, target, stored),
{
    text.push('$');
    push_hex_byte(text, operand);
    text.push(',');
    text.push(register);
    text.push(' ');
    text.push('@');
    text.push(' ');
    push_hex_byte(text, low(target));
    push_stored(text, stored);
}

fn push_indexed_word(text: &mut Vec<char>, operand: u16, register: char, target: u16, stored: u8)
    ensures
        final(text)@ == put_indexed_word(old(text)@, operand, register, target, stored),
{
    text.push('$');
    push_hex_word(text, operand);
    text.push(',');
    text.push(register);
    text.push(' ');
    text.push('@');
    text.push(' ');
    push_hex_word(text, target);
    push_stored(text, stored);
}

fn push_indexed_indirect(text: &mut Vec<char>, operand: u8, pointer: u8, target: u16, stored: u8)
    ensures
        final(text)@ == put_indexed_indirect(old(text)@, operand, pointer, target, stored),
{
    text.push('(');
    text.push('$');
    push_hex_byte(text, operand);
    text.push(',');
    text.push('X');
    text.push(')');
    text.push(' ');
    text.push('@');
    text.push(' ');
    push_hex_byte(text, pointer);
    text.push(' ');
    text.push('=');
    text.push(' ');
    push_hex_word(text, target);
    push_stored(text, stored);
}

fn push_indirect_indexed(text: &mut Vec<char>, operand: u8, base: u16, target: u16, stored: u8)
    ensures
        final(text)@ == put_indirect_indexed(old(text)@, operand, base, target, stored),
{
    text.push('(');
    text.push('$');
    push_hex_byte(text, operand);
    text.push(')');
    text.push(',');
    text.push('Y');
    text.push(' ');
    text.push('=');
    text.push(' ');
    push_hex_word(text, base);
    text.push(' ');
    text.push('@');
    text.push(' ');
    push_hex_word(text, target);
    push_stored(text, stored);
}

impl CPU {
    /// Reads the byte at `address` as far as that changes nothing; 0 for
    /// a register.
    pub fn inspect(&self, address: u16) -> (value: u8)
        requires
            self@.wf(),
        ensures
            value == self@.inspect(address),
    {
        match self.bus.peek(address) {
            Some(value) => value,
            None => 0,
        }
    }

    /// Resolves the operand whose bytes lie at `address` without changing
    /// the machine.
    pub fn inspect_operand_address(&self, addressing_mode: &AddressingMode, address: u16) -> (target:
        u16)
        requires
            self@.wf(),
        ensures
            target == self@.inspect_operand(*addressing_mode, address),
    {
        match addressing_mode {
            AddressingMode::Absolute => self.bus.read_word(address),
            AddressingMode::AbsoluteX => add_word(
                self.bus.read_word(address),
                self.register_x.get(),
            ),
            AddressingMode::AbsoluteY => add_word(
                self.bus.read_word(address),
                self.register_y.get(),
            ),
            AddressingMode::Indirect => {
                let pointer = self.bus.read_word(address);
                let low_value = self.inspect(pointer);
                let high_value = self.inspect(make_word(add_byte(low(pointer), 1), high(pointer)));
                make_word(low_value, high_value)
            },
            AddressingMode::Immediate | AddressingMode::Relative => address,
            AddressingMode::Implied | AddressingMode::Accumulator => 0,
            AddressingMode::ZeroPage => self.inspect(address) as u16,
            AddressingMode::ZeroPageX => add_byte(self.inspect(address), self.register_x.get())
                as u16,
            AddressingMode::ZeroPageY => add_byte(self.inspect(address), self.register_y.get())
                as u16,
            AddressingMode::IndexedIndirectX => self.bus.read_word(
                add_byte(self.inspect(address), self.register_x.get()) as u16,
            ),
            AddressingMode::IndirectIndexedY => add_word(
                self.bus.read_word(self.inspect(address) as u16),
                self.register_y.get(),
            ),
        }
    }

    #[verifier::rlimit(50)]
    fn push_operand(&self, text: &mut Vec<char>, instruction: &Instruction)
        requires
            self@.wf(),
        ensures
            final(text)@ == self@.put_operand(old(text)@, *instruction),
    {
        let program_counter = self.program_counter.get();
        let at = program_counter.wrapping_add(1);
        let first = self.inspect(at);
        let target = self.inspect_operand_address(&instruction.mode, at);
        let stored = self.inspect(target);
        match instruction.mode {
            AddressingMode::Implied => {},
            AddressingMode::Accumulator => {
                text.push('A');
            },
            AddressingMode::Immediate => {
                text.push('#');
                text.push('$');
                push_hex_byte(text, first);
            },
            AddressingMode::ZeroPage => {
                text.push('$');
                push_hex_byte(text, low(target));
                push_stored(text, stored);
            },
            AddressingMode::ZeroPageX => {
                push_indexed_byte(text, first, 'X', target, stored);
            },
            AddressingMode::ZeroPageY => {
                push_indexed_byte(text, first, 'Y', target, stored);
            },
            AddressingMode::IndexedIndirectX => {
                let pointer = add_byte(first, self.register_x.get());
                push_indexed_indirect(text, first, pointer, target, stored);
            },
            AddressingMode::IndirectIndexedY => {
                let base = self.bus.read_word(first as u16);
                push_indirect_indexed(text, first, base, target, stored);
            },
            AddressingMode::Relative => {
                text.push('$');
                let mut counter = self.program_counter;
                counter.add(2);
                counter.move_with_offset(first);
                push_hex_word(text, counter.get());
            },
            AddressingMode::Indirect => {
                text.push('(');
                text.push('$');
                push_hex_word(text, self.bus.read_word(at));
                text.push(')');
                text.push(' ');
                text.push('=');
                text.push(' ');
                push_hex_word(text, target);
            },
            AddressingMode::Absolute => {
                text.push('$');
                push_hex_word(text, target);
                match instruction.opcode {
                    OpCode::JMP | OpCode::JSR => {},
                    _ => {
                        push_stored(text, stored);
                    },
                }
            },
            AddressingMode::AbsoluteX => {
                push_indexed_word(text, self.bus.read_word(at), 'X', target, stored);
            },
            AddressingMode::AbsoluteY => {
                push_indexed_word(text, self.bus.read_word(at), 'Y', target, stored);
            },
        }
    }

    #[verifier::rlimit(50)]
    fn push_assembly(&self, text: &mut Vec<char>)
        requires
            self@.wf(),
            old(text)@.len() == 0,
        ensures
            final(text)@ == self@.trace_assembly(),
    {
        let program_counter = self.program_counter.get();
        let byte = self.inspect(program_counter);
        push_hex_word(text, program_counter);
        text.push(' ');
        text.push(' ');
        assert(old(text)@ =~= Seq::<char>::empty());
        match lookup(byte) {
            None => {
                push_hex_byte(text, byte);
                push_padding(text, HEX_DUMP_END);
                text.push(' ');
                text.push(' ');
                text.push('?');
                text.push('?');
                text.push('?');
            },
            Some(instruction) => {
                self.push_hex_dump(text, instruction.mode.operand_bytes());
                push_padding(text, HEX_DUMP_END);
                text.push(' ');
                push_mnemonic(text, byte, instruction.opcode);
                match instruction.mode {
                    AddressingMode::Implied => {},
                    _ => {
                        text.push(' ');
                        self.push_operand(text, &instruction);
                    },
                }
            },
        }
    }

    fn push_hex_dump(&self, text: &mut Vec<char>, width: u8)
        requires
            self@.wf(),
        ensures
            final(text)@ == self@.put_hex_dump(old(text)@, width),
    {
        let program_counter = self.program_counter.get();
        push_hex_byte(text, self.inspect(program_counter));
        if width >= 1 {
            text.push(' ');
            push_hex_byte(text, self.inspect(program_counter.wrapping_add(1)));
        }
        if width >= 2 {
            text.push(' ');
            push_hex_byte(text, self.inspect(program_counter.wrapping_add(2)));
        }
    }
}

/// Writes the trace line of the machine before its next instruction, in
/// the format of the nestest log. Nothing is read that reading would
/// change: the registers of the PPU and the controllers show as 0.
pub fn trace(cpu: &CPU) -> (line: String)
    requires
        cpu@.wf(),
    ensures
        line@ == cpu@.trace_line(),
{
    let mut text: Vec<char> = Vec::new();
    cpu.push_assembly(&mut text);
    push_padding(&mut text, SNAPSHOT_START);
    text.push(' ');
    text.push('A');
    text.push(':');
    push_hex_byte(&mut text, cpu.accumulator.get());
    text.push(' ');
    text.push('X');
    text.push(':');
    push_hex_byte(&mut text, cpu.register_x.get());
    text.push(' ');
    text.push('Y');
    text.push(':');
    push_hex_byte(&mut text, cpu.register_y.get());
    text.push(' ');
    text.push('P');
    text.push(':');
    push_hex_byte(&mut text, cpu.status.get());
    text.push(' ');
    text.push('S');
    text.push('P');
    text.push(':');
    push_hex_byte(&mut text, cpu.stack.get_pointer());
    text.push(' ');
    text.push('P');
    text.push('P');
    text.push('U');
    text.push(':');
    push_aligned(&mut text, cpu.bus.ppu().scanline());
    text.push(',');
    push_aligned(&mut text, cpu.bus.ppu().cycles());
    text.push(' ');
    text.push('C');
    text.push('Y');
    text.push('C');
    text.push(':');
    push_decimal(&mut text, cpu.bus.cycles());
    collect_string(text)
}

} // verus!
