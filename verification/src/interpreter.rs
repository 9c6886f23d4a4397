use crate::text::{collect_string, push_decimal, push_text, put_decimal};
use vstd::prelude::*;

verus! {

/// Why a program of the small interpreter cannot go on.
#[derive(Clone, Copy, PartialEq, Eq, Structural, Debug)]
pub enum InterpreterError {
    /// The program counter points behind the program; the position is
    /// attached.
    InvalidPC(usize),
    /// The byte at the program counter is none of LDA #, TAX, INX and BRK.
    UnsupportedOpCode(u8),
}

impl InterpreterError {
    /// What `message` says.
    pub open spec fn text(self) -> Seq<char> {
        match self {
            InterpreterError::InvalidPC(position) => put_decimal(
                "PC register contains invalid instruction "@,
                position as nat,
            ),
            InterpreterError::UnsupportedOpCode(opcode) => put_decimal(
                "Unsupported opcode "@,
                opcode as nat,
            ),
        }
    }

    pub fn message(&self) -> (message: String)
        ensures
            message@ == self.text(),
    {
        let mut text: Vec<char> = Vec::new();
        match self {
            InterpreterError::InvalidPC(position) => {
                push_text(&mut text, "PC register contains invalid instruction ");
                assert(text@ =~= "PC register contains invalid instruction "@);
                push_decimal(&mut text, *position as u64);
            },
            InterpreterError::UnsupportedOpCode(opcode) => {
                push_text(&mut text, "Unsupported opcode ");
                assert(text@ =~= "Unsupported opcode "@);
                push_decimal(&mut text, *opcode as u64);
            },
        }
        collect_string(text)
    }
}

/// A 6502 reduced to four instructions, LDA immediate, TAX, INX and BRK,
/// that runs a program from a plain list of bytes.
#[derive(Clone, Copy, PartialEq, Eq, Structural, Debug)]
pub struct CPU {
    pub register_a: u8,
    pub register_x: u8,
    pub status: u8,
    pub program_counter: u16,
}

/// The status byte with Z (bit 1) set where `result` is 0 and N (bit 7)
/// set where bit 7 of `result` is; the other bits are kept.
pub open spec fn status_after(status: u8, result: u8) -> u8 {
    let with_zero = if result == 0 {
        status | 0b0000_0010
    } else {
        status & 0b1111_1101
    };
    if result >= 128 {
        with_zero | 0b1000_0000
    } else {
        with_zero & 0b0111_1111
    }
}

impl CPU {
    /// The machine after LDA with the operand `value`.
    pub open spec fn after_lda(self, value: u8) -> CPU {
        CPU { register_a: value, status: status_after(self.status, value), ..self }
    }

    /// The machine after TAX.
    pub open spec fn after_tax(self) -> CPU {
        CPU { register_x: self.register_a, status: status_after(self.status, self.register_a), ..self }
    }

    /// The machine after INX; X wraps from 0xFF to 0.
    pub open spec fn after_inx(self) -> CPU {
        let value = ((self.register_x + 1) % 256) as u8;
        CPU { register_x: value, status: status_after(self.status, value), ..self }
    }

    /// The machine with the program counter moved on by one.
    pub open spec fn advanced(self) -> CPU {
        CPU { program_counter: (self.program_counter + 1) as u16, ..self }
    }

    /// Why the byte at the program counter cannot be fetched, if it
    /// cannot: the counter points behind the program, or it stands at
    /// 0xFFFF and cannot be moved behind the byte. The position attached
    /// is the one that is not in reach: the counter itself, or 0x10000.
    pub open spec fn fetch_error(self, program: Seq<u8>) -> Option<InterpreterError> {
        if self.program_counter >= program.len() {
            Some(InterpreterError::InvalidPC(self.program_counter as usize))
        } else if self.program_counter == 0xFFFF {
            Some(InterpreterError::InvalidPC(0x10000))
        } else {
            None
        }
    }

    /// Runs `program` from the program counter on: the machine when BRK
    /// ended the program, or where the program could not go on and why.
    pub open spec fn run(self, program: Seq<u8>) -> (CPU, Result<(), InterpreterError>)
        decreases 0x10000 - self.program_counter,
    {
        match self.fetch_error(program) {
            Some(error) => (self, Err(error)),
            None => {
                let opcode = program[self.program_counter as int];
                let fetched = self.advanced();
                if opcode == 0x00 {
                    (fetched, Ok(()))
                } else if opcode == 0xA9 {
                    match fetched.fetch_error(program) {
                        Some(error) => (fetched, Err(error)),
                        None => fetched.after_lda(
                            program[fetched.program_counter as int],
                        ).advanced().run(program),
                    }
                } else if opcode == 0xAA {
                    fetched.after_tax().run(program)
                } else if opcode == 0xE8 {
                    fetched.after_inx().run(program)
                } else {
                    (fetched, Err(InterpreterError::UnsupportedOpCode(opcode)))
                }
            },
        }
    }

    pub fn new() -> (cpu: CPU)
        ensures
            cpu == (CPU { register_a: 0, register_x: 0, status: 0, program_counter: 0 }),
    {
        CPU { register_a: 0, register_x: 0, status: 0, program_counter: 0 }
    }

    /// Runs `program` from its first byte until BRK. The registers and the
    /// status keep what an earlier program left in them.
    pub fn interpret(&mut self, program: Vec<u8>) -> (finished: Result<(), InterpreterError>)
        ensures
            (*final(self), finished) == (CPU { program_counter: 0, ..*old(self) }).run(program@),
    {
        self.program_counter = 0;
        loop
            invariant
                (CPU { program_counter: 0, ..*old(self) }).run(program@) == self.run(program@),
            decreases 0x10000 - self.program_counter,
        {
            let opcode = self.next(&program)?;
            if opcode == 0xA9 {
                self.lda(&program)?;
            } else if opcode == 0xAA {
                self.tax();
            } else if opcode == 0xE8 {
                self.inx();
            } else if opcode == 0x00 {
                return Ok(());
            } else {
                return Err(InterpreterError::UnsupportedOpCode(opcode));
            }
        }
    }

    fn lda(&mut self, program: &Vec<u8>) -> (loaded: Result<(), InterpreterError>)
        ensures
            match old(self).fetch_error(program@) {
                Some(error) => loaded == Err::<(), InterpreterError>(error) && *final(self) == *old(
                    self,
                ),
                None => loaded == Ok::<(), InterpreterError>(()) && *final(self) == old(
                    self,
                ).after_lda(program@[old(self).program_counter as int]).advanced(),
            },
    {
        let param = self.next(program)?;
        self.register_a = param;
        self.set_zero_and_negative_flags(self.register_a);
        Ok(())
    }

    fn tax(&mut self)
        ensures
            *final(self) == old(self).after_tax(),
    {
        self.register_x = self.register_a;
        self.set_zero_and_negative_flags(self.register_x);
    }

    fn inx(&mut self)
        ensures
            *final(self) == old(self).after_inx(),
    {
        self.register_x = self.register_x.wrapping_add(1);
        self.set_zero_and_negative_flags(self.register_x);
    }

    fn set_zero_and_negative_flags(&mut self, result: u8)
        ensures
            *final(self) == (CPU { status: status_after(old(self).status, result), ..*old(self) }),
    {
        self.status = if result == 0 {
            self.status | 0b0000_0010
        } else {
            self.status & 0b1111_1101
        };
        self.status = if result >= 128 {
            self.status | 0b1000_0000
        } else {
            self.status & 0b0111_1111
        };
    }

    /// Reads the byte at the program counter and moves the counter behind
    /// it. The counter is tested before it is moved.
    fn next(&mut self, program: &Vec<u8>) -> (fetched: Result<u8, InterpreterError>)
        ensures
            match old(self).fetch_error(program@) {
                Some(error) => fetched == Err::<u8, InterpreterError>(error) && *final(self)
                    == *old(self),
                None => fetched == Ok::<u8, InterpreterError>(
                    program@[old(self).program_counter as int],
                ) && *final(self) == old(self).advanced(),
            },
    {
        let position = self.program_counter as usize;
        if position >= program.len() {
            return Err(InterpreterError::InvalidPC(position));
        }
        if self.program_counter == 0xFFFF {
            return Err(InterpreterError::InvalidPC(0x10000));
        }
        let opcode = program[position];
        self.program_counter += 1;
        Ok(opcode)
    }
}

} // verus!
