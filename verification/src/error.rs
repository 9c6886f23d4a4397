use crate::text::{collect_string, push_decimal, push_hex_word, push_text, put_decimal, put_hex_word};
use vstd::prelude::*;

verus! {

/// A byte that the opcode table does not hold.
#[derive(Clone, Copy, PartialEq, Eq, Structural, Debug)]
pub struct UnknownOpCode(pub u8);

/// A pattern table bank other than 0 and 1.
#[derive(Clone, Copy, PartialEq, Eq, Structural, Debug)]
pub struct InvalidBankNumber(pub u8);

/// Why the emulation cannot go on.
#[derive(Clone, Copy, PartialEq, Eq, Structural, Debug)]
pub enum EmulatorError {
    /// The byte fetched as an opcode is not in the opcode table.
    UnknownOpCode(u8),
    /// The opcode is XAA, whose result the hardware does not determine.
    UnstableOpCode(u8),
    /// A read of a write-only register, with the register's address.
    UnsupportedRead(u16),
    /// A write to a read-only register, with the register's address.
    UnsupportedWrite(u16),
    /// A write into the PRG-ROM window, with the address written to.
    ROMWriteForbidden(u16),
}

impl UnknownOpCode {
    /// What `message` says.
    pub open spec fn text(self) -> Seq<char> {
        put_decimal("Unknown opcode "@, self.0 as nat)
    }

    pub fn message(&self) -> (message: String)
        ensures
            message@ == self.text(),
    {
        let mut text: Vec<char> = Vec::new();
        push_text(&mut text, "Unknown opcode ");
        assert(text@ =~= "Unknown opcode "@);
        push_decimal(&mut text, self.0 as u64);
        collect_string(text)
    }
}

impl InvalidBankNumber {
    /// What `message` says.
    pub open spec fn text(self) -> Seq<char> {
        put_decimal("Invalid bank number - "@, self.0 as nat)
    }

    pub fn message(&self) -> (message: String)
        ensures
            message@ == self.text(),
    {
        let mut text: Vec<char> = Vec::new();
        push_text(&mut text, "Invalid bank number - ");
        assert(text@ =~= "Invalid bank number - "@);
        push_decimal(&mut text, self.0 as u64);
        collect_string(text)
    }
}

impl EmulatorError {
    /// What `message` says: the opcode in decimal, an address in
    /// hexadecimal.
    pub open spec fn text(self) -> Seq<char> {
        match self {
            EmulatorError::UnknownOpCode(opcode) => put_decimal("Unknown opcode "@, opcode as nat),
            EmulatorError::UnstableOpCode(_) => "XAA encountered. Exact behaviour is unknown."@,
            EmulatorError::UnsupportedRead(address) => put_hex_word(
                "Unable to read from writable PPU IO register - $"@,
                address,
            ),
            EmulatorError::UnsupportedWrite(address) => put_hex_word(
                "Unable to write to only-readable PPU IO register - $"@,
                address,
            ),
            EmulatorError::ROMWriteForbidden(address) => put_hex_word(
                "Write to PRG ROM is restricted - $"@,
                address,
            ),
        }
    }

    pub fn message(&self) -> (message: String)
        ensures
            message@ == self.text(),
    {
        let mut text: Vec<char> = Vec::new();
        match self {
            EmulatorError::UnknownOpCode(opcode) => {
                push_text(&mut text, "Unknown opcode ");
                assert(text@ =~= "Unknown opcode "@);
                push_decimal(&mut text, *opcode as u64);
            },
            EmulatorError::UnstableOpCode(_) => {
                push_text(&mut text, "XAA encountered. Exact behaviour is unknown.");
                assert(text@ =~= "XAA encountered. Exact behaviour is unknown."@);
            },
            EmulatorError::UnsupportedRead(address) => {
                push_text(&mut text, "Unable to read from writable PPU IO register - $");
                assert(text@ =~= "Unable to read from writable PPU IO register - $"@);
                push_hex_word(&mut text, *address);
            },
            EmulatorError::UnsupportedWrite(address) => {
                push_text(&mut text, "Unable to write to only-readable PPU IO register - $");
                assert(text@ =~= "Unable to write to only-readable PPU IO register - $"@);
                push_hex_word(&mut text, *address);
            },
            EmulatorError::ROMWriteForbidden(address) => {
                push_text(&mut text, "Write to PRG ROM is restricted - $");
                assert(text@ =~= "Write to PRG ROM is restricted - $"@);
                push_hex_word(&mut text, *address);
            },
        }
        collect_string(text)
    }
}

} // verus!
