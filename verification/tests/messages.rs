use nes::cpu::opcode::OpCode;
use nes::error::{EmulatorError, InvalidBankNumber, UnknownOpCode};
use nes::interpreter::InterpreterError;
use nes::rom::InvalidINESFile;

#[test]
fn errors_say_what_went_wrong() {
    assert_eq!(UnknownOpCode(0).message(), "Unknown opcode 0");
    assert_eq!(UnknownOpCode(255).message(), "Unknown opcode 255");
    assert_eq!(InvalidBankNumber(7).message(), "Invalid bank number - 7");
    assert_eq!(
        InterpreterError::InvalidPC(65535).message(),
        "PC register contains invalid instruction 65535"
    );
    assert_eq!(InterpreterError::UnsupportedOpCode(76).message(), "Unsupported opcode 76");
    assert_eq!(EmulatorError::UnknownOpCode(100).message(), "Unknown opcode 100");
    assert_eq!(
        EmulatorError::UnstableOpCode(0x8B).message(),
        "XAA encountered. Exact behaviour is unknown."
    );
    assert_eq!(
        EmulatorError::UnsupportedRead(0x2000).message(),
        "Unable to read from writable PPU IO register - $2000"
    );
    assert_eq!(
        EmulatorError::UnsupportedWrite(0x2002).message(),
        "Unable to write to only-readable PPU IO register - $2002"
    );
    assert_eq!(
        EmulatorError::ROMWriteForbidden(0xFFFA).message(),
        "Write to PRG ROM is restricted - $FFFA"
    );
}

#[test]
fn cartridge_errors_say_what_went_wrong() {
    assert_eq!(InvalidINESFile::BadMagic.message(), "The first 4 bytes are not the iNES tag");
    assert_eq!(
        InvalidINESFile::TruncatedHeader.message(),
        "The header ends before its control bytes"
    );
    assert_eq!(InvalidINESFile::UnsupportedFormat.message(), "NES2.0 isn't supported");
    assert_eq!(InvalidINESFile::UnsupportedMapper(4).message(), "Unsupported mapper 4");
    assert_eq!(InvalidINESFile::TruncatedROM.message(), "Failed to read PRGROM and CHRROM data");
}

#[test]
fn opcodes_are_written_as_their_mnemonics() {
    assert_eq!(OpCode::ADC.mnemonic(), "ADC");
    assert_eq!(OpCode::NOP.mnemonic(), "NOP");
    assert_eq!(OpCode::LAX.mnemonic(), "*LAX");
    assert_eq!(OpCode::KIL.mnemonic(), "*KIL");
    assert_eq!(OpCode::DOP.mnemonic(), "*NOP");
    assert_eq!(OpCode::TOP.mnemonic(), "*NOP");
    assert_eq!(OpCode::XAS.mnemonic(), "*XAS");
}
