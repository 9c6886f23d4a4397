use crate::bits::{bit_is_set, test_bit};
use crate::text::{collect_string, push_decimal, push_text, put_decimal};
use vstd::prelude::*;
use vstd::slice::{slice_subrange, slice_to_vec};

verus! {

/// Size of one PRG-ROM page in bytes.
pub const PRG_ROM_PAGE_SIZE: usize = 16384;

/// Size of one CHR-ROM page in bytes.
pub const CHR_ROM_PAGE_SIZE: usize = 8192;

/// Size of the iNES header in bytes.
pub const HEADER_SIZE: usize = 16;

/// Bytes of the header up to and with its two control bytes.
pub const CONTROL_BYTES_END: usize = 8;

/// Size of the optional trainer block in bytes.
pub const TRAINER_SIZE: usize = 512;

/// How the two physical nametables are folded over the four logical ones.
#[derive(Clone, Copy, PartialEq, Eq, Structural, Debug)]
pub enum Mirroring {
    Vertical,
    Horizontal,
    FourScreen,
}

/// The file format that the header announces.
#[derive(Clone, Copy, PartialEq, Eq, Structural, Debug)]
pub enum NESFormat {
    NES1,
    NES2,
}

/// Why an image is not a loadable iNES 1.0 cartridge.
#[derive(Clone, Copy, PartialEq, Eq, Structural, Debug)]
pub enum InvalidINESFile {
    /// The image does not start with `"NES"` followed by `0x1A`.
    BadMagic,
    /// The image ends before the two control bytes, its header bytes 6
    /// and 7.
    TruncatedHeader,
    /// The header announces the NES 2.0 format.
    UnsupportedFormat,
    /// The header names a mapper other than NROM; the mapper id is attached.
    UnsupportedMapper(u8),
    /// The image ends before the rest of the header, the trainer or the
    /// PRG and CHR pages that the header announces.
    TruncatedROM,
}

impl InvalidINESFile {
    /// What `message` says.
    pub open spec fn text(self) -> Seq<char> {
        match self {
            InvalidINESFile::BadMagic => "The first 4 bytes are not the iNES tag"@,
            InvalidINESFile::TruncatedHeader => "The header ends before its control bytes"@,
            InvalidINESFile::UnsupportedFormat => "NES2.0 isn't supported"@,
            InvalidINESFile::UnsupportedMapper(mapper) => put_decimal(
                "Unsupported mapper "@,
                mapper as nat,
            ),
            InvalidINESFile::TruncatedROM => "Failed to read PRGROM and CHRROM data"@,
        }
    }

    pub fn message(&self) -> (message: String)
        ensures
            message@ == self.text(),
    {
        let mut text: Vec<char> = Vec::new();
        match self {
            InvalidINESFile::BadMagic => {
                push_text(&mut text, "The first 4 bytes are not the iNES tag");
                assert(text@ =~= "The first 4 bytes are not the iNES tag"@);
            },
            InvalidINESFile::TruncatedHeader => {
                push_text(&mut text, "The header ends before its control bytes");
                assert(text@ =~= "The header ends before its control bytes"@);
            },
            InvalidINESFile::UnsupportedFormat => {
                push_text(&mut text, "NES2.0 isn't supported");
                assert(text@ =~= "NES2.0 isn't supported"@);
            },
            InvalidINESFile::UnsupportedMapper(mapper) => {
                push_text(&mut text, "Unsupported mapper ");
                assert(text@ =~= "Unsupported mapper "@);
                push_decimal(&mut text, *mapper as u64);
            },
            InvalidINESFile::TruncatedROM => {
                push_text(&mut text, "Failed to read PRGROM and CHRROM data");
                assert(text@ =~= "Failed to read PRGROM and CHRROM data"@);
            },
        }
        collect_string(text)
    }
}

/// The two control bytes of an iNES header (header bytes 6 and 7).
#[derive(Clone, Copy, PartialEq, Eq, Structural, Debug)]
pub struct ControlBytes {
    pub byte1: u8,
    pub byte2: u8,
}

impl ControlBytes {
    /// The mirroring mode: four-screen if bit 3 of the first byte is set,
    /// else vertical if bit 0 is set, else horizontal.
    pub open spec fn spec_mirroring(self) -> Mirroring {
        if bit_is_set(self.byte1, 3) {
            Mirroring::FourScreen
        } else if bit_is_set(self.byte1, 0) {
            Mirroring::Vertical
        } else {
            Mirroring::Horizontal
        }
    }

    /// The number of trainer bytes between the header and the PRG-ROM.
    pub open spec fn spec_trainer_size(self) -> int {
        if bit_is_set(self.byte1, 2) {
            512
        } else {
            0
        }
    }

    /// The mapper id: its low nibble is the upper nibble of the first byte,
    /// its high nibble the upper nibble of the second.
    pub open spec fn spec_mapper(self) -> u8 {
        ((self.byte2 / 16) * 16 + self.byte1 / 16) as u8
    }

    /// NES 2.0 is announced by bit 3 of the second byte.
    pub open spec fn spec_nes_format(self) -> NESFormat {
        if bit_is_set(self.byte2, 3) {
            NESFormat::NES2
        } else {
            NESFormat::NES1
        }
    }

    pub fn new(byte1: u8, byte2: u8) -> (bytes: ControlBytes)
        ensures
            bytes == (ControlBytes { byte1, byte2 }),
    {
        ControlBytes { byte1, byte2 }
    }

    pub fn mirroring(&self) -> (mode: Mirroring)
        ensures
            mode == self.spec_mirroring(),
    {
        if test_bit(self.byte1, 3) {
            Mirroring::FourScreen
        } else if test_bit(self.byte1, 0) {
            Mirroring::Vertical
        } else {
            Mirroring::Horizontal
        }
    }

    pub fn trainer_size(&self) -> (size: usize)
        ensures
            size == self.spec_trainer_size(),
    {
        if test_bit(self.byte1, 2) {
            TRAINER_SIZE
        } else {
            0
        }
    }

    pub fn mapper(&self) -> (id: u8)
        ensures
            id == self.spec_mapper(),
    {
        (self.byte2 / 16) * 16 + self.byte1 / 16
    }

    pub fn nes_format(&self) -> (format: NESFormat)
        ensures
            format == self.spec_nes_format(),
    {
        if test_bit(self.byte2, 3) {
            NESFormat::NES2
        } else {
            NESFormat::NES1
        }
    }
}

/// What a cartridge holds, as plain values.
pub struct RomImage {
    pub prg_rom: Seq<u8>,
    pub chr_rom: Seq<u8>,
    pub mapper: u8,
    pub mirroring: Mirroring,
}

/// Whether the image starts with the iNES tag.
pub open spec fn has_nes_tag(content: Seq<u8>) -> bool {
    &&& content.len() >= 4
    &&& content[0] == 0x4E
    &&& content[1] == 0x45
    &&& content[2] == 0x53
    &&& content[3] == 0x1A
}

/// The control bytes of an image that holds at least eight bytes.
pub open spec fn header_control(content: Seq<u8>) -> ControlBytes {
    ControlBytes { byte1: content[6], byte2: content[7] }
}

/// The offset of the first PRG-ROM byte.
pub open spec fn prg_start(content: Seq<u8>) -> int {
    16 + header_control(content).spec_trainer_size()
}

/// The offset of the first CHR-ROM byte.
pub open spec fn chr_start(content: Seq<u8>) -> int {
    prg_start(content) + 16384 * content[4]
}

/// The offset just behind the last CHR-ROM byte.
pub open spec fn image_end(content: Seq<u8>) -> int {
    chr_start(content) + 8192 * content[5]
}

/// The cartridge that an iNES 1.0 image describes, or why it describes none.
/// The checks are made in the order of the variants of `InvalidINESFile`:
/// the tag, then the control bytes, which decide on the format and the
/// mapper as soon as they are there, and last the length of the image.
pub open spec fn parse_ines(content: Seq<u8>) -> Result<RomImage, InvalidINESFile> {
    if !has_nes_tag(content) {
        Err(InvalidINESFile::BadMagic)
    } else if content.len() < 8 {
        Err(InvalidINESFile::TruncatedHeader)
    } else if header_control(content).spec_nes_format() == NESFormat::NES2 {
        Err(InvalidINESFile::UnsupportedFormat)
    } else if header_control(content).spec_mapper() != 0 {
        Err(InvalidINESFile::UnsupportedMapper(header_control(content).spec_mapper()))
    } else if content.len() < image_end(content) {
        Err(InvalidINESFile::TruncatedROM)
    } else {
        Ok(
            RomImage {
                prg_rom: content.subrange(prg_start(content), chr_start(content)),
                chr_rom: content.subrange(chr_start(content), image_end(content)),
                mapper: header_control(content).spec_mapper(),
                mirroring: header_control(content).spec_mirroring(),
            },
        )
    }
}

/// A loaded cartridge. It is never changed after `Rom::new` made it.
pub struct Rom {
    prg_rom: Vec<u8>,
    chr_rom: Vec<u8>,
    mapper: u8,
    mirroring: Mirroring,
}

impl View for Rom {
    type V = RomImage;

    closed spec fn view(&self) -> RomImage {
        RomImage {
            prg_rom: self.prg_rom@,
            chr_rom: self.chr_rom@,
            mapper: self.mapper,
            mirroring: self.mirroring,
        }
    }
}

impl RomImage {
    /// Both memories are made of whole pages.
    pub open spec fn wf(self) -> bool {
        &&& self.prg_rom.len() % 16384 == 0
        &&& self.chr_rom.len() % 8192 == 0
    }
}

impl Rom {
    /// Parses an iNES 1.0 image.
    pub fn new(content: &[u8]) -> (loaded: Result<Rom, InvalidINESFile>)
        ensures
            match loaded {
                Ok(rom) => parse_ines(content@) == Ok::<RomImage, InvalidINESFile>(rom@) && rom@.wf(),
                Err(reason) => parse_ines(content@) == Err::<RomImage, InvalidINESFile>(reason),
            },
    {
        if content.len() < 4 || content[0] != 0x4E || content[1] != 0x45 || content[2] != 0x53
            || content[3] != 0x1A {
            return Err(InvalidINESFile::BadMagic);
        }
        if content.len() < CONTROL_BYTES_END {
            return Err(InvalidINESFile::TruncatedHeader);
        }
        let control_bytes = ControlBytes::new(content[6], content[7]);
        match control_bytes.nes_format() {
            NESFormat::NES2 => {
                return Err(InvalidINESFile::UnsupportedFormat);
            },
            NESFormat::NES1 => {},
        }
        let mapper = control_bytes.mapper();
        if mapper != 0 {
            return Err(InvalidINESFile::UnsupportedMapper(mapper));
        }
        let prg_rom_size: usize = content[4] as usize * PRG_ROM_PAGE_SIZE;
        let chr_rom_size: usize = content[5] as usize * CHR_ROM_PAGE_SIZE;
        let prg_rom_start: usize = HEADER_SIZE + control_bytes.trainer_size();
        let chr_rom_start: usize = prg_rom_start + prg_rom_size;
        let end: usize = chr_rom_start + chr_rom_size;
        if content.len() < end {
            return Err(InvalidINESFile::TruncatedROM);
        }
        let prg_rom = slice_to_vec(slice_subrange(content, prg_rom_start, chr_rom_start));
        let chr_rom = slice_to_vec(slice_subrange(content, chr_rom_start, end));
        Ok(Rom { prg_rom, chr_rom, mapper, mirroring: control_bytes.mirroring() })
    }

    /// Takes the cartridge apart: program memory, pattern memory and
    /// mirroring.
    pub fn into_parts(self) -> (parts: (Vec<u8>, Vec<u8>, Mirroring))
        ensures
            parts.0@ == self@.prg_rom,
            parts.1@ == self@.chr_rom,
            parts.2 == self@.mirroring,
    {
        (self.prg_rom, self.chr_rom, self.mirroring)
    }

    /// The program memory.
    pub fn prg_rom(&self) -> (bytes: &Vec<u8>)
        ensures
            bytes@ == self@.prg_rom,
    {
        &self.prg_rom
    }

    /// The pattern memory; empty for a cartridge that brings CHR-RAM.
    pub fn chr_rom(&self) -> (bytes: &Vec<u8>)
        ensures
            bytes@ == self@.chr_rom,
    {
        &self.chr_rom
    }

    /// The mapper id of the header.
    pub fn mapper(&self) -> (id: u8)
        ensures
            id == self@.mapper,
    {
        self.mapper
    }

    /// The nametable mirroring that the cartridge wires.
    pub fn mirroring(&self) -> (mode: Mirroring)
        ensures
            mode == self@.mirroring,
    {
        self.mirroring
    }
}

} // verus!
