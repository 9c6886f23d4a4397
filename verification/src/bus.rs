use crate::bits::{high, lemma_address_masks, low, make_word, word_of};
use crate::controller::{Controller, ControllerState, JoypadRegister};
use crate::error::EmulatorError;
use crate::ppu::ppu::PPU;
use crate::ppu::state::PpuState;
use crate::rom::{Rom, RomImage};
use vstd::prelude::*;

verus! {

/// The place in work RAM that an address below 0x2000 stands for.
pub open spec fn ram_index(address: u16) -> int {
    (address & 0x07FF) as int
}

/// The PPU register that an address of the register window stands for.
pub open spec fn register_address(address: u16) -> u16 {
    address & 0x2007
}

/// The place in work RAM of the high byte of a word whose low byte is at
/// `index`: the next byte, within page zero for a word that starts there,
/// within the 2 KiB for every other.
pub open spec fn next_ram_index(index: int) -> int {
    if index < 0x100 {
        (index + 1) % 0x100
    } else {
        (index + 1) % 0x800
    }
}

/// Everything the CPU reaches through its address lines, as plain values.
pub struct BusState {
    pub ram: Seq<u8>,
    pub prg_rom: Seq<u8>,
    pub ppu: PpuState,
    pub controller_1: ControllerState,
    pub controller_2: ControllerState,
    /// CPU cycles since power-on, counted modulo 2^64.
    pub cycles: u64,
    /// Whether a frame was completed that the host has not yet taken.
    pub frame_ready: bool,
}

impl BusState {
    /// Work RAM has its 2 KiB, PRG-ROM is made of whole pages of 16 KiB,
    /// and the PPU and the controllers are valid.
    pub open spec fn wf(self) -> bool {
        &&& self.ram.len() == 2048
        &&& self.prg_rom.len() % 16384 == 0
        &&& self.ppu.wf()
        &&& self.controller_1.wf()
        &&& self.controller_2.wf()
    }

    /// The bus at power-on with a cartridge plugged in.
    pub open spec fn power_on(rom: RomImage) -> BusState {
        BusState {
            ram: Seq::new(2048, |i: int| 0u8),
            prg_rom: rom.prg_rom,
            ppu: PpuState::power_on(rom.chr_rom, rom.mirroring),
            controller_1: ControllerState::initial(),
            controller_2: ControllerState::initial(),
            cycles: 0,
            frame_ready: false,
        }
    }

    /// The place in PRG-ROM that an address from 0x8000 on stands for: the
    /// offset into the window, folded into the first 16 KiB where the ROM
    /// holds no more.
    pub open spec fn prg_index(self, address: u16) -> int {
        let offset = (address - 0x8000) as u16;
        if self.prg_rom.len() == 0x4000 {
            (offset & 0x3FFF) as int
        } else {
            offset as int
        }
    }

    /// The PRG-ROM byte at `index`; 0 behind the end of the ROM.
    pub open spec fn prg_byte(self, index: int) -> u8 {
        if 0 <= index < self.prg_rom.len() {
            self.prg_rom[index]
        } else {
            0
        }
    }

    /// The place in PRG-ROM of the high byte of a word whose low byte is at
    /// `index`: the next byte, and the first one behind the end of the ROM.
    pub open spec fn next_prg_index(self, index: int) -> int {
        if index + 1 < self.prg_rom.len() {
            index + 1
        } else {
            0
        }
    }

    /// The byte at `address` where reading has no effect on the machine:
    /// in work RAM and in PRG-ROM. `None` everywhere else.
    pub open spec fn peek(self, address: u16) -> Option<u8> {
        if address < 0x2000 {
            Some(self.ram[ram_index(address)])
        } else if address >= 0x8000 {
            Some(self.prg_byte(self.prg_index(address)))
        } else {
            None
        }
    }

    /// The byte that `peek` sees, and 0 where it sees none.
    pub open spec fn peek_or_zero(self, address: u16) -> u8 {
        match self.peek(address) {
            Some(value) => value,
            None => 0,
        }
    }

    /// A read of the PPU register at `register`, an address from 0x2000 to
    /// 0x2007: the bus afterwards and the byte read, or the refusal of a
    /// write-only register.
    pub open spec fn read_register(self, register: u16) -> (BusState, Result<u8, EmulatorError>) {
        if register == 0x2002 {
            (
                BusState { ppu: self.ppu.after_read_status(), ..self },
                Ok(self.ppu.read_status_value()),
            )
        } else if register == 0x2004 {
            (self, Ok(self.ppu.oam[self.ppu.oam_addr as int]))
        } else if register == 0x2007 {
            (BusState { ppu: self.ppu.after_read_data(), ..self }, Ok(self.ppu.read_data_value()))
        } else {
            (self, Err(EmulatorError::UnsupportedRead(register)))
        }
    }

    /// A read of one byte: the bus afterwards and the byte, or why the
    /// address cannot be read.
    #[verifier::opaque]
    pub open spec fn read(self, address: u16) -> (BusState, Result<u8, EmulatorError>) {
        if address < 0x2000 {
            (self, Ok(self.ram[ram_index(address)]))
        } else if address < 0x4000 {
            self.read_register(register_address(address))
        } else if address == 0x4014 {
            (self, Err(EmulatorError::UnsupportedRead(address)))
        } else if address == 0x4016 {
            (
                BusState { controller_1: self.controller_1.after_read(), ..self },
                Ok(self.controller_1.read_value()),
            )
        } else if address == 0x4017 {
            (
                BusState { controller_2: self.controller_2.after_read(), ..self },
                Ok(self.controller_2.read_value()),
            )
        } else if address >= 0x8000 {
            (self, Ok(self.prg_byte(self.prg_index(address))))
        } else {
            (self, Ok(0))
        }
    }

    /// The little-endian word at `address`. Only work RAM and PRG-ROM hold
    /// words; everywhere else the word reads as 0. A word that starts on
    /// the last byte of page zero, of work RAM or of PRG-ROM takes its high
    /// byte from the first byte of the same.
    #[verifier::opaque]
    pub open spec fn read_word(self, address: u16) -> u16 {
        if address < 0x2000 {
            let index = ram_index(address);
            word_of(self.ram[index], self.ram[next_ram_index(index)])
        } else if address >= 0x8000 {
            let index = self.prg_index(address);
            word_of(self.prg_byte(index), self.prg_byte(self.next_prg_index(index)))
        } else {
            0
        }
    }

    /// The bus after `cycles` CPU cycles: the cycle count moves on and the
    /// PPU runs three dots for each cycle. A frame completed on the way is
    /// remembered until the host takes it.
    #[verifier::opaque]
    pub open spec fn tick(self, cycles: u8) -> BusState {
        let first = self.ppu.tick(cycles);
        let second = first.0.tick(cycles);
        let third = second.0.tick(cycles);
        BusState {
            ppu: third.0,
            cycles: self.cycles.wrapping_add(cycles as u64),
            frame_ready: self.frame_ready || first.1 || second.1 || third.1,
            ..self
        }
    }

    /// The 256 bytes of CPU page `page` as a sprite DMA sees them.
    pub open spec fn dma_page(self, page: u8) -> Seq<u8> {
        Seq::new(256, |offset: int| self.peek_or_zero((page * 256 + offset) as u16))
    }

    /// A sprite DMA from CPU page `page`, and the 513 cycles that it takes.
    pub open spec fn oam_dma(self, page: u8) -> BusState {
        BusState { ppu: self.ppu.write_oam_dma(self.dma_page(page)), ..self }.tick(171).tick(
            171,
        ).tick(171)
    }

    /// A write to the PPU register at `register`, an address from 0x2000
    /// to 0x2007.
    pub open spec fn write_register(self, register: u16, value: u8) -> (
        BusState,
        Result<(), EmulatorError>,
    ) {
        if register == 0x2000 {
            (BusState { ppu: self.ppu.write_ctrl(value), ..self }, Ok(()))
        } else if register == 0x2001 {
            (BusState { ppu: self.ppu.write_mask(value), ..self }, Ok(()))
        } else if register == 0x2002 {
            (self, Err(EmulatorError::UnsupportedWrite(register)))
        } else if register == 0x2003 {
            (BusState { ppu: self.ppu.write_oam_addr(value), ..self }, Ok(()))
        } else if register == 0x2004 {
            (BusState { ppu: self.ppu.write_oam_data(value), ..self }, Ok(()))
        } else if register == 0x2005 {
            (BusState { ppu: self.ppu.write_scroll(value), ..self }, Ok(()))
        } else if register == 0x2006 {
            (BusState { ppu: self.ppu.write_addr(value), ..self }, Ok(()))
        } else {
            (BusState { ppu: self.ppu.write_data(value), ..self }, Ok(()))
        }
    }

    /// A write of one byte: the bus afterwards, and why the address cannot
    /// be written where it cannot.
    #[verifier::opaque]
    pub open spec fn write(self, address: u16, value: u8) -> (BusState, Result<(), EmulatorError>) {
        if address < 0x2000 {
            (BusState { ram: self.ram.update(ram_index(address), value), ..self }, Ok(()))
        } else if address < 0x4000 {
            self.write_register(register_address(address), value)
        } else if address == 0x4014 {
            (self.oam_dma(value), Ok(()))
        } else if address == 0x4016 {
            (BusState { controller_1: self.controller_1.after_write(value), ..self }, Ok(()))
        } else if address == 0x4017 {
            (BusState { controller_2: self.controller_2.after_write(value), ..self }, Ok(()))
        } else if address >= 0x8000 {
            (self, Err(EmulatorError::ROMWriteForbidden(address)))
        } else {
            (self, Ok(()))
        }
    }

    /// A write of a little-endian word. Only work RAM takes words; the
    /// high byte goes where `read_word` looks for it.
    #[verifier::opaque]
    pub open spec fn write_word(self, address: u16, value: u16) -> (
        BusState,
        Result<(), EmulatorError>,
    ) {
        if address < 0x2000 {
            let index = ram_index(address);
            (
                BusState {
                    ram: self.ram.update(index, (value % 256) as u8).update(
                        next_ram_index(index),
                        (value / 256) as u8,
                    ),
                    ..self
                },
                Ok(()),
            )
        } else if address >= 0x8000 {
            (self, Err(EmulatorError::ROMWriteForbidden(address)))
        } else {
            (self, Ok(()))
        }
    }

    /// The bus after the CPU polled for an NMI, and whether one was
    /// pending.
    pub open spec fn poll_nmi(self) -> (BusState, bool) {
        (BusState { ppu: self.ppu.poll_nmi().0, ..self }, self.ppu.nmi_pending)
    }

    /// The bus after the host took a completed frame, and whether there
    /// was one.
    pub open spec fn poll_frame(self) -> (BusState, bool) {
        (BusState { frame_ready: false, ..self }, self.frame_ready)
    }

    /// The bus after buttons of one controller were pressed or released.
    pub open spec fn set_button(self, second_player: bool, buttons: JoypadRegister, pressed: bool)
        -> BusState {
        if second_player {
            BusState { controller_2: self.controller_2.after_set(buttons, pressed), ..self }
        } else {
            BusState { controller_1: self.controller_1.after_set(buttons, pressed), ..self }
        }
    }
}

/// In PRG-ROM that is made of whole pages, the word at an address is made
/// of the byte there and the byte at the next address, and reading either
/// byte changes nothing.
pub proof fn lemma_prg_word_is_two_bytes(bus: BusState, address: u16)
    requires
        bus.prg_rom.len() % 16384 == 0,
        0x8000 <= address < 0xFFFF,
    ensures
        bus.read_word(address) == word_of(
            bus.peek_or_zero(address),
            bus.peek_or_zero((address + 1) as u16),
        ),
        bus.read(address) == (bus, Ok::<u8, EmulatorError>(bus.peek_or_zero(address))),
        bus.read((address + 1) as u16) == (
            bus,
            Ok::<u8, EmulatorError>(bus.peek_or_zero((address + 1) as u16)),
        ),
{
    reveal(BusState::read);
    reveal(BusState::read_word);
    lemma_address_masks((address - 0x8000) as u16);
    lemma_address_masks((address + 1 - 0x8000) as u16);
}

/// What has a state in which it can be used.
pub trait Operational {
    /// Whether the value is in a state in which it can be used.
    spec fn operational(&self) -> bool;

    /// The value as plain values.
    spec fn state(&self) -> BusState;
}

/// Reads and writes of values of type `T` through the CPU's address lines.
pub trait BusOperation<T>: Operational {
    /// The bus after a read at `address`, and what the read returns.
    spec fn read_outcome(state: BusState, address: u16) -> (BusState, Result<T, EmulatorError>);

    /// The bus after a write of `value` at `address`, and whether the
    /// address took it.
    spec fn write_outcome(state: BusState, address: u16, value: T) -> (
        BusState,
        Result<(), EmulatorError>,
    );

    fn read(&mut self, address: u16) -> (value: Result<T, EmulatorError>)
        requires
            old(self).operational(),
        ensures
            final(self).operational(),
            (final(self).state(), value) == Self::read_outcome(old(self).state(), address),
    ;

    fn write(&mut self, address: u16, value: T) -> (done: Result<(), EmulatorError>)
        requires
            old(self).operational(),
        ensures
            final(self).operational(),
            (final(self).state(), done) == Self::write_outcome(old(self).state(), address, value),
    ;
}

/// The CPU's address decoder with what it owns: work RAM, PRG-ROM, the PPU
/// and the two controllers.
pub struct Bus {
    cpu_ram: Vec<u8>,
    prg_rom: Vec<u8>,
    controller_1: Controller,
    controller_2: Controller,
    ppu: PPU,
    cycles: u64,
    frame_ready: bool,
}

impl View for Bus {
    type V = BusState;

    closed spec fn view(&self) -> BusState {
        BusState {
            ram: self.cpu_ram@,
            prg_rom: self.prg_rom@,
            ppu: self.ppu@,
            controller_1: self.controller_1@,
            controller_2: self.controller_2@,
            cycles: self.cycles,
            frame_ready: self.frame_ready,
        }
    }
}

impl Bus {
    pub fn new(rom: Rom) -> (bus: Bus)
        requires
            rom@.wf(),
        ensures
            bus@ == BusState::power_on(rom@),
            bus@.wf(),
    {
        let (prg_rom, chr_rom, mirroring) = rom.into_parts();
        let bus = Bus {
            cpu_ram: vec![0u8; 2048],
            prg_rom,
            ppu: PPU::new(chr_rom, mirroring),
            controller_1: Controller::new(),
            controller_2: Controller::new(),
            cycles: 0,
            frame_ready: false,
        };
        assert(bus@.ram =~= BusState::power_on(rom@).ram);
        bus
    }

    /// Lets `cycles` CPU cycles pass.
    pub fn tick(&mut self, cycles: u8)
        requires
            old(self)@.wf(),
        ensures
            final(self)@ == old(self)@.tick(cycles),
            final(self)@.wf(),
    {
        proof {
            reveal(BusState::tick);
        }
        self.cycles = self.cycles.wrapping_add(cycles as u64);
        let first = self.ppu.tick(cycles);
        let second = self.ppu.tick(cycles);
        let third = self.ppu.tick(cycles);
        self.frame_ready = self.frame_ready || first || second || third;
    }

    /// Takes a pending NMI request from the PPU.
    pub fn poll_nmi_interrupt(&mut self) -> (requested: bool)
        ensures
            (final(self)@, requested) == old(self)@.poll_nmi(),
            old(self)@.wf() ==> final(self)@.wf(),
    {
        self.ppu.poll_nmi_interrupt()
    }

    /// Takes a completed frame: `true` once for each frame that the PPU
    /// finished since the last call.
    pub fn poll_frame(&mut self) -> (ready: bool)
        ensures
            (final(self)@, ready) == old(self)@.poll_frame(),
            old(self)@.wf() ==> final(self)@.wf(),
    {
        let ready = self.frame_ready;
        self.frame_ready = false;
        ready
    }

    /// Presses or releases buttons of the first or the second controller.
    pub fn set_button_status(&mut self, second_player: bool, button: JoypadRegister, status: bool)
        ensures
            final(self)@ == old(self)@.set_button(second_player, button, status),
            old(self)@.wf() ==> final(self)@.wf(),
    {
        if second_player {
            self.controller_2.set_button_status(button, status);
        } else {
            self.controller_1.set_button_status(button, status);
        }
    }

    /// The PPU, for the host to draw from.
    pub fn ppu(&self) -> (ppu: &PPU)
        ensures
            ppu@ == self@.ppu,
    {
        &self.ppu
    }

    /// CPU cycles since power-on.
    pub fn cycles(&self) -> (cycles: u64)
        ensures
            cycles == self@.cycles,
    {
        self.cycles
    }

    fn prg_offset(&self, address: u16) -> (index: usize)
        requires
            address >= 0x8000,
        ensures
            index == self@.prg_index(address),
            index < 0x8000,
    {
        let offset: u16 = address - 0x8000;
        if self.prg_rom.len() == 0x4000 {
            proof {
                lemma_address_masks(offset);
            }
            (offset & 0x3FFF) as usize
        } else {
            offset as usize
        }
    }

    fn prg_at(&self, index: usize) -> (value: u8)
        ensures
            value == self@.prg_byte(index as int),
    {
        if index < self.prg_rom.len() {
            self.prg_rom[index]
        } else {
            0
        }
    }

    /// Stores `value` in the stack page, at the place that stack pointer
    /// `pointer` stands for.
    pub fn write_stack(&mut self, pointer: u8, value: u8)
        requires
            old(self)@.wf(),
        ensures
            final(self)@ == (BusState {
                ram: old(self)@.ram.update(0x0100 + pointer, value),
                ..old(self)@
            }),
            final(self)@.wf(),
    {
        self.cpu_ram[0x0100 + pointer as usize] = value;
    }

    /// Reads the byte in the stack page at the place that stack pointer
    /// `pointer` stands for.
    pub fn read_stack(&self, pointer: u8) -> (value: u8)
        requires
            self@.wf(),
        ensures
            value == self@.ram[0x0100 + pointer],
    {
        self.cpu_ram[0x0100 + pointer as usize]
    }

    /// Reads the byte at `address` where that changes nothing: in work RAM
    /// and in PRG-ROM.
    pub fn peek(&self, address: u16) -> (value: Option<u8>)
        requires
            self@.wf(),
        ensures
            value == self@.peek(address),
    {
        if address < 0x2000 {
            proof {
                lemma_address_masks(address);
            }
            Some(self.cpu_ram[(address & 0x07FF) as usize])
        } else if address >= 0x8000 {
            Some(self.prg_at(self.prg_offset(address)))
        } else {
            None
        }
    }

    /// Reads one byte as the CPU does, with the effects that reading has
    /// on the PPU and the controllers.
    pub fn read_byte(&mut self, address: u16) -> (value: Result<u8, EmulatorError>)
        requires
            old(self)@.wf(),
        ensures
            (final(self)@, value) == old(self)@.read(address),
            final(self)@.wf(),
    {
        proof {
            reveal(BusState::read);
        }
        if address < 0x2000 {
            proof {
                lemma_address_masks(address);
            }
            Ok(self.cpu_ram[(address & 0x07FF) as usize])
        } else if address < 0x4000 {
            let register = address & 0x2007;
            proof {
                lemma_address_masks(address);
            }
            if register == 0x2002 {
                Ok(self.ppu.read_ppustatus())
            } else if register == 0x2004 {
                Ok(self.ppu.read_oamdata(self.ppu.read_oamaddr() as usize))
            } else if register == 0x2007 {
                Ok(self.ppu.read_ppudata())
            } else {
                Err(EmulatorError::UnsupportedRead(register))
            }
        } else if address == 0x4014 {
            Err(EmulatorError::UnsupportedRead(address))
        } else if address == 0x4016 {
            Ok(self.controller_1.read())
        } else if address == 0x4017 {
            Ok(self.controller_2.read())
        } else if address >= 0x8000 {
            Ok(self.prg_at(self.prg_offset(address)))
        } else {
            Ok(0)
        }
    }

    /// Reads the little-endian word at `address`; reading a word changes
    /// nothing.
    pub fn read_word(&self, address: u16) -> (value: u16)
        requires
            self@.wf(),
        ensures
            value == self@.read_word(address),
    {
        proof {
            reveal(BusState::read_word);
        }
        if address < 0x2000 {
            proof {
                lemma_address_masks(address);
            }
            let index = (address & 0x07FF) as usize;
            let next = if index < 0x100 {
                (index + 1) % 0x100
            } else {
                (index + 1) % 0x800
            };
            make_word(self.cpu_ram[index], self.cpu_ram[next])
        } else if address >= 0x8000 {
            let index = self.prg_offset(address);
            let next = if index + 1 < self.prg_rom.len() {
                index + 1
            } else {
                0
            };
            make_word(self.prg_at(index), self.prg_at(next))
        } else {
            0
        }
    }

    /// Writes one byte as the CPU does.
    pub fn write_byte(&mut self, address: u16, value: u8) -> (done: Result<(), EmulatorError>)
        requires
            old(self)@.wf(),
        ensures
            (final(self)@, done) == old(self)@.write(address, value),
            final(self)@.wf(),
            address == 0x4014 ==> {
                &&& done == Ok::<(), EmulatorError>(())
                &&& final(self)@.ppu.oam == old(self)@.ppu.oam_after_dma(
                    old(self)@.dma_page(value),
                )
                &&& final(self)@.ppu.oam_addr == old(self)@.ppu.oam_addr
                &&& final(self)@.cycles == old(self)@.cycles.wrapping_add(513)
                &&& (old(self)@.cycles + 513 <= u64::MAX ==> final(self)@.cycles == old(
                    self,
                )@.cycles + 513)
            },
    {
        proof {
            reveal(BusState::write);
            if address == 0x4014 {
                crate::laws::lemma_oam_dma_copies_a_page(self@, value);
            }
        }
        if address < 0x2000 {
            proof {
                lemma_address_masks(address);
            }
            self.cpu_ram[(address & 0x07FF) as usize] = value;
            Ok(())
        } else if address < 0x4000 {
            let register = address & 0x2007;
            proof {
                lemma_address_masks(address);
            }
            if register == 0x2000 {
                self.ppu.write_ppuctrl(value);
            } else if register == 0x2001 {
                self.ppu.write_ppumask(value);
            } else if register == 0x2002 {
                return Err(EmulatorError::UnsupportedWrite(register));
            } else if register == 0x2003 {
                self.ppu.write_oamaddr(value);
            } else if register == 0x2004 {
                self.ppu.write_oamdata(value);
            } else if register == 0x2005 {
                self.ppu.write_ppuscroll(value);
            } else if register == 0x2006 {
                self.ppu.write_ppuaddr(value);
            } else {
                self.ppu.write_ppudata(value);
            }
            Ok(())
        } else if address == 0x4014 {
            self.oam_dma(value);
            Ok(())
        } else if address == 0x4016 {
            self.controller_1.write(value);
            Ok(())
        } else if address == 0x4017 {
            self.controller_2.write(value);
            Ok(())
        } else if address >= 0x8000 {
            Err(EmulatorError::ROMWriteForbidden(address))
        } else {
            Ok(())
        }
    }

    /// Writes a little-endian word.
    pub fn write_word(&mut self, address: u16, value: u16) -> (done: Result<(), EmulatorError>)
        requires
            old(self)@.wf(),
        ensures
            (final(self)@, done) == old(self)@.write_word(address, value),
            final(self)@.wf(),
    {
        proof {
            reveal(BusState::write_word);
        }
        if address < 0x2000 {
            proof {
                lemma_address_masks(address);
            }
            let index = (address & 0x07FF) as usize;
            let next = if index < 0x100 {
                (index + 1) % 0x100
            } else {
                (index + 1) % 0x800
            };
            self.cpu_ram[index] = low(value);
            self.cpu_ram[next] = high(value);
            Ok(())
        } else if address >= 0x8000 {
            Err(EmulatorError::ROMWriteForbidden(address))
        } else {
            Ok(())
        }
    }

    /// Copies CPU page `page` into sprite memory and lets the 513 cycles
    /// of the transfer pass.
    fn oam_dma(&mut self, page: u8)
        requires
            old(self)@.wf(),
        ensures
            final(self)@ == old(self)@.oam_dma(page),
            final(self)@.wf(),
    {
        let mut buffer: [u8; 256] = [0u8; 256];
        let base: u16 = page as u16 * 256;
        let mut offset: usize = 0;
        while offset < 256
            invariant
                offset <= 256,
                base == page * 256,
                self@.wf(),
                forall|i: int|
                    0 <= i < offset ==> #[trigger] buffer@[i] == self@.peek_or_zero(
                        (page * 256 + i) as u16,
                    ),
            decreases 256 - offset,
        {
            let byte = match self.peek(base + offset as u16) {
                Some(value) => value,
                None => 0,
            };
            buffer[offset] = byte;
            offset += 1;
        }
        assert(buffer@ =~= self@.dma_page(page));
        self.ppu.write_oamdma(&buffer);
        self.tick(171);
        self.tick(171);
        self.tick(171);
    }
}

impl Operational for Bus {
    open spec fn operational(&self) -> bool {
        self@.wf()
    }

    open spec fn state(&self) -> BusState {
        self@
    }
}

impl BusOperation<u8> for Bus {
    open spec fn read_outcome(state: BusState, address: u16) -> (
        BusState,
        Result<u8, EmulatorError>,
    ) {
        state.read(address)
    }

    open spec fn write_outcome(state: BusState, address: u16, value: u8) -> (
        BusState,
        Result<(), EmulatorError>,
    ) {
        state.write(address, value)
    }

    fn read(&mut self, address: u16) -> Result<u8, EmulatorError> {
        self.read_byte(address)
    }

    fn write(&mut self, address: u16, value: u8) -> Result<(), EmulatorError> {
        self.write_byte(address, value)
    }
}

impl BusOperation<u16> for Bus {
    open spec fn read_outcome(state: BusState, address: u16) -> (
        BusState,
        Result<u16, EmulatorError>,
    ) {
        (state, Ok(state.read_word(address)))
    }

    open spec fn write_outcome(state: BusState, address: u16, value: u16) -> (
        BusState,
        Result<(), EmulatorError>,
    ) {
        state.write_word(address, value)
    }

    fn read(&mut self, address: u16) -> Result<u16, EmulatorError> {
        Ok(self.read_word(address))
    }

    fn write(&mut self, address: u16, value: u16) -> Result<(), EmulatorError> {
        self.write_word(address, value)
    }
}

} // verus!
