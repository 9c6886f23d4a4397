use crate::bits::bit_is_set;
use crate::ppu::register::{address_after_step, address_after_write, status_byte, vram_step};
use crate::rom::Mirroring;
use vstd::prelude::*;

verus! {

/// Dots in one scanline.
pub const DOTS_PER_SCANLINE: u16 = 341;

/// Scanlines in one frame.
pub const SCANLINES_PER_FRAME: u16 = 262;

/// The scanline at whose first dot vertical blank starts.
pub const VBLANK_SCANLINE: u16 = 241;

/// The place in the 2 KiB of nametable memory that a PPU address between
/// 0x2000 and 0x3FFF stands for, or `None` where four-screen mirroring
/// leaves the address without memory.
///
/// Vertical mirroring folds nametables 2 and 3 onto 0 and 1; horizontal
/// mirroring folds nametable 1 onto 0 and puts 2 and 3 in the second half.
pub open spec fn nametable_index(mirroring: Mirroring, address: u16) -> Option<int> {
    let logical = (address % 0x1000) as int;
    let table = logical / 0x400;
    match mirroring {
        Mirroring::Vertical => Some(
            if table >= 2 {
                logical - 0x800
            } else {
                logical
            },
        ),
        Mirroring::Horizontal => Some(
            if table == 0 {
                logical
            } else if table == 3 {
                logical - 0x800
            } else {
                logical - 0x400
            },
        ),
        Mirroring::FourScreen => if logical < 0x800 {
            Some(logical)
        } else {
            None
        },
    }
}

/// The place in the 32-byte palette that a PPU address of the palette
/// region stands for.
pub open spec fn palette_index(address: u16) -> int {
    (address % 32) as int
}

/// The place in the 256 bytes of a sprite DMA whose byte ends up at
/// `position` of sprite memory when the transfer starts at `start`.
pub open spec fn dma_source(position: int, start: u8) -> int {
    if position >= start {
        position - start
    } else {
        position + 256 - start
    }
}

/// The picture processing unit as plain values.
pub struct PpuState {
    pub ctrl: u8,
    pub mask: u8,
    pub vblank: bool,
    pub sprite_zero_hit: bool,
    pub sprite_overflow: bool,
    pub oam_addr: u8,
    pub scroll_x: u8,
    pub scroll_y: u8,
    /// The write latch shared by PPUSCROLL and PPUADDR: `true` when the
    /// next write is the second of a pair.
    pub write_toggle: bool,
    pub vram_addr: u16,
    pub read_buffer: u8,
    pub chr: Seq<u8>,
    /// Whether the pattern memory is RAM that PPUDATA writes reach.
    pub chr_writable: bool,
    pub mirroring: Mirroring,
    pub vram: Seq<u8>,
    pub palette: Seq<u8>,
    pub oam: Seq<u8>,
    pub scanline: u16,
    pub dot: u16,
    pub nmi_pending: bool,
}

impl PpuState {
    pub open spec fn wf(self) -> bool {
        &&& self.vram_addr < 0x4000
        &&& self.chr.len() >= 0x2000
        &&& self.vram.len() == 2048
        &&& self.palette.len() == 32
        &&& self.oam.len() == 256
        &&& self.scanline < 262
        &&& self.dot < 341
    }

    /// The unit at power-on with the pattern memory of a cartridge. A
    /// cartridge without CHR-ROM gets 8 KiB of writable pattern RAM.
    pub open spec fn power_on(chr_rom: Seq<u8>, mirroring: Mirroring) -> PpuState {
        PpuState {
            ctrl: 0,
            mask: 0,
            vblank: false,
            sprite_zero_hit: false,
            sprite_overflow: false,
            oam_addr: 0,
            scroll_x: 0,
            scroll_y: 0,
            write_toggle: false,
            vram_addr: 0,
            read_buffer: 0,
            chr: if chr_rom.len() == 0 {
                Seq::new(0x2000, |i: int| 0u8)
            } else {
                chr_rom
            },
            chr_writable: chr_rom.len() == 0,
            mirroring,
            vram: Seq::new(2048, |i: int| 0u8),
            palette: Seq::new(32, |i: int| 0u8),
            oam: Seq::new(256, |i: int| 0u8),
            scanline: 0,
            dot: 0,
            nmi_pending: false,
        }
    }

    /// The nametable byte behind an address between 0x2000 and 0x3FFF;
    /// 0 where four-screen mirroring leaves the address without memory.
    pub open spec fn nametable_byte(self, address: u16) -> u8 {
        match nametable_index(self.mirroring, address) {
            Some(index) => self.vram[index],
            None => 0,
        }
    }

    /// The byte at a 14-bit PPU address: pattern memory below 0x2000,
    /// nametables and their mirror below 0x3F00, the palette above.
    pub open spec fn memory_byte(self, address: u16) -> u8 {
        if address < 0x2000 {
            self.chr[address as int]
        } else if address < 0x3F00 {
            self.nametable_byte(address)
        } else {
            self.palette[palette_index(address)]
        }
    }

    /// Whether sprite 0 is hit on the current scanline by dot `dot`:
    /// sprites are shown, the sprite's row is the scanline and its column
    /// is not behind the dot.
    pub open spec fn sprite_zero_hits(self, dot: int) -> bool {
        &&& bit_is_set(self.mask, 4)
        &&& self.oam[0] == self.scanline
        &&& self.oam[3] <= dot
    }

    /// The unit after the scanline ended with `total` dots counted, and
    /// whether that completed the frame.
    pub open spec fn end_scanline(self, total: int) -> (PpuState, bool) {
        let hit = self.sprite_zero_hit || self.sprite_zero_hits(total);
        let dot = (total - 341) as u16;
        if self.scanline + 1 >= 262 {
            (
                PpuState {
                    dot,
                    scanline: 0,
                    vblank: false,
                    sprite_zero_hit: false,
                    sprite_overflow: false,
                    nmi_pending: false,
                    ..self
                },
                true,
            )
        } else if self.scanline + 1 == 241 {
            (
                PpuState {
                    dot,
                    scanline: 241,
                    vblank: true,
                    sprite_zero_hit: hit,
                    nmi_pending: bit_is_set(self.ctrl, 7),
                    ..self
                },
                false,
            )
        } else {
            (
                PpuState { dot, scanline: (self.scanline + 1) as u16, sprite_zero_hit: hit, ..self },
                false,
            )
        }
    }

    /// The unit after `dots` more dots, and whether they completed a frame.
    /// Sprite 0 is judged with the dot that the tick reaches, whether or
    /// not the tick ends the scanline.
    pub open spec fn tick(self, dots: u8) -> (PpuState, bool) {
        let total = self.dot + dots;
        if total < 341 {
            (
                PpuState {
                    dot: total as u16,
                    sprite_zero_hit: self.sprite_zero_hit || self.sprite_zero_hits(total),
                    ..self
                },
                false,
            )
        } else {
            self.end_scanline(total)
        }
    }

    /// The dots counted since the frame began.
    pub open spec fn frame_position(self) -> int {
        self.scanline * 341 + self.dot
    }

    /// The unit after the CPU polled for an NMI; the request is handed out
    /// once.
    pub open spec fn poll_nmi(self) -> (PpuState, bool) {
        (PpuState { nmi_pending: false, ..self }, self.nmi_pending)
    }

    /// A PPUCTRL write. Enabling the NMI during vertical blank requests
    /// one at once.
    pub open spec fn write_ctrl(self, value: u8) -> PpuState {
        PpuState {
            ctrl: value,
            nmi_pending: !bit_is_set(self.ctrl, 7) && bit_is_set(value, 7) && self.vblank,
            ..self
        }
    }

    pub open spec fn write_mask(self, value: u8) -> PpuState {
        PpuState { mask: value, ..self }
    }

    pub open spec fn write_oam_addr(self, value: u8) -> PpuState {
        PpuState { oam_addr: value, ..self }
    }

    /// An OAMDATA write: the byte goes to the current sprite memory
    /// position, which then moves on.
    pub open spec fn write_oam_data(self, value: u8) -> PpuState {
        PpuState {
            oam: self.oam.update(self.oam_addr as int, value),
            oam_addr: ((self.oam_addr + 1) % 256) as u8,
            ..self
        }
    }

    /// A PPUSCROLL write: the first of a pair sets the horizontal scroll,
    /// the second the vertical one.
    pub open spec fn write_scroll(self, value: u8) -> PpuState {
        if self.write_toggle {
            PpuState { scroll_y: value, write_toggle: false, ..self }
        } else {
            PpuState { scroll_x: value, write_toggle: true, ..self }
        }
    }

    /// A PPUADDR write: the first of a pair sets the high byte of the VRAM
    /// address, the second the low byte.
    pub open spec fn write_addr(self, value: u8) -> PpuState {
        PpuState {
            vram_addr: address_after_write(self.vram_addr, value, self.write_toggle),
            write_toggle: !self.write_toggle,
            ..self
        }
    }

    /// The unit with `value` stored at the VRAM address. Pattern memory
    /// takes the byte only where it is RAM.
    pub open spec fn store(self, value: u8) -> PpuState {
        if self.vram_addr < 0x2000 {
            if self.chr_writable {
                PpuState { chr: self.chr.update(self.vram_addr as int, value), ..self }
            } else {
                self
            }
        } else if self.vram_addr < 0x3F00 {
            match nametable_index(self.mirroring, self.vram_addr) {
                Some(index) => PpuState { vram: self.vram.update(index, value), ..self },
                None => self,
            }
        } else {
            PpuState { palette: self.palette.update(palette_index(self.vram_addr), value), ..self }
        }
    }

    /// The unit with the VRAM address advanced by the step of PPUCTRL.
    pub open spec fn advance_address(self) -> PpuState {
        PpuState { vram_addr: address_after_step(self.vram_addr, vram_step(self.ctrl)), ..self }
    }

    /// A PPUDATA write: store, then advance the address.
    pub open spec fn write_data(self, value: u8) -> PpuState {
        self.store(value).advance_address()
    }

    /// The byte that a PPUDATA read returns: the palette byte itself, and
    /// everywhere else the byte of the previous fetch.
    pub open spec fn read_data_value(self) -> u8 {
        if self.vram_addr < 0x3F00 {
            self.read_buffer
        } else {
            self.palette[palette_index(self.vram_addr)]
        }
    }

    /// The byte that a PPUDATA read leaves in the buffer: the addressed
    /// byte, and under the palette the nametable byte that it shadows.
    pub open spec fn read_data_refill(self) -> u8 {
        if self.vram_addr < 0x2000 {
            self.chr[self.vram_addr as int]
        } else {
            self.nametable_byte(self.vram_addr)
        }
    }

    /// The unit after a PPUDATA read.
    pub open spec fn after_read_data(self) -> PpuState {
        PpuState { read_buffer: self.read_data_refill(), ..self }.advance_address()
    }

    /// The byte that a PPUSTATUS read returns.
    pub open spec fn read_status_value(self) -> u8 {
        status_byte(self.vblank, self.sprite_zero_hit, self.sprite_overflow)
    }

    /// The unit after a PPUSTATUS read: vertical blank and the write latch
    /// are cleared.
    pub open spec fn after_read_status(self) -> PpuState {
        PpuState { vblank: false, write_toggle: false, ..self }
    }

    /// The sprite memory after a DMA of 256 bytes that starts at the
    /// current position and wraps behind the last one.
    pub open spec fn oam_after_dma(self, data: Seq<u8>) -> Seq<u8> {
        Seq::new(256, |position: int| data[dma_source(position, self.oam_addr)])
    }

    /// A sprite DMA: all 256 bytes of sprite memory are replaced and the
    /// position ends where it began.
    pub open spec fn write_oam_dma(self, data: Seq<u8>) -> PpuState {
        PpuState { oam: self.oam_after_dma(data), ..self }
    }

    /// The 16 bytes of pattern `tile` in the pattern table at `bank`.
    pub open spec fn pattern(self, bank: u16, tile: int) -> Seq<u8> {
        self.chr.subrange(bank + tile * 16, bank + tile * 16 + 16)
    }
}

} // verus!
