use crate::bits::bit_is_set;
use crate::ppu::register::{
    base_nametable, pattern_table, OAMADDR, PPUADDR, PPUCTRL, PPUDATA, PPUMASK, PPUSCROLL,
    PPUSTATUS,
};
use crate::ppu::state::{
    dma_source, nametable_index, PpuState, DOTS_PER_SCANLINE, SCANLINES_PER_FRAME, VBLANK_SCANLINE,
};
use crate::rom::Mirroring;
use core::ops::Range;
use vstd::prelude::*;
use vstd::slice::slice_subrange;

verus! {

/// The picture processing unit: its registers, its memories and its
/// position in the frame.
pub struct PPU {
    ppuctrl: PPUCTRL,
    ppumask: PPUMASK,
    ppustatus: PPUSTATUS,
    oamaddr: OAMADDR,
    ppuscroll: PPUSCROLL,
    ppuaddr: PPUADDR,
    ppudata: PPUDATA,
    register_w: bool,
    chr_rom: Vec<u8>,
    chr_writable: bool,
    mirroring: Mirroring,
    vram: Vec<u8>,
    palette_table: Vec<u8>,
    oam_data: Vec<u8>,
    scanline: u16,
    cycles: u16,
    nmi_interrupt: bool,
}

impl View for PPU {
    type V = PpuState;

    closed spec fn view(&self) -> PpuState {
        PpuState {
            ctrl: self.ppuctrl.bits,
            mask: self.ppumask.bits,
            vblank: self.ppustatus.vblank,
            sprite_zero_hit: self.ppustatus.sprite_zero_hit,
            sprite_overflow: self.ppustatus.sprite_overflow,
            oam_addr: self.oamaddr.data,
            scroll_x: self.ppuscroll.x,
            scroll_y: self.ppuscroll.y,
            write_toggle: self.register_w,
            vram_addr: self.ppuaddr.value,
            read_buffer: self.ppudata.read_buffer,
            chr: self.chr_rom@,
            chr_writable: self.chr_writable,
            mirroring: self.mirroring,
            vram: self.vram@,
            palette: self.palette_table@,
            oam: self.oam_data@,
            scanline: self.scanline,
            dot: self.cycles,
            nmi_pending: self.nmi_interrupt,
        }
    }
}

impl PPU {
    /// Builds the unit around the pattern memory of a cartridge. An empty
    /// `chr_rom` stands for a cartridge with 8 KiB of pattern RAM.
    pub fn new(chr_rom: Vec<u8>, mirroring: Mirroring) -> (ppu: PPU)
        requires
            chr_rom@.len() % 8192 == 0,
        ensures
            ppu@ == PpuState::power_on(chr_rom@, mirroring),
            ppu@.wf(),
    {
        let chr_writable = chr_rom.len() == 0;
        let chr: Vec<u8> = if chr_writable {
            vec![0u8; 0x2000]
        } else {
            chr_rom
        };
        let ppu = PPU {
            ppuctrl: PPUCTRL::new(),
            ppumask: PPUMASK::new(),
            ppustatus: PPUSTATUS::new(),
            oamaddr: OAMADDR::new(),
            ppuscroll: PPUSCROLL::new(),
            ppuaddr: PPUADDR::new(),
            ppudata: PPUDATA::new(),
            register_w: false,
            chr_rom: chr,
            chr_writable,
            mirroring,
            vram: vec![0u8; 2048],
            palette_table: vec![0u8; 32],
            oam_data: vec![0u8; 256],
            scanline: 0,
            cycles: 0,
            nmi_interrupt: false,
        };
        proof {
            let expected = PpuState::power_on(chr_rom@, mirroring);
            assert(ppu@.chr =~= expected.chr);
            assert(ppu@.vram =~= expected.vram);
            assert(ppu@.palette =~= expected.palette);
            assert(ppu@.oam =~= expected.oam);
        }
        ppu
    }

    /// Advances the unit by `cycles` dots and says whether that completed
    /// a frame.
    pub fn tick(&mut self, cycles: u8) -> (frame_completed: bool)
        requires
            old(self)@.wf(),
        ensures
            (final(self)@, frame_completed) == old(self)@.tick(cycles),
            final(self)@.wf(),
    {
        let wide: u16 = cycles as u16;
        self.cycles = self.cycles + wide;
        let hit = self.is_sprite_0_hit(self.cycles);
        if self.cycles < DOTS_PER_SCANLINE {
            if hit {
                self.ppustatus.sprite_zero_hit = true;
            }
            return false;
        }
        self.cycles = self.cycles - DOTS_PER_SCANLINE;
        self.scanline = self.scanline + 1;
        if self.scanline >= SCANLINES_PER_FRAME {
            self.scanline = 0;
            self.nmi_interrupt = false;
            self.ppustatus.vblank = false;
            self.ppustatus.sprite_zero_hit = false;
            self.ppustatus.sprite_overflow = false;
            return true;
        }
        if hit {
            self.ppustatus.sprite_zero_hit = true;
        }
        if self.scanline == VBLANK_SCANLINE {
            self.ppustatus.vblank = true;
            self.nmi_interrupt = self.ppuctrl.is_vblank_nmi_set();
        }
        false
    }

    /// Hands out a pending NMI request, once.
    pub fn poll_nmi_interrupt(&mut self) -> (requested: bool)
        ensures
            (final(self)@, requested) == old(self)@.poll_nmi(),
    {
        let requested = self.nmi_interrupt;
        self.nmi_interrupt = false;
        requested
    }

    pub fn write_ppuctrl(&mut self, value: u8)
        ensures
            final(self)@ == old(self)@.write_ctrl(value),
    {
        let nmi_disabled = !self.ppuctrl.is_vblank_nmi_set();
        self.ppuctrl.write(value);
        self.nmi_interrupt = nmi_disabled && self.ppuctrl.is_vblank_nmi_set()
            && self.ppustatus.vblank;
    }

    pub fn write_ppumask(&mut self, value: u8)
        ensures
            final(self)@ == old(self)@.write_mask(value),
    {
        self.ppumask.write(value);
    }

    pub fn write_oamaddr(&mut self, value: u8)
        ensures
            final(self)@ == old(self)@.write_oam_addr(value),
    {
        self.oamaddr.write(value);
    }

    pub fn write_oamdata(&mut self, value: u8)
        requires
            old(self)@.wf(),
        ensures
            final(self)@ == old(self)@.write_oam_data(value),
            final(self)@.wf(),
    {
        let position = self.oamaddr.read() as usize;
        self.oam_data[position] = value;
        self.oamaddr.inc();
    }

    /// Takes a PPUSCROLL write and toggles the write latch.
    pub fn write_ppuscroll(&mut self, value: u8)
        ensures
            final(self)@ == old(self)@.write_scroll(value),
            final(self)@.write_toggle == !old(self)@.write_toggle,
    {
        self.ppuscroll.write(value, &mut self.register_w);
    }

    /// Takes a PPUADDR write and toggles the write latch.
    pub fn write_ppuaddr(&mut self, address_part: u8)
        ensures
            final(self)@ == old(self)@.write_addr(address_part),
            final(self)@.write_toggle == !old(self)@.write_toggle,
            old(self)@.wf() ==> final(self)@.wf(),
    {
        self.ppuaddr.write(address_part, &mut self.register_w);
    }

    pub fn write_ppudata(&mut self, value: u8)
        requires
            old(self)@.wf(),
        ensures
            final(self)@ == old(self)@.write_data(value),
            final(self)@.wf(),
    {
        let address = self.ppuaddr.read();
        if address < 0x2000 {
            if self.chr_writable {
                self.chr_rom[address as usize] = value;
            }
        } else if address < 0x3F00 {
            match self.mirror_vram_addr(address) {
                Some(index) => {
                    self.vram[index as usize] = value;
                },
                None => {},
            }
        } else {
            self.palette_table[(address % 32) as usize] = value;
        }
        self.increment_ppuaddr();
    }

    /// Replaces the sprite memory by `value`, written from the current
    /// position on and wrapping behind the last one. The position ends
    /// where it began.
    #[verifier::rlimit(50)]
    pub fn write_oamdma(&mut self, value: &[u8; 256])
        requires
            old(self)@.wf(),
        ensures
            final(self)@ == old(self)@.write_oam_dma(value@),
            final(self)@.oam_addr == old(self)@.oam_addr,
            old(self)@.oam_addr == 0 ==> final(self)@.oam == value@,
            final(self)@.wf(),
    {
        let ghost start = self.oamaddr.data as int;
        let ghost before = self@;
        let mut copied: usize = 0;
        while copied < 256
            invariant
                copied <= 256,
                self.oam_data@.len() == 256,
                0 <= start < 256,
                self.oamaddr.data == (if start + copied < 256 {
                    start + copied
                } else {
                    start + copied - 256
                }),
                forall|position: int|
                    0 <= position < 256 ==> #[trigger] self.oam_data@[position] == (if dma_source(
                        position,
                        start as u8,
                    ) < copied {
                        value@[dma_source(position, start as u8)]
                    } else {
                        before.oam[position]
                    }),
                self@ == (PpuState { oam: self.oam_data@, oam_addr: self.oamaddr.data, ..before }),
                before.wf(),
            decreases 256 - copied,
        {
            let position = self.oamaddr.read() as usize;
            self.oam_data[position] = value[copied];
            self.oamaddr.inc();
            copied += 1;
        }
        proof {
            assert(self.oam_data@ =~= before.oam_after_dma(value@));
            if start == 0 {
                assert(self.oam_data@ =~= value@);
            }
        }
    }

    /// The 16 bytes of sprite pattern `tile`.
    pub fn read_sprite_tile(&self, tile: usize) -> (pattern: &[u8])
        requires
            self@.wf(),
            tile < 256,
        ensures
            pattern@ == self@.pattern(pattern_table(bit_is_set(self@.ctrl, 3)), tile as int),
            pattern@.len() == 16,
    {
        let bank = self.ppuctrl.sprite_pattern_address() as usize;
        slice_subrange(self.chr_rom.as_slice(), bank + tile * 16, bank + tile * 16 + 16)
    }

    pub fn read_vram(&self, address: usize) -> (value: u8)
        requires
            self@.wf(),
            address < 2048,
        ensures
            value == self@.vram[address as int],
    {
        self.vram[address]
    }

    pub fn read_oamdata(&self, address: usize) -> (value: u8)
        requires
            self@.wf(),
            address < 256,
        ensures
            value == self@.oam[address as int],
    {
        self.oam_data[address]
    }

    pub fn read_palette_table(&self, address: usize) -> (value: u8)
        requires
            self@.wf(),
            address < 32,
        ensures
            value == self@.palette[address as int],
    {
        self.palette_table[address]
    }

    /// Reads PPUSTATUS, which clears the vertical blank flag and the write
    /// latch.
    pub fn read_ppustatus(&mut self) -> (status: u8)
        ensures
            status == old(self)@.read_status_value(),
            final(self)@ == old(self)@.after_read_status(),
            !final(self)@.vblank,
            !final(self)@.write_toggle,
            old(self)@.wf() ==> final(self)@.wf(),
    {
        let status = self.ppustatus.read();
        self.ppustatus.vblank = false;
        self.register_w = false;
        status
    }

    pub fn read_oamaddr(&self) -> (position: u8)
        ensures
            position == self@.oam_addr,
    {
        self.oamaddr.read()
    }

    pub fn read_ppudata(&mut self) -> (value: u8)
        requires
            old(self)@.wf(),
        ensures
            value == old(self)@.read_data_value(),
            final(self)@ == old(self)@.after_read_data(),
            final(self)@.wf(),
    {
        let address = self.ppuaddr.read();
        self.increment_ppuaddr();
        if address < 0x2000 {
            let fetched = self.chr_rom[address as usize];
            self.ppudata.read(fetched)
        } else {
            let fetched = match self.mirror_vram_addr(address) {
                Some(index) => self.vram[index as usize],
                None => 0,
            };
            let buffered = self.ppudata.read(fetched);
            if address < 0x3F00 {
                buffered
            } else {
                self.palette_table[(address % 32) as usize]
            }
        }
    }

    pub fn get_x_scroll(&self) -> (scroll: u8)
        ensures
            scroll == self@.scroll_x,
    {
        self.ppuscroll.x_scroll()
    }

    pub fn get_y_scroll(&self) -> (scroll: u8)
        ensures
            scroll == self@.scroll_y,
    {
        self.ppuscroll.y_scroll()
    }

    /// The 16 bytes of the background pattern that entry `tile` of the
    /// nametable at `name_table_range` names.
    pub fn read_tile(&self, tile: usize, name_table_range: &Range<usize>) -> (pattern: &[u8])
        requires
            self@.wf(),
            name_table_range.start + tile < name_table_range.end,
            name_table_range.end <= 2048,
        ensures
            pattern@ == self@.pattern(
                pattern_table(bit_is_set(self@.ctrl, 4)),
                self@.vram[name_table_range.start + tile] as int,
            ),
            pattern@.len() == 16,
    {
        let bank_addr = self.ppuctrl.background_pattern_address() as usize;
        let tile_index = self.vram[name_table_range.start + tile] as usize;
        slice_subrange(
            self.chr_rom.as_slice(),
            bank_addr + tile_index * 16,
            bank_addr + tile_index * 16 + 16,
        )
    }

    /// The places in nametable memory of the nametable that PPUCTRL
    /// selects and of the one beside it.
    pub fn get_name_table_ranges(&self) -> (ranges: (Range<usize>, Range<usize>))
        requires
            self@.mirroring != Mirroring::FourScreen,
        ensures
            ranges == name_table_ranges(self@.mirroring, self@.ctrl),
    {
        let base = self.ppuctrl.nametable_address();
        let first_half = match self.mirroring {
            Mirroring::Vertical => base == 0x2000 || base == 0x2800,
            _ => base == 0x2000 || base == 0x2400,
        };
        if first_half {
            (Range { start: 0, end: 0x400 }, Range { start: 0x400, end: 0x800 })
        } else {
            (Range { start: 0x400, end: 0x800 }, Range { start: 0, end: 0x400 })
        }
    }

    /// The nametable mirroring that the cartridge wires.
    pub fn get_mirroring(&self) -> (mirroring: Mirroring)
        ensures
            mirroring == self@.mirroring,
    {
        self.mirroring
    }

    pub fn scanline(&self) -> (scanline: u16)
        ensures
            scanline == self@.scanline,
    {
        self.scanline
    }

    /// The dot within the scanline.
    pub fn cycles(&self) -> (dot: u16)
        ensures
            dot == self@.dot,
    {
        self.cycles
    }

    /// Advances the VRAM address by the step that PPUCTRL selects.
    pub fn increment_ppuaddr(&mut self)
        requires
            old(self)@.wf(),
        ensures
            final(self)@ == old(self)@.advance_address(),
            final(self)@.wf(),
    {
        self.ppuaddr.inc(self.ppuctrl.address_increment());
    }

    /// The place in nametable memory that a PPU address from 0x2000 to
    /// 0x3FFF stands for; `None` where four-screen mirroring leaves the
    /// address without memory.
    pub fn mirror_vram_addr(&self, address: u16) -> (index: Option<u16>)
        requires
            0x2000 <= address < 0x4000,
        ensures
            match index {
                Some(place) => nametable_index(self@.mirroring, address) == Some(place as int)
                    && place < 2048,
                None => nametable_index(self@.mirroring, address).is_none(),
            },
    {
        let vram_index: u16 = address % 0x1000;
        let name_table = vram_index / 0x400;
        match self.mirroring {
            Mirroring::Vertical => if name_table >= 2 {
                Some(vram_index - 0x800)
            } else {
                Some(vram_index)
            },
            Mirroring::Horizontal => if name_table == 0 {
                Some(vram_index)
            } else if name_table == 3 {
                Some(vram_index - 0x800)
            } else {
                Some(vram_index - 0x400)
            },
            Mirroring::FourScreen => if vram_index < 0x800 {
                Some(vram_index)
            } else {
                None
            },
        }
    }

    /// Whether sprite 0 is hit on the current scanline by dot `cycle`.
    pub fn is_sprite_0_hit(&self, cycle: u16) -> (hit: bool)
        requires
            self@.oam.len() == 256,
        ensures
            hit == self@.sprite_zero_hits(cycle as int),
    {
        let y = self.oam_data[0] as u16;
        let x = self.oam_data[3] as u16;
        y == self.scanline && x <= cycle && self.ppumask.is_sprite_rendering_enabled()
    }
}

/// The nametable that the base nametable bits of PPUCTRL select, and the
/// one beside it, as places in the 2 KiB of nametable memory.
pub open spec fn name_table_ranges(mirroring: Mirroring, ctrl: u8) -> (Range<usize>, Range<usize>) {
    let base = base_nametable(ctrl);
    let first_half = if mirroring == Mirroring::Vertical {
        base == 0x2000 || base == 0x2800
    } else {
        base == 0x2000 || base == 0x2400
    };
    if first_half {
        (Range { start: 0, end: 0x400 }, Range { start: 0x400, end: 0x800 })
    } else {
        (Range { start: 0x400, end: 0x800 }, Range { start: 0, end: 0x400 })
    }
}

} // verus!
