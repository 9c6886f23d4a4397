use crate::bits::{bit_is_set, high_byte, low_byte, test_bit, word_of};
use vstd::prelude::*;

verus! {

/// PPUCTRL ($2000, write): miscellaneous settings.
///
/// Bits 0-1 pick the base nametable, bit 2 the VRAM address step, bit 3 the
/// sprite pattern table, bit 4 the background pattern table, bit 5 the
/// sprite size and bit 7 enables the NMI at the start of vertical blank.
#[derive(Clone, Copy, PartialEq, Eq, Structural, Debug)]
pub struct PPUCTRL {
    pub bits: u8,
}

/// The VRAM address step that a PPUCTRL value selects: 1 when bit 2 is set,
/// 32 when it is clear.
pub open spec fn vram_step(ctrl: u8) -> u8 {
    if bit_is_set(ctrl, 2) {
        1
    } else {
        32
    }
}

/// The base nametable address that a PPUCTRL value selects.
pub open spec fn base_nametable(ctrl: u8) -> u16 {
    (0x2000 + 0x400 * (ctrl % 4)) as u16
}

/// The pattern table address that a select bit stands for.
pub open spec fn pattern_table(selected: bool) -> u16 {
    if selected {
        0x1000
    } else {
        0x0000
    }
}

impl PPUCTRL {
    pub fn new() -> (register: PPUCTRL)
        ensures
            register.bits == 0,
    {
        PPUCTRL { bits: 0 }
    }

    pub fn write(&mut self, value: u8)
        ensures
            final(self).bits == value,
    {
        self.bits = value;
    }

    pub fn bits(&self) -> (bits: u8)
        ensures
            bits == self.bits,
    {
        self.bits
    }

    pub fn address_increment(&self) -> (step: u8)
        ensures
            step == vram_step(self.bits),
    {
        if test_bit(self.bits, 2) {
            1
        } else {
            32
        }
    }

    pub fn is_vblank_nmi_set(&self) -> (enabled: bool)
        ensures
            enabled == bit_is_set(self.bits, 7),
    {
        test_bit(self.bits, 7)
    }

    pub fn nametable_address(&self) -> (address: u16)
        ensures
            address == base_nametable(self.bits),
    {
        let index: u16 = (self.bits % 4) as u16;
        0x2000 + 0x400 * index
    }

    pub fn sprite_pattern_address(&self) -> (address: u16)
        ensures
            address == pattern_table(bit_is_set(self.bits, 3)),
    {
        if test_bit(self.bits, 3) {
            0x1000
        } else {
            0x0000
        }
    }

    pub fn background_pattern_address(&self) -> (address: u16)
        ensures
            address == pattern_table(bit_is_set(self.bits, 4)),
    {
        if test_bit(self.bits, 4) {
            0x1000
        } else {
            0x0000
        }
    }
}

/// PPUMASK ($2001, write): rendering settings.
///
/// Bit 0 is greyscale, bits 1 and 2 show background and sprites in the
/// leftmost eight pixels, bit 3 enables the background, bit 4 the sprites,
/// and bits 5-7 emphasise red, green and blue.
#[derive(Clone, Copy, PartialEq, Eq, Structural, Debug)]
pub struct PPUMASK {
    pub bits: u8,
}

impl PPUMASK {
    pub fn new() -> (register: PPUMASK)
        ensures
            register.bits == 0,
    {
        PPUMASK { bits: 0 }
    }

    pub fn write(&mut self, value: u8)
        ensures
            final(self).bits == value,
    {
        self.bits = value;
    }

    pub fn bits(&self) -> (bits: u8)
        ensures
            bits == self.bits,
    {
        self.bits
    }

    pub fn is_background_rendering_enabled(&self) -> (enabled: bool)
        ensures
            enabled == bit_is_set(self.bits, 3),
    {
        test_bit(self.bits, 3)
    }

    pub fn is_sprite_rendering_enabled(&self) -> (enabled: bool)
        ensures
            enabled == bit_is_set(self.bits, 4),
    {
        test_bit(self.bits, 4)
    }
}

/// PPUSTATUS ($2002, read): rendering events.
///
/// Bit 7 is the vertical blank flag, bit 6 the sprite 0 hit flag and bit 5
/// the sprite overflow flag; the low five bits read as 0.
#[derive(Clone, Copy, PartialEq, Eq, Structural, Debug)]
pub struct PPUSTATUS {
    pub sprite_overflow: bool,
    pub sprite_zero_hit: bool,
    pub vblank: bool,
}

/// The byte that the three status flags read as.
pub open spec fn status_byte(vblank: bool, sprite_zero_hit: bool, sprite_overflow: bool) -> u8 {
    ((if vblank {
        128int
    } else {
        0
    }) + (if sprite_zero_hit {
        64int
    } else {
        0
    }) + (if sprite_overflow {
        32int
    } else {
        0
    })) as u8
}

impl PPUSTATUS {
    pub fn new() -> (register: PPUSTATUS)
        ensures
            register == (PPUSTATUS { sprite_overflow: false, sprite_zero_hit: false, vblank: false }),
    {
        PPUSTATUS { sprite_overflow: false, sprite_zero_hit: false, vblank: false }
    }

    pub fn read(&self) -> (value: u8)
        ensures
            value == status_byte(self.vblank, self.sprite_zero_hit, self.sprite_overflow),
    {
        let mut value: u8 = 0;
        if self.vblank {
            value = value + 128;
        }
        if self.sprite_zero_hit {
            value = value + 64;
        }
        if self.sprite_overflow {
            value = value + 32;
        }
        value
    }
}

/// OAMADDR ($2003, write): the position in sprite memory that OAMDATA uses.
#[derive(Clone, Copy, PartialEq, Eq, Structural, Debug)]
pub struct OAMADDR {
    pub data: u8,
}

impl OAMADDR {
    pub fn new() -> (register: OAMADDR)
        ensures
            register.data == 0,
    {
        OAMADDR { data: 0 }
    }

    pub fn read(&self) -> (data: u8)
        ensures
            data == self.data,
    {
        self.data
    }

    pub fn write(&mut self, data: u8)
        ensures
            final(self).data == data,
    {
        self.data = data;
    }

    /// Moves to the next position; behind the last one comes the first.
    pub fn inc(&mut self)
        ensures
            final(self).data == (old(self).data + 1) % 256,
    {
        self.data = self.data.wrapping_add(1);
    }
}

/// OAMDATA ($2004): the latch of the sprite memory data port.
#[derive(Clone, Copy, PartialEq, Eq, Structural, Debug)]
pub struct OAMDATA {
    pub data: u8,
}

impl OAMDATA {
    pub fn new() -> (register: OAMDATA)
        ensures
            register.data == 0,
    {
        OAMDATA { data: 0 }
    }

    pub fn read(&self) -> (data: u8)
        ensures
            data == self.data,
    {
        self.data
    }

    pub fn write(&mut self, data: u8)
        ensures
            final(self).data == data,
    {
        self.data = data;
    }
}

/// OAMDMA ($4014, write): the CPU page that the last sprite DMA copied.
#[derive(Clone, Copy, PartialEq, Eq, Structural, Debug)]
pub struct OAMDMA {
    pub value: u8,
}

impl OAMDMA {
    pub fn new() -> (register: OAMDMA)
        ensures
            register.value == 0,
    {
        OAMDMA { value: 0 }
    }

    pub fn write(&mut self, value: u8)
        ensures
            final(self).value == value,
    {
        self.value = value;
    }
}

/// The VRAM address after a PPUADDR write: the first write of a pair
/// replaces the high byte, the second the low byte, and the result is
/// kept within 14 bits.
pub open spec fn address_after_write(address: u16, value: u8, second_write: bool) -> u16 {
    if second_write {
        (word_of(value, high_byte(address)) % 0x4000) as u16
    } else {
        (word_of(low_byte(address), value) % 0x4000) as u16
    }
}

/// The VRAM address after it was advanced by `step`, kept within 14 bits.
pub open spec fn address_after_step(address: u16, step: u8) -> u16 {
    ((address + step) % 0x4000) as u16
}

/// PPUADDR ($2006, write twice): the 14-bit VRAM address.
#[derive(Clone, Copy, PartialEq, Eq, Structural, Debug)]
pub struct PPUADDR {
    pub value: u16,
}

impl PPUADDR {
    pub fn new() -> (register: PPUADDR)
        ensures
            register.value == 0,
    {
        PPUADDR { value: 0 }
    }

    pub fn read(&self) -> (address: u16)
        ensures
            address == self.value,
    {
        self.value
    }

    /// Takes one byte of the address and toggles the write latch, which is
    /// shared with PPUSCROLL.
    pub fn write(&mut self, value: u8, register_w: &mut bool)
        ensures
            final(self).value == address_after_write(old(self).value, value, *old(register_w)),
            *final(register_w) == !*old(register_w),
            final(self).value < 0x4000,
    {
        let low: u16 = self.value % 256;
        let high: u16 = self.value / 256;
        let wide: u16 = value as u16;
        if *register_w {
            self.value = (high * 256 + wide) % 0x4000;
        } else {
            self.value = (wide * 256 + low) % 0x4000;
        }
        *register_w = !*register_w;
    }

    pub fn inc(&mut self, value: u8)
        requires
            old(self).value < 0x4000,
        ensures
            final(self).value == address_after_step(old(self).value, value),
            final(self).value < 0x4000,
    {
        let wide: u16 = value as u16;
        self.value = (self.value + wide) % 0x4000;
    }
}

/// PPUSCROLL ($2005, write twice): the horizontal and the vertical scroll.
#[derive(Clone, Copy, PartialEq, Eq, Structural, Debug)]
pub struct PPUSCROLL {
    pub x: u8,
    pub y: u8,
}

impl PPUSCROLL {
    pub fn new() -> (register: PPUSCROLL)
        ensures
            register == (PPUSCROLL { x: 0, y: 0 }),
    {
        PPUSCROLL { x: 0, y: 0 }
    }

    /// Takes the horizontal scroll on the first write of a pair and the
    /// vertical scroll on the second, and toggles the write latch, which is
    /// shared with PPUADDR.
    pub fn write(&mut self, value: u8, register_w: &mut bool)
        ensures
            *final(self) == (if *old(register_w) {
                PPUSCROLL { x: old(self).x, y: value }
            } else {
                PPUSCROLL { x: value, y: old(self).y }
            }),
            *final(register_w) == !*old(register_w),
    {
        if *register_w {
            self.y = value;
        } else {
            self.x = value;
        }
        *register_w = !*register_w;
    }

    pub fn x_scroll(&self) -> (scroll: u8)
        ensures
            scroll == self.x,
    {
        self.x
    }

    pub fn y_scroll(&self) -> (scroll: u8)
        ensures
            scroll == self.y,
    {
        self.y
    }
}

/// PPUDATA ($2007): the one-byte buffer behind VRAM reads.
#[derive(Clone, Copy, PartialEq, Eq, Structural, Debug)]
pub struct PPUDATA {
    pub read_buffer: u8,
}

impl PPUDATA {
    pub fn new() -> (register: PPUDATA)
        ensures
            register.read_buffer == 0,
    {
        PPUDATA { read_buffer: 0 }
    }

    /// Hands out the byte of the previous fetch and keeps the new one.
    pub fn read(&mut self, buffer_value: u8) -> (previous: u8)
        ensures
            previous == old(self).read_buffer,
            final(self).read_buffer == buffer_value,
    {
        let result = self.read_buffer;
        self.read_buffer = buffer_value;
        result
    }
}

} // verus!
