use nes::ppu::palette::{get_bg_palette, sprite_palette};
use nes::ppu::ppu::PPU;
use nes::ppu::register::{OAMADDR, OAMDATA, OAMDMA, PPUADDR, PPUCTRL, PPUDATA, PPUMASK, PPUSCROLL, PPUSTATUS};
use nes::rom::Mirroring;

fn chr_rom() -> Vec<u8> {
    (0..8192).map(|i| (i % 256) as u8 ^ (i / 256) as u8).collect()
}

fn point_at(ppu: &mut PPU, address: u16) {
    ppu.read_ppustatus();
    ppu.write_ppuaddr((address >> 8) as u8);
    ppu.write_ppuaddr(address as u8);
}

fn write_at(ppu: &mut PPU, address: u16, value: u8) {
    point_at(ppu, address);
    ppu.write_ppudata(value);
}

fn read_at(ppu: &mut PPU, address: u16) -> u8 {
    point_at(ppu, address);
    ppu.read_ppudata();
    point_at(ppu, address);
    ppu.read_ppudata();
    point_at(ppu, address);
    ppu.read_ppudata();
    ppu.read_ppudata()
}

#[test]
fn second_data_read_returns_the_addressed_byte() {
    let mut ppu = PPU::new(chr_rom(), Mirroring::Horizontal);
    write_at(&mut ppu, 0x2305, 0x66);
    ppu.write_ppuaddr(0x23);
    ppu.write_ppuaddr(0x05);
    let primed = ppu.read_ppudata();
    assert_eq!(primed, 0);
    assert_eq!(ppu.read_ppudata(), 0x66);
}

#[test]
fn address_is_kept_within_14_bits() {
    let mut ppu = PPU::new(chr_rom(), Mirroring::Horizontal);
    write_at(&mut ppu, 0x2305, 0x42);
    ppu.write_ppuaddr(0x63);
    ppu.write_ppuaddr(0x05);
    ppu.read_ppudata();
    assert_eq!(ppu.read_ppudata(), 0x42);
}

#[test]
fn pattern_memory_is_read_through_the_buffer() {
    let mut ppu = PPU::new(chr_rom(), Mirroring::Vertical);
    point_at(&mut ppu, 0x0123);
    ppu.read_ppudata();
    assert_eq!(ppu.read_ppudata(), 0x23 ^ 0x01);
}

#[test]
fn pattern_rom_ignores_writes_and_pattern_ram_takes_them() {
    let mut rom = PPU::new(chr_rom(), Mirroring::Vertical);
    write_at(&mut rom, 0x0010, 0xFF);
    point_at(&mut rom, 0x0010);
    rom.read_ppudata();
    assert_eq!(rom.read_ppudata(), 0x10);

    let mut ram = PPU::new(vec![], Mirroring::Vertical);
    write_at(&mut ram, 0x0010, 0xFF);
    point_at(&mut ram, 0x0010);
    ram.read_ppudata();
    assert_eq!(ram.read_ppudata(), 0xFF);
}

#[test]
fn palette_is_read_at_once_and_repeats_every_32_bytes() {
    let mut ppu = PPU::new(chr_rom(), Mirroring::Horizontal);
    write_at(&mut ppu, 0x3F01, 0x2A);
    point_at(&mut ppu, 0x3F01);
    assert_eq!(ppu.read_ppudata(), 0x2A);
    point_at(&mut ppu, 0x3F21);
    assert_eq!(ppu.read_ppudata(), 0x2A);
    assert_eq!(ppu.read_palette_table(1), 0x2A);
}

#[test]
fn palette_read_refills_the_buffer_from_the_nametable_below() {
    let mut ppu = PPU::new(chr_rom(), Mirroring::Vertical);
    write_at(&mut ppu, 0x2F05, 0x77);
    write_at(&mut ppu, 0x3F05, 0x11);
    point_at(&mut ppu, 0x3F05);
    assert_eq!(ppu.read_ppudata(), 0x11);
    point_at(&mut ppu, 0x2000);
    assert_eq!(ppu.read_ppudata(), 0x77);
}

#[test]
fn horizontal_mirroring_shares_the_first_two_and_the_last_two_nametables() {
    let mut ppu = PPU::new(chr_rom(), Mirroring::Horizontal);
    write_at(&mut ppu, 0x2400, 0x12);
    assert_eq!(read_at(&mut ppu, 0x2000), 0x12);
    write_at(&mut ppu, 0x2001, 0x34);
    assert_eq!(read_at(&mut ppu, 0x2401), 0x34);
    write_at(&mut ppu, 0x2800, 0x56);
    assert_eq!(read_at(&mut ppu, 0x2C00), 0x56);
    assert_eq!(read_at(&mut ppu, 0x2000), 0x12);
    assert_eq!(ppu.read_vram(0x000), 0x12);
    assert_eq!(ppu.read_vram(0x400), 0x56);
}

#[test]
fn vertical_mirroring_shares_nametables_0_and_2_and_nametables_1_and_3() {
    let mut ppu = PPU::new(chr_rom(), Mirroring::Vertical);
    write_at(&mut ppu, 0x2805, 0x12);
    assert_eq!(read_at(&mut ppu, 0x2005), 0x12);
    write_at(&mut ppu, 0x2C05, 0x34);
    assert_eq!(read_at(&mut ppu, 0x2405), 0x34);
    assert_eq!(read_at(&mut ppu, 0x2005), 0x12);
    assert_eq!(ppu.read_vram(0x005), 0x12);
    assert_eq!(ppu.read_vram(0x405), 0x34);
}

#[test]
fn four_screen_leaves_the_last_two_nametables_without_memory() {
    let mut ppu = PPU::new(chr_rom(), Mirroring::FourScreen);
    write_at(&mut ppu, 0x2400, 0x12);
    assert_eq!(read_at(&mut ppu, 0x2400), 0x12);
    assert_eq!(read_at(&mut ppu, 0x2000), 0);
    write_at(&mut ppu, 0x2800, 0x56);
    assert_eq!(read_at(&mut ppu, 0x2800), 0);
    assert_eq!(read_at(&mut ppu, 0x2C00), 0);
}

#[test]
fn mirror_vram_addr_folds_the_four_nametables() {
    let horizontal = PPU::new(chr_rom(), Mirroring::Horizontal);
    assert_eq!(horizontal.mirror_vram_addr(0x2005), Some(0x005));
    assert_eq!(horizontal.mirror_vram_addr(0x2405), Some(0x005));
    assert_eq!(horizontal.mirror_vram_addr(0x2805), Some(0x405));
    assert_eq!(horizontal.mirror_vram_addr(0x2C05), Some(0x405));
    assert_eq!(horizontal.mirror_vram_addr(0x3C05), Some(0x405));
    let vertical = PPU::new(chr_rom(), Mirroring::Vertical);
    assert_eq!(vertical.mirror_vram_addr(0x2005), Some(0x005));
    assert_eq!(vertical.mirror_vram_addr(0x2405), Some(0x405));
    assert_eq!(vertical.mirror_vram_addr(0x2805), Some(0x005));
    assert_eq!(vertical.mirror_vram_addr(0x2C05), Some(0x405));
    let four_screen = PPU::new(chr_rom(), Mirroring::FourScreen);
    assert_eq!(four_screen.mirror_vram_addr(0x27FF), Some(0x7FF));
    assert_eq!(four_screen.mirror_vram_addr(0x2800), None);
}

#[test]
fn nametable_mirror_above_0x3000_reaches_the_nametables() {
    let mut ppu = PPU::new(chr_rom(), Mirroring::Horizontal);
    write_at(&mut ppu, 0x3010, 0x9C);
    assert_eq!(read_at(&mut ppu, 0x2010), 0x9C);
}

#[test]
fn vram_address_steps_by_32_or_by_1() {
    let mut ppu = PPU::new(chr_rom(), Mirroring::Horizontal);
    write_at(&mut ppu, 0x2000, 0xA0);
    write_at(&mut ppu, 0x2001, 0xA1);
    write_at(&mut ppu, 0x2020, 0xB0);
    ppu.write_ppuctrl(0b0000_0000);
    point_at(&mut ppu, 0x2000);
    ppu.read_ppudata();
    assert_eq!(ppu.read_ppudata(), 0xA0);
    assert_eq!(ppu.read_ppudata(), 0xB0);
    ppu.write_ppuctrl(0b0000_0100);
    point_at(&mut ppu, 0x2000);
    ppu.read_ppudata();
    assert_eq!(ppu.read_ppudata(), 0xA0);
    assert_eq!(ppu.read_ppudata(), 0xA1);
}

#[test]
fn status_read_clears_vblank_and_the_write_latch() {
    let mut ppu = PPU::new(chr_rom(), Mirroring::Horizontal);
    for _ in 0..241 {
        ppu.tick(200);
        ppu.tick(141);
    }
    assert_eq!(ppu.scanline(), 241);
    ppu.write_ppuaddr(0x21);
    assert_eq!(ppu.read_ppustatus(), 0x80);
    assert_eq!(ppu.read_ppustatus(), 0x00);
    write_at(&mut ppu, 0x2000, 1);
    ppu.write_ppuaddr(0x20);
    ppu.read_ppustatus();
    ppu.write_ppuaddr(0x20);
    ppu.write_ppuaddr(0x00);
    ppu.read_ppudata();
    assert_eq!(ppu.read_ppudata(), 1);
}

#[test]
fn scroll_and_address_share_one_write_latch() {
    let mut ppu = PPU::new(chr_rom(), Mirroring::Horizontal);
    ppu.write_ppuscroll(0x11);
    ppu.write_ppuscroll(0x22);
    assert_eq!(ppu.get_x_scroll(), 0x11);
    assert_eq!(ppu.get_y_scroll(), 0x22);
    ppu.write_ppuscroll(0x33);
    assert_eq!(ppu.get_x_scroll(), 0x33);
    write_at(&mut ppu, 0x2005, 0x5E);
    ppu.read_ppustatus();
    ppu.write_ppuscroll(0x44);
    ppu.write_ppuaddr(0x05);
    ppu.write_ppuaddr(0x20);
    ppu.write_ppuaddr(0x05);
    assert_eq!(ppu.get_x_scroll(), 0x44);
    ppu.read_ppudata();
    assert_eq!(ppu.read_ppudata(), 0x5E);
}

#[test]
fn vblank_begins_at_scanline_241_and_ends_with_the_frame() {
    let mut ppu = PPU::new(chr_rom(), Mirroring::Horizontal);
    let mut completed = 0;
    for line in 0..262 {
        assert_eq!(ppu.scanline(), line);
        assert!(!ppu.tick(170));
        if ppu.tick(171) {
            completed += 1;
        }
        if line == 240 {
            assert_eq!(ppu.read_ppustatus() & 0x80, 0x80);
        }
    }
    assert_eq!(completed, 1);
    assert_eq!(ppu.scanline(), 0);
    assert_eq!(ppu.cycles(), 0);
    assert_eq!(ppu.read_ppustatus(), 0);
}

#[test]
fn nmi_is_requested_at_vblank_only_when_enabled() {
    let mut disabled = PPU::new(chr_rom(), Mirroring::Horizontal);
    let mut enabled = PPU::new(chr_rom(), Mirroring::Horizontal);
    enabled.write_ppuctrl(0x80);
    for _ in 0..241 {
        disabled.tick(171);
        disabled.tick(170);
        enabled.tick(171);
        enabled.tick(170);
    }
    assert!(!disabled.poll_nmi_interrupt());
    assert!(enabled.poll_nmi_interrupt());
    assert!(!enabled.poll_nmi_interrupt());
    disabled.write_ppuctrl(0x80);
    assert!(disabled.poll_nmi_interrupt());
    enabled.write_ppuctrl(0x80);
    assert!(!enabled.poll_nmi_interrupt());
}

#[test]
fn sprite_zero_hit_is_set_on_its_scanline_and_cleared_with_the_frame() {
    let mut ppu = PPU::new(chr_rom(), Mirroring::Horizontal);
    ppu.write_ppumask(0b0001_0000);
    ppu.write_oamaddr(0);
    ppu.write_oamdata(5);
    ppu.write_oamdata(0);
    ppu.write_oamdata(0);
    ppu.write_oamdata(10);
    for _ in 0..5 {
        ppu.tick(171);
        ppu.tick(170);
    }
    assert_eq!(ppu.read_ppustatus() & 0x40, 0);
    ppu.tick(171);
    ppu.tick(170);
    assert_eq!(ppu.read_ppustatus() & 0x40, 0x40);
    for _ in 6..262 {
        ppu.tick(171);
        ppu.tick(170);
    }
    assert_eq!(ppu.scanline(), 0);
    assert_eq!(ppu.read_ppustatus() & 0x40, 0);
}

#[test]
fn sprite_zero_hit_waits_for_the_column_of_the_sprite() {
    let mut ppu = PPU::new(chr_rom(), Mirroring::Horizontal);
    ppu.write_ppumask(0b0001_0000);
    ppu.write_oamaddr(0);
    for byte in [0u8, 0, 0, 100] {
        ppu.write_oamdata(byte);
    }
    ppu.tick(99);
    assert_eq!(ppu.read_ppustatus() & 0x40, 0);
    ppu.tick(1);
    assert_eq!(ppu.read_ppustatus() & 0x40, 0x40);
    let mut hidden = PPU::new(chr_rom(), Mirroring::Horizontal);
    hidden.write_oamaddr(0);
    for byte in [0u8, 0, 0, 100] {
        hidden.write_oamdata(byte);
    }
    hidden.tick(200);
    assert_eq!(hidden.read_ppustatus() & 0x40, 0);
    let mut other_line = PPU::new(chr_rom(), Mirroring::Horizontal);
    other_line.write_ppumask(0b0001_0000);
    other_line.write_oamaddr(0);
    for byte in [1u8, 0, 0, 100] {
        other_line.write_oamdata(byte);
    }
    other_line.tick(200);
    assert_eq!(other_line.read_ppustatus() & 0x40, 0);
}

#[test]
fn oam_data_write_moves_on_and_wraps() {
    let mut ppu = PPU::new(chr_rom(), Mirroring::Horizontal);
    ppu.write_oamaddr(0xFF);
    ppu.write_oamdata(0x12);
    assert_eq!(ppu.read_oamaddr(), 0);
    ppu.write_oamdata(0x34);
    assert_eq!(ppu.read_oamaddr(), 1);
    assert_eq!(ppu.read_oamdata(0xFF), 0x12);
    assert_eq!(ppu.read_oamdata(0x00), 0x34);
}

#[test]
fn tiles_are_read_from_the_selected_pattern_table() {
    let mut ppu = PPU::new(chr_rom(), Mirroring::Horizontal);
    write_at(&mut ppu, 0x2003, 0x02);
    let chr = chr_rom();
    assert_eq!(ppu.read_tile(3, &(0..0x400)), &chr[0x20..0x30]);
    assert_eq!(ppu.read_sprite_tile(1), &chr[0x10..0x20]);
    ppu.write_ppuctrl(0b0001_1000);
    assert_eq!(ppu.read_tile(3, &(0..0x400)), &chr[0x1020..0x1030]);
    assert_eq!(ppu.read_sprite_tile(255), &chr[0x1FF0..0x2000]);
}

#[test]
fn name_table_ranges_follow_mirroring_and_base_nametable() {
    let mut horizontal = PPU::new(chr_rom(), Mirroring::Horizontal);
    assert_eq!(horizontal.get_name_table_ranges(), (0..0x400, 0x400..0x800));
    horizontal.write_ppuctrl(1);
    assert_eq!(horizontal.get_name_table_ranges(), (0..0x400, 0x400..0x800));
    horizontal.write_ppuctrl(2);
    assert_eq!(horizontal.get_name_table_ranges(), (0x400..0x800, 0..0x400));
    horizontal.write_ppuctrl(3);
    assert_eq!(horizontal.get_name_table_ranges(), (0x400..0x800, 0..0x400));
    let mut vertical = PPU::new(chr_rom(), Mirroring::Vertical);
    assert_eq!(vertical.get_name_table_ranges(), (0..0x400, 0x400..0x800));
    vertical.write_ppuctrl(1);
    assert_eq!(vertical.get_name_table_ranges(), (0x400..0x800, 0..0x400));
    vertical.write_ppuctrl(2);
    assert_eq!(vertical.get_name_table_ranges(), (0..0x400, 0x400..0x800));
    vertical.write_ppuctrl(3);
    assert_eq!(vertical.get_name_table_ranges(), (0x400..0x800, 0..0x400));
}

#[test]
fn background_palette_follows_the_attribute_byte() {
    let mut ppu = PPU::new(chr_rom(), Mirroring::Horizontal);
    for i in 0..32u16 {
        write_at(&mut ppu, 0x3F00 + i, 0x20 + i as u8);
    }
    write_at(&mut ppu, 0x23C0, 0b11_10_01_00);
    assert_eq!(get_bg_palette(&ppu, 0, 0), [0x20, 0x21, 0x22, 0x23]);
    assert_eq!(get_bg_palette(&ppu, 2, 1), [0x20, 0x25, 0x26, 0x27]);
    assert_eq!(get_bg_palette(&ppu, 1, 2), [0x20, 0x29, 0x2A, 0x2B]);
    assert_eq!(get_bg_palette(&ppu, 3, 3), [0x20, 0x2D, 0x2E, 0x2F]);
    write_at(&mut ppu, 0x23C0 + 8 + 1, 0b00_00_00_10);
    assert_eq!(get_bg_palette(&ppu, 4, 4), [0x20, 0x29, 0x2A, 0x2B]);
}

#[test]
fn sprite_palette_starts_behind_the_background_palettes() {
    let mut ppu = PPU::new(chr_rom(), Mirroring::Horizontal);
    for i in 0..32u16 {
        write_at(&mut ppu, 0x3F00 + i, 0x20 + i as u8);
    }
    assert_eq!(sprite_palette(&ppu, 0), [0, 0x31, 0x32, 0x33]);
    assert_eq!(sprite_palette(&ppu, 3), [0, 0x3D, 0x3E, 0x3F]);
}

#[test]
fn registers_hold_what_is_written() {
    let mut ctrl = PPUCTRL::new();
    assert_eq!(ctrl.address_increment(), 32);
    ctrl.write(0b1001_1111);
    assert_eq!(ctrl.bits(), 0b1001_1111);
    assert_eq!(ctrl.address_increment(), 1);
    assert!(ctrl.is_vblank_nmi_set());
    assert_eq!(ctrl.nametable_address(), 0x2C00);
    assert_eq!(ctrl.sprite_pattern_address(), 0x1000);
    assert_eq!(ctrl.background_pattern_address(), 0x1000);
    let mut mask = PPUMASK::new();
    mask.write(0b0001_0000);
    assert!(mask.is_sprite_rendering_enabled());
    assert!(!mask.is_background_rendering_enabled());
    let status = PPUSTATUS { sprite_overflow: true, sprite_zero_hit: false, vblank: true };
    assert_eq!(status.read(), 0b1010_0000);
    assert_eq!(PPUSTATUS::new().read(), 0);
    let mut oam_address = OAMADDR::new();
    oam_address.write(0xFF);
    oam_address.inc();
    assert_eq!(oam_address.read(), 0);
    let mut oam_data = OAMDATA::new();
    oam_data.write(7);
    assert_eq!(oam_data.read(), 7);
    let mut dma = OAMDMA::new();
    dma.write(2);
    assert_eq!(dma.value, 2);
    let mut latch = false;
    let mut address = PPUADDR::new();
    address.write(0xFF, &mut latch);
    assert!(latch);
    address.write(0xFE, &mut latch);
    assert!(!latch);
    assert_eq!(address.read(), 0x3FFE);
    address.inc(32);
    assert_eq!(address.read(), 0x001E);
    let mut scroll = PPUSCROLL::new();
    scroll.write(3, &mut latch);
    scroll.write(4, &mut latch);
    assert_eq!((scroll.x_scroll(), scroll.y_scroll()), (3, 4));
    let mut data = PPUDATA::new();
    assert_eq!(data.read(9), 0);
    assert_eq!(data.read(8), 9);
}
