use nes::bus::{Bus, BusOperation};
use nes::controller::JoypadRegister;
use nes::error::EmulatorError;
use nes::rom::Rom;

fn bus_with(prg_pages: u8, control_1: u8) -> Bus {
    let mut bytes = vec![0x4E, 0x45, 0x53, 0x1A, prg_pages, 1, control_1, 0];
    bytes.extend(vec![0u8; 8]);
    for i in 0..(prg_pages as usize * 16384) {
        bytes.push((i % 251) as u8);
    }
    bytes.extend((0..8192).map(|i| (i % 253) as u8));
    Bus::new(Rom::new(&bytes).unwrap())
}

#[test]
fn work_ram_is_mirrored_every_2_kib() {
    let mut bus = bus_with(1, 0);
    bus.write_byte(0x0001, 0x5A).unwrap();
    assert_eq!(bus.read_byte(0x0801), Ok(0x5A));
    assert_eq!(bus.read_byte(0x1001), Ok(0x5A));
    assert_eq!(bus.read_byte(0x1801), Ok(0x5A));
    bus.write_byte(0x1FFF, 0x77).unwrap();
    assert_eq!(bus.read_byte(0x07FF), Ok(0x77));
    assert_eq!(bus.peek(0x0FFF), Some(0x77));
}

#[test]
fn ppu_registers_are_mirrored_every_8_bytes() {
    let mut bus = bus_with(1, 0);
    bus.write_byte(0x2006, 0x21).unwrap();
    bus.write_byte(0x3FFE, 0x08).unwrap();
    bus.write_byte(0x200F, 0x99).unwrap();
    bus.write_byte(0x2006, 0x21).unwrap();
    bus.write_byte(0x2006, 0x08).unwrap();
    bus.read_byte(0x2007).unwrap();
    assert_eq!(bus.read_byte(0x3FFF), Ok(0x99));
    assert_eq!(bus.read_byte(0x2008), Err(EmulatorError::UnsupportedRead(0x2000)));
    assert_eq!(bus.write_byte(0x3FFA, 1), Err(EmulatorError::UnsupportedWrite(0x2002)));
}

#[test]
fn small_prg_rom_fills_both_halves_of_its_window() {
    let mut bus = bus_with(1, 0);
    for offset in [0u16, 1, 0x1234, 0x3FFF] {
        let low = bus.read_byte(0x8000 + offset).unwrap();
        let high = bus.read_byte(0xC000 + offset).unwrap();
        assert_eq!(low, (offset as usize % 251) as u8);
        assert_eq!(low, high);
    }
}

#[test]
fn large_prg_rom_is_not_mirrored() {
    let mut bus = bus_with(2, 0);
    assert_eq!(bus.read_byte(0x8000), Ok(0));
    assert_eq!(bus.read_byte(0xC000), Ok((0x4000 % 251) as u8));
    assert_eq!(bus.read_byte(0xFFFF), Ok((0x7FFF % 251) as u8));
}

#[test]
fn write_only_registers_cannot_be_read() {
    let mut bus = bus_with(1, 0);
    for address in [0x2000u16, 0x2001, 0x2003, 0x2005, 0x2006, 0x4014] {
        assert_eq!(bus.read_byte(address), Err(EmulatorError::UnsupportedRead(address)));
    }
}

#[test]
fn status_register_cannot_be_written() {
    let mut bus = bus_with(1, 0);
    assert_eq!(bus.write_byte(0x2002, 0), Err(EmulatorError::UnsupportedWrite(0x2002)));
}

#[test]
fn prg_rom_cannot_be_written() {
    let mut bus = bus_with(1, 0);
    assert_eq!(bus.write_byte(0x8000, 0), Err(EmulatorError::ROMWriteForbidden(0x8000)));
    assert_eq!(bus.write_byte(0xFFFF, 0), Err(EmulatorError::ROMWriteForbidden(0xFFFF)));
    assert_eq!(bus.write_word(0x9000, 0), Err(EmulatorError::ROMWriteForbidden(0x9000)));
}

#[test]
fn unmapped_addresses_read_zero_and_ignore_writes() {
    let mut bus = bus_with(1, 0);
    assert_eq!(bus.write_byte(0x5000, 0xAB), Ok(()));
    assert_eq!(bus.read_byte(0x5000), Ok(0));
    assert_eq!(bus.read_byte(0x4015), Ok(0));
    assert_eq!(bus.peek(0x5000), None);
    assert_eq!(bus.peek(0x2002), None);
}

#[test]
fn words_are_little_endian_and_wrap_within_their_region() {
    let mut bus = bus_with(1, 0);
    bus.write_byte(0x0010, 0x34).unwrap();
    bus.write_byte(0x0011, 0x12).unwrap();
    assert_eq!(bus.read_word(0x0010), 0x1234);
    bus.write_byte(0x00FF, 0xCD).unwrap();
    bus.write_byte(0x0000, 0xAB).unwrap();
    bus.write_byte(0x0100, 0xEE).unwrap();
    assert_eq!(bus.read_word(0x00FF), 0xABCD);
    bus.write_byte(0x07FF, 0x11).unwrap();
    assert_eq!(bus.read_word(0x07FF), 0xAB11);
    bus.write_byte(0x01FF, 0x22).unwrap();
    bus.write_byte(0x0200, 0x33).unwrap();
    assert_eq!(bus.read_word(0x01FF), 0x3322);
    let last = (0x3FFF % 251) as u16;
    assert_eq!(bus.read_word(0xFFFF), last);
    assert_eq!(bus.read_word(0x8000), 0x0100);
    assert_eq!(bus.read_word(0x4016), 0);
}

#[test]
fn word_writes_go_where_word_reads_look() {
    let mut bus = bus_with(1, 0);
    bus.write_word(0x0300, 0xBEEF).unwrap();
    assert_eq!(bus.read_byte(0x0300), Ok(0xEF));
    assert_eq!(bus.read_byte(0x0301), Ok(0xBE));
    bus.write_word(0x00FF, 0x1234).unwrap();
    assert_eq!(bus.read_byte(0x00FF), Ok(0x34));
    assert_eq!(bus.read_byte(0x0000), Ok(0x12));
    assert_eq!(bus.read_word(0x00FF), 0x1234);
}

#[test]
fn bus_operation_reads_and_writes_bytes_and_words() {
    let mut bus = bus_with(1, 0);
    BusOperation::<u8>::write(&mut bus, 0x0042, 0x99).unwrap();
    assert_eq!(BusOperation::<u8>::read(&mut bus, 0x0042), Ok(0x99));
    BusOperation::<u16>::write(&mut bus, 0x0050, 0xA1B2).unwrap();
    assert_eq!(BusOperation::<u16>::read(&mut bus, 0x0050), Ok(0xA1B2));
    assert_eq!(BusOperation::<u8>::read(&mut bus, 0x0051), Ok(0xA1));
}

#[test]
fn oam_dma_copies_a_page_and_takes_513_cycles() {
    let mut bus = bus_with(1, 0);
    for i in 0..256u16 {
        bus.write_byte(0x0200 + i, (i as u8).wrapping_mul(3).wrapping_add(1)).unwrap();
    }
    let before = bus.cycles();
    bus.write_byte(0x4014, 0x02).unwrap();
    for i in 0..256usize {
        assert_eq!(bus.ppu().read_oamdata(i), (i as u8).wrapping_mul(3).wrapping_add(1));
    }
    assert_eq!(bus.ppu().read_oamaddr(), 0);
    assert_eq!(bus.cycles() - before, 513);
}

#[test]
fn oam_dma_starts_at_oamaddr_and_leaves_it_unchanged() {
    let mut bus = bus_with(1, 0);
    for i in 0..256u16 {
        bus.write_byte(0x0300 + i, i as u8).unwrap();
    }
    bus.write_byte(0x2003, 0x10).unwrap();
    bus.write_byte(0x4014, 0x03).unwrap();
    assert_eq!(bus.ppu().read_oamaddr(), 0x10);
    assert_eq!(bus.ppu().read_oamdata(0x10), 0);
    assert_eq!(bus.ppu().read_oamdata(0x11), 1);
    assert_eq!(bus.ppu().read_oamdata(0xFF), 0xEF);
    assert_eq!(bus.ppu().read_oamdata(0x00), 0xF0);
    assert_eq!(bus.ppu().read_oamdata(0x0F), 0xFF);
}

#[test]
fn oam_dma_from_prg_rom_reads_the_rom() {
    let mut bus = bus_with(1, 0);
    bus.write_byte(0x4014, 0x80).unwrap();
    assert_eq!(bus.ppu().read_oamdata(0), 0);
    assert_eq!(bus.ppu().read_oamdata(5), 5);
    assert_eq!(bus.ppu().read_oamdata(255), (255 % 251) as u8);
}

#[test]
fn tick_runs_three_dots_for_each_cycle() {
    let mut bus = bus_with(1, 0);
    bus.tick(7);
    assert_eq!(bus.cycles(), 7);
    assert_eq!(bus.ppu().cycles(), 21);
    assert_eq!(bus.ppu().scanline(), 0);
    bus.tick(255);
    assert_eq!(bus.cycles(), 262);
    assert_eq!(bus.ppu().scanline(), 2);
    assert_eq!(bus.ppu().cycles(), 786 - 682);
}

#[test]
fn a_frame_takes_89342_dots() {
    let mut bus = bus_with(1, 0);
    let mut cycles = 0u32;
    while !bus.poll_frame() {
        bus.tick(1);
        cycles += 1;
    }
    assert_eq!(cycles, 29781);
    assert_eq!(bus.ppu().scanline(), 0);
    assert_eq!(bus.ppu().cycles(), 1);
    assert!(!bus.poll_frame());
    let mut more = 0u32;
    while !bus.poll_frame() {
        bus.tick(1);
        more += 1;
    }
    assert_eq!(more, 29781);
    assert_eq!(bus.ppu().cycles(), 2);
}

#[test]
fn controllers_are_read_at_4016_and_4017() {
    let mut bus = bus_with(1, 0);
    bus.set_button_status(false, JoypadRegister::from_bits_truncate(JoypadRegister::BUTTON_A), true);
    bus.set_button_status(false, JoypadRegister::from_bits_truncate(JoypadRegister::START), true);
    bus.set_button_status(true, JoypadRegister::from_bits_truncate(JoypadRegister::BUTTON_B), true);
    bus.write_byte(0x4016, 1).unwrap();
    bus.write_byte(0x4016, 0).unwrap();
    bus.write_byte(0x4017, 1).unwrap();
    bus.write_byte(0x4017, 0).unwrap();
    let first: Vec<u8> = (0..9).map(|_| bus.read_byte(0x4016).unwrap()).collect();
    assert_eq!(first, vec![1, 0, 0, 1, 0, 0, 0, 0, 1]);
    let second: Vec<u8> = (0..9).map(|_| bus.read_byte(0x4017).unwrap()).collect();
    assert_eq!(second, vec![0, 1, 0, 0, 0, 0, 0, 0, 1]);
}

#[test]
fn nmi_is_polled_once() {
    let mut bus = bus_with(1, 0);
    bus.write_byte(0x2000, 0x80).unwrap();
    assert!(!bus.poll_nmi_interrupt());
    while bus.ppu().scanline() != 241 {
        bus.tick(1);
    }
    assert!(bus.poll_nmi_interrupt());
    assert!(!bus.poll_nmi_interrupt());
}
