use nes::bus::Bus;
use nes::cpu::cpu::CPU;
use nes::cpu::trace::trace;
use nes::rom::Rom;

/// A machine with 16 KiB of PRG-ROM that holds `program` at 0xC000, where
/// the program counter is put.
fn machine_at_c000(program: &[u8]) -> CPU {
    let mut prg = vec![0u8; 0x4000];
    prg[..program.len()].copy_from_slice(program);
    prg[0x3FFC] = 0x00;
    prg[0x3FFD] = 0xC0;
    let mut image = vec![0x4E, 0x45, 0x53, 0x1A, 1, 1, 0, 0, 0, 0, 0, 0, 0, 0, 0, 0];
    image.extend(prg);
    image.extend(vec![0u8; 0x2000]);
    let mut cpu = CPU::new(Bus::new(Rom::new(&image).unwrap()));
    cpu.reset_interrupt();
    cpu
}

fn traced(cpu: &mut CPU, count: usize) -> Vec<String> {
    let mut lines = vec![];
    for _ in 0..count {
        lines.push(trace(cpu));
        cpu.run(1).unwrap();
    }
    lines
}

/// A machine with 16 KiB of PRG-ROM that holds the given pieces of program
/// and starts at 0xC000.
fn machine_with_pieces(pieces: &[(u16, &[u8])]) -> CPU {
    let mut prg = vec![0u8; 0x4000];
    for (address, bytes) in pieces {
        let offset = (*address as usize) & 0x3FFF;
        prg[offset..offset + bytes.len()].copy_from_slice(bytes);
    }
    prg[0x3FFC] = 0x00;
    prg[0x3FFD] = 0xC0;
    let mut image = vec![0x4E, 0x45, 0x53, 0x1A, 1, 1, 0, 0, 0, 0, 0, 0, 0, 0, 0, 0];
    image.extend(prg);
    image.extend(vec![0u8; 0x2000]);
    let mut cpu = CPU::new(Bus::new(Rom::new(&image).unwrap()));
    cpu.reset_interrupt();
    cpu
}

#[test]
fn trace_writes_the_first_lines_of_the_nestest_log() {
    let mut cpu = machine_with_pieces(&[
        (0xC000, &[0x4C, 0xF5, 0xC5]),
        (0xC5F5, &[0xA2, 0x00, 0x86, 0x00, 0x86, 0x10, 0x86, 0x11, 0x20, 0x2D, 0xC7]),
        (0xC72D, &[0xEA, 0x38, 0xB0, 0x04]),
        (0xC735, &[0xEA]),
    ]);
    let lines = traced(&mut cpu, 10);
    assert_eq!(
        lines,
        vec![
            "C000  4C F5 C5  JMP $C5F5                       A:00 X:00 Y:00 P:24 SP:FD PPU:  0, 21 CYC:7",
            "C5F5  A2 00     LDX #$00                        A:00 X:00 Y:00 P:24 SP:FD PPU:  0, 30 CYC:10",
            "C5F7  86 00     STX $00 = 00                    A:00 X:00 Y:00 P:26 SP:FD PPU:  0, 36 CYC:12",
            "C5F9  86 10     STX $10 = 00                    A:00 X:00 Y:00 P:26 SP:FD PPU:  0, 45 CYC:15",
            "C5FB  86 11     STX $11 = 00                    A:00 X:00 Y:00 P:26 SP:FD PPU:  0, 54 CYC:18",
            "C5FD  20 2D C7  JSR $C72D                       A:00 X:00 Y:00 P:26 SP:FD PPU:  0, 63 CYC:21",
            "C72D  EA        NOP                             A:00 X:00 Y:00 P:26 SP:FB PPU:  0, 81 CYC:27",
            "C72E  38        SEC                             A:00 X:00 Y:00 P:26 SP:FB PPU:  0, 87 CYC:29",
            "C72F  B0 04     BCS $C735                       A:00 X:00 Y:00 P:27 SP:FB PPU:  0, 93 CYC:31",
            "C735  EA        NOP                             A:00 X:00 Y:00 P:27 SP:FB PPU:  0,102 CYC:34",
        ]
    );
}

#[test]
fn trace_shows_effective_addresses_and_stored_bytes() {
    let mut cpu = machine_at_c000(&[
        0xA2, 0x05, 0xA0, 0x10, 0xA9, 0xAB, 0x95, 0x10, 0x96, 0xF8, 0x9D, 0xFE, 0x02, 0x99, 0x00,
        0x03, 0xB5, 0x10, 0xA1, 0x80, 0xB1, 0x89, 0x6C, 0xFF, 0x03, 0x0A, 0xD0, 0xFE,
    ]);
    cpu.bus.write_byte(0x0085, 0x00).unwrap();
    cpu.bus.write_byte(0x0086, 0x02).unwrap();
    cpu.bus.write_byte(0x0200, 0x5A).unwrap();
    cpu.bus.write_byte(0x0089, 0xF8).unwrap();
    cpu.bus.write_byte(0x008A, 0x02).unwrap();
    cpu.bus.write_byte(0x0308, 0x89).unwrap();
    cpu.bus.write_byte(0x03FF, 0x19).unwrap();
    cpu.bus.write_byte(0x0300, 0xC0).unwrap();
    cpu.bus.write_byte(0x0400, 0x77).unwrap();
    let lines = traced(&mut cpu, 11);
    assert_eq!(
        lines,
        vec![
            "C000  A2 05     LDX #$05                        A:00 X:00 Y:00 P:24 SP:FD PPU:  0, 21 CYC:7",
            "C002  A0 10     LDY #$10                        A:00 X:05 Y:00 P:24 SP:FD PPU:  0, 27 CYC:9",
            "C004  A9 AB     LDA #$AB                        A:00 X:05 Y:10 P:24 SP:FD PPU:  0, 33 CYC:11",
            "C006  95 10     STA $10,X @ 15 = 00             A:AB X:05 Y:10 P:A4 SP:FD PPU:  0, 39 CYC:13",
            "C008  96 F8     STX $F8,Y @ 08 = 00             A:AB X:05 Y:10 P:A4 SP:FD PPU:  0, 51 CYC:17",
            "C00A  9D FE 02  STA $02FE,X @ 0303 = 00         A:AB X:05 Y:10 P:A4 SP:FD PPU:  0, 63 CYC:21",
            "C00D  99 00 03  STA $0300,Y @ 0310 = 00         A:AB X:05 Y:10 P:A4 SP:FD PPU:  0, 78 CYC:26",
            "C010  B5 10     LDA $10,X @ 15 = AB             A:AB X:05 Y:10 P:A4 SP:FD PPU:  0, 93 CYC:31",
            "C012  A1 80     LDA ($80,X) @ 85 = 0200 = 5A    A:AB X:05 Y:10 P:A4 SP:FD PPU:  0,105 CYC:35",
            "C014  B1 89     LDA ($89),Y = 02F8 @ 0308 = 89  A:5A X:05 Y:10 P:24 SP:FD PPU:  0,123 CYC:41",
            "C016  6C FF 03  JMP ($03FF) = C019              A:89 X:05 Y:10 P:A4 SP:FD PPU:  0,141 CYC:47",
        ]
    );
    assert_eq!(
        traced(&mut cpu, 2),
        vec![
            "C019  0A        ASL A                           A:89 X:05 Y:10 P:A4 SP:FD PPU:  0,156 CYC:52",
            "C01A  D0 FE     BNE $C01A                       A:12 X:05 Y:10 P:25 SP:FD PPU:  0,162 CYC:54",
        ]
    );
}

#[test]
fn trace_marks_undocumented_instructions() {
    let mut cpu = machine_at_c000(&[
        0x04, 0xA9, 0x1A, 0x0C, 0x00, 0x03, 0xEB, 0x01, 0xA7, 0x10, 0x1C, 0xFF, 0x02,
    ]);
    let lines = traced(&mut cpu, 6);
    assert_eq!(
        lines,
        vec![
            "C000  04 A9    *NOP $A9 = 00                    A:00 X:00 Y:00 P:24 SP:FD PPU:  0, 21 CYC:7",
            "C002  1A       *NOP                             A:00 X:00 Y:00 P:24 SP:FD PPU:  0, 30 CYC:10",
            "C003  0C 00 03 *NOP $0300 = 00                  A:00 X:00 Y:00 P:24 SP:FD PPU:  0, 36 CYC:12",
            "C006  EB 01    *SBC #$01                        A:00 X:00 Y:00 P:24 SP:FD PPU:  0, 48 CYC:16",
            "C008  A7 10    *LAX $10 = 00                    A:FE X:00 Y:00 P:A4 SP:FD PPU:  0, 54 CYC:18",
            "C00A  1C FF 02 *NOP $02FF,X @ 02FF = 00         A:00 X:00 Y:00 P:26 SP:FD PPU:  0, 63 CYC:21",
        ]
    );
}

#[test]
fn trace_does_not_read_registers() {
    let mut cpu = machine_at_c000(&[0xAD, 0x02, 0x20, 0xAD, 0x16, 0x40, 0xAD, 0x07, 0x20]);
    for _ in 0..241 {
        cpu.bus.tick(100);
        cpu.bus.tick(10);
        cpu.bus.tick(4);
    }
    assert_eq!(cpu.bus.ppu().scanline(), 241);
    let cycles = cpu.bus.cycles();
    let first = trace(&cpu);
    assert_eq!(first, trace(&cpu));
    assert_eq!(
        first,
        format!(
            "C000  AD 02 20  LDA $2002 = 00                  A:00 X:00 Y:00 P:24 SP:FD PPU:241,262 CYC:{}",
            cycles
        )
    );
    cpu.run(1).unwrap();
    assert_eq!(cpu.accumulator.get(), 0x80);
    assert_eq!(
        trace(&cpu),
        format!(
            "C003  AD 16 40  LDA $4016 = 00                  A:80 X:00 Y:00 P:A4 SP:FD PPU:241,274 CYC:{}",
            cycles + 4
        )
    );
}
