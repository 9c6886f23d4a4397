use crate::bits::{
    bit_is_set, high_byte, lemma_address_masks, lemma_bit_masks, low_byte, word_of, wrap16, wrap8,
};
use crate::bus::{lemma_prg_word_is_two_bytes, ram_index, register_address, BusState};
use crate::cpu::opcode::{opcode_table, Instruction};
use crate::cpu::register::ProcessorStatus;
use crate::cpu::state::CpuState;
use crate::error::EmulatorError;
use crate::ppu::register::address_after_write;
use crate::ppu::state::{nametable_index, PpuState};
use crate::rom::{has_nes_tag, parse_ines, InvalidINESFile, Mirroring, RomImage};
use vstd::prelude::*;

verus! {

/// Every byte is an opcode of the table: decoding never ends in an unknown
/// opcode.
#[verifier::rlimit(50)]
pub proof fn lemma_opcode_table_is_total(byte: u8)
    ensures
        opcode_table(byte).is_some(),
{
    reveal(opcode_table);
}

/// The fetch of an instruction ends in the entry of the opcode table for
/// the byte at the program counter, with the counter moved behind the
/// byte, and never in an unknown opcode; where the bus refuses the read,
/// the fetch ends in that refusal.
pub proof fn lemma_fetch_finds_an_instruction(cpu: CpuState)
    ensures
        match cpu.read(cpu.pc).1 {
            Ok(byte) => {
                &&& opcode_table(byte).is_some()
                &&& cpu.fetch().1 == Ok::<Instruction, EmulatorError>(opcode_table(byte).unwrap())
                &&& cpu.fetch().1 != Err::<Instruction, EmulatorError>(
                    EmulatorError::UnknownOpCode(byte),
                )
                &&& cpu.fetch().0.pc == wrap16(cpu.pc + 1)
            },
            Err(error) => cpu.fetch() == (
                cpu.read(cpu.pc).0,
                Err::<Instruction, EmulatorError>(error),
            ),
        },
{
    match cpu.read(cpu.pc).1 {
        Ok(byte) => {
            lemma_opcode_table_is_total(byte);
        },
        Err(_) => {},
    }
}

/// An image with the iNES tag and its control bytes that announces NES
/// 2.0 is refused as an unsupported format, however long it is.
pub proof fn lemma_nes_2_0_is_refused(content: Seq<u8>)
    requires
        has_nes_tag(content),
        content.len() >= 8,
        content[7] & 0x08 != 0,
    ensures
        parse_ines(content) == Err::<RomImage, InvalidINESFile>(InvalidINESFile::UnsupportedFormat),
{
    lemma_bit_masks(content[7]);
}

/// After a reset S is 0xFD, P reads 0x24, A, X and Y are 0, and the
/// program counter is the word made of the two bytes at 0xFFFC and
/// 0xFFFD.
pub proof fn lemma_reset_loads_the_vector(cpu: CpuState)
    requires
        cpu.wf(),
    ensures
        cpu.reset().regs.sp == 0xFD,
        cpu.reset().regs.p.bits() == 0x24,
        cpu.reset().regs.a == 0 && cpu.reset().regs.x == 0 && cpu.reset().regs.y == 0,
        cpu.bus.read(0xFFFC).1 == Ok::<u8, EmulatorError>(cpu.bus.peek_or_zero(0xFFFC)),
        cpu.bus.read(0xFFFD).1 == Ok::<u8, EmulatorError>(cpu.bus.peek_or_zero(0xFFFD)),
        cpu.reset().pc == word_of(cpu.bus.peek_or_zero(0xFFFC), cpu.bus.peek_or_zero(0xFFFD)),
{
    lemma_prg_word_is_two_bytes(cpu.bus, 0xFFFC);
}

/// The PPU register window repeats its eight registers: a read or a write
/// anywhere from 0x2000 to 0x3FFF is the read or the write at that address
/// masked with 0x2007.
pub proof fn lemma_ppu_registers_are_mirrored(bus: BusState, address: u16, value: u8)
    requires
        0x2000 <= address <= 0x3FFF,
    ensures
        0x2000 <= register_address(address) <= 0x2007,
        bus.read(address) == bus.read(register_address(address)),
        bus.write(address, value) == bus.write(register_address(address), value),
{
    reveal(BusState::read);
    reveal(BusState::write);
    lemma_address_masks(address);
    lemma_address_masks(register_address(address));
}

/// Work RAM repeats every 2 KiB: a read or a write anywhere below 0x2000
/// reaches the byte at that address masked with 0x07FF.
pub proof fn lemma_work_ram_is_mirrored(bus: BusState, address: u16, value: u8)
    requires
        address <= 0x1FFF,
    ensures
        0 <= ram_index(address) < 0x0800,
        ram_index(address) == address & 0x07FF,
        bus.read(address) == (bus, Ok::<u8, EmulatorError>(bus.ram[ram_index(address)])),
        bus.read(address) == bus.read((address & 0x07FF) as u16),
        bus.write(address, value).0.ram == bus.ram.update(ram_index(address), value),
        bus.write(address, value) == bus.write((address & 0x07FF) as u16, value),
{
    reveal(BusState::read);
    reveal(BusState::write);
    lemma_address_masks(address);
    lemma_address_masks(address & 0x07FF);
}

/// A PRG-ROM of 16 KiB fills both halves of its window: a read anywhere
/// from 0x8000 on returns the byte at the offset into the window masked
/// with 0x3FFF.
pub proof fn lemma_small_prg_rom_is_mirrored(bus: BusState, address: u16)
    requires
        0x8000 <= address <= 0xFFFF,
        bus.prg_rom.len() == 0x4000,
    ensures
        0 <= ((address - 0x8000) as u16 & 0x3FFF) < 0x4000,
        bus.read(address) == (
            bus,
            Ok::<u8, EmulatorError>(bus.prg_rom[((address - 0x8000) as u16 & 0x3FFF) as int]),
        ),
{
    reveal(BusState::read);
    lemma_address_masks((address - 0x8000) as u16);
}

/// In the status register bit 5 (U) is always 1 and bit 4 (B) always 0,
/// whatever the flags are.
pub proof fn lemma_status_keeps_unused_and_break(status: ProcessorStatus)
    ensures
        bit_is_set(status.bits(), 5),
        !bit_is_set(status.bits(), 4),
{
}

/// After an instruction, whatever it was, and after a round of the run
/// loop, bit 5 of P reads 1 and bit 4 reads 0. B shows only in the byte
/// that BRK and PHP push.
pub proof fn lemma_step_keeps_unused_and_break(cpu: CpuState)
    ensures
        bit_is_set(cpu.step().0.regs.p.bits(), 5),
        !bit_is_set(cpu.step().0.regs.p.bits(), 4),
        bit_is_set(cpu.advance().0.regs.p.bits(), 5),
        !bit_is_set(cpu.advance().0.regs.p.bits(), 4),
        bit_is_set(cpu.status_with_break(), 4),
        bit_is_set(cpu.status_with_break(), 5),
{
    lemma_status_keeps_unused_and_break(cpu.step().0.regs.p);
    lemma_status_keeps_unused_and_break(cpu.advance().0.regs.p);
    lemma_status_keeps_unused_and_break(cpu.regs.p);
}

/// The six flags that P holds are those of its byte: loading P from the
/// byte it reads as, with or without B set, restores it.
pub proof fn lemma_status_roundtrip(status: ProcessorStatus)
    ensures
        ProcessorStatus::from_bits(status.bits()) == status,
        ProcessorStatus::from_bits((status.bits() + 16) as u8) == status,
{
}

/// A read of PPUSTATUS, through any of its mirrors, clears the vertical
/// blank flag and the write latch.
pub proof fn lemma_status_read_clears_vblank_and_latch(bus: BusState, address: u16)
    requires
        0x2000 <= address <= 0x3FFF,
        register_address(address) == 0x2002,
    ensures
        !bus.read(address).0.ppu.vblank,
        !bus.read(address).0.ppu.write_toggle,
        bus.read(address).1 == Ok::<u8, EmulatorError>(bus.ppu.read_status_value()),
{
    reveal(BusState::read);
}

/// Every write to PPUSCROLL and every write to PPUADDR toggles the write
/// latch.
pub proof fn lemma_write_latch_toggles(ppu: PpuState, value: u8)
    ensures
        ppu.write_scroll(value).write_toggle == !ppu.write_toggle,
        ppu.write_addr(value).write_toggle == !ppu.write_toggle,
{
}

/// Passing time changes neither sprite memory nor OAMADDR, and moves the
/// cycle count on by the cycles passed.
pub proof fn lemma_tick_keeps_sprite_memory(bus: BusState, cycles: u8)
    ensures
        bus.tick(cycles).ppu.oam == bus.ppu.oam,
        bus.tick(cycles).ppu.oam_addr == bus.ppu.oam_addr,
        bus.tick(cycles).cycles == bus.cycles.wrapping_add(cycles as u64),
{
    reveal(BusState::tick);
    let first = bus.ppu.tick(cycles).0;
    let second = first.tick(cycles).0;
    assert(first.oam == bus.ppu.oam && first.oam_addr == bus.ppu.oam_addr);
    assert(second.oam == bus.ppu.oam && second.oam_addr == bus.ppu.oam_addr);
}

/// A sprite DMA replaces all 256 bytes of sprite memory by the 256 bytes
/// of the CPU page and leaves OAMADDR where it was. Started at position 0
/// it leaves sprite memory equal to the page. The transfer takes 513
/// cycles.
#[verifier::rlimit(50)]
pub proof fn lemma_oam_dma_copies_a_page(bus: BusState, page: u8)
    requires
        bus.wf(),
    ensures
        bus.write(0x4014, page).1 == Ok::<(), EmulatorError>(()),
        bus.write(0x4014, page).0.ppu.oam_addr == bus.ppu.oam_addr,
        bus.write(0x4014, page).0.ppu.oam == bus.ppu.oam_after_dma(bus.dma_page(page)),
        bus.write(0x4014, page).0.ppu.oam.len() == 256,
        bus.ppu.oam_addr == 0 ==> bus.write(0x4014, page).0.ppu.oam == bus.dma_page(page),
        bus.write(0x4014, page).0.cycles == bus.cycles.wrapping_add(513),
        bus.cycles + 513 <= u64::MAX ==> bus.write(0x4014, page).0.cycles == bus.cycles + 513,
{
    reveal(BusState::write);
    let copied = BusState { ppu: bus.ppu.write_oam_dma(bus.dma_page(page)), ..bus };
    let first = copied.tick(171);
    let second = first.tick(171);
    let third = second.tick(171);
    lemma_tick_keeps_sprite_memory(copied, 171);
    lemma_tick_keeps_sprite_memory(first, 171);
    lemma_tick_keeps_sprite_memory(second, 171);
    assert(bus.write(0x4014, page).0 == third);
    if bus.ppu.oam_addr == 0 {
        assert(bus.ppu.oam_after_dma(bus.dma_page(page)) =~= bus.dma_page(page));
    }
}

/// A frame is 262 scanlines of 341 dots: 89,342 dots. A tick moves the
/// position in the frame on by its dots, modulo the frame, and reports a
/// completed frame exactly where the position passes the end.
pub proof fn lemma_tick_advances_frame_position(ppu: PpuState, dots: u8)
    requires
        ppu.wf(),
    ensures
        262 * 341 == 89342,
        0 <= ppu.frame_position() < 89342,
        ppu.tick(dots).0.wf(),
        ppu.tick(dots).0.frame_position() == (ppu.frame_position() + dots) % 89342,
        ppu.tick(dots).1 == (ppu.frame_position() + dots >= 89342),
{
}

/// PHA then PLA restores A and the stack pointer, and leaves Z and N as
/// the value of A has them. Between the two the machine may do anything
/// that leaves the stack pointer and the byte pushed as PHA left them:
/// `between` is the machine just before PLA.
pub proof fn lemma_pha_pla_restores_accumulator(
    cpu: CpuState,
    between: CpuState,
    push_cycles: u8,
    pull_cycles: u8,
)
    requires
        cpu.wf(),
        between.wf(),
        between.regs.sp == cpu.exec_pha(push_cycles).0.regs.sp,
        between.bus.ram[0x0100 + cpu.regs.sp] == cpu.exec_pha(push_cycles).0.bus.ram[0x0100
            + cpu.regs.sp],
    ensures
        cpu.exec_pha(push_cycles).0.bus.ram[0x0100 + cpu.regs.sp] == cpu.regs.a,
        cpu.exec_pha(push_cycles).0.regs.sp == wrap8(cpu.regs.sp - 1),
        ({
            let restored = between.exec_pla(pull_cycles).0;
            &&& restored.regs.a == cpu.regs.a
            &&& restored.regs.sp == cpu.regs.sp
            &&& restored.regs.p.zero == (cpu.regs.a == 0)
            &&& restored.regs.p.negative == (cpu.regs.a >= 128)
        }),
{
}

/// PLA takes the byte above the stack pointer: A is that byte, Z and N
/// follow it, S moves up by one, and everything else stays.
pub proof fn lemma_pla_pulls_the_top_byte(cpu: CpuState, cycles: u8)
    requires
        cpu.wf(),
    ensures
        ({
            let pulled = cpu.exec_pla(cycles);
            let value = cpu.bus.ram[0x0100 + wrap8(cpu.regs.sp + 1)];
            &&& pulled.1 == Ok::<u8, EmulatorError>(cycles)
            &&& pulled.0.regs.a == value
            &&& pulled.0.regs.p.zero == (value == 0)
            &&& pulled.0.regs.p.negative == (value >= 128)
            &&& pulled.0.regs.p.carry == cpu.regs.p.carry
            &&& pulled.0.regs.p.overflow == cpu.regs.p.overflow
            &&& pulled.0.regs.p.interrupt_disable == cpu.regs.p.interrupt_disable
            &&& pulled.0.regs.p.decimal == cpu.regs.p.decimal
            &&& pulled.0.regs.x == cpu.regs.x
            &&& pulled.0.regs.y == cpu.regs.y
            &&& pulled.0.regs.sp == wrap8(cpu.regs.sp + 1)
            &&& pulled.0.pc == cpu.pc
            &&& pulled.0.bus == cpu.bus
        }),
{
}

/// PHP then PLP restores P, all six flags, and the stack pointer. The
/// byte on the stack has B and U set; P itself holds neither. Between the
/// two the machine may do anything that leaves the stack pointer and the
/// byte pushed as PHP left them: `between` is the machine just before
/// PLP.
pub proof fn lemma_php_plp_restores_status(
    cpu: CpuState,
    between: CpuState,
    push_cycles: u8,
    pull_cycles: u8,
)
    requires
        cpu.wf(),
        between.wf(),
        between.regs.sp == cpu.exec_php(push_cycles).0.regs.sp,
        between.bus.ram[0x0100 + cpu.regs.sp] == cpu.exec_php(push_cycles).0.bus.ram[0x0100
            + cpu.regs.sp],
    ensures
        cpu.exec_php(push_cycles).0.bus.ram[0x0100 + cpu.regs.sp] == cpu.regs.p.bits() + 16,
        ({
            let restored = between.exec_plp(pull_cycles).0;
            &&& restored.regs.p == cpu.regs.p
            &&& restored.regs.p.bits() == cpu.regs.p.bits()
            &&& bit_is_set(restored.regs.p.bits(), 5)
            &&& !bit_is_set(restored.regs.p.bits(), 4)
            &&& restored.regs.sp == cpu.regs.sp
        }),
{
    lemma_status_roundtrip(cpu.regs.p);
}

/// A byte with bit 4 clear and bit 5 set is what it is after B was
/// cleared and U was set in it.
pub proof fn lemma_pushed_status_has_no_break(value: u8)
    by (bit_vector)
    requires
        value & 0x10 == 0,
        value & 0x20 != 0,
    ensures
        (value & 0xEF) | 0x20 == value,
{
}

/// The NMI sequence pushes the program counter, high byte first, and
/// then P as it reads, with B clear and U set; S ends three below; I is
/// set and the other flags, A, X and Y stay; seven cycles pass; and the
/// program goes on at the word made of the two bytes at 0xFFFA and
/// 0xFFFB.
pub proof fn lemma_nmi_pushes_and_jumps(cpu: CpuState)
    requires
        cpu.wf(),
    ensures
        ({
            let served = cpu.nmi();
            let pushed = cpu.regs.p.bits();
            &&& served.bus.ram[0x0100 + cpu.regs.sp] == high_byte(cpu.pc)
            &&& served.bus.ram[0x0100 + wrap8(cpu.regs.sp - 1)] == low_byte(cpu.pc)
            &&& served.bus.ram[0x0100 + wrap8(cpu.regs.sp - 2)] == pushed
            &&& pushed & 0x10 == 0
            &&& pushed & 0x20 != 0
            &&& (pushed & 0xEF) | 0x20 == pushed
            &&& served.regs.sp == wrap8(cpu.regs.sp - 3)
            &&& served.regs.p == (ProcessorStatus { interrupt_disable: true, ..cpu.regs.p })
            &&& served.regs.a == cpu.regs.a
            &&& served.regs.x == cpu.regs.x
            &&& served.regs.y == cpu.regs.y
            &&& served.bus.cycles == cpu.bus.cycles.wrapping_add(7)
            &&& served.pc == word_of(
                cpu.bus.peek_or_zero(0xFFFA),
                cpu.bus.peek_or_zero(0xFFFB),
            )
            &&& served.wf()
        }),
{
    reveal(BusState::tick);
    reveal(BusState::read_word);
    let pushed = cpu.regs.p.bits();
    lemma_status_keeps_unused_and_break(cpu.regs.p);
    lemma_bit_masks(pushed);
    lemma_pushed_status_has_no_break(pushed);
    let stacked = cpu.push16(cpu.pc).push(pushed);
    let ticked = stacked.bus.tick(7);
    assert(ticked.prg_rom == cpu.bus.prg_rom);
    assert(ticked.ram == stacked.bus.ram);
    lemma_prg_word_is_two_bytes(ticked, 0xFFFA);
    lemma_address_masks(0x7FFA);
    lemma_address_masks(0x7FFB);
    lemma_tick_keeps_the_bus_valid(stacked.bus, 7);
}

/// Passing time keeps a valid bus valid.
pub proof fn lemma_tick_keeps_the_bus_valid(bus: BusState, cycles: u8)
    requires
        bus.wf(),
    ensures
        bus.tick(cycles).wf(),
        bus.tick(cycles).ram == bus.ram,
        bus.tick(cycles).prg_rom == bus.prg_rom,
{
    reveal(BusState::tick);
    let first = bus.ppu.tick(cycles).0;
    lemma_tick_advances_frame_position(bus.ppu, cycles);
    let second = first.tick(cycles).0;
    lemma_tick_advances_frame_position(first, cycles);
    lemma_tick_advances_frame_position(second, cycles);
}

/// Two PPUADDR writes, high byte then low byte, set the VRAM address to
/// the word of the two bytes, kept within 14 bits.
pub proof fn lemma_address_writes_form_a_word(address: u16, high: u8, low: u8)
    ensures
        address_after_write(address_after_write(address, high, false), low, true) == word_of(
            low,
            high,
        ) % 0x4000,
{
    let first = address_after_write(address, high, false);
    assert(first == (high % 64) * 256 + address % 256);
    assert(first / 256 == high % 64);
}

/// Two PPUADDR writes, high byte then low byte, set the VRAM address; of
/// two PPUDATA reads that follow, the second returns the byte at that
/// address. This holds where both reads stay below the palette, whose
/// bytes are not buffered.
#[verifier::rlimit(50)]
pub proof fn lemma_second_data_read_returns_addressed_byte(ppu: PpuState, high: u8, low: u8)
    requires
        ppu.wf(),
        !ppu.write_toggle,
        ppu.write_addr(high).write_addr(low).vram_addr < 0x3F00,
        ppu.write_addr(high).write_addr(low).after_read_data().vram_addr < 0x3F00,
    ensures
        ({
            let addressed = ppu.write_addr(high).write_addr(low);
            &&& addressed.vram_addr == word_of(low, high) % 0x4000
            &&& addressed.after_read_data().read_data_value() == ppu.memory_byte(
                addressed.vram_addr,
            )
        }),
{
    lemma_address_writes_form_a_word(ppu.vram_addr, high, low);
    let addressed = ppu.write_addr(high).write_addr(low);
    assert(addressed.vram_addr == address_after_write(
        address_after_write(ppu.vram_addr, high, false),
        low,
        true,
    ));
    assert(addressed.read_data_refill() == ppu.memory_byte(addressed.vram_addr));
    assert(addressed.after_read_data().read_buffer == addressed.read_data_refill());
}

/// With horizontal mirroring the first two nametables share their memory,
/// and so do the last two; with vertical mirroring nametables 0 and 2
/// share theirs, and so do 1 and 3.
pub proof fn lemma_nametables_are_mirrored(offset: u16)
    requires
        offset < 0x0400,
    ensures
        nametable_index(Mirroring::Horizontal, (0x2000 + offset) as u16) == nametable_index(
            Mirroring::Horizontal,
            (0x2400 + offset) as u16,
        ),
        nametable_index(Mirroring::Horizontal, (0x2800 + offset) as u16) == nametable_index(
            Mirroring::Horizontal,
            (0x2C00 + offset) as u16,
        ),
        nametable_index(Mirroring::Vertical, (0x2000 + offset) as u16) == nametable_index(
            Mirroring::Vertical,
            (0x2800 + offset) as u16,
        ),
        nametable_index(Mirroring::Vertical, (0x2400 + offset) as u16) == nametable_index(
            Mirroring::Vertical,
            (0x2C00 + offset) as u16,
        ),
        nametable_index(Mirroring::Horizontal, (0x2000 + offset) as u16) != nametable_index(
            Mirroring::Horizontal,
            (0x2800 + offset) as u16,
        ),
        nametable_index(Mirroring::Horizontal, (0x2000 + offset) as u16) == Some(offset as int),
        nametable_index(Mirroring::Horizontal, (0x2800 + offset) as u16) == Some(
            0x0400 + offset,
        ),
        nametable_index(Mirroring::Vertical, (0x2000 + offset) as u16) == Some(offset as int),
        nametable_index(Mirroring::Vertical, (0x2400 + offset) as u16) == Some(0x0400 + offset),
        0x0400 + offset < 0x0800,
{
}

} // verus!
