use nes::bus::Bus;
use nes::cpu::cpu::CPU;
use nes::cpu::opcode::{decode, lookup, AddressingMode, Instruction, OpCode};
use nes::cpu::register::{ProcessorStatus, ProgramCounter, Register, Stack, StackOperation};
use nes::cpu::state::StepOutcome;
use nes::error::EmulatorError;
use nes::rom::Rom;

const CARRY: u8 = 0x01;
const ZERO: u8 = 0x02;
const INTERRUPT: u8 = 0x04;
const DECIMAL: u8 = 0x08;
const BREAK: u8 = 0x10;
const UNUSED: u8 = 0x20;
const OVERFLOW: u8 = 0x40;
const NEGATIVE: u8 = 0x80;

/// A machine with `program` at 0x8000, the reset vector pointing there, KIL
/// at the NMI handler 0x9000 and at the IRQ handler 0xA000.
fn machine_with(program: &[u8], more: &[(u16, &[u8])]) -> CPU {
    let mut prg = vec![0xEAu8; 0x4000];
    prg[..program.len()].copy_from_slice(program);
    prg[0x1000] = 0x02;
    prg[0x2000] = 0x02;
    for (address, bytes) in more {
        let offset = (*address as usize) & 0x3FFF;
        prg[offset..offset + bytes.len()].copy_from_slice(bytes);
    }
    prg[0x3FFA] = 0x00;
    prg[0x3FFB] = 0x90;
    prg[0x3FFC] = 0x00;
    prg[0x3FFD] = 0x80;
    prg[0x3FFE] = 0x00;
    prg[0x3FFF] = 0xA0;
    let mut image = vec![0x4E, 0x45, 0x53, 0x1A, 1, 1, 0, 0, 0, 0, 0, 0, 0, 0, 0, 0];
    image.extend(prg);
    image.extend(vec![0u8; 0x2000]);
    let mut cpu = CPU::new(Bus::new(Rom::new(&image).unwrap()));
    cpu.reset_interrupt();
    cpu
}

fn machine(program: &[u8]) -> CPU {
    machine_with(program, &[])
}

fn steps(cpu: &mut CPU, count: usize) {
    for _ in 0..count {
        assert_eq!(cpu.run(1), Ok(StepOutcome::Continue));
    }
}

/// Executes one instruction and returns the cycles that it took.
fn timed(cpu: &mut CPU) -> u64 {
    let before = cpu.bus.cycles();
    assert_eq!(cpu.run(1), Ok(StepOutcome::Continue));
    cpu.bus.cycles() - before
}

#[test]
fn every_byte_decodes_to_an_entry_of_the_table() {
    for byte in 0..=255u8 {
        let entry = lookup(byte);
        assert!(entry.is_some());
        assert_eq!(decode(byte).ok(), entry);
        assert!(entry.unwrap().cycles <= 8);
    }
    assert_eq!(
        decode(0xA9),
        Ok(Instruction { opcode: OpCode::LDA, mode: AddressingMode::Immediate, cycles: 2 })
    );
    assert_eq!(
        decode(0x6C),
        Ok(Instruction { opcode: OpCode::JMP, mode: AddressingMode::Indirect, cycles: 5 })
    );
    assert_eq!(
        decode(0x00),
        Ok(Instruction { opcode: OpCode::BRK, mode: AddressingMode::Implied, cycles: 7 })
    );
    assert_eq!(
        decode(0xB3),
        Ok(Instruction { opcode: OpCode::LAX, mode: AddressingMode::IndirectIndexedY, cycles: 5 })
    );
    assert_eq!(
        decode(0x8B),
        Ok(Instruction { opcode: OpCode::XAA, mode: AddressingMode::Immediate, cycles: 2 })
    );
}

#[test]
fn the_table_holds_151_documented_opcodes() {
    let documented = (0..=255u8)
        .filter(|byte| {
            let entry = lookup(*byte).unwrap();
            !entry.opcode.undocumented()
                && !(entry.opcode == OpCode::NOP && *byte != 0xEA)
                && *byte != 0xEB
        })
        .count();
    assert_eq!(documented, 151);
}

#[test]
fn operand_bytes_follow_the_addressing_mode() {
    assert_eq!(AddressingMode::Implied.operand_bytes(), 0);
    assert_eq!(AddressingMode::Accumulator.operand_bytes(), 0);
    for mode in [
        AddressingMode::Immediate,
        AddressingMode::Relative,
        AddressingMode::ZeroPage,
        AddressingMode::ZeroPageX,
        AddressingMode::ZeroPageY,
        AddressingMode::IndexedIndirectX,
        AddressingMode::IndirectIndexedY,
    ] {
        assert_eq!(mode.operand_bytes(), 1);
    }
    for mode in [
        AddressingMode::Absolute,
        AddressingMode::AbsoluteX,
        AddressingMode::AbsoluteY,
        AddressingMode::Indirect,
    ] {
        assert_eq!(mode.operand_bytes(), 2);
    }
}

#[test]
fn reset_takes_seven_cycles() {
    let mut cpu = machine(&[]);
    assert_eq!(cpu.bus.cycles(), 7);
    assert_eq!(cpu.bus.ppu().cycles(), 21);
    cpu.reset_interrupt();
    assert_eq!(cpu.bus.cycles(), 14);
}

#[test]
fn an_indirect_indexed_read_across_a_page_costs_one_more() {
    let mut cpu = machine(&[0xA0, 0x01, 0xB1, 0x40, 0xB1, 0x42, 0x91, 0x40, 0x91, 0x42]);
    cpu.bus.write_word(0x0040, 0x02FF).unwrap();
    cpu.bus.write_word(0x0042, 0x02FE).unwrap();
    cpu.bus.write_byte(0x0300, 0x99).unwrap();
    steps(&mut cpu, 1);
    assert_eq!(timed(&mut cpu), 6);
    assert_eq!(cpu.accumulator.get(), 0x99);
    assert_eq!(timed(&mut cpu), 5);
    assert_eq!(timed(&mut cpu), 6);
    assert_eq!(timed(&mut cpu), 6);
    assert_eq!(
        cpu.get_operand_address(&AddressingMode::IndirectIndexedY, 0x8003),
        Ok((true, 0x0300))
    );
    assert_eq!(
        cpu.get_operand_address(&AddressingMode::IndirectIndexedY, 0x8005),
        Ok((false, 0x02FF))
    );
    assert_eq!(
        cpu.get_operand_address(&AddressingMode::IndexedIndirectX, 0x8003),
        Ok((false, 0x02FF))
    );
}

#[test]
fn reset_loads_the_vector_and_the_power_on_registers() {
    let mut cpu = machine(&[0xA9, 0x55, 0xAA, 0xA8, 0x38, 0x9A]);
    steps(&mut cpu, 5);
    cpu.reset();
    assert_eq!(cpu.stack.get_pointer(), 0xFD);
    assert_eq!(cpu.status.get(), 0x24);
    assert_eq!(cpu.program_counter.get(), 0x8000);
    assert_eq!(cpu.accumulator.get(), 0);
    assert_eq!(cpu.register_x.get(), 0);
    assert_eq!(cpu.register_y.get(), 0);
}

#[test]
fn five_instructions_work_together() {
    let mut cpu = machine_with(&[0xA9, 0xC0, 0xAA, 0xE8, 0x00], &[]);
    assert_eq!(cpu.run(100), Ok(StepOutcome::Halted));
    assert_eq!(cpu.register_x.get(), 0xC1);
    assert_eq!(cpu.accumulator.get(), 0xC0);
    assert_eq!(cpu.status.get() & ZERO, 0);
    assert_eq!(cpu.status.get() & NEGATIVE, NEGATIVE);
    assert_eq!(cpu.program_counter.get(), 0xA001);
}

#[test]
fn run_stops_when_the_budget_is_spent() {
    let mut cpu = machine(&[0xE8, 0xE8, 0xE8, 0xE8]);
    assert_eq!(cpu.run(3), Ok(StepOutcome::Continue));
    assert_eq!(cpu.register_x.get(), 3);
    assert_eq!(cpu.run(0), Ok(StepOutcome::Continue));
    assert_eq!(cpu.register_x.get(), 3);
}

#[test]
fn run_stops_at_every_completed_frame() {
    let mut cpu = machine(&[0x4C, 0x00, 0x80]);
    assert_eq!(cpu.run(usize::MAX), Ok(StepOutcome::FrameReady));
    assert_eq!(cpu.bus.cycles(), 29782);
    assert_eq!(cpu.run(usize::MAX), Ok(StepOutcome::FrameReady));
    assert_eq!(cpu.bus.cycles(), 59563);
}

#[test]
fn step_returns_the_cycles_of_one_instruction() {
    let mut cpu = machine(&[0xA2, 0x01, 0xBD, 0xFF, 0x02, 0x02, 0x8B]);
    assert_eq!(cpu.step(), Ok(Some(2)));
    assert_eq!(cpu.step(), Ok(Some(5)));
    assert_eq!(cpu.bus.cycles(), 7);
    assert_eq!(cpu.step(), Ok(None));
    assert_eq!(cpu.step(), Err(EmulatorError::UnstableOpCode(0x8B)));
    assert_eq!(cpu.program_counter.get(), 0x8007);
}

#[test]
fn kil_halts_and_xaa_is_fatal() {
    let mut cpu = machine(&[0x02]);
    assert_eq!(cpu.run(1), Ok(StepOutcome::Halted));
    assert_eq!(cpu.bus.cycles(), 7);
    let mut cpu = machine(&[0xEA, 0x8B, 0x00]);
    assert_eq!(cpu.run(10), Err(EmulatorError::UnstableOpCode(0x8B)));
}

#[test]
fn adc_sets_overflow_when_the_signed_sum_does_not_fit() {
    let mut cpu = machine(&[0xA9, 0x7F, 0x18, 0x69, 0x01]);
    steps(&mut cpu, 3);
    assert_eq!(cpu.accumulator.get(), 0x80);
    assert_eq!(cpu.status.get(), UNUSED | INTERRUPT | OVERFLOW | NEGATIVE);
}

#[test]
fn adc_adds_the_carry_and_sets_it() {
    let mut cpu = machine(&[0xA9, 0xFF, 0x38, 0x69, 0x00, 0x69, 0x10]);
    steps(&mut cpu, 3);
    assert_eq!(cpu.accumulator.get(), 0x00);
    assert_eq!(cpu.status.get(), UNUSED | INTERRUPT | ZERO | CARRY);
    steps(&mut cpu, 1);
    assert_eq!(cpu.accumulator.get(), 0x11);
    assert_eq!(cpu.status.get(), UNUSED | INTERRUPT);
}

#[test]
fn sbc_without_borrow_sets_overflow_and_carry() {
    let mut cpu = machine(&[0xA9, 0x80, 0x38, 0xE9, 0x7F]);
    steps(&mut cpu, 3);
    assert_eq!(cpu.accumulator.get(), 0x01);
    assert_eq!(cpu.status.get(), UNUSED | INTERRUPT | OVERFLOW | CARRY);
}

#[test]
fn sbc_with_borrow_subtracts_one_more() {
    let mut cpu = machine(&[0xA9, 0x05, 0x18, 0xE9, 0x05, 0xEB, 0x01]);
    steps(&mut cpu, 3);
    assert_eq!(cpu.accumulator.get(), 0xFF);
    assert_eq!(cpu.status.get(), UNUSED | INTERRUPT | NEGATIVE);
    steps(&mut cpu, 1);
    assert_eq!(cpu.accumulator.get(), 0xFD);
    assert_eq!(cpu.status.get(), UNUSED | INTERRUPT | NEGATIVE | CARRY);
}

#[test]
fn inx_wraps_to_zero() {
    let mut cpu = machine(&[0xA2, 0xFF, 0xE8]);
    steps(&mut cpu, 2);
    assert_eq!(cpu.register_x.get(), 0x00);
    assert_eq!(cpu.status.get() & ZERO, ZERO);
    assert_eq!(cpu.status.get() & NEGATIVE, 0);
}

#[test]
fn register_instructions_move_and_count() {
    let mut cpu = machine(&[0xA0, 0x00, 0x88, 0x98, 0xAA, 0xCA, 0x8A, 0xA8, 0xC8, 0xC8, 0x9A, 0xBA]);
    steps(&mut cpu, 2);
    assert_eq!(cpu.register_y.get(), 0xFF);
    assert_eq!(cpu.status.get() & NEGATIVE, NEGATIVE);
    steps(&mut cpu, 2);
    assert_eq!(cpu.accumulator.get(), 0xFF);
    assert_eq!(cpu.register_x.get(), 0xFF);
    steps(&mut cpu, 2);
    assert_eq!(cpu.register_x.get(), 0xFE);
    assert_eq!(cpu.accumulator.get(), 0xFE);
    steps(&mut cpu, 3);
    assert_eq!(cpu.register_y.get(), 0x00);
    assert_eq!(cpu.status.get() & ZERO, ZERO);
    steps(&mut cpu, 1);
    assert_eq!(cpu.stack.get_pointer(), 0xFE);
    assert_eq!(cpu.status.get() & ZERO, ZERO);
    cpu.register_x.set(0);
    steps(&mut cpu, 1);
    assert_eq!(cpu.register_x.get(), 0xFE);
    assert_eq!(cpu.status.get() & (ZERO | NEGATIVE), NEGATIVE);
}

#[test]
fn flag_instructions_set_and_clear() {
    let mut cpu = machine(&[0x38, 0xF8, 0x78, 0x18, 0xD8, 0x58, 0xA9, 0x7F, 0x69, 0x01, 0xB8]);
    steps(&mut cpu, 3);
    assert_eq!(cpu.status.get(), UNUSED | CARRY | DECIMAL | INTERRUPT);
    steps(&mut cpu, 3);
    assert_eq!(cpu.status.get(), UNUSED);
    steps(&mut cpu, 2);
    assert_eq!(cpu.status.get(), UNUSED | OVERFLOW | NEGATIVE);
    steps(&mut cpu, 1);
    assert_eq!(cpu.status.get(), UNUSED | NEGATIVE);
}

#[test]
fn logic_instructions_combine_with_the_accumulator() {
    let mut cpu = machine(&[0xA9, 0b1100_1010, 0x29, 0b1010_1010, 0x09, 0b0000_0101, 0x49, 0xFF]);
    steps(&mut cpu, 2);
    assert_eq!(cpu.accumulator.get(), 0b1000_1010);
    steps(&mut cpu, 1);
    assert_eq!(cpu.accumulator.get(), 0b1000_1111);
    steps(&mut cpu, 1);
    assert_eq!(cpu.accumulator.get(), 0b0111_0000);
    assert_eq!(cpu.status.get() & (ZERO | NEGATIVE), 0);
}

#[test]
fn compare_sets_carry_zero_and_negative() {
    let mut cpu = machine(&[0xA9, 0x40, 0xC9, 0x40, 0xC9, 0x41, 0xC9, 0x3F, 0xA2, 0x10, 0xE0, 0x20, 0xA0, 0x90, 0xC0, 0x10]);
    steps(&mut cpu, 2);
    assert_eq!(cpu.status.get(), UNUSED | INTERRUPT | ZERO | CARRY);
    steps(&mut cpu, 1);
    assert_eq!(cpu.status.get(), UNUSED | INTERRUPT | NEGATIVE);
    steps(&mut cpu, 1);
    assert_eq!(cpu.status.get(), UNUSED | INTERRUPT | CARRY);
    steps(&mut cpu, 2);
    assert_eq!(cpu.status.get(), UNUSED | INTERRUPT | NEGATIVE);
    steps(&mut cpu, 2);
    assert_eq!(cpu.status.get(), UNUSED | INTERRUPT | NEGATIVE | CARRY);
    assert_eq!(cpu.accumulator.get(), 0x40);
}

#[test]
fn bit_tests_memory_against_the_accumulator() {
    let mut cpu = machine(&[0xA9, 0xC0, 0x85, 0x10, 0xA9, 0x01, 0x24, 0x10, 0xA9, 0x40, 0x2C, 0x10, 0x00]);
    steps(&mut cpu, 4);
    assert_eq!(cpu.status.get(), UNUSED | INTERRUPT | ZERO | OVERFLOW | NEGATIVE);
    steps(&mut cpu, 2);
    assert_eq!(cpu.status.get(), UNUSED | INTERRUPT | OVERFLOW | NEGATIVE);
    assert_eq!(cpu.accumulator.get(), 0x40);
}

#[test]
fn shifts_and_rotates_on_the_accumulator() {
    let mut cpu = machine(&[0xA9, 0x81, 0x0A, 0x2A, 0x6A, 0x4A, 0x6A]);
    steps(&mut cpu, 2);
    assert_eq!(cpu.accumulator.get(), 0x02);
    assert_eq!(cpu.status.get(), UNUSED | INTERRUPT | CARRY);
    steps(&mut cpu, 1);
    assert_eq!(cpu.accumulator.get(), 0x05);
    assert_eq!(cpu.status.get(), UNUSED | INTERRUPT);
    steps(&mut cpu, 1);
    assert_eq!(cpu.accumulator.get(), 0x02);
    assert_eq!(cpu.status.get(), UNUSED | INTERRUPT | CARRY);
    steps(&mut cpu, 1);
    assert_eq!(cpu.accumulator.get(), 0x01);
    assert_eq!(cpu.status.get(), UNUSED | INTERRUPT);
    steps(&mut cpu, 1);
    assert_eq!(cpu.accumulator.get(), 0x00);
    assert_eq!(cpu.status.get(), UNUSED | INTERRUPT | ZERO | CARRY);
}

#[test]
fn shifts_and_counts_in_memory() {
    let mut cpu = machine(&[
        0xA9, 0xC1, 0x85, 0x20, 0x06, 0x20, 0x26, 0x20, 0x46, 0x20, 0x66, 0x20, 0xE6, 0x20, 0xC6,
        0x20, 0xC6, 0x20,
    ]);
    steps(&mut cpu, 3);
    assert_eq!(cpu.bus.peek(0x20), Some(0x82));
    assert_eq!(cpu.status.get(), UNUSED | INTERRUPT | NEGATIVE | CARRY);
    steps(&mut cpu, 1);
    assert_eq!(cpu.bus.peek(0x20), Some(0x05));
    assert_eq!(cpu.status.get(), UNUSED | INTERRUPT | CARRY);
    steps(&mut cpu, 1);
    assert_eq!(cpu.bus.peek(0x20), Some(0x02));
    assert_eq!(cpu.status.get(), UNUSED | INTERRUPT | CARRY);
    steps(&mut cpu, 1);
    assert_eq!(cpu.bus.peek(0x20), Some(0x81));
    assert_eq!(cpu.status.get(), UNUSED | INTERRUPT | NEGATIVE);
    steps(&mut cpu, 1);
    assert_eq!(cpu.bus.peek(0x20), Some(0x82));
    steps(&mut cpu, 2);
    assert_eq!(cpu.bus.peek(0x20), Some(0x80));
    assert_eq!(cpu.accumulator.get(), 0xC1);
}

#[test]
fn stores_write_registers() {
    let mut cpu = machine(&[0xA9, 0x11, 0xA2, 0x22, 0xA0, 0x33, 0x8D, 0x00, 0x03, 0x8E, 0x01, 0x03, 0x8C, 0x02, 0x03, 0x87, 0x40]);
    steps(&mut cpu, 7);
    assert_eq!(cpu.bus.peek(0x0300), Some(0x11));
    assert_eq!(cpu.bus.peek(0x0301), Some(0x22));
    assert_eq!(cpu.bus.peek(0x0302), Some(0x33));
    assert_eq!(cpu.bus.peek(0x0040), Some(0x11 & 0x22));
    assert_eq!(cpu.status.get(), UNUSED | INTERRUPT);
}

#[test]
fn a_store_into_rom_is_an_error() {
    let mut cpu = machine(&[0x8D, 0x00, 0x80]);
    assert_eq!(cpu.run(1), Err(EmulatorError::ROMWriteForbidden(0x8000)));
    let mut cpu = machine(&[0xAD, 0x00, 0x20]);
    assert_eq!(cpu.run(1), Err(EmulatorError::UnsupportedRead(0x2000)));
    let mut cpu = machine(&[0x8D, 0x02, 0x20]);
    assert_eq!(cpu.run(1), Err(EmulatorError::UnsupportedWrite(0x2002)));
}

#[test]
fn addressing_modes_find_their_operands() {
    let mut cpu = machine(&[
        0xA2, 0x04, 0xA0, 0x02, 0xB5, 0xFE, 0xB6, 0xFF, 0xBD, 0xFE, 0x02, 0xB9, 0x00, 0x03, 0xA1,
        0x3C, 0xB1, 0x40, 0xB1, 0xFF,
    ]);
    cpu.bus.write_byte(0x0002, 0xF1).unwrap();
    cpu.bus.write_byte(0x0001, 0xF2).unwrap();
    cpu.bus.write_byte(0x0302, 0xF3).unwrap();
    cpu.bus.write_byte(0x0300, 0xF4).unwrap();
    cpu.bus.write_byte(0x0040, 0x00).unwrap();
    cpu.bus.write_byte(0x0041, 0x03).unwrap();
    cpu.bus.write_byte(0x00FF, 0x10).unwrap();
    cpu.bus.write_byte(0x0000, 0x04).unwrap();
    cpu.bus.write_byte(0x0100, 0x07).unwrap();
    cpu.bus.write_byte(0x0412, 0xF6).unwrap();
    steps(&mut cpu, 3);
    assert_eq!(cpu.accumulator.get(), 0xF1);
    steps(&mut cpu, 1);
    assert_eq!(cpu.register_x.get(), 0xF2);
    cpu.register_x.set(4);
    steps(&mut cpu, 1);
    assert_eq!(cpu.accumulator.get(), 0xF3);
    cpu.accumulator.set(0);
    steps(&mut cpu, 1);
    assert_eq!(cpu.accumulator.get(), 0xF3);
    cpu.accumulator.set(0);
    steps(&mut cpu, 1);
    assert_eq!(cpu.accumulator.get(), 0xF4);
    steps(&mut cpu, 1);
    assert_eq!(cpu.accumulator.get(), 0xF3);
    steps(&mut cpu, 1);
    assert_eq!(cpu.accumulator.get(), 0xF6);
}

#[test]
fn get_operand_address_reports_page_crossings() {
    let mut cpu = machine(&[0xF0, 0x02, 0x10, 0x03]);
    cpu.register_x.set(0x10);
    cpu.register_y.set(0x0F);
    assert_eq!(cpu.get_operand_address(&AddressingMode::Absolute, 0x8000), Ok((false, 0x02F0)));
    assert_eq!(cpu.get_operand_address(&AddressingMode::AbsoluteX, 0x8000), Ok((true, 0x0300)));
    assert_eq!(cpu.get_operand_address(&AddressingMode::AbsoluteY, 0x8000), Ok((false, 0x02FF)));
    assert_eq!(cpu.get_operand_address(&AddressingMode::Immediate, 0x8000), Ok((false, 0x8000)));
    assert_eq!(cpu.get_operand_address(&AddressingMode::Relative, 0x8001), Ok((false, 0x8001)));
    assert_eq!(cpu.get_operand_address(&AddressingMode::ZeroPage, 0x8000), Ok((false, 0x00F0)));
    assert_eq!(cpu.get_operand_address(&AddressingMode::ZeroPageX, 0x8000), Ok((false, 0x0000)));
    assert_eq!(cpu.get_operand_address(&AddressingMode::ZeroPageY, 0x8000), Ok((false, 0x00FF)));
    assert_eq!(
        cpu.get_operand_address(&AddressingMode::ZeroPage, 0x2000),
        Err(EmulatorError::UnsupportedRead(0x2000))
    );
}

#[test]
fn jmp_indirect_takes_the_high_byte_from_the_same_page() {
    let mut cpu = machine(&[0x6C, 0xFF, 0x02]);
    cpu.bus.write_byte(0x02FF, 0x34).unwrap();
    cpu.bus.write_byte(0x0200, 0x12).unwrap();
    cpu.bus.write_byte(0x0300, 0x56).unwrap();
    assert_eq!(timed(&mut cpu), 5);
    assert_eq!(cpu.program_counter.get(), 0x1234);
}

#[test]
fn jmp_indirect_within_a_page_reads_the_next_byte() {
    let mut cpu = machine(&[0x6C, 0x10, 0x02]);
    cpu.bus.write_byte(0x0210, 0x78).unwrap();
    cpu.bus.write_byte(0x0211, 0x56).unwrap();
    steps(&mut cpu, 1);
    assert_eq!(cpu.program_counter.get(), 0x5678);
}

#[test]
fn branches_cost_by_where_they_go() {
    let mut cpu = machine_with(&[0x4C, 0xF0, 0x80], &[(0x80F0, &[0xD0, 0x02, 0xEA, 0xEA, 0xF0, 0x10, 0xD0, 0x10])]);
    steps(&mut cpu, 1);
    assert_eq!(timed(&mut cpu), 3);
    assert_eq!(cpu.program_counter.get(), 0x80F4);
    assert_eq!(timed(&mut cpu), 2);
    assert_eq!(cpu.program_counter.get(), 0x80F6);
    assert_eq!(timed(&mut cpu), 4);
    assert_eq!(cpu.program_counter.get(), 0x8108);
}

#[test]
fn a_branch_backwards_across_a_page_costs_two_more() {
    let mut cpu = machine_with(&[0x4C, 0x00, 0x81], &[(0x8100, &[0xD0, 0xFC])]);
    steps(&mut cpu, 1);
    assert_eq!(timed(&mut cpu), 4);
    assert_eq!(cpu.program_counter.get(), 0x80FE);
}

#[test]
fn a_read_across_a_page_costs_one_more() {
    let mut cpu = machine(&[0xA2, 0x01, 0xBD, 0xFF, 0x02, 0xBD, 0x00, 0x02, 0x9D, 0xFF, 0x02, 0x1C, 0xFF, 0x02, 0x04, 0x10]);
    steps(&mut cpu, 1);
    assert_eq!(timed(&mut cpu), 5);
    assert_eq!(timed(&mut cpu), 4);
    assert_eq!(timed(&mut cpu), 5);
    assert_eq!(timed(&mut cpu), 5);
    assert_eq!(timed(&mut cpu), 3);
    assert_eq!(cpu.program_counter.get(), 0x8010);
}

#[test]
fn pha_then_pla_restores_the_accumulator() {
    let mut cpu = machine(&[0xA9, 0x80, 0x48, 0xA9, 0x00, 0x68]);
    steps(&mut cpu, 2);
    assert_eq!(cpu.stack.get_pointer(), 0xFC);
    assert_eq!(cpu.bus.peek(0x01FD), Some(0x80));
    steps(&mut cpu, 1);
    assert_eq!(cpu.status.get() & ZERO, ZERO);
    steps(&mut cpu, 1);
    assert_eq!(cpu.accumulator.get(), 0x80);
    assert_eq!(cpu.stack.get_pointer(), 0xFD);
    assert_eq!(cpu.status.get(), UNUSED | INTERRUPT | NEGATIVE);
}

#[test]
fn php_pushes_break_and_plp_forgets_it() {
    let mut cpu = machine(&[0x38, 0xF8, 0x08, 0x18, 0xD8, 0x28, 0xA9, 0xFF, 0x48, 0x28]);
    steps(&mut cpu, 3);
    assert_eq!(cpu.bus.peek(0x01FD), Some(UNUSED | BREAK | INTERRUPT | DECIMAL | CARRY));
    assert_eq!(cpu.status.get() & BREAK, 0);
    steps(&mut cpu, 2);
    assert_eq!(cpu.status.get(), UNUSED | INTERRUPT);
    steps(&mut cpu, 1);
    assert_eq!(cpu.status.get(), UNUSED | INTERRUPT | DECIMAL | CARRY);
    steps(&mut cpu, 3);
    assert_eq!(cpu.status.get(), 0xFF & !BREAK);
}

#[test]
fn the_stack_pointer_wraps() {
    let mut cpu = machine(&[0xA2, 0x00, 0x9A, 0xA9, 0x5A, 0x48, 0x68, 0x68]);
    steps(&mut cpu, 4);
    assert_eq!(cpu.stack.get_pointer(), 0xFF);
    assert_eq!(cpu.bus.peek(0x0100), Some(0x5A));
    steps(&mut cpu, 1);
    assert_eq!(cpu.stack.get_pointer(), 0x00);
    assert_eq!(cpu.accumulator.get(), 0x5A);
    steps(&mut cpu, 1);
    assert_eq!(cpu.stack.get_pointer(), 0x01);
}

#[test]
fn jsr_and_rts_go_and_come_back() {
    let mut cpu = machine_with(&[0x20, 0x00, 0x85, 0xE8], &[(0x8500, &[0xC8, 0x60])]);
    assert_eq!(timed(&mut cpu), 6);
    assert_eq!(cpu.program_counter.get(), 0x8500);
    assert_eq!(cpu.bus.peek(0x01FD), Some(0x80));
    assert_eq!(cpu.bus.peek(0x01FC), Some(0x02));
    steps(&mut cpu, 1);
    assert_eq!(timed(&mut cpu), 6);
    assert_eq!(cpu.program_counter.get(), 0x8003);
    assert_eq!(cpu.stack.get_pointer(), 0xFD);
    steps(&mut cpu, 1);
    assert_eq!((cpu.register_x.get(), cpu.register_y.get()), (1, 1));
}

#[test]
fn brk_pushes_and_goes_to_the_irq_vector_and_rti_returns() {
    let mut cpu = machine_with(&[0x38, 0x58, 0x00, 0xEA, 0xE8], &[(0xA000, &[0x18, 0x40])]);
    steps(&mut cpu, 2);
    assert_eq!(timed(&mut cpu), 7);
    assert_eq!(cpu.program_counter.get(), 0xA000);
    assert_eq!(cpu.bus.peek(0x01FD), Some(0x80));
    assert_eq!(cpu.bus.peek(0x01FC), Some(0x03));
    assert_eq!(cpu.bus.peek(0x01FB), Some(UNUSED | BREAK | CARRY));
    assert_eq!(cpu.status.get(), UNUSED | INTERRUPT | CARRY);
    steps(&mut cpu, 2);
    assert_eq!(cpu.program_counter.get(), 0x8003);
    assert_eq!(cpu.status.get(), UNUSED | CARRY);
    assert_eq!(cpu.stack.get_pointer(), 0xFD);
}

#[test]
fn vblank_nmi_interrupts_the_program() {
    let mut cpu = machine(&[0xA9, 0x80, 0x8D, 0x00, 0x20, 0x4C, 0x05, 0x80]);
    steps(&mut cpu, 2);
    let mut guard = 0;
    while cpu.bus.ppu().scanline() != 241 {
        assert_eq!(cpu.run(1), Ok(StepOutcome::Continue));
        assert_eq!(cpu.program_counter.get(), 0x8005);
        guard += 1;
        assert!(guard < 30000);
    }
    let before = cpu.bus.cycles();
    assert_eq!(cpu.run(1), Ok(StepOutcome::Halted));
    assert_eq!(cpu.program_counter.get(), 0x9001);
    assert_eq!(cpu.bus.cycles() - before, 7);
    assert_eq!(cpu.bus.peek(0x01FD), Some(0x80));
    assert_eq!(cpu.bus.peek(0x01FC), Some(0x05));
    let pushed = cpu.bus.peek(0x01FB).unwrap();
    assert_eq!(pushed & BREAK, 0);
    assert_eq!(pushed & UNUSED, UNUSED);
    assert_eq!(pushed, UNUSED | INTERRUPT | NEGATIVE);
    assert_eq!(cpu.stack.get_pointer(), 0xFA);
    assert_eq!(cpu.status.get() & INTERRUPT, INTERRUPT);
}

#[test]
fn status_keeps_unused_set_and_break_clear() {
    let program: Vec<u8> = vec![0xA9, 0xFF, 0x48, 0x28, 0x08, 0x68, 0x69, 0x01, 0x00];
    let mut cpu = machine_with(&program, &[(0xA000, &[0x40])]);
    for _ in 0..10 {
        cpu.run(1).unwrap();
        assert_eq!(cpu.status.get() & UNUSED, UNUSED);
        assert_eq!(cpu.status.get() & BREAK, 0);
    }
}

#[test]
fn undocumented_loads_and_stores() {
    let mut cpu = machine(&[0xA9, 0x0F, 0x85, 0x10, 0xA7, 0x10, 0xAB, 0x05, 0xA9, 0xF0, 0xA2, 0x3C, 0xCB, 0x10, 0x0B, 0x80]);
    steps(&mut cpu, 3);
    assert_eq!((cpu.accumulator.get(), cpu.register_x.get()), (0x0F, 0x0F));
    steps(&mut cpu, 1);
    assert_eq!((cpu.accumulator.get(), cpu.register_x.get()), (0x05, 0x05));
    steps(&mut cpu, 3);
    assert_eq!(cpu.register_x.get(), 0x20);
    steps(&mut cpu, 1);
    assert_eq!(cpu.accumulator.get(), 0x80);
    assert_eq!(cpu.status.get(), UNUSED | INTERRUPT | NEGATIVE | CARRY);
}

#[test]
fn undocumented_read_modify_write_instructions() {
    let mut cpu = machine(&[
        0xA9, 0x81, 0x85, 0x10, 0xA9, 0x01, 0x07, 0x10, 0x27, 0x10, 0x47, 0x10, 0x38, 0x67, 0x10,
        0xC7, 0x10, 0xE7, 0x10,
    ]);
    steps(&mut cpu, 4);
    assert_eq!(cpu.bus.peek(0x10), Some(0x02));
    assert_eq!(cpu.accumulator.get(), 0x03);
    assert_eq!(cpu.status.get(), UNUSED | INTERRUPT | CARRY);
    steps(&mut cpu, 1);
    assert_eq!(cpu.bus.peek(0x10), Some(0x05));
    assert_eq!(cpu.accumulator.get(), 0x01);
    assert_eq!(cpu.status.get(), UNUSED | INTERRUPT);
    steps(&mut cpu, 1);
    assert_eq!(cpu.bus.peek(0x10), Some(0x02));
    assert_eq!(cpu.accumulator.get(), 0x03);
    assert_eq!(cpu.status.get(), UNUSED | INTERRUPT | CARRY);
    steps(&mut cpu, 2);
    assert_eq!(cpu.bus.peek(0x10), Some(0x81));
    assert_eq!(cpu.accumulator.get(), 0x84);
    assert_eq!(cpu.status.get(), UNUSED | INTERRUPT | NEGATIVE);
    steps(&mut cpu, 1);
    assert_eq!(cpu.bus.peek(0x10), Some(0x80));
    assert_eq!(cpu.status.get(), UNUSED | INTERRUPT | CARRY);
    steps(&mut cpu, 1);
    assert_eq!(cpu.bus.peek(0x10), Some(0x81));
    assert_eq!(cpu.accumulator.get(), 0x03);
    assert_eq!(cpu.status.get(), UNUSED | INTERRUPT | CARRY);
}

#[test]
fn arr_and_asr_shift_the_masked_accumulator() {
    let mut cpu = machine(&[0xA9, 0xFF, 0x38, 0x6B, 0xC0, 0xA9, 0xFF, 0x18, 0x6B, 0x40, 0xA9, 0x03, 0x4B, 0x03]);
    steps(&mut cpu, 3);
    assert_eq!(cpu.accumulator.get(), 0xE0);
    assert_eq!(cpu.status.get(), UNUSED | INTERRUPT | NEGATIVE | CARRY);
    steps(&mut cpu, 3);
    assert_eq!(cpu.accumulator.get(), 0x20);
    assert_eq!(cpu.status.get(), UNUSED | INTERRUPT | OVERFLOW);
    steps(&mut cpu, 2);
    assert_eq!(cpu.accumulator.get(), 0x01);
    assert_eq!(cpu.status.get(), UNUSED | INTERRUPT | OVERFLOW | CARRY);
}

#[test]
fn unstable_stores_mask_with_the_high_byte_plus_one() {
    let mut cpu = machine(&[0xA2, 0xFF, 0xA0, 0x01, 0x9E, 0x00, 0x02, 0xA0, 0xFF, 0xA2, 0x02, 0x9C, 0x00, 0x05, 0xA9, 0x07, 0x9B, 0x00, 0x03]);
    steps(&mut cpu, 3);
    assert_eq!(cpu.bus.peek(0x0201), Some(0x03));
    steps(&mut cpu, 3);
    assert_eq!(cpu.bus.peek(0x0502), Some(0x06));
    steps(&mut cpu, 2);
    assert_eq!(cpu.stack.get_pointer(), 0x02);
    assert_eq!(cpu.bus.peek(0x03FF), Some(0x02 & 0x04));
}

#[test]
fn lar_loads_three_registers_from_memory_and_stack_pointer() {
    let mut cpu = machine(&[0xA9, 0x3C, 0x8D, 0x00, 0x03, 0xBB, 0x00, 0x03]);
    steps(&mut cpu, 3);
    assert_eq!(cpu.accumulator.get(), 0x3C & 0xFD);
    assert_eq!(cpu.register_x.get(), 0x3C);
    assert_eq!(cpu.stack.get_pointer(), 0x3C);
}

#[test]
fn instructions_can_be_executed_one_by_one() {
    let mut cpu = machine(&[0x48, 0x68]);
    let push = cpu.next_instruction().unwrap();
    assert_eq!(push, Instruction { opcode: OpCode::PHA, mode: AddressingMode::Implied, cycles: 3 });
    assert_eq!(cpu.program_counter.get(), 0x8001);
    cpu.accumulator.set(0x9C);
    assert_eq!(cpu.pha(&push), Ok(3));
    cpu.accumulator.set(0x00);
    cpu.status.set_carry_flag_to(true);
    let pull = cpu.next_instruction().unwrap();
    assert_eq!(cpu.pla(&pull), Ok(4));
    assert_eq!(cpu.accumulator.get(), 0x9C);
    assert_eq!(cpu.stack.get_pointer(), 0xFD);
    assert_eq!(cpu.status.get(), UNUSED | INTERRUPT | NEGATIVE | CARRY);
    assert_eq!(cpu.execute(&lookup(0xE8).unwrap()), Ok(2));
    assert_eq!(cpu.register_x.get(), 1);
    assert_eq!(cpu.bus.cycles(), 7);
}

#[test]
fn nmi_sequence_pushes_counter_and_status() {
    let mut cpu = machine(&[]);
    cpu.program_counter.set(0x1234);
    cpu.status.update(0xC3);
    cpu.nmi_interrupt();
    assert_eq!(cpu.program_counter.get(), 0x9000);
    assert_eq!(cpu.bus.peek(0x01FD), Some(0x12));
    assert_eq!(cpu.bus.peek(0x01FC), Some(0x34));
    assert_eq!(cpu.bus.peek(0x01FB), Some(0xE3));
    assert_eq!(cpu.stack.get_pointer(), 0xFA);
    assert_eq!(cpu.status.get(), 0xE7);
    assert_eq!(cpu.bus.cycles(), 14);
}

#[test]
fn registers_wrap() {
    let mut byte = Register::<u8>::new(0xFF);
    assert_eq!(byte.inc(), 0);
    byte.dec();
    assert_eq!(byte.get(), 0xFF);
    assert_eq!(byte.add(2), (1, true));
    assert_eq!(byte.add(0), (0xFF, false));
    assert_eq!(byte.sub(0), 0xFF);
    byte.set(1);
    assert_eq!(byte.sub(2), 0xFF);
    assert_eq!(byte.get(), 1);
    let mut word = Register::<u16>::new(0xFFFF);
    assert_eq!(word.inc(), 0);
    word.dec();
    assert_eq!(word.get(), 0xFFFF);
    assert_eq!(word.add(3), 2);
    assert_eq!(word.get(), 0xFFFF);
    assert_eq!(word.add_signed(2), 1);
    assert_eq!(word.add_signed(-3), 0xFFFE);
    assert_eq!(word.get(), 0xFFFE);
}

#[test]
fn program_counter_moves_by_signed_offsets() {
    let mut counter = ProgramCounter::new();
    assert_eq!(counter.get(), 0);
    counter.set(0x80FE);
    counter.inc();
    counter.add(1);
    assert_eq!(counter.get(), 0x8100);
    assert!(counter.move_with_offset(0xFF));
    assert_eq!(counter.get(), 0x80FF);
    assert!(!counter.move_with_offset(0x80));
    assert_eq!(counter.get(), 0x807F);
    assert!(!counter.move_with_offset(0x7F));
    assert_eq!(counter.get(), 0x80FE);
    assert!(counter.move_with_offset(0x02));
    assert_eq!(counter.get(), 0x8100);
}

#[test]
fn processor_status_reads_and_loads_its_flags() {
    let mut status = ProcessorStatus::new();
    assert_eq!(status.get(), 0x24);
    status.update(0xFF);
    assert_eq!(status.get(), 0xEF);
    status.update(0x00);
    assert_eq!(status.get(), 0x20);
    status.set_carry_flag_to(true);
    assert_eq!(status.get_carry_flag(), 1);
    assert!(status.is_carry_flag_set());
    status.set_zero_flag(0);
    assert!(status.is_zero_flag_set());
    status.set_negative_flag(0x80);
    assert!(status.is_negative_flag_set());
    status.set_overflow_flag_to(true);
    assert!(status.is_overflow_flag_set());
    status.set_decimal_mode_flag_to(true);
    status.set_interrupt_disable_flag_to(true);
    assert_eq!(status.get(), 0xEF);
    status.set_zero_flag(1);
    status.set_negative_flag(0x7F);
    assert_eq!(status.get(), 0x6D);
    status.reset();
    assert_eq!(status.get(), 0x24);
}

#[test]
fn stack_pushes_and_pulls_bytes_and_words() {
    let mut cpu = machine(&[]);
    let mut stack = Stack::new();
    assert_eq!(stack.get_pointer(), 0xFD);
    assert_eq!(stack.get_stack_address(), 0x01FD);
    stack.push(0xABu8, &mut cpu.bus);
    stack.push(0x1234u16, &mut cpu.bus);
    assert_eq!(stack.get_pointer(), 0xFA);
    assert_eq!(cpu.bus.peek(0x01FD), Some(0xAB));
    assert_eq!(cpu.bus.peek(0x01FC), Some(0x12));
    assert_eq!(cpu.bus.peek(0x01FB), Some(0x34));
    let word: u16 = stack.pull(&mut cpu.bus);
    assert_eq!(word, 0x1234);
    let byte: u8 = stack.pull(&mut cpu.bus);
    assert_eq!(byte, 0xAB);
    stack.set_pointer(0x10);
    assert_eq!(stack.get_stack_address(), 0x0110);
    stack.reset();
    assert_eq!(stack.get_pointer(), 0xFD);
}
