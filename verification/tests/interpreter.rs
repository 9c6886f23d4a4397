use nes::interpreter::{InterpreterError, CPU};

#[test]
fn test_lda_loads_value_to_register_a_and_change_status() {
    let mut cpu = CPU::new();

    cpu.interpret(vec![0xa9, 0x0f, 0x00]).unwrap();
    assert_eq!(cpu.register_a, 0x0f);
    assert_eq!(cpu.status, 0);

    cpu.interpret(vec![0xa9, 0, 0x00]).unwrap();
    assert_eq!(cpu.register_a, 0);
    assert_eq!(cpu.status, 0x02);

    cpu.interpret(vec![0xa9, 0xff, 0x00]).unwrap();
    assert_eq!(cpu.register_a, 0xff);
    assert_eq!(cpu.status, 0x80);
}

#[test]
fn test_tax_transfer_from_register_a_to_x_and_change_status() {
    let mut cpu = CPU::new();

    cpu.interpret(vec![0xa9, 0x0f, 0xaa, 0x00]).unwrap();
    assert_eq!(cpu.register_x, 0x0f);
    assert_eq!(cpu.register_a, 0x0f);
    assert_eq!(cpu.status, 0);

    cpu.interpret(vec![0xa9, 0, 0xaa, 0x00]).unwrap();
    assert_eq!(cpu.register_x, 0);
    assert_eq!(cpu.register_a, 0);
    assert_eq!(cpu.status, 0x02);

    cpu.interpret(vec![0xa9, 0xff, 0xaa, 0x00]).unwrap();
    assert_eq!(cpu.register_x, 0xff);
    assert_eq!(cpu.register_a, 0xff);
    assert_eq!(cpu.status, 0x80);
}

#[test]
fn test_inx_increments_register_x() {
    let mut cpu = CPU::new();

    cpu.interpret(vec![0xe8, 0x00]).unwrap();
    assert_eq!(cpu.register_x, 0x01);
    assert_eq!(cpu.status, 0);
}

#[test]
fn test_inx_overflow() {
    let mut cpu = CPU::new();

    cpu.register_x = 0xff;
    cpu.interpret(vec![0xe8, 0xe8, 0x00]).unwrap();
    assert_eq!(cpu.register_x, 1)
}

#[test]
fn test_5_ops_working_together() {
    let mut cpu = CPU::new();

    cpu.interpret(vec![0xa9, 0xc0, 0xaa, 0xe8, 0x00]).unwrap();
    assert_eq!(cpu.register_x, 0xc1)
}

#[test]
fn interpreter_reports_the_position_behind_the_program() {
    let mut cpu = CPU::new();
    assert_eq!(cpu.interpret(vec![0xe8]), Err(InterpreterError::InvalidPC(1)));
    assert_eq!(cpu.interpret(vec![0xa9]), Err(InterpreterError::InvalidPC(1)));
    assert_eq!(cpu.interpret(vec![]), Err(InterpreterError::InvalidPC(0)));
}

#[test]
fn interpreter_stops_where_the_counter_cannot_be_moved() {
    let mut cpu = CPU::new();
    let program = vec![0xE8u8; 0x10000];
    assert_eq!(cpu.interpret(program), Err(InterpreterError::InvalidPC(0x10000)));
    assert_eq!(cpu.program_counter, 0xFFFF);
    assert_eq!(cpu.register_x, 0xFF);
    let mut program = vec![0xE8u8; 0x20000];
    program[0xFFFE] = 0x00;
    assert_eq!(cpu.interpret(program), Ok(()));
    assert_eq!(cpu.program_counter, 0xFFFF);
    let mut program = vec![0xE8u8; 0xFFFF];
    program[0xFFFE] = 0xA9;
    assert_eq!(cpu.interpret(program), Err(InterpreterError::InvalidPC(0xFFFF)));
}

#[test]
fn interpreter_refuses_other_opcodes() {
    let mut cpu = CPU::new();
    assert_eq!(cpu.interpret(vec![0xe8, 0x4c, 0x00]), Err(InterpreterError::UnsupportedOpCode(0x4c)));
    assert_eq!(cpu.register_x, 1);
    assert_eq!(cpu.program_counter, 2);
}
