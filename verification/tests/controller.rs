use nes::controller::{Controller, JoypadRegister};

#[test]
fn controller_reports_buttons_one_bit_per_read() {
    let mut controller = Controller::new();
    controller.set_button_status(JoypadRegister::from_bits_truncate(JoypadRegister::BUTTON_A), true);
    controller.set_button_status(JoypadRegister::from_bits_truncate(JoypadRegister::START), true);
    controller.write(1);
    controller.write(0);
    let reads: Vec<u8> = (0..8).map(|_| controller.read()).collect();
    assert_eq!(reads, vec![1, 0, 0, 1, 0, 0, 0, 0]);
    assert_eq!(controller.read(), 1);
    assert_eq!(controller.read(), 1);
}

#[test]
fn controller_with_strobe_set_keeps_reporting_the_first_button() {
    let mut controller = Controller::new();
    controller.set_button_status(JoypadRegister::from_bits_truncate(JoypadRegister::BUTTON_A), true);
    controller.write(1);
    assert_eq!(controller.read(), 1);
    assert_eq!(controller.read(), 1);
    controller.set_button_status(JoypadRegister::from_bits_truncate(JoypadRegister::BUTTON_A), false);
    assert_eq!(controller.read(), 0);
}

#[test]
fn controller_write_of_one_rewinds() {
    let mut controller = Controller::new();
    controller.set_button_status(JoypadRegister::from_bits_truncate(JoypadRegister::BUTTON_B), true);
    controller.write(0);
    assert_eq!(controller.read(), 0);
    assert_eq!(controller.read(), 1);
    controller.write(1);
    controller.write(0);
    assert_eq!(controller.read(), 0);
    assert_eq!(controller.read(), 1);
}

#[test]
fn joypad_register_sets_and_clears_buttons() {
    let mut register = JoypadRegister::new();
    assert_eq!(register.bits(), 0);
    register.set(JoypadRegister::from_bits_truncate(JoypadRegister::RIGHT | JoypadRegister::UP), true);
    assert_eq!(register.bits(), 0b1001_0000);
    register.set(JoypadRegister::from_bits_truncate(JoypadRegister::UP), false);
    assert_eq!(register.bits(), 0b1000_0000);
    assert_eq!(register.get_button_state(7), 1);
    assert_eq!(register.get_button_state(4), 0);
    assert_eq!(register.get_button_state(8), 1);
    assert_eq!(register.get_button_state(200), 1);
}
