use crate::bits::{bit_is_set, bit_weight, high, make_word, test_bit, wrap16, wrap8, word_of};
use crate::bus::{Bus, BusState};
use vstd::prelude::*;

verus! {

/// A register that holds one value of type `T`.
#[derive(Clone, Copy, Debug)]
pub struct Register<T: Copy> {
    value: T,
}

impl<T: Copy> View for Register<T> {
    type V = T;

    closed spec fn view(&self) -> T {
        self.value
    }
}

impl<T: Copy> Register<T> {
    pub fn new(value: T) -> (register: Self)
        ensures
            register@ == value,
    {
        Register { value }
    }

    pub fn set(&mut self, value: T)
        ensures
            final(self)@ == value,
    {
        self.value = value;
    }

    pub fn get(&self) -> (value: T)
        ensures
            value == self@,
    {
        self.value
    }
}

impl Register<u8> {
    /// Adds one, wrapping from 255 to 0, and returns the new value.
    pub fn inc(&mut self) -> (value: u8)
        ensures
            value == wrap8(old(self)@ + 1),
            final(self)@ == value,
    {
        self.value = self.value.wrapping_add(1);
        self.value
    }

    /// Subtracts one, wrapping from 0 to 255.
    pub fn dec(&mut self)
        ensures
            final(self)@ == wrap8(old(self)@ - 1),
    {
        self.value = self.value.wrapping_sub(1);
    }

    /// The sum of the register and `value` as a byte, and whether the sum
    /// did not fit into one. The register keeps its value.
    pub fn add(&mut self, value: u8) -> (sum: (u8, bool))
        ensures
            sum.0 == wrap8(old(self)@ + value),
            sum.1 == (old(self)@ + value > 255),
            final(self)@ == old(self)@,
    {
        let wide: u16 = self.value as u16 + value as u16;
        ((wide % 256) as u8, wide > 255)
    }

    /// The difference of the register and `value` as a byte. The register
    /// keeps its value.
    pub fn sub(&mut self, value: u8) -> (difference: u8)
        ensures
            difference == wrap8(old(self)@ - value),
            final(self)@ == old(self)@,
    {
        self.value.wrapping_sub(value)
    }
}

impl Register<u16> {
    /// Adds one, wrapping from 0xFFFF to 0, and returns the new value.
    pub fn inc(&mut self) -> (value: u16)
        ensures
            value == wrap16(old(self)@ + 1),
            final(self)@ == value,
    {
        self.value = self.value.wrapping_add(1);
        self.value
    }

    /// Subtracts one, wrapping from 0 to 0xFFFF.
    pub fn dec(&mut self)
        ensures
            final(self)@ == wrap16(old(self)@ - 1),
    {
        self.value = self.value.wrapping_sub(1);
    }

    /// The sum of the register and `value` as a word. The register keeps
    /// its value.
    pub fn add(&mut self, value: u16) -> (sum: u16)
        ensures
            sum == wrap16(old(self)@ + value),
            final(self)@ == old(self)@,
    {
        self.value.wrapping_add(value)
    }

    /// Adds a signed value, wrapping at both ends, and returns the new
    /// value.
    pub fn add_signed(&mut self, value: i16) -> (sum: u16)
        ensures
            sum == wrap16(old(self)@ + value),
            final(self)@ == sum,
    {
        self.value = self.value.wrapping_add_signed(value);
        self.value
    }
}

/// The offset that a branch operand stands for: the byte read as a signed
/// number from -128 to 127.
pub open spec fn branch_offset(operand: u8) -> int {
    if operand < 128 {
        operand as int
    } else {
        operand - 256
    }
}

/// The program counter.
#[derive(Clone, Copy, Debug)]
pub struct ProgramCounter {
    register: Register<u16>,
}

impl View for ProgramCounter {
    type V = u16;

    closed spec fn view(&self) -> u16 {
        self.register@
    }
}

impl ProgramCounter {
    pub fn new() -> (counter: ProgramCounter)
        ensures
            counter@ == 0,
    {
        ProgramCounter { register: Register::new(0) }
    }

    pub fn get(&self) -> (value: u16)
        ensures
            value == self@,
    {
        self.register.get()
    }

    pub fn set(&mut self, value: u16)
        ensures
            final(self)@ == value,
    {
        self.register.set(value);
    }

    pub fn inc(&mut self)
        ensures
            final(self)@ == wrap16(old(self)@ + 1),
    {
        self.register.inc();
    }

    pub fn add(&mut self, value: u16)
        ensures
            final(self)@ == wrap16(old(self)@ + value),
    {
        let value = self.register.add(value);
        self.register.set(value);
    }

    /// Moves the counter by the signed offset that `value` stands for and
    /// says whether that took it to another page.
    pub fn move_with_offset(&mut self, value: u8) -> (page_crossed: bool)
        ensures
            final(self)@ == wrap16(old(self)@ + branch_offset(value)),
            page_crossed == (old(self)@ / 256 != final(self)@ / 256),
    {
        let previous_val = self.register.get();
        let offset: i16 = if value < 128 {
            value as i16
        } else {
            value as i16 - 256
        };
        let current_value = self.register.add_signed(offset);
        high(previous_val) != high(current_value)
    }
}

/// The processor status P. Its bits, from 7 down to 0, are N V U B D I Z C.
/// The register holds the six flags; bit 5 (U) always reads 1 and bit 4 (B)
/// always reads 0 in the register itself.
#[derive(Clone, Copy, PartialEq, Eq, Structural, Debug)]
pub struct ProcessorStatus {
    pub carry: bool,
    pub zero: bool,
    pub interrupt_disable: bool,
    pub decimal: bool,
    pub overflow: bool,
    pub negative: bool,
}

impl ProcessorStatus {
    /// The status after power-on and reset: 0x24.
    pub open spec fn initial() -> ProcessorStatus {
        ProcessorStatus {
            carry: false,
            zero: false,
            interrupt_disable: true,
            decimal: false,
            overflow: false,
            negative: false,
        }
    }

    /// The register as a byte.
    pub open spec fn bits(self) -> u8 {
        (bit_weight(0, self.carry) + bit_weight(1, self.zero) + bit_weight(
            2,
            self.interrupt_disable,
        ) + bit_weight(3, self.decimal) + 32 + bit_weight(6, self.overflow) + bit_weight(
            7,
            self.negative,
        )) as u8
    }

    /// The register that a byte pulled from the stack restores: the six
    /// flags are taken from it and bits 4 and 5 are ignored.
    pub open spec fn from_bits(value: u8) -> ProcessorStatus {
        ProcessorStatus {
            carry: bit_is_set(value, 0),
            zero: bit_is_set(value, 1),
            interrupt_disable: bit_is_set(value, 2),
            decimal: bit_is_set(value, 3),
            overflow: bit_is_set(value, 6),
            negative: bit_is_set(value, 7),
        }
    }

    /// The register with Z and N set from `value`: Z where it is 0, N
    /// where its bit 7 is set.
    pub open spec fn with_zn(self, value: u8) -> ProcessorStatus {
        ProcessorStatus { zero: value == 0, negative: value >= 128, ..self }
    }

    pub fn new() -> (status: ProcessorStatus)
        ensures
            status == ProcessorStatus::initial(),
            status.bits() == 0x24,
    {
        ProcessorStatus {
            carry: false,
            zero: false,
            interrupt_disable: true,
            decimal: false,
            overflow: false,
            negative: false,
        }
    }

    /// Loads the register from a byte; bits 4 and 5 of it are ignored.
    pub fn update(&mut self, value: u8)
        ensures
            *final(self) == ProcessorStatus::from_bits(value),
    {
        self.carry = test_bit(value, 0);
        self.zero = test_bit(value, 1);
        self.interrupt_disable = test_bit(value, 2);
        self.decimal = test_bit(value, 3);
        self.overflow = test_bit(value, 6);
        self.negative = test_bit(value, 7);
    }

    pub fn reset(&mut self)
        ensures
            *final(self) == ProcessorStatus::initial(),
    {
        self.update(0x24);
    }

    pub fn get(&self) -> (value: u8)
        ensures
            value == self.bits(),
            bit_is_set(value, 5),
            !bit_is_set(value, 4),
    {
        let mut value: u8 = 32;
        if self.carry {
            value = value + 1;
        }
        if self.zero {
            value = value + 2;
        }
        if self.interrupt_disable {
            value = value + 4;
        }
        if self.decimal {
            value = value + 8;
        }
        if self.overflow {
            value = value + 64;
        }
        if self.negative {
            value = value + 128;
        }
        value
    }

    pub fn get_carry_flag(&self) -> (carry: u8)
        ensures
            carry == bit_weight(0, self.carry),
    {
        if self.carry {
            1
        } else {
            0
        }
    }

    pub fn is_carry_flag_set(&self) -> (set: bool)
        ensures
            set == self.carry,
    {
        self.carry
    }

    pub fn is_zero_flag_set(&self) -> (set: bool)
        ensures
            set == self.zero,
    {
        self.zero
    }

    pub fn is_overflow_flag_set(&self) -> (set: bool)
        ensures
            set == self.overflow,
    {
        self.overflow
    }

    pub fn is_negative_flag_set(&self) -> (set: bool)
        ensures
            set == self.negative,
    {
        self.negative
    }

    pub fn set_carry_flag_to(&mut self, activate: bool)
        ensures
            *final(self) == (ProcessorStatus { carry: activate, ..*old(self) }),
    {
        self.carry = activate;
    }

    pub fn set_interrupt_disable_flag_to(&mut self, activate: bool)
        ensures
            *final(self) == (ProcessorStatus { interrupt_disable: activate, ..*old(self) }),
    {
        self.interrupt_disable = activate;
    }

    pub fn set_decimal_mode_flag_to(&mut self, activate: bool)
        ensures
            *final(self) == (ProcessorStatus { decimal: activate, ..*old(self) }),
    {
        self.decimal = activate;
    }

    pub fn set_overflow_flag_to(&mut self, activate: bool)
        ensures
            *final(self) == (ProcessorStatus { overflow: activate, ..*old(self) }),
    {
        self.overflow = activate;
    }

    /// Sets N where bit 7 of `value` is set and clears it elsewhere.
    pub fn set_negative_flag(&mut self, value: u8)
        ensures
            *final(self) == (ProcessorStatus { negative: value >= 128, ..*old(self) }),
    {
        self.negative = value >= 128;
    }

    /// Sets Z where `value` is 0 and clears it elsewhere.
    pub fn set_zero_flag(&mut self, value: u8)
        ensures
            *final(self) == (ProcessorStatus { zero: value == 0, ..*old(self) }),
    {
        self.zero = value == 0;
    }
}

/// The bus with `value` stored in the stack page at stack pointer
/// `pointer`.
pub open spec fn stack_store(bus: BusState, pointer: u8, value: u8) -> BusState {
    BusState { ram: bus.ram.update(0x0100 + pointer, value), ..bus }
}

/// The byte in the stack page at stack pointer `pointer`.
pub open spec fn stack_load(bus: BusState, pointer: u8) -> u8 {
    bus.ram[0x0100 + pointer]
}

/// The stack pointer and the bus after a byte was pushed: the byte is
/// stored at the pointer, which then moves down and wraps from 0x00 to
/// 0xFF.
pub open spec fn push_byte(pointer: u8, bus: BusState, value: u8) -> (u8, BusState) {
    (wrap8(pointer - 1), stack_store(bus, pointer, value))
}

/// The stack pointer and the bus after a word was pushed, high byte first.
pub open spec fn push_word(pointer: u8, bus: BusState, value: u16) -> (u8, BusState) {
    let high = push_byte(pointer, bus, (value / 256) as u8);
    push_byte(high.0, high.1, (value % 256) as u8)
}

/// The stack pointer after a byte was pulled, and the byte: the pointer
/// moves up, wrapping from 0xFF to 0x00, and the byte is read there.
pub open spec fn pull_byte(pointer: u8, bus: BusState) -> (u8, u8) {
    (wrap8(pointer + 1), stack_load(bus, wrap8(pointer + 1)))
}

/// The stack pointer after a word was pulled, low byte first, and the
/// word.
pub open spec fn pull_word(pointer: u8, bus: BusState) -> (u8, u16) {
    let low = pull_byte(pointer, bus);
    let high = pull_byte(low.0, bus);
    (high.0, word_of(low.1, high.1))
}

/// The stack pointer S. The stack lies in page one, from 0x0100 to 0x01FF,
/// and grows downwards.
#[derive(Clone, Copy, Debug)]
pub struct Stack {
    stack_pointer: Register<u8>,
}

impl View for Stack {
    type V = u8;

    closed spec fn view(&self) -> u8 {
        self.stack_pointer@
    }
}

impl Stack {
    pub fn new() -> (stack: Stack)
        ensures
            stack@ == 0xFD,
    {
        Stack { stack_pointer: Register::new(0xFD) }
    }

    pub fn get_pointer(&self) -> (pointer: u8)
        ensures
            pointer == self@,
    {
        self.stack_pointer.get()
    }

    pub fn reset(&mut self)
        ensures
            final(self)@ == 0xFD,
    {
        self.stack_pointer.set(0xFD);
    }

    pub fn set_pointer(&mut self, value: u8)
        ensures
            final(self)@ == value,
    {
        self.stack_pointer.set(value);
    }

    /// The address that the stack pointer stands for.
    pub fn get_stack_address(&self) -> (address: u16)
        ensures
            address == 0x0100 + self@,
    {
        let pointer: u16 = self.stack_pointer.get() as u16;
        0x0100 + pointer
    }
}

/// Pushes and pulls of values of type `T`.
pub trait StackOperation<T> {
    /// The stack pointer and the bus after `value` was pushed.
    spec fn pushed(pointer: u8, bus: BusState, value: T) -> (u8, BusState);

    /// The stack pointer after a value was pulled, and the value.
    spec fn pulled(pointer: u8, bus: BusState) -> (u8, T);

    /// The stack pointer of `stack`.
    spec fn pointer(stack: &Self) -> u8;

    fn push(&mut self, value: T, bus: &mut Bus)
        requires
            old(bus)@.wf(),
        ensures
            (Self::pointer(final(self)), final(bus)@) == Self::pushed(
                Self::pointer(old(self)),
                old(bus)@,
                value,
            ),
            final(bus)@.wf(),
    ;

    fn pull(&mut self, bus: &mut Bus) -> (value: T)
        requires
            old(bus)@.wf(),
        ensures
            (Self::pointer(final(self)), value) == Self::pulled(Self::pointer(old(self)), old(bus)@),
            final(bus)@ == old(bus)@,
    ;
}

impl StackOperation<u8> for Stack {
    open spec fn pushed(pointer: u8, bus: BusState, value: u8) -> (u8, BusState) {
        push_byte(pointer, bus, value)
    }

    open spec fn pulled(pointer: u8, bus: BusState) -> (u8, u8) {
        pull_byte(pointer, bus)
    }

    open spec fn pointer(stack: &Self) -> u8 {
        stack@
    }

    fn push(&mut self, value: u8, bus: &mut Bus) {
        bus.write_stack(self.stack_pointer.get(), value);
        self.stack_pointer.dec();
    }

    fn pull(&mut self, bus: &mut Bus) -> u8 {
        let pointer = self.stack_pointer.inc();
        bus.read_stack(pointer)
    }
}

impl StackOperation<u16> for Stack {
    open spec fn pushed(pointer: u8, bus: BusState, value: u16) -> (u8, BusState) {
        push_word(pointer, bus, value)
    }

    open spec fn pulled(pointer: u8, bus: BusState) -> (u8, u16) {
        pull_word(pointer, bus)
    }

    open spec fn pointer(stack: &Self) -> u8 {
        stack@
    }

    fn push(&mut self, value: u16, bus: &mut Bus) {
        StackOperation::<u8>::push(self, high(value), bus);
        StackOperation::<u8>::push(self, (value % 256) as u8, bus);
    }

    fn pull(&mut self, bus: &mut Bus) -> u16 {
        let lo_byte = StackOperation::<u8>::pull(self, bus);
        let hi_byte = StackOperation::<u8>::pull(self, bus);
        make_word(lo_byte, hi_byte)
    }
}

} // verus!
