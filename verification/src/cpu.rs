pub mod cpu;
pub mod opcode;
pub mod register;
pub mod state;
pub mod trace;
