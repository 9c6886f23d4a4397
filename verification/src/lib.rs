pub mod bits;
pub mod bus;
pub mod controller;
pub mod cpu;
pub mod error;
pub mod interpreter;
pub mod laws;
pub mod ppu;
pub mod rendering;
pub mod rom;
pub mod screen;
pub mod text;
