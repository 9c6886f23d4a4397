pub mod palette;
pub mod ppu;
pub mod register;
pub mod state;
