pub mod frame;
pub mod palette;
pub mod render;
