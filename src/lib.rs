//! A CHIP-8 virtual machine core: instruction decoding, the register and
//! memory state machine, timers, keypad latch and framebuffer.
pub mod chip8;
pub mod display;
pub mod instr;
pub mod laws;
pub mod machine;
pub mod memory;

pub use chip8::Chip8;
pub use display::{from_u8_rgb, render};
pub use instr::{Instr, decode};
pub use machine::{Chip8Error, WIDTH, HEIGHT};
pub use memory::LoadError;
