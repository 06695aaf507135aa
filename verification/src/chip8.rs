//! The CHIP-8 interpreter: the machine, its instructions and its clock.

pub mod chip8;
pub mod input;
pub mod keys;
pub mod laws;
pub mod stack;
pub mod state;

pub use chip8::Chip8;
pub use chip8::Chip8Config;
pub use input::InputEvent;
pub use keys::Keys;
pub use stack::Stack;
pub use state::Fault;
