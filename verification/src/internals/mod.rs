//! The machine itself: memory, display, keyboard, processor and instruction set.

pub mod arithmetic;
pub mod bits;
pub mod display;
pub mod draw;
pub mod fault;
pub mod flow;
pub mod keyboard;
pub mod machine;
pub mod memory;
pub mod opcode;
pub mod processor;
pub mod text;
pub mod transfer;
