//! A CHIP-8 virtual machine core.
//!
//! The crate holds the interpreter's state and rules: memory, registers,
//! timers, keypad, display and the fetch-decode-execute cycle. A host
//! program owns the window, the audio stream and the clock threads, and
//! drives the machine one cycle at a time: it hands the keys that are down
//! and a pending timer tick to [`Chip8::cycle`] and carries out what the
//! returned [`Outcome`] asks for.

pub mod alu;
pub mod clock;
pub mod display;
pub mod instruction;
pub mod interpreter;
pub mod keypad;
pub mod machine;
pub mod memory;
mod random;
pub mod registers;
pub mod timers;

pub use alu::{AluOp, AluResult};
pub use display::Display;
pub use instruction::{decode, Instruction};
pub use keypad::{host_key, HostKey, Keypad};
pub use machine::{BuzzerAction, Chip8, Fault, Mode, Outcome, ScreenAction};
pub use memory::Memory;
pub use registers::Registers;
pub use timers::Timers;
