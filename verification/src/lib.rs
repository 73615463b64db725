//! An instruction-level simulator core for an 8-bit AVR-style microcontroller:
//! a bit-pattern decoder and an execution engine over registers, status flags,
//! program counter, stack and byte-addressable memory.
//!
//! `inst::binary` decodes machine code, `cpu::Core` executes one instruction
//! per tick, and `state::State` is the mathematical model of the machine over
//! which every contract is stated. `laws` and `inst::patterns` hold what is
//! proved of the decoder and of the engine as a whole.

pub use self::addons::Addon;
pub use self::chips::Chip;
pub use self::cpu::Core;
pub use self::error::Error;
pub use self::inst::Instruction;
pub use self::mcu::Mcu;
pub use self::mem::Space;
pub use self::regs::{Register, RegisterFile};
pub use self::sreg::SReg;

pub mod addons;
pub mod chips;
pub mod cpu;
pub mod error;
pub mod inst;
pub mod laws;
pub mod math;
pub mod mcu;
pub mod mem;
pub mod regs;
pub mod sreg;
pub mod state;
