use vstd::prelude::*;
use crate::regs::RegisterFile;

verus! {

/// The configuration of one chip model: what the core is built from.
pub trait Chip {
    /// The initial register file.
    fn register_file() -> RegisterFile;

    /// The size of program space in bytes.
    fn flash_size() -> usize;

    /// The size of data space in bytes.
    fn memory_size() -> usize;
}

} // verus!
