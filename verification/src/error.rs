use vstd::prelude::*;

verus! {

/// A fault of the simulated machine.
#[derive(Clone, Copy, Debug, PartialEq, Eq, Structural)]
pub enum Error {
    /// No instruction has this encoding; carries the raw bits.
    UnknownInstruction(u32),
    /// The stack pointer left the range in which the operation is defined.
    StackOverflow,
    /// A memory access outside the space; carries the offending address.
    SegmentationFault { address: usize },
    /// The register file has no register with this index.
    RegisterDoesNotExist(u8),
    /// A register-pair operation named an odd index.
    RegisterPairOdd(u8),
}

} // verus!
