use vstd::prelude::*;
use crate::cpu::Core;
use crate::error::Error;
use crate::inst::Instruction;

verus! {

/// An observer of the machine: it is told each executed instruction and the
/// address it was fetched from, and may read and change the core.
pub trait Addon {
    fn tick(&mut self, core: &mut Core, inst: Instruction, pc: u32) -> Result<(), Error>;
}

} // verus!
