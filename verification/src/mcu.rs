use vstd::prelude::*;
use crate::addons::Addon;
use crate::cpu::Core;
use crate::error::Error;
use crate::state::State;

verus! {

/// A sequence with one more element is longer by one.
proof fn pushed_length<A>(s: Seq<A>, a: A)
    ensures
        s.push(a).len() == s.len() + 1,
{
}

/// A core with the observers attached to it.
pub struct Mcu {
    pub core: Core,
    addons: Vec<Box<dyn Addon>>,
}

impl Mcu {
    /// The state of the core.
    pub closed spec fn machine(self) -> State {
        self.core@
    }

    /// The observers attached, in the order of attachment.
    pub closed spec fn attached(self) -> Seq<Box<dyn Addon>> {
        self.addons@
    }

    /// The number of observers attached.
    pub open spec fn observers(self) -> nat {
        self.attached().len()
    }

    /// A machine around `core`, with no observer attached.
    pub fn new(core: Core) -> (mcu: Self)
        ensures
            mcu.machine() == core@,
            mcu.observers() == 0,
    {
        Mcu { core, addons: Vec::new() }
    }

    /// Attaches an observer, behind those attached before.
    pub fn attach(&mut self, addon: Box<dyn Addon>)
        ensures
            final(self).machine() == old(self).machine(),
            final(self).attached() == old(self).attached().push(addon),
            final(self).observers() == old(self).observers() + 1,
    {
        proof {
            pushed_length(self.addons@, addon);
        }
        self.addons.push(addon);
    }

    /// Advances the core by one instruction, then tells each observer in the
    /// order of attachment. A failed step is reported and no observer is
    /// told; what an observer returns is dropped.
    pub fn tick(&mut self) -> (r: Result<(), Error>)
        ensures
            final(self).observers() == old(self).observers(),
            match old(self).machine().step().1 {
                Err(e) => r == Err::<(), Error>(e)
                    && final(self).machine() == old(self).machine().step().0,
                Ok(_) => r == Ok::<(), Error>(()) && (old(self).observers() == 0
                    ==> final(self).machine() == old(self).machine().step().0),
            },
    {
        let (inst, pc) = self.core.tick()?;
        let n = self.addons.len();
        let mut i: usize = 0;
        while i < n
            invariant
                n == self.addons@.len(),
                n == old(self).observers(),
                n == 0 ==> self.core@ == old(self).machine().step().0,
            decreases n - i,
        {
            let _ = self.addons[i].tick(&mut self.core, inst, pc);
            i += 1;
        }
        Ok(())
    }
}

} // verus!
