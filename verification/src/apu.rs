use crate::nes::Powerable;
use vstd::prelude::*;

verus! {

/// The audio unit. It has no state of its own yet.
pub struct APU {}

impl Default for APU {
    fn default() -> (apu: Self) {
        APU {  }
    }
}

impl Powerable for APU {
    open spec fn powered(&self) -> bool {
        true
    }

    fn power_on(&mut self)
        ensures
            *final(self) == *old(self),
    {
    }

    fn reset(&mut self)
        ensures
            *final(self) == *old(self),
    {
    }
}

} // verus!
