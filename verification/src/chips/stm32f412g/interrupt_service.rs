//! The peripherals of the chip and the interrupts they serve.

use vstd::prelude::*;
use crate::chips::stm32f4xx::trng::{Interrupt, Trng};
use crate::kernel::platform::{ClockInterface, InterruptService};

verus! {

/// The number of the interrupt of the random number generator.
pub const RNG: u32 = 80;

/// The peripherals that all chips of the family have.
pub trait FamilyPeripherals: InterruptService {
    /// What connecting the peripherals that refer to one another has
    /// made of the peripherals that were `before`.
    spec fn connected(&self, before: &Self) -> bool;

    /// Connects the peripherals that refer to one another.
    fn setup_circular_deps(&mut self)
        ensures
            final(self).connected(old(self)),
    ;
}

/// The peripherals of the chip: those of the family and the random number
/// generator.
pub struct Stm32f412gDefaultPeripherals<S: FamilyPeripherals, C: ClockInterface> {
    pub stm32f4: S,
    pub trng: Trng<C>,
}

impl<S: FamilyPeripherals, C: ClockInterface> Stm32f412gDefaultPeripherals<S, C> {
    /// Puts the peripherals of the family and the generator together.
    pub fn new(stm32f4: S, trng: Trng<C>) -> (r: Stm32f412gDefaultPeripherals<S, C>)
        ensures
            r.stm32f4 == stm32f4,
            r.trng == trng,
    {
        Stm32f412gDefaultPeripherals { stm32f4, trng }
    }

    /// Connects the peripherals of the family that refer to one another.
    pub fn init(&mut self)
        ensures
            final(self).trng == old(self).trng,
            final(self).stm32f4.connected(&old(self).stm32f4),
    {
        self.stm32f4.setup_circular_deps();
    }

    /// Serves the interrupt `interrupt`. That of the generator is served
    /// by the generator, whose answer is the second part of the result;
    /// every other goes to the peripherals of the family, and the first
    /// part of the result tells whether it was one of theirs.
    pub fn serve(&mut self, interrupt: u32) -> (r: (bool, Option<Interrupt>))
        ensures
            interrupt == RNG ==> {
                &&& r.0
                &&& r.1 is Some
                &&& final(self).trng.interrupted(&old(self).trng, r.1->Some_0)
                &&& final(self).stm32f4 == old(self).stm32f4
            },
            interrupt != RNG ==> r.1 is None && final(self).trng == old(self).trng
                && final(self).stm32f4.served(&old(self).stm32f4, interrupt, r.0),
    {
        if interrupt == RNG {
            let what = self.trng.handle_interrupt();
            (true, Some(what))
        } else {
            (self.stm32f4.service_interrupt(interrupt), None)
        }
    }
}

impl<S: FamilyPeripherals, C: ClockInterface> InterruptService for Stm32f412gDefaultPeripherals<
    S,
    C,
> {
    /// The interrupt of the generator is served by the generator (see
    /// `Trng::interrupted`), every other by the peripherals of the family.
    open spec fn served(&self, before: &Self, interrupt: u32, r: bool) -> bool {
        if interrupt == RNG {
            &&& r
            &&& self.stm32f4 == before.stm32f4
            &&& exists|what: Interrupt| #[trigger] self.trng.interrupted(&before.trng, what)
        } else {
            self.trng == before.trng && self.stm32f4.served(&before.stm32f4, interrupt, r)
        }
    }

    /// Serves the interrupt `interrupt` and tells whether it was one of
    /// this chip's: see `serve`.
    fn service_interrupt(&mut self, interrupt: u32) -> (r: bool) {
        let served = self.serve(interrupt);
        assert(interrupt == RNG ==> self.trng.interrupted(&old(self).trng, served.1->Some_0));
        served.0
    }
}

} // verus!
