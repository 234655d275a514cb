//! The true random number generator.
//!
//! The generator raises an interrupt when a word is ready or when it found
//! a fault with its seed or its clock. The registers are held as the
//! values last read from the hardware and to be written to it.

use vstd::prelude::*;
use crate::kernel::errorcode::ErrorCode;
use crate::kernel::hil::entropy::{Continue, Entropy32};
use crate::kernel::platform::ClockInterface;
use crate::kernel::registers::Field;

verus! {

/// The registers of the generator.
#[derive(Clone, Copy, Debug, PartialEq, Eq, Structural)]
pub struct RngRegisters {
    /// The control register.
    pub cr: u32,
    /// The status register.
    pub sr: u32,
    /// The data register.
    pub data: u32,
}

/// Control: interrupts enabled.
pub open spec fn control_ie() -> Field {
    Field { offset: 3, numbits: 1 }
}

/// Control: generator enabled.
pub open spec fn control_rngen() -> Field {
    Field { offset: 2, numbits: 1 }
}

/// Status: a fault of the seed was seen.
pub open spec fn status_seis() -> Field {
    Field { offset: 6, numbits: 1 }
}

/// Status: a fault of the clock was seen.
pub open spec fn status_ceis() -> Field {
    Field { offset: 5, numbits: 1 }
}

/// Status: a word is ready.
pub open spec fn status_drdy() -> Field {
    Field { offset: 0, numbits: 1 }
}

/// What the generator does on an interrupt.
#[derive(Clone, Copy, Debug, PartialEq, Eq, Structural)]
pub enum Interrupt {
    /// A fault of the seed was cleared and the generator restarted.
    SeedError,
    /// A fault of the clock was cleared.
    ClockError,
    /// Entropy is ready for the receiver.
    Entropy,
    /// Nothing: no receiver is registered.
    Ignored,
}

/// The generator.
pub struct Trng<C: ClockInterface> {
    pub registers: RngRegisters,
    pub clock: C,
    /// Whether a receiver of the entropy is registered.
    pub client: bool,
}

impl<C: ClockInterface> Trng<C> {
    /// Creates the generator with the registers `registers`.
    pub fn new(registers: RngRegisters, clock: C) -> (r: Trng<C>)
        ensures
            r.registers == registers,
            r.clock == clock,
            !r.client,
    {
        Trng { registers, clock, client: false }
    }

    /// Registers the receiver of the entropy.
    pub fn set_client(&mut self)
        ensures
            final(self).client,
            final(self).registers == old(self).registers,
            final(self).clock == old(self).clock,
    {
        self.client = true;
    }

    /// Whether the clock of the generator runs, as the clock reports it.
    pub fn is_enabled_clock(&self) -> (r: bool)
        ensures
            r == self.clock.enabled(),
    {
        self.clock.is_enabled()
    }

    /// Switches the clock of the generator on.
    pub fn enable_clock(&mut self)
        ensures
            final(self).clock.switched(&old(self).clock, true),
            final(self).registers == old(self).registers,
            final(self).client == old(self).client,
    {
        self.clock.enable();
    }

    /// Switches the clock of the generator off.
    pub fn disable_clock(&mut self)
        ensures
            final(self).clock.switched(&old(self).clock, false),
            final(self).registers == old(self).registers,
            final(self).client == old(self).client,
    {
        self.clock.disable();
    }

    /// The generator after it served its interrupt on `before` and
    /// reported `r`: see `handle_interrupt`.
    pub open spec fn interrupted(&self, before: &Trng<C>, r: Interrupt) -> bool {
        &&& self.client == before.client
        &&& self.clock == before.clock
        &&& self.registers.data == before.registers.data
        &&& status_seis().any(before.registers.sr) ==> {
            &&& r == Interrupt::SeedError
            &&& self.registers.sr == status_drdy().put(
                status_seis().put(before.registers.sr, 0),
                0,
            )
            &&& self.registers.cr == control_rngen().put(
                control_rngen().put(before.registers.cr, 0),
                0xFFFF_FFFF,
            )
        }
        &&& !status_seis().any(before.registers.sr) && status_ceis().any(before.registers.sr)
            ==> {
            &&& r == Interrupt::ClockError
            &&& self.registers.sr == status_ceis().put(before.registers.sr, 0)
            &&& self.registers.cr == before.registers.cr
        }
        &&& !status_seis().any(before.registers.sr) && !status_ceis().any(before.registers.sr)
            ==> {
            &&& r == (if before.client {
                Interrupt::Entropy
            } else {
                Interrupt::Ignored
            })
            &&& self.registers == before.registers
        }
    }

    /// The generator raised its interrupt.
    ///
    /// A fault of the seed comes first: its flag is cleared, the word in
    /// the data register is discarded, and the generator is switched off and
    /// on again. Else a fault of the clock has its flag cleared. Else, if a
    /// receiver is registered, entropy is ready for it: it takes the words
    /// with `next`, and its answer goes to `entropy_delivered`.
    pub fn handle_interrupt(&mut self) -> (r: Interrupt)
        ensures
            final(self).interrupted(old(self), r),
    {
        let seis = Field::bit(6);
        let ceis = Field::bit(5);
        let rngen = Field::bit(2);
        let drdy = Field::bit(0);
        if seis.is_set(self.registers.sr) {
            self.registers.sr = seis.clear(self.registers.sr);
            self.registers.sr = drdy.clear(self.registers.sr);
            self.registers.cr = rngen.clear(self.registers.cr);
            self.registers.cr = rngen.set(self.registers.cr);
            return Interrupt::SeedError;
        } else if ceis.is_set(self.registers.sr) {
            self.registers.sr = ceis.clear(self.registers.sr);
            return Interrupt::ClockError;
        }
        if self.client {
            Interrupt::Entropy
        } else {
            Interrupt::Ignored
        }
    }

    /// The receiver has answered: once it has enough, the generator and
    /// its interrupt are switched off.
    pub fn entropy_delivered(&mut self, res: Continue)
        ensures
            final(self).client == old(self).client,
            final(self).clock == old(self).clock,
            final(self).registers.sr == old(self).registers.sr,
            final(self).registers.data == old(self).registers.data,
            final(self).registers.cr == (if res == Continue::Done {
                control_rngen().put(control_ie().put(old(self).registers.cr, 0), 0)
            } else {
                old(self).registers.cr
            }),
    {
        match res {
            Continue::Done => {
                self.registers.cr = Field::bit(3).clear(self.registers.cr);
                self.registers.cr = Field::bit(2).clear(self.registers.cr);
            },
            Continue::More => {},
        }
    }

    /// Takes the word from the data register, if one is ready; reading it
    /// makes the register empty.
    pub fn next(&mut self) -> (r: Option<u32>)
        ensures
            final(self).client == old(self).client,
            final(self).clock == old(self).clock,
            final(self).registers.cr == old(self).registers.cr,
            final(self).registers.data == old(self).registers.data,
            status_drdy().any(old(self).registers.sr) ==> r == Some(old(self).registers.data)
                && final(self).registers.sr == status_drdy().put(old(self).registers.sr, 0),
            !status_drdy().any(old(self).registers.sr) ==> r is None && final(self).registers.sr
                == old(self).registers.sr,
    {
        let drdy = Field::bit(0);
        if drdy.is_set(self.registers.sr) {
            self.registers.sr = drdy.clear(self.registers.sr);
            Some(self.registers.data)
        } else {
            None
        }
    }
}

impl<C: ClockInterface> Entropy32 for Trng<C> {
    /// A request is always accepted. To start, the generator and its
    /// interrupt are switched on; to stop, they are switched off. Nothing
    /// else changes.
    open spec fn asked(&self, before: &Self, start: bool, r: Result<(), ErrorCode>) -> bool {
        &&& r is Ok
        &&& self.client == before.client
        &&& self.clock == before.clock
        &&& self.registers.sr == before.registers.sr
        &&& self.registers.data == before.registers.data
        &&& self.registers.cr == (if start {
            control_rngen().put(control_ie().put(before.registers.cr, 0xFFFF_FFFF), 0xFFFF_FFFF)
        } else {
            control_ie().put(control_rngen().put(before.registers.cr, 0), 0)
        })
    }

    /// Switches the generator and its interrupt on.
    fn get(&mut self) -> (r: Result<(), ErrorCode>)
        ensures
            r is Ok,
            final(self).client == old(self).client,
            final(self).clock == old(self).clock,
            final(self).registers.sr == old(self).registers.sr,
            final(self).registers.data == old(self).registers.data,
            final(self).registers.cr == control_rngen().put(
                control_ie().put(old(self).registers.cr, 0xFFFF_FFFF),
                0xFFFF_FFFF,
            ),
    {
        self.registers.cr = Field::bit(3).set(self.registers.cr);
        self.registers.cr = Field::bit(2).set(self.registers.cr);
        Ok(())
    }

    /// Switches the generator and its interrupt off.
    fn cancel(&mut self) -> (r: Result<(), ErrorCode>)
        ensures
            r is Ok,
            final(self).client == old(self).client,
            final(self).clock == old(self).clock,
            final(self).registers.sr == old(self).registers.sr,
            final(self).registers.data == old(self).registers.data,
            final(self).registers.cr == control_ie().put(
                control_rngen().put(old(self).registers.cr, 0),
                0,
            ),
    {
        self.registers.cr = Field::bit(2).clear(self.registers.cr);
        self.registers.cr = Field::bit(3).clear(self.registers.cr);
        Ok(())
    }
}

} // verus!
