//! The two-wire bus controller, as a master.
//!
//! A transfer is driven by the controller's events: the start condition
//! was sent, the address was acknowledged, the data register is empty or
//! full, the last byte is out. Each event is served by its own step, and
//! `handle_event` takes the steps that the status register asks for. The
//! registers are held as the values last read from the hardware and to be
//! written to it; reading the data register empties it.

use vstd::prelude::*;
use crate::kernel::cells::TakeCell;
use crate::kernel::hil::i2c::{Error, I2CMaster};
use crate::kernel::platform::ClockInterface;
use crate::kernel::registers::Field;
use crate::kernel::math::{least, smaller};

verus! {

/// The rates of the bus.
#[derive(Clone, Copy, Debug, PartialEq, Eq, Structural)]
pub enum I2CSpeed {
    Speed100k,
    Speed400k,
}

/// The registers of the controller.
#[derive(Clone, Copy, Debug, PartialEq, Eq, Structural)]
pub struct I2CRegisters {
    pub cr1: u32,
    pub cr2: u32,
    pub oar1: u32,
    pub oar2: u32,
    pub dr: u32,
    pub sr1: u32,
    pub sr2: u32,
    pub ccr: u32,
    pub trise: u32,
    pub fltr: u32,
}

/// Control 1: acknowledge received bytes.
pub open spec fn cr1_ack() -> Field {
    Field { offset: 10, numbits: 1 }
}

/// Control 1: send a stop condition.
pub open spec fn cr1_stop() -> Field {
    Field { offset: 9, numbits: 1 }
}

/// Control 1: send a start condition.
pub open spec fn cr1_start() -> Field {
    Field { offset: 8, numbits: 1 }
}

/// Control 1: the controller is enabled.
pub open spec fn cr1_pe() -> Field {
    Field { offset: 0, numbits: 1 }
}

/// Control 2: the three interrupt enables, for buffer, event and error.
pub open spec fn cr2_interrupts() -> Field {
    Field { offset: 8, numbits: 3 }
}

/// Control 2: the frequency of the peripheral clock in megahertz.
pub open spec fn cr2_freq() -> Field {
    Field { offset: 0, numbits: 6 }
}

/// Status 1: the data register is empty, for sending.
pub open spec fn sr1_txe() -> Field {
    Field { offset: 7, numbits: 1 }
}

/// Status 1: the data register is full, for receiving.
pub open spec fn sr1_rxne() -> Field {
    Field { offset: 6, numbits: 1 }
}

/// Status 1: the last byte is out.
pub open spec fn sr1_btf() -> Field {
    Field { offset: 2, numbits: 1 }
}

/// Status 1: the address was acknowledged.
pub open spec fn sr1_addr() -> Field {
    Field { offset: 1, numbits: 1 }
}

/// Status 1: the start condition was sent.
pub open spec fn sr1_sb() -> Field {
    Field { offset: 0, numbits: 1 }
}

/// Clock control: fast mode.
pub open spec fn ccr_fs() -> Field {
    Field { offset: 15, numbits: 1 }
}

/// Clock control: the divider.
pub open spec fn ccr_ccr() -> Field {
    Field { offset: 0, numbits: 12 }
}

/// Rise time.
pub open spec fn trise_trise() -> Field {
    Field { offset: 0, numbits: 6 }
}

/// What the controller is doing.
#[derive(Clone, Copy, Debug, PartialEq, Eq, Structural)]
pub enum I2CStatus {
    Idle,
    Writing,
    WritingReading,
    Reading,
}

/// What the client is told when a transfer ends: the buffer comes back
/// with the outcome.
pub struct Completion {
    pub buffer: Vec<u8>,
    pub status: Result<(), Error>,
}

/// The byte that addresses the peer `address` for reading or writing.
pub open spec fn address_byte(address: u8, read: bool) -> u32 {
    ((((address << 1) as u32) | (if read {
        1u32
    } else {
        0u32
    })) & 0xFF) as u32
}

/// The controller.
pub struct I2C<C: ClockInterface> {
    pub registers: I2CRegisters,
    pub clock: C,
    /// Whether a client is registered to be told of completions.
    pub master_client: bool,
    pub buffer: TakeCell<Vec<u8>>,
    pub tx_position: usize,
    pub rx_position: usize,
    pub tx_len: usize,
    pub rx_len: usize,
    pub slave_address: u8,
    pub status: I2CStatus,
}

impl<C: ClockInterface> I2C<C> {
    /// A transfer does not reach behind the end of its buffer.
    pub open spec fn wf(&self) -> bool {
        self.buffer.value matches Some(b) ==> self.tx_len <= b@.len() && self.rx_len <= b@.len()
    }

    /// Everything but the registers, the buffer, the positions and the
    /// status is as in `other`.
    pub open spec fn same_transfer(&self, other: &I2C<C>) -> bool {
        &&& self.clock == other.clock
        &&& self.master_client == other.master_client
        &&& self.tx_len == other.tx_len
        &&& self.rx_len == other.rx_len
        &&& self.slave_address == other.slave_address
    }

    /// Creates the controller with the registers `registers`.
    pub fn new(registers: I2CRegisters, clock: C) -> (r: I2C<C>)
        ensures
            r.wf(),
            r.registers == registers,
            r.clock == clock,
            !r.master_client,
            r.buffer.value is None,
            r.tx_position == 0,
            r.rx_position == 0,
            r.tx_len == 0,
            r.rx_len == 0,
            r.slave_address == 0,
            r.status == I2CStatus::Idle,
    {
        I2C {
            registers,
            clock,
            master_client: false,
            buffer: TakeCell::empty(),
            tx_position: 0,
            rx_position: 0,
            tx_len: 0,
            rx_len: 0,
            slave_address: 0,
            status: I2CStatus::Idle,
        }
    }

    /// Registers the client.
    pub fn set_master_client(&mut self)
        ensures
            *final(self) == (I2C { master_client: true, ..*old(self) }),
    {
        self.master_client = true;
    }

    /// The registers after the rate of the bus was set to `speed` at a
    /// peripheral clock of `mhz` megahertz: the frequency; the divider,
    /// five times the frequency in standard mode and five sixths of it in
    /// fast mode, with the mode; the rise time, the frequency plus one; and
    /// the controller enabled. The arithmetic is that of 32 bits, and what
    /// does not fit a field is cut off.
    pub open spec fn with_speed(
        registers: I2CRegisters,
        speed: I2CSpeed,
        mhz: u32,
    ) -> I2CRegisters {
        let five = mhz.wrapping_mul(5);
        I2CRegisters {
            cr1: cr1_pe().put(cr1_pe().put(registers.cr1, 0), 0xFFFF_FFFF),
            cr2: cr2_freq().put(registers.cr2, mhz),
            ccr: match speed {
                I2CSpeed::Speed100k => ccr_fs().put(ccr_ccr().put(registers.ccr, five), 0),
                I2CSpeed::Speed400k => ccr_fs().put(
                    ccr_ccr().put(registers.ccr, five / 6),
                    0xFFFF_FFFF,
                ),
            },
            trise: trise_trise().put(registers.trise, mhz.wrapping_add(1)),
            ..registers
        }
    }

    /// Sets the rate of the bus: see `with_speed`.
    pub fn set_speed(&mut self, speed: I2CSpeed, system_clock_in_mhz: usize)
        ensures
            final(self).registers == Self::with_speed(
                old(self).registers,
                speed,
                system_clock_in_mhz as u32,
            ),
            final(self).same_transfer(old(self)),
            final(self).buffer == old(self).buffer,
            final(self).status == old(self).status,
            final(self).tx_position == old(self).tx_position,
            final(self).rx_position == old(self).rx_position,
    {
        let mhz = system_clock_in_mhz as u32;
        self.turn_off();
        self.registers.cr2 = Field::new(0, 6).modify(self.registers.cr2, mhz);
        let five = mhz.wrapping_mul(5);
        match speed {
            I2CSpeed::Speed100k => {
                self.registers.ccr = Field::new(0, 12).modify(self.registers.ccr, five);
                self.registers.ccr = Field::bit(15).clear(self.registers.ccr);
            },
            I2CSpeed::Speed400k => {
                self.registers.ccr = Field::new(0, 12).modify(self.registers.ccr, five / 6);
                self.registers.ccr = Field::bit(15).set(self.registers.ccr);
            },
        }
        self.registers.trise = Field::new(0, 6).modify(self.registers.trise, mhz.wrapping_add(1));
        self.turn_on();
    }

    /// Whether the clock of the controller runs, as the clock reports it.
    pub fn is_enabled_clock(&self) -> (r: bool)
        ensures
            r == self.clock.enabled(),
    {
        self.clock.is_enabled()
    }

    /// Switches the clock of the controller on.
    pub fn enable_clock(&mut self)
        ensures
            final(self).clock.switched(&old(self).clock, true),
            final(self).registers == old(self).registers,
            final(self).master_client == old(self).master_client,
            final(self).buffer == old(self).buffer,
            final(self).status == old(self).status,
    {
        self.clock.enable();
    }

    /// Switches the clock of the controller off.
    pub fn disable_clock(&mut self)
        ensures
            final(self).clock.switched(&old(self).clock, false),
            final(self).registers == old(self).registers,
            final(self).master_client == old(self).master_client,
            final(self).buffer == old(self).buffer,
            final(self).status == old(self).status,
    {
        self.clock.disable();
    }

    /// Enables the controller.
    pub fn turn_on(&mut self)
        ensures
            *final(self) == (I2C {
                registers: I2CRegisters {
                    cr1: cr1_pe().put(old(self).registers.cr1, 0xFFFF_FFFF),
                    ..old(self).registers
                },
                ..*old(self)
            }),
    {
        self.registers.cr1 = Field::bit(0).set(self.registers.cr1);
    }

    /// Disables the controller.
    pub fn turn_off(&mut self)
        ensures
            *final(self) == (I2C {
                registers: I2CRegisters {
                    cr1: cr1_pe().put(old(self).registers.cr1, 0),
                    ..old(self).registers
                },
                ..*old(self)
            }),
    {
        self.registers.cr1 = Field::bit(0).clear(self.registers.cr1);
    }

    /// Disables and enables the controller.
    fn reset(&mut self)
        ensures
            *final(self) == (I2C {
                registers: I2CRegisters {
                    cr1: cr1_pe().put(cr1_pe().put(old(self).registers.cr1, 0), 0xFFFF_FFFF),
                    ..old(self).registers
                },
                ..*old(self)
            }),
    {
        self.turn_off();
        self.turn_on();
    }

    /// The registers with the interrupts enabled, bytes acknowledged, and
    /// a start condition asked for.
    pub open spec fn starting(registers: I2CRegisters) -> I2CRegisters {
        I2CRegisters {
            cr2: cr2_interrupts().put(registers.cr2, 0xFFFF_FFFF),
            cr1: cr1_start().put(cr1_ack().put(registers.cr1, 0xFFFF_FFFF), 0xFFFF_FFFF),
            ..registers
        }
    }

    /// The registers with the interrupts disabled and bytes no longer
    /// acknowledged.
    pub open spec fn stopping(registers: I2CRegisters) -> I2CRegisters {
        I2CRegisters {
            cr2: cr2_interrupts().put(registers.cr2, 0),
            cr1: cr1_ack().put(registers.cr1, 0),
            ..registers
        }
    }

    /// Starts sending from the beginning of the buffer.
    pub fn start_write(&mut self)
        ensures
            *final(self) == (I2C {
                tx_position: 0,
                registers: Self::starting(old(self).registers),
                ..*old(self)
            }),
    {
        self.tx_position = 0;
        self.registers.cr2 = Field::new(8, 3).set(self.registers.cr2);
        self.registers.cr1 = Field::bit(10).set(self.registers.cr1);
        self.registers.cr1 = Field::bit(8).set(self.registers.cr1);
    }

    /// Ends the transfer: the interrupts are off and the controller is
    /// idle.
    pub fn stop(&mut self)
        ensures
            *final(self) == (I2C {
                status: I2CStatus::Idle,
                registers: Self::stopping(old(self).registers),
                ..*old(self)
            }),
    {
        self.registers.cr2 = Field::new(8, 3).clear(self.registers.cr2);
        self.registers.cr1 = Field::bit(10).clear(self.registers.cr1);
        self.status = I2CStatus::Idle;
    }

    /// Starts receiving into the beginning of the buffer.
    pub fn start_read(&mut self)
        ensures
            *final(self) == (I2C {
                rx_position: 0,
                registers: Self::starting(old(self).registers),
                ..*old(self)
            }),
    {
        self.rx_position = 0;
        self.registers.cr2 = Field::new(8, 3).set(self.registers.cr2);
        self.registers.cr1 = Field::bit(10).set(self.registers.cr1);
        self.registers.cr1 = Field::bit(8).set(self.registers.cr1);
    }

    /// Ends the transfer with a stop condition and hands the buffer to the
    /// client with the outcome `status`. Without a client the buffer stays
    /// with the controller.
    fn finish(&mut self, status: Result<(), Error>) -> (r: Option<Completion>)
        requires
            old(self).wf(),
        ensures
            final(self).wf(),
            final(self).same_transfer(old(self)),
            final(self).status == I2CStatus::Idle,
            final(self).tx_position == old(self).tx_position,
            final(self).rx_position == old(self).rx_position,
            final(self).registers == Self::stopping(
                I2CRegisters {
                    cr1: cr1_stop().put(old(self).registers.cr1, 0xFFFF_FFFF),
                    ..old(self).registers
                },
            ),
            match old(self).buffer.value {
                Some(b) if old(self).master_client => final(self).buffer.value is None && r
                    is Some && r->Some_0.buffer == b && r->Some_0.status == status,
                _ => r is None && final(self).buffer == old(self).buffer,
            },
    {
        self.registers.cr1 = Field::bit(9).set(self.registers.cr1);
        self.stop();
        if self.master_client {
            match self.buffer.take() {
                Some(buffer) => Some(Completion { buffer, status }),
                None => None,
            }
        } else {
            None
        }
    }

    /// This is the controller `before` after the step for a start condition
    /// that was sent.
    pub open spec fn after_start_bit(&self, before: &I2C<C>) -> bool {
        *self == (I2C {
            registers: I2CRegisters {
                dr: address_byte(before.slave_address, before.status == I2CStatus::Reading),
                ..before.registers
            },
            ..*before
        })
    }

    /// The start condition was sent: the address of the peer goes out,
    /// with the direction of the transfer. An idle controller has no
    /// transfer to address: a start condition is sent only for a transfer
    /// that was begun.
    pub fn on_start_bit(&mut self)
        requires
            old(self).status != I2CStatus::Idle,
        ensures
            final(self).after_start_bit(old(self)),
    {
        let dir: u32 = if self.status == I2CStatus::Reading {
            1
        } else {
            0
        };
        self.registers.dr = (((self.slave_address << 1) as u32) | dir) & 0xFF;
    }

    /// This is the controller `before` after the step for an empty data
    /// register.
    pub open spec fn after_tx_empty(&self, before: &I2C<C>) -> bool {
        match before.buffer.value {
            Some(b) if before.tx_position < before.tx_len => *self == (I2C {
                tx_position: (before.tx_position + 1) as usize,
                registers: I2CRegisters {
                    dr: b@[before.tx_position as int] as u32,
                    ..before.registers
                },
                ..*before
            }),
            _ => *self == *before,
        }
    }

    /// The data register is empty: the next byte of the buffer goes out,
    /// if one is left to send.
    pub fn on_tx_empty(&mut self)
        requires
            old(self).wf(),
        ensures
            final(self).wf(),
            final(self).after_tx_empty(old(self)),
    {
        if self.tx_position < self.tx_len {
            match &self.buffer.value {
                Some(buf) => {
                    let byte = buf[self.tx_position];
                    self.registers.dr = byte as u32;
                    self.tx_position = self.tx_position + 1;
                },
                None => {},
            }
        }
    }

    /// This is the controller `before` after the step for a full data
    /// register, which told the client `r`.
    pub open spec fn after_rx_not_empty(&self, before: &I2C<C>, r: Option<Completion>) -> bool {
        &&& self.same_transfer(before)
        &&& self.tx_position == before.tx_position
        &&& self.registers.sr1 == sr1_rxne().put(before.registers.sr1, 0)
        &&& self.registers.dr == before.registers.dr
        &&& self.registers.sr2 == before.registers.sr2
        &&& match before.buffer.value {
            None => {
                &&& r is None
                &&& self.buffer.value is None
                &&& self.status == before.status
                &&& self.rx_position == before.rx_position
                &&& self.registers.cr1 == before.registers.cr1
                &&& self.registers.cr2 == before.registers.cr2
            },
            Some(b) => {
                let stored = before.rx_position < before.rx_len;
                let position = if stored {
                    before.rx_position + 1
                } else {
                    before.rx_position as int
                };
                let bytes = if stored {
                    b@.update(before.rx_position as int, (before.registers.dr & 0xFF) as u8)
                } else {
                    b@
                };
                &&& self.rx_position == position
                &&& if position == before.rx_len {
                    &&& self.status == I2CStatus::Idle
                    &&& self.registers.cr1 == Self::stopping(
                        I2CRegisters {
                            cr1: cr1_stop().put(before.registers.cr1, 0xFFFF_FFFF),
                            ..before.registers
                        },
                    ).cr1
                    &&& self.registers.cr2 == cr2_interrupts().put(before.registers.cr2, 0)
                    &&& if before.master_client {
                        r is Some && r->Some_0.buffer@ == bytes && r->Some_0.status is Ok
                            && self.buffer.value is None
                    } else {
                        r is None && self.buffer.value is Some && self.buffer.value->Some_0@
                            == bytes
                    }
                } else {
                    &&& r is None
                    &&& self.status == before.status
                    &&& self.registers.cr1 == before.registers.cr1
                    &&& self.registers.cr2 == before.registers.cr2
                    &&& self.buffer.value is Some
                    &&& self.buffer.value->Some_0@ == bytes
                }
            },
        }
    }

    /// The data register is full: the byte is taken from it, which empties
    /// it, and stored in the buffer if the transfer still expects bytes.
    /// With the last byte that the transfer expects, the transfer ends with
    /// success.
    pub fn on_rx_not_empty(&mut self) -> (r: Option<Completion>)
        requires
            old(self).wf(),
        ensures
            final(self).wf(),
            final(self).after_rx_not_empty(old(self), r),
    {
        let byte = self.registers.dr & 0xFF;
        self.registers.sr1 = Field::bit(6).clear(self.registers.sr1);
        match self.buffer.take() {
            None => None,
            Some(mut buf) => {
                if self.rx_position < self.rx_len {
                    buf[self.rx_position] = byte as u8;
                    self.rx_position = self.rx_position + 1;
                }
                self.buffer.put(Some(buf));
                if self.rx_position == self.rx_len {
                    self.finish(Ok(()))
                } else {
                    None
                }
            },
        }
    }

    /// This is the controller `before` after the step for the last byte
    /// being out, which told the client `r`.
    pub open spec fn after_transfer_finished(
        &self,
        before: &I2C<C>,
        r: Option<Completion>,
    ) -> bool {
        if before.status == I2CStatus::WritingReading && before.tx_position >= before.tx_len {
            r is None && *self == (I2C {
                status: I2CStatus::Reading,
                rx_position: 0,
                registers: Self::starting(before.registers),
                ..*before
            })
        } else {
            &&& self.same_transfer(before)
            &&& self.tx_position == before.tx_position
            &&& self.rx_position == before.rx_position
            &&& self.status == I2CStatus::Idle
            &&& self.registers == Self::stopping(
                I2CRegisters {
                    cr1: cr1_stop().put(before.registers.cr1, 0xFFFF_FFFF),
                    ..before.registers
                },
            )
            &&& match before.buffer.value {
                Some(b) if before.master_client => self.buffer.value is None && r is Some
                    && r->Some_0.buffer == b && r->Some_0.status == before.outcome(),
                _ => r is None && self.buffer == before.buffer,
            }
        }
    }

    /// The last byte is out.
    ///
    /// While writing: if bytes were left to send, the peer did not take
    /// them, and the transfer ends with `DataNak`; else a write ends with
    /// success, and a write followed by a read goes on with the read. While
    /// reading, the transfer ends: with success if all bytes have arrived,
    /// else with `DataNak`. An idle controller has no transfer to finish.
    pub fn on_transfer_finished(&mut self) -> (r: Option<Completion>)
        requires
            old(self).wf(),
            old(self).status != I2CStatus::Idle,
        ensures
            final(self).wf(),
            final(self).after_transfer_finished(old(self), r),
    {
        if self.status == I2CStatus::Reading {
            let status = if self.rx_position == self.rx_len {
                Ok(())
            } else {
                Err(Error::DataNak)
            };
            self.finish(status)
        } else if self.tx_position < self.tx_len {
            self.finish(Err(Error::DataNak))
        } else if self.status == I2CStatus::Writing {
            self.finish(Ok(()))
        } else {
            self.status = I2CStatus::Reading;
            self.start_read();
            None
        }
    }

    /// The outcome of a transfer that ends when the last byte is out.
    pub open spec fn outcome(&self) -> Result<(), Error> {
        if self.status == I2CStatus::Reading {
            if self.rx_position == self.rx_len {
                Ok(())
            } else {
                Err(Error::DataNak)
            }
        } else if self.tx_position < self.tx_len {
            Err(Error::DataNak)
        } else {
            Ok(())
        }
    }

    /// This is the controller `before` after the events that its status
    /// register showed were served, which told the client `r`. The steps
    /// were taken in this order, each only if its event was shown: start
    /// condition sent, which led to `a`; data register empty, which led to
    /// `b`; data register full, which led to `c` and told the client
    /// `first`; last byte out, which told the client `second`. The client is
    /// told what the last of them told.
    pub open spec fn handled(
        &self,
        before: &I2C<C>,
        a: I2C<C>,
        b: I2C<C>,
        c: I2C<C>,
        first: Option<Completion>,
        second: Option<Completion>,
        r: Option<Completion>,
    ) -> bool {
        let sr1 = before.registers.sr1;
        &&& if sr1_sb().any(sr1) {
            a.after_start_bit(before)
        } else {
            a == *before
        }
        &&& if sr1_txe().any(sr1) {
            b.after_tx_empty(&a)
        } else {
            b == a
        }
        &&& if sr1_rxne().any(sr1) {
            c.after_rx_not_empty(&b, first)
        } else {
            c == b && first is None
        }
        &&& if sr1_btf().any(sr1) {
            self.after_transfer_finished(&c, second)
        } else {
            *self == c && second is None
        }
        &&& r == (if second is Some {
            second
        } else {
            first
        })
    }

    /// The byte in the data register is the last that the transfer
    /// expects, or the transfer expects none: taking it ends the transfer.
    pub open spec fn rx_ends(&self) -> bool {
        &&& self.buffer.value is Some
        &&& self.rx_len == (if self.rx_position < self.rx_len {
            self.rx_position + 1
        } else {
            self.rx_position as int
        })
    }

    /// The events that the status register shows belong to a transfer: a
    /// start condition was sent, and a last byte is out, only while the
    /// controller is not idle, and the last byte is not out of a transfer
    /// that the byte in the data register ends.
    pub open spec fn events_fit(&self) -> bool {
        let sr1 = self.registers.sr1;
        &&& (sr1_sb().any(sr1) ==> self.status != I2CStatus::Idle)
        &&& (sr1_btf().any(sr1) ==> self.status != I2CStatus::Idle && !(sr1_rxne().any(sr1)
            && self.rx_ends()))
    }

    /// Serves the events that the status register shows, in this order:
    /// start condition sent, data register empty, data register full, last
    /// byte out. Each is served by its step: see `handled`. The result is
    /// the completion for the client, if the transfer ended. The events
    /// must belong to a transfer: see `events_fit`.
    pub fn handle_event(&mut self) -> (r: Option<Completion>)
        requires
            old(self).wf(),
            old(self).events_fit(),
        ensures
            final(self).wf(),
            exists|a: I2C<C>, b: I2C<C>, c: I2C<C>, first: Option<Completion>, second: Option<
                Completion,
            >| #[trigger] final(self).handled(old(self), a, b, c, first, second, r),
    {
        let sr1 = self.registers.sr1;
        if Field::bit(0).is_set(sr1) {
            self.on_start_bit();
        }
        let ghost a = *self;
        if Field::bit(7).is_set(sr1) {
            self.on_tx_empty();
        }
        let ghost b = *self;
        let mut first: Option<Completion> = None;
        if Field::bit(6).is_set(sr1) {
            first = self.on_rx_not_empty();
        }
        let ghost c = *self;
        let ghost told = first;
        let mut second: Option<Completion> = None;
        if Field::bit(2).is_set(sr1) {
            second = self.on_transfer_finished();
        }
        let ghost last = second;
        let r = match second {
            Some(c) => Some(c),
            None => first,
        };
        assert(self.handled(old(self), a, b, c, told, last, r));
        r
    }

    /// The events were served on an error: the transfer ends with
    /// `DataNak`.
    pub fn handle_error(&mut self) -> (r: Option<Completion>)
        requires
            old(self).wf(),
        ensures
            final(self).wf(),
            final(self).same_transfer(old(self)),
            final(self).status == I2CStatus::Idle,
            final(self).registers == Self::stopping(old(self).registers),
            final(self).tx_position == old(self).tx_position,
            final(self).rx_position == old(self).rx_position,
            match old(self).buffer.value {
                Some(b) if old(self).master_client => final(self).buffer.value is None && r
                    is Some && r->Some_0.buffer == b && r->Some_0.status == Err::<(), Error>(
                    Error::DataNak,
                ),
                _ => r is None && final(self).buffer == old(self).buffer,
            },
    {
        let r = if self.master_client {
            match self.buffer.take() {
                Some(buffer) => Some(Completion { buffer, status: Err(Error::DataNak) }),
                None => None,
            }
        } else {
            None
        };
        self.stop();
        r
    }

    /// Begins a transfer with the peer `addr`: the controller is reset,
    /// the buffer taken, and sending or receiving started. A transfer does
    /// not reach behind the end of the buffer.
    fn begin(&mut self, status: I2CStatus, addr: u8, data: Vec<u8>, write_len: Option<usize>,
        read_len: Option<
        usize,
    >)
        requires
            status != I2CStatus::Idle,
        ensures
            final(self).wf(),
            final(self).clock == old(self).clock,
            final(self).master_client == old(self).master_client,
            final(self).status == status,
            final(self).slave_address == addr,
            final(self).buffer.value == Some(data),
            final(self).tx_len == (match write_len {
                Some(n) => least(n as int, data@.len() as int) as usize,
                None => least(old(self).tx_len as int, data@.len() as int) as usize,
            }),
            final(self).rx_len == (match read_len {
                Some(n) => least(n as int, data@.len() as int) as usize,
                None => least(old(self).rx_len as int, data@.len() as int) as usize,
            }),
            final(self).tx_position == (if status == I2CStatus::Reading {
                old(self).tx_position
            } else {
                0
            }),
            final(self).rx_position == (if status == I2CStatus::Reading {
                0
            } else {
                old(self).rx_position
            }),
            final(self).registers == Self::starting(
                I2CRegisters {
                    cr1: cr1_pe().put(cr1_pe().put(old(self).registers.cr1, 0), 0xFFFF_FFFF),
                    ..old(self).registers
                },
            ),
    {
        self.reset();
        self.status = status;
        self.slave_address = addr;
        let len = data.len();
        self.tx_len = match write_len {
            Some(n) => smaller(n, len),
            None => smaller(self.tx_len, len),
        };
        self.rx_len = match read_len {
            Some(n) => smaller(n, len),
            None => smaller(self.rx_len, len),
        };
        self.buffer.put(Some(data));
        match status {
            I2CStatus::Reading => self.start_read(),
            _ => self.start_write(),
        }
    }
}

impl<C: ClockInterface> I2CMaster for I2C<C> {
    open spec fn ready(&self) -> bool {
        self.wf()
    }

    /// Enables the controller.
    fn enable(&mut self)
        ensures
            *final(self) == (I2C {
                registers: I2CRegisters {
                    cr1: cr1_pe().put(old(self).registers.cr1, 0xFFFF_FFFF),
                    ..old(self).registers
                },
                ..*old(self)
            }),
    {
        self.turn_on();
    }

    /// Disables the controller.
    fn disable(&mut self)
        ensures
            *final(self) == (I2C {
                registers: I2CRegisters {
                    cr1: cr1_pe().put(old(self).registers.cr1, 0),
                    ..old(self).registers
                },
                ..*old(self)
            }),
    {
        self.turn_off();
    }

    /// Starts a write of `write_len` bytes of `data` to the peer `addr`,
    /// followed by a read of `read_len` bytes. Refused with `Busy` unless
    /// the controller is idle; then the buffer comes back and nothing
    /// changes.
    fn write_read(&mut self, addr: u8, data: Vec<u8>, write_len: usize, read_len: usize) -> (r:
        Result<(), (Error, Vec<u8>)>)
        ensures
            old(self).status != I2CStatus::Idle ==> r == Err::<(), (Error, Vec<u8>)>(
                (Error::Busy, data),
            ) && *final(self) == *old(self),
            old(self).status == I2CStatus::Idle ==> {
                &&& r is Ok
                &&& final(self).status == I2CStatus::WritingReading
                &&& final(self).slave_address == addr
                &&& final(self).buffer.value == Some(data)
                &&& final(self).tx_len == least(write_len as int, data@.len() as int)
                &&& final(self).rx_len == least(read_len as int, data@.len() as int)
                &&& final(self).tx_position == 0
            },
    {
        if self.status == I2CStatus::Idle {
            self.begin(I2CStatus::WritingReading, addr, data, Some(write_len), Some(read_len));
            Ok(())
        } else {
            Err((Error::Busy, data))
        }
    }

    /// Starts a write of `len` bytes of `data` to the peer `addr`. Refused
    /// with `Busy` unless the controller is idle; then the buffer comes back
    /// and nothing changes.
    fn write(&mut self, addr: u8, data: Vec<u8>, len: usize) -> (r: Result<(), (Error, Vec<u8>)>)
        ensures
            old(self).status != I2CStatus::Idle ==> r == Err::<(), (Error, Vec<u8>)>(
                (Error::Busy, data),
            ) && *final(self) == *old(self),
            old(self).status == I2CStatus::Idle ==> {
                &&& r is Ok
                &&& final(self).status == I2CStatus::Writing
                &&& final(self).slave_address == addr
                &&& final(self).buffer.value == Some(data)
                &&& final(self).tx_len == least(len as int, data@.len() as int)
                &&& final(self).tx_position == 0
            },
    {
        if self.status == I2CStatus::Idle {
            self.begin(I2CStatus::Writing, addr, data, Some(len), None);
            Ok(())
        } else {
            Err((Error::Busy, data))
        }
    }

    /// Starts a read of `len` bytes from the peer `addr` into `buffer`.
    /// Refused with `ArbitrationLost` unless the controller is idle; then
    /// the buffer comes back and nothing changes.
    fn read(&mut self, addr: u8, buffer: Vec<u8>, len: usize) -> (r: Result<(), (Error, Vec<u8>)>)
        ensures
            old(self).status != I2CStatus::Idle ==> r == Err::<(), (Error, Vec<u8>)>(
                (Error::ArbitrationLost, buffer),
            ) && *final(self) == *old(self),
            old(self).status == I2CStatus::Idle ==> {
                &&& r is Ok
                &&& final(self).status == I2CStatus::Reading
                &&& final(self).slave_address == addr
                &&& final(self).buffer.value == Some(buffer)
                &&& final(self).rx_len == least(len as int, buffer@.len() as int)
                &&& final(self).rx_position == 0
            },
    {
        if self.status == I2CStatus::Idle {
            self.begin(I2CStatus::Reading, addr, buffer, None, Some(len));
            Ok(())
        } else {
            Err((Error::ArbitrationLost, buffer))
        }
    }
}

} // verus!
