//! Driver of an ambient light sensor on a two-wire bus.
//!
//! One reading takes four steps: the chip is switched on for a single
//! measurement, an alarm waits until the chip has integrated, the result
//! is read, and the chip is switched off again. The client is told the
//! light intensity, or zero if any step failed.

use vstd::prelude::*;
use crate::kernel::cells::TakeCell;
use crate::kernel::errorcode::ErrorCode;
use crate::kernel::hil::i2c::{Error, I2CDevice};
use crate::kernel::hil::sensors::AmbientLight;
use crate::kernel::hil::time::Alarm;

verus! {

/// The length of the buffer that the driver needs.
pub const BUF_LEN: usize = 3;

/// The microseconds that the chip takes to integrate.
pub const INTEGRATION_US: u32 = 410;

/// What the driver waits for.
#[derive(Clone, Copy, Debug, PartialEq, Eq, Structural)]
pub enum State {
    Disabled,
    /// The command to measure is being written.
    Enabling,
    /// The alarm runs while the chip integrates.
    Integrating,
    /// The result is being read.
    ReadingLI,
    /// The command to switch off is being written; the reading is kept.
    Disabling(usize),
}

/// The light intensity in lux that the low byte `data` of the result
/// stands for.
pub open spec fn lux_of(data: u8) -> usize {
    ((data as int * 4000) / 256) as usize
}

/// Computes the light intensity in lux from the low byte of the result.
pub fn lux(data: u8) -> (r: usize)
    ensures
        r == lux_of(data),
{
    (data as usize * 4000) / 256
}

/// The driver of the sensor.
pub struct Isl29035<I: I2CDevice, A: Alarm> {
    pub i2c: I,
    pub alarm: A,
    pub state: State,
    pub buffer: TakeCell<Vec<u8>>,
    /// Whether a client is registered to be told of readings.
    pub client: bool,
}

impl<I: I2CDevice, A: Alarm> Isl29035<I, A> {
    /// The buffer, while it is with the driver, is long enough.
    pub open spec fn wf(&self) -> bool {
        self.buffer.value matches Some(b) ==> b@.len() >= BUF_LEN
    }

    /// Creates the driver of the sensor behind `i2c`.
    pub fn new(i2c: I, alarm: A, buffer: Vec<u8>) -> (r: Isl29035<I, A>)
        requires
            buffer@.len() >= BUF_LEN,
        ensures
            r.wf(),
            r.i2c == i2c,
            r.alarm == alarm,
            r.state == State::Disabled,
            r.buffer.value == Some(buffer),
            !r.client,
    {
        Isl29035 { i2c, alarm, state: State::Disabled, buffer: TakeCell::new(buffer),
            client: false }
    }

    /// Registers the client.
    pub fn set_client(&mut self)
        ensures
            final(self).client,
            final(self).i2c == old(self).i2c,
            final(self).alarm == old(self).alarm,
            final(self).state == old(self).state,
            final(self).buffer == old(self).buffer,
    {
        self.client = true;
    }

    /// The reading that the client is told, if one is registered.
    pub open spec fn report(&self, value: usize) -> Option<usize> {
        if self.client {
            Some(value)
        } else {
            None
        }
    }

    /// The reading for the client, if one is registered.
    fn callback(&self, value: usize) -> (r: Option<usize>)
        ensures
            r == self.report(value),
    {
        if self.client {
            Some(value)
        } else {
            None
        }
    }

    /// What becomes of a transfer once the bus has answered: accepted, the
    /// driver waits in state `next` for its completion; refused, the buffer
    /// is back with the driver, which is disabled, and the bus's reason is
    /// returned.
    pub fn transfer_answered(&mut self, answer: Result<(), (Error, Vec<u8>)>, next: State) -> (r:
        Result<(), ErrorCode>)
        requires
            answer matches Err((_, b)) ==> b@.len() >= BUF_LEN,
        ensures
            final(self).wf(),
            final(self).client == old(self).client,
            final(self).alarm == old(self).alarm,
            match answer {
                Ok(()) => r == Ok::<(), ErrorCode>(()) && final(self).state == next
                    && final(self).buffer.value is None && final(self).i2c == old(self).i2c,
                Err((e, b)) => r == Err::<(), ErrorCode>(e.as_errorcode()) && final(self).state
                    == State::Disabled && final(self).buffer.value == Some(b)
                    && final(self).i2c.switched(&old(self).i2c, false),
            },
    {
        match answer {
            Err((error, buf)) => {
                self.buffer.put(Some(buf));
                self.i2c.disable();
                self.state = State::Disabled;
                Err(error.into_errorcode())
            },
            Ok(()) => {
                self.buffer.put(None);
                self.state = next;
                Ok(())
            },
        }
    }

    /// The bus of this driver is what the bus `i2c` became by the request
    /// for a reading. Switched on, it was `on`. Then it was asked to write
    /// the three bytes of the command for a single measurement, which the
    /// buffer `tx` begins with; it answered `a` and was `asked`. After a
    /// refusal the bus was switched off again. The caller is answered `r`:
    /// the bus's reason, if it refused.
    pub open spec fn commanded(
        &self,
        i2c: I,
        held: Vec<u8>,
        r: Result<(), ErrorCode>,
        on: I,
        tx: Vec<u8>,
        a: Result<(), (Error, Vec<u8>)>,
        asked: I,
    ) -> bool {
        &&& on.switched(&i2c, true)
        &&& tx@ == held@.update(0, 0).update(1, 0b10100000).update(2, 0b00001001)
        &&& asked.write_asked(&on, tx, 3, a)
        &&& match a {
            Ok(()) => self.i2c == asked && r == Ok::<(), ErrorCode>(()) && self.buffer.value
                is None,
            Err((e, b)) => self.i2c.switched(&asked, false) && r == Err::<(), ErrorCode>(
                e.as_errorcode(),
            ) && self.buffer.value == Some(b),
        }
    }

    /// The driver after a reading was requested on `before` and answered
    /// with `r`: see `start_read_lux`.
    pub open spec fn reading_requested(
        &self,
        before: &Isl29035<I, A>,
        r: Result<(), ErrorCode>,
    ) -> bool {
        &&& self.wf()
        &&& self.client == before.client
        &&& self.alarm == before.alarm
        &&& (before.state != State::Disabled ==> r == Err::<(), ErrorCode>(ErrorCode::BUSY)
            && *self == *before)
        &&& (before.state == State::Disabled && before.buffer.value is None ==> r == Err::<
            (),
            ErrorCode,
        >(ErrorCode::NOMEM) && *self == *before)
        &&& (before.state == State::Disabled && before.buffer.value is Some ==> if r is Ok {
            self.state == State::Enabling && self.buffer.value is None
        } else {
            self.state == State::Disabled && self.buffer.value is Some
        })
        &&& (before.state == State::Disabled && before.buffer.value is Some ==> exists|
            on: I,
            tx: Vec<u8>,
            a: Result<(), (Error, Vec<u8>)>,
            asked: I,
        | #[trigger]
            self.commanded(
                before.i2c,
                before.buffer.value->Some_0,
                r,
                on,
                tx,
                a,
                asked,
            ))
    }

    /// Starts a reading.
    ///
    /// Refused with `BUSY` unless the driver is disabled, and with `NOMEM`
    /// without the buffer; nothing changes then. Otherwise the command for
    /// a single measurement goes to the chip: accepted by the bus, the
    /// driver waits for the write to complete; refused, the driver stays
    /// disabled with its buffer and the bus's reason is returned.
    pub fn start_read_lux(&mut self) -> (r: Result<(), ErrorCode>)
        requires
            old(self).wf(),
        ensures
            final(self).reading_requested(old(self), r),
    {
        if self.state == State::Disabled {
            match self.buffer.take() {
                None => Err(ErrorCode::NOMEM),
                Some(mut buf) => {
                    let ghost held = buf;
                    self.i2c.enable();
                    let ghost on = self.i2c;
                    buf[0] = 0;
                    buf[1] = 0b10100000;
                    buf[2] = 0b00001001;
                    let answer = self.i2c.write(buf, 3);
                    let ghost a = answer;
                    let ghost asked = self.i2c;
                    let r = self.transfer_answered(answer, State::Enabling);
                    assert(buf@ =~= held@.update(0, 0).update(1, 0b10100000).update(
                        2,
                        0b00001001,
                    ));
                    assert(self.commanded(old(self).i2c, held, r, on, buf, a, asked));
                    r
                },
            }
        } else {
            Err(ErrorCode::BUSY)
        }
    }

    /// The alarm fired: the chip has integrated, and the result is
    /// requested. If the bus refuses, the reading has failed: the driver is
    /// disabled with its buffer and the client is told zero. Without the
    /// buffer nothing is done.
    pub fn alarm(&mut self) -> (r: Option<usize>)
        requires
            old(self).wf(),
        ensures
            final(self).wf(),
            final(self).client == old(self).client,
            final(self).alarm == old(self).alarm,
            old(self).buffer.value is None ==> r is None && *final(self) == *old(self),
            old(self).buffer.value is Some ==> (r is None && final(self).state == State::ReadingLI
                && final(self).buffer.value is None) || (r == old(self).report(0)
                    && final(self).state == State::Disabled && final(self).buffer.value is Some),
            old(self).buffer.value is Some ==> exists|
                on: I,
                tx: Vec<u8>,
                a: Result<(), (Error, Vec<u8>)>,
                asked: I,
            | #[trigger] final(self).result_requested(old(self), on, tx, a, asked),
    {
        match self.buffer.take() {
            None => None,
            Some(mut buffer) => {
                self.i2c.enable();
                let ghost on = self.i2c;
                buffer[0] = 0x02;
                let answer = self.i2c.write_read(buffer, 1, 2);
                let ghost a = answer;
                let ghost asked = self.i2c;
                let r = match self.transfer_answered(answer, State::ReadingLI) {
                    Err(_) => self.callback(0),
                    Ok(()) => None,
                };
                assert(buffer@ =~= old(self).buffer.value->Some_0@.update(0, 0x02));
                assert(self.result_requested(old(self), on, buffer, a, asked));
                r
            },
        }
    }

    /// The bus of this driver is what the bus of `before` became when the
    /// result was requested. Switched on, it was `on`. Then it was asked to
    /// write one byte of the buffer `tx`, the number of the register of the
    /// result, and to read two bytes; it answered `a` and was `asked`. After
    /// a refusal the bus was switched off again.
    pub open spec fn result_requested(
        &self,
        before: &Isl29035<I, A>,
        on: I,
        tx: Vec<u8>,
        a: Result<(), (Error, Vec<u8>)>,
        asked: I,
    ) -> bool {
        &&& on.switched(&before.i2c, true)
        &&& tx@ == before.buffer.value->Some_0@.update(0, 0x02)
        &&& asked.write_read_asked(&on, tx, 1, 2, a)
        &&& match a {
            Ok(()) => self.i2c == asked && self.buffer.value is None,
            Err((_, b)) => self.i2c.switched(&asked, false) && self.buffer.value == Some(b),
        }
    }

    /// The bus of this driver is what the bus of `before` became when the
    /// chip was told to switch off after a reading: it was asked to write
    /// two bytes of the buffer `tx`, which is the buffer that came back with
    /// a zero at its beginning; it answered `a` and was `asked`. After a
    /// refusal the bus was switched off.
    pub open spec fn switched_off(
        &self,
        before: &Isl29035<I, A>,
        tx: Vec<u8>,
        a: Result<(), (Error, Vec<u8>)>,
        asked: I,
    ) -> bool {
        &&& asked.write_asked(&before.i2c, tx, 2, a)
        &&& match a {
            Ok(()) => self.i2c == asked && self.buffer.value is None,
            Err((_, b)) => self.i2c.switched(&asked, false) && self.buffer.value == Some(b),
        }
    }

    /// Bus and alarm of this driver after the completion of a successful
    /// transfer on `before` that handed `buffer` back. After the command to
    /// measure, the alarm was armed for the time of integration from now
    /// and the bus switched off. After the read, the chip was told to switch
    /// off (see `switched_off`). After that, the bus was switched off. A
    /// completion that the driver did not wait for touches neither.
    pub open spec fn followed(&self, before: &Isl29035<I, A>, buffer: Vec<u8>) -> bool {
        match before.state {
            State::Enabling => {
                &&& self.alarm.armed(
                    &before.alarm,
                    before.alarm.time(),
                    before.alarm.ticks_us(INTEGRATION_US),
                )
                &&& self.i2c.switched(&before.i2c, false)
            },
            State::ReadingLI => self.alarm == before.alarm && exists|
                tx: Vec<u8>,
                a: Result<(), (Error, Vec<u8>)>,
                asked: I,
            | tx@ == buffer@.update(0, 0) && #[trigger] self.switched_off(before, tx, a, asked),
            State::Disabling(_) => self.alarm == before.alarm && self.i2c.switched(
                &before.i2c,
                false,
            ),
            _ => self.alarm == before.alarm && self.i2c == before.i2c,
        }
    }

    /// The bus reports a transfer done and hands `buffer` back.
    ///
    /// A failed transfer ends the reading: the driver is disabled with its
    /// buffer and the client is told zero. After the command to measure, the
    /// alarm is set for the time of integration and the buffer waits with
    /// the driver. After the read, the light intensity is computed from the
    /// first byte (see `lux_of`) and the chip is told to switch off; if the
    /// bus refuses, the reading has failed as above. After the switching off
    /// the driver is disabled with its buffer and the client is told the
    /// reading. A completion in any other state only returns the buffer.
    pub fn command_complete(&mut self, buffer: Vec<u8>, status: Result<(), Error>) -> (r: Option<
        usize,
    >)
        requires
            old(self).wf(),
            buffer@.len() >= BUF_LEN,
        ensures
            final(self).wf(),
            final(self).client == old(self).client,
            status is Err ==> r == old(self).report(0) && final(self).state == State::Disabled
                && final(self).buffer.value == Some(buffer) && final(self).i2c == old(self).i2c
                && final(self).alarm == old(self).alarm,
            status is Ok ==> match old(self).state {
                State::Enabling => r is None && final(self).state == State::Integrating
                    && final(self).buffer.value == Some(buffer),
                State::ReadingLI => (r is None && final(self).state == State::Disabling(
                    lux_of(buffer@[0]),
                ) && final(self).buffer.value is None) || (r == old(self).report(0)
                    && final(self).state == State::Disabled && final(self).buffer.value is Some),
                State::Disabling(lux) => r == old(self).report(lux) && final(self).state
                    == State::Disabled && final(self).buffer.value == Some(buffer),
                _ => r is None && final(self).state == old(self).state && final(self).buffer.value
                    == Some(buffer) && final(self).i2c == old(self).i2c,
            },
            status is Ok ==> final(self).followed(old(self), buffer),
    {
        if status.is_err() {
            self.state = State::Disabled;
            self.buffer.put(Some(buffer));
            return self.callback(0);
        }
        match self.state {
            State::Enabling => {
                let interval = self.alarm.ticks_from_us(INTEGRATION_US);
                let now = self.alarm.now();
                self.alarm.set_alarm(now, interval);
                self.buffer.put(Some(buffer));
                self.i2c.disable();
                self.state = State::Integrating;
                None
            },
            State::ReadingLI => {
                let mut buffer = buffer;
                let value = lux(buffer[0]);
                buffer[0] = 0;
                self.buffer.put(None);
                let answer = self.i2c.write(buffer, 2);
                let ghost a = answer;
                let ghost asked = self.i2c;
                let r = match self.transfer_answered(answer, State::Disabling(value)) {
                    Err(_) => self.callback(0),
                    Ok(()) => None,
                };
                assert(self.switched_off(old(self), buffer, a, asked));
                r
            },
            State::Disabling(lux) => {
                self.i2c.disable();
                self.state = State::Disabled;
                self.buffer.put(Some(buffer));
                self.callback(lux)
            },
            _ => {
                self.buffer.put(Some(buffer));
                None
            },
        }
    }
}

impl<I: I2CDevice, A: Alarm> AmbientLight for Isl29035<I, A> {
    open spec fn ready(&self) -> bool {
        self.wf()
    }

    /// Starts a reading: see `start_read_lux`.
    fn read_light_intensity(&mut self) -> (r: Result<(), ErrorCode>)
        ensures
            final(self).reading_requested(old(self), r),
    {
        self.start_read_lux()
    }
}

} // verus!
