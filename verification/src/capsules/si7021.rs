//! Driver of a temperature and humidity sensor on a two-wire bus.
//!
//! A measurement is started by a write; an alarm waits while the chip
//! measures; then the value is read in two steps. While one measurement
//! runs, one of the other kind can wait on deck and follows at once.

use vstd::prelude::*;
use crate::kernel::cells::TakeCell;
use crate::kernel::errorcode::ErrorCode;
use crate::kernel::hil::i2c::{Error, I2CDevice};
use crate::kernel::hil::sensors::{HumidityDriver, TemperatureDriver};
use crate::kernel::hil::time::Alarm;

verus! {

/// The length of the buffer that the driver needs.
pub const BUF_LEN: usize = 14;

/// The milliseconds that the chip takes to measure.
pub const MEASUREMENT_MS: u32 = 20;

/// The command that measures the humidity without holding the bus.
pub const MEAS_RELATIVE_HUMIDITY_NO_HOLD_MODE: u8 = 0xf5;

/// The command that measures the temperature without holding the bus.
pub const MEAS_TEMPERATURE_NO_HOLD_MODE: u8 = 0xf3;

/// First byte of the command that reads the first half of the identifier.
pub const READ_ELECTRONIC_ID_BYTE_ONE_A: u8 = 0xfa;

/// Second byte of the command that reads the first half of the identifier.
pub const READ_ELECTRONIC_ID_BYTE_ONE_B: u8 = 0x0f;

/// First byte of the command that reads the second half of the identifier.
pub const READ_ELECTRONIC_ID_BYTE_TWO_A: u8 = 0xfc;

/// Second byte of the command that reads the second half of the identifier.
pub const READ_ELECTRONIC_ID_BYTE_TWO_B: u8 = 0xc9;

/// What the driver waits for.
#[derive(Clone, Copy, Debug, PartialEq, Eq, Structural)]
pub enum State {
    Idle,
    WaitTemp,
    WaitRh,
    SelectElectronicId1,
    ReadElectronicId1,
    SelectElectronicId2,
    ReadElectronicId2,
    TakeTempMeasurementInit,
    TakeRhMeasurementInit,
    ReadRhMeasurement,
    ReadTempMeasurement,
    GotTempMeasurement,
    GotRhMeasurement,
}

/// The measurement that follows the one under way.
#[derive(Clone, Copy, Debug, PartialEq, Eq, Structural)]
pub enum OnDeck {
    Nothing,
    Temperature,
    Humidity,
}

/// What a client of the sensor is told.
#[derive(Clone, Copy, Debug, PartialEq, Eq, Structural)]
pub enum Measurement {
    /// The temperature in hundredths of a degree centigrade.
    Temperature(i32),
    /// The relative humidity in hundredths of a percent.
    Humidity(usize),
}

/// The temperature in hundredths of a degree that the raw value stands
/// for.
pub open spec fn temperature_of(hi: u8, lo: u8) -> int {
    let raw = hi as int * 256 + lo as int;
    (raw * 17572) / 65536 - 4685
}

/// The relative humidity in hundredths of a percent that the raw value
/// stands for, as a quantity of 16 bits: a raw value below the chip's
/// range gives what the subtraction leaves in 16 bits.
pub open spec fn humidity_of(hi: u8, lo: u8) -> int {
    let raw = hi as int * 256 + lo as int;
    let scaled = (raw * 125 * 100) / 65536;
    if scaled >= 600 {
        scaled - 600
    } else {
        scaled + 65536 - 600
    }
}

/// Computes the temperature from the raw value.
pub fn temperature(hi: u8, lo: u8) -> (r: i32)
    ensures
        r == temperature_of(hi, lo),
{
    let raw: u32 = (hi as u32) * 256 + (lo as u32);
    let scaled: u32 = (raw * 17572) / 65536;
    scaled as i32 - 4685
}

/// Computes the relative humidity from the raw value.
pub fn humidity(hi: u8, lo: u8) -> (r: usize)
    ensures
        r == humidity_of(hi, lo),
        r < 65536,
{
    let raw: u32 = (hi as u32) * 256 + (lo as u32);
    let scaled: u32 = (raw * 125 * 100) / 65536;
    if scaled >= 600 {
        (scaled - 600) as usize
    } else {
        (scaled + 65536 - 600) as usize
    }
}

/// The driver of the sensor.
pub struct SI7021<A: Alarm, I: I2CDevice> {
    pub i2c: I,
    pub alarm: A,
    /// Whether a client is registered for temperatures.
    pub temp_callback: bool,
    /// Whether a client is registered for humidities.
    pub humidity_callback: bool,
    pub state: State,
    pub on_deck: OnDeck,
    pub buffer: TakeCell<Vec<u8>>,
}

impl<A: Alarm, I: I2CDevice> SI7021<A, I> {
    /// The buffer, while it is with the driver, is long enough.
    pub open spec fn wf(&self) -> bool {
        self.buffer.value matches Some(b) ==> b@.len() >= BUF_LEN
    }

    /// The clients are those of `other`.
    pub open spec fn same_clients(&self, other: &SI7021<A, I>) -> bool {
        self.temp_callback == other.temp_callback && self.humidity_callback
            == other.humidity_callback
    }

    /// Creates the driver of the sensor behind `i2c`.
    pub fn new(i2c: I, alarm: A, buffer: Vec<u8>) -> (r: SI7021<A, I>)
        requires
            buffer@.len() >= BUF_LEN,
        ensures
            r.wf(),
            r.i2c == i2c,
            r.alarm == alarm,
            !r.temp_callback,
            !r.humidity_callback,
            r.state == State::Idle,
            r.on_deck == OnDeck::Nothing,
            r.buffer.value == Some(buffer),
    {
        SI7021 {
            i2c,
            alarm,
            temp_callback: false,
            humidity_callback: false,
            state: State::Idle,
            on_deck: OnDeck::Nothing,
            buffer: TakeCell::new(buffer),
        }
    }

    /// Registers the client for temperatures.
    pub fn set_temperature_client(&mut self)
        ensures
            *final(self) == (SI7021 { temp_callback: true, ..*old(self) }),
    {
        self.temp_callback = true;
    }

    /// Registers the client for humidities.
    pub fn set_humidity_client(&mut self)
        ensures
            *final(self) == (SI7021 { humidity_callback: true, ..*old(self) }),
    {
        self.humidity_callback = true;
    }

    /// What becomes of a transfer once the bus has answered: accepted, the
    /// driver waits in state `next`; refused, the driver is idle with its
    /// buffer and the bus's reason is returned.
    pub fn transfer_answered(&mut self, answer: Result<(), (Error, Vec<u8>)>, next: State) -> (r:
        Result<(), ErrorCode>)
        requires
            answer matches Err((_, b)) ==> b@.len() >= BUF_LEN,
        ensures
            final(self).wf(),
            final(self).same_clients(old(self)),
            final(self).alarm == old(self).alarm,
            final(self).on_deck == old(self).on_deck,
            match answer {
                Ok(()) => r == Ok::<(), ErrorCode>(()) && final(self).state == next
                    && final(self).buffer.value is None && final(self).i2c == old(self).i2c,
                Err((e, b)) => r == Err::<(), ErrorCode>(e.as_errorcode()) && final(self).state
                    == State::Idle && final(self).buffer.value == Some(b)
                    && final(self).i2c.switched(&old(self).i2c, false),
            },
    {
        match answer {
            Ok(()) => {
                self.buffer.put(None);
                self.state = next;
                Ok(())
            },
            Err((e, b)) => {
                self.buffer.put(Some(b));
                self.i2c.disable();
                self.state = State::Idle;
                Err(e.into_errorcode())
            },
        }
    }

    /// The driver after a transfer was started on `before`: it waits in
    /// state `next` without its buffer, or, if the bus refused, is idle with
    /// it.
    pub open spec fn moved(&self, before: &SI7021<A, I>, next: State) -> bool {
        &&& self.wf()
        &&& self.same_clients(before)
        &&& self.on_deck == before.on_deck
        &&& (self.state == next && self.buffer.value is None || self.state == State::Idle
            && self.buffer.value is Some)
    }

    /// The bus of this driver is what the bus `i2c` became by a write.
    /// Switched on, it was `on`; then it was asked to write `len` bytes of
    /// the buffer `tx`, which holds `bytes`, answered `a` and was `asked`.
    /// If it accepted, the driver waits in state `next` without its buffer;
    /// if it refused, it was switched off again, and the driver is idle with
    /// the buffer that the bus handed back.
    pub open spec fn wrote(
        &self,
        i2c: I,
        bytes: Seq<u8>,
        len: usize,
        next: State,
        on: I,
        tx: Vec<u8>,
        a: Result<(), (Error, Vec<u8>)>,
        asked: I,
    ) -> bool {
        &&& on.switched(&i2c, true)
        &&& tx@ == bytes
        &&& asked.write_asked(&on, tx, len, a)
        &&& match a {
            Ok(()) => self.i2c == asked && self.state == next && self.buffer.value is None,
            Err((_, b)) => self.i2c.switched(&asked, false) && self.state == State::Idle
                && self.buffer.value == Some(b),
        }
    }

    /// What the caller of a write is answered once the bus has answered
    /// `a`: the reason of a refusal, as an error code.
    pub open spec fn outcome(a: Result<(), (Error, Vec<u8>)>) -> Result<(), ErrorCode> {
        match a {
            Ok(()) => Ok(()),
            Err((e, _)) => Err(e.as_errorcode()),
        }
    }

    /// Requests the chip's serial number: the two bytes of the command
    /// are written to the chip. Without the buffer nothing is done.
    pub fn read_id(&mut self)
        requires
            old(self).wf(),
        ensures
            old(self).buffer.value is None ==> *final(self) == *old(self),
            old(self).buffer.value is Some ==> final(self).moved(
                old(self),
                State::SelectElectronicId1,
            ),
            old(self).buffer.value is Some ==> exists|
                on: I,
                tx: Vec<u8>,
                a: Result<(), (Error, Vec<u8>)>,
                asked: I,
            | #[trigger]
                final(self).wrote(
                    old(self).i2c,
                    old(self).buffer.value->Some_0@.update(
                        0,
                        READ_ELECTRONIC_ID_BYTE_ONE_A,
                    ).update(1, READ_ELECTRONIC_ID_BYTE_ONE_B),
                    2,
                    State::SelectElectronicId1,
                    on,
                    tx,
                    a,
                    asked,
                ),
    {
        match self.buffer.take() {
            None => {},
            Some(mut buffer) => {
                self.i2c.enable();
                let ghost on = self.i2c;
                buffer[0] = READ_ELECTRONIC_ID_BYTE_ONE_A;
                buffer[1] = READ_ELECTRONIC_ID_BYTE_ONE_B;
                let answer = self.i2c.write(buffer, 2);
                let ghost a = answer;
                let ghost asked = self.i2c;
                let _ = self.transfer_answered(answer, State::SelectElectronicId1);
                assert(buffer@ =~= old(self).buffer.value->Some_0@.update(
                    0,
                    READ_ELECTRONIC_ID_BYTE_ONE_A,
                ).update(1, READ_ELECTRONIC_ID_BYTE_ONE_B));
                assert(self.wrote(
                    old(self).i2c,
                    buffer@,
                    2,
                    State::SelectElectronicId1,
                    on,
                    buffer,
                    a,
                    asked,
                ));
            },
        }
    }

    /// Alarm and bus of this driver are what those of `before` became
    /// when the wait for the chip to measure was begun: the alarm was armed
    /// for the time of a measurement from now, and the bus was switched
    /// off.
    pub open spec fn waits(&self, before: &SI7021<A, I>) -> bool {
        &&& self.alarm.armed(
            &before.alarm,
            before.alarm.time(),
            before.alarm.ticks_ms(MEASUREMENT_MS),
        )
        &&& self.i2c.switched(&before.i2c, false)
    }

    /// Sets the alarm for the time that the chip takes to measure and
    /// takes the buffer back meanwhile.
    pub fn init_measurement(&mut self, buffer: Vec<u8>)
        ensures
            final(self).buffer.value == Some(buffer),
            final(self).same_clients(old(self)),
            final(self).state == old(self).state,
            final(self).on_deck == old(self).on_deck,
            final(self).waits(old(self)),
    {
        let delay = self.alarm.ticks_from_ms(MEASUREMENT_MS);
        let now = self.alarm.now();
        self.alarm.set_alarm(now, delay);
        self.buffer.put(Some(buffer));
        self.i2c.disable();
    }

    /// Takes the buffer back and makes the driver idle.
    pub fn set_idle(&mut self, buffer: Vec<u8>)
        ensures
            final(self).buffer.value == Some(buffer),
            final(self).same_clients(old(self)),
            final(self).state == State::Idle,
            final(self).on_deck == old(self).on_deck,
            final(self).alarm == old(self).alarm,
            final(self).i2c.switched(&old(self).i2c, false),
    {
        self.buffer.put(Some(buffer));
        self.i2c.disable();
        self.state = State::Idle;
    }

    /// Starts a measurement of the kind that `command` stands for on an
    /// idle driver.
    fn start_measurement(&mut self, command: u8, next: State) -> (r: Result<(), ErrorCode>)
        requires
            old(self).wf(),
        ensures
            final(self).wf(),
            final(self).same_clients(old(self)),
            final(self).on_deck == old(self).on_deck,
            final(self).alarm == old(self).alarm,
            old(self).buffer.value is None ==> r == Err::<(), ErrorCode>(ErrorCode::BUSY)
                && *final(self) == *old(self),
            old(self).buffer.value is Some ==> if r is Ok {
                final(self).state == next && final(self).buffer.value is None
            } else {
                final(self).state == State::Idle && final(self).buffer.value is Some
            },
            old(self).buffer.value is Some ==> exists|
                on: I,
                tx: Vec<u8>,
                a: Result<(), (Error, Vec<u8>)>,
                asked: I,
            | #[trigger]
                final(self).wrote(
                    old(self).i2c,
                    old(self).buffer.value->Some_0@.update(0, command),
                    1,
                    next,
                    on,
                    tx,
                    a,
                    asked,
                ) && r == Self::outcome(a),
    {
        match self.buffer.take() {
            None => Err(ErrorCode::BUSY),
            Some(mut buffer) => {
                self.i2c.enable();
                let ghost on = self.i2c;
                buffer[0] = command;
                let answer = self.i2c.write(buffer, 1);
                let ghost a = answer;
                let ghost asked = self.i2c;
                let r = self.transfer_answered(answer, next);
                assert(self.wrote(old(self).i2c, buffer@, 1, next, on, buffer, a, asked));
                r
            },
        }
    }

    /// What a request for a measurement of the kind `kind` is answered
    /// while another runs: it waits on deck if nothing does yet; else it is
    /// refused with `BUSY`.
    fn put_on_deck(&mut self, kind: OnDeck) -> (r: Result<(), ErrorCode>)
        ensures
            old(self).on_deck == OnDeck::Nothing ==> r is Ok && *final(self) == (SI7021 {
                on_deck: kind,
                ..*old(self)
            }),
            old(self).on_deck != OnDeck::Nothing ==> r == Err::<(), ErrorCode>(ErrorCode::BUSY)
                && *final(self) == *old(self),
    {
        if self.on_deck == OnDeck::Nothing {
            self.on_deck = kind;
            Ok(())
        } else {
            Err(ErrorCode::BUSY)
        }
    }

    /// The driver after the temperature was requested on `before` and
    /// answered with `r`: see `measure_temperature`.
    pub open spec fn temperature_requested(
        &self,
        before: &SI7021<A, I>,
        r: Result<(), ErrorCode>,
    ) -> bool {
        &&& self.wf()
        &&& self.same_clients(before)
        &&& (before.state != State::Idle ==> if before.on_deck == OnDeck::Nothing {
            r is Ok && *self == (SI7021 { on_deck: OnDeck::Temperature, ..*before })
        } else {
            r == Err::<(), ErrorCode>(ErrorCode::BUSY) && *self == *before
        })
        &&& (before.state == State::Idle ==> if before.buffer.value is None {
            r == Err::<(), ErrorCode>(ErrorCode::BUSY) && *self == *before
        } else if r is Ok {
            self.state == State::TakeTempMeasurementInit && self.buffer.value
                is None
        } else {
            self.state == State::Idle && self.buffer.value is Some
        })
        &&& (before.state == State::Idle && before.buffer.value is Some ==> exists|
            on: I,
            tx: Vec<u8>,
            a: Result<(), (Error, Vec<u8>)>,
            asked: I,
        | #[trigger]
            self.wrote(
                before.i2c,
                before.buffer.value->Some_0@.update(0, MEAS_TEMPERATURE_NO_HOLD_MODE),
                1,
                State::TakeTempMeasurementInit,
                on,
                tx,
                a,
                asked,
            ) && r == Self::outcome(a))
    }

    /// Requests the temperature.
    ///
    /// On an idle driver the measurement starts: the driver waits for the
    /// write to complete, or, if the bus refuses, stays idle and returns the
    /// bus's reason; without its buffer it refuses with `BUSY`. While
    /// another measurement runs the request waits on deck, unless one waits
    /// there already, which is refused with `BUSY`.
    pub fn measure_temperature(&mut self) -> (r: Result<(), ErrorCode>)
        requires
            old(self).wf(),
        ensures
            final(self).temperature_requested(old(self), r),
    {
        if self.state == State::Idle {
            self.start_measurement(MEAS_TEMPERATURE_NO_HOLD_MODE, State::TakeTempMeasurementInit)
        } else {
            self.put_on_deck(OnDeck::Temperature)
        }
    }

    /// The driver after the relative humidity was requested on `before`
    /// and answered with `r`: see `measure_humidity`.
    pub open spec fn humidity_requested(
        &self,
        before: &SI7021<A, I>,
        r: Result<(), ErrorCode>,
    ) -> bool {
        &&& self.wf()
        &&& self.same_clients(before)
        &&& (before.state != State::Idle ==> if before.on_deck == OnDeck::Nothing {
            r is Ok && *self == (SI7021 { on_deck: OnDeck::Humidity, ..*before })
        } else {
            r == Err::<(), ErrorCode>(ErrorCode::BUSY) && *self == *before
        })
        &&& (before.state == State::Idle ==> if before.buffer.value is None {
            r == Err::<(), ErrorCode>(ErrorCode::BUSY) && *self == *before
        } else if r is Ok {
            self.state == State::TakeRhMeasurementInit && self.buffer.value
                is None
        } else {
            self.state == State::Idle && self.buffer.value is Some
        })
        &&& (before.state == State::Idle && before.buffer.value is Some ==> exists|
            on: I,
            tx: Vec<u8>,
            a: Result<(), (Error, Vec<u8>)>,
            asked: I,
        | #[trigger]
            self.wrote(
                before.i2c,
                before.buffer.value->Some_0@.update(0, MEAS_RELATIVE_HUMIDITY_NO_HOLD_MODE),
                1,
                State::TakeRhMeasurementInit,
                on,
                tx,
                a,
                asked,
            ) && r == Self::outcome(a))
    }

    /// Requests the relative humidity: as `measure_temperature`, for the
    /// other kind of measurement.
    pub fn measure_humidity(&mut self) -> (r: Result<(), ErrorCode>)
        requires
            old(self).wf(),
        ensures
            final(self).humidity_requested(old(self), r),
    {
        if self.state == State::Idle {
            self.start_measurement(MEAS_RELATIVE_HUMIDITY_NO_HOLD_MODE,
                State::TakeRhMeasurementInit)
        } else {
            self.put_on_deck(OnDeck::Humidity)
        }
    }

    /// The alarm fired: the chip has measured, and the value is requested.
    /// Without the buffer nothing is done.
    pub fn alarm(&mut self)
        requires
            old(self).wf(),
        ensures
            final(self).wf(),
            final(self).same_clients(old(self)),
            final(self).on_deck == old(self).on_deck,
            old(self).buffer.value is None ==> *final(self) == *old(self),
            old(self).buffer.value is Some ==> final(self).buffer.value is None
                && final(self).state == Self::after_wait(old(self).state)
                    || final(self).buffer.value is Some
                && final(self).state == State::Idle,
            old(self).buffer.value is Some ==> exists|
                on: I,
                a: Result<(), (Error, Vec<u8>)>,
                asked: I,
            | #[trigger] final(self).value_requested(old(self), on, a, asked),
    {
        match self.buffer.take() {
            None => {},
            Some(buffer) => {
                self.i2c.enable();
                let ghost on = self.i2c;
                let next = match self.state {
                    State::WaitRh => State::ReadRhMeasurement,
                    State::WaitTemp => State::ReadTempMeasurement,
                    s => s,
                };
                let answer = self.i2c.read(buffer, 2);
                let ghost a = answer;
                let ghost asked = self.i2c;
                let _ = self.transfer_answered(answer, next);
                assert(self.value_requested(old(self), on, a, asked));
            },
        }
    }

    /// The bus of this driver is what the bus of `before` became when the
    /// measured value was requested. Switched on, it was `on`. Then it was
    /// asked to read two bytes into the driver's buffer; it answered `a` and
    /// was `asked`. After a refusal the bus was switched off again.
    pub open spec fn value_requested(
        &self,
        before: &SI7021<A, I>,
        on: I,
        a: Result<(), (Error, Vec<u8>)>,
        asked: I,
    ) -> bool {
        &&& on.switched(&before.i2c, true)
        &&& asked.read_asked(&on, before.buffer.value->Some_0, 2, a)
        &&& match a {
            Ok(()) => self.i2c == asked && self.buffer.value is None,
            Err((_, b)) => self.i2c.switched(&asked, false) && self.buffer.value == Some(b),
        }
    }

    /// The state that follows the wait for the chip to measure.
    pub open spec fn after_wait(state: State) -> State {
        match state {
            State::WaitRh => State::ReadRhMeasurement,
            State::WaitTemp => State::ReadTempMeasurement,
            s => s,
        }
    }

    /// What the client is told on the completion of a transfer in state
    /// `state` that hands back `buffer`: the measurement that was read, if a
    /// client is registered for its kind.
    pub open spec fn told(&self, state: State, buffer: Seq<u8>) -> Option<Measurement> {
        match state {
            State::GotTempMeasurement => if self.temp_callback {
                Some(Measurement::Temperature(temperature_of(buffer[0], buffer[1]) as i32))
            } else {
                None
            },
            State::GotRhMeasurement => if self.humidity_callback {
                Some(Measurement::Humidity(humidity_of(buffer[0], buffer[1]) as usize))
            } else {
                None
            },
            _ => None,
        }
    }

    /// The buffer of the first half of the serial number made ready for
    /// the request for the second half: the six bytes of the first half are
    /// kept behind the place of the second, the first two of them once more
    /// behind those, and the two bytes of the command stand at the
    /// beginning.
    pub open spec fn kept(b: Seq<u8>) -> Seq<u8> {
        let c = b.update(6, b[0]).update(7, b[1]).update(8, b[2]).update(9, b[3]).update(
            10,
            b[4],
        ).update(11, b[5]);
        c.update(12, c[6]).update(13, c[7]).update(0, READ_ELECTRONIC_ID_BYTE_TWO_A).update(
            1,
            READ_ELECTRONIC_ID_BYTE_TWO_B,
        )
    }

    /// The transfer that follows the completion of one in state `state`,
    /// with the measurement `on_deck` waiting and `buffer` handed back: the
    /// bytes that the buffer holds if it is a write, and none if it is a
    /// read; the number of bytes; and the state in which the driver waits
    /// for it. Nothing, if no transfer follows.
    pub open spec fn next_transfer(state: State, on_deck: OnDeck, buffer: Seq<u8>) -> Option<
        (Option<Seq<u8>>, usize, State),
    > {
        match state {
            State::SelectElectronicId1 => Some((None, 8, State::ReadElectronicId1)),
            State::ReadElectronicId1 => Some(
                (Some(Self::kept(buffer)), 2, State::SelectElectronicId2),
            ),
            State::SelectElectronicId2 => Some((None, 6, State::ReadElectronicId2)),
            State::ReadRhMeasurement => Some((None, 2, State::GotRhMeasurement)),
            State::ReadTempMeasurement => Some((None, 2, State::GotTempMeasurement)),
            State::GotTempMeasurement => if on_deck == OnDeck::Humidity {
                Some(
                    (
                        Some(buffer.update(0, MEAS_RELATIVE_HUMIDITY_NO_HOLD_MODE)),
                        1,
                        State::TakeRhMeasurementInit,
                    ),
                )
            } else {
                None
            },
            State::GotRhMeasurement => if on_deck == OnDeck::Temperature {
                Some(
                    (
                        Some(buffer.update(0, MEAS_TEMPERATURE_NO_HOLD_MODE)),
                        1,
                        State::TakeTempMeasurementInit,
                    ),
                )
            } else {
                None
            },
            _ => None,
        }
    }

    /// The bus of this driver is what the bus `i2c` became by the transfer
    /// that followed a completion which handed back the buffer `held`: it
    /// was asked to write `len` bytes of the buffer `tx`, which holds the
    /// bytes of `write`, or, without such bytes, to read `len` bytes into
    /// the buffer as it came back; it answered `a` and was `asked`.
    /// Accepted, the driver waits in state `next` without its buffer;
    /// refused, the bus was switched off, and the driver is idle with the
    /// buffer that the bus handed back.
    pub open spec fn went_on(
        &self,
        i2c: I,
        held: Vec<u8>,
        write: Option<Seq<u8>>,
        len: usize,
        next: State,
        tx: Vec<u8>,
        a: Result<(), (Error, Vec<u8>)>,
        asked: I,
    ) -> bool {
        &&& match write {
            Some(bytes) => tx@ == bytes && asked.write_asked(&i2c, tx, len, a),
            None => tx == held && asked.read_asked(&i2c, tx, len, a),
        }
        &&& match a {
            Ok(()) => self.i2c == asked && self.state == next && self.buffer.value is None,
            Err((_, b)) => self.i2c.switched(&asked, false) && self.state == State::Idle
                && self.buffer.value == Some(b),
        }
    }

    /// The transfer that followed a completion on `before` was asked of
    /// the bus: see `went_on`. The alarm was not touched.
    pub open spec fn transferred(
        &self,
        before: &SI7021<A, I>,
        buffer: Vec<u8>,
        write: Option<Seq<u8>>,
        len: usize,
        next: State,
    ) -> bool {
        &&& self.alarm == before.alarm
        &&& exists|tx: Vec<u8>, a: Result<(), (Error, Vec<u8>)>, asked: I| #[trigger]
            self.went_on(before.i2c, buffer, write, len, next, tx, a, asked)
    }

    /// Bus and alarm of this driver after the completion of a transfer on
    /// `before` that handed `buffer` back. Where a transfer follows (see
    /// `next_transfer`), the bus was asked for it (see `went_on`) and the
    /// alarm not touched. Where the chip is to measure, the wait for it was
    /// begun (see `waits`). Where the driver becomes idle, the bus was
    /// switched off. A completion that the driver did not wait for touches
    /// neither.
    pub open spec fn followed(&self, before: &SI7021<A, I>, buffer: Vec<u8>) -> bool {
        match Self::next_transfer(before.state, before.on_deck, buffer@) {
            Some((write, len, next)) => self.transferred(before, buffer, write, len, next),
            None => match before.state {
                State::ReadElectronicId2 | State::GotTempMeasurement | State::GotRhMeasurement => {
                    self.alarm == before.alarm && self.i2c.switched(&before.i2c, false)
                },
                State::TakeTempMeasurementInit | State::TakeRhMeasurementInit => self.waits(
                    before,
                ),
                _ => self.alarm == before.alarm && self.i2c == before.i2c,
            },
        }
    }

    /// The bytes of a write, and none for a read.
    pub open spec fn written(write: bool, bytes: Seq<u8>) -> Option<Seq<u8>> {
        if write {
            Some(bytes)
        } else {
            None
        }
    }

    /// Asks the bus for the transfer that follows a completion: see
    /// `went_on`.
    fn go_on(&mut self, buffer: Vec<u8>, write: bool, len: usize, next: State)
        requires
            buffer@.len() >= BUF_LEN,
        ensures
            final(self).wf(),
            final(self).same_clients(old(self)),
            final(self).alarm == old(self).alarm,
            final(self).on_deck == old(self).on_deck,
            final(self).state == next && final(self).buffer.value is None || final(self).state
                == State::Idle && final(self).buffer.value is Some,
            exists|a: Result<(), (Error, Vec<u8>)>, asked: I| #[trigger]
                final(self).went_on(
                    old(self).i2c,
                    buffer,
                    Self::written(write, buffer@),
                    len,
                    next,
                    buffer,
                    a,
                    asked,
                ),
    {
        let answer = if write {
            self.i2c.write(buffer, len)
        } else {
            self.i2c.read(buffer, len)
        };
        let ghost a = answer;
        let ghost asked = self.i2c;
        let _ = self.transfer_answered(answer, next);
        assert(self.went_on(
            old(self).i2c,
            buffer,
            Self::written(write, buffer@),
            len,
            next,
            buffer,
            a,
            asked,
        ));
    }

    /// The bus reports a transfer done and hands `buffer` back.
    ///
    /// Each completion moves the driver one step: from selecting to
    /// reading the two halves of the serial number, of which the first half
    /// is kept in the buffer behind the second; from starting a measurement
    /// to the wait for the chip, with the alarm set; from requesting a value
    /// to reading it. When a value is read the client registered for it is
    /// told (see `told`), and the measurement on deck, if it is of the other
    /// kind, starts at once; else the driver is idle with its buffer. If the
    /// bus refuses a step, the driver is idle with its buffer. A completion
    /// that the driver does not wait for only returns the buffer.
    pub fn command_complete(&mut self, buffer: Vec<u8>, _status: Result<(), Error>) -> (r: Option<
        Measurement,
    >)
        requires
            old(self).wf(),
            buffer@.len() >= BUF_LEN,
        ensures
            final(self).wf(),
            final(self).same_clients(old(self)),
            r == old(self).told(old(self).state, buffer@),
            match old(self).state {
                State::SelectElectronicId1 => final(self).moved(old(self),
                    State::ReadElectronicId1),
                State::ReadElectronicId1 => final(self).moved(old(self),
                    State::SelectElectronicId2),
                State::SelectElectronicId2 => final(self).moved(old(self),
                    State::ReadElectronicId2),
                State::ReadElectronicId2 => final(self).state == State::Idle
                    && final(self).buffer.value == Some(buffer) && final(self).on_deck
                        == old(self).on_deck,
                State::TakeTempMeasurementInit => final(self).state == State::WaitTemp
                    && final(self).buffer.value == Some(buffer) && final(self).on_deck
                        == old(self).on_deck,
                State::TakeRhMeasurementInit => final(self).state == State::WaitRh
                    && final(self).buffer.value == Some(buffer) && final(self).on_deck
                        == old(self).on_deck,
                State::ReadRhMeasurement => final(self).moved(old(self), State::GotRhMeasurement),
                State::ReadTempMeasurement => final(self).moved(old(self),
                    State::GotTempMeasurement),
                State::GotTempMeasurement => if old(self).on_deck == OnDeck::Humidity {
                    final(self).on_deck == OnDeck::Nothing && (final(self).state
                        == State::TakeRhMeasurementInit && final(self).buffer.value is None
                        || final(self).state == State::Idle && final(self).buffer.value is Some)
                } else {
                    final(self).on_deck == old(self).on_deck && final(self).state == State::Idle
                        && final(self).buffer.value == Some(buffer)
                },
                State::GotRhMeasurement => if old(self).on_deck == OnDeck::Temperature {
                    final(self).on_deck == OnDeck::Nothing && (final(self).state
                        == State::TakeTempMeasurementInit && final(self).buffer.value is None
                        || final(self).state == State::Idle && final(self).buffer.value is Some)
                } else {
                    final(self).on_deck == old(self).on_deck && final(self).state == State::Idle
                        && final(self).buffer.value == Some(buffer)
                },
                _ => final(self).state == old(self).state && final(self).on_deck
                    == old(self).on_deck && final(self).buffer.value == Some(buffer)
                        && final(self).i2c == old(self).i2c && final(self).alarm == old(self).alarm,
            },
            final(self).followed(old(self), buffer),
    {
        let ghost given = buffer;
        let mut buffer = buffer;
        match self.state {
            State::SelectElectronicId1 => {
                self.go_on(buffer, false, 8, State::ReadElectronicId1);
                proof {
                    let (a, asked) = choose|a: Result<(), (Error, Vec<u8>)>, asked: I| #[trigger]
                        self.went_on(
                            old(self).i2c,
                            buffer,
                            Self::written(false, buffer@),
                            8,
                            State::ReadElectronicId1,
                            buffer,
                            a,
                            asked,
                        );
                    assert(self.went_on(
                        old(self).i2c,
                        given,
                        None,
                        8,
                        State::ReadElectronicId1,
                        buffer,
                        a,
                        asked,
                    ));
                    assert(self.transferred(old(self), given, None, 8, State::ReadElectronicId1));
                }
                assert(self.followed(old(self), given));
                None
            },
            State::ReadElectronicId1 => {
                buffer[6] = buffer[0];
                buffer[7] = buffer[1];
                buffer[8] = buffer[2];
                buffer[9] = buffer[3];
                buffer[10] = buffer[4];
                buffer[11] = buffer[5];
                buffer[12] = buffer[6];
                buffer[13] = buffer[7];
                buffer[0] = READ_ELECTRONIC_ID_BYTE_TWO_A;
                buffer[1] = READ_ELECTRONIC_ID_BYTE_TWO_B;
                assert(buffer@ =~= Self::kept(given@));
                self.go_on(buffer, true, 2, State::SelectElectronicId2);
                proof {
                    let (a, asked) = choose|a: Result<(), (Error, Vec<u8>)>, asked: I| #[trigger]
                        self.went_on(
                            old(self).i2c,
                            buffer,
                            Self::written(true, buffer@),
                            2,
                            State::SelectElectronicId2,
                            buffer,
                            a,
                            asked,
                        );
                    assert(self.went_on(
                        old(self).i2c,
                        given,
                        Some(Self::kept(given@)),
                        2,
                        State::SelectElectronicId2,
                        buffer,
                        a,
                        asked,
                    ));
                    assert(self.transferred(
                        old(self),
                        given,
                        Some(Self::kept(given@)),
                        2,
                        State::SelectElectronicId2,
                    ));
                }
                assert(self.followed(old(self), given));
                None
            },
            State::SelectElectronicId2 => {
                self.go_on(buffer, false, 6, State::ReadElectronicId2);
                proof {
                    let (a, asked) = choose|a: Result<(), (Error, Vec<u8>)>, asked: I| #[trigger]
                        self.went_on(
                            old(self).i2c,
                            buffer,
                            Self::written(false, buffer@),
                            6,
                            State::ReadElectronicId2,
                            buffer,
                            a,
                            asked,
                        );
                    assert(self.went_on(
                        old(self).i2c,
                        given,
                        None,
                        6,
                        State::ReadElectronicId2,
                        buffer,
                        a,
                        asked,
                    ));
                    assert(self.transferred(old(self), given, None, 6, State::ReadElectronicId2));
                }
                assert(self.followed(old(self), given));
                None
            },
            State::ReadElectronicId2 => {
                self.set_idle(buffer);
                assert(self.followed(old(self), given));
                None
            },
            State::TakeTempMeasurementInit => {
                self.init_measurement(buffer);
                self.state = State::WaitTemp;
                assert(self.followed(old(self), given));
                None
            },
            State::TakeRhMeasurementInit => {
                self.init_measurement(buffer);
                self.state = State::WaitRh;
                assert(self.followed(old(self), given));
                None
            },
            State::ReadRhMeasurement => {
                self.go_on(buffer, false, 2, State::GotRhMeasurement);
                proof {
                    let (a, asked) = choose|a: Result<(), (Error, Vec<u8>)>, asked: I| #[trigger]
                        self.went_on(
                            old(self).i2c,
                            buffer,
                            Self::written(false, buffer@),
                            2,
                            State::GotRhMeasurement,
                            buffer,
                            a,
                            asked,
                        );
                    assert(self.went_on(
                        old(self).i2c,
                        given,
                        None,
                        2,
                        State::GotRhMeasurement,
                        buffer,
                        a,
                        asked,
                    ));
                    assert(self.transferred(old(self), given, None, 2, State::GotRhMeasurement));
                }
                assert(self.followed(old(self), given));
                None
            },
            State::ReadTempMeasurement => {
                self.go_on(buffer, false, 2, State::GotTempMeasurement);
                proof {
                    let (a, asked) = choose|a: Result<(), (Error, Vec<u8>)>, asked: I| #[trigger]
                        self.went_on(
                            old(self).i2c,
                            buffer,
                            Self::written(false, buffer@),
                            2,
                            State::GotTempMeasurement,
                            buffer,
                            a,
                            asked,
                        );
                    assert(self.went_on(
                        old(self).i2c,
                        given,
                        None,
                        2,
                        State::GotTempMeasurement,
                        buffer,
                        a,
                        asked,
                    ));
                    assert(self.transferred(old(self), given, None, 2, State::GotTempMeasurement));
                }
                assert(self.followed(old(self), given));
                None
            },
            State::GotTempMeasurement => {
                let temp = temperature(buffer[0], buffer[1]);
                let event = if self.temp_callback {
                    Some(Measurement::Temperature(temp))
                } else {
                    None
                };
                match self.on_deck {
                    OnDeck::Humidity => {
                        self.on_deck = OnDeck::Nothing;
                        buffer[0] = MEAS_RELATIVE_HUMIDITY_NO_HOLD_MODE;
                        assert(buffer@ =~= given@.update(0, MEAS_RELATIVE_HUMIDITY_NO_HOLD_MODE));
                        self.go_on(buffer, true, 1, State::TakeRhMeasurementInit);
                        proof {
                            let (a, asked) = choose|a: Result<(), (Error, Vec<u8>)>, asked: I|
                             #[trigger] self.went_on(
                                old(self).i2c,
                                buffer,
                                Self::written(true, buffer@),
                                1,
                                State::TakeRhMeasurementInit,
                                buffer,
                                a,
                                asked,
                            );
                            assert(self.went_on(
                                old(self).i2c,
                                given,
                                Some(given@.update(0, MEAS_RELATIVE_HUMIDITY_NO_HOLD_MODE)),
                                1,
                                State::TakeRhMeasurementInit,
                                buffer,
                                a,
                                asked,
                            ));
                            assert(self.transferred(
                                old(self),
                                given,
                                Some(given@.update(0, MEAS_RELATIVE_HUMIDITY_NO_HOLD_MODE)),
                                1,
                                State::TakeRhMeasurementInit,
                            ));
                        }
                    },
                    _ => {
                        self.set_idle(buffer);
                    },
                }
                assert(self.followed(old(self), given));
                event
            },
            State::GotRhMeasurement => {
                let value = humidity(buffer[0], buffer[1]);
                let event = if self.humidity_callback {
                    Some(Measurement::Humidity(value))
                } else {
                    None
                };
                match self.on_deck {
                    OnDeck::Temperature => {
                        self.on_deck = OnDeck::Nothing;
                        buffer[0] = MEAS_TEMPERATURE_NO_HOLD_MODE;
                        assert(buffer@ =~= given@.update(0, MEAS_TEMPERATURE_NO_HOLD_MODE));
                        self.go_on(buffer, true, 1, State::TakeTempMeasurementInit);
                        proof {
                            let (a, asked) = choose|a: Result<(), (Error, Vec<u8>)>, asked: I|
                             #[trigger] self.went_on(
                                old(self).i2c,
                                buffer,
                                Self::written(true, buffer@),
                                1,
                                State::TakeTempMeasurementInit,
                                buffer,
                                a,
                                asked,
                            );
                            assert(self.went_on(
                                old(self).i2c,
                                given,
                                Some(given@.update(0, MEAS_TEMPERATURE_NO_HOLD_MODE)),
                                1,
                                State::TakeTempMeasurementInit,
                                buffer,
                                a,
                                asked,
                            ));
                            assert(self.transferred(
                                old(self),
                                given,
                                Some(given@.update(0, MEAS_TEMPERATURE_NO_HOLD_MODE)),
                                1,
                                State::TakeTempMeasurementInit,
                            ));
                        }
                    },
                    _ => {
                        self.set_idle(buffer);
                    },
                }
                assert(self.followed(old(self), given));
                event
            },
            _ => {
                self.buffer.put(Some(buffer));
                assert(self.followed(old(self), given));
                None
            },
        }
    }
}

impl<A: Alarm, I: I2CDevice> TemperatureDriver for SI7021<A, I> {
    open spec fn ready(&self) -> bool {
        self.wf()
    }

    /// Requests the temperature: see `measure_temperature`.
    fn read_temperature(&mut self) -> (r: Result<(), ErrorCode>)
        ensures
            final(self).temperature_requested(old(self), r),
    {
        self.measure_temperature()
    }
}

impl<A: Alarm, I: I2CDevice> HumidityDriver for SI7021<A, I> {
    open spec fn ready(&self) -> bool {
        self.wf()
    }

    /// A request for a measurement is a request for the relative
    /// humidity: see `humidity_requested`.
    open spec fn humidity_asked(&self, before: &Self, r: Result<(), ErrorCode>) -> bool {
        self.humidity_requested(before, r)
    }

    /// Requests the relative humidity: see `measure_humidity`.
    fn read_humidity(&mut self) -> (r: Result<(), ErrorCode>)
        ensures
            final(self).humidity_requested(old(self), r),
    {
        self.measure_humidity()
    }
}

} // verus!
