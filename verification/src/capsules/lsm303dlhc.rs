//! Driver of an accelerometer and magnetometer on a two-wire bus, for
//! processes and for clients in the kernel.
//!
//! The chip answers at two addresses, one for each of its halves. One
//! process at a time owns the driver. Each request is one transfer; when
//! it completes, the owner is notified and a reading is reported to the
//! client registered for it. A configuration is a chain of four requests,
//! each started by the completion of the one before.

use vstd::prelude::*;
use crate::kernel::cells::TakeCell;
use crate::kernel::errorcode::ErrorCode;
use crate::kernel::grant::{Grant, GrantData};
use crate::kernel::hil::i2c::{Error, I2CDevice};
use crate::kernel::hil::sensors::{NineDof, TemperatureDriver};
use crate::kernel::math::{
    as_word,
    bit,
    divide,
    floor_divide,
    floor_quotient,
    quotient,
    signed16,
    to_signed16,
    usize_from,
    word_of,
};
use crate::kernel::process::ProcessId;
use crate::kernel::syscall::CommandReturn;
use crate::capsules::lsm303xx::{
    encode_ctrl_reg1,
    encode_ctrl_reg4,
    Lsm303AccelDataRate,
    Lsm303MagnetoDataRate,
    Lsm303Range,
    Lsm303Scale,
    ACCEL_CTRL_REG1,
    ACCEL_CTRL_REG4,
    ACCEL_OUT_X_L_A,
};

verus! {

/// The bit that lets the chip step through its registers.
pub const REGISTER_AUTO_INCREMENT: u8 = 0x80;

/// The first configuration register of the magnetometer.
pub const CRA_REG_M: u8 = 0x00;

/// The second configuration register of the magnetometer.
pub const CRB_REG_M: u8 = 0x01;

/// The first of the six registers of the magnetic field.
pub const OUT_X_H_M: u8 = 0x03;

/// The first of the two registers of the temperature.
pub const TEMP_OUT_H_M: u8 = 0x31;

/// What is added to the chip's temperature to get degrees centigrade.
pub const TEMP_OFFSET: i32 = 17;

/// The byte by which the chip is recognised.
pub const PRESENT: u8 = 60;

/// The fewest bytes that the buffer must hold: the longest transfer.
pub const MIN_LEN: usize = 6;

/// What the driver waits for.
#[derive(Clone, Copy, Debug, PartialEq, Eq, Structural)]
pub enum State {
    Idle,
    IsPresent,
    SetPowerMode,
    SetScaleAndResolution,
    ReadAccelerationXYZ,
    SetTemperatureDataRate,
    SetRange,
    ReadTemperature,
    ReadMagnetometerXYZ,
}

/// The record of a process; the driver keeps nothing in it.
#[derive(Clone, Copy, Debug, PartialEq, Eq, Structural)]
pub struct App {}

impl GrantData for App {
    open spec fn initial() -> App {
        App {  }
    }

    fn fresh() -> App {
        App {  }
    }
}

/// What the clients in the kernel are told after a reading.
#[derive(Clone, Copy, Debug)]
pub struct Readings {
    /// The acceleration or the magnetic field along the three axes.
    pub nine_dof: Option<(usize, usize, usize)>,
    /// The temperature in degrees centigrade, or why it could not be read.
    pub temperature: Option<Result<i32, ErrorCode>>,
}

/// The acceleration in thousandths of the acceleration of gravity that
/// the raw value stands for at the range `scale`, as a machine word.
pub open spec fn acceleration(lo: u8, hi: u8, scale: Lsm303Scale) -> usize {
    as_word(quotient(signed16(lo, hi) * scale.factor() * 1000, 32768))
}

/// Computes the acceleration that the raw value stands for.
pub fn scale_acceleration(lo: u8, hi: u8, scale: Lsm303Scale) -> (r: usize)
    ensures
        r == acceleration(lo, hi, scale),
{
    let v = to_signed16(lo, hi);
    let f = scale.scale_factor();
    assert(-32768 * 16 * 1000 <= v * f * 1000 <= 32768 * 16 * 1000) by (nonlinear_arith)
        requires
            -32768 <= v <= 32767,
            2 <= f <= 16,
    ;
    assert(-32768 * 16 <= v * f <= 32768 * 16) by (nonlinear_arith)
        requires
            -32768 <= v <= 32767,
            2 <= f <= 16,
    ;
    word_of(divide(v * f * 1000, 32768))
}

/// The magnetic field in hundredths of a gauss that the raw value stands
/// for at `factor` digits per gauss, as a machine word.
pub open spec fn field(lo: u8, hi: u8, factor: int) -> usize {
    as_word(quotient(signed16(lo, hi) * 100, factor))
}

/// Computes the magnetic field that the raw value stands for.
pub fn scale_field(lo: u8, hi: u8, factor: i32) -> (r: usize)
    requires
        factor > 0,
    ensures
        r == field(lo, hi, factor as int),
{
    let v = to_signed16(lo, hi);
    word_of(divide(v * 100, factor))
}

/// The temperature in degrees centigrade that the raw value stands for:
/// twelve bits, in eighths of a degree, above an offset.
pub open spec fn celsius(lo: u8, hi: u8) -> int {
    quotient(floor_quotient(signed16(lo, hi), 16), 8) + TEMP_OFFSET
}

/// Computes the temperature that the raw value stands for.
pub fn temperature(lo: u8, hi: u8) -> (r: i32)
    ensures
        r == celsius(lo, hi),
        -300 <= r <= 300,
{
    let v = to_signed16(lo, hi);
    let twelve = floor_divide(v, 16);
    assert(-2048 <= twelve <= 2047);
    let degrees = divide(twelve, 8);
    assert(-256 <= degrees <= 256);
    degrees + TEMP_OFFSET
}

/// The value of the magnetometer's first control register: the rate from
/// bit 2, the temperature sensor in bit 7.
pub open spec fn cra_reg(temperature: bool, data_rate: Lsm303MagnetoDataRate) -> u8 {
    ((data_rate.number() << 2) | (if temperature {
        0x80u8
    } else {
        0x00u8
    })) as u8
}

/// The driver of the chip.
pub struct Lsm303dlhcI2C<I: I2CDevice> {
    pub config_in_progress: bool,
    pub i2c_accelerometer: I,
    pub i2c_magnetometer: I,
    pub state: State,
    pub accel_scale: Lsm303Scale,
    pub mag_range: Lsm303Range,
    pub accel_high_resolution: bool,
    pub mag_data_rate: Lsm303MagnetoDataRate,
    pub accel_data_rate: Lsm303AccelDataRate,
    pub low_power: bool,
    pub temperature: bool,
    pub buffer: TakeCell<Vec<u8>>,
    /// Whether a client is registered for motion.
    pub nine_dof_client: bool,
    /// Whether a client is registered for temperatures.
    pub temperature_client: bool,
    pub current_process: Option<ProcessId>,
    pub apps: Grant<App>,
}

impl<I: I2CDevice> Lsm303dlhcI2C<I> {
    /// The records fit the driver, and the buffer, while it is with the
    /// driver, holds the longest transfer.
    pub open spec fn wf(&self) -> bool {
        &&& self.apps.wf()
        &&& self.apps.upcall_count >= 1
        &&& (self.buffer.value matches Some(b) ==> b@.len() >= MIN_LEN)
    }

    /// Owner, records and clients are those of `other`.
    pub open spec fn same_users(&self, other: &Lsm303dlhcI2C<I>) -> bool {
        &&& self.current_process == other.current_process
        &&& self.apps == other.apps
        &&& self.nine_dof_client == other.nine_dof_client
        &&& self.temperature_client == other.temperature_client
    }

    /// The clients and the owner are those of `other`.
    pub open spec fn same_clients(&self, other: &Lsm303dlhcI2C<I>) -> bool {
        &&& self.current_process == other.current_process
        &&& self.nine_dof_client == other.nine_dof_client
        &&& self.temperature_client == other.temperature_client
    }

    /// The settings are those of `other`.
    pub open spec fn same_settings(&self, other: &Lsm303dlhcI2C<I>) -> bool {
        &&& self.accel_scale == other.accel_scale
        &&& self.mag_range == other.mag_range
        &&& self.accel_high_resolution == other.accel_high_resolution
        &&& self.mag_data_rate == other.mag_data_rate
        &&& self.accel_data_rate == other.accel_data_rate
        &&& self.low_power == other.low_power
        &&& self.temperature == other.temperature
    }

    /// Creates the driver of the chip whose halves are behind
    /// `i2c_accelerometer` and `i2c_magnetometer`.
    pub fn new(i2c_accelerometer: I, i2c_magnetometer: I, buffer: Vec<u8>, grant: Grant<App>) -> (r:
        Lsm303dlhcI2C<I>)
        ensures
            !r.config_in_progress,
            r.i2c_accelerometer == i2c_accelerometer,
            r.i2c_magnetometer == i2c_magnetometer,
            r.state == State::Idle,
            r.accel_scale == Lsm303Scale::Scale2G,
            r.mag_range == Lsm303Range::Range1G,
            !r.accel_high_resolution,
            r.mag_data_rate == Lsm303MagnetoDataRate::DataRate0_75Hz,
            r.accel_data_rate == Lsm303AccelDataRate::DataRate1Hz,
            !r.low_power,
            !r.temperature,
            r.buffer.value == Some(buffer),
            !r.nine_dof_client,
            !r.temperature_client,
            r.current_process is None,
            r.apps == grant,
    {
        Lsm303dlhcI2C {
            config_in_progress: false,
            i2c_accelerometer,
            i2c_magnetometer,
            state: State::Idle,
            accel_scale: Lsm303Scale::Scale2G,
            mag_range: Lsm303Range::Range1G,
            accel_high_resolution: false,
            mag_data_rate: Lsm303MagnetoDataRate::DataRate0_75Hz,
            accel_data_rate: Lsm303AccelDataRate::DataRate1Hz,
            low_power: false,
            temperature: false,
            buffer: TakeCell::new(buffer),
            nine_dof_client: false,
            temperature_client: false,
            current_process: None,
            apps: grant,
        }
    }

    /// Registers the client for motion.
    pub fn set_nine_dof_client(&mut self)
        ensures
            *final(self) == (Lsm303dlhcI2C { nine_dof_client: true, ..*old(self) }),
    {
        self.nine_dof_client = true;
    }

    /// Registers the client for temperatures.
    pub fn set_temperature_client(&mut self)
        ensures
            *final(self) == (Lsm303dlhcI2C { temperature_client: true, ..*old(self) }),
    {
        self.temperature_client = true;
    }

    /// The driver after a request was made on `before` and answered with
    /// `r`. The request is refused with `BUSY` unless the driver is idle,
    /// and with `NOMEM` without the buffer; then neither bus, state nor
    /// buffer has changed. Otherwise the buffer goes to the bus: accepted,
    /// the driver waits in state `next`; refused, the driver is idle with
    /// its buffer and the answer is the bus's reason.
    pub open spec fn started(&self, before: &Lsm303dlhcI2C<I>, next: State, r: Result<
        (),
        ErrorCode,
    >) -> bool {
        &&& self.wf()
        &&& self.same_users(before)
        &&& self.config_in_progress == before.config_in_progress
        &&& (before.state != State::Idle ==> r == Err::<(), ErrorCode>(ErrorCode::BUSY)
            && self.unmoved(before))
        &&& (before.state == State::Idle && before.buffer.value is None ==> r == Err::<
            (),
            ErrorCode,
        >(ErrorCode::NOMEM) && self.unmoved(before))
        &&& (before.state == State::Idle && before.buffer.value is Some ==> if r is Ok {
            self.state == next && self.buffer.value is None
        } else {
            self.state == State::Idle && self.buffer.value is Some
        })
    }

    /// Neither bus, state nor buffer differs from `before`.
    pub open spec fn unmoved(&self, before: &Lsm303dlhcI2C<I>) -> bool {
        &&& self.i2c_accelerometer == before.i2c_accelerometer
        &&& self.i2c_magnetometer == before.i2c_magnetometer
        &&& self.state == before.state
        &&& self.buffer == before.buffer
    }

    /// The buses of this driver are what the buses `acc` and `mag` became
    /// when the half of the chip that `accelerometer` names was handed
    /// `tx`. Its bus was switched on, which made it `on`; then it was asked
    /// to write `write_len` bytes and, if `read_len` is not zero, to read as
    /// many, and answered `a`. The bus of the other half was not touched.
    pub open spec fn handed(
        &self,
        acc: I,
        mag: I,
        accelerometer: bool,
        tx: Vec<u8>,
        write_len: usize,
        read_len: usize,
        on: I,
        a: Result<(), (Error, Vec<u8>)>,
    ) -> bool {
        let before = if accelerometer {
            acc
        } else {
            mag
        };
        let after = if accelerometer {
            self.i2c_accelerometer
        } else {
            self.i2c_magnetometer
        };
        &&& if accelerometer {
            self.i2c_magnetometer == mag
        } else {
            self.i2c_accelerometer == acc
        }
        &&& on.switched(&before, true)
        &&& if read_len == 0 {
            after.write_asked(&on, tx, write_len, a)
        } else {
            after.write_read_asked(&on, tx, write_len, read_len, a)
        }
    }

    /// The buses of this driver are what the buses `acc` and `mag` became
    /// by a request: the buffer `held`, with `b0`, `b1` and `b2` written to
    /// its beginning, was handed to the half of the chip that
    /// `accelerometer` names (see `handed`), and the caller is answered `r`:
    /// the bus's reason, if it refused.
    pub open spec fn asked(
        &self,
        acc: I,
        mag: I,
        held: Vec<u8>,
        accelerometer: bool,
        bytes: (u8, u8, u8),
        write_len: usize,
        read_len: usize,
        r: Result<(), ErrorCode>,
        on: I,
        tx: Vec<u8>,
        a: Result<(), (Error, Vec<u8>)>,
    ) -> bool {
        &&& tx@ == held@.update(0, bytes.0).update(1, bytes.1).update(2, bytes.2)
        &&& self.handed(acc, mag, accelerometer, tx, write_len, read_len, on, a)
        &&& r == (match a {
            Ok(()) => Ok(()),
            Err((e, _)) => Err(e.as_errorcode()),
        })
        &&& self.buffer.value == (match a {
            Ok(()) => None,
            Err((_, b)) => Some(b),
        })
    }

    /// The driver after a request was made on `before` and answered with
    /// `r`: see `started` for the driver and `asked` for what the bus was
    /// asked.
    pub open spec fn sent(
        &self,
        before: &Lsm303dlhcI2C<I>,
        accelerometer: bool,
        bytes: (u8, u8, u8),
        write_len: usize,
        read_len: usize,
        next: State,
        r: Result<(), ErrorCode>,
    ) -> bool {
        &&& self.started(before, next, r)
        &&& before.state == State::Idle && before.buffer.value is Some ==> exists|
            on: I,
            tx: Vec<u8>,
            a: Result<(), (Error, Vec<u8>)>,
        | #[trigger]
            self.asked(
                before.i2c_accelerometer,
                before.i2c_magnetometer,
                before.buffer.value->Some_0,
                accelerometer,
                bytes,
                write_len,
                read_len,
                r,
                on,
                tx,
                a,
            )
    }

    /// Hands `buf` to the half of the chip that `accelerometer` names: for
    /// a write of `write_len` bytes and, if `read_len` is not zero, a read
    /// of as many bytes.
    fn send(&mut self, accelerometer: bool, buf: Vec<u8>, write_len: usize, read_len: usize) -> (r:
        Result<(), (Error, Vec<u8>)>)
        ensures
            exists|on: I| #[trigger]
                final(self).handed(
                    old(self).i2c_accelerometer,
                    old(self).i2c_magnetometer,
                    accelerometer,
                    buf,
                    write_len,
                    read_len,
                    on,
                    r,
                ),
            r matches Err((_, b)) ==> b@.len() == buf@.len(),
            final(self).same_users(old(self)),
            final(self).same_settings(old(self)),
            final(self).config_in_progress == old(self).config_in_progress,
            final(self).state == old(self).state,
            final(self).buffer == old(self).buffer,
    {
        if accelerometer {
            self.i2c_accelerometer.enable();
            let ghost on = self.i2c_accelerometer;
            let r = if read_len == 0 {
                self.i2c_accelerometer.write(buf, write_len)
            } else {
                self.i2c_accelerometer.write_read(buf, write_len, read_len)
            };
            assert(self.handed(
                old(self).i2c_accelerometer,
                old(self).i2c_magnetometer,
                accelerometer,
                buf,
                write_len,
                read_len,
                on,
                r,
            ));
            r
        } else {
            self.i2c_magnetometer.enable();
            let ghost on = self.i2c_magnetometer;
            let r = if read_len == 0 {
                self.i2c_magnetometer.write(buf, write_len)
            } else {
                self.i2c_magnetometer.write_read(buf, write_len, read_len)
            };
            assert(self.handed(
                old(self).i2c_accelerometer,
                old(self).i2c_magnetometer,
                accelerometer,
                buf,
                write_len,
                read_len,
                on,
                r,
            ));
            r
        }
    }

    /// What becomes of a transfer once the bus has answered: accepted, the
    /// driver waits in state `next` for its completion; refused, the buffer
    /// is back with the driver, which is idle, and the bus's reason is
    /// returned.
    pub fn transfer_answered(&mut self, answer: Result<(), (Error, Vec<u8>)>, next: State) -> (r:
        Result<(), ErrorCode>)
        requires
            old(self).wf(),
            old(self).buffer.value is None,
            answer matches Err((_, b)) ==> b@.len() >= MIN_LEN,
        ensures
            final(self).wf(),
            final(self).same_users(old(self)),
            final(self).same_settings(old(self)),
            final(self).config_in_progress == old(self).config_in_progress,
            final(self).i2c_accelerometer == old(self).i2c_accelerometer,
            final(self).i2c_magnetometer == old(self).i2c_magnetometer,
            match answer {
                Ok(()) => r == Ok::<(), ErrorCode>(()) && final(self).state == next
                    && final(self).buffer.value is None,
                Err((e, b)) => r == Err::<(), ErrorCode>(e.as_errorcode()) && final(self).state
                    == State::Idle && final(self).buffer.value == Some(b),
            },
    {
        match answer {
            Ok(()) => {
                self.state = next;
                Ok(())
            },
            Err((error, buf)) => {
                self.state = State::Idle;
                self.buffer.put(Some(buf));
                Err(error.into_errorcode())
            },
        }
    }

    /// Sends the first `write_len` bytes of the buffer, which start with
    /// `b0`, `b1` and `b2`, to the half of the chip that `accelerometer`
    /// names, and reads `read_len` bytes if that is not zero.
    fn transfer(
        &mut self,
        accelerometer: bool,
        b0: u8,
        b1: u8,
        b2: u8,
        write_len: usize,
        read_len: usize,
        next: State,
    ) -> (r: Result<(), ErrorCode>)
        requires
            old(self).wf(),
        ensures
            final(self).sent(old(self), accelerometer, (b0, b1, b2), write_len, read_len, next, r),
            final(self).same_settings(old(self)),
    {
        if self.state != State::Idle {
            return Err(ErrorCode::BUSY);
        }
        match self.buffer.take() {
            None => Err(ErrorCode::NOMEM),
            Some(mut buf) => {
                let ghost held = buf;
                let ghost ready = *self;
                buf[0] = b0;
                buf[1] = b1;
                buf[2] = b2;
                let answer = self.send(accelerometer, buf, write_len, read_len);
                let ghost a = answer;
                let ghost called = *self;
                let r = self.transfer_answered(answer, next);
                proof {
                    let on = choose|on: I| #[trigger]
                        called.handed(
                            ready.i2c_accelerometer,
                            ready.i2c_magnetometer,
                            accelerometer,
                            buf,
                            write_len,
                            read_len,
                            on,
                            a,
                        );
                    assert(buf@ =~= held@.update(0, b0).update(1, b1).update(2, b2));
                    assert(self.handed(
                        old(self).i2c_accelerometer,
                        old(self).i2c_magnetometer,
                        accelerometer,
                        buf,
                        write_len,
                        read_len,
                        on,
                        a,
                    ));
                    assert(self.asked(
                        old(self).i2c_accelerometer,
                        old(self).i2c_magnetometer,
                        held,
                        accelerometer,
                        (b0, b1, b2),
                        write_len,
                        read_len,
                        r,
                        on,
                        buf,
                        a,
                    ));
                }
                r
            },
        }
    }

    /// Sets the chip up with all of the given settings, one request after
    /// the other, starting with the power mode of the accelerometer. The
    /// settings are recorded only if the driver is idle.
    pub fn configure(
        &mut self,
        accel_data_rate: Lsm303AccelDataRate,
        low_power: bool,
        accel_scale: Lsm303Scale,
        accel_high_resolution: bool,
        temperature: bool,
        mag_data_rate: Lsm303MagnetoDataRate,
        mag_range: Lsm303Range,
    ) -> (r: Result<(), ErrorCode>)
        requires
            old(self).wf(),
        ensures
            final(self).wf(),
            final(self).same_users(old(self)),
            old(self).state != State::Idle ==> r == Err::<(), ErrorCode>(ErrorCode::BUSY)
                && *final(self) == *old(self),
            old(self).state == State::Idle ==> {
                &&& final(self).accel_scale == accel_scale
                &&& final(self).accel_high_resolution == accel_high_resolution
                &&& final(self).temperature == temperature
                &&& final(self).mag_data_rate == mag_data_rate
                &&& final(self).mag_range == mag_range
                &&& final(self).accel_data_rate == accel_data_rate
                &&& final(self).low_power == low_power
                &&& final(self).config_in_progress == r.is_ok()
                &&& old(self).buffer.value is None ==> r == Err::<(), ErrorCode>(ErrorCode::NOMEM)
                &&& old(self).buffer.value is Some ==> if r is Ok {
                    final(self).state == State::SetPowerMode && final(self).buffer.value is None
                } else {
                    final(self).state == State::Idle && final(self).buffer.value is Some
                }
            },
    {
        if self.state == State::Idle {
            self.config_in_progress = true;
            self.accel_scale = accel_scale;
            self.accel_high_resolution = accel_high_resolution;
            self.temperature = temperature;
            self.mag_data_rate = mag_data_rate;
            self.mag_range = mag_range;
            self.accel_data_rate = accel_data_rate;
            self.low_power = low_power;
            let r = self.set_power_mode(accel_data_rate, low_power);
            if r.is_err() {
                self.config_in_progress = false;
            }
            r
        } else {
            Err(ErrorCode::BUSY)
        }
    }

    /// Asks whether the chip is there.
    pub fn is_present(&mut self) -> (r: Result<(), ErrorCode>)
        requires
            old(self).wf(),
        ensures
            final(self).sent(
                old(self),
                false,
                (0x0F, 0, 0),
                1,
                1,
                State::IsPresent,
                r,
            ),
            final(self).same_settings(old(self)),
    {
        self.transfer(false, 0x0F, 0, 0, 1, 1, State::IsPresent)
    }

    /// Sets rate and power mode of the accelerometer.
    pub fn set_power_mode(&mut self, data_rate: Lsm303AccelDataRate, low_power: bool) -> (r:
        Result<(), ErrorCode>)
        requires
            old(self).wf(),
        ensures
            final(self).sent(
                old(self),
                true,
                (
                    ACCEL_CTRL_REG1,
                    crate::capsules::lsm303xx::ctrl_reg1(data_rate, low_power),
                    0,
                ),
                2,
                0,
                State::SetPowerMode,
                r,
            ),
            final(self).same_settings(old(self)),
    {
        self.transfer(
            true,
            ACCEL_CTRL_REG1,
            encode_ctrl_reg1(data_rate, low_power),
            0,
            2,
            0,
            State::SetPowerMode,
        )
    }

    /// Sets range and resolution of the accelerometer; they are recorded
    /// if the driver is idle.
    pub fn set_scale_and_resolution(&mut self, scale: Lsm303Scale, high_resolution: bool) -> (r:
        Result<(), ErrorCode>)
        requires
            old(self).wf(),
        ensures
            final(self).sent(
                old(self),
                true,
                (
                    ACCEL_CTRL_REG4,
                    crate::capsules::lsm303xx::ctrl_reg4(scale, high_resolution),
                    0,
                ),
                2,
                0,
                State::SetScaleAndResolution,
                r,
            ),
            old(self).state != State::Idle ==> final(self).same_settings(old(self)),
            old(self).state == State::Idle ==> final(self).same_settings(
                &(Lsm303dlhcI2C {
                    accel_scale: scale,
                    accel_high_resolution: high_resolution,
                    ..*old(self)
                }),
            ),
    {
        if self.state == State::Idle {
            self.accel_scale = scale;
            self.accel_high_resolution = high_resolution;
        }
        self.transfer(
            true,
            ACCEL_CTRL_REG4,
            encode_ctrl_reg4(scale, high_resolution),
            0,
            2,
            0,
            State::SetScaleAndResolution,
        )
    }

    /// Requests the acceleration along the three axes.
    pub fn read_acceleration_xyz(&mut self) -> (r: Result<(), ErrorCode>)
        requires
            old(self).wf(),
        ensures
            final(self).sent(
                old(self),
                true,
                (ACCEL_OUT_X_L_A | REGISTER_AUTO_INCREMENT, 0, 0),
                1,
                6,
                State::ReadAccelerationXYZ,
                r,
            ),
            final(self).same_settings(old(self)),
    {
        self.transfer(
            true,
            ACCEL_OUT_X_L_A | REGISTER_AUTO_INCREMENT,
            0,
            0,
            1,
            6,
            State::ReadAccelerationXYZ,
        )
    }

    /// Switches the temperature sensor on or off and sets the rate of the
    /// magnetometer.
    pub fn set_temperature_and_magneto_data_rate(
        &mut self,
        temperature: bool,
        data_rate: Lsm303MagnetoDataRate,
    ) -> (r: Result<(), ErrorCode>)
        requires
            old(self).wf(),
        ensures
            final(self).sent(
                old(self),
                false,
                (CRA_REG_M, cra_reg(temperature, data_rate), 0),
                2,
                0,
                State::SetTemperatureDataRate,
                r,
            ),
            final(self).same_settings(old(self)),
    {
        let value = (data_rate.into_u8() << 2) | (if temperature {
            0x80u8
        } else {
            0x00u8
        });
        self.transfer(false, CRA_REG_M, value, 0, 2, 0, State::SetTemperatureDataRate)
    }

    /// Sets the range of the magnetometer; it is recorded if the driver is
    /// idle.
    pub fn set_range(&mut self, range: Lsm303Range) -> (r: Result<(), ErrorCode>)
        requires
            old(self).wf(),
        ensures
            final(self).sent(
                old(self),
                false,
                (CRB_REG_M, range.number() << 5, 0),
                3,
                0,
                State::SetRange,
                r,
            ),
            old(self).state != State::Idle ==> final(self).same_settings(old(self)),
            old(self).state == State::Idle ==> final(self).same_settings(
                &(Lsm303dlhcI2C { mag_range: range, ..*old(self) }),
            ),
    {
        if self.state == State::Idle {
            self.mag_range = range;
        }
        self.transfer(false, CRB_REG_M, range.into_u8() << 5, 0, 3, 0, State::SetRange)
    }

    /// Requests the temperature.
    pub fn read_temperature(&mut self) -> (r: Result<(), ErrorCode>)
        requires
            old(self).wf(),
        ensures
            final(self).sent(
                old(self),
                false,
                (TEMP_OUT_H_M, 0, 0),
                1,
                2,
                State::ReadTemperature,
                r,
            ),
            final(self).same_settings(old(self)),
    {
        self.transfer(false, TEMP_OUT_H_M, 0, 0, 1, 2, State::ReadTemperature)
    }

    /// Requests the magnetic field along the three axes.
    pub fn read_magnetometer_xyz(&mut self) -> (r: Result<(), ErrorCode>)
        requires
            old(self).wf(),
        ensures
            final(self).sent(
                old(self),
                false,
                (OUT_X_H_M, 0, 0),
                1,
                6,
                State::ReadMagnetometerXYZ,
                r,
            ),
            final(self).same_settings(old(self)),
    {
        self.transfer(false, OUT_X_H_M, 0, 0, 1, 6, State::ReadMagnetometerXYZ)
    }

    /// The words by which the owner is told of a completion in state
    /// `state`: whether the chip is there; whether a setting was made; the
    /// raw values of the three axes; the temperature; zeros after a failed
    /// reading.
    pub open spec fn words(state: State, buffer: Seq<u8>, status: Result<(), Error>) -> (
        usize,
        usize,
        usize,
    ) {
        match state {
            State::IsPresent => (bit(status is Ok && buffer[0] == PRESENT), 0, 0),
            State::SetPowerMode | State::SetScaleAndResolution | State::SetTemperatureDataRate
            | State::SetRange => (bit(status is Ok), 0, 0),
            State::ReadAccelerationXYZ => if status is Ok {
                (
                    as_word(signed16(buffer[0], buffer[1])),
                    as_word(signed16(buffer[2], buffer[3])),
                    as_word(signed16(buffer[4], buffer[5])),
                )
            } else {
                (0, 0, 0)
            },
            State::ReadMagnetometerXYZ => if status is Ok {
                (
                    as_word(signed16(buffer[1], buffer[0])),
                    as_word(signed16(buffer[5], buffer[4])),
                    as_word(signed16(buffer[3], buffer[2])),
                )
            } else {
                (0, 0, 0)
            },
            State::ReadTemperature => if status is Ok {
                (as_word(celsius(buffer[1], buffer[0])), 0, 0)
            } else {
                (0, 0, 0)
            },
            State::Idle => (0, 0, 0),
        }
    }

    /// What the clients in the kernel are told of a completion in state
    /// `state`, if they are registered: the acceleration or the magnetic
    /// field in the units of `acceleration` and `field`, zeros after a
    /// failed reading; the temperature, or the error of the bus.
    pub open spec fn readings(
        &self,
        state: State,
        buffer: Seq<u8>,
        status: Result<(), Error>,
    ) -> Readings {
        Readings {
            nine_dof: if !self.nine_dof_client {
                None
            } else if state == State::ReadAccelerationXYZ {
                Some(
                    if status is Ok {
                        (
                            acceleration(buffer[0], buffer[1], self.accel_scale),
                            acceleration(buffer[2], buffer[3], self.accel_scale),
                            acceleration(buffer[4], buffer[5], self.accel_scale),
                        )
                    } else {
                        (0, 0, 0)
                    },
                )
            } else if state == State::ReadMagnetometerXYZ {
                Some(
                    if status is Ok {
                        (
                            field(buffer[1], buffer[0], self.mag_range.factor_x_y()),
                            field(buffer[5], buffer[4], self.mag_range.factor_z()),
                            field(buffer[3], buffer[2], self.mag_range.factor_x_y()),
                        )
                    } else {
                        (0, 0, 0)
                    },
                )
            } else {
                None
            },
            temperature: if self.temperature_client && state == State::ReadTemperature {
                Some(
                    match status {
                        Ok(()) => Ok(celsius(buffer[1], buffer[0]) as i32),
                        Err(e) => Err(e.as_errorcode()),
                    },
                )
            } else {
                None
            },
        }
    }

    /// The state that follows `state` in the chain of a configuration.
    pub open spec fn next_step(state: State) -> Option<State> {
        match state {
            State::SetPowerMode => Some(State::SetScaleAndResolution),
            State::SetScaleAndResolution => Some(State::SetTemperatureDataRate),
            State::SetTemperatureDataRate => Some(State::SetRange),
            _ => None,
        }
    }

    /// Decodes what the completion of a transfer in state `state` means:
    /// the words for the owner and the readings for the clients in the
    /// kernel.
    fn decode(&self, state: State, buffer: &Vec<u8>, status: Result<(), Error>) -> (r: (
        (usize, usize, usize),
        Readings,
    ))
        requires
            buffer@.len() >= MIN_LEN,
        ensures
            r.0 == Self::words(state, buffer@, status),
            r.1.nine_dof == self.readings(state, buffer@, status).nine_dof,
            r.1.temperature == self.readings(state, buffer@, status).temperature,
    {
        let mut out = Readings { nine_dof: None, temperature: None };
        let words: (usize, usize, usize) = match state {
            State::IsPresent => (usize_from(status.is_ok() && buffer[0] == PRESENT), 0, 0),
            State::SetPowerMode => (usize_from(status.is_ok()), 0, 0),
            State::SetScaleAndResolution => (usize_from(status.is_ok()), 0, 0),
            State::SetTemperatureDataRate => (usize_from(status.is_ok()), 0, 0),
            State::SetRange => (usize_from(status.is_ok()), 0, 0),
            State::ReadAccelerationXYZ => {
                if status.is_ok() {
                    if self.nine_dof_client {
                        out.nine_dof = Some(
                            (
                                scale_acceleration(buffer[0], buffer[1], self.accel_scale),
                                scale_acceleration(buffer[2], buffer[3], self.accel_scale),
                                scale_acceleration(buffer[4], buffer[5], self.accel_scale),
                            ),
                        );
                    }
                    (
                        word_of(to_signed16(buffer[0], buffer[1])),
                        word_of(to_signed16(buffer[2], buffer[3])),
                        word_of(to_signed16(buffer[4], buffer[5])),
                    )
                } else {
                    if self.nine_dof_client {
                        out.nine_dof = Some((0, 0, 0));
                    }
                    (0, 0, 0)
                }
            },
            State::ReadMagnetometerXYZ => {
                if status.is_ok() {
                    if self.nine_dof_client {
                        let xy = self.mag_range.range_factor_x_y();
                        let zf = self.mag_range.range_factor_z();
                        out.nine_dof = Some(
                            (
                                scale_field(buffer[1], buffer[0], xy),
                                scale_field(buffer[5], buffer[4], zf),
                                scale_field(buffer[3], buffer[2], xy),
                            ),
                        );
                    }
                    (
                        word_of(to_signed16(buffer[1], buffer[0])),
                        word_of(to_signed16(buffer[5], buffer[4])),
                        word_of(to_signed16(buffer[3], buffer[2])),
                    )
                } else {
                    if self.nine_dof_client {
                        out.nine_dof = Some((0, 0, 0));
                    }
                    (0, 0, 0)
                }
            },
            State::ReadTemperature => {
                let values: Result<i32, ErrorCode> = match status {
                    Ok(()) => Ok(temperature(buffer[1], buffer[0])),
                    Err(i2c_error) => Err(i2c_error.into_errorcode()),
                };
                if self.temperature_client {
                    out.temperature = Some(values);
                }
                match values {
                    Ok(temp) => (word_of(temp), 0, 0),
                    Err(_) => (0, 0, 0),
                }
            },
            State::Idle => (0, 0, 0),
        };
        (words, out)
    }

    /// The buses `acc` and `mag` are what `acc_before` and `mag_before`
    /// became when the bus that carried a transfer in state `state` was
    /// switched off: the accelerometer's after a request to the
    /// accelerometer, the magnetometer's after any other; after a transfer
    /// that the driver did not wait for, first the magnetometer's and then
    /// the accelerometer's.
    pub open spec fn buses_off(acc: I, mag: I, acc_before: I, mag_before: I, state: State) -> bool {
        match state {
            State::SetPowerMode | State::SetScaleAndResolution | State::ReadAccelerationXYZ => {
                acc.switched(&acc_before, false) && mag == mag_before
            },
            State::Idle => mag.switched(&mag_before, false) && acc.switched(&acc_before, false),
            _ => mag.switched(&mag_before, false) && acc == acc_before,
        }
    }

    /// The request that follows the one of state `state` in the chain of
    /// a configuration, made of the settings that the driver remembers: the
    /// half of the chip that it goes to, its bytes, the numbers of bytes to
    /// write and to read, and the state in which the driver waits for it.
    pub open spec fn chained_request(&self, state: State) -> Option<
        (bool, (u8, u8, u8), usize, usize, State),
    > {
        match state {
            State::SetPowerMode => Some(
                (
                    true,
                    (
                        ACCEL_CTRL_REG4,
                        crate::capsules::lsm303xx::ctrl_reg4(
                            self.accel_scale,
                            self.accel_high_resolution,
                        ),
                        0,
                    ),
                    2,
                    0,
                    State::SetScaleAndResolution,
                ),
            ),
            State::SetScaleAndResolution => Some(
                (
                    false,
                    (CRA_REG_M, cra_reg(self.temperature, self.mag_data_rate), 0),
                    2,
                    0,
                    State::SetTemperatureDataRate,
                ),
            ),
            State::SetTemperatureDataRate => Some(
                (false, (CRB_REG_M, self.mag_range.number() << 5, 0), 3, 0, State::SetRange),
            ),
            _ => None,
        }
    }

    /// This is the driver `before`, idle with its buffer, after the
    /// configuration went on behind the request of state `state`. If a
    /// configuration is in progress and a request follows in the chain, that
    /// request was made, which led to `mid` and was answered `r` (see
    /// `sent`); the configuration is in progress still if the bus accepted
    /// it. Else nothing was asked of a bus, and the configuration is over
    /// behind the last request of the chain.
    pub open spec fn chained(
        &self,
        before: &Lsm303dlhcI2C<I>,
        state: State,
        mid: Lsm303dlhcI2C<I>,
        r: Result<(), ErrorCode>,
    ) -> bool {
        match before.chained_request(state) {
            Some((half, bytes, write_len, read_len, next)) if before.config_in_progress => {
                &&& mid.sent(before, half, bytes, write_len, read_len, next, r)
                &&& mid.same_settings(before)
                &&& *self == (Lsm303dlhcI2C { config_in_progress: r is Ok, ..mid })
            },
            _ => *self == (Lsm303dlhcI2C {
                config_in_progress: before.config_in_progress && state != State::SetRange,
                ..*before
            }),
        }
    }

    /// Takes the buffer back after a transfer in state `state`, switches
    /// the bus off that carried it (see `buses_off`), and makes the driver
    /// idle.
    fn release(&mut self, state: State, buffer: Vec<u8>)
        ensures
            final(self).same_users(old(self)),
            final(self).same_settings(old(self)),
            final(self).config_in_progress == old(self).config_in_progress,
            final(self).state == State::Idle,
            final(self).buffer.value == Some(buffer),
            Self::buses_off(
                final(self).i2c_accelerometer,
                final(self).i2c_magnetometer,
                old(self).i2c_accelerometer,
                old(self).i2c_magnetometer,
                state,
            ),
    {
        self.buffer.put(Some(buffer));
        match state {
            State::SetPowerMode | State::SetScaleAndResolution | State::ReadAccelerationXYZ => {
                self.i2c_accelerometer.disable();
            },
            State::Idle => {
                self.i2c_magnetometer.disable();
                self.i2c_accelerometer.disable();
            },
            _ => {
                self.i2c_magnetometer.disable();
            },
        }
        self.state = State::Idle;
    }

    /// Goes on with a configuration after its request in state `state` is
    /// complete: the request that follows in the chain starts; the
    /// configuration ends with the last request, or when the bus refuses
    /// one.
    fn chain(&mut self, state: State)
        requires
            old(self).wf(),
            old(self).state == State::Idle,
            old(self).buffer.value is Some,
        ensures
            final(self).wf(),
            final(self).same_users(old(self)),
            final(self).same_settings(old(self)),
            match Self::next_step(state) {
                Some(next) if old(self).config_in_progress => {
                    &&& final(self).state == next && final(self).buffer.value is None
                        && final(self).config_in_progress || final(self).state == State::Idle
                            && final(self).buffer.value is Some && !final(self).config_in_progress
                },
                _ => {
                    &&& final(self).state == State::Idle
                    &&& final(self).buffer == old(self).buffer
                    &&& final(self).i2c_accelerometer == old(self).i2c_accelerometer
                    &&& final(self).i2c_magnetometer == old(self).i2c_magnetometer
                    &&& final(self).config_in_progress == (old(self).config_in_progress && state
                        != State::SetRange)
                },
            },
            exists|mid: Lsm303dlhcI2C<I>, r: Result<(), ErrorCode>| #[trigger]
                final(self).chained(old(self), state, mid, r),
    {
        let ghost mut mid = *self;
        let ghost mut answered: Result<(), ErrorCode> = Ok(());
        if self.config_in_progress {
            let chained = match state {
                State::SetPowerMode => Some(
                    self.set_scale_and_resolution(self.accel_scale, self.accel_high_resolution),
                ),
                State::SetScaleAndResolution => Some(
                    self.set_temperature_and_magneto_data_rate(self.temperature,
                        self.mag_data_rate),
                ),
                State::SetTemperatureDataRate => Some(self.set_range(self.mag_range)),
                State::SetRange => {
                    self.config_in_progress = false;
                    None
                },
                _ => None,
            };
            proof {
                mid = *self;
                if chained is Some {
                    answered = chained->Some_0;
                }
            }
            match chained {
                Some(Err(_)) => {
                    self.config_in_progress = false;
                },
                _ => {},
            }
        }
        assert(self.chained(old(self), state, mid, answered));
    }

    /// The bus reports a transfer done and hands `buffer` back.
    ///
    /// The owner, if it still resolves, is notified of the outcome (see
    /// `words`), and the clients in the kernel are told their readings (see
    /// `readings`); for an owner that is gone no process is told. The buffer
    /// is with the driver again and the driver is idle, unless a
    /// configuration is in progress: then the request that follows in the
    /// chain starts, and the driver waits for it. The configuration ends
    /// with the last of its requests, or when the bus refuses one.
    pub fn command_complete(&mut self, buffer: Vec<u8>, status: Result<(), Error>) -> (r: Readings)
        requires
            old(self).wf(),
            buffer@.len() >= MIN_LEN,
        ensures
            final(self).wf(),
            final(self).same_clients(old(self)),
            final(self).same_settings(old(self)),
            r.nine_dof == old(self).readings(old(self).state, buffer@, status).nine_dof,
            r.temperature == old(self).readings(old(self).state, buffer@, status).temperature,
            old(self).state == State::Idle ==> final(self).apps == old(self).apps,
            old(self).state != State::Idle ==> final(self).apps.told(
                &old(self).apps,
                old(self).current_process,
                0,
                Self::words(old(self).state, buffer@, status),
            ),
            match Self::next_step(old(self).state) {
                Some(next) if old(self).config_in_progress => {
                    &&& final(self).state == next && final(self).buffer.value is None
                        && final(self).config_in_progress || final(self).state == State::Idle
                            && final(self).buffer.value is Some && !final(self).config_in_progress
                },
                _ => {
                    &&& final(self).state == State::Idle
                    &&& final(self).buffer.value == Some(buffer)
                    &&& final(self).config_in_progress == (old(self).config_in_progress
                        && old(self).state != State::SetRange)
                },
            },
            exists|
                released: Lsm303dlhcI2C<I>,
                mid: Lsm303dlhcI2C<I>,
                answer: Result<(), ErrorCode>,
            | #[trigger] final(self).finished(old(self), buffer, released, mid, answer),
    {
        let state = self.state;
        let (words, out) = self.decode(state, &buffer, status);
        if state != State::Idle {
            self.apps.tell(self.current_process, 0, words);
        }
        self.release(state, buffer);
        let ghost released = *self;
        self.chain(state);
        proof {
            let (mid, answer) = choose|mid: Lsm303dlhcI2C<I>, r: Result<(), ErrorCode>|
             #[trigger] self.chained(&released, state, mid, r);
            assert(self.finished(old(self), buffer, released, mid, answer));
        }
        out
    }

    /// The buses of this driver after the completion of a transfer on
    /// `before` that handed `buffer` back. The bus that carried the transfer
    /// was switched off (see `buses_off`), which left the driver
    /// `released`: idle, with the buffer, and with the settings of
    /// `before`. Then the configuration went on, if one is in progress (see
    /// `chained`).
    pub open spec fn finished(
        &self,
        before: &Lsm303dlhcI2C<I>,
        buffer: Vec<u8>,
        released: Lsm303dlhcI2C<I>,
        mid: Lsm303dlhcI2C<I>,
        answer: Result<(), ErrorCode>,
    ) -> bool {
        &&& Self::buses_off(
            released.i2c_accelerometer,
            released.i2c_magnetometer,
            before.i2c_accelerometer,
            before.i2c_magnetometer,
            before.state,
        )
        &&& released.state == State::Idle
        &&& released.buffer.value == Some(buffer)
        &&& released.same_settings(before)
        &&& released.config_in_progress == before.config_in_progress
        &&& self.chained(&released, before.state, mid, answer)
    }

    /// The state in which the driver waits after the request that the
    /// command `command_num` stands for was accepted.
    pub open spec fn state_for(command_num: usize) -> State {
        if command_num == 1 {
            State::IsPresent
        } else if command_num == 2 {
            State::SetPowerMode
        } else if command_num == 3 {
            State::SetScaleAndResolution
        } else if command_num == 4 {
            State::SetTemperatureDataRate
        } else {
            State::SetRange
        }
    }

    /// The argument `data1` of the command `command_num` names a setting.
    pub open spec fn names_setting(command_num: usize, data1: usize) -> bool {
        if command_num == 2 {
            data1 <= 9
        } else if command_num == 3 {
            data1 <= 3
        } else if command_num == 4 || command_num == 5 {
            data1 <= 7
        } else {
            true
        }
    }

    /// The request that a command makes of the chip: the half of the chip
    /// that it goes to, its bytes, and the numbers of bytes to write and to
    /// read. Command 1 reads the register that identifies the chip; the
    /// others write the setting that `data1` names, with the flag `data2`,
    /// to its register.
    pub open spec fn command_request(command_num: usize, data1: usize, data2: usize) -> (
        bool,
        (u8, u8, u8),
        usize,
        usize,
    ) {
        let flag = data2 != 0;
        if command_num == 1 {
            (false, (0x0F, 0, 0), 1, 1)
        } else if command_num == 2 {
            (
                true,
                (
                    ACCEL_CTRL_REG1,
                    (((data1 as u8) << 4) | (if flag {
                        0x08u8
                    } else {
                        0x00u8
                    }) | 0x07) as u8,
                    0,
                ),
                2,
                0,
            )
        } else if command_num == 3 {
            (
                true,
                (
                    ACCEL_CTRL_REG4,
                    (((data1 as u8) << 4) | (if flag {
                        0x08u8
                    } else {
                        0x00u8
                    })) as u8,
                    0,
                ),
                2,
                0,
            )
        } else if command_num == 4 {
            (
                false,
                (
                    CRA_REG_M,
                    (((data1 as u8) << 2) | (if flag {
                        0x80u8
                    } else {
                        0x00u8
                    })) as u8,
                    0,
                ),
                2,
                0,
            )
        } else {
            (false, (CRB_REG_M, (data1 as u8) << 5, 0), 3, 0)
        }
    }

    /// This is the driver `before` with `process_id` as its owner, whose
    /// record was created if it was not there.
    pub open spec fn adopted(&self, before: &Lsm303dlhcI2C<I>, process_id: ProcessId) -> bool {
        &&& self.apps.entered_by(&before.apps, before.current_process)
        &&& *self == (Lsm303dlhcI2C {
            current_process: Some(process_id),
            apps: self.apps,
            ..*before
        })
    }

    /// The settings that the driver remembers after a command. The
    /// command for the scale, and the one for the range of the magnetometer,
    /// taken from idle (`taken`) with a setting that `data1` names, leave
    /// that setting remembered, the scale with the resolution that `data2`
    /// asks for; every other command leaves the settings as they were in
    /// `before`.
    pub open spec fn settings_after(
        &self,
        before: &Lsm303dlhcI2C<I>,
        taken: bool,
        command_num: usize,
        data1: usize,
        data2: usize,
    ) -> bool {
        if taken && command_num == 3 && data1 <= 3 {
            &&& self.accel_scale.number() == data1
            &&& self.accel_high_resolution == (data2 != 0)
            &&& self.same_settings(
                &(Lsm303dlhcI2C {
                    accel_scale: self.accel_scale,
                    accel_high_resolution: self.accel_high_resolution,
                    ..*before
                }),
            )
        } else if taken && command_num == 5 && data1 <= 7 {
            &&& self.mag_range.number() == data1
            &&& self.same_settings(&(Lsm303dlhcI2C { mag_range: self.mag_range, ..*before }))
        } else {
            self.same_settings(before)
        }
    }

    /// A command of the process `process_id`.
    ///
    /// Command 0 asks whether the driver is there. For every other command
    /// the caller must be one that the driver may serve (see
    /// `Grant::admits`), which makes it the owner; else the command is
    /// refused with `NOMEM`. Commands 1 to 5 ask whether the chip is there
    /// and set the power mode, the scale, the rate of the magnetometer and
    /// its range, to the setting that `data1` names, with the flag `data2`;
    /// they are refused with `BUSY` unless the driver is idle and with
    /// `INVAL` if `data1` names no setting. Every other command is refused
    /// with `NOSUPPORT`.
    pub fn command(
        &mut self,
        command_num: usize,
        data1: usize,
        data2: usize,
        process_id: ProcessId,
    ) -> (r: CommandReturn)
        requires
            old(self).wf(),
        ensures
            final(self).wf(),
            command_num == 0 ==> r == CommandReturn::Success && *final(self) == *old(self),
            command_num != 0 && !old(self).apps.admits(old(self).current_process, process_id) ==> {
                &&& r == CommandReturn::Failure(ErrorCode::NOMEM)
                &&& final(self).unmoved(old(self))
                &&& final(self).current_process == old(self).current_process
            },
            command_num != 0 ==> final(self).settings_after(
                old(self),
                old(self).apps.admits(old(self).current_process, process_id)
                    && old(self).state == State::Idle,
                command_num,
                data1,
                data2,
            ),
            command_num != 0 && old(self).apps.admits(old(self).current_process, process_id) ==> {
                &&& final(self).current_process == Some(process_id)
                &&& final(self).apps.entered_by(&old(self).apps, old(self).current_process)
                &&& command_num > 5 ==> r == CommandReturn::Failure(ErrorCode::NOSUPPORT)
                    && final(self).unmoved(old(self))
                &&& command_num <= 5 && old(self).state != State::Idle ==> r
                    == CommandReturn::Failure(ErrorCode::BUSY) && final(self).unmoved(old(self))
                &&& command_num <= 5 && old(self).state == State::Idle && !Self::names_setting(
                    command_num,
                    data1,
                ) ==> r == CommandReturn::Failure(ErrorCode::INVAL) && final(self).unmoved(
                    old(self),
                )
                &&& command_num <= 5 && old(self).state == State::Idle && Self::names_setting(
                    command_num,
                    data1,
                ) && old(self).buffer.value is None ==> r == CommandReturn::Failure(
                    ErrorCode::NOMEM,
                ) && final(self).unmoved(old(self))
                &&& command_num <= 5 && old(self).state == State::Idle && Self::names_setting(
                    command_num,
                    data1,
                ) && old(self).buffer.value is Some ==> if r.ok() {
                    final(self).buffer.value is None && final(self).state == Self::state_for(
                        command_num,
                    )
                } else {
                    final(self).buffer.value is Some && final(self).state == State::Idle
                }
            },
            1 <= command_num <= 5 && old(self).apps.admits(old(self).current_process, process_id)
                && old(self).state == State::Idle && Self::names_setting(command_num, data1)
                ==> exists|owned: Lsm303dlhcI2C<I>, res: Result<(), ErrorCode>|
                {
                    &&& owned.adopted(old(self), process_id)
                    &&& #[trigger] final(self).sent(
                        &owned,
                        Self::command_request(command_num, data1, data2).0,
                        Self::command_request(command_num, data1, data2).1,
                        Self::command_request(command_num, data1, data2).2,
                        Self::command_request(command_num, data1, data2).3,
                        Self::state_for(command_num),
                        res,
                    )
                    &&& r == CommandReturn::of_result(res)
                },
    {
        if command_num == 0 {
            return CommandReturn::success();
        }
        if self.apps.may_serve(self.current_process, process_id) {
            self.current_process = Some(process_id);
        } else {
            return CommandReturn::failure(ErrorCode::NOMEM);
        }
        let ghost owned = *self;
        if command_num > 5 {
            return CommandReturn::failure(ErrorCode::NOSUPPORT);
        }
        if self.state != State::Idle {
            return CommandReturn::failure(ErrorCode::BUSY);
        }
        let res = self.request(command_num, data1, data2);
        proof {
            if Self::names_setting(command_num, data1) {
                assert(owned.adopted(old(self), process_id));
            }
        }
        CommandReturn::from_result(res)
    }

    /// Makes the request that the command `command_num`, from 1 to 5,
    /// stands for: see `command_request`. A setting that `data1` does not
    /// name is refused with `INVAL`, and nothing changes.
    fn request(&mut self, command_num: usize, data1: usize, data2: usize) -> (res: Result<
        (),
        ErrorCode,
    >)
        requires
            old(self).wf(),
            old(self).state == State::Idle,
            1 <= command_num <= 5,
        ensures
            final(self).wf(),
            final(self).settings_after(old(self), true, command_num, data1, data2),
            !Self::names_setting(command_num, data1) ==> res == Err::<(), ErrorCode>(
                ErrorCode::INVAL,
            ) && *final(self) == *old(self),
            Self::names_setting(command_num, data1) ==> final(self).sent(
                old(self),
                Self::command_request(command_num, data1, data2).0,
                Self::command_request(command_num, data1, data2).1,
                Self::command_request(command_num, data1, data2).2,
                Self::command_request(command_num, data1, data2).3,
                Self::state_for(command_num),
                res,
            ),
    {
        if command_num == 1 {
            self.is_present()
        } else if command_num == 2 {
            match Lsm303AccelDataRate::from_usize(data1) {
                Some(data_rate) => self.set_power_mode(data_rate, data2 != 0),
                None => Err(ErrorCode::INVAL),
            }
        } else if command_num == 3 {
            match Lsm303Scale::from_usize(data1) {
                Some(scale) => self.set_scale_and_resolution(scale, data2 != 0),
                None => Err(ErrorCode::INVAL),
            }
        } else if command_num == 4 {
            match Lsm303MagnetoDataRate::from_usize(data1) {
                Some(data_rate) => self.set_temperature_and_magneto_data_rate(data2 != 0,
                    data_rate),
                None => Err(ErrorCode::INVAL),
            }
        } else {
            match Lsm303Range::from_usize(data1) {
                Some(range) => self.set_range(range),
                None => Err(ErrorCode::INVAL),
            }
        }
    }

    /// Creates the record of `processid` if the process resolves.
    pub fn allocate_grant(&mut self, processid: ProcessId) -> (r: Result<
        (),
        crate::kernel::process::Error,
    >)
        requires
            old(self).wf(),
        ensures
            final(self).wf(),
            r == old(self).apps.lookup(processid),
            final(self).unmoved(old(self)),
            final(self).same_clients(old(self)),
            final(self).same_settings(old(self)),
    {
        match self.apps.enter(processid) {
            Ok(_) => Ok(()),
            Err(e) => Err(e),
        }
    }
}

impl<I: I2CDevice> NineDof for Lsm303dlhcI2C<I> {
    open spec fn ready(&self) -> bool {
        self.wf()
    }

    /// Requests the acceleration: see `read_acceleration_xyz`.
    fn read_accelerometer(&mut self) -> (r: Result<(), ErrorCode>)
        ensures
            final(self).sent(
                old(self),
                true,
                (ACCEL_OUT_X_L_A | REGISTER_AUTO_INCREMENT, 0, 0),
                1,
                6,
                State::ReadAccelerationXYZ,
                r,
            ),
            final(self).same_settings(old(self)),
    {
        self.read_acceleration_xyz()
    }

    /// Requests the magnetic field: see `read_magnetometer_xyz`.
    fn read_magnetometer(&mut self) -> (r: Result<(), ErrorCode>)
        ensures
            final(self).sent(
                old(self),
                false,
                (OUT_X_H_M, 0, 0),
                1,
                6,
                State::ReadMagnetometerXYZ,
                r,
            ),
            final(self).same_settings(old(self)),
    {
        self.read_magnetometer_xyz()
    }

    /// The chip has no gyroscope.
    fn read_gyroscope(&mut self) -> (r: Result<(), ErrorCode>)
        ensures
            r == Err::<(), ErrorCode>(ErrorCode::NODEVICE),
            *final(self) == *old(self),
    {
        Err(ErrorCode::NODEVICE)
    }
}

impl<I: I2CDevice> TemperatureDriver for Lsm303dlhcI2C<I> {
    open spec fn ready(&self) -> bool {
        self.wf()
    }

    /// Requests the temperature: see `Lsm303dlhcI2C::read_temperature`.
    fn read_temperature(&mut self) -> (r: Result<(), ErrorCode>)
        ensures
            final(self).sent(
                old(self),
                false,
                (TEMP_OUT_H_M, 0, 0),
                1,
                2,
                State::ReadTemperature,
                r,
            ),
            final(self).same_settings(old(self)),
    {
        Lsm303dlhcI2C::read_temperature(self)
    }
}

} // verus!
