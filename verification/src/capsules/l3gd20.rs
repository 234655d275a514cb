//! Driver of a gyroscope on a serial peripheral bus, for processes and for
//! clients in the kernel.
//!
//! One process at a time owns the driver. Each request is one transfer on
//! the bus; when it completes, the owner is notified of the outcome, and a
//! reading is reported to the client registered for it as well.

use vstd::prelude::*;
use crate::kernel::cells::TakeCell;
use crate::kernel::errorcode::ErrorCode;
use crate::kernel::grant::{Grant, GrantData};
use crate::kernel::hil::sensors::{NineDof, TemperatureDriver};
use crate::kernel::hil::spi::{ClockPhase, ClockPolarity, SpiMasterDevice};
use crate::kernel::math::{as_word, bit, divide, quotient, signed16, to_signed16, usize_from,
    word_of};
use crate::kernel::process::ProcessId;
use crate::kernel::syscall::CommandReturn;

verus! {

/// The byte by which the chip is recognised.
pub const L3GD20_WHO_AM_I: u8 = 0xD4;

/// The register that identifies the chip.
pub const L3GD20_REG_WHO_AM_I: u8 = 0x0F;

/// The first control register: power and axes.
pub const L3GD20_REG_CTRL_REG1: u8 = 0x20;

/// The second control register: the high-pass filter.
pub const L3GD20_REG_CTRL_REG2: u8 = 0x21;

/// The fourth control register: the scale.
pub const L3GD20_REG_CTRL_REG4: u8 = 0x23;

/// The fifth control register: enables the high-pass filter.
pub const L3GD20_REG_CTRL_REG5: u8 = 0x24;

/// The register of the temperature.
pub const L3GD20_REG_OUT_TEMP: u8 = 0x26;

/// The first of the six registers of the three axes.
pub const L3GD20_REG_OUT_X_L: u8 = 0x28;

/// The length of the buffer for sending.
pub const L3GD20_TX_SIZE: usize = 10;

/// The length of the buffer for receiving.
pub const L3GD20_RX_SIZE: usize = 10;

/// The length that the buffer for sending must have.
pub const TX_BUF_LEN: usize = L3GD20_TX_SIZE;

/// The length that the buffer for receiving must have.
pub const RX_BUF_LEN: usize = L3GD20_RX_SIZE;

/// The fewest bytes that each buffer must hold: the longest transfer.
pub const MIN_LEN: usize = 7;

/// The sensitivity at 250 degrees per second, in hundred-thousandths of a
/// degree per second and digit.
pub const L3GD20_SCALE_250: i32 = 875;

/// The sensitivity at 500 degrees per second.
pub const L3GD20_SCALE_500: i32 = 1750;

/// The sensitivity at 2000 degrees per second.
pub const L3GD20_SCALE_2000: i32 = 7000;

/// What the driver waits for.
#[derive(Clone, Copy, Debug, PartialEq, Eq, Structural)]
pub enum L3gd20Status {
    Idle,
    IsPresent,
    PowerOn,
    EnableHpf,
    SetHpfParameters,
    SetScale,
    ReadXYZ,
    ReadTemperature,
}

/// The record of a process; the driver keeps nothing in it.
#[derive(Clone, Copy, Debug, PartialEq, Eq, Structural)]
pub struct App {}

impl GrantData for App {
    open spec fn initial() -> App {
        App {  }
    }

    fn fresh() -> App {
        App {  }
    }
}

/// What the clients in the kernel are told after a reading.
#[derive(Clone, Copy, Debug)]
pub struct Readings {
    /// The rotation about the three axes, for the client of motion.
    pub nine_dof: Option<(usize, usize, usize)>,
    /// The temperature, for the client of temperatures.
    pub temperature: Option<Result<i32, ErrorCode>>,
}

/// The sensitivity that the setting `scale` selects.
pub open spec fn sensitivity(scale: u8) -> int {
    if scale == 0 {
        L3GD20_SCALE_250 as int
    } else if scale == 1 {
        L3GD20_SCALE_500 as int
    } else {
        L3GD20_SCALE_2000 as int
    }
}

/// The rotation, as a machine word, that the raw value stands for at the
/// setting `scale`.
pub open spec fn scaled(lo: u8, hi: u8, scale: u8) -> usize {
    as_word(quotient(signed16(lo, hi) * sensitivity(scale), 100000))
}

/// Computes the rotation that the raw value stands for at the setting
/// `scale`.
pub fn scale_axis(lo: u8, hi: u8, scale: u8) -> (r: usize)
    ensures
        r == scaled(lo, hi, scale),
{
    let factor: i32 = if scale == 0 {
        L3GD20_SCALE_250
    } else if scale == 1 {
        L3GD20_SCALE_500
    } else {
        L3GD20_SCALE_2000
    };
    let v = to_signed16(lo, hi);
    assert(-32768 * 7000 <= v * factor <= 32768 * 7000) by (nonlinear_arith)
        requires
            -32768 <= v <= 32767,
            0 < factor <= 7000,
    ;
    word_of(divide(v * factor, 100000))
}

/// The raw value of an axis as a machine word.
pub open spec fn raw(lo: u8, hi: u8) -> usize {
    as_word(signed16(lo, hi))
}

/// Encodes the raw value of an axis as a machine word.
pub fn raw_axis(lo: u8, hi: u8) -> (r: usize)
    ensures
        r == raw(lo, hi),
{
    word_of(to_signed16(lo, hi))
}

/// The driver of the gyroscope.
pub struct L3gd20Spi<S: SpiMasterDevice> {
    pub spi: S,
    pub txbuffer: TakeCell<Vec<u8>>,
    pub rxbuffer: TakeCell<Vec<u8>>,
    pub status: L3gd20Status,
    pub hpf_enabled: bool,
    pub hpf_mode: u8,
    pub hpf_divider: u8,
    pub scale: u8,
    pub current_process: Option<ProcessId>,
    pub grants: Grant<App>,
    /// Whether a client is registered for rotations.
    pub nine_dof_client: bool,
    /// Whether a client is registered for temperatures.
    pub temperature_client: bool,
}

impl<S: SpiMasterDevice> L3gd20Spi<S> {
    /// The records fit the driver, and the buffers, while they are with
    /// the driver, hold the longest transfer.
    pub open spec fn wf(&self) -> bool {
        &&& self.grants.wf()
        &&& self.grants.upcall_count >= 1
        &&& (self.txbuffer.value matches Some(b) ==> b@.len() >= MIN_LEN)
        &&& (self.rxbuffer.value matches Some(b) ==> b@.len() >= MIN_LEN)
    }

    /// Everything but the bus, the buffers, the status and the settings is
    /// as in `other`.
    pub open spec fn same_users(&self, other: &L3gd20Spi<S>) -> bool {
        &&& self.current_process == other.current_process
        &&& self.grants == other.grants
        &&& self.nine_dof_client == other.nine_dof_client
        &&& self.temperature_client == other.temperature_client
    }

    /// The settings are those of `other`.
    pub open spec fn same_settings(&self, other: &L3gd20Spi<S>) -> bool {
        &&& self.hpf_enabled == other.hpf_enabled
        &&& self.hpf_mode == other.hpf_mode
        &&& self.hpf_divider == other.hpf_divider
        &&& self.scale == other.scale
    }

    /// Creates the driver of the gyroscope behind `spi`.
    pub fn new(spi: S, txbuffer: Vec<u8>, rxbuffer: Vec<u8>, grants: Grant<App>) -> (r: L3gd20Spi<
        S,
    >)
        ensures
            r.spi == spi,
            r.txbuffer.value == Some(txbuffer),
            r.rxbuffer.value == Some(rxbuffer),
            r.status == L3gd20Status::Idle,
            !r.hpf_enabled,
            r.hpf_mode == 0,
            r.hpf_divider == 0,
            r.scale == 0,
            r.current_process is None,
            r.grants == grants,
            !r.nine_dof_client,
            !r.temperature_client,
    {
        L3gd20Spi {
            spi,
            txbuffer: TakeCell::new(txbuffer),
            rxbuffer: TakeCell::new(rxbuffer),
            status: L3gd20Status::Idle,
            hpf_enabled: false,
            hpf_mode: 0,
            hpf_divider: 0,
            scale: 0,
            current_process: None,
            grants,
            nine_dof_client: false,
            temperature_client: false,
        }
    }

    /// Registers the client for rotations.
    pub fn set_nine_dof_client(&mut self)
        ensures
            *final(self) == (L3gd20Spi { nine_dof_client: true, ..*old(self) }),
    {
        self.nine_dof_client = true;
    }

    /// Registers the client for temperatures.
    pub fn set_temperature_client(&mut self)
        ensures
            *final(self) == (L3gd20Spi { temperature_client: true, ..*old(self) }),
    {
        self.temperature_client = true;
    }

    /// The driver after a request was made on `before` and answered with
    /// `r`. Without the buffer for sending the request is refused with
    /// `NOMEM`. Otherwise the buffer goes to the bus, with the buffer for
    /// receiving if the request reads: accepted, the driver waits in status
    /// `next`; refused, the driver is idle with its buffers and the answer
    /// is the bus's reason.
    pub open spec fn started(&self, before: &L3gd20Spi<S>, next: L3gd20Status, r: Result<
        (),
        ErrorCode,
    >) -> bool {
        &&& self.wf()
        &&& self.same_users(before)
        &&& (before.txbuffer.value is None ==> r == Err::<(), ErrorCode>(ErrorCode::NOMEM)
            && self.spi == before.spi && self.status == before.status && self.txbuffer
            == before.txbuffer && self.rxbuffer == before.rxbuffer)
        &&& (before.txbuffer.value is Some ==> if r is Ok {
            self.status == next && self.txbuffer.value is None
        } else {
            &&& self.status == L3gd20Status::Idle
            &&& self.txbuffer.value is Some
            &&& (self.rxbuffer.value is Some <==> before.rxbuffer.value is Some)
        })
    }

    /// The bytes of the buffer `b` made ready for a request of `len`
    /// bytes: `b0`, `b1`, zeros up to `len`, and behind them what `b` held.
    pub open spec fn request(b: Seq<u8>, b0: u8, b1: u8, len: int) -> Seq<u8> {
        Seq::new(
            b.len(),
            |k: int|
                if k == 0 {
                    b0
                } else if k == 1 {
                    b1
                } else if k < len {
                    0u8
                } else {
                    b[k]
                },
        )
    }

    /// The bus of this driver is what the bus `spi` became when it was
    /// asked for a transfer of `len` bytes with the buffer `tx`, which holds
    /// the request made of `b0` and `b1` in the buffer `held` (see
    /// `request`), and with the buffer for receiving, `rx`, if the request
    /// reads. The bus answered `a`, and the caller is answered `r`: the
    /// bus's reason, if it refused. Accepted, the buffers that went to the
    /// bus are away; refused, the holders hold the buffers that the bus
    /// handed back. The buffer for receiving stays where it is if the
    /// request does not read.
    pub open spec fn asked(
        &self,
        spi: S,
        held: Vec<u8>,
        rx: Option<Vec<u8>>,
        tx: Vec<u8>,
        b0: u8,
        b1: u8,
        len: usize,
        read: bool,
        r: Result<(), ErrorCode>,
        a: Result<(), (ErrorCode, Vec<u8>, Option<Vec<u8>>)>,
    ) -> bool {
        &&& tx@ == Self::request(held@, b0, b1, len as int)
        &&& self.spi.transferred(
            &spi,
            tx,
            if read {
                rx
            } else {
                None
            },
            len,
            a,
        )
        &&& r == (match a {
            Ok(()) => Ok(()),
            Err((e, _, _)) => Err(e),
        })
        &&& match a {
            Ok(()) => self.txbuffer.value is None && self.rxbuffer.value == (if read {
                None
            } else {
                rx
            }),
            Err((_, w, rd)) => self.txbuffer.value == Some(w) && self.rxbuffer.value == (if read {
                rd
            } else {
                rx
            }),
        }
    }

    /// The driver after a request of `len` bytes that begins with `b0`
    /// and `b1`, and reads if `read` is set, was made on `before` and
    /// answered with `r`: see `started` for the driver and `asked` for what
    /// the bus was asked.
    pub open spec fn sent(
        &self,
        before: &L3gd20Spi<S>,
        b0: u8,
        b1: u8,
        len: usize,
        read: bool,
        next: L3gd20Status,
        r: Result<(), ErrorCode>,
    ) -> bool {
        &&& self.started(before, next, r)
        &&& before.txbuffer.value is Some ==> exists|
            tx: Vec<u8>,
            a: Result<(), (ErrorCode, Vec<u8>, Option<Vec<u8>>)>,
        | #[trigger]
            self.asked(
                before.spi,
                before.txbuffer.value->Some_0,
                before.rxbuffer.value,
                tx,
                b0,
                b1,
                len,
                read,
                r,
                a,
            )
    }

    /// What becomes of a transfer once the bus has answered: accepted, the
    /// driver waits in status `next` for its completion; refused, the
    /// buffers are back with the driver, which is idle, and the bus's reason
    /// is returned.
    pub fn transfer_answered(
        &mut self,
        answer: Result<(), (ErrorCode, Vec<u8>, Option<Vec<u8>>)>,
        next: L3gd20Status,
    ) -> (r: Result<(), ErrorCode>)
        requires
            old(self).wf(),
            old(self).txbuffer.value is None,
            answer matches Err((_, tx, rx)) ==> tx@.len() >= MIN_LEN && (rx matches Some(b)
                ==> b@.len() >= MIN_LEN),
        ensures
            final(self).wf(),
            final(self).spi == old(self).spi,
            final(self).same_users(old(self)),
            final(self).same_settings(old(self)),
            match answer {
                Ok(()) => r == Ok::<(), ErrorCode>(()) && final(self).status == next
                    && final(self).txbuffer.value is None && final(self).rxbuffer
                    == old(self).rxbuffer,
                Err((e, tx, rx)) => {
                    &&& r == Err::<(), ErrorCode>(e)
                    &&& final(self).status == L3gd20Status::Idle
                    &&& final(self).txbuffer.value == Some(tx)
                    &&& rx is Some ==> final(self).rxbuffer.value == rx
                    &&& rx is None ==> final(self).rxbuffer == old(self).rxbuffer
                },
            },
    {
        match answer {
            Ok(()) => {
                self.status = next;
                Ok(())
            },
            Err((e, buf, rx)) => {
                self.txbuffer.put(Some(buf));
                match rx {
                    Some(b) => {
                        self.rxbuffer.put(Some(b));
                    },
                    None => {},
                }
                self.status = L3gd20Status::Idle;
                Err(e)
            },
        }
    }

    /// Sends `b0` and `b1`, followed by zeros up to `len` bytes, and reads
    /// as many if `read` is set.
    fn transfer(&mut self, b0: u8, b1: u8, len: usize, read: bool, next: L3gd20Status) -> (r:
        Result<(), ErrorCode>)
        requires
            old(self).wf(),
            2 <= len <= MIN_LEN,
        ensures
            final(self).sent(old(self), b0, b1, len, read, next, r),
            final(self).same_settings(old(self)),
    {
        match self.txbuffer.take() {
            None => Err(ErrorCode::NOMEM),
            Some(mut buf) => {
                let ghost held = buf@;
                buf[0] = b0;
                buf[1] = b1;
                let mut k: usize = 2;
                while k < len
                    invariant
                        2 <= k <= len,
                        len <= MIN_LEN,
                        buf@.len() >= MIN_LEN,
                        buf@ =~= Self::request(held, b0, b1, k as int),
                    decreases len - k,
                {
                    buf[k] = 0x00;
                    k += 1;
                }
                let rx = if read {
                    self.rxbuffer.take()
                } else {
                    None
                };
                let answer = self.spi.read_write_bytes(buf, rx, len);
                let ghost a = answer;
                let r = self.transfer_answered(answer, next);
                assert(buf@ == Self::request(held, b0, b1, len as int));
                assert(self.asked(
                    old(self).spi,
                    old(self).txbuffer.value->Some_0,
                    old(self).rxbuffer.value,
                    buf,
                    b0,
                    b1,
                    len,
                    read,
                    r,
                    a,
                ));
                r
            },
        }
    }

    /// Asks whether the chip is there.
    pub fn is_present(&mut self) -> (r: Result<(), ErrorCode>)
        requires
            old(self).wf(),
        ensures
            final(self).sent(
                old(self),
                L3GD20_REG_WHO_AM_I | 0x80,
                0x00,
                2,
                true,
                L3gd20Status::IsPresent,
                r,
            ),
            final(self).same_settings(old(self)),
    {
        self.transfer(L3GD20_REG_WHO_AM_I | 0x80, 0x00, 2, true, L3gd20Status::IsPresent)
    }

    /// Switches the chip and its three axes on.
    pub fn power_on(&mut self) -> (r: Result<(), ErrorCode>)
        requires
            old(self).wf(),
        ensures
            final(self).sent(
                old(self),
                L3GD20_REG_CTRL_REG1,
                0x0F,
                2,
                false,
                L3gd20Status::PowerOn,
                r,
            ),
            final(self).same_settings(old(self)),
    {
        self.transfer(L3GD20_REG_CTRL_REG1, 0x0F, 2, false, L3gd20Status::PowerOn)
    }

    /// Switches the high-pass filter on or off.
    pub fn enable_hpf(&mut self, enabled: bool) -> (r: Result<(), ErrorCode>)
        requires
            old(self).wf(),
        ensures
            final(self).sent(
                old(self),
                L3GD20_REG_CTRL_REG5,
                if enabled {
                    0x10
                } else {
                    0x00
                },
                2,
                false,
                L3gd20Status::EnableHpf,
                r,
            ),
            final(self).hpf_enabled == enabled,
            final(self).hpf_mode == old(self).hpf_mode,
            final(self).hpf_divider == old(self).hpf_divider,
            final(self).scale == old(self).scale,
    {
        self.hpf_enabled = enabled;
        let value: u8 = if enabled {
            0x10
        } else {
            0x00
        };
        self.transfer(L3GD20_REG_CTRL_REG5, value, 2, false, L3gd20Status::EnableHpf)
    }

    /// Sets mode and cut-off of the high-pass filter.
    pub fn set_hpf_parameters(&mut self, mode: u8, divider: u8) -> (r: Result<(), ErrorCode>)
        requires
            old(self).wf(),
        ensures
            final(self).sent(
                old(self),
                L3GD20_REG_CTRL_REG2,
                (mode & 0x03) << 4 | (divider & 0x0F),
                2,
                false,
                L3gd20Status::SetHpfParameters,
                r,
            ),
            final(self).hpf_mode == mode,
            final(self).hpf_divider == divider,
            final(self).hpf_enabled == old(self).hpf_enabled,
            final(self).scale == old(self).scale,
    {
        self.hpf_mode = mode;
        self.hpf_divider = divider;
        self.transfer(
            L3GD20_REG_CTRL_REG2,
            (mode & 0x03) << 4 | (divider & 0x0F),
            2,
            false,
            L3gd20Status::SetHpfParameters,
        )
    }

    /// Sets the range of the measurement.
    pub fn set_scale(&mut self, scale: u8) -> (r: Result<(), ErrorCode>)
        requires
            old(self).wf(),
        ensures
            final(self).sent(
                old(self),
                L3GD20_REG_CTRL_REG4,
                (scale & 0x03) << 4,
                2,
                false,
                L3gd20Status::SetScale,
                r,
            ),
            final(self).scale == scale,
            final(self).hpf_mode == old(self).hpf_mode,
            final(self).hpf_divider == old(self).hpf_divider,
            final(self).hpf_enabled == old(self).hpf_enabled,
    {
        self.scale = scale;
        self.transfer(L3GD20_REG_CTRL_REG4, (scale & 0x03) << 4, 2, false, L3gd20Status::SetScale)
    }

    /// Requests the rotation about the three axes.
    pub fn read_xyz(&mut self) -> (r: Result<(), ErrorCode>)
        requires
            old(self).wf(),
        ensures
            final(self).sent(
                old(self),
                L3GD20_REG_OUT_X_L | 0x80 | 0x40,
                0x00,
                7,
                true,
                L3gd20Status::ReadXYZ,
                r,
            ),
            final(self).same_settings(old(self)),
    {
        self.transfer(L3GD20_REG_OUT_X_L | 0x80 | 0x40, 0x00, 7, true, L3gd20Status::ReadXYZ)
    }

    /// Requests the temperature.
    pub fn read_temperature(&mut self) -> (r: Result<(), ErrorCode>)
        requires
            old(self).wf(),
        ensures
            final(self).sent(
                old(self),
                L3GD20_REG_OUT_TEMP | 0x80,
                0x00,
                2,
                true,
                L3gd20Status::ReadTemperature,
                r,
            ),
            final(self).same_settings(old(self)),
    {
        self.transfer(L3GD20_REG_OUT_TEMP | 0x80, 0x00, 2, true, L3gd20Status::ReadTemperature)
    }

    /// Sets the bus up for the chip: a clock that idles high, data sampled
    /// on the trailing edge, one million bits a second. The answer is the
    /// bus's.
    pub fn configure(&mut self) -> (r: Result<(), ErrorCode>)
        ensures
            final(self).spi.configured(
                &old(self).spi,
                ClockPolarity::IdleHigh,
                ClockPhase::SampleTrailing,
                1_000_000,
                r,
            ),
            final(self).same_users(old(self)),
            final(self).same_settings(old(self)),
            final(self).status == old(self).status,
            final(self).txbuffer == old(self).txbuffer,
            final(self).rxbuffer == old(self).rxbuffer,
    {
        self.spi.configure(ClockPolarity::IdleHigh, ClockPhase::SampleTrailing, 1_000_000)
    }

    /// The words by which the owner is told of a completion in status
    /// `status`, with `len` bytes transferred: whether the chip is there;
    /// the raw rotation about the three axes; the temperature; zeros where
    /// the transfer was too short or nothing was read, and after every
    /// other request.
    pub open spec fn words(status: L3gd20Status, read_buffer: Option<Vec<u8>>, len: usize) -> (
        usize,
        usize,
        usize,
    ) {
        match (status, read_buffer) {
            (L3gd20Status::IsPresent, Some(buf)) => (1, bit(buf@[1] == L3GD20_WHO_AM_I), 0),
            (L3gd20Status::IsPresent, None) => (1, 0, 0),
            (L3gd20Status::ReadXYZ, Some(buf)) => if len >= 7 {
                (raw(buf@[1], buf@[2]), raw(buf@[3], buf@[4]), raw(buf@[5], buf@[6]))
            } else {
                (0, 0, 0)
            },
            (L3gd20Status::ReadTemperature, Some(buf)) => if len >= 2 {
                (buf@[1] as usize, 0, 0)
            } else {
                (0, 0, 0)
            },
            _ => (0, 0, 0),
        }
    }

    /// What the clients in the kernel are told of a completion in status
    /// `status`, if they are registered: the rotation at the scale that is
    /// set, zeros if the transfer was too short; the temperature in
    /// hundredths of a degree, or `FAIL` if the transfer was too short.
    pub open spec fn readings(
        &self,
        status: L3gd20Status,
        read_buffer: Option<Vec<u8>>,
        len: usize,
    ) -> Readings {
        Readings {
            nine_dof: match (status, read_buffer) {
                (L3gd20Status::ReadXYZ, Some(buf)) => if !self.nine_dof_client {
                    None
                } else if len >= 7 {
                    Some(
                        (
                            scaled(buf@[1], buf@[2], self.scale),
                            scaled(buf@[3], buf@[4], self.scale),
                            scaled(buf@[5], buf@[6], self.scale),
                        ),
                    )
                } else {
                    Some((0, 0, 0))
                },
                _ => None,
            },
            temperature: match (status, read_buffer) {
                (L3gd20Status::ReadTemperature, Some(buf)) => if !self.temperature_client {
                    None
                } else if len >= 2 {
                    Some(Ok((buf@[1] as int * 100) as i32))
                } else {
                    Some(Err(ErrorCode::FAIL))
                },
                _ => None,
            },
        }
    }

    /// The bus reports a transfer of `len` bytes done and hands the
    /// buffers back.
    ///
    /// The buffers are with the driver again and the driver is idle,
    /// whether the owner still resolves or not. An owner that resolves is
    /// notified (see `words`), and the clients in the kernel are told their
    /// readings (see `readings`). For an owner that is gone nobody is told
    /// anything.
    pub fn read_write_done(
        &mut self,
        write_buffer: Vec<u8>,
        read_buffer: Option<Vec<u8>>,
        len: usize,
        _status: Result<(), ErrorCode>,
    ) -> (r: Readings)
        requires
            old(self).wf(),
            write_buffer@.len() >= MIN_LEN,
            read_buffer matches Some(b) ==> b@.len() >= MIN_LEN,
        ensures
            final(self).wf(),
            final(self).spi == old(self).spi,
            final(self).same_settings(old(self)),
            final(self).current_process == old(self).current_process,
            final(self).nine_dof_client == old(self).nine_dof_client,
            final(self).temperature_client == old(self).temperature_client,
            final(self).status == L3gd20Status::Idle,
            final(self).txbuffer.value == Some(write_buffer),
            read_buffer is Some ==> final(self).rxbuffer.value == read_buffer,
            read_buffer is None ==> final(self).rxbuffer == old(self).rxbuffer,
            final(self).grants.told(
                &old(self).grants,
                old(self).current_process,
                0,
                Self::words(old(self).status, read_buffer, len),
            ),
            match old(self).current_process {
                Some(p) if old(self).grants.resolves(p) => {
                    let expected = old(self).readings(old(self).status, read_buffer, len);
                    r.nine_dof == expected.nine_dof && r.temperature == expected.temperature
                },
                _ => r.nine_dof is None && r.temperature is None,
            },
    {
        let mut out = Readings { nine_dof: None, temperature: None };
        let resolves = match self.current_process {
            Some(p) => self.grants.check(p).is_ok(),
            None => false,
        };
        let words: (usize, usize, usize) = match self.status {
            L3gd20Status::IsPresent => {
                let present = match &read_buffer {
                    Some(buf) => buf[1] == L3GD20_WHO_AM_I,
                    None => false,
                };
                (1, usize_from(present), 0)
            },
            L3gd20Status::ReadXYZ => {
                match &read_buffer {
                    Some(buf) => {
                        if len >= 7 {
                            if self.nine_dof_client && resolves {
                                out.nine_dof = Some(
                                    (
                                        scale_axis(buf[1], buf[2], self.scale),
                                        scale_axis(buf[3], buf[4], self.scale),
                                        scale_axis(buf[5], buf[6], self.scale),
                                    ),
                                );
                            }
                            (
                                raw_axis(buf[1], buf[2]),
                                raw_axis(buf[3], buf[4]),
                                raw_axis(buf[5], buf[6]),
                            )
                        } else {
                            if self.nine_dof_client && resolves {
                                out.nine_dof = Some((0, 0, 0));
                            }
                            (0, 0, 0)
                        }
                    },
                    None => (0, 0, 0),
                }
            },
            L3gd20Status::ReadTemperature => {
                match &read_buffer {
                    Some(buf) => {
                        if len >= 2 {
                            let temperature = buf[1] as i32;
                            if self.temperature_client && resolves {
                                out.temperature = Some(Ok(temperature * 100));
                            }
                            (temperature as usize, 0, 0)
                        } else {
                            if self.temperature_client && resolves {
                                out.temperature = Some(Err(ErrorCode::FAIL));
                            }
                            (0, 0, 0)
                        }
                    },
                    None => (0, 0, 0),
                }
            },
            _ => (0, 0, 0),
        };
        self.grants.tell(self.current_process, 0, words);
        self.status = L3gd20Status::Idle;
        self.txbuffer.put(Some(write_buffer));
        match read_buffer {
            Some(buf) => {
                self.rxbuffer.put(Some(buf));
            },
            None => {},
        }
        out
    }

    /// The status in which the driver waits after the request that the
    /// command `command_num` stands for was accepted.
    pub open spec fn status_for(command_num: usize) -> L3gd20Status {
        if command_num == 1 {
            L3gd20Status::IsPresent
        } else if command_num == 2 {
            L3gd20Status::PowerOn
        } else if command_num == 3 {
            L3gd20Status::SetScale
        } else if command_num == 4 {
            L3gd20Status::SetHpfParameters
        } else if command_num == 5 {
            L3gd20Status::EnableHpf
        } else if command_num == 6 {
            L3gd20Status::ReadXYZ
        } else {
            L3gd20Status::ReadTemperature
        }
    }

    /// A command of the process `process_id`.
    ///
    /// Command 0 asks whether the driver is there. For every other command
    /// the caller must be one that the driver may serve (see
    /// `Grant::admits`), which makes it the owner; else the command is
    /// refused with `RESERVE`. Commands 1 to 7 ask whether the chip is
    /// there, switch it on, set the scale `data1`, set the filter to mode
    /// `data1` and cut-off `data2`, switch the filter on if `data1` is one,
    /// and request the rotation and the temperature; they are refused with
    /// `BUSY` unless the driver is idle. Every other command is refused with
    /// `NOSUPPORT`.
    pub fn command(
        &mut self,
        command_num: usize,
        data1: usize,
        data2: usize,
        process_id: ProcessId,
    ) -> (r: CommandReturn)
        requires
            old(self).wf(),
        ensures
            final(self).wf(),
            command_num == 0 ==> r == CommandReturn::Success && *final(self) == *old(self),
            command_num != 0 && !old(self).grants.admits(old(self).current_process, process_id)
                ==> {
                &&& r == CommandReturn::Failure(ErrorCode::RESERVE)
                &&& final(self).spi == old(self).spi
                &&& final(self).status == old(self).status
                &&& final(self).txbuffer == old(self).txbuffer
                &&& final(self).rxbuffer == old(self).rxbuffer
                &&& final(self).current_process == old(self).current_process
            },
            command_num != 0 && old(self).grants.admits(old(self).current_process, process_id)
                ==> {
                &&& final(self).current_process == Some(process_id)
                &&& final(self).grants.entered_by(&old(self).grants, old(self).current_process)
                &&& command_num > 7 ==> r == CommandReturn::Failure(ErrorCode::NOSUPPORT)
                    && final(self).spi == old(self).spi && final(self).status == old(self).status
                &&& command_num <= 7 && old(self).status != L3gd20Status::Idle ==> r
                    == CommandReturn::Failure(ErrorCode::BUSY) && final(self).spi == old(self).spi
                        && final(self).status == old(self).status
                &&& command_num <= 7 && old(self).status == L3gd20Status::Idle
                    && old(self).txbuffer.value is None ==> r
                        == CommandReturn::Failure(ErrorCode::NOMEM)
                &&& command_num <= 7 && old(self).status == L3gd20Status::Idle
                    && old(self).txbuffer.value is Some ==> if r.ok() {
                    final(self).txbuffer.value is None && final(self).status == Self::status_for(
                        command_num,
                    )
                } else {
                    final(self).txbuffer.value is Some && final(self).status == L3gd20Status::Idle
                }
            },
            1 <= command_num <= 7 && old(self).grants.admits(old(self).current_process, process_id)
                && old(self).status == L3gd20Status::Idle ==> final(self).remembered(
                old(self),
                command_num,
                data1,
                data2,
            ),
            1 <= command_num <= 7 && old(self).grants.admits(old(self).current_process, process_id)
                && old(self).status == L3gd20Status::Idle && old(self).txbuffer.value is Some
                ==> exists|
                res: Result<(), ErrorCode>,
                tx: Vec<u8>,
                a: Result<(), (ErrorCode, Vec<u8>, Option<Vec<u8>>)>,
            |
                #[trigger] final(self).asked(
                    old(self).spi,
                    old(self).txbuffer.value->Some_0,
                    old(self).rxbuffer.value,
                    tx,
                    Self::command_request(command_num, data1, data2).0,
                    Self::command_request(command_num, data1, data2).1,
                    Self::command_request(command_num, data1, data2).2,
                    Self::command_request(command_num, data1, data2).3,
                    res,
                    a,
                ) && r == CommandReturn::of_result(res),
    {
        if command_num == 0 {
            return CommandReturn::success();
        }
        if self.grants.may_serve(self.current_process, process_id) {
            self.current_process = Some(process_id);
        } else {
            return CommandReturn::failure(ErrorCode::RESERVE);
        }
        if command_num > 7 {
            return CommandReturn::failure(ErrorCode::NOSUPPORT);
        }
        if self.status != L3gd20Status::Idle {
            return CommandReturn::failure(ErrorCode::BUSY);
        }
        let ghost owned = *self;
        let res = self.make_request(command_num, data1, data2);
        proof {
            if old(self).txbuffer.value is Some {
                let (tx, a) = choose|
                    tx: Vec<u8>,
                    a: Result<(), (ErrorCode, Vec<u8>, Option<Vec<u8>>)>,
                |
                    #[trigger] self.asked(
                        owned.spi,
                        owned.txbuffer.value->Some_0,
                        owned.rxbuffer.value,
                        tx,
                        Self::command_request(command_num, data1, data2).0,
                        Self::command_request(command_num, data1, data2).1,
                        Self::command_request(command_num, data1, data2).2,
                        Self::command_request(command_num, data1, data2).3,
                        res,
                        a,
                    );
                assert(self.asked(
                    old(self).spi,
                    old(self).txbuffer.value->Some_0,
                    old(self).rxbuffer.value,
                    tx,
                    Self::command_request(command_num, data1, data2).0,
                    Self::command_request(command_num, data1, data2).1,
                    Self::command_request(command_num, data1, data2).2,
                    Self::command_request(command_num, data1, data2).3,
                    res,
                    a,
                ));
            }
        }
        CommandReturn::from_result(res)
    }

    /// The request that a command makes of the chip: its first two bytes,
    /// its length, and whether it reads. Commands 1 to 7 ask whether the
    /// chip is there, switch it on, set the scale `data1`, set the filter to
    /// mode `data1` and cut-off `data2`, switch the filter on if `data1` is
    /// one, and request the rotation and the temperature.
    pub open spec fn command_request(command_num: usize, data1: usize, data2: usize) -> (
        u8,
        u8,
        usize,
        bool,
    ) {
        if command_num == 1 {
            (L3GD20_REG_WHO_AM_I | 0x80, 0x00, 2, true)
        } else if command_num == 2 {
            (L3GD20_REG_CTRL_REG1, 0x0F, 2, false)
        } else if command_num == 3 {
            (L3GD20_REG_CTRL_REG4, ((data1 as u8) & 0x03) << 4, 2, false)
        } else if command_num == 4 {
            (
                L3GD20_REG_CTRL_REG2,
                ((data1 as u8) & 0x03) << 4 | ((data2 as u8) & 0x0F),
                2,
                false,
            )
        } else if command_num == 5 {
            (
                L3GD20_REG_CTRL_REG5,
                if data1 == 1 {
                    0x10
                } else {
                    0x00
                },
                2,
                false,
            )
        } else if command_num == 6 {
            (L3GD20_REG_OUT_X_L | 0x80 | 0x40, 0x00, 7, true)
        } else {
            (L3GD20_REG_OUT_TEMP | 0x80, 0x00, 2, true)
        }
    }

    /// The settings that the driver remembers after a command from 1 to
    /// 7: the scale after command 3, mode and cut-off of the filter after
    /// command 4, whether the filter is on after command 5; every other
    /// setting is as in `before`.
    pub open spec fn remembered(
        &self,
        before: &L3gd20Spi<S>,
        command_num: usize,
        data1: usize,
        data2: usize,
    ) -> bool {
        &&& self.scale == (if command_num == 3 {
            data1 as u8
        } else {
            before.scale
        })
        &&& self.hpf_mode == (if command_num == 4 {
            data1 as u8
        } else {
            before.hpf_mode
        })
        &&& self.hpf_divider == (if command_num == 4 {
            data2 as u8
        } else {
            before.hpf_divider
        })
        &&& self.hpf_enabled == (if command_num == 5 {
            data1 == 1
        } else {
            before.hpf_enabled
        })
    }

    /// Makes the request that the command `command_num`, from 1 to 7,
    /// stands for: see `command_request` and `remembered`.
    fn make_request(&mut self, command_num: usize, data1: usize, data2: usize) -> (res: Result<
        (),
        ErrorCode,
    >)
        requires
            old(self).wf(),
            1 <= command_num <= 7,
        ensures
            final(self).remembered(old(self), command_num, data1, data2),
            final(self).sent(
                old(self),
                Self::command_request(command_num, data1, data2).0,
                Self::command_request(command_num, data1, data2).1,
                Self::command_request(command_num, data1, data2).2,
                Self::command_request(command_num, data1, data2).3,
                Self::status_for(command_num),
                res,
            ),
    {
        if command_num == 1 {
            self.is_present()
        } else if command_num == 2 {
            self.power_on()
        } else if command_num == 3 {
            self.set_scale(data1 as u8)
        } else if command_num == 4 {
            self.set_hpf_parameters(data1 as u8, data2 as u8)
        } else if command_num == 5 {
            self.enable_hpf(data1 == 1)
        } else if command_num == 6 {
            self.read_xyz()
        } else {
            self.read_temperature()
        }
    }

    /// Creates the record of `processid` if the process resolves.
    pub fn allocate_grant(&mut self, processid: ProcessId) -> (r: Result<
        (),
        crate::kernel::process::Error,
    >)
        requires
            old(self).wf(),
        ensures
            final(self).wf(),
            r == old(self).grants.lookup(processid),
            final(self).spi == old(self).spi,
            final(self).status == old(self).status,
            final(self).txbuffer == old(self).txbuffer,
            final(self).rxbuffer == old(self).rxbuffer,
            final(self).current_process == old(self).current_process,
    {
        match self.grants.enter(processid) {
            Ok(_) => Ok(()),
            Err(e) => Err(e),
        }
    }

    /// Requests the rotation for the client in the kernel: refused with
    /// `BUSY` unless the driver is idle.
    pub fn read_gyroscope(&mut self) -> (r: Result<(), ErrorCode>)
        requires
            old(self).wf(),
        ensures
            final(self).wf(),
            old(self).status != L3gd20Status::Idle ==> r == Err::<(), ErrorCode>(ErrorCode::BUSY)
                && *final(self) == *old(self),
            old(self).status == L3gd20Status::Idle ==> final(self).started(
                old(self),
                L3gd20Status::ReadXYZ,
                r,
            ),
    {
        if self.status == L3gd20Status::Idle {
            self.read_xyz()
        } else {
            Err(ErrorCode::BUSY)
        }
    }
}

impl<S: SpiMasterDevice> TemperatureDriver for L3gd20Spi<S> {
    open spec fn ready(&self) -> bool {
        self.wf()
    }

    /// Requests the temperature for the client in the kernel: refused with
    /// `BUSY` unless the driver is idle.
    fn read_temperature(&mut self) -> (r: Result<(), ErrorCode>)
        ensures
            old(self).status != L3gd20Status::Idle ==> r == Err::<(), ErrorCode>(ErrorCode::BUSY)
                && *final(self) == *old(self),
            old(self).status == L3gd20Status::Idle ==> final(self).sent(
                old(self),
                L3GD20_REG_OUT_TEMP | 0x80,
                0x00,
                2,
                true,
                L3gd20Status::ReadTemperature,
                r,
            ),
    {
        if self.status == L3gd20Status::Idle {
            L3gd20Spi::read_temperature(self)
        } else {
            Err(ErrorCode::BUSY)
        }
    }
}

} // verus!
