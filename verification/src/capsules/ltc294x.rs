//! Driver of a battery gauge on a two-wire bus, and its interface for
//! processes.
//!
//! `LTC294X` speaks to the chip: each request is one or two transfers on
//! the bus, and what the chip answers is decoded into an event for the
//! client. `LTC294XDriver` is such a client: it makes the requests on
//! behalf of one process and notifies that process of the events.

use vstd::prelude::*;
use crate::kernel::cells::TakeCell;
use crate::kernel::errorcode::ErrorCode;
use crate::kernel::grant::{Grant, GrantData};
use crate::kernel::hil::gpio::{InterruptEdge, InterruptPin};
use crate::kernel::hil::i2c::{Error, I2CDevice};
use crate::kernel::process::ProcessId;
use crate::kernel::syscall::CommandReturn;

verus! {

/// The length of the buffer that the driver is made with.
pub const BUF_LEN: usize = 20;

/// The number of bytes that the longest transfer takes.
pub const MIN_LEN: usize = 16;

/// The status register.
pub const REG_STATUS: u8 = 0x00;

/// The control register.
pub const REG_CONTROL: u8 = 0x01;

/// The high byte of the accumulated charge.
pub const REG_ACCUMULATED_CHARGE_MSB: u8 = 0x02;

/// The high byte of the upper threshold of the charge.
pub const REG_CHARGE_THRESHOLD_HIGH_MSB: u8 = 0x04;

/// The high byte of the lower threshold of the charge.
pub const REG_CHARGE_THRESHOLD_LOW_MSB: u8 = 0x06;

/// What the driver waits for.
#[derive(Clone, Copy, Debug, PartialEq, Eq, Structural)]
pub enum State {
    Idle,
    /// The status register is being read.
    ReadStatus,
    /// The accumulated charge is being read.
    ReadCharge,
    /// The voltage is being read.
    ReadVoltage,
    /// The current is being read.
    ReadCurrent,
    /// The control register is being read, to be written back with the
    /// shutdown bit set.
    ReadShutdown,
    /// A write is under way, after which the request is complete.
    Done,
}

/// The chips of the family.
#[derive(Clone, Copy, Debug, PartialEq, Eq, Structural)]
pub enum ChipModel {
    LTC2941,
    LTC2942,
    LTC2943,
}

impl ChipModel {
    /// The number that stands for the model.
    pub open spec fn number(self) -> usize {
        match self {
            ChipModel::LTC2941 => 1,
            ChipModel::LTC2942 => 2,
            ChipModel::LTC2943 => 3,
        }
    }

    /// The number that stands for the model.
    pub fn into_usize(self) -> (r: usize)
        ensures
            r == self.number(),
    {
        match self {
            ChipModel::LTC2941 => 1,
            ChipModel::LTC2942 => 2,
            ChipModel::LTC2943 => 3,
        }
    }
}

/// What the chip's interrupt pin is used for.
#[derive(Clone, Copy, Debug, PartialEq, Eq, Structural)]
pub enum InterruptPinConf {
    Disabled,
    ChargeCompleteMode,
    AlertMode,
}

impl InterruptPinConf {
    /// The bits that stand for the setting in the control register.
    pub open spec fn bits(self) -> u8 {
        match self {
            InterruptPinConf::Disabled => 0x00,
            InterruptPinConf::ChargeCompleteMode => 0x01,
            InterruptPinConf::AlertMode => 0x02,
        }
    }

    /// The bits that stand for the setting in the control register.
    pub fn into_u8(self) -> (r: u8)
        ensures
            r == self.bits(),
    {
        match self {
            InterruptPinConf::Disabled => 0x00,
            InterruptPinConf::ChargeCompleteMode => 0x01,
            InterruptPinConf::AlertMode => 0x02,
        }
    }

    /// The setting that the two low bits of `raw` stand for.
    pub open spec fn of(raw: usize) -> InterruptPinConf {
        if raw & 0x03 == 1 {
            InterruptPinConf::ChargeCompleteMode
        } else if raw & 0x03 == 2 {
            InterruptPinConf::AlertMode
        } else {
            InterruptPinConf::Disabled
        }
    }

    /// Decodes the setting from the two low bits of `raw`.
    pub fn from_usize(raw: usize) -> (r: InterruptPinConf)
        ensures
            r == Self::of(raw),
    {
        let v = raw & 0x03;
        if v == 1 {
            InterruptPinConf::ChargeCompleteMode
        } else if v == 2 {
            InterruptPinConf::AlertMode
        } else {
            InterruptPinConf::Disabled
        }
    }
}

/// The battery voltage below which the chip raises an alert.
#[derive(Clone, Copy, Debug, PartialEq, Eq, Structural)]
pub enum VBatAlert {
    Off,
    Threshold2V8,
    Threshold2V9,
    Threshold3V0,
}

impl VBatAlert {
    /// The bits that stand for the threshold in the control register.
    pub open spec fn bits(self) -> u8 {
        match self {
            VBatAlert::Off => 0x00,
            VBatAlert::Threshold2V8 => 0x01,
            VBatAlert::Threshold2V9 => 0x02,
            VBatAlert::Threshold3V0 => 0x03,
        }
    }

    /// The bits that stand for the threshold in the control register.
    pub fn into_u8(self) -> (r: u8)
        ensures
            r == self.bits(),
    {
        match self {
            VBatAlert::Off => 0x00,
            VBatAlert::Threshold2V8 => 0x01,
            VBatAlert::Threshold2V9 => 0x02,
            VBatAlert::Threshold3V0 => 0x03,
        }
    }

    /// The threshold that the two low bits of `raw` stand for.
    pub open spec fn of(raw: usize) -> VBatAlert {
        if raw & 0x03 == 1 {
            VBatAlert::Threshold2V8
        } else if raw & 0x03 == 2 {
            VBatAlert::Threshold2V9
        } else if raw & 0x03 == 3 {
            VBatAlert::Threshold3V0
        } else {
            VBatAlert::Off
        }
    }

    /// Decodes the threshold from the two low bits of `raw`.
    pub fn from_usize(raw: usize) -> (r: VBatAlert)
        ensures
            r == Self::of(raw),
    {
        let v = raw & 0x03;
        if v == 1 {
            VBatAlert::Threshold2V8
        } else if v == 2 {
            VBatAlert::Threshold2V9
        } else if v == 3 {
            VBatAlert::Threshold3V0
        } else {
            VBatAlert::Off
        }
    }
}

/// The record of a process; the driver keeps nothing in it.
#[derive(Clone, Copy, Debug, PartialEq, Eq, Structural)]
pub struct App {}

impl GrantData for App {
    open spec fn initial() -> App {
        App {  }
    }

    fn fresh() -> App {
        App {  }
    }
}

/// What the client of the gauge is told.
#[derive(Clone, Copy, Debug, PartialEq, Eq, Structural)]
pub enum Event {
    /// The chip raised its interrupt.
    Interrupt,
    /// The flags of the status register.
    Status {
        undervolt_lockout: bool,
        vbat_alert: bool,
        charge_alert_low: bool,
        charge_alert_high: bool,
        accumulated_charge_overflow: bool,
    },
    /// The accumulated charge.
    Charge(u16),
    /// The voltage.
    Voltage(u16),
    /// The current.
    Current(u16),
    /// A request without a value is complete.
    Done,
}

/// The receiver of the gauge's events.
pub trait LTC294XClient {
    /// The receiver is in a state in which it can be told of events.
    spec fn ready(&self) -> bool;

    /// What being told of `event` has made of the receiver that was
    /// `before`.
    spec fn received(&self, before: &Self, event: Event) -> bool;

    /// The chip raised its interrupt.
    fn interrupt(&mut self)
        requires
            old(self).ready(),
        ensures
            final(self).ready(),
            final(self).received(old(self), Event::Interrupt),
    ;

    /// The status register was read.
    fn status(
        &mut self,
        undervolt_lockout: bool,
        vbat_alert: bool,
        charge_alert_low: bool,
        charge_alert_high: bool,
        accumulated_charge_overflow: bool,
    )
        requires
            old(self).ready(),
        ensures
            final(self).ready(),
            final(self).received(
                old(self),
                Event::Status {
                    undervolt_lockout,
                    vbat_alert,
                    charge_alert_low,
                    charge_alert_high,
                    accumulated_charge_overflow,
                },
            ),
    ;

    /// The accumulated charge was read.
    fn charge(&mut self, charge: u16)
        requires
            old(self).ready(),
        ensures
            final(self).ready(),
            final(self).received(old(self), Event::Charge(charge)),
    ;

    /// The voltage was read.
    fn voltage(&mut self, voltage: u16)
        requires
            old(self).ready(),
        ensures
            final(self).ready(),
            final(self).received(old(self), Event::Voltage(voltage)),
    ;

    /// The current was read.
    fn current(&mut self, current: u16)
        requires
            old(self).ready(),
        ensures
            final(self).ready(),
            final(self).received(old(self), Event::Current(current)),
    ;

    /// A request without a value is complete.
    fn done(&mut self)
        requires
            old(self).ready(),
        ensures
            final(self).ready(),
            final(self).received(old(self), Event::Done),
    ;
}

/// Tells `client` of `event`, through the method of the receiver that
/// stands for the kind of event, with the values that the event carries.
pub fn deliver<C: LTC294XClient>(client: &mut C, event: Event)
    requires
        old(client).ready(),
    ensures
        final(client).ready(),
        final(client).received(old(client), event),
{
    match event {
        Event::Interrupt => client.interrupt(),
        Event::Status {
            undervolt_lockout,
            vbat_alert,
            charge_alert_low,
            charge_alert_high,
            accumulated_charge_overflow,
        } => client.status(
            undervolt_lockout,
            vbat_alert,
            charge_alert_low,
            charge_alert_high,
            accumulated_charge_overflow,
        ),
        Event::Charge(c) => client.charge(c),
        Event::Voltage(v) => client.voltage(v),
        Event::Current(c) => client.current(c),
        Event::Done => client.done(),
    }
}

/// The value of the control register for the given settings: the use of
/// the interrupt pin from bit 1, the prescaler from bit 3, the voltage
/// alert from bit 6.
pub open spec fn control_byte(
    int_pin_conf: InterruptPinConf,
    prescaler: u8,
    vbat_alert: VBatAlert,
) -> u8 {
    (int_pin_conf.bits() << 1) | (prescaler << 3) | (vbat_alert.bits() << 6)
}

/// The two bytes at `at` in `buffer`, the first the higher.
pub open spec fn be16(buffer: Seq<u8>, at: int) -> u16 {
    ((buffer[at] as u16) << 8) | (buffer[at + 1] as u16)
}

/// Reads the two bytes at `at` in `buffer`, the first the higher.
pub fn read_be16(buffer: &Vec<u8>, at: usize) -> (r: u16)
    requires
        at + 1 < buffer@.len(),
    ensures
        r == be16(buffer@, at as int),
{
    let _ = buffer.len();
    ((buffer[at] as u16) << 8) | (buffer[at + 1] as u16)
}

/// The event that the flags of the status byte make.
pub open spec fn status_event(status: u8) -> Event {
    Event::Status {
        undervolt_lockout: (status & 0x01) > 0,
        vbat_alert: (status & 0x02) > 0,
        charge_alert_low: (status & 0x04) > 0,
        charge_alert_high: (status & 0x08) > 0,
        accumulated_charge_overflow: (status & 0x20) > 0,
    }
}

/// The driver of the chip.
pub struct LTC294X<I: I2CDevice, P: InterruptPin> {
    pub i2c: I,
    pub interrupt_pin: Option<P>,
    pub model: ChipModel,
    pub state: State,
    pub buffer: TakeCell<Vec<u8>>,
    /// Whether a client is registered to be told of events.
    pub client: bool,
}

impl<I: I2CDevice, P: InterruptPin> LTC294X<I, P> {
    /// The buffer, while it is with the driver, is long enough for every
    /// transfer.
    pub open spec fn wf(&self) -> bool {
        self.buffer.value matches Some(b) ==> b@.len() >= MIN_LEN
    }

    /// Everything but the bus, the state and the buffer is as in `other`.
    pub open spec fn same_setup(&self, other: &LTC294X<I, P>) -> bool {
        &&& self.interrupt_pin == other.interrupt_pin
        &&& self.model == other.model
        &&& self.client == other.client
    }

    /// Creates the driver of the chip behind `i2c`, an LTC2941 until told
    /// otherwise.
    pub fn new(i2c: I, interrupt_pin: Option<P>, buffer: Vec<u8>) -> (r: LTC294X<I, P>)
        requires
            buffer@.len() >= MIN_LEN,
        ensures
            r.wf(),
            r.i2c == i2c,
            r.interrupt_pin == interrupt_pin,
            r.model == ChipModel::LTC2941,
            r.state == State::Idle,
            r.buffer.value == Some(buffer),
            !r.client,
    {
        LTC294X {
            i2c,
            interrupt_pin,
            model: ChipModel::LTC2941,
            state: State::Idle,
            buffer: TakeCell::new(buffer),
            client: false,
        }
    }

    /// Registers the client and lets the interrupt pin, if there is one,
    /// raise interrupts on falling edges.
    pub fn set_client(&mut self)
        ensures
            final(self).client,
            final(self).i2c == old(self).i2c,
            final(self).model == old(self).model,
            final(self).state == old(self).state,
            final(self).buffer == old(self).buffer,
            final(self).interrupt_pin is Some <==> old(self).interrupt_pin is Some,
            old(self).interrupt_pin matches Some(pin) ==> exists|input: P| #[trigger]
                input.made_input(&pin) && final(self).interrupt_pin->Some_0.interrupts_set(
                    &input,
                    Some(InterruptEdge::FallingEdge),
                ),
    {
        self.client = true;
        match self.interrupt_pin.take() {
            None => {},
            Some(mut pin) => {
                pin.make_input();
                let ghost input = pin;
                pin.enable_interrupts(InterruptEdge::FallingEdge);
                self.interrupt_pin = Some(pin);
                assert(input.made_input(&old(self).interrupt_pin->Some_0)
                    && self.interrupt_pin->Some_0.interrupts_set(
                    &input,
                    Some(InterruptEdge::FallingEdge),
                ));
            },
        }
    }

    /// What becomes of a transfer once the bus has answered: accepted, the
    /// driver waits in state `next` for its completion; refused, the buffer
    /// is back with the driver, which is idle, and the bus's reason is
    /// returned.
    pub fn transfer_answered(&mut self, answer: Result<(), (Error, Vec<u8>)>, next: State) -> (r:
        Result<(), ErrorCode>)
        requires
            old(self).buffer.value is None,
            answer matches Err((_, b)) ==> b@.len() >= MIN_LEN,
        ensures
            final(self).wf(),
            final(self).same_setup(old(self)),
            match answer {
                Ok(()) => r == Ok::<(), ErrorCode>(()) && final(self).state == next
                    && final(self).buffer.value is None && final(self).i2c == old(self).i2c,
                Err((e, b)) => r == Err::<(), ErrorCode>(e.as_errorcode()) && final(self).state
                    == State::Idle && final(self).buffer.value == Some(b)
                    && final(self).i2c.switched(&old(self).i2c, false),
            },
    {
        match answer {
            Ok(()) => {
                self.state = next;
                Ok(())
            },
            Err((e, b)) => {
                self.buffer.put(Some(b));
                self.i2c.disable();
                self.state = State::Idle;
                Err(e.into_errorcode())
            },
        }
    }

    /// The bus of this driver is what the bus `i2c` became by a request.
    /// Switched on, it was `on`. Then it was asked for a transfer of `len`
    /// bytes with the buffer `tx`, answered `a` and was `asked`: a write, if
    /// `write` gives the three bytes that the buffer `held` begins with
    /// then, or else a read into the buffer as it was held. After a refusal
    /// the bus was switched off again. The caller is answered `r`: the
    /// bus's reason, if it refused.
    pub open spec fn transferred(
        &self,
        i2c: I,
        held: Vec<u8>,
        write: Option<(u8, u8, u8)>,
        len: usize,
        r: Result<(), ErrorCode>,
        on: I,
        tx: Vec<u8>,
        a: Result<(), (Error, Vec<u8>)>,
        asked: I,
    ) -> bool {
        &&& on.switched(&i2c, true)
        &&& match write {
            Some((b0, b1, b2)) => tx@ == held@.update(0, b0).update(1, b1).update(2, b2)
                && asked.write_asked(&on, tx, len, a),
            None => tx == held && asked.read_asked(&on, tx, len, a),
        }
        &&& match a {
            Ok(()) => self.i2c == asked && r == Ok::<(), ErrorCode>(()) && self.buffer.value
                is None,
            Err((e, b)) => self.i2c.switched(&asked, false) && r == Err::<(), ErrorCode>(
                e.as_errorcode(),
            ) && self.buffer.value == Some(b),
        }
    }

    /// The driver after a request for a transfer of `len` bytes was made
    /// on `before` and answered with `r`: see `started` for the driver and
    /// `transferred` for what the bus was asked.
    pub open spec fn requested(
        &self,
        before: &LTC294X<I, P>,
        write: Option<(u8, u8, u8)>,
        len: usize,
        next: State,
        r: Result<(), ErrorCode>,
    ) -> bool {
        &&& self.started(before, next, r)
        &&& before.buffer.value is Some ==> exists|
            on: I,
            tx: Vec<u8>,
            a: Result<(), (Error, Vec<u8>)>,
            asked: I,
        | #[trigger]
            self.transferred(
                before.i2c,
                before.buffer.value->Some_0,
                write,
                len,
                r,
                on,
                tx,
                a,
                asked,
            )
    }

    /// Starts a read of `len` bytes, after which the driver is in state
    /// `next`.
    fn start_read(&mut self, len: usize, next: State) -> (r: Result<(), ErrorCode>)
        requires
            old(self).wf(),
        ensures
            final(self).requested(old(self), None, len, next, r),
    {
        match self.buffer.take() {
            None => Err(ErrorCode::NOMEM),
            Some(buffer) => {
                self.i2c.enable();
                let ghost on = self.i2c;
                let answer = self.i2c.read(buffer, len);
                let ghost a = answer;
                let ghost asked = self.i2c;
                let r = self.transfer_answered(answer, next);
                assert(self.transferred(old(self).i2c, buffer, None, len, r, on, buffer, a, asked));
                r
            },
        }
    }

    /// Starts a write of the first `len` bytes of the buffer, which are
    /// `b0`, `b1` and `b2` as far as `len` reaches.
    fn start_write(&mut self, b0: u8, b1: u8, b2: u8, len: usize) -> (r: Result<(), ErrorCode>)
        requires
            old(self).wf(),
        ensures
            final(self).requested(old(self), Some((b0, b1, b2)), len, State::Done, r),
    {
        match self.buffer.take() {
            None => Err(ErrorCode::NOMEM),
            Some(mut buffer) => {
                let ghost held = buffer;
                self.i2c.enable();
                let ghost on = self.i2c;
                buffer[0] = b0;
                buffer[1] = b1;
                buffer[2] = b2;
                let answer = self.i2c.write(buffer, len);
                let ghost a = answer;
                let ghost asked = self.i2c;
                let r = self.transfer_answered(answer, State::Done);
                assert(buffer@ =~= held@.update(0, b0).update(1, b1).update(2, b2));
                assert(self.transferred(
                    old(self).i2c,
                    held,
                    Some((b0, b1, b2)),
                    len,
                    r,
                    on,
                    buffer,
                    a,
                    asked,
                ));
                r
            },
        }
    }

    /// How the driver looks after a request was made on `before` and
    /// answered with `r`. Without the buffer the request is refused with
    /// `NOMEM` and nothing changes. Otherwise the buffer goes to the bus: if
    /// the bus accepts the transfer, the driver waits in state `next`;
    /// refused, the driver is idle with its buffer and the answer is the
    /// bus's reason.
    pub open spec fn started(
        &self,
        before: &LTC294X<I, P>,
        next: State,
        r: Result<(), ErrorCode>,
    ) -> bool {
        &&& self.wf()
        &&& self.same_setup(before)
        &&& (before.buffer.value is None ==> r == Err::<(), ErrorCode>(ErrorCode::NOMEM) && *self
            == *before)
        &&& (before.buffer.value is Some ==> if r is Ok {
            self.state == next && self.buffer.value is None
        } else {
            self.state == State::Idle && self.buffer.value is Some
        })
    }

    /// Requests the status of the chip.
    pub fn read_status(&mut self) -> (r: Result<(), ErrorCode>)
        requires
            old(self).wf(),
        ensures
            final(self).requested(old(self), None, 1, State::ReadStatus, r),
    {
        self.start_read(1, State::ReadStatus)
    }

    /// Sets the use of the interrupt pin, the prescaler and the voltage
    /// alert: the control register is written with `control_byte`.
    pub fn configure(
        &mut self,
        int_pin_conf: InterruptPinConf,
        prescaler: u8,
        vbat_alert: VBatAlert,
    ) -> (r: Result<(), ErrorCode>)
        requires
            old(self).wf(),
        ensures
            final(self).requested(
                old(self),
                Some((REG_CONTROL, control_byte(int_pin_conf, prescaler, vbat_alert), 0)),
                2,
                State::Done,
                r,
            ),
    {
        let value = Self::control(int_pin_conf, prescaler, vbat_alert);
        self.start_write(REG_CONTROL, value, 0, 2)
    }

    /// Computes the value of the control register: see `control_byte`.
    pub fn control(int_pin_conf: InterruptPinConf, prescaler: u8, vbat_alert: VBatAlert) -> (r:
        u8)
        ensures
            r == control_byte(int_pin_conf, prescaler, vbat_alert),
    {
        (int_pin_conf.into_u8() << 1) | (prescaler << 3) | (vbat_alert.into_u8() << 6)
    }

    /// Sets the accumulated charge to zero.
    pub fn reset_charge(&mut self) -> (r: Result<(), ErrorCode>)
        requires
            old(self).wf(),
        ensures
            final(self).requested(
                old(self),
                Some((REG_ACCUMULATED_CHARGE_MSB, 0, 0)),
                3,
                State::Done,
                r,
            ),
    {
        self.start_write(REG_ACCUMULATED_CHARGE_MSB, 0, 0, 3)
    }

    /// Sets the charge above which the chip raises an alert.
    pub fn set_high_threshold(&mut self, threshold: u16) -> (r: Result<(), ErrorCode>)
        requires
            old(self).wf(),
        ensures
            final(self).requested(old(self), Some(
                    (
                        REG_CHARGE_THRESHOLD_HIGH_MSB,
                        ((threshold & 0xFF00) >> 8) as u8,
                        (threshold & 0xFF) as u8,
                    ),
                ), 3, State::Done, r),
    {
        self.start_write(
            REG_CHARGE_THRESHOLD_HIGH_MSB,
            ((threshold & 0xFF00) >> 8) as u8,
            (threshold & 0xFF) as u8,
            3,
        )
    }

    /// Sets the charge below which the chip raises an alert.
    pub fn set_low_threshold(&mut self, threshold: u16) -> (r: Result<(), ErrorCode>)
        requires
            old(self).wf(),
        ensures
            final(self).requested(old(self), Some(
                    (
                        REG_CHARGE_THRESHOLD_LOW_MSB,
                        ((threshold & 0xFF00) >> 8) as u8,
                        (threshold & 0xFF) as u8,
                    ),
                ), 3, State::Done, r),
    {
        self.start_write(
            REG_CHARGE_THRESHOLD_LOW_MSB,
            ((threshold & 0xFF00) >> 8) as u8,
            (threshold & 0xFF) as u8,
            3,
        )
    }

    /// Requests the accumulated charge.
    pub fn get_charge(&mut self) -> (r: Result<(), ErrorCode>)
        requires
            old(self).wf(),
        ensures
            final(self).requested(old(self), None, 4, State::ReadCharge, r),
    {
        self.start_read(4, State::ReadCharge)
    }

    /// Requests the voltage. Only the LTC2942 and the LTC2943 measure it:
    /// for the LTC2941 the request is refused with `NOSUPPORT`.
    pub fn get_voltage(&mut self) -> (r: Result<(), ErrorCode>)
        requires
            old(self).wf(),
        ensures
            old(self).model == ChipModel::LTC2941 ==> r == Err::<(), ErrorCode>(
                ErrorCode::NOSUPPORT,
            ) && *final(self) == *old(self),
            old(self).model != ChipModel::LTC2941 ==> final(self).requested(
                old(self),
                None,
                10,
                State::ReadVoltage,
                r,
            ),
    {
        match self.model {
            ChipModel::LTC2941 => Err(ErrorCode::NOSUPPORT),
            _ => self.start_read(10, State::ReadVoltage),
        }
    }

    /// Requests the current. Only the LTC2943 measures it: for the other
    /// models the request is refused with `NOSUPPORT`.
    pub fn get_current(&mut self) -> (r: Result<(), ErrorCode>)
        requires
            old(self).wf(),
        ensures
            old(self).model != ChipModel::LTC2943 ==> r == Err::<(), ErrorCode>(
                ErrorCode::NOSUPPORT,
            ) && *final(self) == *old(self),
            old(self).model == ChipModel::LTC2943 ==> final(self).requested(
                old(self),
                None,
                16,
                State::ReadCurrent,
                r,
            ),
    {
        match self.model {
            ChipModel::LTC2943 => self.start_read(16, State::ReadCurrent),
            _ => Err(ErrorCode::NOSUPPORT),
        }
    }

    /// Puts the chip to sleep: the control register is read, and written
    /// back with the shutdown bit set.
    pub fn shutdown(&mut self) -> (r: Result<(), ErrorCode>)
        requires
            old(self).wf(),
        ensures
            final(self).requested(old(self), None, 2, State::ReadShutdown, r),
    {
        self.start_read(2, State::ReadShutdown)
    }

    /// Tells the driver which chip of the family it speaks to: 1, 2 or 3
    /// for the LTC2941, LTC2942 and LTC2943. Any other number is refused
    /// with `NODEVICE`.
    pub fn set_model(&mut self, model_num: usize) -> (r: Result<(), ErrorCode>)
        ensures
            final(self).i2c == old(self).i2c,
            final(self).interrupt_pin == old(self).interrupt_pin,
            final(self).state == old(self).state,
            final(self).buffer == old(self).buffer,
            final(self).client == old(self).client,
            1 <= model_num <= 3 ==> r is Ok && final(self).model.number() == model_num,
            !(1 <= model_num <= 3) ==> r == Err::<(), ErrorCode>(ErrorCode::NODEVICE)
                && final(self).model == old(self).model,
    {
        if model_num == 1 {
            self.model = ChipModel::LTC2941;
            Ok(())
        } else if model_num == 2 {
            self.model = ChipModel::LTC2942;
            Ok(())
        } else if model_num == 3 {
            self.model = ChipModel::LTC2943;
            Ok(())
        } else {
            Err(ErrorCode::NODEVICE)
        }
    }

    /// The event that the completion of a transfer in state `state` means
    /// for the client, with `buffer` as the bus hands it back.
    pub open spec fn event_of(state: State, buffer: Seq<u8>) -> Option<Event> {
        match state {
            State::ReadStatus => Some(status_event(buffer[0])),
            State::ReadCharge => Some(Event::Charge(be16(buffer, 2))),
            State::ReadVoltage => Some(Event::Voltage(be16(buffer, 8))),
            State::ReadCurrent => Some(Event::Current(be16(buffer, 14))),
            State::Done => Some(Event::Done),
            _ => None,
        }
    }

    /// The bus of this driver is what the bus of `before` became when the
    /// chip was put to sleep: it was asked to write two bytes of the buffer
    /// `tx`, the number of the control register and the control byte that
    /// `buffer` brought back with the shutdown bit set; it answered `a` and
    /// was `asked`. Accepted, the driver waits for the write without its
    /// buffer; refused, the bus was switched off and the driver is idle with
    /// the buffer that the bus handed back.
    pub open spec fn put_to_sleep(
        &self,
        before: &LTC294X<I, P>,
        buffer: Vec<u8>,
        tx: Vec<u8>,
        a: Result<(), (Error, Vec<u8>)>,
        asked: I,
    ) -> bool {
        &&& tx@ == buffer@.update(1, buffer@[1] | 0x01).update(0, REG_CONTROL)
        &&& asked.write_asked(&before.i2c, tx, 2, a)
        &&& match a {
            Ok(()) => self.i2c == asked && self.state == State::Done && self.buffer.value
                is None,
            Err((_, b)) => self.i2c.switched(&asked, false) && self.state == State::Idle
                && self.buffer.value == Some(b),
        }
    }

    /// The bus reports a transfer done and hands `buffer` back.
    ///
    /// After a read of a value, and after the write that completes a
    /// request, the buffer is with the driver again, the driver is idle,
    /// and the result is the event for the client, if one is registered:
    /// see `event_of`. After the read that begins a shutdown the control
    /// register is written back with its lowest bit set; the driver then
    /// waits for that write, or is idle with its buffer if the bus refused
    /// it. A completion that the driver does not wait for is ignored, but
    /// its buffer is kept if the driver has none.
    pub fn command_complete(&mut self, buffer: Vec<u8>, _status: Result<(), Error>) -> (r: Option<
        Event,
    >)
        requires
            old(self).wf(),
            buffer@.len() >= MIN_LEN,
        ensures
            final(self).wf(),
            final(self).same_setup(old(self)),
            old(self).state == State::Idle ==> r is None && final(self).state == State::Idle
                && final(self).i2c == old(self).i2c && final(self).buffer.value
                    == (if old(self).buffer.value is Some {
                old(self).buffer.value
            } else {
                Some(buffer)
            }),
            old(self).state == State::ReadShutdown ==> r is None && (final(self).state
                == State::Done && final(self).buffer.value is None || final(self).state
                == State::Idle && final(self).buffer.value is Some),
            old(self).state != State::Idle && old(self).state != State::ReadShutdown ==> {
                &&& final(self).state == State::Idle
                &&& final(self).buffer.value == Some(buffer)
                &&& final(self).i2c.switched(&old(self).i2c, false)
                &&& r == (if old(self).client {
                    Self::event_of(old(self).state, buffer@)
                } else {
                    None
                })
            },
            old(self).state == State::ReadShutdown ==> exists|
                tx: Vec<u8>,
                a: Result<(), (Error, Vec<u8>)>,
                asked: I,
            | #[trigger] final(self).put_to_sleep(old(self), buffer, tx, a, asked),
    {
        let state = self.state;
        match state {
            State::Idle => {
                if self.buffer.is_none() {
                    self.buffer.put(Some(buffer));
                }
                None
            },
            State::ReadShutdown => {
                let ghost given = buffer;
                let mut buffer = buffer;
                let control = buffer[1] | 0x01;
                buffer[1] = control;
                buffer[0] = REG_CONTROL;
                self.buffer.put(None);
                let answer = self.i2c.write(buffer, 2);
                let ghost a = answer;
                let ghost asked = self.i2c;
                let _ = self.transfer_answered(answer, State::Done);
                assert(buffer@ =~= given@.update(1, given@[1] | 0x01).update(0, REG_CONTROL));
                assert(self.put_to_sleep(old(self), given, buffer, a, asked));
                None
            },
            _ => {
                let event = match state {
                    State::ReadStatus => {
                        let status = buffer[0];
                        Event::Status {
                            undervolt_lockout: (status & 0x01) > 0,
                            vbat_alert: (status & 0x02) > 0,
                            charge_alert_low: (status & 0x04) > 0,
                            charge_alert_high: (status & 0x08) > 0,
                            accumulated_charge_overflow: (status & 0x20) > 0,
                        }
                    },
                    State::ReadCharge => Event::Charge(read_be16(&buffer, 2)),
                    State::ReadVoltage => Event::Voltage(read_be16(&buffer, 8)),
                    State::ReadCurrent => Event::Current(read_be16(&buffer, 14)),
                    _ => Event::Done,
                };
                self.buffer.put(Some(buffer));
                self.i2c.disable();
                self.state = State::Idle;
                if self.client {
                    Some(event)
                } else {
                    None
                }
            },
        }
    }

    /// The interrupt pin fired: the client, if one is registered, is to be
    /// told of the interrupt.
    pub fn fired(&self) -> (r: Option<Event>)
        ensures
            r == (if self.client {
                Some(Event::Interrupt)
            } else {
                None
            }),
    {
        if self.client {
            Some(Event::Interrupt)
        } else {
            None
        }
    }
}

/// The subscription told of every event.
pub const UPCALL_EVENT_FINISHED: usize = 0;

/// The three words by which a process is told of `event` of the chip
/// `model`: the kind of the event, its value, and for the status the
/// model. The flags of the status are packed from bit 0 upwards in the
/// order in which the event names them.
pub open spec fn words(event: Event, model: ChipModel) -> (usize, usize, usize) {
    match event {
        Event::Interrupt => (0, 0, 0),
        Event::Status {
            undervolt_lockout,
            vbat_alert,
            charge_alert_low,
            charge_alert_high,
            accumulated_charge_overflow,
        } => (
            1,
            flag(undervolt_lockout) | (flag(vbat_alert) << 1) | (flag(charge_alert_low) << 2) | (
            flag(charge_alert_high) << 3) | (flag(accumulated_charge_overflow) << 4),
            model.number(),
        ),
        Event::Charge(c) => (2, c as usize, 0),
        Event::Done => (3, 0, 0),
        Event::Voltage(v) => (4, v as usize, 0),
        Event::Current(c) => (5, c as usize, 0),
    }
}

/// One for a flag that is set, zero for one that is not.
pub open spec fn flag(b: bool) -> usize {
    if b {
        1
    } else {
        0
    }
}

/// One for a flag that is set, zero for one that is not.
pub fn flag_word(b: bool) -> (r: usize)
    ensures
        r == flag(b),
{
    if b {
        1
    } else {
        0
    }
}

/// The interface of the gauge for processes: one process at a time owns
/// the gauge, makes requests and is notified of the events.
pub struct LTC294XDriver<I: I2CDevice, P: InterruptPin> {
    pub ltc294x: LTC294X<I, P>,
    pub grants: Grant<App>,
    pub owning_process: Option<ProcessId>,
}

impl<I: I2CDevice, P: InterruptPin> LTC294XDriver<I, P> {
    /// The records fit the driver, and the gauge is consistent.
    pub open spec fn wf(&self) -> bool {
        &&& self.ltc294x.wf()
        &&& self.grants.wf()
        &&& self.grants.upcall_count >= 1
    }

    /// Creates the interface of `ltc` for processes.
    pub fn new(ltc: LTC294X<I, P>, grants: Grant<App>) -> (r: LTC294XDriver<I, P>)
        ensures
            r.ltc294x == ltc,
            r.grants == grants,
            r.owning_process is None,
    {
        LTC294XDriver { ltc294x: ltc, grants, owning_process: None }
    }

    /// How the driver looks after the owner was told of `event`, starting
    /// from `before`: an owner that resolves is notified with the words of
    /// the event; without an owner, or with one that is gone, nobody is
    /// told and nothing changes.
    pub open spec fn told(&self, before: &LTC294XDriver<I, P>, event: Event) -> bool {
        &&& self.ltc294x == before.ltc294x
        &&& self.owning_process == before.owning_process
        &&& match before.owning_process {
            Some(pid) => if before.grants.resolves(pid) {
                let i = pid.index as int;
                &&& self.grants.same_but(&before.grants, i)
                &&& self.grants.records@[i].region == Some(before.grants.entered(i))
                &&& self.grants.records@[i].notified(
                    &before.grants.records@[i],
                    UPCALL_EVENT_FINISHED as int,
                    words(event, before.ltc294x.model),
                )
            } else {
                self.grants == before.grants
            },
            None => self.grants == before.grants,
        }
    }

    /// Notifies the owner, if it resolves, with the words `args`.
    fn tell(&mut self, args: (usize, usize, usize))
        requires
            old(self).wf(),
        ensures
            final(self).wf(),
            final(self).ltc294x == old(self).ltc294x,
            final(self).owning_process == old(self).owning_process,
            match old(self).owning_process {
                Some(pid) => if old(self).grants.resolves(pid) {
                    let i = pid.index as int;
                    &&& final(self).grants.same_but(&old(self).grants, i)
                    &&& final(self).grants.records@[i].region == Some(old(self).grants.entered(i))
                    &&& final(self).grants.records@[i].notified(
                        &old(self).grants.records@[i],
                        UPCALL_EVENT_FINISHED as int,
                        args,
                    )
                } else {
                    final(self).grants == old(self).grants
                },
                None => final(self).grants == old(self).grants,
            },
    {
        match self.owning_process {
            None => {},
            Some(pid) => {
                let _ = self.grants.notify(pid, UPCALL_EVENT_FINISHED, args);
            },
        }
    }

    /// The caller may use the gauge: it owns it already, nobody does, or
    /// the owner is gone.
    pub open spec fn admits(&self, process_id: ProcessId) -> bool {
        match self.owning_process {
            None => true,
            Some(current_process) => self.grants.resolves(current_process) ==> current_process
                == process_id,
        }
    }

    /// A command of the process `process_id`.
    ///
    /// Command 0 asks whether the driver is there. For every other command
    /// the caller must be admitted (see `admits`), which makes it the owner;
    /// else the command is refused with `NOMEM`. Commands 1 to 10 request
    /// the status, a configuration from the bits of `data`, a reset of the
    /// charge, the high and the low threshold `data`, the charge, a
    /// shutdown, the voltage, the current, and the model `data`. Every other
    /// command is refused with `NOSUPPORT`.
    pub fn command(
        &mut self,
        command_num: usize,
        data: usize,
        _arg2: usize,
        process_id: ProcessId,
    ) -> (r: CommandReturn)
        requires
            old(self).wf(),
        ensures
            final(self).wf(),
            command_num == 0 ==> r == CommandReturn::Success && *final(self) == *old(self),
            command_num != 0 && !old(self).admits(process_id) ==> r == CommandReturn::Failure(
                ErrorCode::NOMEM,
            ) && final(self).ltc294x == old(self).ltc294x && final(self).owning_process
                == old(self).owning_process,
            command_num != 0 && old(self).admits(process_id) ==> {
                &&& final(self).owning_process == Some(process_id)
                &&& command_num > 10 ==> r == CommandReturn::Failure(ErrorCode::NOSUPPORT)
                    && final(self).ltc294x == old(self).ltc294x
                &&& (1 <= command_num <= 7 && old(self).ltc294x.buffer.value is None) ==> r
                    == CommandReturn::Failure(ErrorCode::NOMEM) && final(self).ltc294x
                        == old(self).ltc294x
                &&& (1 <= command_num <= 9 && r.ok()) ==> final(self).ltc294x.buffer.value is None
                    && final(self).ltc294x.state == Self::state_for(command_num)
                &&& (1 <= command_num <= 9 && !r.ok() && old(self).ltc294x.buffer.value is Some)
                    ==> final(self).ltc294x.buffer.value is Some
                &&& command_num == 10 ==> r == (if 1 <= data <= 3 {
                    CommandReturn::Success
                } else {
                    CommandReturn::Failure(ErrorCode::NODEVICE)
                })
            },
            old(self).admits(process_id) && old(self).measures(command_num) ==> exists|
                res: Result<(), ErrorCode>,
            |
                #[trigger] final(self).ltc294x.requested(
                    &old(self).ltc294x,
                    Self::command_bytes(command_num, data),
                    Self::command_length(command_num),
                    Self::state_for(command_num),
                    res,
                ) && r == CommandReturn::of_result(res),
            old(self).admits(process_id) && (command_num == 8 || command_num == 9)
                && !old(self).measures(command_num) ==> r == CommandReturn::Failure(
                ErrorCode::NOSUPPORT,
            ) && final(self).ltc294x == old(self).ltc294x,
    {
        if command_num == 0 {
            return CommandReturn::success();
        }
        let admitted = match self.owning_process {
            None => true,
            Some(current_process) => match self.grants.enter(current_process) {
                Ok(_) => current_process == process_id,
                Err(_) => true,
            },
        };
        if admitted {
            self.owning_process = Some(process_id);
        } else {
            return CommandReturn::failure(ErrorCode::NOMEM);
        }
        let res = if command_num == 1 {
            self.ltc294x.read_status()
        } else if command_num == 2 {
            let int_pin_conf = InterruptPinConf::from_usize(data);
            let prescaler = (data >> 2) & 0x07;
            let vbat_alert = VBatAlert::from_usize(data >> 5);
            self.ltc294x.configure(int_pin_conf, prescaler as u8, vbat_alert)
        } else if command_num == 3 {
            self.ltc294x.reset_charge()
        } else if command_num == 4 {
            self.ltc294x.set_high_threshold(data as u16)
        } else if command_num == 5 {
            self.ltc294x.set_low_threshold(data as u16)
        } else if command_num == 6 {
            self.ltc294x.get_charge()
        } else if command_num == 7 {
            self.ltc294x.shutdown()
        } else if command_num == 8 {
            self.ltc294x.get_voltage()
        } else if command_num == 9 {
            self.ltc294x.get_current()
        } else if command_num == 10 {
            self.ltc294x.set_model(data)
        } else {
            Err(ErrorCode::NOSUPPORT)
        };
        proof {
            if old(self).measures(command_num) {
                assert(self.ltc294x.requested(
                    &old(self).ltc294x,
                    Self::command_bytes(command_num, data),
                    Self::command_length(command_num),
                    Self::state_for(command_num),
                    res,
                ));
            }
        }
        CommandReturn::from_result(res)
    }

    /// The command `command_num` makes a request of the chip: commands 1
    /// to 7 do; command 8, for the voltage, unless the chip is an LTC2941;
    /// and command 9, for the current, if the chip is an LTC2943.
    pub open spec fn measures(&self, command_num: usize) -> bool {
        ||| 1 <= command_num <= 7
        ||| command_num == 8 && self.ltc294x.model != ChipModel::LTC2941
        ||| command_num == 9 && self.ltc294x.model == ChipModel::LTC2943
    }

    /// The three bytes that a command writes to the chip: for command 2
    /// the control register with the settings in `data`, for command 3 the
    /// register of the charge with zeros, for commands 4 and 5 the register
    /// of the upper or lower threshold with `data` in 16 bits. The other
    /// commands read.
    pub open spec fn command_bytes(command_num: usize, data: usize) -> Option<(u8, u8, u8)> {
        if command_num == 2 {
            Some(
                (
                    REG_CONTROL,
                    control_byte(
                        InterruptPinConf::of(data),
                        ((data >> 2) & 0x07) as u8,
                        VBatAlert::of(data >> 5),
                    ),
                    0,
                ),
            )
        } else if command_num == 3 {
            Some((REG_ACCUMULATED_CHARGE_MSB, 0, 0))
        } else if command_num == 4 {
            Some(
                (
                    REG_CHARGE_THRESHOLD_HIGH_MSB,
                    (((data as u16) & 0xFF00) >> 8) as u8,
                    ((data as u16) & 0xFF) as u8,
                ),
            )
        } else if command_num == 5 {
            Some(
                (
                    REG_CHARGE_THRESHOLD_LOW_MSB,
                    (((data as u16) & 0xFF00) >> 8) as u8,
                    ((data as u16) & 0xFF) as u8,
                ),
            )
        } else {
            None
        }
    }

    /// The number of bytes that a command transfers.
    pub open spec fn command_length(command_num: usize) -> usize {
        if command_num == 1 {
            1
        } else if command_num == 2 || command_num == 7 {
            2
        } else if command_num == 3 || command_num == 4 || command_num == 5 {
            3
        } else if command_num == 6 {
            4
        } else if command_num == 8 {
            10
        } else {
            16
        }
    }

    /// The state in which the gauge waits after the request that the
    /// command `command_num` stands for was accepted.
    pub open spec fn state_for(command_num: usize) -> State {
        if command_num == 1 {
            State::ReadStatus
        } else if command_num == 6 {
            State::ReadCharge
        } else if command_num == 7 {
            State::ReadShutdown
        } else if command_num == 8 {
            State::ReadVoltage
        } else if command_num == 9 {
            State::ReadCurrent
        } else {
            State::Done
        }
    }

    /// Creates the record of `processid` if the process resolves.
    pub fn allocate_grant(&mut self, processid: ProcessId) -> (r: Result<
        (),
        crate::kernel::process::Error,
    >)
        requires
            old(self).wf(),
        ensures
            final(self).wf(),
            r == old(self).grants.lookup(processid),
            final(self).ltc294x == old(self).ltc294x,
            final(self).owning_process == old(self).owning_process,
    {
        match self.grants.enter(processid) {
            Ok(_) => Ok(()),
            Err(e) => Err(e),
        }
    }
}

impl<I: I2CDevice, P: InterruptPin> LTC294XClient for LTC294XDriver<I, P> {
    open spec fn ready(&self) -> bool {
        self.wf()
    }

    /// The owner was told of the event: see `told`.
    open spec fn received(&self, before: &Self, event: Event) -> bool {
        self.told(before, event)
    }

    /// The owner is told of the interrupt.
    fn interrupt(&mut self)
        ensures
            final(self).told(old(self), Event::Interrupt),
    {
        self.tell((0, 0, 0));
    }

    /// The owner is told of the status: the flags, packed, and the model.
    fn status(
        &mut self,
        undervolt_lockout: bool,
        vbat_alert: bool,
        charge_alert_low: bool,
        charge_alert_high: bool,
        accumulated_charge_overflow: bool,
    )
        ensures
            final(self).told(
                old(self),
                Event::Status {
                    undervolt_lockout,
                    vbat_alert,
                    charge_alert_low,
                    charge_alert_high,
                    accumulated_charge_overflow,
                },
            ),
    {
        let ret = flag_word(undervolt_lockout) | (flag_word(vbat_alert) << 1) | (flag_word(
            charge_alert_low,
        ) << 2) | (flag_word(charge_alert_high) << 3) | (flag_word(accumulated_charge_overflow)
            << 4);
        let model = self.ltc294x.model.into_usize();
        self.tell((1, ret, model));
    }

    /// The owner is told of the charge.
    fn charge(&mut self, charge: u16)
        ensures
            final(self).told(old(self), Event::Charge(charge)),
    {
        self.tell((2, charge as usize, 0));
    }

    /// The owner is told of the voltage.
    fn voltage(&mut self, voltage: u16)
        ensures
            final(self).told(old(self), Event::Voltage(voltage)),
    {
        self.tell((4, voltage as usize, 0));
    }

    /// The owner is told of the current.
    fn current(&mut self, current: u16)
        ensures
            final(self).told(old(self), Event::Current(current)),
    {
        self.tell((5, current as usize, 0));
    }

    /// The owner is told that its request is complete.
    fn done(&mut self)
        ensures
            final(self).told(old(self), Event::Done),
    {
        self.tell((3, 0, 0));
    }
}

} // verus!
