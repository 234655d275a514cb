//! Driver of an infrared thermometer on a system-management bus.
//!
//! One process at a time owns the driver. Each request is one transfer;
//! when it completes, the owner is notified, and a temperature is reported
//! to the client of the sensor as well.

use vstd::prelude::*;
use crate::kernel::cells::TakeCell;
use crate::kernel::errorcode::ErrorCode;
use crate::kernel::grant::{Grant, GrantData};
use crate::kernel::hil::i2c::{Error, SMBusDevice};
use crate::kernel::hil::sensors::TemperatureDriver;
use crate::kernel::math::{as_word, bit, usize_from, word_of};
use crate::kernel::process::ProcessId;
use crate::kernel::syscall::CommandReturn;

verus! {

/// The length of the buffer that the driver needs.
pub const BUF_LEN: usize = 2;

/// The register of the raw reading of the first sensor.
pub const REG_RAW1: u8 = 0x04;

/// The register of the ambient temperature.
pub const REG_TA: u8 = 0x06;

/// The register of the temperature of the object.
pub const REG_TOBJ1: u8 = 0x07;

/// The byte by which the chip is recognised.
pub const PRESENT: u8 = 60;

/// What the driver waits for.
#[derive(Clone, Copy, Debug, PartialEq, Eq, Structural)]
pub enum State {
    Idle,
    IsPresent,
    ReadAmbientTemp,
    ReadObjTemp,
}

/// The record of a process; the driver keeps nothing in it.
#[derive(Clone, Copy, Debug, PartialEq, Eq, Structural)]
pub struct App {}

impl GrantData for App {
    open spec fn initial() -> App {
        App {  }
    }

    fn fresh() -> App {
        App {  }
    }
}

/// The temperature in hundredths of a degree centigrade that the raw
/// value, in fiftieths of a kelvin, stands for.
pub open spec fn centi_celsius(lo: u8, hi: u8) -> int {
    (lo as int + 256 * hi as int) * 2 - 27300
}

/// Computes the temperature from the raw value.
pub fn temperature(lo: u8, hi: u8) -> (r: i32)
    ensures
        r == centi_celsius(lo, hi),
{
    ((lo as i32) + 256 * (hi as i32)) * 2 - 27300
}

/// The driver of the thermometer.
pub struct Mlx90614SMBus<S: SMBusDevice> {
    pub smbus_temp: S,
    /// Whether a client is registered for temperatures.
    pub temperature_client: bool,
    pub buffer: TakeCell<Vec<u8>>,
    pub state: State,
    pub apps: Grant<App>,
    pub owning_process: Option<ProcessId>,
}

impl<S: SMBusDevice> Mlx90614SMBus<S> {
    /// The records fit the driver, and the buffer, while it is with the
    /// driver, is long enough.
    pub open spec fn wf(&self) -> bool {
        &&& self.apps.wf()
        &&& self.apps.upcall_count >= 1
        &&& (self.buffer.value matches Some(b) ==> b@.len() >= BUF_LEN)
    }

    /// Creates the driver of the thermometer behind `smbus_temp`.
    pub fn new(smbus_temp: S, buffer: Vec<u8>, grant: Grant<App>) -> (r: Mlx90614SMBus<S>)
        ensures
            r.smbus_temp == smbus_temp,
            !r.temperature_client,
            r.buffer.value == Some(buffer),
            r.state == State::Idle,
            r.apps == grant,
            r.owning_process is None,
    {
        Mlx90614SMBus {
            smbus_temp,
            temperature_client: false,
            buffer: TakeCell::new(buffer),
            state: State::Idle,
            apps: grant,
            owning_process: None,
        }
    }

    /// Registers the client for temperatures.
    pub fn set_client(&mut self)
        ensures
            *final(self) == (Mlx90614SMBus { temperature_client: true, ..*old(self) }),
    {
        self.temperature_client = true;
    }

    /// The driver after a request was made on `before` and answered with
    /// `r`. Without the buffer the request is refused with `NOMEM` and
    /// nothing changes. Otherwise the buffer goes to the bus with the
    /// register to read: accepted, the driver waits in state `next`;
    /// refused, the driver is idle with its buffer and the answer is the
    /// bus's reason.
    pub open spec fn started(
        &self,
        before: &Mlx90614SMBus<S>,
        next: State,
        r: Result<(), ErrorCode>,
    ) -> bool {
        &&& self.wf()
        &&& self.apps == before.apps
        &&& self.owning_process == before.owning_process
        &&& self.temperature_client == before.temperature_client
        &&& (before.buffer.value is None ==> r == Err::<(), ErrorCode>(ErrorCode::NOMEM) && *self
            == *before)
        &&& (before.buffer.value is Some ==> if r is Ok {
            self.state == next && self.buffer.value is None
        } else {
            self.state == State::Idle && self.buffer.value is Some
        })
    }

    /// What becomes of a transfer once the bus has answered: accepted, the
    /// driver waits in state `next` for its completion; refused, the buffer
    /// is back with the driver, which is idle, and the bus's reason is
    /// returned.
    pub fn transfer_answered(&mut self, answer: Result<(), (Error, Vec<u8>)>, next: State) -> (r:
        Result<(), ErrorCode>)
        requires
            old(self).wf(),
            old(self).buffer.value is None,
            answer matches Err((_, b)) ==> b@.len() >= BUF_LEN,
        ensures
            final(self).wf(),
            final(self).smbus_temp == old(self).smbus_temp,
            final(self).apps == old(self).apps,
            final(self).owning_process == old(self).owning_process,
            final(self).temperature_client == old(self).temperature_client,
            match answer {
                Ok(()) => r == Ok::<(), ErrorCode>(()) && final(self).state == next
                    && final(self).buffer.value is None,
                Err((e, b)) => r == Err::<(), ErrorCode>(e.as_errorcode()) && final(self).state
                    == State::Idle && final(self).buffer.value == Some(b),
            },
    {
        match answer {
            Ok(()) => {
                self.state = next;
                Ok(())
            },
            Err((e, b)) => {
                self.buffer.put(Some(b));
                self.state = State::Idle;
                Err(e.into_errorcode())
            },
        }
    }

    /// The bus of this driver is what the bus of `before` became when it
    /// was asked to write one byte of the buffer `tx`, the number of the
    /// register `register`, and to read `read_len` bytes, and answered `a`.
    /// The caller is answered `r`: the bus's reason, if it refused.
    pub open spec fn asked(
        &self,
        before: &Mlx90614SMBus<S>,
        register: u8,
        read_len: usize,
        r: Result<(), ErrorCode>,
        tx: Vec<u8>,
        a: Result<(), (Error, Vec<u8>)>,
    ) -> bool {
        &&& tx@ == before.buffer.value->Some_0@.update(0, register)
        &&& self.smbus_temp.smbus_write_read_asked(&before.smbus_temp, tx, 1, read_len, a)
        &&& r == (match a {
            Ok(()) => Ok(()),
            Err((e, _)) => Err(e.as_errorcode()),
        })
        &&& self.buffer.value == (match a {
            Ok(()) => None,
            Err((_, b)) => Some(b),
        })
    }

    /// The register that a command reads: command 1 the one by which the
    /// chip is recognised, command 2 that of the ambient temperature, and
    /// command 3 that of the temperature of the object.
    pub open spec fn command_register(command_num: usize) -> u8 {
        if command_num == 1 {
            REG_RAW1
        } else if command_num == 2 {
            REG_TA
        } else {
            REG_TOBJ1
        }
    }

    /// The number of bytes that a command reads.
    pub open spec fn command_length(command_num: usize) -> usize {
        if command_num == 3 {
            2
        } else {
            1
        }
    }

    /// The driver after a request to read `read_len` bytes of the
    /// register `register` was made on `before` and answered with `r`: see
    /// `started` for the driver and `asked` for what the bus was asked.
    pub open spec fn requested(
        &self,
        before: &Mlx90614SMBus<S>,
        register: u8,
        read_len: usize,
        next: State,
        r: Result<(), ErrorCode>,
    ) -> bool {
        &&& self.started(before, next, r)
        &&& before.buffer.value is Some ==> exists|tx: Vec<u8>, a: Result<(), (Error, Vec<u8>)>|
         #[trigger] self.asked(before, register, read_len, r, tx, a)
    }

    /// Reads `read_len` bytes of the register `register`, after which the
    /// driver is in state `next`.
    fn read_register(&mut self, register: u8, read_len: usize, next: State) -> (r: Result<
        (),
        ErrorCode,
    >)
        requires
            old(self).wf(),
        ensures
            final(self).requested(old(self), register, read_len, next, r),
    {
        match self.buffer.take() {
            None => Err(ErrorCode::NOMEM),
            Some(mut buf) => {
                buf[0] = register;
                let answer = self.smbus_temp.smbus_write_read(buf, 1, read_len);
                let ghost a = answer;
                let r = self.transfer_answered(answer, next);
                assert(self.asked(old(self), register, read_len, r, buf, a));
                r
            },
        }
    }

    /// Asks whether the chip is there.
    pub fn is_present(&mut self) -> (r: Result<(), ErrorCode>)
        requires
            old(self).wf(),
        ensures
            final(self).requested(old(self), REG_RAW1, 1, State::IsPresent, r),
    {
        self.read_register(REG_RAW1, 1, State::IsPresent)
    }

    /// Requests the temperature of the chip itself.
    pub fn read_ambient_temperature(&mut self) -> (r: Result<(), ErrorCode>)
        requires
            old(self).wf(),
        ensures
            final(self).requested(old(self), REG_TA, 1, State::ReadAmbientTemp, r),
    {
        self.read_register(REG_TA, 1, State::ReadAmbientTemp)
    }

    /// Requests the temperature of the object in view.
    pub fn read_object_temperature(&mut self) -> (r: Result<(), ErrorCode>)
        requires
            old(self).wf(),
        ensures
            final(self).requested(old(self), REG_TOBJ1, 2, State::ReadObjTemp, r),
    {
        self.read_register(REG_TOBJ1, 2, State::ReadObjTemp)
    }

    /// What the client of the sensor is told of a completion in state
    /// `state`: after the read of a temperature, the temperature or the
    /// error of the bus.
    pub open spec fn reading(state: State, buffer: Seq<u8>, status: Result<(), Error>) -> Option<
        Result<i32, ErrorCode>,
    > {
        if state == State::ReadAmbientTemp || state == State::ReadObjTemp {
            Some(
                match status {
                    Ok(()) => Ok(centi_celsius(buffer[0], buffer[1]) as i32),
                    Err(e) => Err(e.as_errorcode()),
                },
            )
        } else {
            None
        }
    }

    /// The words by which the owner is told of a completion in state
    /// `state`: whether the chip is there, or the temperature, or zero
    /// after a failure.
    pub open spec fn words(state: State, buffer: Seq<u8>, status: Result<(), Error>) -> (
        usize,
        usize,
        usize,
    ) {
        match state {
            State::IsPresent => (bit(status is Ok && buffer[0] == PRESENT), 0, 0),
            State::Idle => (0, 0, 0),
            _ => match status {
                Ok(()) => (as_word(centi_celsius(buffer[0], buffer[1])), 0, 0),
                Err(_) => (0, 0, 0),
            },
        }
    }

    /// The bus reports a transfer done and hands `buffer` back.
    ///
    /// The buffer is with the driver again and the driver is idle. If the
    /// driver waited for the transfer, the owner, if it still resolves, is
    /// notified (see `words`); for an owner that is gone nobody is told.
    /// The result is what the client of the sensor is to be told, if one is
    /// registered: see `reading`.
    pub fn command_complete(&mut self, buffer: Vec<u8>, status: Result<(), Error>) -> (r: Option<
        Result<i32, ErrorCode>,
    >)
        requires
            old(self).wf(),
            buffer@.len() >= BUF_LEN,
        ensures
            final(self).wf(),
            final(self).state == State::Idle,
            final(self).buffer.value == Some(buffer),
            final(self).smbus_temp == old(self).smbus_temp,
            final(self).owning_process == old(self).owning_process,
            final(self).temperature_client == old(self).temperature_client,
            r == (if old(self).temperature_client {
                Self::reading(old(self).state, buffer@, status)
            } else {
                None
            }),
            old(self).state == State::Idle ==> final(self).apps == old(self).apps,
            old(self).state != State::Idle ==> final(self).apps.told(
                &old(self).apps,
                old(self).owning_process,
                0,
                Self::words(old(self).state, buffer@, status),
            ),
    {
        let state = self.state;
        let r = match state {
            State::Idle => None,
            State::IsPresent => {
                let present = status.is_ok() && buffer[0] == PRESENT;
                self.apps.tell(self.owning_process, 0, (usize_from(present), 0, 0));
                None
            },
            _ => {
                let values: Result<i32, ErrorCode> = match status {
                    Ok(()) => Ok(temperature(buffer[0], buffer[1])),
                    Err(i2c_error) => Err(i2c_error.into_errorcode()),
                };
                match values {
                    Ok(temp) => {
                        self.apps.tell(self.owning_process, 0, (word_of(temp), 0, 0));
                    },
                    Err(_) => {
                        self.apps.tell(self.owning_process, 0, (0, 0, 0));
                    },
                }
                if self.temperature_client {
                    Some(values)
                } else {
                    None
                }
            },
        };
        self.buffer.put(Some(buffer));
        self.state = State::Idle;
        r
    }

    /// A command of the process `process_id`.
    ///
    /// Command 0 asks whether the driver is there. For every other command
    /// the caller must be one that the driver may serve (see
    /// `Grant::admits`), which makes it the owner; else the command is
    /// refused with `NOMEM`. Commands 1 to 3 ask whether the chip is there,
    /// for the ambient and for the object temperature; they are refused with
    /// `BUSY` unless the driver is idle. Every other command is refused with
    /// `NOSUPPORT`.
    pub fn command(
        &mut self,
        command_num: usize,
        _data1: usize,
        _data2: usize,
        process_id: ProcessId,
    ) -> (r: CommandReturn)
        requires
            old(self).wf(),
        ensures
            final(self).wf(),
            command_num == 0 ==> r == CommandReturn::Success && *final(self) == *old(self),
            command_num != 0 && !old(self).apps.admits(old(self).owning_process, process_id) ==> {
                &&& r == CommandReturn::Failure(ErrorCode::NOMEM)
                &&& final(self).smbus_temp == old(self).smbus_temp
                &&& final(self).state == old(self).state
                &&& final(self).buffer == old(self).buffer
                &&& final(self).owning_process == old(self).owning_process
            },
            command_num != 0 && old(self).apps.admits(old(self).owning_process, process_id) ==> {
                &&& final(self).owning_process == Some(process_id)
                &&& final(self).apps.entered_by(&old(self).apps, old(self).owning_process)
                &&& command_num > 3 ==> r == CommandReturn::Failure(ErrorCode::NOSUPPORT)
                    && final(self).smbus_temp == old(self).smbus_temp && final(self).state
                        == old(self).state
                    && final(self).buffer == old(self).buffer
                &&& command_num <= 3 && old(self).state != State::Idle ==> r
                    == CommandReturn::Failure(ErrorCode::BUSY) && final(self).smbus_temp
                        == old(self).smbus_temp && final(self).state == old(self).state
                            && final(self).buffer
                    == old(self).buffer
                &&& command_num <= 3 && old(self).state == State::Idle && old(self).buffer.value
                    is None ==> r == CommandReturn::Failure(ErrorCode::NOMEM)
                        && final(self).smbus_temp == old(self).smbus_temp && final(self).state
                            == old(self).state
                &&& command_num <= 3 && old(self).state == State::Idle && old(self).buffer.value
                    is Some ==> if r.ok() {
                    final(self).buffer.value is None && final(self).state == (if command_num
                        == 1 {
                        State::IsPresent
                    } else if command_num == 2 {
                        State::ReadAmbientTemp
                    } else {
                        State::ReadObjTemp
                    })
                } else {
                    final(self).buffer.value is Some && final(self).state == State::Idle
                }
            },
            1 <= command_num <= 3 && old(self).apps.admits(old(self).owning_process, process_id)
                && old(self).state == State::Idle && old(self).buffer.value is Some ==> exists|
                res: Result<(), ErrorCode>,
                tx: Vec<u8>,
                a: Result<(), (Error, Vec<u8>)>,
            |
                #[trigger] final(self).asked(
                    old(self),
                    Self::command_register(command_num),
                    Self::command_length(command_num),
                    res,
                    tx,
                    a,
                ) && r == CommandReturn::of_result(res),
    {
        if command_num == 0 {
            return CommandReturn::success();
        }
        if self.apps.may_serve(self.owning_process, process_id) {
            self.owning_process = Some(process_id);
        } else {
            return CommandReturn::failure(ErrorCode::NOMEM);
        }
        if command_num > 3 {
            return CommandReturn::failure(ErrorCode::NOSUPPORT);
        }
        if self.state != State::Idle {
            return CommandReturn::failure(ErrorCode::BUSY);
        }
        let ghost owned = *self;
        let res = if command_num == 1 {
            self.is_present()
        } else if command_num == 2 {
            self.read_ambient_temperature()
        } else {
            self.read_object_temperature()
        };
        proof {
            if old(self).buffer.value is Some {
                let (tx, a) = choose|tx: Vec<u8>, a: Result<(), (Error, Vec<u8>)>| #[trigger]
                    self.asked(
                        &owned,
                        Self::command_register(command_num),
                        Self::command_length(command_num),
                        res,
                        tx,
                        a,
                    );
                assert(self.asked(
                    old(self),
                    Self::command_register(command_num),
                    Self::command_length(command_num),
                    res,
                    tx,
                    a,
                ));
            }
        }
        CommandReturn::from_result(res)
    }

    /// Creates the record of `processid` if the process resolves.
    pub fn allocate_grant(&mut self, processid: ProcessId) -> (r: Result<
        (),
        crate::kernel::process::Error,
    >)
        requires
            old(self).wf(),
        ensures
            final(self).wf(),
            r == old(self).apps.lookup(processid),
            final(self).smbus_temp == old(self).smbus_temp,
            final(self).state == old(self).state,
            final(self).buffer == old(self).buffer,
            final(self).owning_process == old(self).owning_process,
    {
        match self.apps.enter(processid) {
            Ok(_) => Ok(()),
            Err(e) => Err(e),
        }
    }
}

impl<S: SMBusDevice> TemperatureDriver for Mlx90614SMBus<S> {
    open spec fn ready(&self) -> bool {
        self.wf()
    }

    /// Requests the temperature of the object in view.
    fn read_temperature(&mut self) -> (r: Result<(), ErrorCode>)
        ensures
            final(self).requested(old(self), REG_TOBJ1, 2, State::ReadObjTemp, r),
    {
        self.read_object_temperature()
    }
}

} // verus!
