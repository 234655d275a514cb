//! Lets processes read a humidity sensor.
//!
//! One measurement serves every process that asked for one while it was
//! under way: when the sensor reports the value, all of them are notified.

use vstd::prelude::*;
use crate::kernel::errorcode::ErrorCode;
use crate::kernel::grant::{Grant, GrantData, ProcessRecord};
use crate::kernel::hil::sensors::HumidityDriver;
use crate::kernel::process::ProcessId;
use crate::kernel::syscall::CommandReturn;

verus! {

/// What a process may ask for.
#[derive(Clone, Copy, Debug, PartialEq, Eq, Structural)]
pub enum HumidityCommand {
    Exists,
    ReadHumidity,
}

/// The record of a process: whether it waits for a measurement.
#[derive(Clone, Copy, Debug, PartialEq, Eq, Structural)]
pub struct App {
    pub subscribed: bool,
}

impl GrantData for App {
    open spec fn initial() -> App {
        App { subscribed: false }
    }

    fn fresh() -> App {
        App { subscribed: false }
    }
}

/// The driver of one sensor for the processes.
pub struct HumiditySensor<H: HumidityDriver> {
    pub driver: H,
    pub apps: Grant<App>,
    pub busy: bool,
}

impl<H: HumidityDriver> HumiditySensor<H> {
    /// The records fit the driver: one subscription.
    pub open spec fn wf(&self) -> bool {
        self.apps.wf() && self.apps.upcall_count >= 1 && self.driver.ready()
    }

    /// Creates the driver of `driver`.
    pub fn new(driver: H, grant: Grant<App>) -> (r: HumiditySensor<H>)
        ensures
            r.driver == driver,
            r.apps == grant,
            !r.busy,
    {
        HumiditySensor { driver, apps: grant, busy: false }
    }

    /// What becomes of a request made while the sensor was idle, once the
    /// sensor has answered: accepted, a measurement is under way; refused,
    /// the sensor is idle and the reason is returned.
    pub fn start_answered(&mut self, answer: CommandReturn) -> (r: CommandReturn)
        ensures
            r == answer,
            final(self).busy == answer.ok(),
            final(self).apps == old(self).apps,
            final(self).driver == old(self).driver,
    {
        self.busy = answer.is_success();
        answer
    }

    /// The driver after the process `processid` asked for `command` on
    /// `before` and was answered with `r`: see `enqueue_command`.
    pub open spec fn enqueued(
        &self,
        before: &HumiditySensor<H>,
        command: HumidityCommand,
        processid: ProcessId,
        r: CommandReturn,
    ) -> bool {
        &&& self.wf()
        &&& (match before.apps.lookup(processid) {
            Err(e) => r == CommandReturn::Failure(e.as_errorcode()) && *self
                == *before,
            Ok(()) => {
                let i = processid.index as int;
                &&& self.apps.same_but(&before.apps, i)
                &&& self.apps.records@[i] == (ProcessRecord {
                    region: Some(App { subscribed: true }),
                    ..before.apps.records@[i]
                })
                &&& before.busy ==> r == CommandReturn::Success && self.busy
                    && self.driver == before.driver
                &&& !before.busy ==> self.busy == r.ok()
                &&& !before.busy && command != HumidityCommand::ReadHumidity ==> r
                    == CommandReturn::Failure(ErrorCode::NOSUPPORT) && self.driver
                    == before.driver
                &&& !before.busy && command == HumidityCommand::ReadHumidity
                    ==> exists|a: Result<(), ErrorCode>| #[trigger]
                    self.driver.humidity_asked(&before.driver, a) && r
                        == CommandReturn::of_result(a)
            },
        })
    }

    /// Takes the request of `processid` for `command`.
    ///
    /// A process that does not resolve is refused with the error of the
    /// lookup, and nothing changes. Otherwise the process waits for the
    /// measurement from now on. While one is under way that is all, and the
    /// sensor is not touched; else the sensor is asked, and its answer
    /// decides: see `start_answered`.
    pub fn enqueue_command(
        &mut self,
        command: HumidityCommand,
        arg1: usize,
        processid: ProcessId,
    ) -> (r: CommandReturn)
        requires
            old(self).wf(),
        ensures
            final(self).enqueued(old(self), command, processid, r),
    {
        match self.apps.enter(processid) {
            Err(e) => CommandReturn::failure(e.into_errorcode()),
            Ok(i) => {
                self.apps.set(i, App { subscribed: true });
                if !self.busy {
                    let ghost ready = *self;
                    let answer = self.call_driver(command, arg1);
                    let ghost called = *self;
                    let r = self.start_answered(answer);
                    proof {
                        if command == HumidityCommand::ReadHumidity {
                            let a = choose|a: Result<(), ErrorCode>| #[trigger]
                                called.driver.humidity_asked(&ready.driver, a) && answer
                                    == CommandReturn::of_result(a);
                            assert(self.driver.humidity_asked(&old(self).driver, a));
                        }
                    }
                    r
                } else {
                    CommandReturn::success()
                }
            },
        }
    }

    /// Asks the sensor to carry out `command`. Only a measurement can be
    /// asked of it: anything else is refused with `NOSUPPORT` and the sensor
    /// is not touched.
    pub fn call_driver(&mut self, command: HumidityCommand, _arg: usize) -> (r: CommandReturn)
        requires
            old(self).driver.ready(),
        ensures
            final(self).driver.ready(),
            final(self).apps == old(self).apps,
            final(self).busy == old(self).busy,
            command != HumidityCommand::ReadHumidity ==> r == CommandReturn::Failure(
                ErrorCode::NOSUPPORT,
            ) && final(self).driver == old(self).driver,
            command == HumidityCommand::ReadHumidity ==> exists|a: Result<(), ErrorCode>|
             #[trigger] final(self).driver.humidity_asked(&old(self).driver, a) && r
                == CommandReturn::of_result(a),
    {
        match command {
            HumidityCommand::ReadHumidity => {
                let a = self.driver.read_humidity();
                assert(self.driver.humidity_asked(&old(self).driver, a));
                CommandReturn::from_result(a)
            },
            _ => CommandReturn::failure(ErrorCode::NOSUPPORT),
        }
    }

    /// The process in slot `i` waits for the measurement.
    pub open spec fn subscribed(&self, i: int) -> bool {
        self.apps.allocated(i) && self.apps.records@[i].region->Some_0.subscribed
    }

    /// The sensor reports the value `humidity_val`: no measurement is
    /// under way any more, and every process that waited is notified of the
    /// value and waits no longer. The records of all others, and of
    /// processes that are gone, are untouched.
    pub fn callback(&mut self, humidity_val: usize)
        requires
            old(self).wf(),
        ensures
            final(self).wf(),
            !final(self).busy,
            final(self).driver == old(self).driver,
            final(self).apps.slots() == old(self).apps.slots(),
            forall|i: int|
                0 <= i < old(self).apps.slots() ==> if old(self).subscribed(i) {
                    &&& (#[trigger] final(self).apps.records@[i]).region == Some(
                        App { subscribed: false },
                    )
                    &&& final(self).apps.records@[i].notified(
                        &old(self).apps.records@[i],
                        0,
                        (humidity_val, 0, 0),
                    )
                } else {
                    final(self).apps.records@[i] == old(self).apps.records@[i]
                },
    {
        self.busy = false;
        let n = self.apps.len();
        let mut i: usize = 0;
        while i < n
            invariant
                n == old(self).apps.slots(),
                i <= n,
                self.wf(),
                !self.busy,
                self.driver == old(self).driver,
                self.apps.slots() == old(self).apps.slots(),
                forall|j: int|
                    0 <= j < i ==> if old(self).subscribed(j) {
                        &&& (#[trigger] self.apps.records@[j]).region == Some(
                            App { subscribed: false },
                        )
                        &&& self.apps.records@[j].notified(
                            &old(self).apps.records@[j],
                            0,
                            (humidity_val, 0, 0),
                        )
                    } else {
                        self.apps.records@[j] == old(self).apps.records@[j]
                    },
                forall|j: int|
                    i <= j < n ==> (#[trigger] self.apps.records@[j]) == old(self).apps.records@[j],
            decreases n - i,
        {
            assert(self.apps.records@[i as int] == old(self).apps.records@[i as int]);
            if self.apps.is_allocated(i) {
                let app = self.apps.get(i);
                if app.subscribed {
                    self.apps.set(i, App { subscribed: false });
                    let _ = self.apps.schedule_upcall(i, 0, (humidity_val, 0, 0));
                }
            }
            i += 1;
        }
    }

    /// A command of the process `processid`: 0 asks whether the driver is
    /// there, 1 asks for a measurement, as `enqueue_command` describes.
    /// Every other command is refused with `NOSUPPORT`.
    pub fn command(
        &mut self,
        command_num: usize,
        arg1: usize,
        _arg2: usize,
        processid: ProcessId,
    ) -> (r: CommandReturn)
        requires
            old(self).wf(),
        ensures
            final(self).wf(),
            command_num == 0 ==> r == CommandReturn::Success && *final(self) == *old(self),
            command_num > 1 ==> r == CommandReturn::Failure(ErrorCode::NOSUPPORT) && *final(self)
                == *old(self),
            command_num == 1 ==> final(self).enqueued(
                old(self),
                HumidityCommand::ReadHumidity,
                processid,
                r,
            ),
    {
        if command_num == 0 {
            CommandReturn::success()
        } else if command_num == 1 {
            self.enqueue_command(HumidityCommand::ReadHumidity, arg1, processid)
        } else {
            CommandReturn::failure(ErrorCode::NOSUPPORT)
        }
    }

    /// Creates the record of `processid` if the process resolves.
    pub fn allocate_grant(&mut self, processid: ProcessId) -> (r: Result<
        (),
        crate::kernel::process::Error,
    >)
        requires
            old(self).wf(),
        ensures
            final(self).wf(),
            r == old(self).apps.lookup(processid),
            final(self).driver == old(self).driver,
            final(self).busy == old(self).busy,
    {
        match self.apps.enter(processid) {
            Ok(_) => Ok(()),
            Err(e) => Err(e),
        }
    }
}

} // verus!
