//! Lets processes switch the bus controller on and connect it.
//!
//! A request waits in the record of the process that made it, one per
//! process, until it is served. Requests are served one at a time, in the
//! order of the processes' slots.

use vstd::prelude::*;
use crate::kernel::errorcode::ErrorCode;
use crate::kernel::grant::{Grant, GrantData, ProcessRecord};
use crate::kernel::hil::usb::Client;
use crate::kernel::process::ProcessId;
use crate::kernel::syscall::CommandReturn;

verus! {

/// What a process may ask for.
#[derive(Clone, Copy, Debug, PartialEq, Eq, Structural)]
pub enum Request {
    EnableAndAttach,
}

/// The record of a process: the request it waits for.
#[derive(Clone, Copy, Debug, PartialEq, Eq, Structural)]
pub struct App {
    pub awaiting: Option<Request>,
}

impl GrantData for App {
    open spec fn initial() -> App {
        App { awaiting: None }
    }

    fn fresh() -> App {
        App { awaiting: None }
    }
}

/// The driver of one bus controller for the processes.
pub struct UsbSyscallDriver<C: Client> {
    pub usbc_client: C,
    pub apps: Grant<App>,
    pub serving_app: Option<ProcessId>,
}

impl<C: Client> UsbSyscallDriver<C> {
    /// The records fit the driver: one subscription.
    pub open spec fn wf(&self) -> bool {
        self.apps.wf() && self.apps.upcall_count >= 1
    }

    /// The process in slot `i` waits for its request to be served.
    pub open spec fn waits(&self, i: int) -> bool {
        self.apps.allocated(i) && self.apps.records@[i].region->Some_0.awaiting is Some
    }

    /// The first slot whose process waits, from slot `from` on; the number
    /// of slots if there is none.
    pub open spec fn first_waiting(&self, from: int) -> int
        decreases self.apps.slots() - from,
    {
        if from >= self.apps.slots() {
            self.apps.slots()
        } else if self.waits(from) {
            from
        } else {
            self.first_waiting(from + 1)
        }
    }

    /// Creates the driver of `usbc_client`.
    pub fn new(usbc_client: C, apps: Grant<App>) -> (r: UsbSyscallDriver<C>)
        ensures
            r.usbc_client == usbc_client,
            r.apps == apps,
            r.serving_app is None,
    {
        UsbSyscallDriver { usbc_client, apps, serving_app: None }
    }

    /// The driver after the waiting processes were served on `before`:
    /// see `serve_waiting_apps`.
    pub open spec fn served(&self, before: &UsbSyscallDriver<C>) -> bool {
        &&& self.wf()
        &&& self.serving_app == before.serving_app
        &&& (before.serving_app is Some || before.first_waiting(0) >= before.apps.slots()
            ==> *self == *before)
        &&& (before.serving_app is None && before.first_waiting(0) < before.apps.slots() ==> {
            let i = before.first_waiting(0);
            &&& before.waits(i)
            &&& self.apps.same_but(&before.apps, i)
            &&& self.apps.records@[i].region == Some(App { awaiting: None })
            &&& self.apps.records@[i].notified(&before.apps.records@[i], 0, (0, 0, 0))
            &&& exists|on: C| #[trigger]
                on.enabled(&before.usbc_client) && self.usbc_client.attached(&on)
        })
    }

    /// This is the driver `before` with the request of `processid` to be
    /// connected written into its record.
    pub open spec fn recorded(&self, before: &UsbSyscallDriver<C>, processid: ProcessId) -> bool {
        let i = processid.index as int;
        &&& self.usbc_client == before.usbc_client
        &&& self.serving_app == before.serving_app
        &&& self.apps.same_but(&before.apps, i)
        &&& self.apps.records@[i] == (crate::kernel::grant::ProcessRecord {
            region: Some(App { awaiting: Some(Request::EnableAndAttach) }),
            ..before.apps.records@[i]
        })
    }

    /// Serves the first process that waits, in the order of the slots: the
    /// controller is switched on and connected, the process is notified of
    /// the success, and its request is cleared. Nothing is done while a
    /// process is being served, or if no process waits.
    pub fn serve_waiting_apps(&mut self)
        requires
            old(self).wf(),
        ensures
            final(self).served(old(self)),
    {
        if self.serving_app.is_some() {
            return ;
        }
        let n = self.apps.len();
        let mut i: usize = 0;
        while i < n
            invariant
                n == self.apps.slots(),
                i <= n,
                *self == *old(self),
                self.serving_app is None,
                self.wf(),
                self.first_waiting(0) == self.first_waiting(i as int),
            decreases n - i,
        {
            if self.apps.is_allocated(i) {
                let mut app = self.apps.get(i);
                match app.awaiting {
                    Some(Request::EnableAndAttach) => {
                        assert(old(self).first_waiting(i as int) == i as int);
                        self.usbc_client.enable();
                        let ghost on = self.usbc_client;
                        self.usbc_client.attach();
                        assert(on.enabled(&old(self).usbc_client) && self.usbc_client.attached(
                            &on,
                        ));
                        let _ = self.apps.schedule_upcall(i, 0, (0, 0, 0));
                        app.awaiting = None;
                        self.apps.set(i, app);
                        return ;
                    },
                    None => {},
                }
            }
            i += 1;
        }
    }

    /// What asking to be connected is answered: `BUSY` while the process
    /// waits for an earlier request, the error of the lookup if the process
    /// does not resolve, success otherwise.
    pub open spec fn request_outcome(&self, processid: ProcessId) -> Result<(), ErrorCode> {
        match self.apps.lookup(processid) {
            Err(e) => Err(e.as_errorcode()),
            Ok(()) => if self.apps.entered(processid.index as int).awaiting is Some {
                Err(ErrorCode::BUSY)
            } else {
                Ok(())
            },
        }
    }

    /// A command of the process `processid`: 0 asks whether the driver is
    /// there; 1 asks for the controller to be switched on and connected.
    /// That request is refused as `request_outcome` tells, and then nothing
    /// changes; otherwise it is recorded and the waiting processes are
    /// served. Every other command is refused with `NOSUPPORT`.
    pub fn command(
        &mut self,
        command_num: usize,
        _arg: usize,
        _arg2: usize,
        processid: ProcessId,
    ) -> (r: CommandReturn)
        requires
            old(self).wf(),
        ensures
            final(self).wf(),
            final(self).serving_app == old(self).serving_app,
            command_num == 0 ==> r == CommandReturn::Success && *final(self) == *old(self),
            command_num > 1 ==> r == CommandReturn::Failure(ErrorCode::NOSUPPORT) && *final(self)
                == *old(self),
            command_num == 1 ==> r
                == CommandReturn::of_result(old(self).request_outcome(processid)),
            command_num == 1 && !r.ok() ==> *final(self) == *old(self),
            command_num == 1 && r.ok() ==> exists|mid: UsbSyscallDriver<C>| #[trigger]
                mid.recorded(old(self), processid) && final(self).served(&mid),
    {
        if command_num == 0 {
            CommandReturn::success()
        } else if command_num == 1 {
            let i = match self.apps.enter(processid) {
                Err(e) => {
                    return CommandReturn::failure(e.into_errorcode());
                },
                Ok(i) => i,
            };
            let mut app = self.apps.get(i);
            if app.awaiting.is_some() {
                assert(old(self).apps.records@[i as int].region is Some) by {
                    assert(App::initial().awaiting is None);
                }
                CommandReturn::failure(ErrorCode::BUSY)
            } else {
                app.awaiting = Some(Request::EnableAndAttach);
                self.apps.set(i, app);
                let ghost mid = *self;
                self.serve_waiting_apps();
                assert(mid.recorded(old(self), processid) && self.served(&mid));
                CommandReturn::success()
            }
        } else {
            CommandReturn::failure(ErrorCode::NOSUPPORT)
        }
    }

    /// Creates the record of `processid` if the process resolves.
    pub fn allocate_grant(&mut self, processid: ProcessId) -> (r: Result<
        (),
        crate::kernel::process::Error,
    >)
        requires
            old(self).wf(),
        ensures
            final(self).wf(),
            r == old(self).apps.lookup(processid),
            final(self).usbc_client == old(self).usbc_client,
            final(self).serving_app == old(self).serving_app,
    {
        match self.apps.enter(processid) {
            Ok(_) => Ok(()),
            Err(e) => Err(e),
        }
    }
}

} // verus!
