//! Questions about the processes of a kernel.

use vstd::prelude::*;
use crate::kernel::platform::ProcessManagementCapability;
use crate::kernel::process::{ProcessId, State};

verus! {

/// What the kernel knows of one process.
pub struct Process {
    pub id: ProcessId,
    pub name: &'static str,
    pub state: State,
    /// How many system calls the process has made.
    pub syscall_count: usize,
    /// How many notifications for the process were dropped.
    pub dropped_upcall_count: usize,
    /// How often the process was restarted.
    pub restart_count: usize,
    /// How often the process used up its time slice.
    pub timeslice_expiration_count: usize,
    /// How many drivers keep a record for the process, where that is
    /// known.
    pub grant_allocated_count: Option<usize>,
}

/// The processes of a kernel, by slot, and the number of drivers that keep
/// records.
pub struct Kernel {
    pub processes: Vec<Option<Process>>,
    pub grant_count: usize,
}

/// The number of slots below `n` that hold a process.
pub open spec fn loaded(processes: Seq<Option<Process>>, n: int) -> int
    decreases n,
{
    if n <= 0 {
        0
    } else {
        loaded(processes, n - 1) + (if processes[n - 1] is Some {
            1int
        } else {
            0int
        })
    }
}

/// The number of slots below `n` that hold a process that is running or
/// yielded.
pub open spec fn active(processes: Seq<Option<Process>>, n: int) -> int
    decreases n,
{
    if n <= 0 {
        0
    } else {
        active(processes, n - 1) + (match processes[n - 1] {
            Some(p) if p.state.active() => 1int,
            _ => 0int,
        })
    }
}

/// The sum of the expired time slices of the processes in the slots below
/// `n`.
pub open spec fn expirations(processes: Seq<Option<Process>>, n: int) -> int
    decreases n,
{
    if n <= 0 {
        0
    } else {
        expirations(processes, n - 1) + (match processes[n - 1] {
            Some(p) => p.timeslice_expiration_count as int,
            None => 0int,
        })
    }
}

/// A number as a machine word: the largest word if it does not fit.
pub open spec fn capped(n: int) -> usize {
    if n > usize::MAX {
        usize::MAX
    } else {
        n as usize
    }
}

impl Kernel {
    /// The process that `app` names: the one in its slot, if it is the
    /// incarnation that `app` was given for.
    pub open spec fn process(&self, app: ProcessId) -> Option<Process> {
        if app.index < self.processes@.len() {
            match self.processes@[app.index as int] {
                Some(p) if p.id == app => Some(p),
                _ => None,
            }
        } else {
            None
        }
    }
}

/// Answers questions about the processes of a kernel, to those who hold
/// the right to ask.
pub struct KernelInfo {
    pub kernel: Kernel,
}

impl KernelInfo {
    /// A view of `kernel`.
    pub fn new(kernel: Kernel) -> (r: KernelInfo)
        ensures
            r.kernel == kernel,
    {
        KernelInfo { kernel }
    }

    /// The number of processes that are loaded.
    pub fn number_loaded_processes<C: ProcessManagementCapability>(&self, _capability: &C) -> (r:
        usize)
        ensures
            r == loaded(self.kernel.processes@, self.kernel.processes@.len() as int),
    {
        let mut count: usize = 0;
        let mut i: usize = 0;
        while i < self.kernel.processes.len()
            invariant
                i <= self.kernel.processes@.len(),
                count == loaded(self.kernel.processes@, i as int),
                count <= i,
            decreases self.kernel.processes@.len() - i,
        {
            if self.kernel.processes[i].is_some() {
                count += 1;
            }
            i += 1;
        }
        count
    }

    /// The number of processes that are running or yielded.
    pub fn number_active_processes<C: ProcessManagementCapability>(&self, _capability: &C) -> (r:
        usize)
        ensures
            r == active(self.kernel.processes@, self.kernel.processes@.len() as int),
    {
        let mut count: usize = 0;
        let mut i: usize = 0;
        while i < self.kernel.processes.len()
            invariant
                i <= self.kernel.processes@.len(),
                count == active(self.kernel.processes@, i as int),
                count <= i,
            decreases self.kernel.processes@.len() - i,
        {
            match &self.kernel.processes[i] {
                Some(p) => {
                    if p.state.is_active() {
                        count += 1;
                    }
                },
                None => {},
            }
            i += 1;
        }
        count
    }

    /// The number of processes that are loaded and neither running nor
    /// yielded.
    pub fn number_inactive_processes<C: ProcessManagementCapability>(&self, _capability: &C) -> (r:
        usize)
        ensures
            r == loaded(self.kernel.processes@, self.kernel.processes@.len() as int) - active(
                self.kernel.processes@,
                self.kernel.processes@.len() as int,
            ),
    {
        let mut count: usize = 0;
        let mut i: usize = 0;
        while i < self.kernel.processes.len()
            invariant
                i <= self.kernel.processes@.len(),
                count == loaded(self.kernel.processes@, i as int) - active(
                    self.kernel.processes@,
                    i as int,
                ),
                count <= i,
            decreases self.kernel.processes@.len() - i,
        {
            match &self.kernel.processes[i] {
                Some(p) => {
                    if !p.state.is_active() {
                        count += 1;
                    }
                },
                None => {},
            }
            i += 1;
        }
        count
    }

    /// Finds the process that `app` names.
    fn find(&self, app: ProcessId) -> (r: Option<&Process>)
        ensures
            r is Some <==> self.kernel.process(app) is Some,
            r matches Some(p) ==> *p == self.kernel.process(app)->Some_0,
    {
        if app.index < self.kernel.processes.len() {
            match &self.kernel.processes[app.index] {
                Some(p) => {
                    if p.id == app {
                        Some(p)
                    } else {
                        None
                    }
                },
                None => None,
            }
        } else {
            None
        }
    }

    /// The name of the process `app`; "unknown" if there is no such
    /// process.
    pub fn process_name<C: ProcessManagementCapability>(
        &self,
        app: ProcessId,
        _capability: &C,
    ) -> (r: &'static str)
        ensures
            r@ == (match self.kernel.process(app) {
                Some(p) => p.name@,
                None => "unknown"@,
            }),
    {
        match self.find(app) {
            Some(p) => p.name,
            None => "unknown",
        }
    }

    /// The number of system calls that the process `app` has made; zero if
    /// there is no such process.
    pub fn number_app_syscalls<C: ProcessManagementCapability>(
        &self,
        app: ProcessId,
        _capability: &C,
    ) -> (r: usize)
        ensures
            r == (match self.kernel.process(app) {
                Some(p) => p.syscall_count,
                None => 0,
            }),
    {
        match self.find(app) {
            Some(p) => p.syscall_count,
            None => 0,
        }
    }

    /// The number of notifications for the process `app` that were
    /// dropped; zero if there is no such process.
    pub fn number_app_dropped_upcalls<C: ProcessManagementCapability>(
        &self,
        app: ProcessId,
        _capability: &C,
    ) -> (r: usize)
        ensures
            r == (match self.kernel.process(app) {
                Some(p) => p.dropped_upcall_count,
                None => 0,
            }),
    {
        match self.find(app) {
            Some(p) => p.dropped_upcall_count,
            None => 0,
        }
    }

    /// How often the process `app` was restarted; zero if there is no such
    /// process.
    pub fn number_app_restarts<C: ProcessManagementCapability>(
        &self,
        app: ProcessId,
        _capability: &C,
    ) -> (r: usize)
        ensures
            r == (match self.kernel.process(app) {
                Some(p) => p.restart_count,
                None => 0,
            }),
    {
        match self.find(app) {
            Some(p) => p.restart_count,
            None => 0,
        }
    }

    /// How often the process `app` used up its time slice; zero if there
    /// is no such process.
    pub fn number_app_timeslice_expirations<C: ProcessManagementCapability>(
        &self,
        app: ProcessId,
        _capability: &C,
    ) -> (r: usize)
        ensures
            r == (match self.kernel.process(app) {
                Some(p) => p.timeslice_expiration_count,
                None => 0,
            }),
    {
        match self.find(app) {
            Some(p) => p.timeslice_expiration_count,
            None => 0,
        }
    }

    /// How many drivers keep a record for the process `app`, and how many
    /// drivers keep records at all. The first is zero if there is no such
    /// process or the number is not known.
    pub fn number_app_grant_uses<C: ProcessManagementCapability>(
        &self,
        app: ProcessId,
        _capability: &C,
    ) -> (r: (usize, usize))
        ensures
            r.1 == self.kernel.grant_count,
            r.0 == (match self.kernel.process(app) {
                Some(p) => match p.grant_allocated_count {
                    Some(n) => n,
                    None => 0,
                },
                None => 0,
            }),
    {
        let number_of_grants = self.kernel.grant_count;
        let used = match self.find(app) {
            Some(p) => match p.grant_allocated_count {
                Some(n) => n,
                None => 0,
            },
            None => 0,
        };
        (used, number_of_grants)
    }

    /// How often any process used up its time slice: the sum over all
    /// processes, or the largest machine word if the sum does not fit one.
    pub fn timeslice_expirations<C: ProcessManagementCapability>(&self, _capability: &C) -> (r:
        usize)
        ensures
            r == capped(expirations(self.kernel.processes@, self.kernel.processes@.len() as int)),
    {
        let mut count: usize = 0;
        let mut i: usize = 0;
        while i < self.kernel.processes.len()
            invariant
                i <= self.kernel.processes@.len(),
                count == capped(expirations(self.kernel.processes@, i as int)),
                expirations(self.kernel.processes@, i as int) >= 0,
            decreases self.kernel.processes@.len() - i,
        {
            match &self.kernel.processes[i] {
                Some(p) => {
                    let n = p.timeslice_expiration_count;
                    count = if n > usize::MAX - count {
                        usize::MAX
                    } else {
                        count + n
                    };
                },
                None => {},
            }
            i += 1;
        }
        count
    }
}

} // verus!
