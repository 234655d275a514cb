//! Shares one storage chip between processes and one kernel client.
//!
//! Processes see a window of the chip that starts at address zero; the
//! kernel client sees its own region under the chip's addresses. One
//! transfer runs at a time. A request that arrives meanwhile waits: that
//! of a process in the process's record, that of the kernel in the
//! driver. When a transfer completes, the kernel's request is served
//! before those of the processes, which are served in the order of their
//! slots.

use vstd::prelude::*;
use crate::kernel::cells::TakeCell;
use crate::kernel::errorcode::ErrorCode;
use crate::kernel::grant::{overwritten, Grant, GrantData, ProcessRecord};
use crate::kernel::hil::nonvolatile_storage::{Done, NonvolatileStorage as Storage};
use crate::kernel::process::ProcessId;
use crate::kernel::syscall::CommandReturn;
use crate::kernel::math::{least, smaller};

verus! {

/// The length of the buffer that travels to the chip for the processes.
pub const BUF_LEN: usize = 512;

/// The subscription told of a finished read.
pub const UPCALL_READ_DONE: usize = 0;

/// The subscription told of a finished write.
pub const UPCALL_WRITE_DONE: usize = 1;

/// The read-only buffer that a process shares to write from.
pub const RO_ALLOW_WRITE: usize = 0;

/// The read-write buffer that a process shares to read into.
pub const RW_ALLOW_READ: usize = 0;

/// The transfers that can be asked for.
#[derive(Clone, Copy, Debug, PartialEq, Eq, Structural)]
pub enum NonvolatileCommand {
    UserspaceRead,
    UserspaceWrite,
    KernelRead,
    KernelWrite,
}

impl NonvolatileCommand {
    /// The transfer was asked for by a process.
    pub open spec fn userspace(self) -> bool {
        self == NonvolatileCommand::UserspaceRead || self == NonvolatileCommand::UserspaceWrite
    }

    /// Tells whether the transfer was asked for by a process.
    pub fn is_userspace(self) -> (r: bool)
        ensures
            r == self.userspace(),
    {
        match self {
            NonvolatileCommand::UserspaceRead => true,
            NonvolatileCommand::UserspaceWrite => true,
            _ => false,
        }
    }
}

/// Who a transfer runs for.
#[derive(Clone, Copy, Debug, PartialEq, Eq, Structural)]
pub enum NonvolatileUser {
    App { processid: ProcessId },
    Kernel,
}

/// The record of a process: its waiting request.
#[derive(Clone, Copy, Debug, PartialEq, Eq, Structural)]
pub struct App {
    pub pending_command: bool,
    pub command: NonvolatileCommand,
    pub offset: usize,
    pub length: usize,
}

impl GrantData for App {
    open spec fn initial() -> App {
        App {
            pending_command: false,
            command: NonvolatileCommand::UserspaceRead,
            offset: 0,
            length: 0,
        }
    }

    fn fresh() -> App {
        App {
            pending_command: false,
            command: NonvolatileCommand::UserspaceRead,
            offset: 0,
            length: 0,
        }
    }
}

/// The chip and the processes' buffer, as a scan of the waiting requests
/// finds and leaves them.
pub struct Chip<D: Storage> {
    pub driver: D,
    pub buffer: Option<Vec<u8>>,
}

/// The arbiter of one storage chip.
pub struct NonvolatileStorage<D: Storage> {
    pub driver: D,
    pub apps: Grant<App>,
    /// The buffer that travels to the chip for the processes.
    pub buffer: TakeCell<Vec<u8>>,
    /// Who the transfer in flight runs for.
    pub current_user: Option<NonvolatileUser>,
    pub userspace_start_address: usize,
    pub userspace_length: usize,
    pub kernel_start_address: usize,
    pub kernel_length: usize,
    /// The waiting request of the kernel client.
    pub kernel_pending_command: bool,
    pub kernel_command: NonvolatileCommand,
    /// The buffer of the kernel client, while its request waits.
    pub kernel_buffer: TakeCell<Vec<u8>>,
    pub kernel_readwrite_length: usize,
    pub kernel_readwrite_address: usize,
}

impl<D: Storage> NonvolatileStorage<D> {
    /// The driver's state is consistent: the two regions end within the
    /// address space; each waiting request of a process starts inside the
    /// window; the kernel's waiting request has its buffer; and the
    /// processes' buffer is with the driver unless a transfer for a process
    /// is in flight.
    pub open spec fn valid(&self) -> bool {
        &&& self.driver.ready()
        &&& self.apps.wf()
        &&& self.apps.upcall_count >= 2
        &&& self.apps.ro_count >= 1
        &&& self.apps.rw_count >= 1
        &&& self.userspace_start_address + self.userspace_length <= usize::MAX
        &&& self.kernel_start_address + self.kernel_length <= usize::MAX
        &&& forall|i: int|
            self.apps.allocated(i)
                && (#[trigger] self.apps.records@[i]).region->Some_0.pending_command
                ==> self.apps.records@[i].region->Some_0.offset < self.userspace_length
        &&& (self.kernel_pending_command ==> self.kernel_buffer.value is Some)
        &&& (!(self.current_user matches Some(NonvolatileUser::App { .. }))
            ==> self.buffer.value is Some)
    }

    /// The state between two calls: consistent, and nothing waits while the
    /// chip is free.
    pub open spec fn wf(&self) -> bool {
        &&& self.valid()
        &&& (self.current_user is None ==> self.nothing_waits())
    }

    /// Neither the kernel nor a process has a request waiting.
    pub open spec fn nothing_waits(&self) -> bool {
        &&& !self.kernel_pending_command
        &&& forall|i: int|
            self.apps.allocated(i)
                ==> !(#[trigger] self.apps.records@[i]).region->Some_0.pending_command
    }

    /// The process in slot `i` has a request waiting.
    pub open spec fn waits(&self, i: int) -> bool {
        self.apps.allocated(i) && self.apps.records@[i].region->Some_0.pending_command
    }

    /// Everything but the process records, the owner and the processes'
    /// buffer is as in `other`: the kernel's waiting request and the
    /// regions.
    pub open spec fn same_kernel_side(&self, other: &NonvolatileStorage<D>) -> bool {
        &&& self.userspace_start_address == other.userspace_start_address
        &&& self.userspace_length == other.userspace_length
        &&& self.kernel_start_address == other.kernel_start_address
        &&& self.kernel_length == other.kernel_length
        &&& self.kernel_pending_command == other.kernel_pending_command
        &&& self.kernel_command == other.kernel_command
        &&& self.kernel_buffer == other.kernel_buffer
        &&& self.kernel_readwrite_length == other.kernel_readwrite_length
        &&& self.kernel_readwrite_address == other.kernel_readwrite_address
    }

    /// The regions are those of `other`.
    pub open spec fn same_regions(&self, other: &NonvolatileStorage<D>) -> bool {
        &&& self.userspace_start_address == other.userspace_start_address
        &&& self.userspace_length == other.userspace_length
        &&& self.kernel_start_address == other.kernel_start_address
        &&& self.kernel_length == other.kernel_length
    }

    /// Creates the arbiter of `driver`. Processes see `userspace_length`
    /// bytes from `userspace_start_address` on; the kernel client sees
    /// `kernel_length` bytes from `kernel_start_address` on.
    pub fn new(
        driver: D,
        grant: Grant<App>,
        userspace_start_address: usize,
        userspace_length: usize,
        kernel_start_address: usize,
        kernel_length: usize,
        buffer: Vec<u8>,
    ) -> (r: NonvolatileStorage<D>)
        ensures
            r.driver == driver,
            r.apps == grant,
            r.buffer.value == Some(buffer),
            r.current_user is None,
            r.userspace_start_address == userspace_start_address,
            r.userspace_length == userspace_length,
            r.kernel_start_address == kernel_start_address,
            r.kernel_length == kernel_length,
            !r.kernel_pending_command,
            r.kernel_buffer.value is None,
    {
        NonvolatileStorage {
            driver,
            apps: grant,
            buffer: TakeCell::new(buffer),
            current_user: None,
            userspace_start_address,
            userspace_length,
            kernel_start_address,
            kernel_length,
            kernel_pending_command: false,
            kernel_command: NonvolatileCommand::KernelRead,
            kernel_buffer: TakeCell::empty(),
            kernel_readwrite_length: 0,
            kernel_readwrite_address: 0,
        }
    }

    /// The transfer lies inside the region of those who may ask for it:
    /// for a process, inside the window, by offset; for the kernel, inside
    /// its region, by address. An empty window or region admits nothing.
    pub open spec fn in_bounds(
        &self,
        command: NonvolatileCommand,
        offset: usize,
        length: usize,
    ) -> bool {
        if command.userspace() {
            offset < self.userspace_length && offset + length <= self.userspace_length
        } else {
            self.kernel_start_address <= offset && offset < self.kernel_start_address
                + self.kernel_length && offset + length <= self.kernel_start_address
                + self.kernel_length
        }
    }

    /// Tells whether a transfer lies inside the region of those who may ask
    /// for it.
    pub fn check_bounds(&self, command: NonvolatileCommand, offset: usize, length: usize) -> (r:
        bool)
        requires
            self.kernel_start_address + self.kernel_length <= usize::MAX,
        ensures
            r == self.in_bounds(command, offset, length),
    {
        if command.is_userspace() {
            offset < self.userspace_length && length <= self.userspace_length - offset
        } else {
            let end = self.kernel_start_address + self.kernel_length;
            offset >= self.kernel_start_address && offset < end && length <= end - offset
        }
    }

    /// Copies the first `length` bytes that the process in slot `i` shared
    /// for writing into the driver's buffer, as far as both reach. Without
    /// the buffer nothing is copied.
    pub fn stage_write(&mut self, i: usize, length: usize)
        requires
            old(self).apps.wf(),
            i < old(self).apps.slots(),
        ensures
            final(self).driver == old(self).driver,
            final(self).apps == old(self).apps,
            final(self).current_user == old(self).current_user,
            final(self).same_kernel_side(old(self)),
            match old(self).buffer.value {
                None => final(self).buffer.value is None,
                Some(b) => {
                    let count = least(
                        least(length as int, b@.len() as int),
                        old(self).apps.ro_size(i as int, RO_ALLOW_WRITE as int),
                    );
                    &&& final(self).buffer.value is Some
                    &&& final(self).buffer.value->Some_0@.len() == b@.len()
                    &&& count > 0 ==> final(self).buffer.value->Some_0@ == overwritten(
                        b@,
                        old(self).apps.ro_bytes(i as int, RO_ALLOW_WRITE as int),
                        count,
                    )
                    &&& count == 0 ==> final(self).buffer.value == Some(b)
                },
            },
    {
        match self.buffer.take() {
            None => {},
            Some(mut kernel_buffer) => {
                let write_len = smaller(
                    smaller(length, kernel_buffer.len()),
                    self.apps.ro_len(i, RO_ALLOW_WRITE),
                );
                self.apps.copy_from_ro(i, RO_ALLOW_WRITE, &mut kernel_buffer, write_len);
                self.buffer.put(Some(kernel_buffer));
            },
        }
    }

    /// What the caller is answered once the chip has answered `a`.
    pub open spec fn outcome(a: Result<(), (ErrorCode, Vec<u8>)>) -> Result<(), ErrorCode> {
        match a {
            Ok(()) => Ok(()),
            Err((e, _)) => Err(e),
        }
    }

    /// The buffer that the chip hands back with the answer `a`: the one
    /// of a refusal.
    pub open spec fn handed_back(a: Result<(), (ErrorCode, Vec<u8>)>) -> Option<Vec<u8>> {
        match a {
            Ok(()) => None,
            Err((_, b)) => Some(b),
        }
    }

    /// The chip `chip` is what the chip `before` became when it was asked
    /// for the transfer that `command` stands for, of `length` bytes at the
    /// address `address` with `buffer`, and answered `a`.
    pub open spec fn asked(
        chip: D,
        before: D,
        command: NonvolatileCommand,
        buffer: Vec<u8>,
        address: usize,
        length: usize,
        a: Result<(), (ErrorCode, Vec<u8>)>,
    ) -> bool {
        if command == NonvolatileCommand::UserspaceRead || command
            == NonvolatileCommand::KernelRead {
            chip.read_asked(&before, buffer, address, length, a)
        } else {
            chip.write_asked(&before, buffer, address, length, a)
        }
    }

    /// The chip of this driver is what the chip of `before` became when
    /// it was asked for the transfer of a process: with the buffer
    /// `buffer`, for as many of `length` bytes as the buffer holds, at the
    /// address that `offset` has behind the start of the window. The chip
    /// answered `a`: the caller is answered `r`, the chip's reason if it
    /// refused, and a refusal leaves the buffer that the chip handed back
    /// with the driver.
    pub open spec fn userspace_called(
        &self,
        before: &NonvolatileStorage<D>,
        command: NonvolatileCommand,
        buffer: Vec<u8>,
        offset: usize,
        length: usize,
        r: Result<(), ErrorCode>,
        a: Result<(), (ErrorCode, Vec<u8>)>,
    ) -> bool {
        &&& Self::asked(
            self.driver,
            before.driver,
            command,
            buffer,
            (offset + before.userspace_start_address) as usize,
            least(length as int, buffer@.len() as int) as usize,
            a,
        )
        &&& r == Self::outcome(a)
        &&& self.buffer.value == Self::handed_back(a)
        &&& (a matches Err((_, back)) ==> back@.len() == buffer@.len())
    }

    /// The chip of this driver is what the chip of `before` became when
    /// it was asked for the transfer of the kernel client: with the buffer
    /// `buffer`, for `length` bytes at `address`. The chip answered `a`: the
    /// caller is answered `r`, and a refusal leaves the buffer that the chip
    /// handed back in the kernel's holder.
    pub open spec fn kernel_called(
        &self,
        before: &NonvolatileStorage<D>,
        command: NonvolatileCommand,
        buffer: Vec<u8>,
        address: usize,
        length: usize,
        r: Result<(), ErrorCode>,
        a: Result<(), (ErrorCode, Vec<u8>)>,
    ) -> bool {
        &&& Self::asked(self.driver, before.driver, command, buffer, address, length, a)
        &&& r == Self::outcome(a)
        &&& self.kernel_buffer.value == Self::handed_back(a)
        &&& (a matches Err((_, back)) ==> back@.len() == buffer@.len())
    }

    /// Hands the processes' buffer to the chip for a transfer of `length`
    /// bytes at `offset` of the window: the chip is asked for as many bytes
    /// as the buffer holds at most, at the address that `offset` has behind
    /// the start of the window. Without the buffer the answer is
    /// `RESERVE`; a kernel transfer is none of this function's and gives
    /// `FAIL`; the chip's refusal is returned as it is. The buffer is back
    /// with the driver after every failure.
    pub fn userspace_call_driver(
        &mut self,
        command: NonvolatileCommand,
        offset: usize,
        length: usize,
    ) -> (r: Result<(), ErrorCode>)
        requires
            old(self).driver.ready(),
            offset + old(self).userspace_start_address <= usize::MAX,
        ensures
            final(self).driver.ready(),
            final(self).apps == old(self).apps,
            final(self).current_user == old(self).current_user,
            final(self).same_kernel_side(old(self)),
            old(self).buffer.value is None ==> r == Err::<(), ErrorCode>(ErrorCode::RESERVE)
                && *final(self) == *old(self),
            old(self).buffer.value is Some && !command.userspace() ==> r == Err::<(), ErrorCode>(
                ErrorCode::FAIL,
            ) && *final(self) == *old(self),
            old(self).buffer.value is Some && command.userspace() ==> exists|
                a: Result<(), (ErrorCode, Vec<u8>)>,
            | #[trigger]
                final(self).userspace_called(
                    old(self),
                    command,
                    old(self).buffer.value->Some_0,
                    offset,
                    length,
                    r,
                    a,
                ),
    {
        let physical_address = offset + self.userspace_start_address;
        if !command.is_userspace() {
            return if self.buffer.is_none() {
                Err(ErrorCode::RESERVE)
            } else {
                Err(ErrorCode::FAIL)
            };
        }
        match self.buffer.take() {
            None => Err(ErrorCode::RESERVE),
            Some(buffer) => {
                let active_len = smaller(length, buffer.len());
                let answer = match command {
                    NonvolatileCommand::UserspaceRead => self.driver.read(
                        buffer,
                        physical_address,
                        active_len,
                    ),
                    _ => self.driver.write(buffer, physical_address, active_len),
                };
                let ghost a = answer;
                let r = self.transfer_answered(answer);
                assert(self.userspace_called(old(self), command, buffer, offset, length, r, a));
                r
            },
        }
    }

    /// What becomes of a transfer for a process once the chip has answered:
    /// refused, the buffer is back with the driver and the chip's reason is
    /// returned.
    pub fn transfer_answered(&mut self, answer: Result<(), (ErrorCode, Vec<u8>)>) -> (r: Result<
        (),
        ErrorCode,
    >)
        requires
            old(self).buffer.value is None,
        ensures
            final(self).driver == old(self).driver,
            final(self).apps == old(self).apps,
            final(self).current_user == old(self).current_user,
            final(self).same_kernel_side(old(self)),
            r == Self::outcome(answer),
            final(self).buffer.value == Self::handed_back(answer),
    {
        match answer {
            Ok(()) => Ok(()),
            Err((e, buffer)) => {
                self.buffer.put(Some(buffer));
                Err(e)
            },
        }
    }

    /// What becomes of the chip once a request made for `user` on the free
    /// chip was answered: accepted, `user` owns the chip; refused, the chip
    /// stays free and the reason is returned.
    pub fn start_answered(&mut self, user: NonvolatileUser, answer: Result<(), ErrorCode>) -> (r:
        Result<(), ErrorCode>)
        requires
            old(self).current_user is None,
        ensures
            r == answer,
            final(self).current_user == (if answer is Ok {
                Some(user)
            } else {
                None
            }),
            final(self).driver == old(self).driver,
            final(self).apps == old(self).apps,
            final(self).buffer == old(self).buffer,
            final(self).same_kernel_side(old(self)),
    {
        if answer.is_ok() {
            self.current_user = Some(user);
        }
        answer
    }

    /// Hands `buffer` to the chip for a transfer of the kernel client,
    /// `length` bytes at `address`. Refused by the chip, the buffer waits in
    /// the kernel's holder and the chip's reason is returned.
    fn kernel_call_driver(
        &mut self,
        command: NonvolatileCommand,
        buffer: Vec<u8>,
        address: usize,
        length: usize,
    ) -> (r: Result<(), ErrorCode>)
        requires
            old(self).driver.ready(),
            old(self).kernel_buffer.value is None,
        ensures
            final(self).driver.ready(),
            final(self).apps == old(self).apps,
            final(self).buffer == old(self).buffer,
            final(self).current_user == old(self).current_user,
            final(self).same_regions(old(self)),
            final(self).kernel_pending_command == old(self).kernel_pending_command,
            final(self).kernel_command == old(self).kernel_command,
            final(self).kernel_readwrite_length == old(self).kernel_readwrite_length,
            final(self).kernel_readwrite_address == old(self).kernel_readwrite_address,
            command.userspace() ==> r == Err::<(), ErrorCode>(ErrorCode::FAIL)
                && final(self).driver == old(self).driver && final(self).kernel_buffer.value
                == Some(buffer),
            !command.userspace() ==> exists|a: Result<(), (ErrorCode, Vec<u8>)>| #[trigger]
                final(self).kernel_called(old(self), command, buffer, address, length, r, a),
    {
        let answer = match command {
            NonvolatileCommand::KernelRead => self.driver.read(buffer, address, length),
            NonvolatileCommand::KernelWrite => self.driver.write(buffer, address, length),
            _ => Err((ErrorCode::FAIL, buffer)),
        };
        let ghost a = answer;
        let r = match answer {
            Ok(()) => Ok(()),
            Err((e, buffer)) => {
                self.kernel_buffer.put(Some(buffer));
                Err(e)
            },
        };
        proof {
            if !command.userspace() {
                assert(self.kernel_called(old(self), command, buffer, address, length, r, a));
            }
        }
        r
    }

    /// What a request of the process `processid` is answered before the
    /// chip is asked or the request is queued: the reason of the refusal,
    /// or nothing in the way. A process that has shared no buffer for the
    /// transfer needs a reservation, and so does a transfer that should
    /// start without the driver's buffer; while the chip is owned, a process
    /// that has a request waiting is busy.
    pub open spec fn userspace_admission(
        &self,
        command: NonvolatileCommand,
        processid: Option<ProcessId>,
    ) -> Result<(), ErrorCode> {
        match processid {
            None => Err(ErrorCode::FAIL),
            Some(id) => match self.apps.lookup(id) {
                Err(e) => Err(e.as_errorcode()),
                Ok(()) => {
                    let shared = if command == NonvolatileCommand::UserspaceRead {
                        self.apps.rw_size(id.index as int, RW_ALLOW_READ as int)
                    } else {
                        self.apps.ro_size(id.index as int, RO_ALLOW_WRITE as int)
                    };
                    if shared == 0 {
                        Err(ErrorCode::RESERVE)
                    } else if self.current_user is Some {
                        if self.apps.entered(id.index as int).pending_command {
                            Err(ErrorCode::BUSY)
                        } else {
                            Ok(())
                        }
                    } else if self.buffer.value is None {
                        Err(ErrorCode::RESERVE)
                    } else {
                        Ok(())
                    }
                },
            },
        }
    }

    /// The number of bytes of a process's transfer of `length` bytes: no
    /// more than the process has shared.
    pub open spec fn userspace_len(
        &self,
        command: NonvolatileCommand,
        index: int,
        length: usize,
    ) -> int {
        least(
            length as int,
            if command == NonvolatileCommand::UserspaceRead {
                self.apps.rw_size(index, RW_ALLOW_READ as int)
            } else {
                self.apps.ro_size(index, RO_ALLOW_WRITE as int)
            },
        )
    }

    /// The driver after a request for a transfer of `length` bytes at
    /// `offset` was made on `before` and answered with `r`: see
    /// `enqueue_command`.
    pub open spec fn enqueued(
        &self,
        before: &NonvolatileStorage<D>,
        command: NonvolatileCommand,
        offset: usize,
        length: usize,
        processid: Option<ProcessId>,
        r: Result<(), ErrorCode>,
    ) -> bool {
        &&& self.wf()
        &&& self.same_regions(before)
        &&& if !before.in_bounds(command, offset, length) {
            r == Err::<(), ErrorCode>(ErrorCode::INVAL) && *self == *before
        } else if command.userspace() {
            self.same_kernel_side(before) && self.enqueued_for_process(
                before,
                command,
                offset,
                length,
                processid,
                r,
            )
        } else {
            self.apps == before.apps && self.buffer == before.buffer
                && self.enqueued_for_kernel(before, command, offset, length, r)
        }
    }

    /// `handed` is the buffer `b` made ready for the transfer of the
    /// process in slot `i`: for a write it holds the first `length` bytes
    /// that the process shared for writing, as far as both reach, in front
    /// of what `b` held; for a read it is `b`.
    pub open spec fn staged(
        &self,
        b: Vec<u8>,
        command: NonvolatileCommand,
        i: int,
        length: usize,
        handed: Vec<u8>,
    ) -> bool {
        if command == NonvolatileCommand::UserspaceWrite {
            let count = least(
                least(length as int, b@.len() as int),
                self.apps.ro_size(i, RO_ALLOW_WRITE as int),
            );
            &&& handed@.len() == b@.len()
            &&& count > 0 ==> handed@ == overwritten(
                b@,
                self.apps.ro_bytes(i, RO_ALLOW_WRITE as int),
                count,
            )
            &&& count == 0 ==> handed == b
        } else {
            handed == b
        }
    }

    /// The part of `enqueued` for a request of a process that is in
    /// bounds. On a free chip the chip is asked, with the buffer made ready
    /// (see `staged`), for the bytes that the process has shared at most
    /// (see `userspace_len`): see `userspace_called`.
    pub open spec fn enqueued_for_process(
        &self,
        before: &NonvolatileStorage<D>,
        command: NonvolatileCommand,
        offset: usize,
        length: usize,
        processid: Option<ProcessId>,
        r: Result<(), ErrorCode>,
    ) -> bool {
        if before.userspace_admission(command, processid) is Err {
            &&& r == before.userspace_admission(command, processid)
            &&& self.driver == before.driver
            &&& self.buffer == before.buffer
            &&& self.current_user == before.current_user
            &&& if processid is None || before.apps.lookup(processid->Some_0) is Err || r == Err::<
                (),
                ErrorCode,
            >(ErrorCode::BUSY) {
                self.apps == before.apps
            } else {
                self.apps.entered_by(&before.apps, processid)
            }
        } else {
            let i = processid->Some_0.index as int;
            &&& self.apps.same_but(&before.apps, i)
            &&& if before.current_user is Some {
                &&& r is Ok
                &&& self.driver == before.driver
                &&& self.buffer == before.buffer
                &&& self.current_user == before.current_user
                &&& self.apps.records@[i] == (ProcessRecord {
                    region: Some(
                        App {
                            pending_command: true,
                            command,
                            offset,
                            length: before.userspace_len(command, i, length) as usize,
                        },
                    ),
                    ..before.apps.records@[i]
                })
            } else {
                &&& self.apps.records@[i] == (ProcessRecord {
                    region: Some(before.apps.entered(i)),
                    ..before.apps.records@[i]
                })
                &&& self.current_user == (if r is Ok {
                    Some(NonvolatileUser::App { processid: processid->Some_0 })
                } else {
                    None
                })
                &&& exists|handed: Vec<u8>, a: Result<(), (ErrorCode, Vec<u8>)>|
                    self.staged(
                        before.buffer.value->Some_0,
                        command,
                        i,
                        before.userspace_len(command, i, length) as usize,
                        handed,
                    ) && #[trigger] self.userspace_called(
                        before,
                        command,
                        handed,
                        offset,
                        before.userspace_len(command, i, length) as usize,
                        r,
                        a,
                    )
            }
        }
    }

    /// The part of `enqueued` for a request of the kernel client that is in
    /// bounds.
    pub open spec fn enqueued_for_kernel(
        &self,
        before: &NonvolatileStorage<D>,
        command: NonvolatileCommand,
        offset: usize,
        length: usize,
        r: Result<(), ErrorCode>,
    ) -> bool {
        if before.kernel_buffer.value is None {
            r == Err::<(), ErrorCode>(ErrorCode::NOMEM) && *self == *before
        } else if before.current_user is Some {
            if before.kernel_pending_command {
                r == Err::<(), ErrorCode>(ErrorCode::BUSY) && *self == *before
            } else {
                &&& r is Ok
                &&& self.driver == before.driver
                &&& self.current_user == before.current_user
                &&& self.kernel_buffer == before.kernel_buffer
                &&& self.kernel_pending_command
                &&& self.kernel_command == command
                &&& self.kernel_readwrite_address == offset
                &&& self.kernel_readwrite_length == least(
                    length as int,
                    before.kernel_buffer.value->Some_0@.len() as int,
                )
            }
        } else {
            &&& self.current_user == (if r is Ok {
                Some(NonvolatileUser::Kernel)
            } else {
                None
            })
            &&& !self.kernel_pending_command
            &&& self.kernel_command == before.kernel_command
            &&& self.kernel_readwrite_address == before.kernel_readwrite_address
            &&& self.kernel_readwrite_length == before.kernel_readwrite_length
            &&& exists|a: Result<(), (ErrorCode, Vec<u8>)>| #[trigger]
                self.kernel_called(
                    before,
                    command,
                    before.kernel_buffer.value->Some_0,
                    offset,
                    least(
                        length as int,
                        before.kernel_buffer.value->Some_0@.len() as int,
                    ) as usize,
                    r,
                    a,
                )
        }
    }

    /// Takes a request for a transfer of `length` bytes at `offset`, made
    /// by the process `processid` or, with a kernel command, by the kernel
    /// client, whose buffer waits in the kernel's holder.
    ///
    /// A transfer out of bounds is refused with `INVAL`. A process's
    /// request is refused as `userspace_admission` tells; for it, `BUSY`
    /// means that the process has a request waiting, which stays as it
    /// was. The kernel's request is refused with `NOMEM` without its
    /// buffer, and with `BUSY` while another of its requests waits. A
    /// refused request changes nothing but, possibly, the creation of the
    /// process's record.
    ///
    /// While the chip is free the request goes to the chip at once:
    /// accepted, the requester owns the chip; refused, the chip stays free
    /// and its reason is returned. For a write of a process the bytes to
    /// write are copied from the process's buffer before. While the chip is
    /// owned the request is stored, and the chip is not touched.
    pub fn enqueue_command(
        &mut self,
        command: NonvolatileCommand,
        offset: usize,
        length: usize,
        processid: Option<ProcessId>,
    ) -> (r: Result<(), ErrorCode>)
        requires
            old(self).wf(),
        ensures
            final(self).enqueued(old(self), command, offset, length, processid, r),
    {
        if !self.check_bounds(command, offset, length) {
            return Err(ErrorCode::INVAL);
        }
        if command.is_userspace() {
            let processid = match processid {
                None => {
                    return Err(ErrorCode::FAIL);
                },
                Some(id) => id,
            };
            let i = match self.apps.enter(processid) {
                Err(e) => {
                    return Err(e.into_errorcode());
                },
                Ok(i) => i,
            };
            let allow_buf_len = match command {
                NonvolatileCommand::UserspaceRead => self.apps.rw_len(i, RW_ALLOW_READ),
                _ => self.apps.ro_len(i, RO_ALLOW_WRITE),
            };
            if allow_buf_len == 0 {
                return Err(ErrorCode::RESERVE);
            }
            let active_len = smaller(length, allow_buf_len);
            if self.current_user.is_none() {
                if self.buffer.is_none() {
                    return Err(ErrorCode::RESERVE);
                }
                if command == NonvolatileCommand::UserspaceWrite {
                    self.stage_write(i, active_len);
                }
                let ghost ready = *self;
                let ghost handed = self.buffer.value->Some_0;
                let answer = self.userspace_call_driver(command, offset, active_len);
                let ghost called = *self;
                let r = self.start_answered(NonvolatileUser::App { processid }, answer);
                proof {
                    let a = choose|a: Result<(), (ErrorCode, Vec<u8>)>| #[trigger]
                        called.userspace_called(&ready, command, handed, offset, active_len, r, a);
                    assert(self.userspace_called(
                        old(self),
                        command,
                        handed,
                        offset,
                        active_len,
                        r,
                        a,
                    ));
                    assert(self.staged(
                        old(self).buffer.value->Some_0,
                        command,
                        i as int,
                        active_len,
                        handed,
                    ));
                    assert(self.valid());
                    assert(self.enqueued_for_process(
                        old(self),
                        command,
                        offset,
                        length,
                        Some(processid),
                        r,
                    ));
                }
                r
            } else {
                let mut app = self.apps.get(i);
                if app.pending_command {
                    assert(old(self).apps.records@[i as int].region is Some) by {
                        assert(!App::initial().pending_command);
                    }
                    Err(ErrorCode::BUSY)
                } else {
                    app.pending_command = true;
                    app.command = command;
                    app.offset = offset;
                    app.length = active_len;
                    self.apps.set(i, app);
                    Ok(())
                }
            }
        } else {
            match self.kernel_buffer.take() {
                None => Err(ErrorCode::NOMEM),
                Some(kernel_buffer) => {
                    let active_len = smaller(length, kernel_buffer.len());
                    if self.current_user.is_none() {
                        let ghost ready = *self;
                        let answer = self.kernel_call_driver(
                            command,
                            kernel_buffer,
                            offset,
                            active_len,
                        );
                        let ghost called = *self;
                        let r = self.start_answered(NonvolatileUser::Kernel, answer);
                        proof {
                            let a = choose|a: Result<(), (ErrorCode, Vec<u8>)>| #[trigger]
                                called.kernel_called(
                                    &ready,
                                    command,
                                    kernel_buffer,
                                    offset,
                                    active_len,
                                    r,
                                    a,
                                );
                            assert(self.kernel_called(
                                old(self),
                                command,
                                kernel_buffer,
                                offset,
                                active_len,
                                r,
                                a,
                            ));
                            assert(kernel_buffer == old(self).kernel_buffer.value->Some_0);
                            assert(active_len == least(
                                length as int,
                                kernel_buffer@.len() as int,
                            ) as usize);
                            assert(self.valid());
                            assert(self.current_user == (if r is Ok {
                                Some(NonvolatileUser::Kernel)
                            } else {
                                None
                            }));
                            assert(!self.kernel_pending_command);
                            assert(self.enqueued_for_kernel(old(self), command, offset, length, r));
                        }
                        r
                    } else {
                        if self.kernel_pending_command {
                            self.kernel_buffer.put(Some(kernel_buffer));
                            Err(ErrorCode::BUSY)
                        } else {
                            self.kernel_pending_command = true;
                            self.kernel_command = command;
                            self.kernel_readwrite_length = active_len;
                            self.kernel_readwrite_address = offset;
                            self.kernel_buffer.put(Some(kernel_buffer));
                            Ok(())
                        }
                    }
                },
            }
        }
    }
}

impl<D: Storage> NonvolatileStorage<D> {
    /// The record of slot `i` after its waiting request was taken out.
    pub open spec fn taken(&self, i: int) -> ProcessRecord<App> {
        ProcessRecord {
            region: Some(App { pending_command: false, ..self.apps.records@[i].region->Some_0 }),
            ..self.apps.records@[i]
        }
    }

    /// The scan that left the driver in this state reached slot `i`.
    pub open spec fn scanned(&self, i: int) -> bool {
        match self.current_user {
            Some(NonvolatileUser::App { processid }) => i <= processid.index,
            Some(NonvolatileUser::Kernel) => false,
            None => true,
        }
    }

    /// How the driver may look after the waiting requests were served on a
    /// free chip, starting from `before`. The kernel's request came first:
    /// accepted by the chip, it left the kernel as the owner and the
    /// processes' requests waiting. Then the processes were scanned in the
    /// order of their slots; each waiting request met on the way was taken
    /// out of its record and the chip asked; the scan ended with the first
    /// request that was accepted, whose process is the owner, or with the
    /// last slot and no owner. Records of processes that are gone, or that
    /// have no request waiting, are untouched, and nobody is notified.
    /// The owner's request is the one that the chip was asked for and
    /// accepted: see `kernel_called` and `accepted_from`. With nothing
    /// waiting nothing is done at all: the chip is not asked.
    pub open spec fn served(&self, before: &NonvolatileStorage<D>) -> bool {
        &&& self.same_regions(before)
        &&& (before.nothing_waits() ==> *self == *before)
        &&& !self.kernel_pending_command
        &&& self.apps.upcall_count == before.apps.upcall_count
        &&& self.apps.rw_count == before.apps.rw_count
        &&& self.apps.ro_count == before.apps.ro_count
        &&& self.apps.slots() == before.apps.slots()
        &&& forall|i: int|
            0 <= i < before.apps.slots() ==> (#[trigger] self.apps.records@[i]) == (if before.waits(
                i,
            ) && self.scanned(i) {
                before.taken(i)
            } else {
                before.apps.records@[i]
            })
        &&& match self.current_user {
            Some(NonvolatileUser::Kernel) => {
                &&& before.kernel_pending_command
                &&& self.buffer == before.buffer
                &&& self.kernel_called(
                    before,
                    before.kernel_command,
                    before.kernel_buffer.value->Some_0,
                    before.kernel_readwrite_address,
                    before.kernel_readwrite_length,
                    Ok(()),
                    Ok(()),
                )
            },
            Some(NonvolatileUser::App { processid }) => {
                let app = before.apps.records@[processid.index as int].region->Some_0;
                &&& processid.index < before.apps.slots()
                &&& before.waits(processid.index as int)
                &&& processid.identifier == before.apps.records@[processid.index as int].identifier
                &&& self.buffer.value is None
                &&& exists|chip: D, handed: Vec<u8>| #[trigger]
                    self.accepted_from(chip, handed, app.command, app.offset, app.length)
            },
            None => before.buffer.value is Some ==> self.buffer.value is Some,
        }
        &&& exists|
            trail: Seq<Chip<D>>,
            handed: Seq<Vec<u8>>,
            answers: Seq<Result<(), (ErrorCode, Vec<u8>)>>,
            answer: Result<(), (ErrorCode, Vec<u8>)>,
        | #[trigger] self.trailed(before, trail, handed, answers, answer)
    }

    /// The chip of this driver is what `chip` became when it accepted the
    /// waiting transfer of a process: with the buffer `handed`, for as many
    /// of `length` bytes as the buffer holds, at the address that `offset`
    /// has behind the start of the window.
    pub open spec fn accepted_from(
        &self,
        chip: D,
        handed: Vec<u8>,
        command: NonvolatileCommand,
        offset: usize,
        length: usize,
    ) -> bool {
        Self::asked(
            self.driver,
            chip,
            command,
            handed,
            (offset + self.userspace_start_address) as usize,
            least(length as int, handed@.len() as int) as usize,
            Ok(()),
        )
    }

    /// The chip and the processes' buffer of this driver.
    pub open spec fn chip(&self) -> Chip<D> {
        Chip { driver: self.driver, buffer: self.buffer.value }
    }

    /// What the scan did for the kernel client, whose request goes first,
    /// when it ended with the owner `owner`: `trail` holds chip and buffer
    /// as they were before and behind each step. A waiting request of the
    /// kernel client was put to the chip, with the client's buffer, which
    /// answered `answer`; it was accepted if and only if the kernel client
    /// is the owner. Else the chip was not touched.
    pub open spec fn kernel_step(
        before: &NonvolatileStorage<D>,
        owner: Option<NonvolatileUser>,
        trail: Seq<Chip<D>>,
        answer: Result<(), (ErrorCode, Vec<u8>)>,
    ) -> bool {
        if before.kernel_pending_command && !before.kernel_command.userspace() {
            &&& Self::asked(
                trail[1].driver,
                trail[0].driver,
                before.kernel_command,
                before.kernel_buffer.value->Some_0,
                before.kernel_readwrite_address,
                before.kernel_readwrite_length,
                answer,
            )
            &&& trail[1].buffer == trail[0].buffer
            &&& (answer is Ok <==> owner == Some(NonvolatileUser::Kernel))
        } else {
            trail[1] == trail[0]
        }
    }

    /// What the scan did at slot `j` of `before` when it ended with the
    /// owner `owner`: `trail` holds chip and buffer as they were before and
    /// behind each step, `handed` the buffer that went to the chip at each
    /// slot, and `answers` what the chip answered. A request that waited in
    /// a slot that the scan reached was put to the chip: with the
    /// processes' buffer made ready for it (see `staged`), for as many of
    /// its bytes as the buffer holds, at the address that its offset has
    /// behind the start of the window. It was accepted if and only if its
    /// process is the owner; refused, the buffer that the chip handed back
    /// is the processes' buffer from then on. At every other slot the chip
    /// was not touched. The scan reached the slots up to the owner's, all
    /// slots if there is no owner, and none if the kernel client is the
    /// owner.
    pub open spec fn slot_step(
        before: &NonvolatileStorage<D>,
        owner: Option<NonvolatileUser>,
        trail: Seq<Chip<D>>,
        handed: Seq<Vec<u8>>,
        answers: Seq<Result<(), (ErrorCode, Vec<u8>)>>,
        j: int,
    ) -> bool {
        let reached = match owner {
            Some(NonvolatileUser::App { processid }) => j <= processid.index,
            Some(NonvolatileUser::Kernel) => false,
            None => true,
        };
        let app = before.apps.records@[j].region->Some_0;
        let from = trail[j + 1];
        let to = trail[j + 2];
        if before.waits(j) && reached && app.command.userspace() {
            &&& from.buffer is Some
            &&& before.staged(from.buffer->Some_0, app.command, j, app.length, handed[j])
            &&& Self::asked(
                to.driver,
                from.driver,
                app.command,
                handed[j],
                (app.offset + before.userspace_start_address) as usize,
                least(app.length as int, handed[j]@.len() as int) as usize,
                answers[j],
            )
            &&& to.buffer == Self::handed_back(answers[j])
            &&& (answers[j] is Ok <==> (owner matches Some(NonvolatileUser::App { processid })
                && processid.index == j))
        } else {
            to == from
        }
    }

    /// Chip and buffer of this driver are what those of `before` became
    /// by the scan of the waiting requests: the trail leads from those to
    /// these, first by the step for the kernel client and then slot by slot,
    /// as `kernel_step` and `slot_step` say.
    pub open spec fn trailed(
        &self,
        before: &NonvolatileStorage<D>,
        trail: Seq<Chip<D>>,
        handed: Seq<Vec<u8>>,
        answers: Seq<Result<(), (ErrorCode, Vec<u8>)>>,
        answer: Result<(), (ErrorCode, Vec<u8>)>,
    ) -> bool {
        let n = before.apps.slots();
        &&& trail.len() == n + 2
        &&& handed.len() == n
        &&& answers.len() == n
        &&& trail[0] == before.chip()
        &&& trail[n + 1] == self.chip()
        &&& Self::kernel_step(before, self.current_user, trail, answer)
        &&& forall|j: int|
            0 <= j < n ==> #[trigger] Self::slot_step(
                before,
                self.current_user,
                trail,
                handed,
                answers,
                j,
            )
    }

    /// Serves the waiting requests: see `served`. While a transfer is in
    /// flight nothing is done.
    pub fn check_queue(&mut self)
        requires
            old(self).valid(),
        ensures
            final(self).wf(),
            old(self).current_user is Some ==> *final(self) == *old(self),
            old(self).current_user is None ==> final(self).served(old(self)),
    {
        if self.current_user.is_some() {
            return ;
        }
        let ghost mut trail: Seq<Chip<D>> = seq![self.chip()];
        let ghost mut handed: Seq<Vec<u8>> = Seq::empty();
        let ghost mut answers: Seq<Result<(), (ErrorCode, Vec<u8>)>> = Seq::empty();
        let ghost mut kernel_answer: Result<(), (ErrorCode, Vec<u8>)> = Ok(());
        let ghost none: Vec<u8> = old(self).kernel_buffer.value->Some_0;
        if self.kernel_pending_command {
            self.kernel_pending_command = false;
            match self.kernel_buffer.take() {
                None => {},
                Some(kernel_buffer) => {
                    let ghost ready = *self;
                    let answer = self.kernel_call_driver(
                        self.kernel_command,
                        kernel_buffer,
                        self.kernel_readwrite_address,
                        self.kernel_readwrite_length,
                    );
                    let ghost called = *self;
                    proof {
                        if !old(self).kernel_command.userspace() {
                            kernel_answer = choose|a: Result<(), (ErrorCode, Vec<u8>)>| #[trigger]
                                called.kernel_called(
                                    &ready,
                                    old(self).kernel_command,
                                    kernel_buffer,
                                    old(self).kernel_readwrite_address,
                                    old(self).kernel_readwrite_length,
                                    answer,
                                    a,
                                );
                        }
                    }
                    if self.start_answered(NonvolatileUser::Kernel, answer).is_ok() {
                        proof {
                            assert(!old(self).kernel_command.userspace());
                            let a = kernel_answer;
                            assert(a is Ok);
                            assert(a->Ok_0 == ());
                            assert(a == Ok::<(), (ErrorCode, Vec<u8>)>(()));
                            assert(self.kernel_called(
                                old(self),
                                old(self).kernel_command,
                                old(self).kernel_buffer.value->Some_0,
                                old(self).kernel_readwrite_address,
                                old(self).kernel_readwrite_length,
                                Ok(()),
                                Ok(()),
                            ));
                            let slots = old(self).apps.slots();
                            let chip = self.chip();
                            trail = seq![old(self).chip()] + Seq::new(
                                (slots + 1) as nat,
                                |k: int| chip,
                            );
                            handed = Seq::new(slots as nat, |k: int| none);
                            answers = Seq::new(
                                slots as nat,
                                |k: int| Ok::<(), (ErrorCode, Vec<u8>)>(()),
                            );
                            assert(trail[0] == old(self).chip());
                            assert(trail[1] == chip);
                            assert forall|j: int| 0 <= j < slots implies #[trigger] Self::slot_step(
                                old(self),
                                self.current_user,
                                trail,
                                handed,
                                answers,
                                j,
                            ) by {
                                assert(trail[j + 1] == chip);
                                assert(trail[j + 2] == chip);
                            }
                            assert(self.trailed(old(self), trail, handed, answers, kernel_answer));
                        }
                        return ;
                    }
                },
            }
        }
        proof {
            trail = trail.push(self.chip());
            assert(Self::kernel_step(old(self), None, trail, kernel_answer));
        }
        let n = self.apps.len();
        let mut i: usize = 0;
        while i < n && self.current_user.is_none()
            invariant
                n == old(self).apps.slots(),
                i <= n,
                trail.len() == i + 2,
                handed.len() == i,
                answers.len() == i,
                trail[0] == old(self).chip(),
                trail[i + 1] == self.chip(),
                Self::kernel_step(old(self), None, trail, kernel_answer),
                forall|j: int|
                    0 <= j < i ==> #[trigger] Self::slot_step(
                        old(self),
                        self.current_user,
                        trail,
                        handed,
                        answers,
                        j,
                    ),
                old(self).valid(),
                old(self).current_user is None,
                self.valid(),
                self.same_regions(old(self)),
                !self.kernel_pending_command,
                self.apps.upcall_count == old(self).apps.upcall_count,
                self.apps.rw_count == old(self).apps.rw_count,
                self.apps.ro_count == old(self).apps.ro_count,
                self.apps.slots() == old(self).apps.slots(),
                forall|j: int|
                    0 <= j < i ==> (#[trigger] self.apps.records@[j]) == (if old(self).waits(j) {
                        old(self).taken(j)
                    } else {
                        old(self).apps.records@[j]
                    }),
                forall|j: int|
                    i <= j < n ==> (#[trigger] self.apps.records@[j]) == old(self).apps.records@[j],
                match self.current_user {
                    Some(NonvolatileUser::App { processid }) => {
                        &&& processid.index + 1 == i
                        &&& old(self).waits(processid.index as int)
                        &&& processid.identifier == old(self).apps.records@[processid.index
                            as int].identifier
                    },
                    Some(NonvolatileUser::Kernel) => false,
                    None => true,
                },
                self.current_user matches Some(NonvolatileUser::App { processid }) ==> {
                    let app = old(self).apps.records@[processid.index as int].region->Some_0;
                    &&& self.buffer.value is None
                    &&& exists|chip: D, handed: Vec<u8>| #[trigger]
                        self.accepted_from(chip, handed, app.command, app.offset, app.length)
                },
                old(self).nothing_waits() ==> *self == *old(self),
                old(self).buffer.value is Some && self.current_user is None
                    ==> self.buffer.value is Some,
            decreases n - i,
        {
            assert(self.apps.records@[i as int] == old(self).apps.records@[i as int]);
            let ghost trail_before = trail;
            let ghost handed_before = handed;
            let ghost answers_before = answers;
            let ghost entered = *self;
            let ghost mut went: Vec<u8> = none;
            let ghost mut answered: Result<(), (ErrorCode, Vec<u8>)> = Ok(());
            if self.apps.is_allocated(i) {
                let mut app = self.apps.get(i);
                if app.pending_command {
                    app.pending_command = false;
                    let processid = self.apps.processid(i);
                    self.apps.set(i, app);
                    if app.command == NonvolatileCommand::UserspaceWrite {
                        self.stage_write(i, app.length);
                    }
                    let ghost ready = *self;
                    let answer = self.userspace_call_driver(app.command, app.offset, app.length);
                    let ghost called = *self;
                    let _ = self.start_answered(NonvolatileUser::App { processid }, answer);
                    proof {
                        assert(ready.buffer.value is Some);
                        if app.command.userspace() {
                            went = ready.buffer.value->Some_0;
                            answered = choose|a: Result<(), (ErrorCode, Vec<u8>)>| #[trigger]
                                called.userspace_called(
                                    &ready,
                                    app.command,
                                    went,
                                    app.offset,
                                    app.length,
                                    answer,
                                    a,
                                );
                            assert(old(self).staged(
                                entered.buffer.value->Some_0,
                                app.command,
                                i as int,
                                app.length,
                                went,
                            ));
                        }
                        if answer is Ok {
                            assert(app.command.userspace());
                            let a = answered;
                            assert(a is Ok);
                            assert(a->Ok_0 == ());
                            assert(a == Ok::<(), (ErrorCode, Vec<u8>)>(()));
                            assert(self.accepted_from(
                                ready.driver,
                                went,
                                app.command,
                                app.offset,
                                app.length,
                            ));
                        }
                    }
                }
            }
            proof {
                trail = trail.push(self.chip());
                handed = handed.push(went);
                answers = answers.push(answered);
                assert forall|j: int| 0 <= j < i + 1 implies #[trigger] Self::slot_step(
                    old(self),
                    self.current_user,
                    trail,
                    handed,
                    answers,
                    j,
                ) by {
                    if j < i {
                        assert(Self::slot_step(
                            old(self),
                            None,
                            trail_before,
                            handed_before,
                            answers_before,
                            j,
                        ));
                        assert(trail[j + 1] == trail_before[j + 1]);
                        assert(trail[j + 2] == trail_before[j + 2]);
                        assert(handed[j] == handed_before[j]);
                        assert(answers[j] == answers_before[j]);
                    } else {
                        assert(trail[j + 1] == entered.chip());
                        assert(trail[j + 2] == self.chip());
                    }
                }
                assert(trail[0] == trail_before[0]);
                assert(trail[1] == trail_before[1]);
            }
            i += 1;
        }
        proof {
            let reached = trail;
            let went = handed;
            let heard = answers;
            let chip = self.chip();
            trail = reached + Seq::new((n - i) as nat, |k: int| chip);
            handed = went + Seq::new((n - i) as nat, |k: int| none);
            answers = heard + Seq::new(
                (n - i) as nat,
                |k: int| Ok::<(), (ErrorCode, Vec<u8>)>(()),
            );
            assert(trail[0] == reached[0]);
            assert(trail[1] == reached[1]);
            assert(Self::kernel_step(old(self), self.current_user, trail, kernel_answer));
            assert forall|j: int| 0 <= j < n implies #[trigger] Self::slot_step(
                old(self),
                self.current_user,
                trail,
                handed,
                answers,
                j,
            ) by {
                if j < i {
                    assert(Self::slot_step(old(self), self.current_user, reached, went, heard, j));
                    assert(trail[j + 1] == reached[j + 1]);
                    assert(trail[j + 2] == reached[j + 2]);
                    assert(handed[j] == went[j]);
                    assert(answers[j] == heard[j]);
                } else {
                    assert(trail[j + 1] == chip);
                    assert(trail[j + 2] == chip);
                }
            }
            assert(self.trailed(old(self), trail, handed, answers, kernel_answer));
            assert forall|j: int| 0 <= j < old(self).apps.slots() implies (
            #[trigger] self.apps.records@[j]) == (if old(self).waits(j) && self.scanned(j) {
                old(self).taken(j)
            } else {
                old(self).apps.records@[j]
            }) by {
                if j >= i {
                    if self.current_user is None {
                        assert(i == n);
                    }
                }
            }
        }
    }

    /// How the driver looks after the completion of the transfer in
    /// flight was handled, starting from `before`, with `length` bytes
    /// transferred and the notification going to `subscription`. Nobody
    /// owns the chip. After a transfer for a process the buffer is with the
    /// driver again, whether the process still resolves or not; a process
    /// that resolves is notified with `length`, after the bytes of a read
    /// were copied into the buffer that it shared, as far as both reach; one
    /// that is gone is not, and no record changes.
    pub open spec fn completed(
        &self,
        before: &NonvolatileStorage<D>,
        buffer: Vec<u8>,
        length: usize,
        subscription: usize,
    ) -> bool {
        &&& self.current_user is None
        &&& self.driver == before.driver
        &&& self.same_kernel_side(before)
        &&& self.buffer.value == (if before.current_user == Some(NonvolatileUser::Kernel) {
            before.buffer.value
        } else {
            Some(buffer)
        })
        &&& match before.current_user {
            Some(NonvolatileUser::App { processid }) => if before.apps.resolves(processid) {
                let i = processid.index as int;
                &&& self.apps.same_but(&before.apps, i)
                &&& self.apps.records@[i].region == Some(before.apps.entered(i))
                &&& self.apps.records@[i].same_identity(&before.apps.records@[i])
                &&& self.apps.records@[i].ro == before.apps.records@[i].ro
                &&& self.apps.records@[i].pending_after(
                    &before.apps.records@[i],
                    subscription as int,
                    (length, 0, 0),
                )
                &&& if subscription == UPCALL_READ_DONE {
                    let count = least(
                        least(before.apps.rw_size(i, RW_ALLOW_READ as int), length as int),
                        buffer@.len() as int,
                    );
                    &&& self.apps.records@[i].rw_changed_at(
                        &before.apps.records@[i],
                        RW_ALLOW_READ as int,
                    )
                    &&& count > 0 ==> self.apps.rw_bytes(i, RW_ALLOW_READ as int) == overwritten(
                        before.apps.rw_bytes(i, RW_ALLOW_READ as int),
                        buffer@,
                        count,
                    )
                    &&& count == 0 ==> self.apps.records@[i].rw == before.apps.records@[i].rw
                } else {
                    self.apps.records@[i].rw == before.apps.records@[i].rw
                }
            } else {
                self.apps == before.apps
            },
            _ => self.apps == before.apps,
        }
    }

    /// Handles the end of a read, without starting anything new. The
    /// buffer `buffer` comes back from the chip with `length` bytes read.
    ///
    /// A read for the kernel client hands the buffer on to the client: it
    /// is the result. Otherwise the buffer is stored with the driver first;
    /// then, if the read was for a process that still resolves, the bytes
    /// are copied into the buffer that the process shared, as far as both
    /// reach, and the process is notified: see `completed`.
    pub fn finish_read(&mut self, buffer: Vec<u8>, length: usize) -> (r: Option<Done>)
        requires
            old(self).valid(),
        ensures
            final(self).valid(),
            final(self).completed(old(self), buffer, length, UPCALL_READ_DONE),
            old(self).current_user == Some(NonvolatileUser::Kernel) ==> r == Some(
                Done { buffer, length },
            ) && final(self).buffer == old(self).buffer,
            old(self).current_user != Some(NonvolatileUser::Kernel) ==> r is None
                && final(self).buffer.value == Some(buffer),
            match old(self).current_user {
                Some(NonvolatileUser::App { processid }) => old(self).apps.resolves(processid) ==> {
                    let i = processid.index as int;
                    let count = least(
                        least(old(self).apps.rw_size(i, RW_ALLOW_READ as int), length as int),
                        buffer@.len() as int,
                    );
                    &&& final(self).apps.records@[i].rw_changed_at(
                        &old(self).apps.records@[i],
                        RW_ALLOW_READ as int,
                    )
                    &&& count > 0 ==> final(self).apps.rw_bytes(i, RW_ALLOW_READ as int)
                        == overwritten(
                        old(self).apps.rw_bytes(i, RW_ALLOW_READ as int),
                        buffer@,
                        count,
                    )
                    &&& count == 0 ==> final(self).apps.records@[i].rw
                        == old(self).apps.records@[i].rw
                },
                _ => true,
            },
    {
        match self.current_user.take() {
            Some(NonvolatileUser::Kernel) => Some(Done { buffer, length }),
            Some(NonvolatileUser::App { processid }) => {
                match self.apps.enter(processid) {
                    Err(_) => {},
                    Ok(i) => {
                        let read_len = smaller(smaller(self.apps.rw_len(i, RW_ALLOW_READ), length),
                            buffer.len());
                        self.apps.copy_to_rw(i, RW_ALLOW_READ, &buffer, read_len);
                        let _ = self.apps.schedule_upcall(i, UPCALL_READ_DONE, (length, 0, 0));
                    },
                }
                self.buffer.replace(buffer);
                None
            },
            None => {
                self.buffer.replace(buffer);
                None
            },
        }
    }

    /// Handles the end of a write, without starting anything new. The
    /// buffer `buffer` comes back from the chip with `length` bytes
    /// written.
    ///
    /// A write for the kernel client hands the buffer on to the client: it
    /// is the result. Otherwise the buffer is stored with the driver, and
    /// if the write was for a process that still resolves, the process is
    /// notified: see `completed`.
    pub fn finish_write(&mut self, buffer: Vec<u8>, length: usize) -> (r: Option<Done>)
        requires
            old(self).valid(),
        ensures
            final(self).valid(),
            final(self).completed(old(self), buffer, length, UPCALL_WRITE_DONE),
            old(self).current_user == Some(NonvolatileUser::Kernel) ==> r == Some(
                Done { buffer, length },
            ) && final(self).buffer == old(self).buffer,
            old(self).current_user != Some(NonvolatileUser::Kernel) ==> r is None
                && final(self).buffer.value == Some(buffer),
            match old(self).current_user {
                Some(NonvolatileUser::App { processid }) => old(self).apps.resolves(processid)
                    ==> final(self).apps.records@[processid.index as int].rw
                        == old(self).apps.records@[processid.index as int].rw,
                _ => true,
            },
    {
        match self.current_user.take() {
            Some(NonvolatileUser::Kernel) => Some(Done { buffer, length }),
            Some(NonvolatileUser::App { processid }) => {
                let _ = self.apps.notify(processid, UPCALL_WRITE_DONE, (length, 0, 0));
                self.buffer.replace(buffer);
                None
            },
            None => {
                self.buffer.replace(buffer);
                None
            },
        }
    }

    /// The chip reports the end of a read: the owner is told, as
    /// `finish_read` describes, and the waiting requests are served, as
    /// `check_queue` describes. The result is what the kernel client is to
    /// be told, if the read was its own.
    pub fn read_done(&mut self, buffer: Vec<u8>, length: usize) -> (r: Option<Done>)
        requires
            old(self).valid(),
        ensures
            final(self).wf(),
            old(self).current_user == Some(NonvolatileUser::Kernel) ==> r == Some(
                Done { buffer, length },
            ),
            old(self).current_user != Some(NonvolatileUser::Kernel) ==> r is None,
            exists|mid: NonvolatileStorage<D>| #[trigger]
                mid.completed(old(self), buffer, length, UPCALL_READ_DONE)
                    && final(self).served(&mid),
    {
        let r = self.finish_read(buffer, length);
        let ghost mid = *self;
        self.check_queue();
        assert(mid.completed(old(self), buffer, length, UPCALL_READ_DONE) && self.served(&mid));
        r
    }

    /// The chip reports the end of a write: the owner is told, as
    /// `finish_write` describes, and the waiting requests are served, as
    /// `check_queue` describes. The result is what the kernel client is to
    /// be told, if the write was its own.
    pub fn write_done(&mut self, buffer: Vec<u8>, length: usize) -> (r: Option<Done>)
        requires
            old(self).valid(),
        ensures
            final(self).wf(),
            old(self).current_user == Some(NonvolatileUser::Kernel) ==> r == Some(
                Done { buffer, length },
            ),
            old(self).current_user != Some(NonvolatileUser::Kernel) ==> r is None,
            exists|mid: NonvolatileStorage<D>| #[trigger]
                mid.completed(old(self), buffer, length, UPCALL_WRITE_DONE)
                    && final(self).served(&mid),
    {
        let r = self.finish_write(buffer, length);
        let ghost mid = *self;
        self.check_queue();
        assert(mid.completed(old(self), buffer, length, UPCALL_WRITE_DONE) && self.served(&mid));
        r
    }

    /// A command of the process `processid`: 0 asks whether the driver is
    /// there, 1 for the number of bytes of the window, 2 for a read and 3
    /// for a write of `length` bytes at `offset`. Every other command is
    /// refused with `NOSUPPORT`.
    pub fn command(
        &mut self,
        command_num: usize,
        offset: usize,
        length: usize,
        processid: ProcessId,
    ) -> (r: CommandReturn)
        requires
            old(self).wf(),
        ensures
            final(self).wf(),
            command_num == 0 ==> r == CommandReturn::Success && *final(self) == *old(self),
            command_num == 1 ==> r == CommandReturn::SuccessU32(old(self).userspace_length as u32)
                && *final(self) == *old(self),
            command_num > 3 ==> r == CommandReturn::Failure(ErrorCode::NOSUPPORT) && *final(self)
                == *old(self),
            command_num == 2 ==> exists|res: Result<(), ErrorCode>|
                r == CommandReturn::of_result(res) && #[trigger] final(self).enqueued(
                    old(self),
                    NonvolatileCommand::UserspaceRead,
                    offset,
                    length,
                    Some(processid),
                    res,
                ),
            command_num == 3 ==> exists|res: Result<(), ErrorCode>|
                r == CommandReturn::of_result(res) && #[trigger] final(self).enqueued(
                    old(self),
                    NonvolatileCommand::UserspaceWrite,
                    offset,
                    length,
                    Some(processid),
                    res,
                ),
    {
        if command_num == 0 {
            CommandReturn::success()
        } else if command_num == 1 {
            CommandReturn::success_u32(self.userspace_length as u32)
        } else if command_num == 2 {
            let res = self.enqueue_command(
                NonvolatileCommand::UserspaceRead,
                offset,
                length,
                Some(processid),
            );
            assert(self.enqueued(
                old(self),
                NonvolatileCommand::UserspaceRead,
                offset,
                length,
                Some(processid),
                res,
            ));
            CommandReturn::from_result(res)
        } else if command_num == 3 {
            let res = self.enqueue_command(
                NonvolatileCommand::UserspaceWrite,
                offset,
                length,
                Some(processid),
            );
            assert(self.enqueued(
                old(self),
                NonvolatileCommand::UserspaceWrite,
                offset,
                length,
                Some(processid),
                res,
            ));
            CommandReturn::from_result(res)
        } else {
            CommandReturn::failure(ErrorCode::NOSUPPORT)
        }
    }

    /// Creates the record of `processid` if the process resolves.
    pub fn allocate_grant(&mut self, processid: ProcessId) -> (r: Result<
        (),
        crate::kernel::process::Error,
    >)
        requires
            old(self).wf(),
        ensures
            final(self).wf(),
            r == old(self).apps.lookup(processid),
            final(self).driver == old(self).driver,
            final(self).buffer == old(self).buffer,
            final(self).current_user == old(self).current_user,
            final(self).same_kernel_side(old(self)),
    {
        match self.apps.enter(processid) {
            Ok(_) => Ok(()),
            Err(e) => Err(e),
        }
    }

    /// How the driver looks after a request of the kernel client was made
    /// on `before`, for `length` bytes at `address` with `buffer`, and was
    /// answered with `r`.
    ///
    /// While an earlier request of the kernel client waits with its buffer,
    /// the request is refused with `BUSY`; out of bounds, with `INVAL`. A
    /// refusal hands the buffer back and changes nothing, but that the chip
    /// may have been asked. While the chip is owned the request waits with
    /// its buffer. On a free chip the request goes to the chip at once:
    /// accepted, the kernel owns the chip.
    pub open spec fn kernel_requested(
        &self,
        before: &NonvolatileStorage<D>,
        command: NonvolatileCommand,
        buffer: Vec<u8>,
        address: usize,
        length: usize,
        r: Result<(), (ErrorCode, Vec<u8>)>,
    ) -> bool {
        &&& self.same_regions(before)
        &&& self.apps == before.apps
        &&& self.buffer == before.buffer
        &&& (r matches Err((_, b)) ==> b@.len() == buffer@.len())
        &&& (before.kernel_buffer.value is Some ==> r == Err::<(), (ErrorCode, Vec<u8>)>(
            (ErrorCode::BUSY, buffer),
        ) && *self == *before)
        &&& (before.kernel_buffer.value is None && !before.in_bounds(command, address, length)
            ==> r == Err::<(), (ErrorCode, Vec<u8>)>((ErrorCode::INVAL, buffer)) && self.driver
            == before.driver && self.current_user == before.current_user && self.same_kernel_side(
            before,
        ))
        &&& (before.kernel_buffer.value is None && before.in_bounds(command, address, length)
            && before.current_user is Some ==> {
            &&& r is Ok
            &&& self.driver == before.driver
            &&& self.current_user == before.current_user
            &&& self.kernel_pending_command
            &&& self.kernel_command == command
            &&& self.kernel_buffer.value == Some(buffer)
            &&& self.kernel_readwrite_address == address
            &&& self.kernel_readwrite_length == least(length as int, buffer@.len() as int)
        })
        &&& (before.kernel_buffer.value is None && before.in_bounds(command, address, length)
            && before.current_user is None ==> {
            &&& self.current_user == (if r is Ok {
                Some(NonvolatileUser::Kernel)
            } else {
                None
            })
            &&& self.kernel_buffer.value is None
            &&& !self.kernel_pending_command
        })
    }

    /// Makes a request of the kernel client: see `kernel_requested`.
    fn kernel_request(
        &mut self,
        command: NonvolatileCommand,
        buffer: Vec<u8>,
        address: usize,
        length: usize,
    ) -> (r: Result<(), (ErrorCode, Vec<u8>)>)
        requires
            old(self).wf(),
            !command.userspace(),
        ensures
            final(self).wf(),
            final(self).kernel_requested(old(self), command, buffer, address, length, r),
    {
        if self.kernel_buffer.is_some() {
            return Err((ErrorCode::BUSY, buffer));
        }
        self.kernel_buffer.replace(buffer);
        match self.enqueue_command(command, address, length, None) {
            Ok(()) => Ok(()),
            Err(e) => {
                match self.kernel_buffer.take() {
                    Some(b) => Err((e, b)),
                    None => Err((e, Vec::new())),
                }
            },
        }
    }

    /// A read of the kernel client, `length` bytes at `address` into
    /// `buffer`: see `kernel_requested`.
    pub fn read(&mut self, buffer: Vec<u8>, address: usize, length: usize) -> (r: Result<
        (),
        (ErrorCode, Vec<u8>),
    >)
        requires
            old(self).wf(),
        ensures
            final(self).wf(),
            final(self).kernel_requested(
                old(self),
                NonvolatileCommand::KernelRead,
                buffer,
                address,
                length,
                r,
            ),
    {
        self.kernel_request(NonvolatileCommand::KernelRead, buffer, address, length)
    }

    /// A write of the kernel client, `length` bytes of `buffer` at
    /// `address`: see `kernel_requested`.
    pub fn write(&mut self, buffer: Vec<u8>, address: usize, length: usize) -> (r: Result<
        (),
        (ErrorCode, Vec<u8>),
    >)
        requires
            old(self).wf(),
        ensures
            final(self).wf(),
            final(self).kernel_requested(
                old(self),
                NonvolatileCommand::KernelWrite,
                buffer,
                address,
                length,
                r,
            ),
    {
        self.kernel_request(NonvolatileCommand::KernelWrite, buffer, address, length)
    }
}

/// While one transfer is in flight, no request reaches the chip: the chip
/// is as it was, and so is its owner.
pub proof fn lemma_one_in_flight<D: Storage>(
    before: NonvolatileStorage<D>,
    after: NonvolatileStorage<D>,
    command: NonvolatileCommand,
    offset: usize,
    length: usize,
    processid: Option<ProcessId>,
    r: Result<(), ErrorCode>,
)
    requires
        after.enqueued(&before, command, offset, length, processid, r),
        before.current_user is Some,
    ensures
        after.driver == before.driver,
        after.current_user == before.current_user,
{
}

/// A second request of a process whose request waits is refused with
/// `BUSY`, and the waiting request is as it was; so is a second request of
/// the kernel client.
pub proof fn lemma_no_overwrite<D: Storage>(
    before: NonvolatileStorage<D>,
    after: NonvolatileStorage<D>,
    command: NonvolatileCommand,
    offset: usize,
    length: usize,
    processid: ProcessId,
    r: Result<(), ErrorCode>,
)
    requires
        before.wf(),
        after.enqueued(&before, command, offset, length, Some(processid), r),
        before.in_bounds(command, offset, length),
        before.apps.resolves(processid),
        if command.userspace() {
            before.waits(processid.index as int) && before.userspace_admission(
                command,
                Some(processid),
            ) != Err::<(), ErrorCode>(ErrorCode::RESERVE)
        } else {
            before.kernel_pending_command
        },
    ensures
        r == Err::<(), ErrorCode>(ErrorCode::BUSY),
        after.apps == before.apps,
        after.kernel_pending_command == before.kernel_pending_command,
        after.kernel_command == before.kernel_command,
        after.kernel_readwrite_address == before.kernel_readwrite_address,
        after.kernel_readwrite_length == before.kernel_readwrite_length,
{
}

/// The processes' buffer is with the driver whenever the chip is free, and
/// whenever the chip works for the kernel client.
pub proof fn lemma_idle_holds_buffer<D: Storage>(driver: NonvolatileStorage<D>)
    requires
        driver.valid(),
        !(driver.current_user matches Some(NonvolatileUser::App { .. })),
    ensures
        driver.buffer.value is Some,
{
}

/// A process that is gone is passed over when the waiting requests are
/// served: its slot is not looked into, it does not become the owner, and
/// it is told nothing, whatever request it had made before it went.
pub proof fn lemma_gone_process_is_skipped<D: Storage>(
    before: NonvolatileStorage<D>,
    after: NonvolatileStorage<D>,
    slot: int,
)
    requires
        after.served(&before),
        0 <= slot < before.apps.slots(),
        !before.apps.allocated(slot),
    ensures
        after.apps.records@[slot] == before.apps.records@[slot],
        after.current_user matches Some(NonvolatileUser::App { processid }) ==> processid.index
            != slot,
{
}

/// Where neither the kernel nor a process that still resolves has a
/// request waiting, serving the waiting requests changes nothing at all:
/// the chip is not asked, and stays free.
pub proof fn lemma_nothing_to_serve<D: Storage>(
    before: NonvolatileStorage<D>,
    after: NonvolatileStorage<D>,
)
    requires
        after.served(&before),
        before.nothing_waits(),
    ensures
        after == before,
        after.current_user is None,
        after.apps.records@ =~= before.apps.records@,
{
    assert forall|i: int| 0 <= i < before.apps.slots() implies after.apps.records@[i]
        == before.apps.records@[i] by {
        assert(!before.waits(i));
    }
}

/// Up to the first slot whose process waits, the scan of the slots has
/// not touched the chip.
pub proof fn lemma_untouched_before<D: Storage>(
    before: NonvolatileStorage<D>,
    owner: Option<NonvolatileUser>,
    trail: Seq<Chip<D>>,
    handed: Seq<Vec<u8>>,
    answers: Seq<Result<(), (ErrorCode, Vec<u8>)>>,
    k: int,
)
    requires
        0 <= k <= before.apps.slots(),
        trail.len() == before.apps.slots() + 2,
        forall|j: int|
            0 <= j < k ==> #[trigger] NonvolatileStorage::<D>::slot_step(
                &before,
                owner,
                trail,
                handed,
                answers,
                j,
            ),
        forall|j: int| 0 <= j < k ==> !before.waits(j),
    ensures
        trail[k + 1] == trail[1],
    decreases k,
{
    if k > 0 {
        lemma_untouched_before(before, owner, trail, handed, answers, k - 1);
        assert(NonvolatileStorage::<D>::slot_step(&before, owner, trail, handed, answers, k - 1));
    }
}

/// The chip of `before` was asked for the request that waited in slot
/// `slot`, with the buffer `went`, which is the processes' buffer made ready
/// for it; it answered `answer` and was `asked` then. The process of the
/// slot owns the chip of `after` if and only if the chip accepted.
pub open spec fn first_asked<D: Storage>(
    before: NonvolatileStorage<D>,
    after: NonvolatileStorage<D>,
    slot: int,
    asked: D,
    went: Vec<u8>,
    answer: Result<(), (ErrorCode, Vec<u8>)>,
) -> bool {
    let app = before.apps.records@[slot].region->Some_0;
    &&& before.staged(before.buffer.value->Some_0, app.command, slot, app.length, went)
    &&& NonvolatileStorage::<D>::asked(
        asked,
        before.driver,
        app.command,
        went,
        (app.offset + before.userspace_start_address) as usize,
        least(app.length as int, went@.len() as int) as usize,
        answer,
    )
    &&& (answer is Ok <==> (after.current_user matches Some(NonvolatileUser::App { processid })
        && processid.index == slot))
}

/// While the kernel client has no request waiting, the first process that
/// waits and still resolves has its request put to the chip, whatever waits
/// in the slots of processes that are gone: the chip is asked for that
/// request, with the buffer made ready for it, and the process is the owner
/// if and only if the chip accepts.
pub proof fn lemma_first_waiting_is_asked<D: Storage>(
    before: NonvolatileStorage<D>,
    after: NonvolatileStorage<D>,
    slot: int,
)
    requires
        after.served(&before),
        !before.kernel_pending_command,
        0 <= slot < before.apps.slots(),
        before.waits(slot),
        before.apps.records@[slot].region->Some_0.command.userspace(),
        forall|j: int| 0 <= j < slot ==> !before.waits(j),
    ensures
        exists|asked: D, went: Vec<u8>, answer: Result<(), (ErrorCode, Vec<u8>)>| #[trigger]
            first_asked(before, after, slot, asked, went, answer),
{
    let (trail, handed, answers, answer) = choose|
        trail: Seq<Chip<D>>,
        handed: Seq<Vec<u8>>,
        answers: Seq<Result<(), (ErrorCode, Vec<u8>)>>,
        answer: Result<(), (ErrorCode, Vec<u8>)>,
    | #[trigger] after.trailed(&before, trail, handed, answers, answer);
    let app = before.apps.records@[slot].region->Some_0;
    if after.current_user matches Some(NonvolatileUser::App { processid }) && processid.index
        < slot {
        assert(false);
    }
    lemma_untouched_before(before, after.current_user, trail, handed, answers, slot);
    assert(NonvolatileStorage::<D>::slot_step(
        &before,
        after.current_user,
        trail,
        handed,
        answers,
        slot,
    ));
    assert(trail[1] == trail[0]);
    assert(first_asked(before, after, slot, trail[slot + 2].driver, handed[slot], answers[slot]));
}

/// Serving the waiting requests notifies nobody.
pub proof fn lemma_serving_is_silent<D: Storage>(
    before: NonvolatileStorage<D>,
    after: NonvolatileStorage<D>,
    slot: int,
)
    requires
        after.served(&before),
        0 <= slot < before.apps.slots(),
    ensures
        after.apps.records@[slot].same_pending(&before.apps.records@[slot]),
        after.apps.records@[slot].same_shares(&before.apps.records@[slot]),
{
}

/// After a transfer for a process that is gone has completed, nobody has
/// been told anything and no record has changed, but the buffer that came
/// back is with the driver.
pub proof fn lemma_completion_for_gone_process<D: Storage>(
    before: NonvolatileStorage<D>,
    after: NonvolatileStorage<D>,
    buffer: Vec<u8>,
    length: usize,
    subscription: usize,
    owner: ProcessId,
)
    requires
        after.completed(&before, buffer, length, subscription),
        before.current_user == Some(NonvolatileUser::App { processid: owner }),
        !before.apps.resolves(owner),
    ensures
        after.apps == before.apps,
        after.current_user is None,
        after.buffer.value == Some(buffer),
{
}

/// When a transfer for a process completes and nothing waits that a
/// process which still resolves or the kernel client has asked for, the
/// chip is not asked again, the chip is free, and the buffer that came back
/// is with the driver: a request left by a process that is gone starts
/// nothing.
pub proof fn lemma_completion_with_nothing_waiting<D: Storage>(
    before: NonvolatileStorage<D>,
    mid: NonvolatileStorage<D>,
    after: NonvolatileStorage<D>,
    buffer: Vec<u8>,
    length: usize,
    subscription: usize,
)
    requires
        before.current_user matches Some(NonvolatileUser::App { .. }),
        mid.completed(&before, buffer, length, subscription),
        after.served(&mid),
        mid.nothing_waits(),
    ensures
        after.driver == before.driver,
        after.current_user is None,
        after.buffer.value == Some(buffer),
{
}

} // verus!
