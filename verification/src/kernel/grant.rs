//! Per-process driver state, kept apart for each process.
//!
//! A `Grant` is the store in which one driver keeps a record for each process
//! that uses it. A record is created on first entry, found again by the
//! process's identity, and gone once the process is terminated or restarted.
//! Beside the driver's own data the record holds what the process shared with
//! the driver: its buffers, and one pending notification per subscription.

use vstd::prelude::*;
use crate::kernel::process::{Error, ProcessId};

verus! {

/// Data that a driver keeps for each process, with the value a fresh record
/// starts from.
pub trait GrantData: Sized {
    /// The value of a record that was just created.
    spec fn initial() -> Self;

    /// Creates the value of a fresh record.
    fn fresh() -> (r: Self)
        ensures
            r == Self::initial(),
    ;
}

/// A buffer that a process shares with a driver: its address in the
/// process's memory and its bytes.
pub struct ProcessBuffer {
    pub ptr: usize,
    pub data: Vec<u8>,
}

impl ProcessBuffer {
    /// The buffer of a process that shared nothing: no address, no bytes.
    pub fn none() -> (r: ProcessBuffer)
        ensures
            r.ptr == 0,
            r.data@.len() == 0,
    {
        ProcessBuffer { ptr: 0, data: Vec::new() }
    }

    /// A buffer at the address `ptr` that holds `data`.
    pub fn new(ptr: usize, data: Vec<u8>) -> (r: ProcessBuffer)
        ensures
            r.ptr == ptr,
            r.data == data,
    {
        ProcessBuffer { ptr, data }
    }

    /// The number of bytes in the buffer.
    pub fn len(&self) -> (r: usize)
        ensures
            r == self.data@.len(),
    {
        self.data.len()
    }

    /// The address of the buffer in the memory of its process.
    pub fn ptr(&self) -> (r: usize)
        ensures
            r == self.ptr,
    {
        self.ptr
    }
}

/// The bytes of `dst` with its first `n` bytes replaced by those of `src`.
pub open spec fn overwritten(dst: Seq<u8>, src: Seq<u8>, n: int) -> Seq<u8> {
    Seq::new(
        dst.len(),
        |j: int|
            if j < n {
                src[j]
            } else {
                dst[j]
            },
    )
}

/// Copies the first `n` bytes of `src` over the first `n` bytes of `dst`.
pub fn copy_prefix(dst: &mut Vec<u8>, src: &Vec<u8>, n: usize)
    requires
        n <= old(dst)@.len(),
        n <= src@.len(),
    ensures
        final(dst)@ == overwritten(old(dst)@, src@, n as int),
        final(dst)@.len() == old(dst)@.len(),
{
    let mut k: usize = 0;
    while k < n
        invariant
            k <= n,
            n <= dst@.len(),
            n <= src@.len(),
            dst@.len() == old(dst)@.len(),
            dst@ =~= overwritten(old(dst)@, src@, k as int),
        decreases n - k,
    {
        dst[k] = src[k];
        k += 1;
    }
}

/// The bytes of `dst` with `n` bytes from `dst_at` on replaced by those of
/// `src` from `src_at` on.
pub open spec fn spliced(dst: Seq<u8>, dst_at: int, src: Seq<u8>, src_at: int, n: int) -> Seq<u8> {
    Seq::new(
        dst.len(),
        |j: int|
            if dst_at <= j < dst_at + n {
                src[j - dst_at + src_at]
            } else {
                dst[j]
            },
    )
}

/// Copies `n` bytes of `src` from `src_at` on over those of `dst` from
/// `dst_at` on.
pub fn copy_slice(dst: &mut Vec<u8>, dst_at: usize, src: &Vec<u8>, src_at: usize, n: usize)
    requires
        dst_at + n <= old(dst)@.len(),
        src_at + n <= src@.len(),
    ensures
        final(dst)@ == spliced(old(dst)@, dst_at as int, src@, src_at as int, n as int),
        final(dst)@.len() == old(dst)@.len(),
{
    let _ = dst.len();
    let _ = src.len();
    let mut k: usize = 0;
    while k < n
        invariant
            k <= n,
            dst_at + n <= dst@.len(),
            src_at + n <= src@.len(),
            dst@.len() <= usize::MAX,
            src@.len() <= usize::MAX,
            dst@.len() == old(dst)@.len(),
            dst@ =~= spliced(old(dst)@, dst_at as int, src@, src_at as int, k as int),
        decreases n - k,
    {
        dst[dst_at + k] = src[src_at + k];
        k += 1;
    }
}

/// Why a notification was not scheduled.
#[derive(Clone, Copy, Debug, PartialEq, Eq, Structural)]
pub enum UpcallError {
    /// The subscription number is not one of this driver's.
    InvalidSubscribeNum,
    /// A notification for this subscription is still waiting to be consumed.
    QueueFull,
    /// The process record is not there.
    KernelError,
}

/// The three machine words of a notification.
pub type UpcallArgs = (usize, usize, usize);

/// What one driver holds for one slot of the process table.
pub struct ProcessRecord<T> {
    /// Whether a process is loaded in this slot.
    pub present: bool,
    /// The identifier of the incarnation that occupies the slot.
    pub identifier: usize,
    /// Whether that process is running (as opposed to faulted or stopped).
    pub active: bool,
    /// The driver's data for the process, absent until first entry.
    pub region: Option<T>,
    /// Per subscription, the notification waiting to be consumed, if any.
    pub pending: Vec<Option<UpcallArgs>>,
    /// How many notifications were dropped because one was waiting already.
    pub dropped: usize,
    /// The buffers that the process shared for reading and writing.
    pub rw: Vec<ProcessBuffer>,
    /// The buffers that the process shared for reading only.
    pub ro: Vec<ProcessBuffer>,
}

/// The records of one driver, one per slot of the process table.
pub struct Grant<T> {
    pub records: Vec<ProcessRecord<T>>,
    pub upcall_count: usize,
    pub ro_count: usize,
    pub rw_count: usize,
}

impl<T> ProcessRecord<T> {
    /// The record resolves for entry: a running process is loaded in it.
    pub open spec fn live(&self) -> bool {
        self.present && self.active
    }

    /// Both records describe the same process with the same data and the
    /// same shared buffers; they may differ in their notifications.
    pub open spec fn same_process(&self, other: &ProcessRecord<T>) -> bool {
        &&& self.present == other.present
        &&& self.identifier == other.identifier
        &&& self.active == other.active
        &&& self.region == other.region
        &&& self.rw == other.rw
        &&& self.ro == other.ro
    }

    /// The records differ at most in the `n`-th read-write buffer.
    pub open spec fn same_but_rw(&self, other: &ProcessRecord<T>, n: int) -> bool {
        &&& self.present == other.present
        &&& self.identifier == other.identifier
        &&& self.active == other.active
        &&& self.region == other.region
        &&& self.pending == other.pending
        &&& self.dropped == other.dropped
        &&& self.ro == other.ro
        &&& self.rw@.len() == other.rw@.len()
        &&& forall|m: int| 0 <= m < self.rw@.len() && m != n ==> self.rw@[m] == other.rw@[m]
    }

    /// The records differ at most in the `n`-th read-only buffer.
    pub open spec fn same_but_ro(&self, other: &ProcessRecord<T>, n: int) -> bool {
        &&& self.present == other.present
        &&& self.identifier == other.identifier
        &&& self.active == other.active
        &&& self.region == other.region
        &&& self.pending == other.pending
        &&& self.dropped == other.dropped
        &&& self.rw == other.rw
        &&& self.ro@.len() == other.ro@.len()
        &&& forall|m: int| 0 <= m < self.ro@.len() && m != n ==> self.ro@[m] == other.ro@[m]
    }

    /// Both records describe the same process with the same shared
    /// buffers.
    pub open spec fn same_shares(&self, other: &ProcessRecord<T>) -> bool {
        &&& self.present == other.present
        &&& self.identifier == other.identifier
        &&& self.active == other.active
        &&& self.rw == other.rw
        &&& self.ro == other.ro
    }

    /// Both records describe the same process.
    pub open spec fn same_identity(&self, other: &ProcessRecord<T>) -> bool {
        &&& self.present == other.present
        &&& self.identifier == other.identifier
        &&& self.active == other.active
    }

    /// The notifications of this record are those of `before` after one
    /// with the words `args` was scheduled for subscription `n`: it waits if
    /// the subscription exists and nothing waited for it; it was dropped and
    /// counted if something did.
    pub open spec fn pending_after(
        &self,
        before: &ProcessRecord<T>,
        n: int,
        args: UpcallArgs,
    ) -> bool {
        if n >= before.pending@.len() {
            self.pending == before.pending && self.dropped == before.dropped
        } else if before.pending@[n] is Some {
            self.pending == before.pending && self.dropped == before.count_drop()
        } else {
            self.pending@ == before.pending@.update(n, Some(args)) && self.dropped
                == before.dropped
        }
    }

    /// The notifications of both records are the same.
    pub open spec fn same_pending(&self, other: &ProcessRecord<T>) -> bool {
        self.pending == other.pending && self.dropped == other.dropped
    }

    /// The read-write buffers of both records are the same, but for the
    /// `n`-th.
    pub open spec fn rw_changed_at(&self, other: &ProcessRecord<T>, n: int) -> bool {
        &&& self.rw@.len() == other.rw@.len()
        &&& forall|m: int| 0 <= m < self.rw@.len() && m != n ==> self.rw@[m] == other.rw@[m]
    }

    /// This record is `before` after a notification with the words `args`
    /// was scheduled for subscription `n`, whatever became of the driver's
    /// data.
    pub open spec fn notified(&self, before: &ProcessRecord<T>, n: int, args: UpcallArgs) -> bool {
        &&& self.same_shares(before)
        &&& self.pending_after(before, n, args)
    }

    /// The count of dropped notifications after one more was dropped: it
    /// stops at the largest machine word.
    pub open spec fn count_drop(&self) -> usize {
        if self.dropped < usize::MAX {
            (self.dropped + 1) as usize
        } else {
            self.dropped
        }
    }

    /// The record is live and the driver's data exists.
    pub open spec fn allocated(&self) -> bool {
        self.live() && self.region is Some
    }
}

impl<T> Grant<T> {
    /// Every record has as many notification slots and shared buffers as the
    /// driver declared, and holds data only for a running process.
    pub open spec fn wf(&self) -> bool {
        forall|i: int|
            0 <= i < self.records@.len() ==> {
                &&& (#[trigger] self.records@[i]).pending@.len() == self.upcall_count
                &&& self.records@[i].rw@.len() == self.rw_count
                &&& self.records@[i].ro@.len() == self.ro_count
                &&& (self.records@[i].region is Some ==> self.records@[i].live())
            }
    }

    /// The number of slots of the process table.
    pub open spec fn slots(&self) -> int {
        self.records@.len() as int
    }

    /// What entering with `id` meets: the error, or nothing in the way.
    pub open spec fn lookup(&self, id: ProcessId) -> Result<(), Error> {
        if id.index >= self.records@.len() || !self.records@[id.index as int].present
            || self.records@[id.index as int].identifier != id.identifier {
            Err(Error::NoSuchApp)
        } else if !self.records@[id.index as int].active {
            Err(Error::InactiveApp)
        } else {
            Ok(())
        }
    }

    /// The process named by `id` exists and runs.
    pub open spec fn resolves(&self, id: ProcessId) -> bool {
        self.lookup(id) is Ok
    }

    /// The slot `i` holds a running process that has used this driver.
    pub open spec fn allocated(&self, i: int) -> bool {
        0 <= i < self.records@.len() && self.records@[i].allocated()
    }

    /// The driver's data for the process in slot `i`.
    pub open spec fn data(&self, i: int) -> T
        recommends
            self.allocated(i),
    {
        self.records@[i].region->Some_0
    }

    /// The notification waiting in slot `i` for subscription `n`.
    pub open spec fn upcall(&self, i: int, n: int) -> Option<UpcallArgs> {
        self.records@[i].pending@[n]
    }

    /// Both grants agree on everything but the record in slot `i`.
    pub open spec fn same_but(&self, other: &Grant<T>, i: int) -> bool {
        &&& self.upcall_count == other.upcall_count
        &&& self.ro_count == other.ro_count
        &&& self.rw_count == other.rw_count
        &&& self.records@.len() == other.records@.len()
        &&& forall|j: int|
            0 <= j < self.records@.len() && j != i ==> self.records@[j] == other.records@[j]
    }

    /// A store for `processes` slots, all of them vacant.
    pub fn new(processes: usize, upcall_count: usize, ro_count: usize, rw_count: usize) -> (r:
        Self)
        ensures
            r.wf(),
            r.slots() == processes,
            r.upcall_count == upcall_count,
            r.ro_count == ro_count,
            r.rw_count == rw_count,
            forall|i: int| 0 <= i < processes ==> !(#[trigger] r.records@[i]).present,
            forall|i: int| 0 <= i < processes ==> (#[trigger] r.records@[i]).region is None,
    {
        let mut records: Vec<ProcessRecord<T>> = Vec::new();
        let mut i: usize = 0;
        while i < processes
            invariant
                i <= processes,
                records@.len() == i,
                forall|j: int|
                    0 <= j < i ==> {
                        &&& (#[trigger] records@[j]).pending@.len() == upcall_count
                        &&& records@[j].rw@.len() == rw_count
                        &&& records@[j].ro@.len() == ro_count
                        &&& records@[j].region is None
                        &&& !records@[j].present
                    },
            decreases processes - i,
        {
            let rec = Self::vacant(upcall_count, ro_count, rw_count);
            records.push(rec);
            i += 1;
        }
        Grant { records, upcall_count, ro_count, rw_count }
    }

    /// The record of a slot in which no process is loaded.
    fn vacant(upcall_count: usize, ro_count: usize, rw_count: usize) -> (r: ProcessRecord<T>)
        ensures
            !r.present,
            !r.active,
            r.identifier == 0,
            r.region is None,
            r.dropped == 0,
            r.pending@.len() == upcall_count,
            forall|n: int| 0 <= n < upcall_count ==> r.pending@[n] is None,
            r.rw@.len() == rw_count,
            r.ro@.len() == ro_count,
            forall|n: int| 0 <= n < rw_count ==> (#[trigger] r.rw@[n]).data@.len() == 0,
            forall|n: int| 0 <= n < ro_count ==> (#[trigger] r.ro@[n]).data@.len() == 0,
    {
        let mut pending: Vec<Option<UpcallArgs>> = Vec::new();
        let mut n: usize = 0;
        while n < upcall_count
            invariant
                n <= upcall_count,
                pending@.len() == n,
                forall|k: int| 0 <= k < n ==> pending@[k] is None,
            decreases upcall_count - n,
        {
            pending.push(None);
            n += 1;
        }
        let mut rw: Vec<ProcessBuffer> = Vec::new();
        let mut n: usize = 0;
        while n < rw_count
            invariant
                n <= rw_count,
                rw@.len() == n,
                forall|k: int| 0 <= k < n ==> (#[trigger] rw@[k]).data@.len() == 0,
            decreases rw_count - n,
        {
            rw.push(ProcessBuffer::none());
            n += 1;
        }
        let mut ro: Vec<ProcessBuffer> = Vec::new();
        let mut n: usize = 0;
        while n < ro_count
            invariant
                n <= ro_count,
                ro@.len() == n,
                forall|k: int| 0 <= k < n ==> (#[trigger] ro@[k]).data@.len() == 0,
            decreases ro_count - n,
        {
            ro.push(ProcessBuffer::none());
            n += 1;
        }
        ProcessRecord {
            present: false,
            identifier: 0,
            active: false,
            region: None,
            pending,
            dropped: 0,
            rw,
            ro,
        }
    }

    /// The number of slots of the process table.
    pub fn len(&self) -> (r: usize)
        ensures
            r == self.slots(),
    {
        self.records.len()
    }

    /// Loads a running process with the given identifier into slot `index`,
    /// in place of whatever was there. The new process starts without a
    /// record: nothing of its predecessor is kept.
    pub fn load(&mut self, index: usize, identifier: usize) -> (id: ProcessId)
        requires
            old(self).wf(),
            index < old(self).slots(),
        ensures
            final(self).wf(),
            final(self).same_but(old(self), index as int),
            id == (ProcessId { index, identifier }),
            final(self).resolves(id),
            final(self).records@[index as int].region is None,
            final(self).records@[index as int].dropped == 0,
            forall|n: int|
                0 <= n < final(self).upcall_count ==> final(self).upcall(index as int, n) is None,
    {
        let mut rec = Self::vacant(self.upcall_count, self.ro_count, self.rw_count);
        rec.present = true;
        rec.active = true;
        rec.identifier = identifier;
        self.records[index] = rec;
        ProcessId { index, identifier }
    }

    /// Marks the process in slot `index` as no longer running and frees its
    /// record. Its identity still names a process, but an inactive one.
    pub fn terminate(&mut self, index: usize)
        requires
            old(self).wf(),
            index < old(self).slots(),
        ensures
            final(self).wf(),
            final(self).same_but(old(self), index as int),
            final(self).records@[index as int].present == old(self).records@[index as int].present,
            final(self).records@[index as int].identifier == old(self).records@[index
                as int].identifier,
            !final(self).records@[index as int].active,
            final(self).records@[index as int].region is None,
            !final(self).allocated(index as int),
    {
        let present = self.records[index].present;
        let identifier = self.records[index].identifier;
        let mut rec = Self::vacant(self.upcall_count, self.ro_count, self.rw_count);
        rec.present = present;
        rec.identifier = identifier;
        self.records[index] = rec;
    }

    /// Vacates slot `index`: no identity resolves to it afterwards.
    pub fn remove(&mut self, index: usize)
        requires
            old(self).wf(),
            index < old(self).slots(),
        ensures
            final(self).wf(),
            final(self).same_but(old(self), index as int),
            !final(self).records@[index as int].present,
            final(self).records@[index as int].region is None,
            !final(self).allocated(index as int),
    {
        let rec = Self::vacant(self.upcall_count, self.ro_count, self.rw_count);
        self.records[index] = rec;
    }

    /// Tells whether `id` names a running process, and if not, why not.
    /// Nothing is created.
    pub fn check(&self, id: ProcessId) -> (r: Result<(), Error>)
        ensures
            r == self.lookup(id),
    {
        if id.index >= self.records.len() {
            return Err(Error::NoSuchApp);
        }
        let rec = &self.records[id.index];
        if !rec.present || rec.identifier != id.identifier {
            Err(Error::NoSuchApp)
        } else if !rec.active {
            Err(Error::InactiveApp)
        } else {
            Ok(())
        }
    }

    /// Tells whether slot `i` holds a running process with a record.
    pub fn is_allocated(&self, i: usize) -> (r: bool)
        ensures
            r == self.allocated(i as int),
    {
        if i >= self.records.len() {
            return false;
        }
        let rec = &self.records[i];
        rec.present && rec.active && rec.region.is_some()
    }

    /// The identity of the process loaded in slot `i`.
    pub fn processid(&self, i: usize) -> (id: ProcessId)
        requires
            i < self.slots(),
        ensures
            id.index == i,
            id.identifier == self.records@[i as int].identifier,
            self.records@[i as int].live() ==> self.resolves(id),
    {
        ProcessId { index: i, identifier: self.records[i].identifier }
    }

    /// Stores `value` as the driver's data of the process in slot `i`.
    pub fn set(&mut self, i: usize, value: T)
        requires
            old(self).wf(),
            old(self).allocated(i as int),
        ensures
            final(self).wf(),
            final(self).same_but(old(self), i as int),
            final(self).allocated(i as int),
            final(self).data(i as int) == value,
            final(self).records@[i as int] == (ProcessRecord {
                region: Some(value),
                ..old(self).records@[i as int]
            }),
    {
        self.records[i].region = Some(value);
    }

    /// Schedules a notification with the words `args` for subscription `n`
    /// of the process in slot `i`. At most one notification waits per
    /// subscription: while one waits, a further one is dropped and counted.
    pub fn schedule_upcall(&mut self, i: usize, n: usize, args: UpcallArgs) -> (r: Result<
        (),
        UpcallError,
    >)
        requires
            old(self).wf(),
            i < old(self).slots(),
        ensures
            final(self).wf(),
            final(self).same_but(old(self), i as int),
            r == old(self).schedule_outcome(i as int, n as int),
            final(self).records@[i as int].same_process(&old(self).records@[i as int]),
            final(self).records@[i as int].notified(&old(self).records@[i as int], n as int, args),
            r is Ok ==> final(self).records@[i as int].pending@ == old(self).records@[i
                as int].pending@.update(n as int, Some(args)),
            r is Ok ==> final(self).records@[i as int].dropped == old(self).records@[i
                as int].dropped,
            r is Err ==> final(self).records@[i as int].pending == old(self).records@[i
                as int].pending,
            r == Err::<(), UpcallError>(UpcallError::QueueFull) ==> final(self).records@[i
                as int].dropped == old(self).records@[i as int].count_drop(),
            r == Err::<(), UpcallError>(UpcallError::InvalidSubscribeNum)
                ==> final(self).records@[i as int] == old(self).records@[i as int],
    {
        if n >= self.upcall_count {
            return Err(UpcallError::InvalidSubscribeNum);
        }
        if self.records[i].pending[n].is_some() {
            let d = self.records[i].dropped;
            if d < usize::MAX {
                self.records[i].dropped = d + 1;
            }
            return Err(UpcallError::QueueFull);
        }
        self.records[i].pending[n] = Some(args);
        Ok(())
    }

    /// What scheduling a notification for subscription `n` in slot `i`
    /// answers.
    pub open spec fn schedule_outcome(&self, i: int, n: int) -> Result<(), UpcallError> {
        if n >= self.upcall_count {
            Err(UpcallError::InvalidSubscribeNum)
        } else if self.records@[i].pending@[n] is Some {
            Err(UpcallError::QueueFull)
        } else {
            Ok(())
        }
    }

    /// The length of the `n`-th read-write buffer of slot `i`; zero where
    /// the driver has no such buffer or the process shared none.
    pub open spec fn rw_size(&self, i: int, n: int) -> int {
        if 0 <= n < self.records@[i].rw@.len() {
            self.records@[i].rw@[n].data@.len() as int
        } else {
            0
        }
    }

    /// The length of the `n`-th read-only buffer of slot `i`; zero where
    /// the driver has no such buffer or the process shared none.
    pub open spec fn ro_size(&self, i: int, n: int) -> int {
        if 0 <= n < self.records@[i].ro@.len() {
            self.records@[i].ro@[n].data@.len() as int
        } else {
            0
        }
    }

    /// The bytes of the `n`-th read-write buffer of slot `i`.
    pub open spec fn rw_bytes(&self, i: int, n: int) -> Seq<u8> {
        self.records@[i].rw@[n].data@
    }

    /// The bytes of the `n`-th read-only buffer of slot `i`.
    pub open spec fn ro_bytes(&self, i: int, n: int) -> Seq<u8> {
        self.records@[i].ro@[n].data@
    }

    /// The length of the `n`-th read-write buffer that the process in slot
    /// `i` shared.
    pub fn rw_len(&self, i: usize, n: usize) -> (r: usize)
        requires
            i < self.slots(),
        ensures
            r == self.rw_size(i as int, n as int),
    {
        if n < self.records[i].rw.len() {
            self.records[i].rw[n].data.len()
        } else {
            0
        }
    }

    /// The address of the `n`-th read-write buffer that the process in slot
    /// `i` shared.
    pub fn rw_ptr(&self, i: usize, n: usize) -> (r: usize)
        requires
            i < self.slots(),
        ensures
            r == (if n < self.records@[i as int].rw@.len() {
                self.records@[i as int].rw@[n as int].ptr
            } else {
                0
            }),
    {
        if n < self.records[i].rw.len() {
            self.records[i].rw[n].ptr
        } else {
            0
        }
    }

    /// The length of the `n`-th read-only buffer that the process in slot
    /// `i` shared.
    pub fn ro_len(&self, i: usize, n: usize) -> (r: usize)
        requires
            i < self.slots(),
        ensures
            r == self.ro_size(i as int, n as int),
    {
        if n < self.records[i].ro.len() {
            self.records[i].ro[n].data.len()
        } else {
            0
        }
    }

    /// Reads byte `k` of the `n`-th read-only buffer of slot `i`.
    pub fn ro_get(&self, i: usize, n: usize, k: usize) -> (r: u8)
        requires
            i < self.slots(),
            k < self.ro_size(i as int, n as int),
        ensures
            r == self.ro_bytes(i as int, n as int)[k as int],
    {
        self.records[i].ro[n].data[k]
    }

    /// Writes `v` to byte `k` of the `n`-th read-write buffer of slot `i`.
    /// Nothing else changes.
    pub fn rw_set(&mut self, i: usize, n: usize, k: usize, v: u8)
        requires
            old(self).wf(),
            i < old(self).slots(),
            k < old(self).rw_size(i as int, n as int),
        ensures
            final(self).wf(),
            final(self).same_but(old(self), i as int),
            final(self).records@[i as int].same_but_rw(&old(self).records@[i as int], n as int),
            final(self).records@[i as int].rw@[n as int].ptr == old(self).records@[i
                as int].rw@[n as int].ptr,
            final(self).rw_bytes(i as int, n as int) == old(self).rw_bytes(
                i as int,
                n as int,
            ).update(k as int, v),
    {
        self.records[i].rw[n].data[k] = v;
    }

    /// Copies the first `count` bytes of `src` into the `n`-th read-write
    /// buffer of slot `i`. Nothing else changes.
    pub fn copy_to_rw(&mut self, i: usize, n: usize, src: &Vec<u8>, count: usize)
        requires
            old(self).wf(),
            i < old(self).slots(),
            count <= old(self).rw_size(i as int, n as int),
            count <= src@.len(),
        ensures
            final(self).wf(),
            final(self).same_but(old(self), i as int),
            final(self).records@[i as int].same_but_rw(&old(self).records@[i as int], n as int),
            count > 0 ==> final(self).records@[i as int].rw@[n as int].ptr == old(self).records@[i
                as int].rw@[n as int].ptr,
            count > 0 ==> final(self).rw_bytes(i as int, n as int) == overwritten(
                old(self).rw_bytes(i as int, n as int),
                src@,
                count as int,
            ),
            count == 0 ==> *final(self) == *old(self),
    {
        if count > 0 {
            copy_prefix(&mut self.records[i].rw[n].data, src, count);
        }
    }

    /// Copies the first `count` bytes of the `n`-th read-only buffer of
    /// slot `i` into `dst`.
    pub fn copy_from_ro(&self, i: usize, n: usize, dst: &mut Vec<u8>, count: usize)
        requires
            i < self.slots(),
            count <= self.ro_size(i as int, n as int),
            count <= old(dst)@.len(),
        ensures
            final(dst)@.len() == old(dst)@.len(),
            count > 0 ==> final(dst)@ == overwritten(
                old(dst)@,
                self.ro_bytes(i as int, n as int),
                count as int,
            ),
            count == 0 ==> *final(dst) == *old(dst),
    {
        if count > 0 {
            copy_prefix(dst, &self.records[i].ro[n].data, count);
        }
    }

    /// Shares `buffer` as the `n`-th read-write buffer of the process `id`
    /// and hands back the buffer shared before.
    pub fn allow_readwrite(&mut self, id: ProcessId, n: usize, buffer: ProcessBuffer) -> (r:
        Result<ProcessBuffer, (Error, ProcessBuffer)>)
        requires
            old(self).wf(),
            n < old(self).rw_count,
        ensures
            final(self).wf(),
            match r {
                Ok(before) => {
                    &&& old(self).lookup(id) is Ok
                    &&& before == old(self).records@[id.index as int].rw@[n as int]
                    &&& final(self).same_but(old(self), id.index as int)
                    &&& final(self).records@[id.index as int].same_but_rw(
                        &old(self).records@[id.index as int],
                        n as int,
                    )
                    &&& final(self).records@[id.index as int].rw@[n as int] == buffer
                },
                Err((e, b)) => {
                    &&& old(self).lookup(id) == Err::<(), Error>(e)
                    &&& b == buffer
                    &&& *final(self) == *old(self)
                },
            },
    {
        match self.check(id) {
            Err(e) => Err((e, buffer)),
            Ok(()) => {
                let mut b = buffer;
                core::mem::swap(&mut self.records[id.index].rw[n], &mut b);
                Ok(b)
            },
        }
    }

    /// Shares `buffer` as the `n`-th read-only buffer of the process `id`
    /// and hands back the buffer shared before.
    pub fn allow_readonly(&mut self, id: ProcessId, n: usize, buffer: ProcessBuffer) -> (r:
        Result<ProcessBuffer, (Error, ProcessBuffer)>)
        requires
            old(self).wf(),
            n < old(self).ro_count,
        ensures
            final(self).wf(),
            match r {
                Ok(before) => {
                    &&& old(self).lookup(id) is Ok
                    &&& before == old(self).records@[id.index as int].ro@[n as int]
                    &&& final(self).same_but(old(self), id.index as int)
                    &&& final(self).records@[id.index as int].same_but_ro(
                        &old(self).records@[id.index as int],
                        n as int,
                    )
                    &&& final(self).records@[id.index as int].ro@[n as int] == buffer
                },
                Err((e, b)) => {
                    &&& old(self).lookup(id) == Err::<(), Error>(e)
                    &&& b == buffer
                    &&& *final(self) == *old(self)
                },
            },
    {
        match self.check(id) {
            Err(e) => Err((e, buffer)),
            Ok(()) => {
                let mut b = buffer;
                core::mem::swap(&mut self.records[id.index].ro[n], &mut b);
                Ok(b)
            },
        }
    }

    /// Consumes the notification that waits for subscription `n` of the
    /// process in slot `i`, if there is one: the process has been told.
    pub fn take_upcall(&mut self, i: usize, n: usize) -> (r: Option<UpcallArgs>)
        requires
            old(self).wf(),
            i < old(self).slots(),
            n < old(self).upcall_count,
        ensures
            final(self).wf(),
            final(self).same_but(old(self), i as int),
            final(self).records@[i as int].same_process(&old(self).records@[i as int]),
            final(self).records@[i as int].dropped == old(self).records@[i as int].dropped,
            r == old(self).upcall(i as int, n as int),
            final(self).records@[i as int].pending@ == old(self).records@[i
                as int].pending@.update(n as int, None),
    {
        self.records[i].pending[n].take()
    }
}

impl<T: Copy> Grant<T> {
    /// The driver's data for the process in slot `i`.
    pub fn get(&self, i: usize) -> (r: T)
        requires
            self.allocated(i as int),
        ensures
            r == self.data(i as int),
    {
        self.records[i].region.unwrap()
    }
}

impl<T: GrantData> Grant<T> {
    /// The data found on entering slot `i`: what is there, or the value of
    /// a fresh record.
    pub open spec fn entered(&self, i: int) -> T {
        match self.records@[i].region {
            Some(v) => v,
            None => T::initial(),
        }
    }

    /// A driver that serves one process at a time, its `owner`, may serve
    /// `caller`: nobody owns the driver, the owner is the caller, or the
    /// owner does not resolve any more.
    pub open spec fn admits(&self, owner: Option<ProcessId>, caller: ProcessId) -> bool {
        match owner {
            None => true,
            Some(o) => self.resolves(o) ==> o == caller,
        }
    }

    /// The grant after the record of `owner` was entered: the record
    /// exists if the owner resolves, and nothing else has changed.
    pub open spec fn entered_by(&self, before: &Grant<T>, owner: Option<ProcessId>) -> bool {
        match owner {
            Some(o) => if before.resolves(o) {
                &&& self.same_but(before, o.index as int)
                &&& self.records@[o.index as int] == (ProcessRecord {
                    region: Some(before.entered(o.index as int)),
                    ..before.records@[o.index as int]
                })
            } else {
                *self == *before
            },
            None => *self == *before,
        }
    }

    /// Tells whether a driver owned by `owner` may serve `caller`: see
    /// `admits`. The owner's record is entered on the way.
    pub fn may_serve(&mut self, owner: Option<ProcessId>, caller: ProcessId) -> (r: bool)
        requires
            old(self).wf(),
        ensures
            final(self).wf(),
            r == old(self).admits(owner, caller),
            final(self).entered_by(old(self), owner),
    {
        match owner {
            None => true,
            Some(o) => match self.enter(o) {
                Ok(_) => o == caller,
                Err(_) => true,
            },
        }
    }

    /// The grant after `owner` was notified with `args` for subscription
    /// `n`, starting from `before`: an owner that resolves is notified;
    /// without an owner, or with one that is gone, nobody is told and
    /// nothing changes.
    pub open spec fn told(
        &self,
        before: &Grant<T>,
        owner: Option<ProcessId>,
        n: int,
        args: UpcallArgs,
    ) -> bool {
        match owner {
            Some(o) => if before.resolves(o) {
                &&& self.same_but(before, o.index as int)
                &&& self.records@[o.index as int].region == Some(before.entered(o.index as int))
                &&& self.records@[o.index as int].notified(&before.records@[o.index as int], n,
                    args)
            } else {
                *self == *before
            },
            None => *self == *before,
        }
    }

    /// Notifies `owner`, if there is one and it resolves, with `args` for
    /// subscription `n`: see `told`.
    pub fn tell(&mut self, owner: Option<ProcessId>, n: usize, args: UpcallArgs)
        requires
            old(self).wf(),
        ensures
            final(self).wf(),
            final(self).told(old(self), owner, n as int, args),
    {
        match owner {
            None => {},
            Some(o) => {
                let _ = self.notify(o, n, args);
            },
        }
    }

    /// Enters the record of the process `id` and schedules a notification
    /// with the words `args` for its subscription `n`. A process that does
    /// not resolve is told nothing: the error of the lookup is answered and
    /// nothing has changed. Whether the notification waits or was dropped is
    /// not an error.
    pub fn notify(&mut self, id: ProcessId, n: usize, args: UpcallArgs) -> (r: Result<(), Error>)
        requires
            old(self).wf(),
        ensures
            final(self).wf(),
            r == old(self).lookup(id),
            r is Err ==> *final(self) == *old(self),
            r is Ok ==> {
                &&& final(self).same_but(old(self), id.index as int)
                &&& final(self).records@[id.index as int].region == Some(
                    old(self).entered(id.index as int),
                )
                &&& final(self).records@[id.index as int].notified(
                    &old(self).records@[id.index as int],
                    n as int,
                    args,
                )
            },
    {
        match self.enter(id) {
            Err(e) => Err(e),
            Ok(i) => {
                let _ = self.schedule_upcall(i, n, args);
                Ok(())
            },
        }
    }

    /// Enters the record of the process `id`, creating it if this is the
    /// process's first use of the driver. Answers the slot of the record,
    /// or why the process does not resolve; then nothing has changed.
    pub fn enter(&mut self, id: ProcessId) -> (r: Result<usize, Error>)
        requires
            old(self).wf(),
        ensures
            final(self).wf(),
            match r {
                Ok(i) => {
                    &&& old(self).lookup(id) is Ok
                    &&& i == id.index
                    &&& final(self).same_but(old(self), i as int)
                    &&& final(self).allocated(i as int)
                    &&& final(self).records@[i as int] == (ProcessRecord {
                        region: Some(old(self).entered(i as int)),
                        ..old(self).records@[i as int]
                    })
                    &&& old(self).records@[i as int].region is Some ==> *final(self) == *old(self)
                },
                Err(e) => old(self).lookup(id) == Err::<(), Error>(e) && *final(self) == *old(self),
            },
    {
        match self.check(id) {
            Err(e) => Err(e),
            Ok(()) => {
                if self.records[id.index].region.is_none() {
                    self.records[id.index].region = Some(T::fresh());
                }
                Ok(id.index)
            },
        }
    }
}

} // verus!
