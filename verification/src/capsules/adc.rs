//! Drivers through which processes sample analog channels.
//!
//! `AdcVirtualized` shares channels among processes: one sample is in flight
//! at a time, and the request of each other process waits in that
//! process's own record. `AdcDedicated` gives one process the whole
//! converter, single samples as well as buffered sampling at high rates.

use vstd::prelude::*;
use crate::kernel::errorcode::ErrorCode;
use crate::kernel::grant::{Grant, GrantData};
use crate::kernel::hil::adc::{Adc, AdcChannel, AdcHighSpeed};
use crate::kernel::process::ProcessId;
use crate::kernel::syscall::CommandReturn;
use crate::kernel::cells::TakeCell;
use crate::kernel::math::{least, smaller};

verus! {

/// The length of the buffers in which samples are collected.
pub const BUF_LEN: usize = 128;

/// What a process may ask of a shared channel.
#[derive(Clone, Copy, Debug, PartialEq, Eq, Structural)]
pub enum Operation {
    OneSample,
}

/// What the converter is doing, as tracked by the driver and as reported to
/// the process with each notification.
#[derive(Clone, Copy, Debug, PartialEq, Eq, Structural)]
pub enum AdcMode {
    NoMode,
    SingleSample,
    ContinuousSample,
    SingleBuffer,
    ContinuousBuffer,
}

impl AdcMode {
    /// The word that stands for the mode in a notification.
    pub open spec fn word(self) -> usize {
        match self {
            AdcMode::NoMode => usize::MAX,
            AdcMode::SingleSample => 0,
            AdcMode::ContinuousSample => 1,
            AdcMode::SingleBuffer => 2,
            AdcMode::ContinuousBuffer => 3,
        }
    }

    /// The word that stands for the mode in a notification.
    pub fn into_usize(self) -> (r: usize)
        ensures
            r == self.word(),
    {
        match self {
            AdcMode::NoMode => usize::MAX,
            AdcMode::SingleSample => 0,
            AdcMode::ContinuousSample => 1,
            AdcMode::SingleBuffer => 2,
            AdcMode::ContinuousBuffer => 3,
        }
    }
}

/// The record of a process that uses shared channels: its waiting request.
#[derive(Clone, Copy, Debug, PartialEq, Eq, Structural)]
pub struct AppSys {
    pub pending_command: bool,
    pub command: Option<Operation>,
    pub channel: usize,
}

impl Default for AppSys {
    fn default() -> (r: AppSys)
        ensures
            r == (AppSys { pending_command: false, command: None, channel: 0 }),
    {
        AppSys { pending_command: false, command: None, channel: 0 }
    }
}

impl GrantData for AppSys {
    open spec fn initial() -> AppSys {
        AppSys { pending_command: false, command: None, channel: 0 }
    }

    fn fresh() -> AppSys {
        AppSys::default()
    }
}

/// Shares channels among processes; requests are queued, one per process.
pub struct AdcVirtualized<C: AdcChannel> {
    pub drivers: Vec<C>,
    pub apps: Grant<AppSys>,
    pub current_process: Option<ProcessId>,
}

impl<C: AdcChannel> AdcVirtualized<C> {
    /// The records fit the driver: one subscription, and every waiting
    /// request names a channel that exists. While no sample is in flight no
    /// request waits.
    pub open spec fn wf(&self) -> bool {
        &&& self.valid()
        &&& (self.current_process is None ==> self.nothing_waits())
    }

    /// The records fit the driver: one subscription, and every waiting
    /// request names a channel that exists.
    pub open spec fn valid(&self) -> bool {
        &&& self.apps.wf()
        &&& self.apps.upcall_count >= 1
        &&& forall|i: int|
            self.apps.allocated(i)
                && (#[trigger] self.apps.records@[i]).region->Some_0.pending_command
                ==> self.apps.records@[i].region->Some_0.channel < self.drivers@.len()
    }

    /// No process has a request waiting.
    pub open spec fn nothing_waits(&self) -> bool {
        forall|i: int|
            self.apps.allocated(i)
                ==> !(#[trigger] self.apps.records@[i]).region->Some_0.pending_command
    }

    /// The process in slot `i` has a request waiting.
    pub open spec fn waits(&self, i: int) -> bool {
        self.apps.allocated(i) && self.apps.records@[i].region->Some_0.pending_command
    }

    /// Creates the driver for `drivers`, the channels it offers, with the
    /// process records in `grant`.
    pub fn new(drivers: Vec<C>, grant: Grant<AppSys>) -> (r: AdcVirtualized<C>)
        ensures
            r.drivers == drivers,
            r.apps == grant,
            r.current_process is None,
    {
        AdcVirtualized { drivers, apps: grant, current_process: None }
    }

    /// What becomes of a request made while no sample is in flight, once
    /// the channel has answered: accepted, the requester is the owner;
    /// refused, nobody is, and the channel's reason is returned.
    pub fn start_answered(&mut self, processid: ProcessId, answer: Result<(), ErrorCode>) -> (r:
        Result<(), ErrorCode>)
        requires
            old(self).wf(),
            old(self).current_process is None,
        ensures
            final(self).wf(),
            r == answer,
            final(self).current_process == (if answer is Ok {
                Some(processid)
            } else {
                None
            }),
            final(self).apps == old(self).apps,
            final(self).drivers == old(self).drivers,
    {
        if answer.is_ok() {
            self.current_process = Some(processid);
        }
        answer
    }

    /// What becomes of a waiting request that was handed to its channel,
    /// once the channel has answered: accepted, its process is the owner;
    /// refused, the request is dropped and nobody owns the channels.
    pub fn dispatch_answered(
        &mut self,
        processid: ProcessId,
        answer: Result<(), ErrorCode>,
    ) -> (started: bool)
        requires
            old(self).current_process is None,
        ensures
            started == answer.is_ok(),
            final(self).current_process == (if answer is Ok {
                Some(processid)
            } else {
                None
            }),
            final(self).apps == old(self).apps,
            final(self).drivers == old(self).drivers,
    {
        if answer.is_ok() {
            self.current_process = Some(processid);
        }
        answer.is_ok()
    }

    /// The driver after the request of `processid` for `command` on
    /// `channel` was made on `before` and answered with `r`: see
    /// `enqueue_command`.
    pub open spec fn enqueued(
        &self,
        before: &AdcVirtualized<C>,
        command: Operation,
        channel: usize,
        processid: ProcessId,
        r: Result<(), ErrorCode>,
    ) -> bool {
        &&& self.wf()
        &&& self.drivers@.len() == before.drivers@.len()
        &&& if channel >= before.drivers@.len() {
            r == Err::<(), ErrorCode>(ErrorCode::NODEVICE) && *self == *before
        } else if before.current_process is None {
            &&& self.apps == before.apps
            &&& self.current_process == (if r is Ok {
                Some(processid)
            } else {
                None
            })
            &&& self.asked(before, channel, r)
        } else {
            &&& self.drivers == before.drivers
            &&& self.current_process == before.current_process
            &&& r == before.queue_outcome(processid)
            &&& r is Err ==> self.apps == before.apps
            &&& r is Ok ==> self.apps.same_but(&before.apps, processid.index as int)
                && self.apps.records@[processid.index as int] == (
            crate::kernel::grant::ProcessRecord {
                region: Some(AppSys { pending_command: true, command: Some(command), channel }),
                ..before.apps.records@[processid.index as int]
            })
        }
    }

    /// Takes the request of `processid` for `command` on `channel`.
    ///
    /// A channel that does not exist is refused with `NODEVICE`. While no
    /// sample is in flight the channel is asked at once and its answer
    /// decides: see `start_answered`. Otherwise the request is stored in the
    /// process's record, unless one waits there already, which is refused
    /// with `BUSY` and leaves the waiting request as it was. A process that
    /// does not resolve is refused with the error of the lookup. Only in
    /// the first of these cases is a channel touched.
    pub fn enqueue_command(
        &mut self,
        command: Operation,
        channel: usize,
        processid: ProcessId,
    ) -> (r: Result<(), ErrorCode>)
        requires
            old(self).wf(),
        ensures
            final(self).enqueued(old(self), command, channel, processid, r),
    {
        if channel >= self.drivers.len() {
            return Err(ErrorCode::NODEVICE);
        }
        if self.current_process.is_none() {
            let answer = self.call_driver(command, channel);
            self.start_answered(processid, answer)
        } else {
            if self.apps.is_allocated(processid.index) && self.apps.check(processid).is_ok() {
                if self.apps.get(processid.index).pending_command {
                    return Err(ErrorCode::BUSY);
                }
            }
            match self.apps.enter(processid) {
                Err(e) => Err(e.into_errorcode()),
                Ok(i) => {
                    let mut app = self.apps.get(i);
                    app.pending_command = true;
                    app.command = Some(command);
                    app.channel = channel;
                    self.apps.set(i, app);
                    Ok(())
                },
            }
        }
    }

    /// What a request made while a sample is in flight is answered: `BUSY`
    /// if the process has a request waiting, the error of the lookup if the
    /// process does not resolve, success otherwise.
    pub open spec fn queue_outcome(&self, processid: ProcessId) -> Result<(), ErrorCode> {
        match self.apps.lookup(processid) {
            Err(e) => Err(e.as_errorcode()),
            Ok(()) => {
                if self.apps.entered(processid.index as int).pending_command {
                    Err(ErrorCode::BUSY)
                } else {
                    Ok(())
                }
            },
        }
    }

    /// The record of slot `i` after its waiting request was taken out.
    pub open spec fn taken(&self, i: int) -> crate::kernel::grant::ProcessRecord<AppSys> {
        crate::kernel::grant::ProcessRecord {
            region: Some(
                AppSys {
                    pending_command: false,
                    command: None,
                    channel: self.apps.records@[i].region->Some_0.channel,
                },
            ),
            ..self.apps.records@[i]
        }
    }

    /// How the driver may look after the waiting requests were served,
    /// starting from `before`: the processes were scanned in the order of
    /// their slots; each waiting request met on the way was taken out of its
    /// record and its channel asked; the scan ended with the first request
    /// that was accepted, whose process is the owner, or else with the last
    /// slot and no owner. Records of processes that are gone, or that have
    /// no request waiting, are untouched. With nothing waiting nothing is
    /// done at all: no channel is asked. Each request that the scan took out
    /// was put to its channel, in the order of the slots: see `trailed`.
    pub open spec fn served(&self, before: &AdcVirtualized<C>) -> bool {
        &&& self.drivers@.len() == before.drivers@.len()
        &&& (before.nothing_waits() ==> *self == *before)
        &&& self.apps.upcall_count == before.apps.upcall_count
        &&& self.apps.rw_count == before.apps.rw_count
        &&& self.apps.ro_count == before.apps.ro_count
        &&& self.apps.slots() == before.apps.slots()
        &&& forall|i: int|
            0 <= i < before.apps.slots() ==> (#[trigger] self.apps.records@[i]) == (if before.waits(
                i,
            ) && self.scanned(i) {
                before.taken(i)
            } else {
                before.apps.records@[i]
            })
        &&& match self.current_process {
            Some(p) => {
                &&& p.index < before.apps.slots()
                &&& before.waits(p.index as int)
                &&& p.identifier == before.apps.records@[p.index as int].identifier
                &&& exists|channels: Seq<C>| #[trigger]
                    self.accepted_from(
                        channels,
                        before.apps.records@[p.index as int].region->Some_0.channel,
                    )
            },
            None => true,
        }
        &&& exists|trail: Seq<Seq<C>>, answers: Seq<Result<(), ErrorCode>>| #[trigger]
            self.trailed(before, trail, answers)
    }

    /// The channels `after` are the channels `before` after the channel
    /// `channel` was asked for a single sample and answered `r`: no other
    /// channel was touched.
    pub open spec fn channel_asked(
        after: Seq<C>,
        before: Seq<C>,
        channel: usize,
        r: Result<(), ErrorCode>,
    ) -> bool {
        &&& after.len() == before.len()
        &&& channel < before.len()
        &&& after[channel as int].sampled(&before[channel as int], r)
        &&& forall|k: int| 0 <= k < before.len() && k != channel ==> after[k] == before[k]
    }

    /// What the scan did at slot `j` of `before` when it ended with the
    /// owner `owner`: `trail` holds the channels as they were before and
    /// behind each slot, `answers` what the channel answered at each slot.
    /// A request that waited in a slot that the scan reached was put to its
    /// channel, and it was accepted if and only if its process is the
    /// owner; at every other slot no channel was touched. The scan reached
    /// the slots up to the owner's, and all slots if there is no owner.
    pub open spec fn step(
        before: &AdcVirtualized<C>,
        owner: Option<ProcessId>,
        trail: Seq<Seq<C>>,
        answers: Seq<Result<(), ErrorCode>>,
        j: int,
    ) -> bool {
        let reached = match owner {
            Some(p) => j <= p.index,
            None => true,
        };
        if before.waits(j) && reached {
            &&& Self::channel_asked(
                trail[j + 1],
                trail[j],
                before.apps.records@[j].region->Some_0.channel,
                answers[j],
            )
            &&& (answers[j] is Ok <==> (owner matches Some(p) && p.index == j))
        } else {
            trail[j + 1] == trail[j]
        }
    }

    /// The channels of this driver are what the channels of `before`
    /// became by the scan of the slots: the trail of the channels leads from
    /// those to these, slot by slot as `step` says.
    pub open spec fn trailed(
        &self,
        before: &AdcVirtualized<C>,
        trail: Seq<Seq<C>>,
        answers: Seq<Result<(), ErrorCode>>,
    ) -> bool {
        &&& trail.len() == before.apps.slots() + 1
        &&& answers.len() == before.apps.slots()
        &&& trail[0] == before.drivers@
        &&& trail[before.apps.slots() as int] == self.drivers@
        &&& forall|j: int|
            0 <= j < before.apps.slots() ==> #[trigger] Self::step(
                before,
                self.current_process,
                trail,
                answers,
                j,
            )
    }

    /// The channels of this driver are what `channels` became when the
    /// channel `channel` was asked for a single sample and accepted: no
    /// other channel was touched then.
    pub open spec fn accepted_from(&self, channels: Seq<C>, channel: usize) -> bool {
        &&& self.drivers@.len() == channels.len()
        &&& channel < channels.len()
        &&& self.drivers@[channel as int].sampled(&channels[channel as int], Ok(()))
        &&& forall|j: int|
            0 <= j < channels.len() && j != channel ==> self.drivers@[j] == channels[j]
    }

    /// The scan that left the driver in this state reached slot `i`.
    pub open spec fn scanned(&self, i: int) -> bool {
        match self.current_process {
            Some(p) => i <= p.index,
            None => true,
        }
    }

    /// Serves the waiting requests: see `served`. While a sample is in
    /// flight nothing is done.
    pub fn run_next_command(&mut self)
        requires
            old(self).valid(),
        ensures
            final(self).wf(),
            old(self).current_process is Some ==> *final(self) == *old(self),
            old(self).current_process is None ==> final(self).served(old(self)),
    {
        if self.current_process.is_some() {
            return ;
        }
        let ghost mut trail: Seq<Seq<C>> = seq![self.drivers@];
        let ghost mut answers: Seq<Result<(), ErrorCode>> = Seq::empty();
        let n = self.apps.len();
        let mut i: usize = 0;
        while i < n && self.current_process.is_none()
            invariant
                n == old(self).apps.slots(),
                i <= n,
                old(self).valid(),
                old(self).current_process is None,
                self.apps.wf(),
                self.drivers@.len() == old(self).drivers@.len(),
                trail.len() == i + 1,
                answers.len() == i,
                trail[0] == old(self).drivers@,
                trail[i as int] == self.drivers@,
                forall|j: int|
                    0 <= j < i ==> #[trigger] Self::step(
                        old(self),
                        self.current_process,
                        trail,
                        answers,
                        j,
                    ),
                self.apps.upcall_count == old(self).apps.upcall_count,
                self.apps.rw_count == old(self).apps.rw_count,
                self.apps.ro_count == old(self).apps.ro_count,
                self.apps.slots() == old(self).apps.slots(),
                forall|j: int|
                    0 <= j < i ==> (#[trigger] self.apps.records@[j]) == (if old(self).waits(j) {
                        old(self).taken(j)
                    } else {
                        old(self).apps.records@[j]
                    }),
                forall|j: int|
                    i <= j < n ==> (#[trigger] self.apps.records@[j]) == old(self).apps.records@[j],
                self.current_process matches Some(p) ==> {
                    &&& p.index + 1 == i
                    &&& old(self).waits(p.index as int)
                    &&& p.identifier == old(self).apps.records@[p.index as int].identifier
                },
                old(self).nothing_waits() ==> *self == *old(self),
                self.current_process matches Some(p) ==> exists|channels: Seq<C>| #[trigger]
                    self.accepted_from(
                        channels,
                        old(self).apps.records@[p.index as int].region->Some_0.channel,
                    ),
            decreases n - i,
        {
            assert(self.apps.records@[i as int] == old(self).apps.records@[i as int]);
            let ghost trail_before = trail;
            let ghost answers_before = answers;
            let ghost mut answered: Result<(), ErrorCode> = Ok(());
            if self.apps.is_allocated(i) {
                let mut app = self.apps.get(i);
                if app.pending_command {
                    assert(old(self).waits(i as int));
                    let channel = app.channel;
                    let command = match app.command {
                        Some(c) => c,
                        None => Operation::OneSample,
                    };
                    app.pending_command = false;
                    app.command = None;
                    let processid = self.apps.processid(i);
                    self.apps.set(i, app);
                    let ghost channels = self.drivers@;
                    let answer = self.call_driver(command, channel);
                    self.dispatch_answered(processid, answer);
                    proof {
                        answered = answer;
                        assert(Self::channel_asked(self.drivers@, channels, channel, answer));
                        if answer is Ok {
                            assert(answer->Ok_0 == ());
                            assert(answer == Ok::<(), ErrorCode>(()));
                            assert(self.accepted_from(channels, channel));
                        }
                    }
                }
            }
            proof {
                trail = trail.push(self.drivers@);
                answers = answers.push(answered);
                assert forall|j: int| 0 <= j < i + 1 implies #[trigger] Self::step(
                    old(self),
                    self.current_process,
                    trail,
                    answers,
                    j,
                ) by {
                    if j < i {
                        assert(Self::step(old(self), None, trail_before, answers_before, j));
                        assert(trail[j] == trail_before[j]);
                        assert(trail[j + 1] == trail_before[j + 1]);
                        assert(answers[j] == answers_before[j]);
                    }
                }
            }
            i += 1;
        }
        proof {
            let reached = trail;
            let heard = answers;
            let channels = self.drivers@;
            trail = reached + Seq::new((n - i) as nat, |k: int| channels);
            answers = heard + Seq::new((n - i) as nat, |k: int| Ok::<(), ErrorCode>(()));
            assert forall|j: int| 0 <= j < n implies #[trigger] Self::step(
                old(self),
                self.current_process,
                trail,
                answers,
                j,
            ) by {
                if j < i {
                    assert(Self::step(old(self), self.current_process, reached, heard, j));
                    assert(trail[j] == reached[j]);
                    assert(trail[j + 1] == reached[j + 1]);
                    assert(answers[j] == heard[j]);
                } else {
                    assert(trail[j] == channels);
                    assert(trail[j + 1] == channels);
                }
            }
            assert(self.trailed(old(self), trail, answers));
            assert forall|j: int| 0 <= j < old(self).apps.slots() implies (
            #[trigger] self.apps.records@[j]) == (if old(self).waits(j) && self.scanned(j) {
                old(self).taken(j)
            } else {
                old(self).apps.records@[j]
            }) by {
                if j < i {
                } else {
                    assert(!self.scanned(j) || !old(self).waits(j)) by {
                        if self.current_process is None {
                            assert(i == n);
                        }
                    }
                }
            }
        }
    }

    /// How the driver looks after the completion of the sample in flight
    /// was handled, starting from `before`: nobody owns the channels. If
    /// the owner still resolves, its waiting flag is cleared and it is
    /// notified of the sample, with the words for a single sample, the
    /// channel in its record and the sample's value. If the owner is gone
    /// nothing is told to anyone and no record changes.
    pub open spec fn completed(&self, before: &AdcVirtualized<C>, sample: u16) -> bool {
        &&& self.current_process is None
        &&& self.drivers == before.drivers
        &&& match before.current_process {
            None => self.apps == before.apps,
            Some(p) => if before.apps.resolves(p) {
                let i = p.index as int;
                let app = before.apps.entered(i);
                &&& self.apps.same_but(&before.apps, i)
                &&& self.apps.records@[i].region == Some(AppSys { pending_command: false, ..app })
                &&& self.apps.records@[i].notified(
                    &before.apps.records@[i],
                    0,
                    (AdcMode::SingleSample.word(), app.channel, sample as usize),
                )
            } else {
                self.apps == before.apps
            },
        }
    }

    /// Handles the completion of the sample in flight, without starting
    /// anything new: see `completed`.
    pub fn complete(&mut self, sample: u16)
        requires
            old(self).valid(),
        ensures
            final(self).valid(),
            final(self).completed(old(self), sample),
    {
        match self.current_process.take() {
            None => {},
            Some(processid) => {
                match self.apps.enter(processid) {
                    Err(_) => {},
                    Ok(i) => {
                        let mut app = self.apps.get(i);
                        app.pending_command = false;
                        let channel = app.channel;
                        self.apps.set(i, app);
                        let _ = self.apps.schedule_upcall(
                            i,
                            0,
                            (AdcMode::SingleSample.into_usize(), channel, sample as usize),
                        );
                    },
                }
            },
        }
    }

    /// The completion of the sample in flight, reported by the channel:
    /// the owner is notified if it is still there, and the waiting requests
    /// are served.
    pub fn sample_ready(&mut self, sample: u16)
        requires
            old(self).valid(),
        ensures
            final(self).wf(),
            exists|mid: AdcVirtualized<C>| #[trigger]
                mid.completed(old(self), sample) && final(self).served(&mid),
    {
        self.complete(sample);
        let ghost mid = *self;
        self.run_next_command();
        assert(mid.completed(old(self), sample) && self.served(&mid));
    }

    /// A command of the process `processid`: 0 asks for the number of
    /// channels, 1 for a sample on `channel`, 101 for the resolution of
    /// `channel` in bits, 102 for its reference voltage in millivolts.
    pub fn command(
        &mut self,
        command_num: usize,
        channel: usize,
        _data: usize,
        processid: ProcessId,
    ) -> (r: CommandReturn)
        requires
            old(self).wf(),
        ensures
            final(self).wf(),
            command_num == 0 ==> r == CommandReturn::SuccessU32(old(self).drivers@.len() as u32)
                && *final(self) == *old(self),
            command_num == 1 ==> exists|res: Result<(), ErrorCode>|
                r == CommandReturn::of_result(res) && #[trigger] final(self).enqueued(
                    old(self),
                    Operation::OneSample,
                    channel,
                    processid,
                    res,
                ),
            command_num == 101 ==> *final(self) == *old(self)
                && (if channel >= old(self).drivers@.len() {
                r == CommandReturn::Failure(ErrorCode::NODEVICE)
            } else {
                r == CommandReturn::SuccessU32(
                    old(self).drivers@[channel as int].resolution_bits() as u32,
                )
            }),
            command_num == 102 ==> *final(self) == *old(self)
                && (if channel >= old(self).drivers@.len() {
                r == CommandReturn::Failure(ErrorCode::NODEVICE)
            } else {
                r == (match old(self).drivers@[channel as int].voltage_reference_mv() {
                    Some(voltage) => CommandReturn::SuccessU32(voltage as u32),
                    None => CommandReturn::Failure(ErrorCode::NOSUPPORT),
                })
            }),
            command_num != 0 && command_num != 1 && command_num != 101 && command_num != 102
                ==> r == CommandReturn::Failure(ErrorCode::NOSUPPORT) && *final(self) == *old(self),
    {
        if command_num == 0 {
            CommandReturn::success_u32(self.drivers.len() as u32)
        } else if command_num == 1 {
            let res = self.enqueue_command(Operation::OneSample, channel, processid);
            assert(self.enqueued(old(self), Operation::OneSample, channel, processid, res));
            CommandReturn::from_result(res)
        } else if command_num == 101 {
            if channel < self.drivers.len() {
                CommandReturn::success_u32(self.drivers[channel].get_resolution_bits() as u32)
            } else {
                CommandReturn::failure(ErrorCode::NODEVICE)
            }
        } else if command_num == 102 {
            if channel < self.drivers.len() {
                match self.drivers[channel].get_voltage_reference_mv() {
                    Some(voltage) => CommandReturn::success_u32(voltage as u32),
                    None => CommandReturn::failure(ErrorCode::NOSUPPORT),
                }
            } else {
                CommandReturn::failure(ErrorCode::NODEVICE)
            }
        } else {
            CommandReturn::failure(ErrorCode::NOSUPPORT)
        }
    }

    /// Creates the record of `processid` if the process resolves.
    pub fn allocate_grant(
        &mut self,
        processid: ProcessId,
    ) -> (r: Result<(), crate::kernel::process::Error>)
        requires
            old(self).wf(),
        ensures
            final(self).wf(),
            r == old(self).apps.lookup(processid),
            final(self).drivers == old(self).drivers,
            final(self).current_process == old(self).current_process,
    {
        match self.apps.enter(processid) {
            Ok(_) => Ok(()),
            Err(e) => Err(e),
        }
    }

    /// The channels of this driver are those of `before` after the
    /// channel `channel` was asked for a single sample and answered `r`: no
    /// other channel was touched.
    pub open spec fn asked(
        &self,
        before: &AdcVirtualized<C>,
        channel: usize,
        r: Result<(), ErrorCode>,
    ) -> bool {
        &&& self.drivers@.len() == before.drivers@.len()
        &&& self.drivers@[channel as int].sampled(&before.drivers@[channel as int], r)
        &&& forall|j: int|
            0 <= j < before.drivers@.len() && j != channel ==> self.drivers@[j]
                == before.drivers@[j]
    }

    /// Asks the channel `channel` to carry out `command`: a single sample.
    /// The answer is the channel's.
    pub fn call_driver(&mut self, command: Operation, channel: usize) -> (r: Result<(), ErrorCode>)
        requires
            channel < old(self).drivers@.len(),
        ensures
            final(self).asked(old(self), channel, r),
            final(self).drivers@.len() == old(self).drivers@.len(),
            forall|j: int|
                0 <= j < old(self).drivers@.len() && j != channel ==> final(self).drivers@[j]
                    == old(self).drivers@[j],
            final(self).apps == old(self).apps,
            final(self).current_process == old(self).current_process,
    {
        match command {
            Operation::OneSample => self.drivers[channel].sample(),
        }
    }
}

/// While one sample is in flight, no request reaches a channel: the
/// channels are as they were, and so is the owner.
pub proof fn lemma_one_in_flight<C: AdcChannel>(
    before: AdcVirtualized<C>,
    after: AdcVirtualized<C>,
    command: Operation,
    channel: usize,
    processid: ProcessId,
    r: Result<(), ErrorCode>,
)
    requires
        after.enqueued(&before, command, channel, processid, r),
        before.current_process is Some,
    ensures
        after.drivers == before.drivers,
        after.current_process == before.current_process,
{
}

/// A second request of a process whose request waits, for a channel that
/// exists, is refused with `BUSY`, and the waiting request is as it was.
pub proof fn lemma_no_overwrite<C: AdcChannel>(
    before: AdcVirtualized<C>,
    after: AdcVirtualized<C>,
    command: Operation,
    channel: usize,
    processid: ProcessId,
    r: Result<(), ErrorCode>,
)
    requires
        before.wf(),
        after.enqueued(&before, command, channel, processid, r),
        channel < before.drivers@.len(),
        before.apps.resolves(processid),
        before.waits(processid.index as int),
    ensures
        r == Err::<(), ErrorCode>(ErrorCode::BUSY),
        after == before,
{
}

/// A process that is gone is passed over when the waiting requests are
/// served: its slot is not looked into, it does not become the owner, and
/// it is told nothing, whatever request it had made before it went. The
/// scan goes on behind it.
pub proof fn lemma_gone_process_is_skipped<C: AdcChannel>(
    before: AdcVirtualized<C>,
    after: AdcVirtualized<C>,
    slot: int,
)
    requires
        after.served(&before),
        0 <= slot < before.apps.slots(),
        !before.apps.allocated(slot),
    ensures
        after.apps.records@[slot] == before.apps.records@[slot],
        after.current_process matches Some(p) ==> p.index != slot,
        forall|i: int|
            slot < i < before.apps.slots() && after.scanned(i) && before.waits(i)
                ==> #[trigger] after.apps.records@[i] == before.taken(i),
{
}

/// Where no process that still resolves has a request waiting, serving the
/// waiting requests changes nothing at all: no channel is asked, and the
/// channels stay free.
pub proof fn lemma_nothing_to_serve<C: AdcChannel>(
    before: AdcVirtualized<C>,
    after: AdcVirtualized<C>,
)
    requires
        after.served(&before),
        before.nothing_waits(),
    ensures
        after == before,
        after.current_process is None,
        after.apps.records@ =~= before.apps.records@,
{
    assert forall|i: int| 0 <= i < before.apps.slots() implies after.apps.records@[i]
        == before.apps.records@[i] by {
        assert(!before.waits(i));
    }
}

/// When a sample completes and no process that still resolves has a
/// request waiting, no channel is asked: the channels are as they were, and
/// nobody owns them.
pub proof fn lemma_completion_with_nothing_waiting<C: AdcChannel>(
    before: AdcVirtualized<C>,
    mid: AdcVirtualized<C>,
    after: AdcVirtualized<C>,
    sample: u16,
)
    requires
        mid.completed(&before, sample),
        after.served(&mid),
        mid.nothing_waits(),
    ensures
        after.drivers == before.drivers,
        after.current_process is None,
        after.apps == mid.apps,
{
}

/// Up to the first slot whose process waits, the scan has touched no
/// channel.
pub proof fn lemma_untouched_before<C: AdcChannel>(
    before: AdcVirtualized<C>,
    owner: Option<ProcessId>,
    trail: Seq<Seq<C>>,
    answers: Seq<Result<(), ErrorCode>>,
    k: int,
)
    requires
        0 <= k <= before.apps.slots(),
        trail.len() == before.apps.slots() + 1,
        forall|j: int|
            0 <= j < k ==> #[trigger] AdcVirtualized::<C>::step(&before, owner, trail, answers, j),
        forall|j: int| 0 <= j < k ==> !before.waits(j),
    ensures
        trail[k] == trail[0],
    decreases k,
{
    if k > 0 {
        lemma_untouched_before(before, owner, trail, answers, k - 1);
        assert(AdcVirtualized::<C>::step(&before, owner, trail, answers, k - 1));
    }
}

/// Behind the slot of the owner the scan has touched no channel.
pub proof fn lemma_untouched_behind<C: AdcChannel>(
    before: AdcVirtualized<C>,
    owner: ProcessId,
    trail: Seq<Seq<C>>,
    answers: Seq<Result<(), ErrorCode>>,
    k: int,
)
    requires
        owner.index < k <= before.apps.slots(),
        trail.len() == before.apps.slots() + 1,
        forall|j: int|
            0 <= j < before.apps.slots() ==> #[trigger] AdcVirtualized::<C>::step(
                &before,
                Some(owner),
                trail,
                answers,
                j,
            ),
    ensures
        trail[k] == trail[owner.index + 1],
    decreases k,
{
    if k > owner.index + 1 {
        lemma_untouched_behind(before, owner, trail, answers, k - 1);
        assert(AdcVirtualized::<C>::step(&before, Some(owner), trail, answers, k - 1));
    }
}

/// The first process that waits and still resolves has its request put to
/// its channel, whatever waits in the slots of processes that are gone: the
/// channels are asked once, for that request, and if the channel accepts,
/// the process owns the channels and no other channel was asked.
pub proof fn lemma_first_waiting_is_asked<C: AdcChannel>(
    before: AdcVirtualized<C>,
    after: AdcVirtualized<C>,
    slot: int,
)
    requires
        after.served(&before),
        0 <= slot < before.apps.slots(),
        before.waits(slot),
        forall|j: int| 0 <= j < slot ==> !before.waits(j),
    ensures
        exists|asked: Seq<C>, answer: Result<(), ErrorCode>|
            {
                &&& #[trigger] AdcVirtualized::<C>::channel_asked(
                    asked,
                    before.drivers@,
                    before.apps.records@[slot].region->Some_0.channel,
                    answer,
                )
                &&& answer is Ok <==> (after.current_process matches Some(p) && p.index == slot)
                &&& answer is Ok ==> after.drivers@ == asked
            },
{
    let (trail, answers) = choose|trail: Seq<Seq<C>>, answers: Seq<Result<(), ErrorCode>>|
     #[trigger] after.trailed(&before, trail, answers);
    if after.current_process is Some && after.current_process->Some_0.index < slot {
        assert(before.waits(after.current_process->Some_0.index as int));
        assert(false);
    }
    lemma_untouched_before(before, after.current_process, trail, answers, slot);
    assert(AdcVirtualized::<C>::step(&before, after.current_process, trail, answers, slot));
    let asked = trail[slot + 1];
    let answer = answers[slot];
    if answer is Ok {
        lemma_untouched_behind(
            before,
            after.current_process->Some_0,
            trail,
            answers,
            before.apps.slots() as int,
        );
    }
    assert(AdcVirtualized::<C>::channel_asked(
        asked,
        before.drivers@,
        before.apps.records@[slot].region->Some_0.channel,
        answer,
    ));
}

/// Serving the waiting requests notifies nobody: the notifications of
/// every process are what they were.
pub proof fn lemma_serving_is_silent<C: AdcChannel>(
    before: AdcVirtualized<C>,
    after: AdcVirtualized<C>,
    slot: int,
)
    requires
        after.served(&before),
        0 <= slot < before.apps.slots(),
    ensures
        after.apps.records@[slot].same_pending(&before.apps.records@[slot]),
        after.apps.records@[slot].same_shares(&before.apps.records@[slot]),
{
}

/// The record of the process that uses the dedicated converter: how far a
/// buffered capture has come.
#[derive(Clone, Copy, Debug, PartialEq, Eq, Structural)]
pub struct App {
    /// The offset in bytes at which the next samples go into the process's
    /// buffer.
    pub app_buf_offset: usize,
    /// Samples still to be requested from the converter for the current
    /// buffer.
    pub samples_remaining: usize,
    /// Samples requested for the current buffer and not yet received.
    pub samples_outstanding: usize,
    /// Samples requested ahead for the buffer that comes next.
    pub next_samples_outstanding: usize,
    /// Whether the first of the process's two buffers is the current one.
    pub using_app_buf0: bool,
}

impl Default for App {
    fn default() -> (r: App)
        ensures
            r == (App {
                app_buf_offset: 0,
                samples_remaining: 0,
                samples_outstanding: 0,
                next_samples_outstanding: 0,
                using_app_buf0: true,
            }),
    {
        App {
            app_buf_offset: 0,
            samples_remaining: 0,
            samples_outstanding: 0,
            next_samples_outstanding: 0,
            using_app_buf0: true,
        }
    }
}

impl GrantData for App {
    open spec fn initial() -> App {
        App {
            app_buf_offset: 0,
            samples_remaining: 0,
            samples_outstanding: 0,
            next_samples_outstanding: 0,
            using_app_buf0: true,
        }
    }

    fn fresh() -> App {
        App::default()
    }
}

/// How a request for `request_len` samples is split over two buffers that
/// hold `cap1` and `cap2` samples: the first is filled before the second,
/// and what fits in neither is left for later rounds.
pub fn split_request(request_len: usize, cap1: usize, cap2: usize) -> (r: (usize, usize))
    ensures
        r.0 == least(request_len as int, cap1 as int),
        r.1 == least(request_len - r.0, cap2 as int),
        r.0 + r.1 <= request_len,
{
    if request_len <= cap1 {
        (request_len, 0)
    } else if request_len - cap1 <= cap2 {
        (cap1, request_len - cap1)
    } else {
        (cap1, cap2)
    }
}

/// The byte `k` of a sample as it is stored in a process's buffer: the low
/// byte first.
pub open spec fn sample_byte(sample: u16, k: int) -> u8 {
    if k == 0 {
        (sample & 0xFF) as u8
    } else {
        ((sample >> 8) & 0xFF) as u8
    }
}

/// The bytes of a process's buffer after `count` samples of `src` were
/// stored in it behind the `skip` samples it holds already. Each sample
/// takes two bytes; an odd last byte of the buffer takes the low byte of
/// its sample. Samples for which the buffer has no room are left out.
pub open spec fn with_samples(bytes: Seq<u8>, skip: int, src: Seq<u16>, count: int) -> Seq<u8> {
    Seq::new(
        bytes.len(),
        |j: int|
            if skip <= j / 2 && j / 2 - skip < count && j / 2 - skip < src.len() {
                sample_byte(src[j / 2 - skip], j % 2)
            } else {
                bytes[j]
            },
    )
}

/// What one filled buffer means for a capture: the accounting after it,
/// how many samples to request with the next free buffer, if any, and
/// whether the process's buffer is complete.
#[derive(Clone, Copy, Debug, PartialEq, Eq, Structural)]
pub struct Progress {
    pub app: App,
    pub request: Option<usize>,
    pub perform_callback: bool,
}

/// The sum of the samples requested and still to be requested fits a
/// machine word.
pub open spec fn bounded(app: App) -> bool {
    app.samples_outstanding + app.samples_remaining <= usize::MAX
}

/// The progress of a capture on the arrival of `length` samples.
///
/// `continuous` tells whether the capture goes on with the process's other
/// buffer once the current one is complete; `next_needed` and
/// `current_needed` are the numbers of samples that the other and the
/// current buffer of the process hold; `free` is the capacity of the
/// buffer that can be handed to the converter next, if there is one.
///
/// While samples remain to be requested for the current buffer, the next
/// request asks for as many of them as the free buffer holds. Once all are
/// requested and more are outstanding, a continuous capture requests ahead
/// for the other buffer. Once none is outstanding the buffer is complete;
/// a continuous capture then switches buffers, takes over what was
/// requested ahead, and requests what remains, or requests ahead again if
/// nothing remains.
pub open spec fn advanced(
    app: App,
    continuous: bool,
    next_needed: usize,
    current_needed: usize,
    length: usize,
    free: Option<usize>,
) -> Progress {
    let outstanding = if length <= app.samples_outstanding {
        (app.samples_outstanding - length) as usize
    } else {
        0usize
    };
    let a = App { samples_outstanding: outstanding, ..app };
    if a.samples_remaining == 0 {
        if outstanding == 0 {
            if continuous {
                let remaining = if a.next_samples_outstanding <= next_needed {
                    (next_needed - a.next_samples_outstanding) as usize
                } else {
                    0usize
                };
                let b = App {
                    samples_remaining: remaining,
                    samples_outstanding: a.next_samples_outstanding,
                    using_app_buf0: !a.using_app_buf0,
                    ..a
                };
                match free {
                    None => Progress { app: b, request: None, perform_callback: true },
                    Some(cap) => if remaining == 0 {
                        let request_len = least(current_needed as int, cap as int) as usize;
                        Progress {
                            app: App { next_samples_outstanding: request_len, ..b },
                            request: Some(request_len),
                            perform_callback: true,
                        }
                    } else {
                        let request_len = least(remaining as int, cap as int) as usize;
                        Progress {
                            app: App {
                                samples_remaining: (remaining - request_len) as usize,
                                samples_outstanding: (b.samples_outstanding + request_len) as usize,
                                ..b
                            },
                            request: Some(request_len),
                            perform_callback: true,
                        }
                    },
                }
            } else {
                Progress { app: a, request: None, perform_callback: true }
            }
        } else {
            match free {
                Some(cap) => if continuous {
                    let request_len = least(next_needed as int, cap as int) as usize;
                    Progress {
                        app: App { next_samples_outstanding: request_len, ..a },
                        request: Some(request_len),
                        perform_callback: false,
                    }
                } else {
                    Progress { app: a, request: None, perform_callback: false }
                },
                None => Progress { app: a, request: None, perform_callback: false },
            }
        }
    } else {
        match free {
            Some(cap) => {
                let request_len = least(a.samples_remaining as int, cap as int) as usize;
                Progress {
                    app: App {
                        samples_remaining: (a.samples_remaining - request_len) as usize,
                        samples_outstanding: (outstanding + request_len) as usize,
                        ..a
                    },
                    request: Some(request_len),
                    perform_callback: false,
                }
            },
            None => Progress { app: a, request: None, perform_callback: false },
        }
    }
}

/// Computes the progress of a capture on the arrival of `length` samples:
/// see `advanced`.
pub fn advance(
    app: App,
    continuous: bool,
    next_needed: usize,
    current_needed: usize,
    length: usize,
    free: Option<usize>,
) -> (r: Progress)
    requires
        bounded(app),
    ensures
        r == advanced(app, continuous, next_needed, current_needed, length, free),
        bounded(r.app),
        r.app.app_buf_offset == app.app_buf_offset,
        free is None ==> r.request is None,
{
    let mut a = app;
    a.samples_outstanding = if length <= a.samples_outstanding {
        a.samples_outstanding - length
    } else {
        0
    };
    let mut request: Option<usize> = None;
    let perform_callback: bool;
    if a.samples_remaining == 0 {
        if a.samples_outstanding == 0 {
            perform_callback = true;
            if continuous {
                a.samples_remaining = if a.next_samples_outstanding <= next_needed {
                    next_needed - a.next_samples_outstanding
                } else {
                    0
                };
                a.samples_outstanding = a.next_samples_outstanding;
                a.using_app_buf0 = !a.using_app_buf0;
                match free {
                    None => {},
                    Some(cap) => {
                        if a.samples_remaining == 0 {
                            let request_len = smaller(current_needed, cap);
                            a.next_samples_outstanding = request_len;
                            request = Some(request_len);
                        } else {
                            let request_len = smaller(a.samples_remaining, cap);
                            a.samples_remaining = a.samples_remaining - request_len;
                            a.samples_outstanding = a.samples_outstanding + request_len;
                            request = Some(request_len);
                        }
                    },
                }
            }
        } else {
            perform_callback = false;
            if continuous {
                match free {
                    None => {},
                    Some(cap) => {
                        let request_len = smaller(next_needed, cap);
                        a.next_samples_outstanding = request_len;
                        request = Some(request_len);
                    },
                }
            }
        }
    } else {
        perform_callback = false;
        match free {
            None => {},
            Some(cap) => {
                let request_len = smaller(a.samples_remaining, cap);
                a.samples_remaining = a.samples_remaining - request_len;
                a.samples_outstanding = a.samples_outstanding + request_len;
                request = Some(request_len);
            },
        }
    }
    Progress { app: a, request, perform_callback }
}

/// The offset in a process's buffer behind `length` more samples; it stops
/// at the largest machine word.
pub open spec fn offset_after(offset: usize, length: usize) -> usize {
    if offset + 2 * length <= usize::MAX {
        (offset + 2 * length) as usize
    } else {
        usize::MAX
    }
}

/// Computes the offset in a process's buffer behind `length` more samples.
pub fn next_offset(offset: usize, length: usize) -> (r: usize)
    ensures
        r == offset_after(offset, length),
{
    if length > (usize::MAX - offset) / 2 {
        usize::MAX
    } else {
        offset + 2 * length
    }
}

/// Stores the first `count` samples of `src` in the `n`-th read-write
/// buffer of slot `i`, behind the `skip` samples stored there already: see
/// `with_samples`.
pub fn copy_samples(apps: &mut Grant<App>, i: usize, n: usize, skip: usize, src: &Vec<u16>,
    count: usize)
    requires
        old(apps).wf(),
        i < old(apps).slots(),
        n < old(apps).rw_count,
    ensures
        final(apps).wf(),
        final(apps).same_but(old(apps), i as int),
        final(apps).records@[i as int].same_but_rw(&old(apps).records@[i as int], n as int),
        final(apps).records@[i as int].rw@[n as int].ptr == old(apps).records@[i as int].rw@[n
            as int].ptr,
        final(apps).rw_bytes(i as int, n as int) == with_samples(
            old(apps).rw_bytes(i as int, n as int),
            skip as int,
            src@,
            count as int,
        ),
{
    let len = apps.rw_len(i, n);
    let chunks = len / 2 + len % 2;
    let mut k: usize = 0;
    if skip < chunks {
        let room = chunks - skip;
        let total = smaller(smaller(count, src.len()), room);
        while k < total
            invariant
                apps.wf(),
                i < apps.slots(),
                n < apps.rw_count,
                apps.same_but(old(apps), i as int),
                apps.records@[i as int].same_but_rw(&old(apps).records@[i as int], n as int),
                apps.records@[i as int].rw@[n as int].ptr == old(apps).records@[i as int].rw@[n
                    as int].ptr,
                len == old(apps).rw_bytes(i as int, n as int).len(),
                chunks == len / 2 + len % 2,
                skip < chunks,
                room == chunks - skip,
                total == least(least(count as int, src@.len() as int), room as int),
                k <= total,
                apps.rw_bytes(i as int, n as int) =~= with_samples(
                    old(apps).rw_bytes(i as int, n as int),
                    skip as int,
                    src@,
                    k as int,
                ),
            decreases total - k,
        {
            let sample = src[k];
            let j0 = 2 * (skip + k);
            apps.rw_set(i, n, j0, (sample & 0xFF) as u8);
            if j0 + 1 < len {
                apps.rw_set(i, n, j0 + 1, ((sample >> 8) & 0xFF) as u8);
            }
            k += 1;
        }
    }
    assert(apps.rw_bytes(i as int, n as int) =~= with_samples(
        old(apps).rw_bytes(i as int, n as int),
        skip as int,
        src@,
        count as int,
    ));
}

/// What the three holders of the driver hold.
///
/// A buffer that comes back goes into the last holder, and what that one
/// held moves to the second holder if that is empty, to the first
/// otherwise. A buffer for the converter is taken from the first holder
/// that has one. So the buffer that just came back is the last to go out
/// again.
pub struct Pool {
    pub first: Option<Vec<u16>>,
    pub second: Option<Vec<u16>>,
    pub third: Option<Vec<u16>>,
}

impl Pool {
    /// The number of buffers held.
    pub open spec fn held(self) -> int {
        (if self.first is Some {
            1int
        } else {
            0int
        }) + (if self.second is Some {
            1int
        } else {
            0int
        }) + (if self.third is Some {
            1int
        } else {
            0int
        })
    }

    /// One of the holders holds `buf`.
    pub open spec fn holds(self, buf: Vec<u16>) -> bool {
        self.first == Some(buf) || self.second == Some(buf) || self.third == Some(buf)
    }

    /// The holders once `buf` is stored. With all three full, what the
    /// first one held is lost.
    pub open spec fn put(self, buf: Vec<u16>) -> Pool {
        if self.third is None {
            Pool { third: Some(buf), ..self }
        } else if self.second is None {
            Pool { second: self.third, third: Some(buf), ..self }
        } else {
            Pool { first: self.third, third: Some(buf), ..self }
        }
    }

    /// The holders once `buf` is stored, if there is one.
    pub open spec fn put_some(self, buf: Option<Vec<u16>>) -> Pool {
        match buf {
            Some(b) => self.put(b),
            None => self,
        }
    }

    /// The buffer that goes to the converter next.
    pub open spec fn next(self) -> Option<Vec<u16>> {
        if self.first is Some {
            self.first
        } else if self.second is Some {
            self.second
        } else {
            self.third
        }
    }

    /// The holders once the next buffer for the converter is taken out.
    pub open spec fn taken(self) -> Pool {
        if self.first is Some {
            Pool { first: None, ..self }
        } else if self.second is Some {
            Pool { second: None, ..self }
        } else {
            Pool { third: None, ..self }
        }
    }

    /// The holders once the buffers that the converter handed back with
    /// the answer `b` are stored: none, if it refused.
    pub open spec fn returned(
        self,
        b: Result<(Option<Vec<u16>>, Option<Vec<u16>>), ErrorCode>,
    ) -> Pool {
        match b {
            Ok((buf1, buf2)) => self.put_some(buf1).put_some(buf2),
            Err(_) => self,
        }
    }

    /// The number of buffers that the converter handed back with the
    /// answer `b`.
    pub open spec fn handed(
        b: Result<(Option<Vec<u16>>, Option<Vec<u16>>), ErrorCode>,
    ) -> int {
        match b {
            Ok((buf1, buf2)) => (if buf1 is Some {
                1int
            } else {
                0int
            }) + (if buf2 is Some {
                1int
            } else {
                0int
            }),
            Err(_) => 0,
        }
    }

    /// Every buffer that `before` held is held still.
    pub open spec fn keeps(self, before: Pool) -> bool {
        forall|x: Vec<u16>| #[trigger] before.holds(x) ==> self.holds(x)
    }
}

/// While a holder is empty, a buffer that is stored is held, every buffer
/// that was held is held still, and one buffer more is held than before.
pub proof fn lemma_put_keeps(pool: Pool, buf: Vec<u16>)
    requires
        pool.held() < 3,
    ensures
        pool.put(buf).holds(buf),
        pool.put(buf).keeps(pool),
        pool.put(buf).held() == pool.held() + 1,
{
}

/// Where the holders have room for the buffers that the converter hands
/// back, all of them are held afterwards, and so is every buffer that was
/// held.
pub proof fn lemma_returned_keeps(
    pool: Pool,
    b: Result<(Option<Vec<u16>>, Option<Vec<u16>>), ErrorCode>,
)
    requires
        pool.held() + Pool::handed(b) <= 3,
    ensures
        pool.returned(b).keeps(pool),
        pool.returned(b).held() == pool.held() + Pool::handed(b),
        b matches Ok((Some(x), _)) ==> pool.returned(b).holds(x),
        b matches Ok((_, Some(x))) ==> pool.returned(b).holds(x),
{
    match b {
        Ok((buf1, buf2)) => {
            let one = pool.put_some(buf1);
            if buf1 is Some {
                lemma_put_keeps(pool, buf1->Some_0);
            }
            if buf2 is Some {
                lemma_put_keeps(one, buf2->Some_0);
            }
            assert forall|x: Vec<u16>| #[trigger] pool.holds(x) implies pool.returned(b).holds(
                x,
            ) by {
                assert(one.holds(x));
            }
        },
        Err(_) => {},
    }
}

/// Gives one process at a time the whole converter: single and continuous
/// samples, and captures into the process's buffers at high rates.
///
/// Three buffers travel between the driver and the converter. The
/// converter fills one while the next waits with it, and the driver copies
/// the samples of the one that just came back into the process's buffer.
pub struct AdcDedicated<A: AdcHighSpeed> {
    pub adc: A,
    pub channels: Vec<A::Channel>,
    pub active: bool,
    pub mode: AdcMode,
    pub apps: Grant<App>,
    pub processid: Option<ProcessId>,
    pub channel: usize,
    pub adc_buf1: TakeCell<Vec<u16>>,
    pub adc_buf2: TakeCell<Vec<u16>>,
    pub adc_buf3: TakeCell<Vec<u16>>,
}

impl<A: AdcHighSpeed> AdcDedicated<A> {
    /// The records fit the driver: one subscription, two buffers to capture
    /// into, and accounts within bounds.
    pub open spec fn wf(&self) -> bool {
        &&& self.apps.wf()
        &&& self.apps.upcall_count >= 1
        &&& self.apps.rw_count >= 2
        &&& forall|i: int|
            self.apps.allocated(i) ==> bounded((#[trigger] self.apps.records@[i]).region->Some_0)
    }

    /// The number of buffers that the driver holds.
    pub open spec fn held(&self) -> int {
        (if self.adc_buf1.value is Some {
            1int
        } else {
            0int
        }) + (if self.adc_buf2.value is Some {
            1int
        } else {
            0int
        }) + (if self.adc_buf3.value is Some {
            1int
        } else {
            0int
        })
    }

    /// Everything but the three buffer holders is as in `other`.
    pub open spec fn same_but_buffers(&self, other: &AdcDedicated<A>) -> bool {
        &&& self.adc == other.adc
        &&& self.channels == other.channels
        &&& self.active == other.active
        &&& self.mode == other.mode
        &&& self.apps == other.apps
        &&& self.processid == other.processid
        &&& self.channel == other.channel
    }

    /// Creates the driver of `adc` for the channels `channels`, holding all
    /// three buffers.
    pub fn new(
        adc: A,
        grant: Grant<App>,
        channels: Vec<A::Channel>,
        adc_buf1: Vec<u16>,
        adc_buf2: Vec<u16>,
        adc_buf3: Vec<u16>,
    ) -> (r: AdcDedicated<A>)
        ensures
            r.adc == adc,
            r.channels == channels,
            r.apps == grant,
            !r.active,
            r.mode == AdcMode::NoMode,
            r.processid is None,
            r.channel == 0,
            r.adc_buf1.value == Some(adc_buf1),
            r.adc_buf2.value == Some(adc_buf2),
            r.adc_buf3.value == Some(adc_buf3),
            r.held() == 3,
    {
        AdcDedicated {
            adc,
            channels,
            active: false,
            mode: AdcMode::NoMode,
            apps: grant,
            processid: None,
            channel: 0,
            adc_buf1: TakeCell::new(adc_buf1),
            adc_buf2: TakeCell::new(adc_buf2),
            adc_buf3: TakeCell::new(adc_buf3),
        }
    }

    /// What the three holders hold.
    pub open spec fn pool(&self) -> Pool {
        Pool {
            first: self.adc_buf1.value,
            second: self.adc_buf2.value,
            third: self.adc_buf3.value,
        }
    }

    /// One of the three holders holds `buf`.
    pub open spec fn holds(&self, buf: Vec<u16>) -> bool {
        self.pool().holds(buf)
    }

    /// This is the driver `before` with `buf` stored: see
    /// `replace_buffer` and `Pool::put`.
    pub open spec fn replaced(&self, before: &AdcDedicated<A>, buf: Vec<u16>) -> bool {
        self.same_but_buffers(before) && self.pool() == before.pool().put(buf)
    }

    /// This is the driver `before` with the buffers `buf1` and `buf2`
    /// stored, as far as there are any: see `reclaim`.
    pub open spec fn reclaimed(
        &self,
        before: &AdcDedicated<A>,
        buf1: Option<Vec<u16>>,
        buf2: Option<Vec<u16>>,
    ) -> bool {
        self.same_but_buffers(before) && self.pool() == before.pool().put_some(buf1).put_some(
            buf2,
        )
    }

    /// Stores a buffer that came back to the driver. It always goes into
    /// the last holder, while buffers for the converter are taken from the
    /// first: so the buffer that just came back, whose samples are still to
    /// be copied, is the last to go out again. What the last holder held
    /// moves to the second holder if that is empty, to the first otherwise.
    pub fn replace_buffer(&mut self, buf: Vec<u16>)
        ensures
            final(self).replaced(old(self), buf),
    {
        if self.adc_buf3.is_none() {
            self.adc_buf3.replace(buf);
        } else {
            let temp = self.adc_buf3.take();
            self.adc_buf3.replace(buf);
            if self.adc_buf2.is_none() {
                self.adc_buf2.put(temp);
            } else {
                self.adc_buf1.put(temp);
            }
        }
    }

    /// Takes a buffer to give to the converter: from the first holder that
    /// has one.
    pub fn take_buffer(&mut self) -> (r: Option<Vec<u16>>)
        ensures
            final(self).same_but_buffers(old(self)),
            r == old(self).pool().next(),
            final(self).pool() == old(self).pool().taken(),
            r is None ==> *final(self) == *old(self),
    {
        if self.adc_buf1.is_some() {
            self.adc_buf1.take()
        } else if self.adc_buf2.is_some() {
            self.adc_buf2.take()
        } else if self.adc_buf3.is_some() {
            self.adc_buf3.take()
        } else {
            None
        }
    }

    /// The buffer that goes to the converter next.
    pub open spec fn next_free(&self) -> Option<Vec<u16>> {
        self.pool().next()
    }

    /// The capacity of the buffer that goes to the converter next.
    pub fn free_capacity(&self) -> (r: Option<usize>)
        ensures
            r == (match self.next_free() {
                Some(b) => Some(b@.len() as usize),
                None => None,
            }),
    {
        match &self.adc_buf1.value {
            Some(b) => Some(b.len()),
            None => match &self.adc_buf2.value {
                Some(b) => Some(b.len()),
                None => match &self.adc_buf3.value {
                    Some(b) => Some(b.len()),
                    None => None,
                },
            },
        }
    }

    /// Stores the buffers that the converter handed back.
    pub fn reclaim(&mut self, buf1: Option<Vec<u16>>, buf2: Option<Vec<u16>>)
        ensures
            final(self).reclaimed(old(self), buf1, buf2),
    {
        match buf1 {
            Some(b) => {
                self.replace_buffer(b);
            },
            None => {},
        }
        match buf2 {
            Some(b) => {
                self.replace_buffer(b);
            },
            None => {},
        }
    }

    /// Enters the record of the owning process. If there is no owner, or it
    /// does not resolve any more, there is no record to enter; an owner
    /// that is gone is forgotten.
    pub fn enter_owner(&mut self) -> (r: Option<usize>)
        requires
            old(self).wf(),
        ensures
            final(self).wf(),
            final(self).adc == old(self).adc,
            final(self).channels == old(self).channels,
            final(self).active == old(self).active,
            final(self).mode == old(self).mode,
            final(self).channel == old(self).channel,
            final(self).adc_buf1 == old(self).adc_buf1,
            final(self).adc_buf2 == old(self).adc_buf2,
            final(self).adc_buf3 == old(self).adc_buf3,
            match old(self).processid {
                None => r is None && *final(self) == *old(self),
                Some(id) => if old(self).apps.resolves(id) {
                    &&& r == Some(id.index)
                    &&& final(self).processid == Some(id)
                    &&& final(self).apps.allocated(id.index as int)
                    &&& final(self).apps.same_but(&old(self).apps, id.index as int)
                    &&& final(self).apps.records@[id.index as int] == (
                    crate::kernel::grant::ProcessRecord {
                        region: Some(old(self).apps.entered(id.index as int)),
                        ..old(self).apps.records@[id.index as int]
                    })
                } else {
                    &&& r is None
                    &&& final(self).processid is None
                    &&& final(self).apps == old(self).apps
                },
            },
    {
        match self.processid {
            None => None,
            Some(id) => match self.apps.enter(id) {
                Ok(i) => Some(i),
                Err(_) => {
                    self.processid = None;
                    None
                },
            },
        }
    }

    /// What becomes of a request for samples once the converter has
    /// answered: accepted, the driver stays active in the mode it took on;
    /// refused, it is idle again and the converter's reason is returned.
    pub fn sampling_answered(&mut self, answer: Result<(), ErrorCode>) -> (r: Result<(), ErrorCode>)
        ensures
            r == answer,
            answer is Ok ==> *final(self) == *old(self),
            answer is Err ==> *final(self) == (AdcDedicated {
                active: false,
                mode: AdcMode::NoMode,
                ..*old(self)
            }),
    {
        if answer.is_err() {
            self.active = false;
            self.mode = AdcMode::NoMode;
        }
        answer
    }

    /// The driver after a request for samples in `mode` on the channel with
    /// index `channel` was made on `before` and answered with `r`: refused
    /// with `BUSY` while the driver was active and with `INVAL` for an index
    /// that names no channel, and then nothing has changed; else active in
    /// `mode` if the converter accepted, idle if it refused. Neither records
    /// nor buffers nor the owner have changed.
    pub open spec fn sampled(
        &self,
        before: &AdcDedicated<A>,
        channel: usize,
        frequency: Option<u32>,
        mode: AdcMode,
        r: Result<(), ErrorCode>,
    ) -> bool {
        &&& self.apps == before.apps
        &&& self.processid == before.processid
        &&& self.channels == before.channels
        &&& self.adc_buf1 == before.adc_buf1
        &&& self.adc_buf2 == before.adc_buf2
        &&& self.adc_buf3 == before.adc_buf3
        &&& if before.active {
            r == Err::<(), ErrorCode>(ErrorCode::BUSY) && *self == *before
        } else if channel >= before.channels@.len() {
            r == Err::<(), ErrorCode>(ErrorCode::INVAL) && *self == *before
        } else {
            &&& self.channel == channel
            &&& self.active == r.is_ok()
            &&& self.mode == (if r is Ok {
                mode
            } else {
                AdcMode::NoMode
            })
            &&& self.adc.sample_asked(&before.adc, before.channels@[channel as int], frequency, r)
        }
    }

    /// Requests a single sample on the channel with index `channel`.
    ///
    /// Refused with `BUSY` while the driver is active and with `INVAL` for
    /// an index that names no channel; nothing changes then. Otherwise the
    /// converter is asked, and its answer decides: see `sampling_answered`.
    pub fn sample(&mut self, channel: usize) -> (r: Result<(), ErrorCode>)
        ensures
            final(self).sampled(old(self), channel, None, AdcMode::SingleSample, r),
    {
        if self.active {
            return Err(ErrorCode::BUSY);
        }
        if channel >= self.channels.len() {
            return Err(ErrorCode::INVAL);
        }
        self.active = true;
        self.mode = AdcMode::SingleSample;
        self.channel = channel;
        let res = self.adc.sample(&self.channels[channel]);
        self.sampling_answered(res)
    }

    /// Requests samples on the channel with index `channel`, `frequency`
    /// per second, until stopped.
    ///
    /// Refused with `BUSY` while the driver is active and with `INVAL` for
    /// an index that names no channel; nothing changes then. Otherwise the
    /// converter is asked, and its answer decides: see `sampling_answered`.
    pub fn sample_continuous(&mut self, channel: usize, frequency: u32) -> (r: Result<
        (),
        ErrorCode,
    >)
        ensures
            final(self).sampled(
                old(self),
                channel,
                Some(frequency),
                AdcMode::ContinuousSample,
                r,
            ),
    {
        if self.active {
            return Err(ErrorCode::BUSY);
        }
        if channel >= self.channels.len() {
            return Err(ErrorCode::INVAL);
        }
        self.active = true;
        self.mode = AdcMode::ContinuousSample;
        self.channel = channel;
        let res = self.adc.sample_continuous(&self.channels[channel], frequency);
        self.sampling_answered(res)
    }

    /// The number of bits of a sample, as the converter says.
    pub fn get_resolution_bits(&self) -> (r: usize)
        ensures
            r == self.adc.resolution_bits(),
    {
        self.adc.get_resolution_bits()
    }

    /// The reference voltage in millivolts, where the converter knows it.
    pub fn get_voltage_reference_mv(&self) -> (r: Option<usize>)
        ensures
            r == self.adc.voltage_reference_mv(),
    {
        self.adc.get_voltage_reference_mv()
    }
}

/// The accounting of a capture that was just requested, for a process's
/// buffer of `needed` samples and converter buffers of `cap1` and `cap2`
/// samples: what fits into the two buffers is outstanding, the rest remains
/// to be requested.
pub open spec fn begun(app: App, needed: usize, cap1: usize, cap2: usize) -> App {
    let len1 = least(needed as int, cap1 as int);
    let len2 = least(needed - len1, cap2 as int);
    App {
        app_buf_offset: 0,
        using_app_buf0: true,
        samples_remaining: (needed - len1 - len2) as usize,
        samples_outstanding: (len1 + len2) as usize,
        ..app
    }
}

impl<A: AdcHighSpeed> AdcDedicated<A> {
    /// The slot of the owning process, if there is an owner and it
    /// resolves.
    pub open spec fn owner(&self) -> Option<int> {
        match self.processid {
            Some(id) => if self.apps.resolves(id) {
                Some(id.index as int)
            } else {
                None
            },
            None => None,
        }
    }

    /// A capture can be requested: the owner resolves and has shared a
    /// buffer (two for a continuous capture).
    pub open spec fn can_capture(&self, continuous: bool) -> bool {
        match self.owner() {
            Some(i) => self.apps.rw_size(i, 0) > 0 && (continuous ==> self.apps.rw_size(i, 1)
                > 0),
            None => false,
        }
    }

    /// What becomes of a capture once the converter has answered the
    /// request for it: refused, both buffers are back with the driver, in
    /// the order in which they went, and the converter's reason is
    /// returned.
    pub fn capture_answered(&mut self, answer: Result<(), (ErrorCode, Vec<u16>, Vec<u16>)>) -> (r:
        Result<(), ErrorCode>)
        ensures
            final(self).same_but_buffers(old(self)),
            match answer {
                Ok(()) => r == Ok::<(), ErrorCode>(()) && *final(self) == *old(self),
                Err((e, b1, b2)) => {
                    &&& r == Err::<(), ErrorCode>(e)
                    &&& final(self).pool() == old(self).pool().put(b1).put(b2)
                    &&& final(self).adc_buf3.value == Some(b2)
                    &&& final(self).held() >= 1
                    &&& old(self).held() <= 1 ==> final(self).held() == old(self).held() + 2
                    &&& old(self).held() == 0 ==> final(self).adc_buf2.value == Some(b1)
                },
            },
    {
        match answer {
            Ok(()) => Ok(()),
            Err((ecode, buf1, buf2)) => {
                self.replace_buffer(buf1);
                self.replace_buffer(buf2);
                Err(ecode)
            },
        }
    }

    /// What becomes of a buffer that was offered to the converter, once the
    /// converter has answered: refused, the buffer is back with the driver.
    pub fn provide_answered(&mut self, answer: Result<(), (ErrorCode, Vec<u16>)>)
        ensures
            final(self).same_but_buffers(old(self)),
            match answer {
                Ok(()) => *final(self) == *old(self),
                Err((_, b)) => final(self).replaced(old(self), b),
            },
    {
        match answer {
            Ok(()) => {},
            Err((_, b)) => {
                self.replace_buffer(b);
            },
        }
    }

    /// The converter `adc` is what the converter `before` became when it
    /// was asked for a capture on `channel` at `frequency` with the buffers
    /// `b1` and `b2`, and answered `a`. Of the `needed` samples the first
    /// buffer takes as many as it holds and the second what is left, as far
    /// as it holds them; a continuous capture whose first buffer takes them
    /// all asks for `ahead` samples with the second, as far as they fit.
    pub open spec fn capture_asked(
        adc: A,
        before: A,
        channel: A::Channel,
        frequency: u32,
        b1: Vec<u16>,
        b2: Vec<u16>,
        needed: usize,
        continuous: bool,
        ahead: usize,
        a: Result<(), (ErrorCode, Vec<u16>, Vec<u16>)>,
    ) -> bool {
        let len1 = least(needed as int, b1@.len() as int);
        let len2 = if continuous && needed <= b1@.len() {
            least(ahead as int, b2@.len() as int)
        } else {
            least(needed - len1, b2@.len() as int)
        };
        adc.highspeed_asked(&before, channel, frequency, b1, len1 as usize, b2, len2 as usize, a)
    }

    /// The holders after the first two buffers went to the converter with
    /// the request for a capture, which it answered with `a`: accepted, they
    /// are away; refused, the buffers that the converter handed back are
    /// stored again, in the order in which they went.
    pub open spec fn pool_after_capture(
        pool: Pool,
        a: Result<(), (ErrorCode, Vec<u16>, Vec<u16>)>,
    ) -> Pool {
        match a {
            Ok(()) => pool.taken().taken(),
            Err((_, b1, b2)) => pool.taken().taken().put(b1).put(b2),
        }
    }

    /// What the caller of a capture is answered once the converter has
    /// answered `a`: its reason, if it refused.
    pub open spec fn capture_outcome(
        a: Result<(), (ErrorCode, Vec<u16>, Vec<u16>)>,
    ) -> Result<(), ErrorCode> {
        match a {
            Ok(()) => Ok(()),
            Err((e, _, _)) => Err(e),
        }
    }

    /// Hands the first two buffers to the converter and starts a capture
    /// for the owner in slot `i`, whose buffer holds `needed` samples. A
    /// continuous capture whose first buffer takes all of them requests
    /// `ahead` samples, as far as they fit, with the second buffer.
    fn begin_capture(
        &mut self,
        i: usize,
        channel: usize,
        frequency: u32,
        needed: usize,
        continuous: bool,
        ahead: usize,
    ) -> (r: Result<(), ErrorCode>)
        requires
            old(self).wf(),
            old(self).apps.allocated(i as int),
            channel < old(self).channels@.len(),
        ensures
            final(self).wf(),
            final(self).channels == old(self).channels,
            final(self).processid == old(self).processid,
            final(self).active == old(self).active,
            final(self).mode == old(self).mode,
            final(self).channel == channel,
            final(self).apps.same_but(&old(self).apps, i as int),
            final(self).apps.records@[i as int].same_shares(&old(self).apps.records@[i as int]),
            final(self).apps.records@[i as int].same_pending(&old(self).apps.records@[i as int]),
            final(self).apps.allocated(i as int),
            old(self).adc_buf1.value is None || old(self).adc_buf2.value is None ==> {
                &&& r == Err::<(), ErrorCode>(ErrorCode::BUSY)
                &&& final(self).adc == old(self).adc
                &&& final(self).adc_buf1 == old(self).adc_buf1
                &&& final(self).adc_buf2 == old(self).adc_buf2
                &&& final(self).adc_buf3 == old(self).adc_buf3
                &&& final(self).apps.data(i as int) == (App {
                    app_buf_offset: 0,
                    ..old(self).apps.data(i as int)
                })
            },
            old(self).adc_buf1.value is Some && old(self).adc_buf2.value is Some ==> {
                &&& final(self).apps.data(i as int) == begun(
                    old(self).apps.data(i as int),
                    needed,
                    old(self).adc_buf1.value->Some_0@.len() as usize,
                    old(self).adc_buf2.value->Some_0@.len() as usize,
                )
                &&& r is Ok ==> final(self).adc_buf1.value is None && final(self).adc_buf2.value
                    is None && final(self).adc_buf3 == old(self).adc_buf3
                &&& r is Err ==> final(self).held() == old(self).held()
                &&& exists|a: Result<(), (ErrorCode, Vec<u16>, Vec<u16>)>|
                    #[trigger] Self::capture_asked(
                        final(self).adc,
                        old(self).adc,
                        old(self).channels@[channel as int],
                        frequency,
                        old(self).adc_buf1.value->Some_0,
                        old(self).adc_buf2.value->Some_0,
                        needed,
                        continuous,
                        ahead,
                        a,
                    ) && r == Self::capture_outcome(a) && final(self).pool()
                        == Self::pool_after_capture(old(self).pool(), a)
            },
    {
        let mut app = self.apps.get(i);
        app.app_buf_offset = 0;
        self.channel = channel;
        match self.adc_buf1.take() {
            None => {
                self.apps.set(i, app);
                Err(ErrorCode::BUSY)
            },
            Some(buf1) => match self.adc_buf2.take() {
                None => {
                    self.adc_buf1.put(Some(buf1));
                    self.apps.set(i, app);
                    Err(ErrorCode::BUSY)
                },
                Some(buf2) => {
                    let (len1, split2) = split_request(needed, buf1.len(), buf2.len());
                    let len2 = if continuous && needed <= buf1.len() {
                        smaller(ahead, buf2.len())
                    } else {
                        split2
                    };
                    app.using_app_buf0 = true;
                    app.samples_remaining = needed - len1 - split2;
                    app.samples_outstanding = len1 + split2;
                    self.apps.set(i, app);
                    let answer = self.adc.sample_highspeed(
                        &self.channels[channel],
                        frequency,
                        buf1,
                        len1,
                        buf2,
                        len2,
                    );
                    let ghost a = answer;
                    let r = self.capture_answered(answer);
                    assert(Self::capture_asked(
                        self.adc,
                        old(self).adc,
                        old(self).channels@[channel as int],
                        frequency,
                        buf1,
                        buf2,
                        needed,
                        continuous,
                        ahead,
                        a,
                    ));
                    r
                },
            },
        }
    }

    /// Undoes the accounting of a capture that could not be started.
    fn abandon_capture(&mut self, i: usize)
        requires
            old(self).wf(),
            old(self).apps.allocated(i as int),
        ensures
            final(self).wf(),
            final(self).adc == old(self).adc,
            final(self).channels == old(self).channels,
            final(self).processid == old(self).processid,
            final(self).channel == old(self).channel,
            final(self).adc_buf1 == old(self).adc_buf1,
            final(self).adc_buf2 == old(self).adc_buf2,
            final(self).adc_buf3 == old(self).adc_buf3,
            !final(self).active,
            final(self).mode == AdcMode::NoMode,
            final(self).apps.same_but(&old(self).apps, i as int),
            final(self).apps.records@[i as int] == (crate::kernel::grant::ProcessRecord {
                region: Some(
                    App {
                        samples_remaining: 0,
                        samples_outstanding: 0,
                        ..old(self).apps.data(i as int)
                    },
                ),
                ..old(self).apps.records@[i as int]
            }),
    {
        self.active = false;
        self.mode = AdcMode::NoMode;
        let mut app = self.apps.get(i);
        app.samples_remaining = 0;
        app.samples_outstanding = 0;
        self.apps.set(i, app);
    }

    /// The driver after a capture, continuous or not, was requested on
    /// `before` for the channel with index `channel` and answered with `r`.
    ///
    /// The request is refused with `BUSY` while the driver is active, with
    /// `INVAL` for an index that names no channel, and with `NOMEM` if the
    /// owner does not resolve or has not shared the buffers that the capture
    /// fills. Then the first two buffers go to the converter with the
    /// request; without both of them the request is refused with `BUSY`. The
    /// converter's refusal is returned as it is, and the buffers are back
    /// with the driver. After a success the driver is active in the mode of
    /// the capture and the owner's account is that of `begun`; after a
    /// failure behind the first three checks the driver is idle and nothing
    /// is outstanding or remaining.
    pub open spec fn capture_requested(
        &self,
        before: &AdcDedicated<A>,
        channel: usize,
        frequency: u32,
        continuous: bool,
        r: Result<(), ErrorCode>,
    ) -> bool {
        &&& self.wf()
        &&& self.channels == before.channels
        &&& if before.active {
            r == Err::<(), ErrorCode>(ErrorCode::BUSY) && *self == *before
        } else if channel >= before.channels@.len() {
            r == Err::<(), ErrorCode>(ErrorCode::INVAL) && *self == *before
        } else if !before.can_capture(continuous) {
            &&& r == Err::<(), ErrorCode>(ErrorCode::NOMEM)
            &&& !self.active
            &&& self.mode == before.mode
            &&& self.adc == before.adc
            &&& self.held() == before.held()
            &&& self.processid == (if before.owner() is Some {
                before.processid
            } else {
                None
            })
        } else {
            let i = before.owner()->Some_0;
            &&& self.processid == before.processid
            &&& self.channel == channel
            &&& self.apps.same_but(&before.apps, i)
            &&& self.apps.records@[i].same_shares(&before.apps.records@[i])
            &&& self.apps.records@[i].same_pending(&before.apps.records@[i])
            &&& self.apps.allocated(i)
            &&& self.active == r.is_ok()
            &&& self.mode == (if r is Err {
                AdcMode::NoMode
            } else if continuous {
                AdcMode::ContinuousBuffer
            } else {
                AdcMode::SingleBuffer
            })
            &&& r is Ok ==> {
                &&& before.adc_buf1.value is Some
                &&& before.adc_buf2.value is Some
                &&& self.adc_buf1.value is None
                &&& self.adc_buf2.value is None
                &&& self.adc_buf3 == before.adc_buf3
                &&& self.apps.data(i) == begun(
                    before.apps.entered(i),
                    (before.apps.rw_size(i, 0) / 2) as usize,
                    before.adc_buf1.value->Some_0@.len() as usize,
                    before.adc_buf2.value->Some_0@.len() as usize,
                )
            }
            &&& r is Err ==> {
                &&& self.held() == before.held()
                &&& self.apps.data(i).samples_remaining == 0
                &&& self.apps.data(i).samples_outstanding == 0
                &&& self.apps.data(i).app_buf_offset == 0
            }
            &&& if before.adc_buf1.value is Some && before.adc_buf2.value is Some {
                exists|a: Result<(), (ErrorCode, Vec<u16>, Vec<u16>)>|
                    #[trigger] Self::capture_asked(
                        self.adc,
                        before.adc,
                        before.channels@[channel as int],
                        frequency,
                        before.adc_buf1.value->Some_0,
                        before.adc_buf2.value->Some_0,
                        (before.apps.rw_size(i, 0) / 2) as usize,
                        continuous,
                        (before.apps.rw_size(i, 1) / 2) as usize,
                        a,
                    ) && r == Self::capture_outcome(a) && self.pool()
                        == Self::pool_after_capture(before.pool(), a)
            } else {
                r == Err::<(), ErrorCode>(ErrorCode::BUSY) && self.adc == before.adc
            }
        }
    }

    /// Requests a capture of as many samples as the owner's first buffer
    /// holds, on the channel with index `channel` at `frequency` samples per
    /// second.
    ///
    /// Refused with `BUSY` while the driver is active, with `INVAL` for an
    /// index that names no channel, and with `NOMEM` if the owner does not
    /// resolve or has not shared a buffer. Then the first two buffers go to
    /// the converter with the request; without both of them the request is
    /// refused with `BUSY`. The converter's refusal is returned as it is,
    /// and the buffers are back with the driver. After a success the driver
    /// is active in single-buffer mode and the owner's account is that of
    /// `begun`; after a failure behind the first three checks the driver is
    /// idle and nothing is outstanding or remaining.
    pub fn sample_buffer(&mut self, channel: usize, frequency: u32) -> (r: Result<(), ErrorCode>)
        requires
            old(self).wf(),
        ensures
            final(self).capture_requested(old(self), channel, frequency, false, r),
    {
        if self.active {
            return Err(ErrorCode::BUSY);
        }
        if channel >= self.channels.len() {
            return Err(ErrorCode::INVAL);
        }
        let slot = self.enter_owner();
        let i = match slot {
            None => {
                return Err(ErrorCode::NOMEM);
            },
            Some(i) => i,
        };
        let app_buf_length = self.apps.rw_len(i, 0);
        if app_buf_length == 0 {
            return Err(ErrorCode::NOMEM);
        }
        self.active = true;
        self.mode = AdcMode::SingleBuffer;
        let needed = app_buf_length / 2;
        let ahead = self.apps.rw_len(i, 1) / 2;
        let ghost ready = *self;
        let ret = self.begin_capture(i, channel, frequency, needed, false, ahead);
        let ghost begun = *self;
        if ret.is_err() {
            self.abandon_capture(i);
        }
        proof {
            if old(self).adc_buf1.value is Some && old(self).adc_buf2.value is Some {
                let a = choose|a: Result<(), (ErrorCode, Vec<u16>, Vec<u16>)>|
                    #[trigger] Self::capture_asked(
                        begun.adc,
                        ready.adc,
                        ready.channels@[channel as int],
                        frequency,
                        ready.adc_buf1.value->Some_0,
                        ready.adc_buf2.value->Some_0,
                        needed,
                        false,
                        ahead,
                        a,
                    ) && ret == Self::capture_outcome(a);
                assert(needed == (old(self).apps.rw_size(i as int, 0) / 2) as usize);
                assert(ahead == (old(self).apps.rw_size(i as int, 1) / 2) as usize);
                assert(Self::capture_asked(
                    self.adc,
                    old(self).adc,
                    old(self).channels@[channel as int],
                    frequency,
                    old(self).adc_buf1.value->Some_0,
                    old(self).adc_buf2.value->Some_0,
                    (old(self).apps.rw_size(i as int, 0) / 2) as usize,
                    false,
                    (old(self).apps.rw_size(i as int, 1) / 2) as usize,
                    a,
                ));
            }
        }
        ret
    }

    /// Requests a capture that fills the owner's two buffers in turn, until
    /// stopped, on the channel with index `channel` at `frequency` samples
    /// per second.
    ///
    /// Refused as `sample_buffer` is; `NOMEM` also where the owner has not
    /// shared two buffers. After a success the driver is active in
    /// continuous-buffer mode and the owner's account is that of `begun`
    /// for its first buffer.
    pub fn sample_buffer_continuous(&mut self, channel: usize, frequency: u32) -> (r: Result<
        (),
        ErrorCode,
    >)
        requires
            old(self).wf(),
        ensures
            final(self).capture_requested(old(self), channel, frequency, true, r),
    {
        if self.active {
            return Err(ErrorCode::BUSY);
        }
        if channel >= self.channels.len() {
            return Err(ErrorCode::INVAL);
        }
        let slot = self.enter_owner();
        let i = match slot {
            None => {
                return Err(ErrorCode::NOMEM);
            },
            Some(i) => i,
        };
        let app_buf_length = self.apps.rw_len(i, 0);
        let next_app_buf_length = self.apps.rw_len(i, 1);
        if app_buf_length == 0 || next_app_buf_length == 0 {
            return Err(ErrorCode::NOMEM);
        }
        self.active = true;
        self.mode = AdcMode::ContinuousBuffer;
        let needed = app_buf_length / 2;
        let ahead = next_app_buf_length / 2;
        let ghost ready = *self;
        let ret = self.begin_capture(i, channel, frequency, needed, true, ahead);
        let ghost begun = *self;
        if ret.is_err() {
            self.abandon_capture(i);
        }
        proof {
            if old(self).adc_buf1.value is Some && old(self).adc_buf2.value is Some {
                let a = choose|a: Result<(), (ErrorCode, Vec<u16>, Vec<u16>)>|
                    #[trigger] Self::capture_asked(
                        begun.adc,
                        ready.adc,
                        ready.channels@[channel as int],
                        frequency,
                        ready.adc_buf1.value->Some_0,
                        ready.adc_buf2.value->Some_0,
                        needed,
                        true,
                        ahead,
                        a,
                    ) && ret == Self::capture_outcome(a);
                assert(needed == (old(self).apps.rw_size(i as int, 0) / 2) as usize);
                assert(ahead == (old(self).apps.rw_size(i as int, 1) / 2) as usize);
                assert(Self::capture_asked(
                    self.adc,
                    old(self).adc,
                    old(self).channels@[channel as int],
                    frequency,
                    old(self).adc_buf1.value->Some_0,
                    old(self).adc_buf2.value->Some_0,
                    (old(self).apps.rw_size(i as int, 0) / 2) as usize,
                    true,
                    (old(self).apps.rw_size(i as int, 1) / 2) as usize,
                    a,
                ));
            }
        }
        ret
    }
}

impl<A: AdcHighSpeed> AdcDedicated<A> {
    /// The driver after sampling was stopped on `before`, with the answer
    /// `r`: see `stop_sampling`.
    pub open spec fn stopped(&self, before: &AdcDedicated<A>, r: Result<(), ErrorCode>) -> bool {
        &&& self.wf()
        &&& self.channels == before.channels
        &&& self.channel == before.channel
        &&& self.held() >= before.held()
        &&& if !before.active || before.mode == AdcMode::NoMode {
            r is Ok && *self == *before
        } else {
            match before.owner() {
                None => {
                    &&& r == Err::<(), ErrorCode>(ErrorCode::FAIL)
                    &&& self.processid is None
                    &&& self.apps == before.apps
                    &&& self.adc == before.adc
                    &&& self.active == before.active
                    &&& self.mode == before.mode
                },
                Some(i) => {
                    &&& !self.active
                    &&& self.mode == AdcMode::NoMode
                    &&& self.processid == before.processid
                    &&& self.apps.same_but(&before.apps, i)
                    &&& self.apps.records@[i] == (crate::kernel::grant::ProcessRecord {
                        region: Some(App { app_buf_offset: 0, ..before.apps.entered(i) }),
                        ..before.apps.records@[i]
                    })
                    &&& exists|
                        halted: A,
                        a: Result<(), ErrorCode>,
                        b: Result<(Option<Vec<u16>>, Option<Vec<u16>>), ErrorCode>,
                    | #[trigger] Self::halted(self.adc, before.adc, halted, a, b) && r
                        == Self::stop_outcome(a, b) && self.pool() == (if a is Ok {
                        before.pool().returned(b)
                    } else {
                        before.pool()
                    })
                },
            }
        }
    }

    /// The converter `adc` is what the converter `before` became when it
    /// was told to stop, which it answered with `a` and which made it
    /// `halted`, and, unless it refused, was asked for the buffers that it
    /// held, which it answered with `b`.
    pub open spec fn halted(
        adc: A,
        before: A,
        halted: A,
        a: Result<(), ErrorCode>,
        b: Result<(Option<Vec<u16>>, Option<Vec<u16>>), ErrorCode>,
    ) -> bool {
        &&& halted.stop_asked(&before, a)
        &&& if a is Err {
            adc == halted
        } else {
            adc.retrieved(&halted, b)
        }
    }

    /// What the caller of a stop is answered, given the converter's
    /// answers `a` to the stop and `b` to the request for its buffers: the
    /// first refusal, if there is one.
    pub open spec fn stop_outcome(
        a: Result<(), ErrorCode>,
        b: Result<(Option<Vec<u16>>, Option<Vec<u16>>), ErrorCode>,
    ) -> Result<(), ErrorCode> {
        match a {
            Err(e) => Err(e),
            Ok(()) => match b {
                Ok(_) => Ok(()),
                Err(e) => Err(e),
            },
        }
    }

    /// Cancels whatever the converter is doing for the owner and takes back
    /// the buffers that the converter holds.
    ///
    /// Nothing is done, with success, while the driver is idle. An owner
    /// that does not resolve gives `FAIL`. Otherwise the driver is idle
    /// afterwards and the owner's offset is back at zero, whatever the
    /// converter answers; a refusal of the converter is returned as it is.
    pub fn stop_sampling(&mut self) -> (r: Result<(), ErrorCode>)
        requires
            old(self).wf(),
        ensures
            final(self).stopped(old(self), r),
    {
        if !self.active || self.mode == AdcMode::NoMode {
            return Ok(());
        }
        match self.enter_owner() {
            None => Err(ErrorCode::FAIL),
            Some(i) => {
                self.active = false;
                self.mode = AdcMode::NoMode;
                let mut app = self.apps.get(i);
                app.app_buf_offset = 0;
                self.apps.set(i, app);
                let ghost ready = self.adc;
                let rc = self.adc.stop_sampling();
                let ghost halted = self.adc;
                if rc.is_err() {
                    assert(Self::halted(self.adc, ready, halted, rc, Err(ErrorCode::FAIL)));
                    return rc;
                }
                let answer = self.adc.retrieve_buffers();
                let ghost b = answer;
                let r = match answer {
                    Ok((buf1, buf2)) => {
                        self.reclaim(buf1, buf2);
                        Ok(())
                    },
                    Err(ecode) => Err(ecode),
                };
                assert(Self::halted(self.adc, ready, halted, rc, b));
                assert(rc->Ok_0 == ());
                assert(r == Self::stop_outcome(rc, b));
                r
            },
        }
    }

    /// Makes the driver idle, tells the converter to stop, and takes back
    /// the buffers that the converter holds: for a completion that nobody
    /// waits for.
    fn quiesce(&mut self, buffers: bool)
        requires
            old(self).wf(),
        ensures
            final(self).wf(),
            !final(self).active,
            final(self).mode == AdcMode::NoMode,
            final(self).channels == old(self).channels,
            final(self).channel == old(self).channel,
            final(self).apps == old(self).apps,
            final(self).processid == old(self).processid,
            exists|
                halted: A,
                a: Result<(), ErrorCode>,
                b: Result<(Option<Vec<u16>>, Option<Vec<u16>>), ErrorCode>,
            | #[trigger] final(self).idled(old(self).adc, old(self).pool(), buffers, halted, a, b),
    {
        self.active = false;
        self.mode = AdcMode::NoMode;
        let a = self.adc.stop_sampling();
        let ghost halted = self.adc;
        if buffers {
            let answer = self.adc.retrieve_buffers();
            let ghost b = answer;
            match answer {
                Ok((buf1, buf2)) => {
                    self.reclaim(buf1, buf2);
                },
                Err(_) => {},
            }
            assert(self.idled(old(self).adc, old(self).pool(), buffers, halted, a, b));
        } else {
            assert(self.idled(
                old(self).adc,
                old(self).pool(),
                buffers,
                halted,
                a,
                Err(ErrorCode::FAIL),
            ));
        }
    }

    /// The driver has wound the converter down. The converter `adc` was
    /// told to stop, which it answered with `a` and which made it `halted`.
    /// If the driver takes back the converter's buffers (`buffers`), the
    /// converter was then asked for them and answered `b`, and the holders,
    /// which held `pool`, have stored what it handed back (see
    /// `Pool::returned`); else converter and holders were left at that.
    pub open spec fn idled(
        &self,
        adc: A,
        pool: Pool,
        buffers: bool,
        halted: A,
        a: Result<(), ErrorCode>,
        b: Result<(Option<Vec<u16>>, Option<Vec<u16>>), ErrorCode>,
    ) -> bool {
        &&& halted.stop_asked(&adc, a)
        &&& if buffers {
            self.adc.retrieved(&halted, b) && self.pool() == pool.returned(b)
        } else {
            self.adc == halted && self.pool() == pool
        }
    }

    /// The driver has offered the converter the next buffer: the one that
    /// the holders, which held `pool`, gave out next, for `len` samples. The
    /// converter `adc` answered `a`; the buffer of a refusal is stored
    /// again.
    pub open spec fn offered(
        &self,
        adc: A,
        pool: Pool,
        len: usize,
        a: Result<(), (ErrorCode, Vec<u16>)>,
    ) -> bool {
        &&& self.adc.provide_asked(&adc, pool.next()->Some_0, len, a)
        &&& self.pool() == (match a {
            Ok(()) => pool.taken(),
            Err((_, back)) => pool.taken().put(back),
        })
    }

    /// The capture goes on after `length` samples have come back in
    /// `buf`: the owner awaits them, and they do not complete a
    /// single-buffer capture.
    pub open spec fn goes_on(&self, buf: Vec<u16>, length: usize) -> bool {
        self.awaits_buffer() && !(self.progress(buf, length).perform_callback && self.mode
            == AdcMode::SingleBuffer)
    }

    /// Converter and holders after the converter handed back `buf` with
    /// `length` samples on `before`. While the capture goes on the buffer is
    /// stored, and if the capture asks for more samples, the next buffer
    /// that the holders give out is offered to the converter (see
    /// `offered`); if not, the converter is not touched. In every other
    /// case the buffer is stored and the converter is wound down (see
    /// `idled`).
    pub open spec fn settled(
        &self,
        before: &AdcDedicated<A>,
        buf: Vec<u16>,
        length: usize,
    ) -> bool {
        if before.goes_on(buf, length) {
            match before.progress(buf, length).request {
                None => self.adc == before.adc && self.pool() == before.pool().put(buf),
                Some(len) => exists|a: Result<(), (ErrorCode, Vec<u16>)>| #[trigger]
                    self.offered(before.adc, before.pool().put(buf), len, a),
            }
        } else {
            exists|
                halted: A,
                a: Result<(), ErrorCode>,
                b: Result<(Option<Vec<u16>>, Option<Vec<u16>>), ErrorCode>,
            | #[trigger] self.idled(before.adc, before.pool().put(buf), true, halted, a, b)
        }
    }

    /// A sample is ready for the owner: the driver is active in one of the
    /// two sample modes and the owner resolves.
    pub open spec fn awaits_sample(&self) -> bool {
        self.active && (self.mode == AdcMode::SingleSample || self.mode
            == AdcMode::ContinuousSample) && self.owner() is Some
    }

    /// A sample arrived from the converter.
    ///
    /// If the owner awaits it, the owner is notified with the mode, the
    /// channel and the sample; after a single sample the driver is idle, in
    /// continuous mode it stays as it is. If nobody awaits the sample (the
    /// driver is idle or in another mode, or the owner is gone), nobody is
    /// notified, the driver becomes idle and the converter is told to stop.
    pub fn sample_ready(&mut self, sample: u16)
        requires
            old(self).wf(),
        ensures
            final(self).wf(),
            final(self).channels == old(self).channels,
            final(self).channel == old(self).channel,
            final(self).adc_buf1 == old(self).adc_buf1,
            final(self).adc_buf2 == old(self).adc_buf2,
            final(self).adc_buf3 == old(self).adc_buf3,
            !old(self).awaits_sample() ==> exists|
                halted: A,
                a: Result<(), ErrorCode>,
                b: Result<(Option<Vec<u16>>, Option<Vec<u16>>), ErrorCode>,
            | #[trigger] final(self).idled(old(self).adc, old(self).pool(), false, halted, a, b),
            old(self).awaits_sample() ==> {
                let i = old(self).owner()->Some_0;
                &&& final(self).adc == old(self).adc
                &&& final(self).processid == old(self).processid
                &&& final(self).active == (old(self).mode == AdcMode::ContinuousSample)
                &&& final(self).mode == (if old(self).mode == AdcMode::ContinuousSample {
                    AdcMode::ContinuousSample
                } else {
                    AdcMode::NoMode
                })
                &&& final(self).apps.same_but(&old(self).apps, i)
                &&& final(self).apps.records@[i].region == Some(old(self).apps.entered(i))
                &&& final(self).apps.records@[i].notified(
                    &old(self).apps.records@[i],
                    0,
                    (old(self).mode.word(), old(self).channel, sample as usize),
                )
            },
            !old(self).awaits_sample() ==> {
                &&& !final(self).active
                &&& final(self).mode == AdcMode::NoMode
                &&& final(self).apps == old(self).apps
                &&& final(self).processid == (if old(self).active && (old(self).mode
                    == AdcMode::SingleSample || old(self).mode == AdcMode::ContinuousSample) {
                    None
                } else {
                    old(self).processid
                })
            },
    {
        let mut calledback = false;
        if self.active && (self.mode == AdcMode::SingleSample || self.mode
            == AdcMode::ContinuousSample) {
            let mode = self.mode;
            if mode == AdcMode::SingleSample {
                self.active = false;
                self.mode = AdcMode::NoMode;
            }
            match self.enter_owner() {
                None => {},
                Some(i) => {
                    calledback = true;
                    let _ = self.apps.schedule_upcall(
                        i,
                        0,
                        (mode.into_usize(), self.channel, sample as usize),
                    );
                },
            }
        }
        if !calledback {
            self.quiesce(false);
        }
    }

    /// A buffer of samples is awaited by the owner: the driver is active in
    /// one of the two buffer modes and the owner resolves.
    pub open spec fn awaits_buffer(&self) -> bool {
        self.active && (self.mode == AdcMode::SingleBuffer || self.mode
            == AdcMode::ContinuousBuffer) && self.owner() is Some
    }

    /// The index of the owner's buffer that is being filled.
    pub open spec fn current_buffer(&self) -> int {
        if self.apps.entered(self.owner()->Some_0).using_app_buf0 {
            0
        } else {
            1
        }
    }

    /// The buffer that goes to the converter next once `buf` has come
    /// back.
    pub open spec fn free_after(&self, buf: Vec<u16>) -> Vec<u16> {
        self.pool().put(buf).next()->Some_0
    }

    /// The progress that `length` samples in the returned buffer `buf`
    /// mean for the capture of the owner.
    pub open spec fn progress(&self, buf: Vec<u16>, length: usize) -> Progress {
        let i = self.owner()->Some_0;
        let cur = self.current_buffer();
        advanced(
            self.apps.entered(i),
            self.mode == AdcMode::ContinuousBuffer,
            (self.apps.rw_size(i, 1 - cur) / 2) as usize,
            (self.apps.rw_size(i, cur) / 2) as usize,
            length,
            Some(self.free_after(buf)@.len() as usize),
        )
    }

    /// The second word of the notification that a buffer is complete: the
    /// number of samples that the buffer holds, above the low byte of the
    /// channel.
    pub open spec fn len_chan(buf_len: usize, channel: usize) -> usize {
        ((buf_len / 2) << 8) | (channel & 0xFF)
    }

    /// The driver after the converter handed back `buf` with `length`
    /// samples in it on `before`: see `samples_ready`.
    pub open spec fn buffer_returned(
        &self,
        before: &AdcDedicated<A>,
        buf: Vec<u16>,
        length: usize,
    ) -> bool {
        &&& self.wf()
        &&& self.channels == before.channels
        &&& self.channel == before.channel
        &&& (!before.awaits_buffer() ==> {
            &&& !self.active
            &&& self.mode == AdcMode::NoMode
            &&& self.processid == (if before.owner() is Some {
                before.processid
            } else {
                None
            })
            &&& match before.owner() {
                None => self.apps == before.apps,
                Some(i) => {
                    &&& self.apps.same_but(&before.apps, i)
                    &&& self.apps.records@[i] == (crate::kernel::grant::ProcessRecord {
                        region: Some(App { app_buf_offset: 0, ..before.apps.entered(i) }),
                        ..before.apps.records@[i]
                    })
                },
            }
        })
        &&& (before.awaits_buffer() ==> {
            let i = before.owner()->Some_0;
            let cur = before.current_buffer();
            let app = before.apps.entered(i);
            let p = before.progress(buf, length);
            let rec = self.apps.records@[i];
            let was = before.apps.records@[i];
            &&& self.processid == before.processid
            &&& self.apps.same_but(&before.apps, i)
            &&& rec.same_identity(&was)
            &&& rec.ro == was.ro
            &&& rec.rw_changed_at(&was, cur)
            &&& rec.rw@[cur].ptr == was.rw@[cur].ptr
            &&& rec.rw@[cur].data@ == with_samples(
                was.rw@[cur].data@,
                app.app_buf_offset as int / 2,
                buf@,
                length as int,
            )
            &&& rec.region == Some(
                App {
                    app_buf_offset: if p.perform_callback {
                        0
                    } else {
                        offset_after(app.app_buf_offset, length)
                    },
                    ..p.app
                },
            )
            &&& if p.perform_callback {
                rec.pending_after(
                    &was,
                    0,
                    (
                        before.mode.word(),
                        Self::len_chan(was.rw@[cur].data@.len() as usize, before.channel),
                        was.rw@[cur].ptr,
                    ),
                )
            } else {
                rec.same_pending(&was)
            }
            &&& self.active == !(p.perform_callback && before.mode
                == AdcMode::SingleBuffer)
            &&& self.mode == (if p.perform_callback && before.mode
                == AdcMode::SingleBuffer {
                AdcMode::NoMode
            } else {
                before.mode
            })
        })
    }

    /// The converter hands back `buf` with `length` samples in it.
    ///
    /// The buffer is stored first, whoever waits for it. If the owner
    /// awaits a buffer, the samples are copied to the end of what its
    /// current buffer holds (see `with_samples`), the capture is advanced
    /// (see `advanced`), and the next free buffer goes to the converter
    /// with the request that follows from it; refused, it comes back to the
    /// driver. Once the owner's buffer is complete the owner is notified
    /// with the mode, the length of the buffer and the channel (see
    /// `len_chan`), and the buffer's address; the offset starts at zero
    /// again; and a single-buffer capture ends: the driver is idle and takes
    /// back the converter's buffers.
    ///
    /// If nobody awaits a buffer (the driver is idle or in another mode,
    /// or the owner is gone), nobody is notified, the driver becomes idle,
    /// the converter is told to stop and its buffers are taken back.
    ///
    /// What becomes of the records is stated by `buffer_returned`, what
    /// is asked of the converter and what the three holders hold afterwards
    /// by `settled`.
    #[verifier::rlimit(20)]
    pub fn samples_ready(&mut self, buf: Vec<u16>, length: usize)
        requires
            old(self).wf(),
        ensures
            final(self).buffer_returned(old(self), buf, length),
            final(self).settled(old(self), buf, length),
    {
        let expected = self.active && (self.mode == AdcMode::SingleBuffer || self.mode
            == AdcMode::ContinuousBuffer);
        self.replace_buffer(buf);
        let slot = self.enter_owner();
        match slot {
            Some(i) => {
                if expected {
                    self.buffer_ready(i, length, Ghost(buf));
                } else {
                    let mut app = self.apps.get(i);
                    app.app_buf_offset = 0;
                    self.apps.set(i, app);
                    self.quiesce(true);
                }
            },
            None => {
                self.quiesce(true);
            },
        }
    }

    /// Converter and holders after `length` samples have arrived for the
    /// owner in slot `i` of `before`, which has stored their buffer: as
    /// `settled` says of the driver before the buffer was stored.
    pub open spec fn went_on(&self, before: &AdcDedicated<A>, i: int, length: usize) -> bool {
        let p = before.ready_progress(i, length);
        if p.perform_callback && before.mode == AdcMode::SingleBuffer {
            exists|
                halted: A,
                a: Result<(), ErrorCode>,
                b: Result<(Option<Vec<u16>>, Option<Vec<u16>>), ErrorCode>,
            | #[trigger] self.idled(before.adc, before.pool(), true, halted, a, b)
        } else {
            match p.request {
                None => self.adc == before.adc && self.pool() == before.pool(),
                Some(len) => exists|a: Result<(), (ErrorCode, Vec<u16>)>| #[trigger]
                    self.offered(before.adc, before.pool(), len, a),
            }
        }
    }

    /// How the capture of the owner in slot `i` goes on after `length`
    /// samples have arrived: see `advanced`.
    pub open spec fn ready_progress(&self, i: int, length: usize) -> Progress {
        let cur: int = if self.apps.data(i).using_app_buf0 {
            0
        } else {
            1
        };
        advanced(
            self.apps.data(i),
            self.mode == AdcMode::ContinuousBuffer,
            (self.apps.rw_size(i, 1 - cur) / 2) as usize,
            (self.apps.rw_size(i, cur) / 2) as usize,
            length,
            Some(self.next_free()->Some_0@.len() as usize),
        )
    }

    /// Handles the arrival of `length` samples for the owner in slot `i`,
    /// with the buffer that holds them stored in the last holder.
    fn buffer_ready(&mut self, i: usize, length: usize, Ghost(buf): Ghost<Vec<u16>>)
        requires
            old(self).wf(),
            old(self).apps.allocated(i as int),
            old(self).adc_buf3.value == Some(buf),
            old(self).mode == AdcMode::SingleBuffer || old(self).mode == AdcMode::ContinuousBuffer,
        ensures
            final(self).wf(),
            final(self).channels == old(self).channels,
            final(self).channel == old(self).channel,
            final(self).processid == old(self).processid,
            final(self).apps.same_but(&old(self).apps, i as int),
            ({
                let cur: int = if old(self).apps.data(i as int).using_app_buf0 {
                    0
                } else {
                    1
                };
                let app = old(self).apps.data(i as int);
                let p = advanced(
                    app,
                    old(self).mode == AdcMode::ContinuousBuffer,
                    (old(self).apps.rw_size(i as int, 1 - cur) / 2) as usize,
                    (old(self).apps.rw_size(i as int, cur) / 2) as usize,
                    length,
                    Some(old(self).next_free()->Some_0@.len() as usize),
                );
                let rec = final(self).apps.records@[i as int];
                let was = old(self).apps.records@[i as int];
                &&& rec.same_identity(&was)
                &&& rec.ro == was.ro
                &&& rec.rw_changed_at(&was, cur)
                &&& rec.rw@[cur].ptr == was.rw@[cur].ptr
                &&& rec.rw@[cur].data@ == with_samples(
                    was.rw@[cur].data@,
                    app.app_buf_offset as int / 2,
                    buf@,
                    length as int,
                )
                &&& rec.region == Some(
                    App {
                        app_buf_offset: if p.perform_callback {
                            0
                        } else {
                            offset_after(app.app_buf_offset, length)
                        },
                        ..p.app
                    },
                )
                &&& if p.perform_callback {
                    rec.pending_after(
                        &was,
                        0,
                        (
                            old(self).mode.word(),
                            Self::len_chan(was.rw@[cur].data@.len() as usize, old(self).channel),
                            was.rw@[cur].ptr,
                        ),
                    )
                } else {
                    rec.same_pending(&was)
                }
                &&& final(self).active == (old(self).active && !(p.perform_callback
                    && old(self).mode == AdcMode::SingleBuffer))
                &&& final(self).mode == (if p.perform_callback && old(self).mode
                    == AdcMode::SingleBuffer {
                    AdcMode::NoMode
                } else {
                    old(self).mode
                })
            }),
            final(self).went_on(old(self), i as int, length),
    {
        let app = self.apps.get(i);
        let use0 = app.using_app_buf0;
        let cur: usize = if use0 {
            0
        } else {
            1
        };
        let next: usize = 1 - cur;
        let continuous = self.mode == AdcMode::ContinuousBuffer;
        let next_needed = self.apps.rw_len(i, next) / 2;
        let current_needed = self.apps.rw_len(i, cur) / 2;
        let free = self.free_capacity();
        let p = advance(app, continuous, next_needed, current_needed, length, free);

        let skip_amt = app.app_buf_offset / 2;
        match &self.adc_buf3.value {
            Some(adc_buf) => {
                copy_samples(&mut self.apps, i, cur, skip_amt, adc_buf, length);
            },
            None => {},
        }

        let ghost mut answered: Result<(), (ErrorCode, Vec<u16>)> = Ok(());
        match p.request {
            None => {},
            Some(request_len) => {
                assert(self.next_free() is Some);
                match self.take_buffer() {
                    None => {},
                    Some(adc_buf) => {
                        let answer = self.adc.provide_buffer(adc_buf, request_len);
                        proof {
                            answered = answer;
                        }
                        self.provide_answered(answer);
                    },
                }
            },
        }
        let ghost mid = *self;
        assert(match p.request {
            Some(len) => mid.offered(old(self).adc, old(self).pool(), len, answered),
            None => mid.adc == old(self).adc && mid.pool() == old(self).pool(),
        });

        let mut after = p.app;
        after.app_buf_offset = next_offset(app.app_buf_offset, length);
        let buf_ptr = self.apps.rw_ptr(i, cur);
        let buf_len = self.apps.rw_len(i, cur);
        if p.perform_callback {
            let len_chan = ((buf_len / 2) << 8) | (self.channel & 0xFF);
            let _ = self.apps.schedule_upcall(i, 0, (self.mode.into_usize(), len_chan, buf_ptr));
            after.app_buf_offset = 0;
            self.apps.set(i, after);
            if self.mode == AdcMode::SingleBuffer {
                assert(p.request is None);
                self.quiesce(true);
            }
        } else {
            self.apps.set(i, after);
        }
        proof {
            if !(p.perform_callback && old(self).mode == AdcMode::SingleBuffer) {
                assert(self.adc == mid.adc && self.pool() == mid.pool());
                if p.request is Some {
                    assert(self.offered(
                        old(self).adc,
                        old(self).pool(),
                        p.request->Some_0,
                        answered,
                    ));
                }
            }
            assert(self.went_on(old(self), i as int, length));
        }
    }

    /// The caller may use the driver: it owns it already, nobody does, or
    /// the owner is idle and gone.
    pub open spec fn admits(&self, processid: ProcessId) -> bool {
        match self.processid {
            None => true,
            Some(owning_app) => if self.active {
                owning_app == processid
            } else {
                self.apps.resolves(owning_app) ==> owning_app == processid
            },
        }
    }

    /// This is the driver `before` with `processid` as its owner: the
    /// record of the owner before it was entered if that one was idle and
    /// still resolved, and nothing else has changed.
    pub open spec fn owned_by(&self, before: &AdcDedicated<A>, processid: ProcessId) -> bool {
        &&& self.wf()
        &&& self.processid == Some(processid)
        &&& self.adc == before.adc
        &&& self.channels == before.channels
        &&& self.active == before.active
        &&& self.mode == before.mode
        &&& self.channel == before.channel
        &&& self.adc_buf1 == before.adc_buf1
        &&& self.adc_buf2 == before.adc_buf2
        &&& self.adc_buf3 == before.adc_buf3
        &&& if before.active {
            self.apps == before.apps
        } else {
            self.apps.entered_by(&before.apps, before.processid)
        }
    }

    /// The driver after the command `command_num` of its owner, which is
    /// not 0, was carried out on `before` and answered with `r`: the answers
    /// of the requests for a sample, for continuous samples, for
    /// a capture, for a continuous capture and for the stop, for 1 to 5;
    /// `NOSUPPORT` for every command but these and 101 and 102, which ask
    /// the converter.
    pub open spec fn commanded(
        &self,
        before: &AdcDedicated<A>,
        command_num: usize,
        channel: usize,
        frequency: usize,
        r: CommandReturn,
    ) -> bool {
        if command_num == 1 {
            exists|res: Result<(), ErrorCode>|
                r == CommandReturn::of_result(res) && #[trigger] self.sampled(
                    before,
                    channel,
                    None,
                    AdcMode::SingleSample,
                    res,
                )
        } else if command_num == 2 {
            exists|res: Result<(), ErrorCode>|
                r == CommandReturn::of_result(res) && #[trigger] self.sampled(
                    before,
                    channel,
                    Some(frequency as u32),
                    AdcMode::ContinuousSample,
                    res,
                )
        } else if command_num == 3 {
            exists|res: Result<(), ErrorCode>|
                r == CommandReturn::of_result(res) && #[trigger] self.capture_requested(
                    before,
                    channel,
                    frequency as u32,
                    false,
                    res,
                )
        } else if command_num == 4 {
            exists|res: Result<(), ErrorCode>|
                r == CommandReturn::of_result(res) && #[trigger] self.capture_requested(
                    before,
                    channel,
                    frequency as u32,
                    true,
                    res,
                )
        } else if command_num == 5 {
            exists|res: Result<(), ErrorCode>|
                r == CommandReturn::of_result(res) && #[trigger] self.stopped(before, res)
        } else if command_num == 101 {
            r == CommandReturn::SuccessU32(before.adc.resolution_bits() as u32) && *self
                == *before
        } else if command_num == 102 {
            r == (match before.adc.voltage_reference_mv() {
                Some(voltage) => CommandReturn::SuccessU32(voltage as u32),
                None => CommandReturn::Failure(ErrorCode::NOSUPPORT),
            }) && *self == *before
        } else {
            r == CommandReturn::Failure(ErrorCode::NOSUPPORT) && *self == *before
        }
    }

    /// A command of the process `processid`.
    ///
    /// Command 0 asks whether the driver is there and is answered with the
    /// number of channels, whoever asks and whatever the driver is doing.
    /// For every other command the driver serves one process: a caller that
    /// `admits` does not serve is refused with `NOMEM`; any other becomes
    /// the owner. Commands 1 to 4 request a single sample, continuous
    /// samples, a captured buffer and a continuous capture on `channel` (the
    /// last three at `frequency`); 5 stops sampling; 101 answers the
    /// resolution in bits and 102 the reference voltage in millivolts. Every
    /// other command is refused with `NOSUPPORT`.
    pub fn command(
        &mut self,
        command_num: usize,
        channel: usize,
        frequency: usize,
        processid: ProcessId,
    ) -> (r: CommandReturn)
        requires
            old(self).wf(),
        ensures
            final(self).wf(),
            final(self).channels == old(self).channels,
            command_num == 0 ==> r == CommandReturn::SuccessU32(old(self).channels@.len() as u32)
                && *final(self) == *old(self),
            command_num != 0 && !old(self).admits(processid)
                ==> r == CommandReturn::Failure(ErrorCode::NOMEM)
                && final(self).same_but_apps(old(self)) && (if old(self).active {
                final(self).apps == old(self).apps
            } else {
                final(self).apps.entered_by(&old(self).apps, old(self).processid)
            }),
            command_num != 0 && old(self).admits(processid)
                ==> exists|owned: AdcDedicated<A>| #[trigger]
                owned.owned_by(old(self), processid) && final(self).commanded(
                    &owned,
                    command_num,
                    channel,
                    frequency,
                    r,
                ),
    {
        if command_num == 0 {
            return CommandReturn::success_u32(self.channels.len() as u32);
        }
        let admitted = match self.processid {
            None => true,
            Some(owning_app) => {
                if self.active {
                    owning_app == processid
                } else {
                    match self.apps.enter(owning_app) {
                        Ok(_) => owning_app == processid,
                        Err(_) => true,
                    }
                }
            },
        };
        if admitted {
            self.processid = Some(processid);
        } else {
            return CommandReturn::failure(ErrorCode::NOMEM);
        }
        let ghost owned = *self;
        assert(owned.owned_by(old(self), processid));
        if command_num == 1 {
            let res = self.sample(channel);
            assert(self.sampled(&owned, channel, None, AdcMode::SingleSample, res));
            CommandReturn::from_result(res)
        } else if command_num == 2 {
            let res = self.sample_continuous(channel, frequency as u32);
            assert(self.sampled(
                &owned,
                channel,
                Some(frequency as u32),
                AdcMode::ContinuousSample,
                res,
            ));
            CommandReturn::from_result(res)
        } else if command_num == 3 {
            let res = self.sample_buffer(channel, frequency as u32);
            assert(self.capture_requested(&owned, channel, frequency as u32, false, res));
            CommandReturn::from_result(res)
        } else if command_num == 4 {
            let res = self.sample_buffer_continuous(channel, frequency as u32);
            assert(self.capture_requested(&owned, channel, frequency as u32, true, res));
            CommandReturn::from_result(res)
        } else if command_num == 5 {
            let res = self.stop_sampling();
            assert(self.stopped(&owned, res));
            CommandReturn::from_result(res)
        } else if command_num == 101 {
            CommandReturn::success_u32(self.get_resolution_bits() as u32)
        } else if command_num == 102 {
            match self.get_voltage_reference_mv() {
                Some(voltage) => CommandReturn::success_u32(voltage as u32),
                None => CommandReturn::failure(ErrorCode::NOSUPPORT),
            }
        } else {
            CommandReturn::failure(ErrorCode::NOSUPPORT)
        }
    }

    /// Creates the record of `processid` if the process resolves.
    pub fn allocate_grant(&mut self, processid: ProcessId) -> (r: Result<
        (),
        crate::kernel::process::Error,
    >)
        requires
            old(self).wf(),
        ensures
            final(self).wf(),
            r == old(self).apps.lookup(processid),
            final(self).same_but_apps(old(self)),
    {
        match self.apps.enter(processid) {
            Ok(_) => Ok(()),
            Err(e) => Err(e),
        }
    }

    /// Everything but the process records is as in `other`.
    pub open spec fn same_but_apps(&self, other: &AdcDedicated<A>) -> bool {
        &&& self.adc == other.adc
        &&& self.channels == other.channels
        &&& self.active == other.active
        &&& self.mode == other.mode
        &&& self.processid == other.processid
        &&& self.channel == other.channel
        &&& self.adc_buf1 == other.adc_buf1
        &&& self.adc_buf2 == other.adc_buf2
        &&& self.adc_buf3 == other.adc_buf3
    }
}

/// A buffer that comes back when the capture does not go on is never
/// lost, whatever the converter answers when it is wound down: the driver
/// holds a buffer afterwards, and one more than before unless all holders
/// were full.
pub proof fn lemma_no_buffer_loss<A: AdcHighSpeed>(
    before: AdcDedicated<A>,
    after: AdcDedicated<A>,
    buf: Vec<u16>,
    length: usize,
)
    requires
        after.settled(&before, buf, length),
        !before.goes_on(buf, length),
    ensures
        after.held() >= 1,
        before.held() < 3 ==> after.held() >= before.held() + 1,
{
    let (halted, a, b) = choose|
        halted: A,
        a: Result<(), ErrorCode>,
        b: Result<(Option<Vec<u16>>, Option<Vec<u16>>), ErrorCode>,
    | #[trigger] after.idled(before.adc, before.pool().put(buf), true, halted, a, b);
    assert(after.pool() == before.pool().put(buf).returned(b));
}

/// When the capture does not go on, the converter is told to stop and
/// asked for the buffers that it holds; and where the holders have room
/// for the buffer that came back and for those that the converter then
/// hands back, all of them are held afterwards, and so is every buffer that
/// was held before.
pub proof fn lemma_wound_down_keeps_buffers<A: AdcHighSpeed>(
    before: AdcDedicated<A>,
    after: AdcDedicated<A>,
    buf: Vec<u16>,
    halted: A,
    a: Result<(), ErrorCode>,
    b: Result<(Option<Vec<u16>>, Option<Vec<u16>>), ErrorCode>,
)
    requires
        after.idled(before.adc, before.pool().put(buf), true, halted, a, b),
        before.held() + 1 + Pool::handed(b) <= 3,
    ensures
        halted.stop_asked(&before.adc, a),
        after.adc.retrieved(&halted, b),
        after.holds(buf),
        after.pool().keeps(before.pool()),
        after.held() == before.held() + 1 + Pool::handed(b),
        b matches Ok((Some(x), _)) ==> after.holds(x),
        b matches Ok((_, Some(x))) ==> after.holds(x),
{
    let stored = before.pool().put(buf);
    lemma_put_keeps(before.pool(), buf);
    lemma_returned_keeps(stored, b);
    assert forall|x: Vec<u16>| #[trigger] before.pool().holds(x) implies after.pool().holds(
        x,
    ) by {
        assert(stored.holds(x));
    }
}

/// While a capture goes on, a buffer that comes back is kept: it is in
/// one of the holders unless it was the only one and went to the converter
/// again with the next request, and unless all holders were full the driver
/// holds no fewer buffers than before.
pub proof fn lemma_buffer_kept_during_capture<A: AdcHighSpeed>(
    before: AdcDedicated<A>,
    after: AdcDedicated<A>,
    buf: Vec<u16>,
    length: usize,
)
    requires
        after.settled(&before, buf, length),
        before.goes_on(buf, length),
        before.held() < 3,
    ensures
        after.held() >= before.held(),
        after.holds(buf) || (before.held() == 0 && before.progress(buf, length).request is Some),
{
    match before.progress(buf, length).request {
        None => {},
        Some(len) => {
            let a = choose|a: Result<(), (ErrorCode, Vec<u16>)>| #[trigger]
                after.offered(before.adc, before.pool().put(buf), len, a);
        },
    }
}

/// A buffer that comes back for an owner that is gone notifies nobody:
/// no record changes, and the driver is idle and owned by no one.
pub proof fn lemma_gone_owner_is_told_nothing<A: AdcHighSpeed>(
    before: AdcDedicated<A>,
    after: AdcDedicated<A>,
    buf: Vec<u16>,
    length: usize,
)
    requires
        after.buffer_returned(&before, buf, length),
        before.owner() is None,
    ensures
        after.apps == before.apps,
        !after.active,
        after.processid is None,
{
}

} // verus!
