//! Driver of a multiplexer for a two-wire bus, for processes.
//!
//! The chip connects up to four downstream buses to the upstream one. One
//! process at a time owns the driver, selects channels and asks which
//! channels are selected or raise interrupts.

use vstd::prelude::*;
use crate::kernel::cells::TakeCell;
use crate::kernel::errorcode::ErrorCode;
use crate::kernel::grant::{Grant, GrantData};
use crate::kernel::hil::i2c::{Error, I2CDevice};
use crate::kernel::process::ProcessId;
use crate::kernel::syscall::CommandReturn;

verus! {

/// The length of the buffer that the driver needs.
pub const BUFFER_LENGTH: usize = 5;

/// The subscription told when a request is done.
pub const UPCALL_CHANNEL_DONE: usize = 0;

/// The field of the control register that a read is for.
#[derive(Clone, Copy, Debug, PartialEq, Eq, Structural)]
pub enum ControlField {
    InterruptMask,
    SelectedChannels,
}

impl ControlField {
    /// The number that tells a process which field it is told of.
    pub open spec fn tag(self) -> usize {
        match self {
            ControlField::InterruptMask => 1,
            ControlField::SelectedChannels => 2,
        }
    }

    /// The value of the field in the control byte.
    pub open spec fn of(self, control: u8) -> u8 {
        match self {
            ControlField::InterruptMask => (control >> 4) & 0x0F,
            ControlField::SelectedChannels => control & 0x07,
        }
    }

    /// Extracts the field from the control byte.
    pub fn extract(self, control: u8) -> (r: u8)
        ensures
            r == self.of(control),
    {
        match self {
            ControlField::InterruptMask => (control >> 4) & 0x0F,
            ControlField::SelectedChannels => control & 0x07,
        }
    }

    /// The number that tells a process which field it is told of.
    pub fn into_tag(self) -> (r: usize)
        ensures
            r == self.tag(),
    {
        match self {
            ControlField::InterruptMask => 1,
            ControlField::SelectedChannels => 2,
        }
    }
}

/// What the driver waits for.
#[derive(Clone, Copy, Debug, PartialEq, Eq, Structural)]
pub enum State {
    Idle,
    /// The control register is being read for the given field.
    ReadControl(ControlField),
    /// A selection is being written.
    Done,
}

/// The record of a process; the driver keeps nothing in it.
#[derive(Clone, Copy, Debug, PartialEq, Eq, Structural)]
pub struct App {}

impl GrantData for App {
    open spec fn initial() -> App {
        App {  }
    }

    fn fresh() -> App {
        App {  }
    }
}

/// Channel `i` is named in `bitmask`.
pub open spec fn selects(bitmask: u8, i: u8) -> bool {
    bitmask & (1u8 << i) != 0
}

/// The bytes that select the channels named in `bitmask`: a zero, then
/// for each channel named, in rising order, its number plus four.
pub open spec fn selection(bitmask: u8, upto: u8) -> Seq<u8>
    decreases upto,
{
    if upto == 0 {
        seq![0u8]
    } else {
        let before = selection(bitmask, (upto - 1) as u8);
        if selects(bitmask, (upto - 1) as u8) {
            before.push((upto - 1 + 4) as u8)
        } else {
            before
        }
    }
}

/// Writes the bytes that select the channels named in `bitmask` to the
/// start of `buffer` and answers their number.
pub fn encode_selection(buffer: &mut Vec<u8>, bitmask: u8) -> (index: usize)
    requires
        old(buffer)@.len() >= BUFFER_LENGTH,
    ensures
        final(buffer)@.len() == old(buffer)@.len(),
        1 <= index <= 5,
        final(buffer)@.subrange(0, index as int) == selection(bitmask, 4),
{
    buffer[0] = 0;
    let mut index: usize = 1;
    let mut i: u8 = 0;
    assert(buffer@.subrange(0, 1) =~= selection(bitmask, 0));
    while i < 4
        invariant
            i <= 4,
            1 <= index <= i + 1,
            buffer@.len() == old(buffer)@.len(),
            buffer@.len() >= BUFFER_LENGTH,
            buffer@.subrange(0, index as int) == selection(bitmask, i),
        decreases 4 - i,
    {
        let ghost before = buffer@;
        if bitmask & (1u8 << i) != 0 {
            buffer[index] = i + 4;
            assert(buffer@.subrange(0, index as int + 1) =~= before.subrange(0, index as int).push(
                (i + 4) as u8,
            ));
            index += 1;
        }
        i += 1;
    }
    index
}

/// The driver of the multiplexer.
pub struct PCA9544A<I: I2CDevice> {
    pub i2c: I,
    pub state: State,
    pub buffer: TakeCell<Vec<u8>>,
    pub apps: Grant<App>,
    pub owning_process: Option<ProcessId>,
}

impl<I: I2CDevice> PCA9544A<I> {
    /// The records fit the driver, and the buffer, while it is with the
    /// driver, is long enough.
    pub open spec fn wf(&self) -> bool {
        &&& self.apps.wf()
        &&& self.apps.upcall_count >= 1
        &&& (self.buffer.value matches Some(b) ==> b@.len() >= BUFFER_LENGTH)
    }

    /// Creates the driver of the multiplexer behind `i2c`.
    pub fn new(i2c: I, buffer: Vec<u8>, grant: Grant<App>) -> (r: PCA9544A<I>)
        ensures
            r.i2c == i2c,
            r.state == State::Idle,
            r.buffer.value == Some(buffer),
            r.apps == grant,
            r.owning_process is None,
    {
        PCA9544A {
            i2c,
            state: State::Idle,
            buffer: TakeCell::new(buffer),
            apps: grant,
            owning_process: None,
        }
    }

    /// What becomes of a transfer once the bus has answered: accepted, the
    /// driver waits in state `next`; refused, the driver is idle with its
    /// buffer and the bus's reason is returned.
    pub fn transfer_answered(&mut self, answer: Result<(), (Error, Vec<u8>)>, next: State) -> (r:
        CommandReturn)
        requires
            old(self).wf(),
            old(self).buffer.value is None,
            answer matches Err((_, b)) ==> b@.len() >= BUFFER_LENGTH,
        ensures
            final(self).wf(),
            final(self).apps == old(self).apps,
            final(self).owning_process == old(self).owning_process,
            match answer {
                Ok(()) => r == CommandReturn::Success && final(self).state == next
                    && final(self).buffer.value is None && final(self).i2c == old(self).i2c,
                Err((e, b)) => r == CommandReturn::Failure(e.as_errorcode()) && final(self).state
                    == State::Idle && final(self).buffer.value == Some(b)
                    && final(self).i2c.switched(&old(self).i2c, false),
            },
    {
        match answer {
            Ok(()) => {
                self.state = next;
                CommandReturn::success()
            },
            Err((e, b)) => {
                self.buffer.put(Some(b));
                self.i2c.disable();
                self.state = State::Idle;
                CommandReturn::failure(e.into_errorcode())
            },
        }
    }

    /// The driver after a request was made on `before` and answered with
    /// `r`. Without the buffer the request is refused with `NOMEM` and
    /// nothing changes. Otherwise the buffer goes to the bus: accepted, the
    /// driver waits in state `next`; refused, the driver is idle with its
    /// buffer and the answer is the bus's reason.
    pub open spec fn started(&self, before: &PCA9544A<I>, next: State, r: CommandReturn) -> bool {
        &&& self.wf()
        &&& self.apps == before.apps
        &&& self.owning_process == before.owning_process
        &&& (before.buffer.value is None ==> r == CommandReturn::Failure(ErrorCode::NOMEM) && *self
            == *before)
        &&& (before.buffer.value is Some ==> if r.ok() {
            r == CommandReturn::Success && self.state == next && self.buffer.value is None
        } else {
            self.state == State::Idle && self.buffer.value is Some
        })
    }

    /// The bus of this driver is what the bus `i2c` became by a request.
    /// Switched on, it was `on`. Then it was asked for a transfer of `len`
    /// bytes with the buffer `tx`, answered `a` and was `asked`: a write of
    /// the bytes `bytes`, which the buffer begins with, or, without bytes, a
    /// read into the buffer `held` as it was. After a refusal the bus was
    /// switched off again. The caller is answered `r`: the bus's reason, if
    /// it refused.
    pub open spec fn transferred(
        &self,
        i2c: I,
        held: Vec<u8>,
        bytes: Option<Seq<u8>>,
        len: usize,
        r: CommandReturn,
        on: I,
        tx: Vec<u8>,
        a: Result<(), (Error, Vec<u8>)>,
        asked: I,
    ) -> bool {
        &&& on.switched(&i2c, true)
        &&& match bytes {
            Some(b) => tx@.len() == held@.len() && tx@.subrange(0, len as int) == b
                && asked.write_asked(&on, tx, len, a),
            None => tx == held && asked.read_asked(&on, tx, len, a),
        }
        &&& match a {
            Ok(()) => self.i2c == asked && r == CommandReturn::Success && self.buffer.value
                is None,
            Err((e, b)) => self.i2c.switched(&asked, false) && r == CommandReturn::Failure(
                e.as_errorcode(),
            ) && self.buffer.value == Some(b),
        }
    }

    /// Connects the channels named in `channel_bitmask`, and no others:
    /// the bytes of `selection` go to the chip.
    pub fn select_channels(&mut self, channel_bitmask: u8) -> (r: CommandReturn)
        requires
            old(self).wf(),
        ensures
            final(self).started(old(self), State::Done, r),
            old(self).buffer.value is Some ==> exists|
                on: I,
                tx: Vec<u8>,
                a: Result<(), (Error, Vec<u8>)>,
                asked: I,
            | #[trigger]
                final(self).transferred(
                    old(self).i2c,
                    old(self).buffer.value->Some_0,
                    Some(selection(channel_bitmask, 4)),
                    selection(channel_bitmask, 4).len() as usize,
                    r,
                    on,
                    tx,
                    a,
                    asked,
                ),
    {
        match self.buffer.take() {
            None => CommandReturn::failure(ErrorCode::NOMEM),
            Some(mut buffer) => {
                let ghost held = buffer;
                self.i2c.enable();
                let ghost on = self.i2c;
                let index = encode_selection(&mut buffer, channel_bitmask);
                let answer = self.i2c.write(buffer, index);
                let ghost a = answer;
                let ghost asked = self.i2c;
                let r = self.transfer_answered(answer, State::Done);
                assert(buffer@.subrange(0, index as int).len() == index);
                assert(index == selection(channel_bitmask, 4).len());
                assert(held == old(self).buffer.value->Some_0);
                assert(self.transferred(
                    old(self).i2c,
                    old(self).buffer.value->Some_0,
                    Some(selection(channel_bitmask, 4)),
                    selection(channel_bitmask, 4).len() as usize,
                    r,
                    on,
                    buffer,
                    a,
                    asked,
                ));
                r
            },
        }
    }

    /// Asks which channels raise an interrupt.
    pub fn read_interrupts(&mut self) -> (r: CommandReturn)
        requires
            old(self).wf(),
        ensures
            final(self).started(old(self), State::ReadControl(ControlField::InterruptMask), r),
            old(self).buffer.value is Some ==> exists|
                on: I,
                tx: Vec<u8>,
                a: Result<(), (Error, Vec<u8>)>,
                asked: I,
            | #[trigger]
                final(self).transferred(
                    old(self).i2c,
                    old(self).buffer.value->Some_0,
                    None,
                    1,
                    r,
                    on,
                    tx,
                    a,
                    asked,
                ),
    {
        self.read_control(ControlField::InterruptMask)
    }

    /// Asks which channels are connected.
    pub fn read_selected_channels(&mut self) -> (r: CommandReturn)
        requires
            old(self).wf(),
        ensures
            final(self).started(old(self), State::ReadControl(ControlField::SelectedChannels), r),
            old(self).buffer.value is Some ==> exists|
                on: I,
                tx: Vec<u8>,
                a: Result<(), (Error, Vec<u8>)>,
                asked: I,
            | #[trigger]
                final(self).transferred(
                    old(self).i2c,
                    old(self).buffer.value->Some_0,
                    None,
                    1,
                    r,
                    on,
                    tx,
                    a,
                    asked,
                ),
    {
        self.read_control(ControlField::SelectedChannels)
    }

    /// Reads the control register for `field`.
    pub fn read_control(&mut self, field: ControlField) -> (r: CommandReturn)
        requires
            old(self).wf(),
        ensures
            final(self).started(old(self), State::ReadControl(field), r),
            old(self).buffer.value is Some ==> exists|
                on: I,
                tx: Vec<u8>,
                a: Result<(), (Error, Vec<u8>)>,
                asked: I,
            | #[trigger]
                final(self).transferred(
                    old(self).i2c,
                    old(self).buffer.value->Some_0,
                    None,
                    1,
                    r,
                    on,
                    tx,
                    a,
                    asked,
                ),
    {
        match self.buffer.take() {
            None => CommandReturn::failure(ErrorCode::NOMEM),
            Some(buffer) => {
                self.i2c.enable();
                let ghost on = self.i2c;
                let answer = self.i2c.read(buffer, 1);
                let ghost a = answer;
                let ghost asked = self.i2c;
                let r = self.transfer_answered(answer, State::ReadControl(field));
                assert(self.transferred(old(self).i2c, buffer, None, 1, r, on, buffer, a, asked));
                r
            },
        }
    }

    /// The words by which the owner is told of a completion in state
    /// `state` that hands back `buffer`.
    pub open spec fn words(state: State, buffer: Seq<u8>) -> (usize, usize, usize) {
        match state {
            State::ReadControl(field) => (field.tag(), field.of(buffer[0]) as usize, 0),
            _ => (0, 0, 0),
        }
    }

    /// The bus reports a transfer done and hands `buffer` back.
    ///
    /// The buffer is with the driver again and the driver is idle. If the
    /// driver waited for the transfer, the owner, if it still resolves, is
    /// notified: after a read with the field's tag and value, after a
    /// selection with zeros. For an owner that is gone nobody is told.
    pub fn command_complete(&mut self, buffer: Vec<u8>, _status: Result<(), Error>)
        requires
            old(self).wf(),
            buffer@.len() >= BUFFER_LENGTH,
        ensures
            final(self).wf(),
            final(self).state == State::Idle,
            final(self).buffer.value == Some(buffer),
            final(self).owning_process == old(self).owning_process,
            old(self).state == State::Idle ==> final(self).apps == old(self).apps
                && final(self).i2c == old(self).i2c,
            old(self).state != State::Idle ==> final(self).i2c.switched(&old(self).i2c, false),
            old(self).state != State::Idle ==> final(self).apps.told(
                &old(self).apps,
                old(self).owning_process,
                UPCALL_CHANNEL_DONE as int,
                Self::words(old(self).state, buffer@),
            ),
    {
        match self.state {
            State::ReadControl(field) => {
                let ret = field.extract(buffer[0]);
                self.apps.tell(
                    self.owning_process,
                    UPCALL_CHANNEL_DONE,
                    (field.into_tag(), ret as usize, 0),
                );
                self.buffer.put(Some(buffer));
                self.i2c.disable();
                self.state = State::Idle;
            },
            State::Done => {
                self.apps.tell(self.owning_process, UPCALL_CHANNEL_DONE, (0, 0, 0));
                self.buffer.put(Some(buffer));
                self.i2c.disable();
                self.state = State::Idle;
            },
            State::Idle => {
                self.buffer.put(Some(buffer));
            },
        }
    }

    /// A command of the process `process_id`.
    ///
    /// Command 0 asks whether the driver is there. For every other command
    /// the caller must be one that the driver may serve (see
    /// `Grant::admits`), which makes it the owner; else the command is
    /// refused with `NOMEM`. Command 1 connects the channels named in the
    /// low byte of `data`, 2 disconnects all, 3 asks for the interrupts and
    /// 4 for the connected channels. Every other command is refused with
    /// `NOSUPPORT`.
    pub fn command(
        &mut self,
        command_num: usize,
        data: usize,
        _arg2: usize,
        process_id: ProcessId,
    ) -> (r: CommandReturn)
        requires
            old(self).wf(),
        ensures
            final(self).wf(),
            command_num == 0 ==> r == CommandReturn::Success && *final(self) == *old(self),
            command_num != 0 && !old(self).apps.admits(old(self).owning_process, process_id) ==> {
                &&& r == CommandReturn::Failure(ErrorCode::NOMEM)
                &&& final(self).i2c == old(self).i2c
                &&& final(self).state == old(self).state
                &&& final(self).buffer == old(self).buffer
                &&& final(self).owning_process == old(self).owning_process
            },
            command_num != 0 && old(self).apps.admits(old(self).owning_process, process_id) ==> {
                &&& final(self).owning_process == Some(process_id)
                &&& final(self).apps.entered_by(&old(self).apps, old(self).owning_process)
                &&& command_num > 4 ==> r == CommandReturn::Failure(ErrorCode::NOSUPPORT)
                    && final(self).i2c == old(self).i2c && final(self).state == old(self).state
                        && final(self).buffer == old(self).buffer
                &&& command_num <= 4 && old(self).buffer.value is None ==> r
                    == CommandReturn::Failure(ErrorCode::NOMEM) && final(self).i2c == old(self).i2c
                        && final(self).state == old(self).state
                &&& command_num <= 4 && old(self).buffer.value is Some ==> if r.ok() {
                    final(self).buffer.value is None && final(self).state == (if command_num
                        <= 2 {
                        State::Done
                    } else if command_num == 3 {
                        State::ReadControl(ControlField::InterruptMask)
                    } else {
                        State::ReadControl(ControlField::SelectedChannels)
                    })
                } else {
                    final(self).buffer.value is Some && final(self).state == State::Idle
                }
            },
            1 <= command_num <= 4 && old(self).apps.admits(old(self).owning_process, process_id)
                && old(self).buffer.value is Some ==> exists|
                on: I,
                tx: Vec<u8>,
                a: Result<(), (Error, Vec<u8>)>,
                asked: I,
            | #[trigger]
                final(self).transferred(
                    old(self).i2c,
                    old(self).buffer.value->Some_0,
                    Self::command_bytes(command_num, data),
                    Self::command_length(command_num, data),
                    r,
                    on,
                    tx,
                    a,
                    asked,
                ),
    {
        if command_num == 0 {
            return CommandReturn::success();
        }
        if self.apps.may_serve(self.owning_process, process_id) {
            self.owning_process = Some(process_id);
        } else {
            return CommandReturn::failure(ErrorCode::NOMEM);
        }
        let ghost owned = *self;
        let r = if command_num == 1 {
            self.select_channels(data as u8)
        } else if command_num == 2 {
            self.select_channels(0)
        } else if command_num == 3 {
            self.read_interrupts()
        } else if command_num == 4 {
            self.read_selected_channels()
        } else {
            CommandReturn::failure(ErrorCode::NOSUPPORT)
        };
        proof {
            if command_num <= 4 && old(self).buffer.value is Some {
                let bytes = Self::command_bytes(command_num, data);
                let len = Self::command_length(command_num, data);
                let (on, tx, a, asked) = choose|
                    on: I,
                    tx: Vec<u8>,
                    a: Result<(), (Error, Vec<u8>)>,
                    asked: I,
                | #[trigger]
                    self.transferred(
                        owned.i2c,
                        owned.buffer.value->Some_0,
                        bytes,
                        len,
                        r,
                        on,
                        tx,
                        a,
                        asked,
                    );
                assert(self.transferred(
                    old(self).i2c,
                    old(self).buffer.value->Some_0,
                    bytes,
                    len,
                    r,
                    on,
                    tx,
                    a,
                    asked,
                ));
            }
        }
        r
    }

    /// The bytes that a command writes to the chip: the selection of the
    /// channels named in the low byte of `data` for command 1, and of none
    /// for command 2. Commands 3 and 4 read.
    pub open spec fn command_bytes(command_num: usize, data: usize) -> Option<Seq<u8>> {
        if command_num == 1 {
            Some(selection(data as u8, 4))
        } else if command_num == 2 {
            Some(selection(0, 4))
        } else {
            None
        }
    }

    /// The number of bytes that a command transfers.
    pub open spec fn command_length(command_num: usize, data: usize) -> usize {
        match Self::command_bytes(command_num, data) {
            Some(bytes) => bytes.len() as usize,
            None => 1,
        }
    }

    /// Creates the record of `processid` if the process resolves.
    pub fn allocate_grant(&mut self, processid: ProcessId) -> (r: Result<
        (),
        crate::kernel::process::Error,
    >)
        requires
            old(self).wf(),
        ensures
            final(self).wf(),
            r == old(self).apps.lookup(processid),
            final(self).i2c == old(self).i2c,
            final(self).state == old(self).state,
            final(self).buffer == old(self).buffer,
            final(self).owning_process == old(self).owning_process,
    {
        match self.apps.enter(processid) {
            Ok(_) => Ok(()),
            Err(e) => Err(e),
        }
    }
}

} // verus!
