//! Shares one character display among processes.
//!
//! One command runs on the display at a time. The command of the process
//! that finds the display free starts at once; the command of any other
//! waits in that process's record, one per process. When the display
//! reports a command done, the owner is notified and the waiting commands
//! are served in the order of the processes' slots.

use vstd::prelude::*;
use crate::kernel::cells::TakeCell;
use crate::kernel::errorcode::{into_statuscode, statuscode, ErrorCode};
use crate::kernel::grant::{overwritten, Grant, GrantData, ProcessRecord};
use crate::kernel::hil::text_screen::{Request, TextScreen as Screen};
use crate::kernel::process::ProcessId;
use crate::kernel::syscall::CommandReturn;
use crate::kernel::math::{least, smaller};

verus! {

/// The read-only buffer in which a process shares the text to print.
pub const RO_ALLOW_SHARED: usize = 0;

/// What a process may ask of the display.
#[derive(Clone, Copy, Debug, PartialEq, Eq, Structural)]
pub enum TextScreenCommand {
    Idle,
    GetResolution,
    Display,
    NoDisplay,
    Blink,
    NoBlink,
    SetCursor,
    NoCursor,
    ShowCursor,
    Write,
    Clear,
    Home,
}

/// The record of a process: its command, waiting or running.
#[derive(Clone, Copy, Debug, PartialEq, Eq, Structural)]
pub struct App {
    pub pending_command: bool,
    pub write_len: usize,
    pub command: TextScreenCommand,
    pub data1: usize,
    pub data2: usize,
}

impl GrantData for App {
    open spec fn initial() -> App {
        App {
            pending_command: false,
            write_len: 0,
            command: TextScreenCommand::Idle,
            data1: 1,
            data2: 0,
        }
    }

    fn fresh() -> App {
        App {
            pending_command: false,
            write_len: 0,
            command: TextScreenCommand::Idle,
            data1: 1,
            data2: 0,
        }
    }
}

/// The command that a command number of a process stands for.
pub open spec fn command_of(command_num: usize) -> Option<TextScreenCommand> {
    if command_num == 1 {
        Some(TextScreenCommand::GetResolution)
    } else if command_num == 2 {
        Some(TextScreenCommand::Display)
    } else if command_num == 3 {
        Some(TextScreenCommand::NoDisplay)
    } else if command_num == 4 {
        Some(TextScreenCommand::Blink)
    } else if command_num == 5 {
        Some(TextScreenCommand::NoBlink)
    } else if command_num == 6 {
        Some(TextScreenCommand::ShowCursor)
    } else if command_num == 7 {
        Some(TextScreenCommand::NoCursor)
    } else if command_num == 8 {
        Some(TextScreenCommand::Write)
    } else if command_num == 9 {
        Some(TextScreenCommand::Clear)
    } else if command_num == 10 {
        Some(TextScreenCommand::Home)
    } else if command_num == 11 {
        Some(TextScreenCommand::SetCursor)
    } else {
        None
    }
}

/// Decodes the command number of a process.
pub fn decode_command(command_num: usize) -> (r: Option<TextScreenCommand>)
    ensures
        r == command_of(command_num),
{
    if command_num == 1 {
        Some(TextScreenCommand::GetResolution)
    } else if command_num == 2 {
        Some(TextScreenCommand::Display)
    } else if command_num == 3 {
        Some(TextScreenCommand::NoDisplay)
    } else if command_num == 4 {
        Some(TextScreenCommand::Blink)
    } else if command_num == 5 {
        Some(TextScreenCommand::NoBlink)
    } else if command_num == 6 {
        Some(TextScreenCommand::ShowCursor)
    } else if command_num == 7 {
        Some(TextScreenCommand::NoCursor)
    } else if command_num == 8 {
        Some(TextScreenCommand::Write)
    } else if command_num == 9 {
        Some(TextScreenCommand::Clear)
    } else if command_num == 10 {
        Some(TextScreenCommand::Home)
    } else if command_num == 11 {
        Some(TextScreenCommand::SetCursor)
    } else {
        None
    }
}

/// The arbiter of one display.
pub struct TextScreen<S: Screen> {
    pub text_screen: S,
    pub apps: Grant<App>,
    pub current_app: Option<ProcessId>,
    /// The buffer in which text travels to the display.
    pub buffer: TakeCell<Vec<u8>>,
}

/// How a command went that was handed to the display.
pub struct Outcome {
    /// What the display, or the driver before it, answered.
    pub result: Result<(), ErrorCode>,
    /// Whether the command was complete with the answer, so that no
    /// completion will be reported for it.
    pub finished: bool,
}

impl<S: Screen> TextScreen<S> {
    /// The records fit the driver: one subscription and one shared
    /// buffer.
    pub open spec fn valid(&self) -> bool {
        &&& self.text_screen.ready()
        &&& self.apps.wf()
        &&& self.apps.upcall_count >= 1
        &&& self.apps.ro_count >= 1
    }

    /// The state between two calls: consistent, and no command waits while
    /// the display is free.
    pub open spec fn wf(&self) -> bool {
        &&& self.valid()
        &&& (self.current_app is None ==> self.nothing_waits())
    }

    /// No process has a command waiting.
    pub open spec fn nothing_waits(&self) -> bool {
        forall|i: int|
            self.apps.allocated(i)
                ==> !(#[trigger] self.apps.records@[i]).region->Some_0.pending_command
    }

    /// The process in slot `i` has a command waiting.
    pub open spec fn waits(&self, i: int) -> bool {
        self.apps.allocated(i) && self.apps.records@[i].region->Some_0.pending_command
    }

    /// Creates the arbiter of `text_screen`, with `buffer` to carry text.
    pub fn new(text_screen: S, buffer: Vec<u8>, grant: Grant<App>) -> (r: TextScreen<S>)
        ensures
            r.text_screen == text_screen,
            r.apps == grant,
            r.current_app is None,
            r.buffer.value == Some(buffer),
    {
        TextScreen { text_screen, apps: grant, current_app: None, buffer: TakeCell::new(buffer) }
    }

    /// What a request of the process `processid` is answered while the
    /// display is owned: `BUSY` if the process has a command waiting, the
    /// error of the lookup if the process does not resolve, success
    /// otherwise.
    pub open spec fn queue_outcome(&self, processid: ProcessId) -> Result<(), ErrorCode> {
        match self.apps.lookup(processid) {
            Err(e) => Err(e.as_errorcode()),
            Ok(()) => if self.apps.entered(processid.index as int).pending_command {
                Err(ErrorCode::BUSY)
            } else {
                Ok(())
            },
        }
    }

    /// This is the driver `before` with `processid` as the owner and the
    /// command with its arguments in the owner's record.
    pub open spec fn staged(
        &self,
        before: &TextScreen<S>,
        command: TextScreenCommand,
        data1: usize,
        data2: usize,
        processid: ProcessId,
    ) -> bool {
        let i = processid.index as int;
        &&& self.text_screen == before.text_screen
        &&& self.buffer == before.buffer
        &&& self.current_app == Some(processid)
        &&& self.apps.same_but(&before.apps, i)
        &&& self.apps.records@[i] == (ProcessRecord {
            region: Some(App { command, data1, data2, ..before.apps.entered(i) }),
            ..before.apps.records@[i]
        })
    }

    /// The driver has run a command at once: the command was put in the
    /// record of its process, which led from `before` to `staged`; it was
    /// handed to the display, which led to `mid` with the outcome `out`; and
    /// note was taken of the outcome, which led to this driver and is
    /// answered with `r`.
    pub open spec fn ran(
        &self,
        before: &TextScreen<S>,
        staged: TextScreen<S>,
        mid: TextScreen<S>,
        out: Outcome,
        command: TextScreenCommand,
        data1: usize,
        data2: usize,
        processid: ProcessId,
        r: CommandReturn,
    ) -> bool {
        &&& staged.staged(before, command, data1, data2, processid)
        &&& mid.did_command(&staged, out)
        &&& self.answered(&mid, out)
        &&& r == CommandReturn::of_result(out.result)
    }

    /// The driver after the request of `processid` for `command` was made
    /// on `before` and answered with `r`: see `enqueue_command`.
    pub open spec fn enqueued(
        &self,
        before: &TextScreen<S>,
        command: TextScreenCommand,
        data1: usize,
        data2: usize,
        processid: ProcessId,
        r: CommandReturn,
    ) -> bool {
        if before.apps.lookup(processid) is Err {
            r == CommandReturn::of_result(before.queue_outcome(processid)) && *self == *before
        } else if before.current_app is Some {
            let i = processid.index as int;
            &&& r == CommandReturn::of_result(before.queue_outcome(processid))
            &&& self.text_screen == before.text_screen
            &&& self.buffer == before.buffer
            &&& self.current_app == before.current_app
            &&& !r.ok() ==> self.apps == before.apps
            &&& r.ok() ==> self.apps.same_but(&before.apps, i) && self.apps.records@[i] == (
            ProcessRecord {
                region: Some(
                    App { pending_command: true, command, data1, data2, ..before.apps.entered(i) },
                ),
                ..before.apps.records@[i]
            })
        } else {
            exists|staged: TextScreen<S>, mid: TextScreen<S>, out: Outcome| #[trigger]
                self.ran(before, staged, mid, out, command, data1, data2, processid, r)
        }
    }

    /// Takes the request of `processid` for `command` with the arguments
    /// `data1` and `data2`.
    ///
    /// A process that does not resolve is refused with the error of the
    /// lookup, and nothing changes. While the display is owned the command
    /// is stored in the process's record, unless one waits there already:
    /// that request is refused with `BUSY` and the waiting command stays as
    /// it was; the display is not touched. On a free display the command
    /// runs at once: accepted, the process owns the display until the
    /// display reports the command done, unless the command was complete at
    /// once; refused, the display stays free and the reason is returned.
    pub fn enqueue_command(
        &mut self,
        command: TextScreenCommand,
        data1: usize,
        data2: usize,
        processid: ProcessId,
    ) -> (r: CommandReturn)
        requires
            old(self).wf(),
        ensures
            final(self).wf(),
            final(self).enqueued(old(self), command, data1, data2, processid, r),
    {
        let i = match self.apps.enter(processid) {
            Err(e) => {
                return CommandReturn::failure(e.into_errorcode());
            },
            Ok(i) => i,
        };
        let mut app = self.apps.get(i);
        if self.current_app.is_none() {
            self.current_app = Some(processid);
            app.data1 = data1;
            app.data2 = data2;
            app.command = command;
            self.apps.set(i, app);
            let ghost staged = *self;
            let out = self.do_command();
            let ghost mid = *self;
            let r = CommandReturn::from_result(self.command_answered(out));
            assert(self.ran(old(self), staged, mid, out, command, data1, data2, processid, r));
            r
        } else {
            if app.pending_command {
                assert(old(self).apps.records@[i as int].region is Some) by {
                    assert(!App::initial().pending_command);
                }
                CommandReturn::failure(ErrorCode::BUSY)
            } else {
                app.pending_command = true;
                app.command = command;
                app.data1 = data1;
                app.data2 = data2;
                self.apps.set(i, app);
                CommandReturn::success()
            }
        }
    }

    /// This is the driver `before` after the outcome `out` of the owner's
    /// command was taken note of: see `command_answered`.
    pub open spec fn answered(&self, before: &TextScreen<S>, out: Outcome) -> bool {
        &&& self.current_app == (if out.result is Err || out.finished {
            None
        } else {
            before.current_app
        })
        &&& self.text_screen == before.text_screen
        &&& self.apps == before.apps
        &&& self.buffer == before.buffer
    }

    /// What becomes of the display once the owner's command was handed to
    /// it: a command that was refused, or that was complete at once, leaves
    /// the display free; any other keeps its owner until the display reports
    /// it done. The answer is handed on.
    pub fn command_answered(&mut self, out: Outcome) -> (r: Result<(), ErrorCode>)
        ensures
            r == out.result,
            final(self).answered(old(self), out),
    {
        if out.result.is_err() || out.finished {
            self.current_app = None;
        }
        out.result
    }

    /// What the display is asked for by a command that carries no text.
    pub open spec fn request_of(
        command: TextScreenCommand,
        data1: usize,
        data2: usize,
    ) -> Option<Request> {
        match command {
            TextScreenCommand::Display => Some(Request::DisplayOn),
            TextScreenCommand::NoDisplay => Some(Request::DisplayOff),
            TextScreenCommand::Blink => Some(Request::BlinkOn),
            TextScreenCommand::NoBlink => Some(Request::BlinkOff),
            TextScreenCommand::SetCursor => Some(Request::SetCursor(data1, data2)),
            TextScreenCommand::NoCursor => Some(Request::HideCursor),
            TextScreenCommand::ShowCursor => Some(Request::ShowCursor),
            TextScreenCommand::Clear => Some(Request::Clear),
            TextScreenCommand::Home => Some(Request::Clear),
            _ => None,
        }
    }

    /// The display of this driver is what the display of `before` became
    /// when it was asked to print for the process in slot `i`, which asked
    /// for `write_len` bytes: the buffer `tx` holds the first bytes of the
    /// text that the process shared, as many as were asked for and as both
    /// buffers hold, and as many are to be printed. The display answered
    /// `a`; a refusal leaves the buffer that it handed back with the driver.
    pub open spec fn printed(
        &self,
        before: &TextScreen<S>,
        i: int,
        write_len: usize,
        tx: Vec<u8>,
        a: Result<(), (ErrorCode, Vec<u8>)>,
    ) -> bool {
        let b = before.buffer.value->Some_0;
        let count = least(
            least(write_len as int, b@.len() as int),
            before.apps.ro_size(i, RO_ALLOW_SHARED as int),
        );
        &&& tx@.len() == b@.len()
        &&& count > 0 ==> tx@ == overwritten(
            b@,
            before.apps.ro_bytes(i, RO_ALLOW_SHARED as int),
            count,
        )
        &&& count == 0 ==> tx == b
        &&& self.text_screen.print_asked(&before.text_screen, tx, count as usize, a)
        &&& self.buffer.value == (match a {
            Ok(()) => None,
            Err((_, back)) => Some(back),
        })
    }

    /// The driver after the command in the owner's record was handed to the
    /// display on `before`, with the outcome `out`: see `do_command`.
    pub open spec fn did_command(&self, before: &TextScreen<S>, out: Outcome) -> bool {
        &&& self.valid()
        &&& self.current_app == before.current_app
        &&& (out.finished ==> out.result is Ok)
        &&& match before.current_app {
            None => out.result == Err::<(), ErrorCode>(ErrorCode::FAIL) && *self == *before,
            Some(p) => match before.apps.lookup(p) {
                Err(e) => out.result == Err::<(), ErrorCode>(e.as_errorcode()) && *self
                    == *before,
                Ok(()) => {
                    let i = p.index as int;
                    let app = before.apps.entered(i);
                    let rec = self.apps.records@[i];
                    let was = before.apps.records@[i];
                    &&& self.apps.same_but(&before.apps, i)
                    &&& rec.same_shares(&was)
                    &&& self.apps.allocated(i)
                    &&& out.finished == (app.command == TextScreenCommand::GetResolution)
                    &&& rec.region == Some(
                        App {
                            pending_command: app.pending_command && app.command
                                != TextScreenCommand::GetResolution,
                            write_len: if app.command == TextScreenCommand::Write && app.data1
                                > 0 {
                                app.data1
                            } else {
                                app.write_len
                            },
                            ..app
                        },
                    )
                    &&& app.command != TextScreenCommand::GetResolution ==> rec.same_pending(&was)
                    &&& app.command == TextScreenCommand::GetResolution ==> self.text_screen
                        == before.text_screen && rec.pending_after(
                        &was,
                        0,
                        (0usize, before.text_screen.size().0, before.text_screen.size().1),
                    )
                    &&& app.command == TextScreenCommand::Idle ==> out.result == Err::<
                        (),
                        ErrorCode,
                    >(ErrorCode::NOSUPPORT) && self.text_screen == before.text_screen
                    &&& app.command == TextScreenCommand::Write && app.data1 == 0 ==> out.result
                        == Err::<(), ErrorCode>(ErrorCode::NOMEM) && self.text_screen
                        == before.text_screen
                    &&& app.command == TextScreenCommand::Write && app.data1 > 0
                        && before.buffer.value is None ==> out.result == Err::<(), ErrorCode>(
                        ErrorCode::BUSY,
                    ) && self.text_screen == before.text_screen
                    &&& app.command == TextScreenCommand::Write && out.result is Ok
                        ==> self.buffer.value is None
                    &&& app.command != TextScreenCommand::Write ==> self.buffer == before.buffer
                    &&& out.result is Err ==> (self.buffer.value is Some
                        <==> before.buffer.value is Some)
                    &&& Self::request_of(app.command, app.data1, app.data2) matches Some(request)
                        ==> self.text_screen.asked(&before.text_screen, request, out.result)
                    &&& app.command == TextScreenCommand::Write && app.data1 > 0
                        && before.buffer.value is Some ==> exists|
                        tx: Vec<u8>,
                        a: Result<(), (ErrorCode, Vec<u8>)>,
                    |
                        #[trigger] self.printed(before, i, app.data1, tx, a) && out.result == (
                        match a {
                            Ok(()) => Ok(()),
                            Err((e, _)) => Err(e),
                        })
                },
            },
        }
    }

    /// Hands the command in the owner's record to the display.
    ///
    /// Without an owner the answer is `FAIL`; an owner that does not
    /// resolve gives the error of the lookup. Asking for the resolution is
    /// complete at once: the owner is notified of columns and rows. A write
    /// carries as many bytes of the process's shared text as the process
    /// asked for and as both buffers hold; asked for none it is refused with
    /// `NOMEM`, without the driver's buffer with `BUSY`. Every other command
    /// is answered by the display. The driver's buffer is with the driver
    /// after every refusal. No record but the owner's changes, and neither
    /// the owner nor any waiting flag does.
    pub fn do_command(&mut self) -> (out: Outcome)
        requires
            old(self).valid(),
        ensures
            final(self).did_command(old(self), out),
    {
        let processid = match self.current_app {
            None => {
                return Outcome { result: Err(ErrorCode::FAIL), finished: false };
            },
            Some(p) => p,
        };
        let i = match self.apps.enter(processid) {
            Err(e) => {
                return Outcome { result: Err(e.into_errorcode()), finished: false };
            },
            Ok(i) => i,
        };
        let mut app = self.apps.get(i);
        match app.command {
            TextScreenCommand::GetResolution => {
                let (x, y) = self.text_screen.get_size();
                app.pending_command = false;
                self.apps.set(i, app);
                let _ = self.apps.schedule_upcall(i, 0, (into_statuscode(Ok(())), x, y));
                assert(self.apps.records@[i as int].pending_after(
                    &old(self).apps.records@[i as int],
                    0,
                    (0usize, x, y),
                ));
                Outcome { result: Ok(()), finished: true }
            },
            TextScreenCommand::Display => Outcome {
                result: self.text_screen.display_on(),
                finished: false,
            },
            TextScreenCommand::NoDisplay => Outcome {
                result: self.text_screen.display_off(),
                finished: false,
            },
            TextScreenCommand::Blink => Outcome {
                result: self.text_screen.blink_cursor_on(),
                finished: false,
            },
            TextScreenCommand::NoBlink => Outcome {
                result: self.text_screen.blink_cursor_off(),
                finished: false,
            },
            TextScreenCommand::SetCursor => Outcome {
                result: self.text_screen.set_cursor(app.data1, app.data2),
                finished: false,
            },
            TextScreenCommand::NoCursor => Outcome {
                result: self.text_screen.hide_cursor(),
                finished: false,
            },
            TextScreenCommand::Write => {
                if app.data1 > 0 {
                    app.write_len = app.data1;
                    self.apps.set(i, app);
                    match self.buffer.take() {
                        None => Outcome { result: Err(ErrorCode::BUSY), finished: false },
                        Some(mut buffer) => {
                            let len = smaller(
                                smaller(app.write_len, buffer.len()),
                                self.apps.ro_len(i, RO_ALLOW_SHARED),
                            );
                            self.apps.copy_from_ro(i, RO_ALLOW_SHARED, &mut buffer, len);
                            let ghost tx = buffer;
                            let answer = self.text_screen.print(buffer, len);
                            let ghost a = answer;
                            let out = match answer {
                                Ok(()) => Outcome { result: Ok(()), finished: false },
                                Err((ecode, buffer)) => {
                                    self.buffer.put(Some(buffer));
                                    Outcome { result: Err(ecode), finished: false }
                                },
                            };
                            assert(self.printed(old(self), i as int, app.data1, tx, a));
                            out
                        },
                    }
                } else {
                    Outcome { result: Err(ErrorCode::NOMEM), finished: false }
                }
            },
            TextScreenCommand::Clear => Outcome { result: self.text_screen.clear(),
                finished: false },
            TextScreenCommand::Home => Outcome { result: self.text_screen.clear(),
                finished: false },
            TextScreenCommand::ShowCursor => Outcome {
                result: self.text_screen.show_cursor(),
                finished: false,
            },
            TextScreenCommand::Idle => Outcome {
                result: Err(ErrorCode::NOSUPPORT),
                finished: false,
            },
        }
    }

    /// The scan that left the driver in this state reached slot `i`.
    pub open spec fn scanned(&self, i: int) -> bool {
        match self.current_app {
            Some(p) => i <= p.index,
            None => true,
        }
    }

    /// How the driver may look after the waiting commands were served on a
    /// free display, starting from `before`. The processes were scanned in
    /// the order of their slots; each waiting command met on the way was
    /// taken out of waiting and handed to the display; the scan ended with
    /// the first command that the display accepted and that was not
    /// complete at once, whose process is the owner, or with the last slot
    /// and no owner. Records of processes that are gone, or that have no
    /// command waiting, are untouched, and only a process whose command was
    /// to ask for the resolution is notified.
    pub open spec fn served(&self, before: &TextScreen<S>) -> bool {
        &&& (before.nothing_waits() ==> *self == *before)
        &&& self.apps.upcall_count == before.apps.upcall_count
        &&& self.apps.rw_count == before.apps.rw_count
        &&& self.apps.ro_count == before.apps.ro_count
        &&& self.apps.slots() == before.apps.slots()
        &&& forall|i: int|
            0 <= i < before.apps.slots() ==> if before.waits(i) && self.scanned(i) {
                let app = before.apps.records@[i].region->Some_0;
                &&& (#[trigger] self.apps.records@[i]).same_shares(&before.apps.records@[i])
                &&& self.apps.records@[i].region == Some(
                    App {
                        pending_command: false,
                        write_len: if app.command == TextScreenCommand::Write && app.data1 > 0 {
                            app.data1
                        } else {
                            app.write_len
                        },
                        ..app
                    },
                )
                &&& app.command != TextScreenCommand::GetResolution
                    ==> self.apps.records@[i].same_pending(&before.apps.records@[i])
            } else {
                self.apps.records@[i] == before.apps.records@[i]
            }
        &&& match self.current_app {
            Some(p) => {
                &&& p.index < before.apps.slots()
                &&& before.waits(p.index as int)
                &&& p.identifier == before.apps.records@[p.index as int].identifier
                &&& exists|staged: TextScreen<S>, out: Outcome| #[trigger]
                    self.accepted_from(before, p, staged, out)
            },
            None => true,
        }
        &&& (self.current_app is None && before.buffer.value is Some ==> self.buffer.value is Some)
        &&& exists|
            trail: Seq<TextScreen<S>>,
            staged: Seq<TextScreen<S>>,
            done: Seq<TextScreen<S>>,
            outs: Seq<Outcome>,
        | #[trigger] self.trailed(before, trail, staged, done, outs)
    }

    /// The display accepted the command that waited in the record of the
    /// owner `p` in `before`: the driver was `staged`, with the command
    /// taken out of waiting and `p` as the owner, when the command was
    /// handed to the display (see `did_command`), which led to this driver.
    pub open spec fn accepted_from(
        &self,
        before: &TextScreen<S>,
        p: ProcessId,
        staged: TextScreen<S>,
        out: Outcome,
    ) -> bool {
        let i = p.index as int;
        &&& staged.current_app == Some(p)
        &&& staged.apps.records@[i] == (ProcessRecord {
            region: Some(
                App { pending_command: false, ..before.apps.records@[i].region->Some_0 },
            ),
            ..before.apps.records@[i]
        })
        &&& self.did_command(&staged, out)
        &&& out.result is Ok
        &&& !out.finished
    }

    /// What the scan did at slot `j` of `before` when it ended with the
    /// owner `owner`: `trail` holds the driver as it was before and behind
    /// each slot. A command that waited in a slot that the scan reached was
    /// taken out of waiting and its process made the owner, which made the
    /// driver `staged[j]`; it was handed to the display with the outcome
    /// `outs[j]`, which made the driver `done[j]` (see `did_command`); and
    /// note was taken of the outcome (see `answered`). Its process is the
    /// owner in the end if and only if the display accepted the command and
    /// the command was not complete at once. At every other slot nothing
    /// was done. The scan reached the slots up to the owner's, and all
    /// slots if there is no owner.
    pub open spec fn step(
        before: &TextScreen<S>,
        owner: Option<ProcessId>,
        trail: Seq<TextScreen<S>>,
        staged: Seq<TextScreen<S>>,
        done: Seq<TextScreen<S>>,
        outs: Seq<Outcome>,
        j: int,
    ) -> bool {
        let reached = match owner {
            Some(p) => j <= p.index,
            None => true,
        };
        if before.waits(j) && reached {
            &&& staged[j].text_screen == trail[j].text_screen
            &&& staged[j].buffer == trail[j].buffer
            &&& staged[j].current_app matches Some(p) && p.index == j && p.identifier
                == before.apps.records@[j].identifier
            &&& staged[j].apps.same_but(&trail[j].apps, j)
            &&& staged[j].apps.records@[j] == (ProcessRecord {
                region: Some(
                    App { pending_command: false, ..before.apps.records@[j].region->Some_0 },
                ),
                ..before.apps.records@[j]
            })
            &&& done[j].did_command(&staged[j], outs[j])
            &&& trail[j + 1].answered(&done[j], outs[j])
            &&& ((outs[j].result is Ok && !outs[j].finished) <==> (owner matches Some(p)
                && p.index == j))
        } else {
            trail[j + 1] == trail[j]
        }
    }

    /// This driver is what `before` became by the scan of the slots: the
    /// trail leads from that to this, slot by slot as `step` says.
    pub open spec fn trailed(
        &self,
        before: &TextScreen<S>,
        trail: Seq<TextScreen<S>>,
        staged: Seq<TextScreen<S>>,
        done: Seq<TextScreen<S>>,
        outs: Seq<Outcome>,
    ) -> bool {
        let n = before.apps.slots();
        &&& trail.len() == n + 1
        &&& staged.len() == n
        &&& done.len() == n
        &&& outs.len() == n
        &&& trail[0] == *before
        &&& trail[n as int] == *self
        &&& forall|j: int|
            0 <= j < n ==> #[trigger] Self::step(
                before,
                self.current_app,
                trail,
                staged,
                done,
                outs,
                j,
            )
    }

    /// Serves the waiting commands: see `served`. While a command runs
    /// nothing is done.
    pub fn run_next_command(&mut self)
        requires
            old(self).valid(),
        ensures
            final(self).wf(),
            old(self).current_app is Some ==> *final(self) == *old(self),
            old(self).current_app is None ==> final(self).served(old(self)),
    {
        if self.current_app.is_some() {
            return ;
        }
        let ghost mut trail: Seq<TextScreen<S>> = seq![*self];
        let ghost mut befores: Seq<TextScreen<S>> = Seq::empty();
        let ghost mut afters: Seq<TextScreen<S>> = Seq::empty();
        let ghost mut outs: Seq<Outcome> = Seq::empty();
        let n = self.apps.len();
        let mut i: usize = 0;
        while i < n && self.current_app.is_none()
            invariant
                n == old(self).apps.slots(),
                i <= n,
                trail.len() == i + 1,
                befores.len() == i,
                afters.len() == i,
                outs.len() == i,
                trail[0] == *old(self),
                trail[i as int] == *self,
                forall|j: int|
                    0 <= j < i ==> #[trigger] Self::step(
                        old(self),
                        self.current_app,
                        trail,
                        befores,
                        afters,
                        outs,
                        j,
                    ),
                old(self).valid(),
                old(self).current_app is None,
                self.valid(),
                self.apps.upcall_count == old(self).apps.upcall_count,
                self.apps.rw_count == old(self).apps.rw_count,
                self.apps.ro_count == old(self).apps.ro_count,
                self.apps.slots() == old(self).apps.slots(),
                forall|j: int|
                    0 <= j < i ==> if old(self).waits(j) {
                        let app = old(self).apps.records@[j].region->Some_0;
                        &&& (#[trigger] self.apps.records@[j]).same_shares(
                            &old(self).apps.records@[j],
                        )
                        &&& self.apps.records@[j].region == Some(
                            App {
                                pending_command: false,
                                write_len: if app.command == TextScreenCommand::Write && app.data1
                                    > 0 {
                                    app.data1
                                } else {
                                    app.write_len
                                },
                                ..app
                            },
                        )
                        &&& app.command != TextScreenCommand::GetResolution
                            ==> self.apps.records@[j].same_pending(&old(self).apps.records@[j])
                    } else {
                        self.apps.records@[j] == old(self).apps.records@[j]
                    },
                forall|j: int|
                    i <= j < n ==> (#[trigger] self.apps.records@[j]) == old(self).apps.records@[j],
                self.current_app matches Some(p) ==> {
                    &&& p.index + 1 == i
                    &&& old(self).waits(p.index as int)
                    &&& p.identifier == old(self).apps.records@[p.index as int].identifier
                },
                self.current_app is None && old(self).buffer.value is Some
                    ==> self.buffer.value is Some,
                old(self).nothing_waits() ==> *self == *old(self),
                self.current_app matches Some(p) ==> exists|staged: TextScreen<S>, out: Outcome|
                 #[trigger] self.accepted_from(old(self), p, staged, out),
            decreases n - i,
        {
            assert(self.apps.records@[i as int] == old(self).apps.records@[i as int]);
            let ghost trail_before = trail;
            let ghost befores_before = befores;
            let ghost afters_before = afters;
            let ghost outs_before = outs;
            let ghost entered = *self;
            let ghost mut was = *self;
            let ghost mut became = *self;
            let ghost mut outcome = Outcome { result: Ok(()), finished: false };
            if self.apps.is_allocated(i) {
                let mut app = self.apps.get(i);
                if app.pending_command {
                    assert(old(self).waits(i as int));
                    app.pending_command = false;
                    let processid = self.apps.processid(i);
                    self.apps.set(i, app);
                    self.current_app = Some(processid);
                    let ghost staged = *self;
                    let out = self.do_command();
                    let ghost done = *self;
                    let _ = self.command_answered(out);
                    proof {
                        was = staged;
                        became = done;
                        outcome = out;
                        if self.current_app is Some {
                            assert(*self == done);
                            assert(self.accepted_from(old(self), processid, staged, out));
                        }
                    }
                }
            }
            proof {
                trail = trail.push(*self);
                befores = befores.push(was);
                afters = afters.push(became);
                outs = outs.push(outcome);
                assert forall|j: int| 0 <= j < i + 1 implies #[trigger] Self::step(
                    old(self),
                    self.current_app,
                    trail,
                    befores,
                    afters,
                    outs,
                    j,
                ) by {
                    if j < i {
                        assert(Self::step(
                            old(self),
                            None,
                            trail_before,
                            befores_before,
                            afters_before,
                            outs_before,
                            j,
                        ));
                        assert(trail[j] == trail_before[j]);
                        assert(trail[j + 1] == trail_before[j + 1]);
                        assert(befores[j] == befores_before[j]);
                        assert(afters[j] == afters_before[j]);
                        assert(outs[j] == outs_before[j]);
                    } else {
                        assert(trail[j] == entered);
                        assert(trail[j + 1] == *self);
                    }
                }
            }
            i += 1;
        }
        proof {
            let reached = trail;
            let staged = befores;
            let done = afters;
            let heard = outs;
            let last = *self;
            trail = reached + Seq::new((n - i) as nat, |k: int| last);
            befores = staged + Seq::new((n - i) as nat, |k: int| last);
            afters = done + Seq::new((n - i) as nat, |k: int| last);
            outs = heard + Seq::new(
                (n - i) as nat,
                |k: int| Outcome { result: Ok(()), finished: false },
            );
            assert forall|j: int| 0 <= j < n implies #[trigger] Self::step(
                old(self),
                self.current_app,
                trail,
                befores,
                afters,
                outs,
                j,
            ) by {
                if j < i {
                    assert(Self::step(
                        old(self),
                        self.current_app,
                        reached,
                        staged,
                        done,
                        heard,
                        j,
                    ));
                    assert(trail[j] == reached[j]);
                    assert(trail[j + 1] == reached[j + 1]);
                    assert(befores[j] == staged[j]);
                    assert(afters[j] == done[j]);
                    assert(outs[j] == heard[j]);
                } else {
                    assert(trail[j] == last);
                    assert(trail[j + 1] == last);
                }
            }
            assert(trail[0] == reached[0]);
            assert(self.trailed(old(self), trail, befores, afters, outs));
            assert forall|j: int| 0 <= j < old(self).apps.slots() implies (if old(self).waits(j)
                && self.scanned(j) {
                let app = old(self).apps.records@[j].region->Some_0;
                &&& (#[trigger] self.apps.records@[j]).same_shares(&old(self).apps.records@[j])
                &&& self.apps.records@[j].region == Some(
                    App {
                        pending_command: false,
                        write_len: if app.command == TextScreenCommand::Write && app.data1 > 0 {
                            app.data1
                        } else {
                            app.write_len
                        },
                        ..app
                    },
                )
                &&& app.command != TextScreenCommand::GetResolution
                    ==> self.apps.records@[j].same_pending(&old(self).apps.records@[j])
            } else {
                self.apps.records@[j] == old(self).apps.records@[j]
            }) by {
                if j >= i {
                    if self.current_app is None {
                        assert(i == n);
                    }
                }
            }
        }
    }

    /// How the driver looks after the owner was told of a completion with
    /// the words `data1`, `data2` and `data3`, starting from `before`: the
    /// display is free; an owner that resolves has its waiting flag cleared
    /// and is notified; for an owner that is gone nothing is told to anyone
    /// and no record changes.
    pub open spec fn completed(
        &self,
        before: &TextScreen<S>,
        data1: usize,
        data2: usize,
        data3: usize,
    ) -> bool {
        &&& self.current_app is None
        &&& self.text_screen == before.text_screen
        &&& self.buffer == before.buffer
        &&& match before.current_app {
            None => self.apps == before.apps,
            Some(p) => if before.apps.resolves(p) {
                let i = p.index as int;
                &&& self.apps.same_but(&before.apps, i)
                &&& self.apps.records@[i].region == Some(
                    App { pending_command: false, ..before.apps.entered(i) },
                )
                &&& self.apps.records@[i].notified(&before.apps.records@[i], 0, (data1, data2,
                    data3))
            } else {
                self.apps == before.apps
            },
        }
    }

    /// Tells the owner of a completion and frees the display: see
    /// `completed`.
    pub fn schedule_callback(&mut self, data1: usize, data2: usize, data3: usize)
        requires
            old(self).valid(),
        ensures
            final(self).valid(),
            final(self).completed(old(self), data1, data2, data3),
    {
        match self.current_app.take() {
            None => {},
            Some(processid) => {
                match self.apps.enter(processid) {
                    Err(_) => {},
                    Ok(i) => {
                        let mut app = self.apps.get(i);
                        app.pending_command = false;
                        self.apps.set(i, app);
                        let _ = self.apps.schedule_upcall(i, 0, (data1, data2, data3));
                    },
                }
            },
        }
    }

    /// A command of the process `processid`: 0 asks whether the driver is
    /// there; 1 to 11 stand for the commands of `command_of` and are
    /// requests as `enqueue_command` describes. Every other command is
    /// refused with `NOSUPPORT`.
    pub fn command(
        &mut self,
        command_num: usize,
        data1: usize,
        data2: usize,
        processid: ProcessId,
    ) -> (r: CommandReturn)
        requires
            old(self).wf(),
        ensures
            final(self).wf(),
            command_num == 0 ==> r == CommandReturn::Success && *final(self) == *old(self),
            match command_of(command_num) {
                Some(c) => final(self).enqueued(old(self), c, data1, data2, processid, r),
                None => command_num != 0 ==> r == CommandReturn::Failure(ErrorCode::NOSUPPORT)
                    && *final(self) == *old(self),
            },
    {
        if command_num == 0 {
            return CommandReturn::success();
        }
        match decode_command(command_num) {
            Some(c) => self.enqueue_command(c, data1, data2, processid),
            None => CommandReturn::failure(ErrorCode::NOSUPPORT),
        }
    }

    /// Creates the record of `processid` if the process resolves.
    pub fn allocate_grant(&mut self, processid: ProcessId) -> (r: Result<
        (),
        crate::kernel::process::Error,
    >)
        requires
            old(self).wf(),
        ensures
            final(self).wf(),
            r == old(self).apps.lookup(processid),
            final(self).text_screen == old(self).text_screen,
            final(self).buffer == old(self).buffer,
            final(self).current_app == old(self).current_app,
    {
        match self.apps.enter(processid) {
            Ok(_) => Ok(()),
            Err(e) => Err(e),
        }
    }

    /// The display reports a command done with the outcome `r`: the owner
    /// is notified with the status word, and the waiting commands are
    /// served.
    pub fn command_complete(&mut self, r: Result<(), ErrorCode>)
        requires
            old(self).valid(),
        ensures
            final(self).wf(),
            exists|mid: TextScreen<S>| #[trigger]
                mid.completed(old(self), statuscode(r), 0, 0) && final(self).served(&mid),
    {
        self.schedule_callback(into_statuscode(r), 0, 0);
        let ghost mid = *self;
        self.run_next_command();
        assert(mid.completed(old(self), statuscode(r), 0, 0) && self.served(&mid));
    }

    /// The display reports a print of `len` bytes done with the outcome
    /// `r` and hands `buffer` back: the buffer is stored with the driver
    /// first; then the owner is notified with the status word and `len`, and
    /// the waiting commands are served.
    pub fn write_complete(&mut self, buffer: Vec<u8>, len: usize, r: Result<(), ErrorCode>)
        requires
            old(self).valid(),
        ensures
            final(self).wf(),
            exists|mid: TextScreen<S>, stored: TextScreen<S>|
                stored.apps == old(self).apps && stored.current_app == old(self).current_app
                    && stored.text_screen == old(self).text_screen && stored.buffer.value == Some(
                    buffer,
                ) && #[trigger] mid.completed(&stored, statuscode(r), len, 0)
                    && final(self).served(&mid),
    {
        self.buffer.replace(buffer);
        let ghost stored = *self;
        self.schedule_callback(into_statuscode(r), len, 0);
        let ghost mid = *self;
        self.run_next_command();
        assert(mid.completed(&stored, statuscode(r), len, 0) && self.served(&mid));
    }
}

/// While one command runs, no request reaches the display: the display is
/// as it was, and so are its owner and the buffer.
pub proof fn lemma_one_in_flight<S: Screen>(
    before: TextScreen<S>,
    after: TextScreen<S>,
    command: TextScreenCommand,
    data1: usize,
    data2: usize,
    processid: ProcessId,
    r: CommandReturn,
)
    requires
        after.enqueued(&before, command, data1, data2, processid, r),
        before.current_app is Some,
    ensures
        after.text_screen == before.text_screen,
        after.current_app == before.current_app,
        after.buffer == before.buffer,
{
}

/// A second request of a process whose command waits is refused with
/// `BUSY`, and the waiting command is as it was.
pub proof fn lemma_no_overwrite<S: Screen>(
    before: TextScreen<S>,
    after: TextScreen<S>,
    command: TextScreenCommand,
    data1: usize,
    data2: usize,
    processid: ProcessId,
    r: CommandReturn,
)
    requires
        before.wf(),
        after.enqueued(&before, command, data1, data2, processid, r),
        before.apps.resolves(processid),
        before.waits(processid.index as int),
    ensures
        r == CommandReturn::Failure(ErrorCode::BUSY),
        after == before,
{
}

/// The buffer that the display hands back is never lost: once it is
/// stored, the owner told and the waiting commands served, a display that
/// is free again has left the buffer with the driver, whether or not the
/// owner was still there to be told.
pub proof fn lemma_no_buffer_loss<S: Screen>(
    stored: TextScreen<S>,
    mid: TextScreen<S>,
    after: TextScreen<S>,
    data1: usize,
    data2: usize,
    data3: usize,
)
    requires
        stored.buffer.value is Some,
        mid.completed(&stored, data1, data2, data3),
        after.served(&mid),
        after.current_app is None,
    ensures
        after.buffer.value is Some,
{
}

/// When a command completes and no process that still resolves has a
/// command waiting, the display is not asked: it is as it was, and nobody
/// owns it.
pub proof fn lemma_completion_with_nothing_waiting<S: Screen>(
    before: TextScreen<S>,
    mid: TextScreen<S>,
    after: TextScreen<S>,
    data1: usize,
    data2: usize,
    data3: usize,
)
    requires
        mid.completed(&before, data1, data2, data3),
        after.served(&mid),
        mid.nothing_waits(),
    ensures
        after.text_screen == before.text_screen,
        after.current_app is None,
        after.buffer == before.buffer,
{
}

/// A process that is gone is passed over when the waiting commands are
/// served: its slot is not looked into, it does not become the owner, and
/// it is told nothing, whatever command it had made before it went.
pub proof fn lemma_gone_process_is_skipped<S: Screen>(
    before: TextScreen<S>,
    after: TextScreen<S>,
    slot: int,
)
    requires
        after.served(&before),
        0 <= slot < before.apps.slots(),
        !before.apps.allocated(slot),
    ensures
        after.apps.records@[slot] == before.apps.records@[slot],
        after.current_app matches Some(p) ==> p.index != slot,
{
}

/// Where no process that still resolves has a command waiting, serving the
/// waiting commands changes nothing at all: the display is not asked, and
/// stays free.
pub proof fn lemma_nothing_to_serve<S: Screen>(before: TextScreen<S>, after: TextScreen<S>)
    requires
        after.served(&before),
        before.nothing_waits(),
    ensures
        after == before,
        after.current_app is None,
        after.apps.records@ =~= before.apps.records@,
{
    assert forall|i: int| 0 <= i < before.apps.slots() implies after.apps.records@[i]
        == before.apps.records@[i] by {
        assert(!before.waits(i));
    }
}

} // verus!
