use arbitration::capsules::text_screen::{decode_command, App, TextScreen, TextScreenCommand};
use arbitration::kernel::errorcode::ErrorCode;
use arbitration::kernel::grant::{Grant, ProcessBuffer};
use arbitration::kernel::hil::text_screen::{Request, TextScreen as Screen};
use arbitration::kernel::process::ProcessId;
use arbitration::kernel::syscall::CommandReturn;

#[derive(Debug, Clone, PartialEq)]
enum Call {
    Print(Vec<u8>),
    SetCursor(usize, usize),
    HideCursor,
    ShowCursor,
    BlinkOn,
    BlinkOff,
    DisplayOn,
    DisplayOff,
    Clear,
}

struct Display {
    calls: Vec<Call>,
    held: Option<Vec<u8>>,
    refuse: Option<ErrorCode>,
}

impl Display {
    fn answer(&mut self, call: Call) -> Result<(), ErrorCode> {
        self.calls.push(call);
        match self.refuse {
            Some(e) => Err(e),
            None => Ok(()),
        }
    }
}

impl Screen for Display {
    fn ready(&self) -> bool {
        true
    }

    fn asked(&self, _before: &Self, _request: Request, _r: Result<(), ErrorCode>) -> bool {
        true
    }

    fn print_asked(
        &self,
        _before: &Self,
        _buffer: Vec<u8>,
        _len: usize,
        _r: Result<(), (ErrorCode, Vec<u8>)>,
    ) -> bool {
        true
    }

    fn size(&self) -> (usize, usize) {
        (20, 4)
    }

    fn get_size(&self) -> (usize, usize) {
        (20, 4)
    }

    fn print(&mut self, buffer: Vec<u8>, len: usize) -> Result<(), (ErrorCode, Vec<u8>)> {
        self.calls.push(Call::Print(buffer[..len].to_vec()));
        match self.refuse {
            Some(e) => Err((e, buffer)),
            None => {
                self.held = Some(buffer);
                Ok(())
            }
        }
    }

    fn set_cursor(&mut self, x: usize, y: usize) -> Result<(), ErrorCode> {
        self.answer(Call::SetCursor(x, y))
    }

    fn hide_cursor(&mut self) -> Result<(), ErrorCode> {
        self.answer(Call::HideCursor)
    }

    fn show_cursor(&mut self) -> Result<(), ErrorCode> {
        self.answer(Call::ShowCursor)
    }

    fn blink_cursor_on(&mut self) -> Result<(), ErrorCode> {
        self.answer(Call::BlinkOn)
    }

    fn blink_cursor_off(&mut self) -> Result<(), ErrorCode> {
        self.answer(Call::BlinkOff)
    }

    fn display_on(&mut self) -> Result<(), ErrorCode> {
        self.answer(Call::DisplayOn)
    }

    fn display_off(&mut self) -> Result<(), ErrorCode> {
        self.answer(Call::DisplayOff)
    }

    fn clear(&mut self) -> Result<(), ErrorCode> {
        self.answer(Call::Clear)
    }
}

fn driver(processes: usize) -> (TextScreen<Display>, Vec<ProcessId>) {
    let mut grant: Grant<App> = Grant::new(processes, 1, 1, 0);
    let mut ids = Vec::new();
    for i in 0..processes {
        let id = grant.load(i, 70 + i);
        grant
            .allow_readonly(id, 0, ProcessBuffer::new(0x500, vec![b'a' + i as u8; 6]))
            .ok()
            .unwrap();
        ids.push(id);
    }
    let display = Display { calls: Vec::new(), held: None, refuse: None };
    (TextScreen::new(display, vec![0u8; 4], grant), ids)
}

#[test]
fn command_numbers() {
    assert_eq!(decode_command(0), None);
    assert_eq!(decode_command(1), Some(TextScreenCommand::GetResolution));
    assert_eq!(decode_command(2), Some(TextScreenCommand::Display));
    assert_eq!(decode_command(3), Some(TextScreenCommand::NoDisplay));
    assert_eq!(decode_command(4), Some(TextScreenCommand::Blink));
    assert_eq!(decode_command(5), Some(TextScreenCommand::NoBlink));
    assert_eq!(decode_command(6), Some(TextScreenCommand::ShowCursor));
    assert_eq!(decode_command(7), Some(TextScreenCommand::NoCursor));
    assert_eq!(decode_command(8), Some(TextScreenCommand::Write));
    assert_eq!(decode_command(9), Some(TextScreenCommand::Clear));
    assert_eq!(decode_command(10), Some(TextScreenCommand::Home));
    assert_eq!(decode_command(11), Some(TextScreenCommand::SetCursor));
    assert_eq!(decode_command(12), None);
}

#[test]
fn command_on_a_free_display_runs_at_once() {
    let (mut d, p) = driver(2);
    assert_eq!(d.command(11, 3, 1, p[0]), CommandReturn::Success);
    assert_eq!(d.current_app, Some(p[0]));
    assert_eq!(d.text_screen.calls, vec![Call::SetCursor(3, 1)]);
}

#[test]
fn each_command_reaches_its_display_function() {
    let expected = [
        (2, Call::DisplayOn),
        (3, Call::DisplayOff),
        (4, Call::BlinkOn),
        (5, Call::BlinkOff),
        (6, Call::ShowCursor),
        (7, Call::HideCursor),
        (9, Call::Clear),
        (10, Call::Clear),
    ];
    for (num, call) in expected {
        let (mut d, p) = driver(1);
        assert_eq!(d.command(num, 0, 0, p[0]), CommandReturn::Success);
        assert_eq!(d.text_screen.calls, vec![call]);
    }
}

#[test]
fn resolution_is_answered_at_once_and_frees_the_display() {
    let (mut d, p) = driver(2);
    assert_eq!(d.command(1, 0, 0, p[1]), CommandReturn::Success);
    assert_eq!(d.apps.records[1].pending[0], Some((0, 20, 4)));
    assert_eq!(d.current_app, None);
    assert!(d.text_screen.calls.is_empty());
    assert_eq!(d.command(9, 0, 0, p[0]), CommandReturn::Success);
    assert_eq!(d.current_app, Some(p[0]));
}

#[test]
fn refused_command_returns_the_reason_and_frees_the_display() {
    let (mut d, p) = driver(1);
    d.text_screen.refuse = Some(ErrorCode::OFF);
    assert_eq!(d.command(2, 0, 0, p[0]), CommandReturn::Failure(ErrorCode::OFF));
    assert_eq!(d.current_app, None);
    assert_eq!(d.command(8, 3, 0, p[0]), CommandReturn::Failure(ErrorCode::OFF));
    assert!(d.buffer.is_some());
    assert_eq!(d.current_app, None);
}

#[test]
fn print_carries_the_shared_text() {
    let (mut d, p) = driver(2);
    assert_eq!(d.command(8, 3, 0, p[1]), CommandReturn::Success);
    assert_eq!(d.text_screen.calls, vec![Call::Print(vec![b'b'; 3])]);
    assert!(d.buffer.is_none());
    assert_eq!(d.apps.get(1).write_len, 3);
    let buffer = d.text_screen.held.take().unwrap();
    d.write_complete(buffer, 3, Ok(()));
    assert_eq!(d.apps.records[1].pending[0], Some((0, 3, 0)));
    assert!(d.buffer.is_some());
    assert_eq!(d.current_app, None);
}

#[test]
fn print_is_cut_to_the_buffers() {
    let (mut d, p) = driver(1);
    assert_eq!(d.command(8, 100, 0, p[0]), CommandReturn::Success);
    assert_eq!(d.text_screen.calls, vec![Call::Print(vec![b'a'; 4])]);
}

#[test]
fn print_of_nothing_is_refused() {
    let (mut d, p) = driver(1);
    assert_eq!(d.command(8, 0, 0, p[0]), CommandReturn::Failure(ErrorCode::NOMEM));
    assert_eq!(d.current_app, None);
    d.buffer.take();
    assert_eq!(d.command(8, 2, 0, p[0]), CommandReturn::Failure(ErrorCode::BUSY));
    assert_eq!(d.current_app, None);
}

#[test]
fn command_while_owned_waits_one_per_process() {
    let (mut d, p) = driver(3);
    d.command(2, 0, 0, p[0]);
    assert_eq!(d.command(11, 5, 2, p[2]), CommandReturn::Success);
    assert_eq!(d.text_screen.calls.len(), 1);
    assert_eq!(
        d.apps.get(2),
        App {
            pending_command: true,
            write_len: 0,
            command: TextScreenCommand::SetCursor,
            data1: 5,
            data2: 2
        }
    );
    assert_eq!(d.command(9, 0, 0, p[2]), CommandReturn::Failure(ErrorCode::BUSY));
    assert_eq!(d.apps.get(2).command, TextScreenCommand::SetCursor);
    assert_eq!(d.apps.get(2).data1, 5);
    assert_eq!(d.text_screen.calls.len(), 1);
    assert_eq!(d.current_app, Some(p[0]));
}

#[test]
fn completion_notifies_owner_and_serves_in_slot_order() {
    let (mut d, p) = driver(3);
    d.command(2, 0, 0, p[1]);
    d.command(9, 0, 0, p[2]);
    d.command(11, 1, 1, p[0]);
    d.command_complete(Ok(()));
    assert_eq!(d.apps.records[1].pending[0], Some((0, 0, 0)));
    assert_eq!(d.current_app, Some(p[0]));
    assert_eq!(d.text_screen.calls, vec![Call::DisplayOn, Call::SetCursor(1, 1)]);
    d.command_complete(Err(ErrorCode::FAIL));
    assert_eq!(d.apps.records[0].pending[0], Some((1, 0, 0)));
    assert_eq!(d.current_app, Some(p[2]));
    d.command_complete(Ok(()));
    assert_eq!(d.current_app, None);
}

#[test]
fn waiting_command_of_a_process_that_is_gone_is_skipped() {
    let (mut d, p) = driver(3);
    d.command(2, 0, 0, p[0]);
    d.command(9, 0, 0, p[1]);
    d.command(3, 0, 0, p[2]);
    d.apps.terminate(1);
    d.command_complete(Ok(()));
    assert_eq!(d.current_app, Some(p[2]));
    assert_eq!(d.text_screen.calls, vec![Call::DisplayOn, Call::DisplayOff]);
    assert_eq!(d.apps.records[1].pending[0], None);
}

#[test]
fn waiting_resolution_is_answered_and_the_scan_goes_on() {
    let (mut d, p) = driver(3);
    d.command(2, 0, 0, p[0]);
    d.command(1, 0, 0, p[1]);
    d.command(9, 0, 0, p[2]);
    d.command_complete(Ok(()));
    assert_eq!(d.apps.records[1].pending[0], Some((0, 20, 4)));
    assert_eq!(d.current_app, Some(p[2]));
}

#[test]
fn completion_for_an_owner_that_is_gone() {
    let (mut d, p) = driver(1);
    d.command(8, 2, 0, p[0]);
    d.apps.terminate(0);
    let buffer = d.text_screen.held.take().unwrap();
    d.write_complete(buffer, 2, Ok(()));
    assert!(d.buffer.is_some());
    assert_eq!(d.current_app, None);
    assert_eq!(d.apps.records[0].pending[0], None);
}

#[test]
fn screen_other_commands() {
    let (mut d, p) = driver(1);
    assert_eq!(d.command(0, 0, 0, p[0]), CommandReturn::Success);
    assert_eq!(d.command(12, 0, 0, p[0]), CommandReturn::Failure(ErrorCode::NOSUPPORT));
    assert_eq!(
        d.command(2, 0, 0, ProcessId::new(0, 1)),
        CommandReturn::Failure(ErrorCode::INVAL)
    );
    assert_eq!(d.allocate_grant(p[0]), Ok(()));
    let out = d.do_command();
    assert_eq!(out.result, Err(ErrorCode::FAIL));
    assert!(!out.finished);
    d.current_app = Some(p[0]);
    let out = d.do_command();
    assert_eq!(out.result, Err(ErrorCode::NOSUPPORT));
}
