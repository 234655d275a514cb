use arbitration::capsules::nonvolatile_storage_driver::{
    App, NonvolatileCommand, NonvolatileStorage, NonvolatileUser,
};
use arbitration::kernel::errorcode::ErrorCode;
use arbitration::kernel::grant::{Grant, ProcessBuffer};
use arbitration::kernel::hil::nonvolatile_storage::NonvolatileStorage as Storage;
use arbitration::kernel::process::ProcessId;
use arbitration::kernel::syscall::CommandReturn;

#[derive(Debug, Clone, PartialEq)]
enum Call {
    Read(usize, usize),
    Write(usize, usize, Vec<u8>),
}

struct Chip {
    calls: Vec<Call>,
    held: Option<Vec<u8>>,
    refuse: Option<ErrorCode>,
}

impl Storage for Chip {
    fn ready(&self) -> bool {
        true
    }

    fn read_asked(
        &self,
        _before: &Self,
        _buffer: Vec<u8>,
        _address: usize,
        _length: usize,
        _r: Result<(), (ErrorCode, Vec<u8>)>,
    ) -> bool {
        true
    }

    fn write_asked(
        &self,
        _before: &Self,
        _buffer: Vec<u8>,
        _address: usize,
        _length: usize,
        _r: Result<(), (ErrorCode, Vec<u8>)>,
    ) -> bool {
        true
    }

    fn read(&mut self, buffer: Vec<u8>, address: usize, length: usize) -> Result<(), (ErrorCode, Vec<u8>)> {
        self.calls.push(Call::Read(address, length));
        match self.refuse {
            Some(e) => Err((e, buffer)),
            None => {
                self.held = Some(buffer);
                Ok(())
            }
        }
    }

    fn write(&mut self, buffer: Vec<u8>, address: usize, length: usize) -> Result<(), (ErrorCode, Vec<u8>)> {
        self.calls.push(Call::Write(address, length, buffer[..length].to_vec()));
        match self.refuse {
            Some(e) => Err((e, buffer)),
            None => {
                self.held = Some(buffer);
                Ok(())
            }
        }
    }
}

const WINDOW_START: usize = 0x1000;
const WINDOW: usize = 256;
const KERNEL_START: usize = 0x100;
const KERNEL: usize = 64;

fn driver(processes: usize) -> (NonvolatileStorage<Chip>, Vec<ProcessId>) {
    let mut grant: Grant<App> = Grant::new(processes, 2, 1, 1);
    let mut ids = Vec::new();
    for i in 0..processes {
        let id = grant.load(i, 50 + i);
        grant.allow_readwrite(id, 0, ProcessBuffer::new(0x9000, vec![0u8; 16])).ok().unwrap();
        grant
            .allow_readonly(id, 0, ProcessBuffer::new(0xA000, vec![i as u8 + 1; 8]))
            .ok()
            .unwrap();
        ids.push(id);
    }
    let chip = Chip { calls: Vec::new(), held: None, refuse: None };
    let d = NonvolatileStorage::new(
        chip,
        grant,
        WINDOW_START,
        WINDOW,
        KERNEL_START,
        KERNEL,
        vec![0u8; 32],
    );
    (d, ids)
}

fn owner(id: ProcessId) -> Option<NonvolatileUser> {
    Some(NonvolatileUser::App { processid: id })
}

#[test]
fn bounds_of_the_window_and_of_the_kernel_region() {
    let (d, _) = driver(1);
    assert!(d.check_bounds(NonvolatileCommand::UserspaceRead, 0, 256));
    assert!(d.check_bounds(NonvolatileCommand::UserspaceWrite, 255, 1));
    assert!(!d.check_bounds(NonvolatileCommand::UserspaceRead, 256, 0));
    assert!(!d.check_bounds(NonvolatileCommand::UserspaceRead, 255, 2));
    assert!(!d.check_bounds(NonvolatileCommand::UserspaceRead, 0, usize::MAX));
    assert!(d.check_bounds(NonvolatileCommand::KernelRead, 0x100, 64));
    assert!(d.check_bounds(NonvolatileCommand::KernelWrite, 0x13F, 1));
    assert!(!d.check_bounds(NonvolatileCommand::KernelRead, 0xFF, 1));
    assert!(!d.check_bounds(NonvolatileCommand::KernelRead, 0x140, 0));
    assert!(!d.check_bounds(NonvolatileCommand::KernelRead, 0x120, 33));
    assert!(NonvolatileCommand::UserspaceWrite.is_userspace());
    assert!(!NonvolatileCommand::KernelWrite.is_userspace());
}

#[test]
fn request_out_of_bounds_is_invalid() {
    let (mut d, p) = driver(1);
    assert_eq!(d.command(2, 250, 10, p[0]), CommandReturn::Failure(ErrorCode::INVAL));
    assert_eq!(d.command(3, 256, 0, p[0]), CommandReturn::Failure(ErrorCode::INVAL));
    assert!(d.driver.calls.is_empty());
    assert_eq!(d.current_user, None);
}

#[test]
fn read_on_a_free_chip_starts_at_once() {
    let (mut d, p) = driver(2);
    assert_eq!(d.command(2, 4, 100, p[0]), CommandReturn::Success);
    assert_eq!(d.current_user, owner(p[0]));
    assert_eq!(d.driver.calls, vec![Call::Read(WINDOW_START + 4, 16)]);
    assert!(d.buffer.is_none());
}

#[test]
fn write_copies_the_bytes_of_the_process_first() {
    let (mut d, p) = driver(2);
    assert_eq!(d.command(3, 10, 5, p[1]), CommandReturn::Success);
    assert_eq!(d.driver.calls, vec![Call::Write(WINDOW_START + 10, 5, vec![2; 5])]);
    assert_eq!(d.current_user, owner(p[1]));
}

#[test]
fn refused_start_returns_the_reason_and_keeps_the_buffer() {
    let (mut d, p) = driver(1);
    d.driver.refuse = Some(ErrorCode::OFF);
    assert_eq!(d.command(2, 0, 8, p[0]), CommandReturn::Failure(ErrorCode::OFF));
    assert_eq!(d.current_user, None);
    assert!(d.buffer.is_some());
    d.driver.refuse = None;
    assert_eq!(d.command(2, 0, 8, p[0]), CommandReturn::Success);
}

#[test]
fn request_without_a_shared_buffer_needs_a_reservation() {
    let (mut d, p) = driver(1);
    d.apps.allow_readwrite(p[0], 0, ProcessBuffer::none()).ok().unwrap();
    assert_eq!(d.command(2, 0, 8, p[0]), CommandReturn::Failure(ErrorCode::RESERVE));
    assert_eq!(d.command(3, 0, 8, p[0]), CommandReturn::Success);
    assert_eq!(
        d.enqueue_command(NonvolatileCommand::UserspaceRead, 0, 8, None),
        Err(ErrorCode::FAIL)
    );
}

#[test]
fn request_while_owned_waits_and_touches_no_chip() {
    let (mut d, p) = driver(2);
    d.command(2, 0, 8, p[0]);
    assert!(d.buffer.is_none());
    assert_eq!(d.command(3, 16, 4, p[1]), CommandReturn::Success);
    assert_eq!(d.driver.calls.len(), 1);
    assert_eq!(d.current_user, owner(p[0]));
    assert_eq!(
        d.apps.get(1),
        App {
            pending_command: true,
            command: NonvolatileCommand::UserspaceWrite,
            offset: 16,
            length: 4
        }
    );
    assert_eq!(d.command(2, 0, 1, p[1]), CommandReturn::Failure(ErrorCode::BUSY));
    assert_eq!(d.apps.get(1).offset, 16);
    assert_eq!(d.apps.get(1).command, NonvolatileCommand::UserspaceWrite);
    assert_eq!(d.driver.calls.len(), 1);
}

fn queue_behind(d: &mut NonvolatileStorage<Chip>, id: ProcessId, command: usize, offset: usize) {
    assert_eq!(d.command(command, offset, 4, id), CommandReturn::Success);
}

#[test]
fn completed_read_reaches_the_process_and_the_next_is_served() {
    let (mut d, p) = driver(3);
    d.command(2, 0, 8, p[0]);
    queue_behind(&mut d, p[2], 2, 32);
    queue_behind(&mut d, p[1], 3, 64);
    let mut data = d.driver.held.take().unwrap();
    for (i, b) in data.iter_mut().enumerate() {
        *b = 0xA0 + i as u8;
    }
    assert!(d.read_done(data, 8).is_none());
    assert_eq!(d.apps.records[0].pending[0], Some((8, 0, 0)));
    let got = &d.apps.records[0].rw[0].data;
    assert_eq!(&got[..8], &[0xA0, 0xA1, 0xA2, 0xA3, 0xA4, 0xA5, 0xA6, 0xA7]);
    assert!(got[8..].iter().all(|b| *b == 0));
    assert_eq!(d.current_user, owner(p[1]));
    assert_eq!(d.driver.calls.len(), 2);
    assert_eq!(d.driver.calls[1], Call::Write(WINDOW_START + 64, 4, vec![2; 4]));
    assert!(d.apps.get(2).pending_command);

    let data = d.driver.held.take().unwrap();
    assert!(d.write_done(data, 4).is_none());
    assert_eq!(d.apps.records[1].pending[1], Some((4, 0, 0)));
    assert_eq!(d.current_user, owner(p[2]));
    assert_eq!(d.driver.calls[2], Call::Read(WINDOW_START + 32, 4));

    let data = d.driver.held.take().unwrap();
    d.read_done(data, 4);
    assert_eq!(d.current_user, None);
    assert!(d.buffer.is_some());
}

#[test]
fn stale_queued_request_is_skipped_silently() {
    let (mut d, p) = driver(2);
    let (x, y) = (p[1], p[0]);
    assert_eq!(d.command(3, 0, 4, y), CommandReturn::Success);
    queue_behind(&mut d, x, 3, 8);
    assert!(d.apps.get(1).pending_command);
    d.apps.terminate(1);
    let data = d.driver.held.take().unwrap();
    assert!(d.write_done(data, 4).is_none());
    assert_eq!(d.apps.records[0].pending[1], Some((4, 0, 0)));
    assert_eq!(d.apps.records[1].pending, vec![None, None]);
    assert_eq!(d.apps.records[1].dropped, 0);
    assert_eq!(d.current_user, None);
    assert_eq!(d.driver.calls.len(), 1);
    assert!(d.buffer.is_some());
}

#[test]
fn buffer_comes_back_even_if_the_owner_is_gone() {
    let (mut d, p) = driver(2);
    d.command(2, 0, 8, p[0]);
    d.apps.terminate(0);
    let data = d.driver.held.take().unwrap();
    assert!(d.read_done(data, 8).is_none());
    assert!(d.buffer.is_some());
    assert_eq!(d.current_user, None);
    assert_eq!(d.apps.records[0].pending, vec![None, None]);
    assert_eq!(d.command(2, 0, 8, p[1]), CommandReturn::Success);
}

#[test]
fn waiting_request_that_the_chip_refuses_is_dropped() {
    let (mut d, p) = driver(3);
    d.command(2, 0, 8, p[0]);
    queue_behind(&mut d, p[1], 2, 8);
    queue_behind(&mut d, p[2], 2, 16);
    d.driver.refuse = Some(ErrorCode::FAIL);
    let data = d.driver.held.take().unwrap();
    d.read_done(data, 8);
    assert_eq!(d.current_user, None);
    assert!(!d.apps.get(1).pending_command);
    assert!(!d.apps.get(2).pending_command);
    assert_eq!(d.apps.records[1].pending, vec![None, None]);
    assert!(d.buffer.is_some());
    assert_eq!(d.driver.calls.len(), 3);
}

#[test]
fn kernel_request_on_a_free_chip() {
    let (mut d, _) = driver(1);
    assert!(d.read(vec![0u8; 8], 0x110, 20).is_ok());
    assert_eq!(d.current_user, Some(NonvolatileUser::Kernel));
    assert_eq!(d.driver.calls, vec![Call::Read(0x110, 8)]);
    assert!(d.buffer.is_some());
    let data = d.driver.held.take().unwrap();
    let done = d.read_done(data, 8).unwrap();
    assert_eq!(done.length, 8);
    assert_eq!(done.buffer.len(), 8);
    assert_eq!(d.current_user, None);
}

#[test]
fn kernel_request_out_of_bounds_hands_the_buffer_back() {
    let (mut d, _) = driver(1);
    match d.write(vec![7u8; 4], 0x0, 4) {
        Err((e, b)) => {
            assert_eq!(e, ErrorCode::INVAL);
            assert_eq!(b, vec![7u8; 4]);
        }
        Ok(()) => panic!("a write below the region is out of bounds"),
    }
    assert!(d.kernel_buffer.is_none());
    assert!(d.driver.calls.is_empty());
}

#[test]
fn kernel_request_waits_behind_a_process_and_goes_first() {
    let (mut d, p) = driver(2);
    d.command(2, 0, 8, p[0]);
    queue_behind(&mut d, p[1], 2, 8);
    assert!(d.write(vec![5u8; 4], 0x120, 4).is_ok());
    assert!(d.kernel_pending_command);
    assert_eq!(d.driver.calls.len(), 1);
    match d.read(vec![6u8; 4], 0x120, 4) {
        Err((e, b)) => {
            assert_eq!(e, ErrorCode::BUSY);
            assert_eq!(b, vec![6u8; 4]);
        }
        Ok(()) => panic!("only one request of the kernel waits"),
    }
    assert_eq!(d.kernel_buffer.value, Some(vec![5u8; 4]));
    let data = d.driver.held.take().unwrap();
    d.read_done(data, 8);
    assert_eq!(d.current_user, Some(NonvolatileUser::Kernel));
    assert_eq!(d.driver.calls[1], Call::Write(0x120, 4, vec![5u8; 4]));
    assert!(d.apps.get(1).pending_command);
    let data = d.driver.held.take().unwrap();
    let done = d.write_done(data, 4).unwrap();
    assert_eq!(done.buffer, vec![5u8; 4]);
    assert_eq!(d.current_user, owner(p[1]));
}

#[test]
fn storage_other_commands() {
    let (mut d, p) = driver(1);
    assert_eq!(d.command(0, 0, 0, p[0]), CommandReturn::Success);
    assert_eq!(d.command(1, 0, 0, p[0]), CommandReturn::SuccessU32(256));
    assert_eq!(d.command(4, 0, 0, p[0]), CommandReturn::Failure(ErrorCode::NOSUPPORT));
    assert_eq!(d.allocate_grant(p[0]), Ok(()));
    assert_eq!(
        d.command(2, 0, 8, ProcessId::new(0, 1)),
        CommandReturn::Failure(ErrorCode::INVAL)
    );
    assert_eq!(
        d.userspace_call_driver(NonvolatileCommand::KernelRead, 0, 4),
        Err(ErrorCode::FAIL)
    );
    d.buffer.take();
    assert_eq!(
        d.userspace_call_driver(NonvolatileCommand::UserspaceRead, 0, 4),
        Err(ErrorCode::RESERVE)
    );
}
