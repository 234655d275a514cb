use arbitration::capsules::adc::{AdcVirtualized, AppSys, Operation};
use arbitration::kernel::errorcode::ErrorCode;
use arbitration::kernel::grant::Grant;
use arbitration::kernel::hil::adc::AdcChannel;
use arbitration::kernel::process::ProcessId;
use arbitration::kernel::syscall::CommandReturn;

struct Channel {
    samples: usize,
    answer: Result<(), ErrorCode>,
    bits: usize,
    reference: Option<usize>,
}

impl Channel {
    fn new() -> Channel {
        Channel { samples: 0, answer: Ok(()), bits: 12, reference: Some(3300) }
    }
}

impl AdcChannel for Channel {
    fn sampled(&self, _before: &Self, _r: Result<(), ErrorCode>) -> bool {
        true
    }

    fn sample(&mut self) -> Result<(), ErrorCode> {
        self.samples += 1;
        self.answer
    }

    fn resolution_bits(&self) -> usize {
        self.bits
    }

    fn voltage_reference_mv(&self) -> Option<usize> {
        self.reference
    }

    fn get_resolution_bits(&self) -> usize {
        self.bits
    }

    fn get_voltage_reference_mv(&self) -> Option<usize> {
        self.reference
    }
}

fn driver(channels: usize, processes: usize) -> (AdcVirtualized<Channel>, Vec<ProcessId>) {
    let mut grant: Grant<AppSys> = Grant::new(processes, 1, 0, 0);
    let mut ids = Vec::new();
    for i in 0..processes {
        ids.push(grant.load(i, 100 + i));
    }
    let mut drivers = Vec::new();
    for _ in 0..channels {
        drivers.push(Channel::new());
    }
    (AdcVirtualized::new(drivers, grant), ids)
}

fn total_samples(d: &AdcVirtualized<Channel>) -> usize {
    d.drivers.iter().map(|c| c.samples).sum()
}

#[test]
fn request_on_free_channels_starts_at_once() {
    let (mut d, p) = driver(2, 2);
    assert_eq!(d.enqueue_command(Operation::OneSample, 1, p[0]), Ok(()));
    assert_eq!(d.current_process, Some(p[0]));
    assert_eq!(d.drivers[1].samples, 1);
    assert_eq!(d.drivers[0].samples, 0);
}

#[test]
fn request_for_a_channel_that_is_not_there() {
    let (mut d, p) = driver(2, 1);
    assert_eq!(d.enqueue_command(Operation::OneSample, 2, p[0]), Err(ErrorCode::NODEVICE));
    assert_eq!(d.current_process, None);
    assert_eq!(total_samples(&d), 0);
    assert_eq!(d.command(1, 9, 0, p[0]), CommandReturn::Failure(ErrorCode::NODEVICE));
}

#[test]
fn refused_start_returns_the_reason_and_leaves_channels_free() {
    let (mut d, p) = driver(1, 2);
    d.drivers[0].answer = Err(ErrorCode::OFF);
    assert_eq!(d.enqueue_command(Operation::OneSample, 0, p[0]), Err(ErrorCode::OFF));
    assert_eq!(d.current_process, None);
    d.drivers[0].answer = Ok(());
    assert_eq!(d.enqueue_command(Operation::OneSample, 0, p[1]), Ok(()));
    assert_eq!(d.current_process, Some(p[1]));
}

#[test]
fn request_while_owned_waits_and_touches_no_channel() {
    let (mut d, p) = driver(2, 3);
    d.enqueue_command(Operation::OneSample, 0, p[0]).unwrap();
    assert_eq!(d.enqueue_command(Operation::OneSample, 1, p[1]), Ok(()));
    assert_eq!(d.current_process, Some(p[0]));
    assert_eq!(total_samples(&d), 1);
    assert_eq!(
        d.apps.get(1),
        AppSys { pending_command: true, command: Some(Operation::OneSample), channel: 1 }
    );
}

#[test]
fn second_request_of_a_waiting_process_is_busy() {
    let (mut d, p) = driver(2, 2);
    d.enqueue_command(Operation::OneSample, 0, p[0]).unwrap();
    d.enqueue_command(Operation::OneSample, 1, p[1]).unwrap();
    assert_eq!(d.enqueue_command(Operation::OneSample, 0, p[1]), Err(ErrorCode::BUSY));
    assert_eq!(
        d.apps.get(1),
        AppSys { pending_command: true, command: Some(Operation::OneSample), channel: 1 }
    );
    assert_eq!(d.command(1, 0, 0, p[1]), CommandReturn::Failure(ErrorCode::BUSY));
    assert_eq!(total_samples(&d), 1);
}

#[test]
fn request_of_a_process_that_does_not_resolve() {
    let (mut d, p) = driver(1, 2);
    d.enqueue_command(Operation::OneSample, 0, p[0]).unwrap();
    let ghost = ProcessId::new(1, 999);
    assert_eq!(d.enqueue_command(Operation::OneSample, 0, ghost), Err(ErrorCode::INVAL));
    d.apps.terminate(1);
    assert_eq!(d.enqueue_command(Operation::OneSample, 0, p[1]), Err(ErrorCode::FAIL));
}

#[test]
fn completion_notifies_owner_and_serves_the_next() {
    let (mut d, p) = driver(2, 3);
    d.enqueue_command(Operation::OneSample, 0, p[0]).unwrap();
    d.enqueue_command(Operation::OneSample, 1, p[2]).unwrap();
    d.enqueue_command(Operation::OneSample, 0, p[1]).unwrap();
    d.sample_ready(0x123);
    assert_eq!(d.apps.records[0].pending[0], Some((0, 0, 0x123)));
    assert_eq!(d.current_process, Some(p[1]));
    assert_eq!(d.drivers[0].samples, 2);
    assert_eq!(d.drivers[1].samples, 0);
    assert!(!d.apps.get(1).pending_command);
    assert!(d.apps.get(2).pending_command);
    d.sample_ready(7);
    assert_eq!(d.apps.records[1].pending[0], Some((0, 0, 7)));
    assert_eq!(d.current_process, Some(p[2]));
    assert_eq!(d.drivers[1].samples, 1);
    d.sample_ready(9);
    assert_eq!(d.apps.records[2].pending[0], Some((0, 1, 9)));
    assert_eq!(d.current_process, None);
}

#[test]
fn waiting_request_of_a_process_that_is_gone_is_skipped() {
    let (mut d, p) = driver(1, 3);
    d.enqueue_command(Operation::OneSample, 0, p[0]).unwrap();
    d.enqueue_command(Operation::OneSample, 0, p[1]).unwrap();
    d.enqueue_command(Operation::OneSample, 0, p[2]).unwrap();
    d.apps.terminate(1);
    d.sample_ready(1);
    assert_eq!(d.current_process, Some(p[2]));
    assert_eq!(d.apps.records[1].pending[0], None);
    assert!(d.apps.records[1].region.is_none());
    assert_eq!(d.drivers[0].samples, 2);
}

#[test]
fn completion_for_an_owner_that_is_gone_is_dropped() {
    let (mut d, p) = driver(1, 2);
    d.enqueue_command(Operation::OneSample, 0, p[0]).unwrap();
    d.apps.terminate(0);
    d.sample_ready(5);
    assert_eq!(d.current_process, None);
    assert_eq!(d.apps.records[0].pending[0], None);
    assert_eq!(d.apps.records[1].pending[0], None);
}

#[test]
fn waiting_request_that_the_channel_refuses_is_dropped() {
    let (mut d, p) = driver(2, 3);
    d.enqueue_command(Operation::OneSample, 0, p[0]).unwrap();
    d.enqueue_command(Operation::OneSample, 1, p[1]).unwrap();
    d.enqueue_command(Operation::OneSample, 0, p[2]).unwrap();
    d.drivers[1].answer = Err(ErrorCode::FAIL);
    d.sample_ready(1);
    assert_eq!(d.current_process, Some(p[2]));
    assert!(!d.apps.get(1).pending_command);
    assert_eq!(d.apps.records[1].pending[0], None);
    assert_eq!(d.drivers[1].samples, 1);
}

#[test]
fn serving_while_owned_does_nothing() {
    let (mut d, p) = driver(1, 2);
    d.enqueue_command(Operation::OneSample, 0, p[0]).unwrap();
    d.enqueue_command(Operation::OneSample, 0, p[1]).unwrap();
    d.run_next_command();
    assert_eq!(d.current_process, Some(p[0]));
    assert!(d.apps.get(1).pending_command);
    assert_eq!(d.drivers[0].samples, 1);
}

#[test]
fn commands() {
    let (mut d, p) = driver(2, 1);
    assert_eq!(d.command(0, 0, 0, p[0]), CommandReturn::SuccessU32(2));
    assert_eq!(d.command(101, 1, 0, p[0]), CommandReturn::SuccessU32(12));
    assert_eq!(d.command(102, 1, 0, p[0]), CommandReturn::SuccessU32(3300));
    d.drivers[0].reference = None;
    assert_eq!(d.command(102, 0, 0, p[0]), CommandReturn::Failure(ErrorCode::NOSUPPORT));
    assert_eq!(d.command(101, 2, 0, p[0]), CommandReturn::Failure(ErrorCode::NODEVICE));
    assert_eq!(d.command(102, 2, 0, p[0]), CommandReturn::Failure(ErrorCode::NODEVICE));
    assert_eq!(d.command(77, 0, 0, p[0]), CommandReturn::Failure(ErrorCode::NOSUPPORT));
    assert_eq!(d.command(1, 0, 0, p[0]), CommandReturn::Success);
    assert_eq!(d.allocate_grant(p[0]), Ok(()));
    assert!(d.allocate_grant(ProcessId::new(0, 1)).is_err());
}
