use arbitration::capsules::humidity::{App as HumidityApp, HumidityCommand, HumiditySensor};
use arbitration::capsules::usb::usb_user::{App as UsbApp, Request, UsbSyscallDriver};
use arbitration::kernel::errorcode::ErrorCode;
use arbitration::kernel::grant::Grant;
use arbitration::kernel::hil::sensors::HumidityDriver;
use arbitration::kernel::hil::usb::Client;
use arbitration::kernel::process::ProcessId;
use arbitration::kernel::syscall::CommandReturn;

struct Controller {
    calls: Vec<&'static str>,
}

impl Client for Controller {
    fn enabled(&self, _before: &Self) -> bool {
        true
    }

    fn attached(&self, _before: &Self) -> bool {
        true
    }

    fn enable(&mut self) {
        self.calls.push("enable");
    }

    fn attach(&mut self) {
        self.calls.push("attach");
    }
}

struct Sensor {
    reads: usize,
    answer: Result<(), ErrorCode>,
}

impl HumidityDriver for Sensor {
    fn humidity_asked(&self, _before: &Self, _r: Result<(), ErrorCode>) -> bool {
        true
    }

    fn ready(&self) -> bool {
        true
    }

    fn read_humidity(&mut self) -> Result<(), ErrorCode> {
        self.reads += 1;
        self.answer
    }
}

fn usb(processes: usize) -> (UsbSyscallDriver<Controller>, Vec<ProcessId>) {
    let mut grant: Grant<UsbApp> = Grant::new(processes, 1, 0, 0);
    let ids = (0..processes).map(|i| grant.load(i, 30 + i)).collect();
    (UsbSyscallDriver::new(Controller { calls: Vec::new() }, grant), ids)
}

fn humidity(processes: usize) -> (HumiditySensor<Sensor>, Vec<ProcessId>) {
    let mut grant: Grant<HumidityApp> = Grant::new(processes, 1, 0, 0);
    let ids = (0..processes).map(|i| grant.load(i, 40 + i)).collect();
    (HumiditySensor::new(Sensor { reads: 0, answer: Ok(()) }, grant), ids)
}

#[test]
fn usb_request_is_served_at_once() {
    let (mut d, p) = usb(2);
    assert_eq!(d.command(0, 0, 0, p[0]), CommandReturn::Success);
    assert_eq!(d.command(1, 0, 0, p[1]), CommandReturn::Success);
    assert_eq!(d.usbc_client.calls, vec!["enable", "attach"]);
    assert_eq!(d.apps.records[1].pending[0], Some((0, 0, 0)));
    assert_eq!(d.apps.get(1).awaiting, None);
    assert_eq!(d.command(2, 0, 0, p[0]), CommandReturn::Failure(ErrorCode::NOSUPPORT));
}

#[test]
fn usb_request_waits_while_a_process_is_served() {
    let (mut d, p) = usb(3);
    d.serving_app = Some(p[0]);
    assert_eq!(d.command(1, 0, 0, p[2]), CommandReturn::Success);
    assert_eq!(d.command(1, 0, 0, p[1]), CommandReturn::Success);
    assert!(d.usbc_client.calls.is_empty());
    assert_eq!(d.apps.get(2).awaiting, Some(Request::EnableAndAttach));
    assert_eq!(d.command(1, 0, 0, p[2]), CommandReturn::Failure(ErrorCode::BUSY));
    d.serving_app = None;
    d.serve_waiting_apps();
    assert_eq!(d.apps.get(1).awaiting, None);
    assert_eq!(d.apps.records[1].pending[0], Some((0, 0, 0)));
    assert_eq!(d.apps.get(2).awaiting, Some(Request::EnableAndAttach));
    d.serve_waiting_apps();
    assert_eq!(d.apps.get(2).awaiting, None);
    d.serve_waiting_apps();
    assert_eq!(d.usbc_client.calls.len(), 4);
}

#[test]
fn usb_request_of_a_process_that_does_not_resolve() {
    let (mut d, p) = usb(2);
    assert_eq!(
        d.command(1, 0, 0, ProcessId::new(1, 1)),
        CommandReturn::Failure(ErrorCode::INVAL)
    );
    d.apps.terminate(0);
    assert_eq!(d.command(1, 0, 0, p[0]), CommandReturn::Failure(ErrorCode::FAIL));
    assert!(d.allocate_grant(p[0]).is_err());
    assert_eq!(d.allocate_grant(p[1]), Ok(()));
}

#[test]
fn usb_waiting_process_that_is_gone_is_skipped() {
    let (mut d, p) = usb(2);
    d.serving_app = Some(p[0]);
    d.command(1, 0, 0, p[0]);
    d.command(1, 0, 0, p[1]);
    d.serving_app = None;
    d.apps.terminate(0);
    d.serve_waiting_apps();
    assert_eq!(d.apps.records[0].pending[0], None);
    assert_eq!(d.apps.records[1].pending[0], Some((0, 0, 0)));
}

#[test]
fn one_measurement_serves_all_who_asked() {
    let (mut d, p) = humidity(3);
    assert_eq!(d.command(0, 0, 0, p[0]), CommandReturn::Success);
    assert_eq!(d.command(1, 0, 0, p[0]), CommandReturn::Success);
    assert!(d.busy);
    assert_eq!(d.command(1, 0, 0, p[2]), CommandReturn::Success);
    assert_eq!(d.driver.reads, 1);
    d.callback(4321);
    assert!(!d.busy);
    assert_eq!(d.apps.records[0].pending[0], Some((4321, 0, 0)));
    assert_eq!(d.apps.records[2].pending[0], Some((4321, 0, 0)));
    assert_eq!(d.apps.records[1].pending[0], None);
    assert!(!d.apps.get(0).subscribed);
    d.apps.take_upcall(0, 0);
    d.callback(1);
    assert_eq!(d.apps.records[0].pending[0], None);
}

#[test]
fn humidity_of_a_process_that_is_gone_is_not_reported() {
    let (mut d, p) = humidity(2);
    d.command(1, 0, 0, p[0]);
    d.command(1, 0, 0, p[1]);
    d.apps.terminate(0);
    d.callback(50);
    assert_eq!(d.apps.records[0].pending[0], None);
    assert_eq!(d.apps.records[1].pending[0], Some((50, 0, 0)));
}

#[test]
fn refused_measurement_leaves_the_sensor_idle() {
    let (mut d, p) = humidity(1);
    d.driver.answer = Err(ErrorCode::NOACK);
    assert_eq!(d.command(1, 0, 0, p[0]), CommandReturn::Failure(ErrorCode::NOACK));
    assert!(!d.busy);
    assert!(d.apps.get(0).subscribed);
    d.driver.answer = Ok(());
    assert_eq!(d.command(1, 0, 0, p[0]), CommandReturn::Success);
    assert!(d.busy);
}

#[test]
fn humidity_other_commands() {
    let (mut d, p) = humidity(1);
    assert_eq!(d.command(2, 0, 0, p[0]), CommandReturn::Failure(ErrorCode::NOSUPPORT));
    assert_eq!(
        d.command(1, 0, 0, ProcessId::new(0, 1)),
        CommandReturn::Failure(ErrorCode::INVAL)
    );
    assert_eq!(
        d.enqueue_command(HumidityCommand::Exists, 0, p[0]),
        CommandReturn::Failure(ErrorCode::NOSUPPORT)
    );
    assert!(!d.busy);
    assert_eq!(
        d.call_driver(HumidityCommand::Exists, 0),
        CommandReturn::Failure(ErrorCode::NOSUPPORT)
    );
    assert_eq!(d.driver.reads, 0);
    assert_eq!(d.allocate_grant(p[0]), Ok(()));
}
