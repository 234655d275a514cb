use arbitration::capsules::l3gd20::{raw_axis, scale_axis, App, L3gd20Spi, L3gd20Status};
use arbitration::kernel::errorcode::ErrorCode;
use arbitration::kernel::grant::Grant;
use arbitration::kernel::hil::sensors::TemperatureDriver;
use arbitration::kernel::hil::spi::{ClockPhase, ClockPolarity, SpiMasterDevice};
use arbitration::kernel::process::ProcessId;
use arbitration::kernel::syscall::CommandReturn;

#[derive(Debug, Clone, PartialEq)]
enum Transfer {
    Configure(ClockPolarity, ClockPhase, u32),
    Bytes(Vec<u8>, bool),
}

struct SpiDevice {
    calls: Vec<Transfer>,
    held: Option<(Vec<u8>, Option<Vec<u8>>)>,
    refuse: Option<ErrorCode>,
    refuse_configure: Option<ErrorCode>,
}

impl SpiDevice {
    fn new() -> SpiDevice {
        SpiDevice { calls: Vec::new(), held: None, refuse: None, refuse_configure: None }
    }

    fn hand_back(&mut self, read: &[u8]) -> (Vec<u8>, Option<Vec<u8>>) {
        let (tx, rx) = self.held.take().expect("no transfer is under way");
        let rx = rx.map(|mut b| {
            b[..read.len()].copy_from_slice(read);
            b
        });
        (tx, rx)
    }

    fn transfers(&self) -> Vec<Transfer> {
        self.calls.iter().filter(|c| matches!(c, Transfer::Bytes(..))).cloned().collect()
    }
}

impl SpiMasterDevice for SpiDevice {
    fn configured(
        &self,
        _before: &Self,
        _cpol: ClockPolarity,
        _cpal: ClockPhase,
        _rate: u32,
        _r: Result<(), ErrorCode>,
    ) -> bool {
        true
    }

    fn transferred(
        &self,
        _before: &Self,
        _write_buffer: Vec<u8>,
        _read_buffer: Option<Vec<u8>>,
        _len: usize,
        _r: Result<(), (ErrorCode, Vec<u8>, Option<Vec<u8>>)>,
    ) -> bool {
        true
    }

    fn configure(&mut self, cpol: ClockPolarity, cpal: ClockPhase, rate: u32) -> Result<(), ErrorCode> {
        self.calls.push(Transfer::Configure(cpol, cpal, rate));
        match self.refuse_configure {
            Some(e) => Err(e),
            None => Ok(()),
        }
    }

    fn read_write_bytes(
        &mut self,
        write_buffer: Vec<u8>,
        read_buffer: Option<Vec<u8>>,
        len: usize,
    ) -> Result<(), (ErrorCode, Vec<u8>, Option<Vec<u8>>)> {
        self.calls.push(Transfer::Bytes(write_buffer[..len].to_vec(), read_buffer.is_some()));
        match self.refuse {
            Some(e) => Err((e, write_buffer, read_buffer)),
            None => {
                self.held = Some((write_buffer, read_buffer));
                Ok(())
            }
        }
    }
}

fn driver() -> (L3gd20Spi<SpiDevice>, ProcessId, ProcessId) {
    let mut grants: Grant<App> = Grant::new(2, 1, 0, 0);
    let a = grants.load(0, 5);
    let b = grants.load(1, 6);
    let mut d = L3gd20Spi::new(SpiDevice::new(), vec![0xEEu8; 10], vec![0u8; 10], grants);
    d.set_nine_dof_client();
    d.set_temperature_client();
    (d, a, b)
}

fn neg(v: isize) -> usize {
    v as usize
}

#[test]
fn rotation_from_raw_values() {
    assert_eq!(raw_axis(0x34, 0x12), 0x1234);
    assert_eq!(raw_axis(0xFF, 0xFF), neg(-1));
    assert_eq!(raw_axis(0x00, 0x80), neg(-32768));
    assert_eq!(scale_axis(0x10, 0x27, 0), 87);
    assert_eq!(scale_axis(0x10, 0x27, 1), 175);
    assert_eq!(scale_axis(0x10, 0x27, 2), 700);
    assert_eq!(scale_axis(0x10, 0x27, 9), 700);
    assert_eq!(scale_axis(0xF0, 0xD8, 0), neg(-87));
    assert_eq!(scale_axis(0x01, 0x00, 0), 0);
    assert_eq!(scale_axis(0xFF, 0xFF, 0), 0);
}

#[test]
fn gyroscope_requests_carry_their_bytes() {
    let rows: Vec<(usize, usize, usize, Vec<u8>, bool, L3gd20Status)> = vec![
        (1, 0, 0, vec![0x8F, 0x00], true, L3gd20Status::IsPresent),
        (2, 0, 0, vec![0x20, 0x0F], false, L3gd20Status::PowerOn),
        (3, 2, 0, vec![0x23, 0x20], false, L3gd20Status::SetScale),
        (4, 3, 0xFF, vec![0x21, 0x3F], false, L3gd20Status::SetHpfParameters),
        (5, 1, 0, vec![0x24, 0x10], false, L3gd20Status::EnableHpf),
        (5, 0, 0, vec![0x24, 0x00], false, L3gd20Status::EnableHpf),
        (6, 0, 0, vec![0xE8, 0, 0, 0, 0, 0, 0], true, L3gd20Status::ReadXYZ),
        (7, 0, 0, vec![0xA6, 0x00], true, L3gd20Status::ReadTemperature),
    ];
    for (num, d1, d2, bytes, reads, status) in rows {
        let (mut d, a, _) = driver();
        assert_eq!(d.command(num, d1, d2, a), CommandReturn::Success);
        assert_eq!(d.status, status);
        assert_eq!(d.spi.transfers(), vec![Transfer::Bytes(bytes, reads)]);
        assert_eq!(d.rxbuffer.is_none(), reads);
        assert!(d.txbuffer.is_none());
    }
}

#[test]
fn settings_are_remembered() {
    let (mut d, a, _) = driver();
    d.command(3, 1, 0, a);
    assert_eq!(d.scale, 1);
    let (tx, rx) = d.spi.hand_back(&[]);
    d.read_write_done(tx, rx, 2, Ok(()));
    d.command(4, 2, 7, a);
    assert_eq!((d.hpf_mode, d.hpf_divider), (2, 7));
    let (tx, rx) = d.spi.hand_back(&[]);
    d.read_write_done(tx, rx, 2, Ok(()));
    d.command(5, 1, 0, a);
    assert!(d.hpf_enabled);
    assert_eq!(d.configure(), Ok(()));
    assert_eq!(
        d.spi.calls.last(),
        Some(&Transfer::Configure(ClockPolarity::IdleHigh, ClockPhase::SampleTrailing, 1_000_000))
    );
}

#[test]
fn gyroscope_is_busy_while_a_transfer_runs() {
    let (mut d, a, b) = driver();
    assert_eq!(d.command(0, 0, 0, b), CommandReturn::Success);
    assert_eq!(d.command(6, 0, 0, a), CommandReturn::Success);
    assert_eq!(d.command(7, 0, 0, a), CommandReturn::Failure(ErrorCode::BUSY));
    assert_eq!(d.command(7, 0, 0, b), CommandReturn::Failure(ErrorCode::RESERVE));
    assert_eq!(d.read_gyroscope(), Err(ErrorCode::BUSY));
    assert_eq!(TemperatureDriver::read_temperature(&mut d), Err(ErrorCode::BUSY));
    assert_eq!(d.command(8, 0, 0, a), CommandReturn::Failure(ErrorCode::NOSUPPORT));
    assert_eq!(d.spi.transfers().len(), 1);
}

#[test]
fn rotation_is_reported_to_owner_and_client() {
    let (mut d, a, _) = driver();
    d.command(3, 2, 0, a);
    let (tx, rx) = d.spi.hand_back(&[]);
    let r = d.read_write_done(tx, rx, 2, Ok(()));
    assert!(r.nine_dof.is_none() && r.temperature.is_none());
    assert_eq!(d.grants.take_upcall(0, 0), Some((0, 0, 0)));
    d.command(6, 0, 0, a);
    let (tx, rx) = d.spi.hand_back(&[0, 0x10, 0x27, 0xF0, 0xD8, 0x00, 0x00]);
    let r = d.read_write_done(tx, rx, 7, Ok(()));
    assert_eq!(r.nine_dof, Some((700, neg(-700), 0)));
    assert_eq!(d.grants.take_upcall(0, 0), Some((10000, neg(-10000), 0)));
    assert_eq!(d.status, L3gd20Status::Idle);
    assert!(d.txbuffer.is_some() && d.rxbuffer.is_some());
}

#[test]
fn short_transfers_report_zeros() {
    let (mut d, a, _) = driver();
    d.command(6, 0, 0, a);
    let (tx, rx) = d.spi.hand_back(&[0, 1, 1, 1, 1, 1, 1]);
    let r = d.read_write_done(tx, rx, 6, Ok(()));
    assert_eq!(r.nine_dof, Some((0, 0, 0)));
    assert_eq!(d.grants.take_upcall(0, 0), Some((0, 0, 0)));
    d.command(7, 0, 0, a);
    let (tx, rx) = d.spi.hand_back(&[0, 25]);
    let r = d.read_write_done(tx, rx, 1, Ok(()));
    assert_eq!(r.temperature, Some(Err(ErrorCode::FAIL)));
    assert_eq!(d.grants.take_upcall(0, 0), Some((0, 0, 0)));
}

#[test]
fn gyroscope_temperature_and_presence() {
    let (mut d, a, _) = driver();
    d.command(7, 0, 0, a);
    let (tx, rx) = d.spi.hand_back(&[0, 25]);
    let r = d.read_write_done(tx, rx, 2, Ok(()));
    assert_eq!(r.temperature, Some(Ok(2500)));
    assert_eq!(d.grants.take_upcall(0, 0), Some((25, 0, 0)));
    d.command(1, 0, 0, a);
    let (tx, rx) = d.spi.hand_back(&[0, 0xD4]);
    d.read_write_done(tx, rx, 2, Ok(()));
    assert_eq!(d.grants.take_upcall(0, 0), Some((1, 1, 0)));
    d.command(1, 0, 0, a);
    let (tx, rx) = d.spi.hand_back(&[0, 0xD3]);
    d.read_write_done(tx, rx, 2, Ok(()));
    assert_eq!(d.grants.take_upcall(0, 0), Some((1, 0, 0)));
}

#[test]
fn gyroscope_goes_idle_even_if_its_owner_is_gone() {
    let (mut d, a, b) = driver();
    d.command(6, 0, 0, a);
    d.grants.terminate(0);
    let (tx, rx) = d.spi.hand_back(&[0, 1, 2, 3, 4, 5, 6]);
    let r = d.read_write_done(tx, rx, 7, Ok(()));
    assert!(r.nine_dof.is_none());
    assert_eq!(d.status, L3gd20Status::Idle);
    assert!(d.txbuffer.is_some() && d.rxbuffer.is_some());
    assert_eq!(d.grants.records[0].pending[0], None);
    assert_eq!(d.command(2, 0, 0, b), CommandReturn::Success);
    assert_eq!(d.current_process, Some(b));
    assert_eq!(d.allocate_grant(b), Ok(()));
}

#[test]
fn gyroscope_refused_transfer_keeps_the_buffers() {
    let (mut d, a, _) = driver();
    d.spi.refuse = Some(ErrorCode::OFF);
    assert_eq!(d.command(6, 0, 0, a), CommandReturn::Failure(ErrorCode::OFF));
    assert_eq!(d.status, L3gd20Status::Idle);
    assert!(d.txbuffer.is_some() && d.rxbuffer.is_some());
    d.txbuffer.take();
    assert_eq!(d.power_on(), Err(ErrorCode::NOMEM));
    assert_eq!(d.is_present(), Err(ErrorCode::NOMEM));
}
