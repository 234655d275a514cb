use arbitration::capsules::ltc294x::{
    deliver, flag_word, read_be16, App, ChipModel, Event, InterruptPinConf, LTC294XClient,
    LTC294XDriver, State, VBatAlert, LTC294X,
};
use arbitration::kernel::errorcode::ErrorCode;
use arbitration::kernel::grant::Grant;
use arbitration::kernel::hil::gpio::{InterruptEdge, InterruptPin};
use arbitration::kernel::hil::i2c::{Error as I2cError, I2CDevice};
use arbitration::kernel::process::ProcessId;
use arbitration::kernel::syscall::CommandReturn;

#[derive(Debug, Clone, PartialEq)]
enum Bus {
    Enable,
    Disable,
    Write(Vec<u8>),
    Read(usize),
    WriteRead(Vec<u8>, usize),
}

struct Device {
    calls: Vec<Bus>,
    held: Option<Vec<u8>>,
    refuse: Option<I2cError>,
}

impl Device {
    fn new() -> Device {
        Device { calls: Vec::new(), held: None, refuse: None }
    }

    fn answer(&mut self, buffer: Vec<u8>) -> Result<(), (I2cError, Vec<u8>)> {
        match self.refuse {
            Some(e) => Err((e, buffer)),
            None => {
                self.held = Some(buffer);
                Ok(())
            }
        }
    }

    fn hand_back(&mut self, bytes: &[u8]) -> Vec<u8> {
        let mut buffer = self.held.take().expect("no transfer is under way");
        buffer[..bytes.len()].copy_from_slice(bytes);
        buffer
    }

    fn transfers(&self) -> Vec<Bus> {
        self.calls
            .iter()
            .filter(|c| !matches!(c, Bus::Enable | Bus::Disable))
            .cloned()
            .collect()
    }
}

impl I2CDevice for Device {
    fn switched(&self, _before: &Self, _on: bool) -> bool {
        true
    }

    fn write_read_asked(
        &self,
        _before: &Self,
        _data: Vec<u8>,
        _write_len: usize,
        _read_len: usize,
        _r: Result<(), (I2cError, Vec<u8>)>,
    ) -> bool {
        true
    }

    fn write_asked(
        &self,
        _before: &Self,
        _data: Vec<u8>,
        _len: usize,
        _r: Result<(), (I2cError, Vec<u8>)>,
    ) -> bool {
        true
    }

    fn read_asked(
        &self,
        _before: &Self,
        _buffer: Vec<u8>,
        _len: usize,
        _r: Result<(), (I2cError, Vec<u8>)>,
    ) -> bool {
        true
    }

    fn enable(&mut self) {
        self.calls.push(Bus::Enable);
    }

    fn disable(&mut self) {
        self.calls.push(Bus::Disable);
    }

    fn write_read(&mut self, data: Vec<u8>, write_len: usize, read_len: usize) -> Result<(), (I2cError, Vec<u8>)> {
        self.calls.push(Bus::WriteRead(data[..write_len].to_vec(), read_len));
        self.answer(data)
    }

    fn write(&mut self, data: Vec<u8>, len: usize) -> Result<(), (I2cError, Vec<u8>)> {
        self.calls.push(Bus::Write(data[..len].to_vec()));
        self.answer(data)
    }

    fn read(&mut self, buffer: Vec<u8>, len: usize) -> Result<(), (I2cError, Vec<u8>)> {
        self.calls.push(Bus::Read(len));
        self.answer(buffer)
    }
}

struct Line {
    enabled: Vec<bool>,
    inputs: usize,
}

impl Line {
    fn new() -> Line {
        Line { enabled: Vec::new(), inputs: 0 }
    }
}

impl InterruptPin for Line {
    fn made_input(&self, _before: &Self) -> bool {
        true
    }

    fn interrupts_set(&self, _before: &Self, _mode: Option<InterruptEdge>) -> bool {
        true
    }

    fn make_input(&mut self) {
        self.inputs += 1;
    }

    fn enable_interrupts(&mut self, mode: InterruptEdge) {
        assert_eq!(mode, InterruptEdge::FallingEdge);
        self.enabled.push(true);
    }

    fn disable_interrupts(&mut self) {
        self.enabled.push(false);
    }
}

fn gauge() -> LTC294X<Device, Line> {
    LTC294X::new(Device::new(), Some(Line::new()), vec![0u8; 20])
}

fn driver() -> (LTC294XDriver<Device, Line>, ProcessId, ProcessId) {
    let mut grants: Grant<App> = Grant::new(2, 1, 0, 0);
    let a = grants.load(0, 5);
    let b = grants.load(1, 6);
    let mut ltc = gauge();
    ltc.set_client();
    (LTC294XDriver::new(ltc, grants), a, b)
}

#[test]
fn gauge_settings_as_bits() {
    assert_eq!(InterruptPinConf::Disabled.into_u8(), 0);
    assert_eq!(InterruptPinConf::ChargeCompleteMode.into_u8(), 1);
    assert_eq!(InterruptPinConf::AlertMode.into_u8(), 2);
    assert_eq!(InterruptPinConf::from_usize(1), InterruptPinConf::ChargeCompleteMode);
    assert_eq!(InterruptPinConf::from_usize(2), InterruptPinConf::AlertMode);
    assert_eq!(InterruptPinConf::from_usize(3), InterruptPinConf::Disabled);
    assert_eq!(InterruptPinConf::from_usize(4), InterruptPinConf::Disabled);
    assert_eq!(VBatAlert::Threshold3V0.into_u8(), 3);
    assert_eq!(VBatAlert::from_usize(0), VBatAlert::Off);
    assert_eq!(VBatAlert::from_usize(1), VBatAlert::Threshold2V8);
    assert_eq!(VBatAlert::from_usize(2), VBatAlert::Threshold2V9);
    assert_eq!(VBatAlert::from_usize(7), VBatAlert::Threshold3V0);
    assert_eq!(ChipModel::LTC2941.into_usize(), 1);
    assert_eq!(ChipModel::LTC2943.into_usize(), 3);
    assert_eq!(flag_word(true), 1);
    assert_eq!(flag_word(false), 0);
    assert_eq!(read_be16(&vec![0x12, 0x34, 0x56], 1), 0x3456);
}

#[test]
fn control_register_value() {
    assert_eq!(
        LTC294X::<Device, Line>::control(InterruptPinConf::AlertMode, 5, VBatAlert::Threshold2V9),
        (2 << 1) | (5 << 3) | (2 << 6)
    );
    assert_eq!(
        LTC294X::<Device, Line>::control(InterruptPinConf::Disabled, 0, VBatAlert::Off),
        0
    );
}

#[test]
fn client_registration_arms_the_interrupt_pin() {
    let mut g = gauge();
    assert_eq!(g.fired(), None);
    g.set_client();
    assert!(g.client);
    let pin = g.interrupt_pin.as_ref().unwrap();
    assert_eq!(pin.inputs, 1);
    assert_eq!(pin.enabled, vec![true]);
    assert_eq!(g.fired(), Some(Event::Interrupt));
    let mut bare: LTC294X<Device, Line> = LTC294X::new(Device::new(), None, vec![0u8; 16]);
    bare.set_client();
    assert!(bare.interrupt_pin.is_none());
}

#[test]
fn status_is_read_and_decoded() {
    let mut g = gauge();
    g.set_client();
    assert_eq!(g.read_status(), Ok(()));
    assert_eq!(g.state, State::ReadStatus);
    assert!(g.buffer.is_none());
    assert_eq!(g.i2c.transfers(), vec![Bus::Read(1)]);
    assert_eq!(g.read_status(), Err(ErrorCode::NOMEM));
    let buffer = g.i2c.hand_back(&[0b0010_1010]);
    let event = g.command_complete(buffer, Ok(()));
    assert_eq!(
        event,
        Some(Event::Status {
            undervolt_lockout: false,
            vbat_alert: true,
            charge_alert_low: false,
            charge_alert_high: true,
            accumulated_charge_overflow: true,
        })
    );
    assert_eq!(g.state, State::Idle);
    assert!(g.buffer.is_some());
}

#[test]
fn values_are_read_from_their_registers() {
    let mut g = gauge();
    g.set_client();
    g.set_model(3).unwrap();
    assert_eq!(g.get_charge(), Ok(()));
    let b = g.i2c.hand_back(&[0, 0, 0xAB, 0xCD]);
    assert_eq!(g.command_complete(b, Ok(())), Some(Event::Charge(0xABCD)));
    assert_eq!(g.get_voltage(), Ok(()));
    let b = g.i2c.hand_back(&[0, 0, 0, 0, 0, 0, 0, 0, 0x12, 0x34]);
    assert_eq!(g.command_complete(b, Ok(())), Some(Event::Voltage(0x1234)));
    assert_eq!(g.get_current(), Ok(()));
    let mut raw = [0u8; 16];
    raw[14] = 0x80;
    raw[15] = 0x01;
    let b = g.i2c.hand_back(&raw);
    assert_eq!(g.command_complete(b, Ok(())), Some(Event::Current(0x8001)));
    assert_eq!(g.i2c.transfers(), vec![Bus::Read(4), Bus::Read(10), Bus::Read(16)]);
}

#[test]
fn models_that_do_not_measure() {
    let mut g = gauge();
    assert_eq!(g.get_voltage(), Err(ErrorCode::NOSUPPORT));
    assert_eq!(g.get_current(), Err(ErrorCode::NOSUPPORT));
    g.set_model(2).unwrap();
    assert_eq!(g.get_current(), Err(ErrorCode::NOSUPPORT));
    assert_eq!(g.get_voltage(), Ok(()));
    assert_eq!(g.set_model(0), Err(ErrorCode::NODEVICE));
    assert_eq!(g.set_model(4), Err(ErrorCode::NODEVICE));
    assert_eq!(g.model, ChipModel::LTC2942);
}

#[test]
fn writes_carry_their_bytes() {
    let mut g = gauge();
    g.set_client();
    assert_eq!(g.configure(InterruptPinConf::ChargeCompleteMode, 3, VBatAlert::Threshold2V8), Ok(()));
    assert_eq!(g.state, State::Done);
    let b = g.i2c.hand_back(&[]);
    assert_eq!(g.command_complete(b, Ok(())), Some(Event::Done));
    g.reset_charge().unwrap();
    let b = g.i2c.hand_back(&[]);
    g.command_complete(b, Ok(()));
    g.set_high_threshold(0xBEEF).unwrap();
    let b = g.i2c.hand_back(&[]);
    g.command_complete(b, Ok(()));
    g.set_low_threshold(0x0102).unwrap();
    assert_eq!(
        g.i2c.transfers(),
        vec![
            Bus::Write(vec![0x01, (1 << 1) | (3 << 3) | (1 << 6)]),
            Bus::Write(vec![0x02, 0, 0]),
            Bus::Write(vec![0x04, 0xBE, 0xEF]),
            Bus::Write(vec![0x06, 0x01, 0x02]),
        ]
    );
}

#[test]
fn shutdown_reads_then_writes_back() {
    let mut g = gauge();
    g.set_client();
    g.shutdown().unwrap();
    assert_eq!(g.state, State::ReadShutdown);
    let b = g.i2c.hand_back(&[0x55, 0xF0]);
    assert_eq!(g.command_complete(b, Ok(())), None);
    assert_eq!(g.state, State::Done);
    assert_eq!(g.i2c.transfers(), vec![Bus::Read(2), Bus::Write(vec![0x01, 0xF1])]);
    let b = g.i2c.hand_back(&[]);
    assert_eq!(g.command_complete(b, Ok(())), Some(Event::Done));
    assert!(g.buffer.is_some());
}

#[test]
fn refused_transfer_keeps_the_buffer() {
    let mut g = gauge();
    g.i2c.refuse = Some(I2cError::AddressNak);
    assert_eq!(g.read_status(), Err(ErrorCode::NOACK));
    assert_eq!(g.state, State::Idle);
    assert!(g.buffer.is_some());
    g.i2c.refuse = Some(I2cError::Busy);
    assert_eq!(g.reset_charge(), Err(ErrorCode::BUSY));
    assert!(g.buffer.is_some());
    g.i2c.refuse = None;
    g.shutdown().unwrap();
    g.i2c.refuse = Some(I2cError::DataNak);
    let b = g.i2c.hand_back(&[0, 0]);
    assert_eq!(g.command_complete(b, Ok(())), None);
    assert_eq!(g.state, State::Idle);
    assert!(g.buffer.is_some());
}

#[test]
fn completion_without_a_client_tells_nobody() {
    let mut g = gauge();
    g.get_charge().unwrap();
    let b = g.i2c.hand_back(&[1, 2, 3, 4]);
    assert_eq!(g.command_complete(b, Ok(())), None);
    assert_eq!(g.state, State::Idle);
    assert!(g.buffer.is_some());
    let spare = vec![0u8; 16];
    assert_eq!(g.command_complete(spare, Ok(())), None);
    assert_eq!(g.buffer.value.as_ref().unwrap().len(), 20);
}

#[test]
fn process_owns_the_gauge_and_is_told_of_events() {
    let (mut d, a, b) = driver();
    assert_eq!(d.command(0, 0, 0, b), CommandReturn::Success);
    assert_eq!(d.command(10, 3, 0, a), CommandReturn::Success);
    assert_eq!(d.owning_process, Some(a));
    assert_eq!(d.command(1, 0, 0, b), CommandReturn::Failure(ErrorCode::NOMEM));
    assert_eq!(d.command(1, 0, 0, a), CommandReturn::Success);
    assert_eq!(d.command(6, 0, 0, a), CommandReturn::Failure(ErrorCode::NOMEM));
    let buffer = d.ltc294x.i2c.hand_back(&[0x01]);
    let event = d.ltc294x.command_complete(buffer, Ok(())).unwrap();
    deliver(&mut d, event);
    assert_eq!(d.grants.records[0].pending[0], Some((1, 1, 3)));
    d.grants.take_upcall(0, 0);
    d.charge(0x1234);
    assert_eq!(d.grants.take_upcall(0, 0), Some((2, 0x1234, 0)));
    d.done();
    assert_eq!(d.grants.take_upcall(0, 0), Some((3, 0, 0)));
    d.voltage(9);
    assert_eq!(d.grants.take_upcall(0, 0), Some((4, 9, 0)));
    d.current(8);
    assert_eq!(d.grants.take_upcall(0, 0), Some((5, 8, 0)));
    d.interrupt();
    assert_eq!(d.grants.take_upcall(0, 0), Some((0, 0, 0)));
    d.status(true, true, true, true, true);
    assert_eq!(d.grants.take_upcall(0, 0), Some((1, 0b11111, 3)));
    d.status(false, false, true, false, true);
    assert_eq!(d.grants.take_upcall(0, 0), Some((1, 0b10100, 3)));
}

#[test]
fn gauge_commands_reach_the_chip() {
    let (mut d, a, _) = driver();
    d.command(10, 3, 0, a);
    let expected = [
        (2usize, 0b10_101_01usize, Bus::Write(vec![0x01, (1 << 1) | (5 << 3) | (2 << 6)])),
        (3, 0, Bus::Write(vec![0x02, 0, 0])),
        (4, 0x0A0B, Bus::Write(vec![0x04, 0x0A, 0x0B])),
        (5, 0x0C0D, Bus::Write(vec![0x06, 0x0C, 0x0D])),
        (6, 0, Bus::Read(4)),
        (7, 0, Bus::Read(2)),
        (8, 0, Bus::Read(10)),
        (9, 0, Bus::Read(16)),
    ];
    for (num, data, transfer) in expected {
        let before = d.ltc294x.i2c.transfers().len();
        assert_eq!(d.command(num, data, 0, a), CommandReturn::Success);
        assert_eq!(d.ltc294x.i2c.transfers()[before], transfer);
        let b = d.ltc294x.i2c.held.take().unwrap();
        d.ltc294x.buffer.put(Some(b));
        d.ltc294x.state = State::Idle;
    }
    assert_eq!(d.command(10, 9, 0, a), CommandReturn::Failure(ErrorCode::NODEVICE));
    assert_eq!(d.command(11, 0, 0, a), CommandReturn::Failure(ErrorCode::NOSUPPORT));
    assert_eq!(d.allocate_grant(a), Ok(()));
}

#[test]
fn gauge_passes_to_another_process_when_its_owner_is_gone() {
    let (mut d, a, b) = driver();
    d.command(1, 0, 0, a);
    d.grants.terminate(0);
    let buffer = d.ltc294x.i2c.hand_back(&[0xFF]);
    let event = d.ltc294x.command_complete(buffer, Ok(())).unwrap();
    deliver(&mut d, event);
    assert_eq!(d.grants.records[0].pending[0], None);
    assert_eq!(d.grants.records[1].pending[0], None);
    assert_eq!(d.command(6, 0, 0, b), CommandReturn::Success);
    assert_eq!(d.owning_process, Some(b));
}
