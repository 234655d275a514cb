use arbitration::capsules::mlx90614::{temperature, App, Mlx90614SMBus, State};
use arbitration::kernel::errorcode::ErrorCode;
use arbitration::kernel::grant::Grant;
use arbitration::kernel::hil::i2c::{Error as I2cError, I2CDevice, SMBusDevice};
use arbitration::kernel::hil::sensors::TemperatureDriver;
use arbitration::kernel::process::ProcessId;
use arbitration::kernel::syscall::CommandReturn;

#[derive(Debug, Clone, PartialEq)]
enum Bus {
    Enable,
    Disable,
    Write(Vec<u8>),
    Read(usize),
    WriteRead(Vec<u8>, usize),
}

struct Device {
    calls: Vec<Bus>,
    held: Option<Vec<u8>>,
    refuse: Option<I2cError>,
}

impl Device {
    fn new() -> Device {
        Device { calls: Vec::new(), held: None, refuse: None }
    }

    fn answer(&mut self, buffer: Vec<u8>) -> Result<(), (I2cError, Vec<u8>)> {
        match self.refuse {
            Some(e) => Err((e, buffer)),
            None => {
                self.held = Some(buffer);
                Ok(())
            }
        }
    }

    fn hand_back(&mut self, bytes: &[u8]) -> Vec<u8> {
        let mut buffer = self.held.take().expect("no transfer is under way");
        buffer[..bytes.len()].copy_from_slice(bytes);
        buffer
    }

    fn transfers(&self) -> Vec<Bus> {
        self.calls
            .iter()
            .filter(|c| !matches!(c, Bus::Enable | Bus::Disable))
            .cloned()
            .collect()
    }
}

impl I2CDevice for Device {
    fn switched(&self, _before: &Self, _on: bool) -> bool {
        true
    }

    fn write_read_asked(
        &self,
        _before: &Self,
        _data: Vec<u8>,
        _write_len: usize,
        _read_len: usize,
        _r: Result<(), (I2cError, Vec<u8>)>,
    ) -> bool {
        true
    }

    fn write_asked(
        &self,
        _before: &Self,
        _data: Vec<u8>,
        _len: usize,
        _r: Result<(), (I2cError, Vec<u8>)>,
    ) -> bool {
        true
    }

    fn read_asked(
        &self,
        _before: &Self,
        _buffer: Vec<u8>,
        _len: usize,
        _r: Result<(), (I2cError, Vec<u8>)>,
    ) -> bool {
        true
    }

    fn enable(&mut self) {
        self.calls.push(Bus::Enable);
    }

    fn disable(&mut self) {
        self.calls.push(Bus::Disable);
    }

    fn write_read(&mut self, data: Vec<u8>, write_len: usize, read_len: usize) -> Result<(), (I2cError, Vec<u8>)> {
        self.calls.push(Bus::WriteRead(data[..write_len].to_vec(), read_len));
        self.answer(data)
    }

    fn write(&mut self, data: Vec<u8>, len: usize) -> Result<(), (I2cError, Vec<u8>)> {
        self.calls.push(Bus::Write(data[..len].to_vec()));
        self.answer(data)
    }

    fn read(&mut self, buffer: Vec<u8>, len: usize) -> Result<(), (I2cError, Vec<u8>)> {
        self.calls.push(Bus::Read(len));
        self.answer(buffer)
    }
}

impl SMBusDevice for Device {
    fn smbus_write_read_asked(
        &self,
        _before: &Self,
        _data: Vec<u8>,
        _write_len: usize,
        _read_len: usize,
        _r: Result<(), (I2cError, Vec<u8>)>,
    ) -> bool {
        true
    }

    fn smbus_write_asked(
        &self,
        _before: &Self,
        _data: Vec<u8>,
        _len: usize,
        _r: Result<(), (I2cError, Vec<u8>)>,
    ) -> bool {
        true
    }

    fn smbus_read_asked(
        &self,
        _before: &Self,
        _buffer: Vec<u8>,
        _len: usize,
        _r: Result<(), (I2cError, Vec<u8>)>,
    ) -> bool {
        true
    }

    fn smbus_write_read(&mut self, data: Vec<u8>, write_len: usize, read_len: usize) -> Result<(), (I2cError, Vec<u8>)> {
        self.write_read(data, write_len, read_len)
    }

    fn smbus_write(&mut self, data: Vec<u8>, len: usize) -> Result<(), (I2cError, Vec<u8>)> {
        self.write(data, len)
    }

    fn smbus_read(&mut self, buffer: Vec<u8>, len: usize) -> Result<(), (I2cError, Vec<u8>)> {
        self.read(buffer, len)
    }
}

fn driver() -> (Mlx90614SMBus<Device>, ProcessId, ProcessId) {
    let mut grant: Grant<App> = Grant::new(2, 1, 0, 0);
    let a = grant.load(0, 5);
    let b = grant.load(1, 6);
    let mut d = Mlx90614SMBus::new(Device::new(), vec![0u8; 2], grant);
    d.set_client();
    (d, a, b)
}

#[test]
fn kelvin_fiftieths_to_centi_celsius() {
    assert_eq!(temperature(0x00, 0x00), -27300);
    assert_eq!(temperature(0x52, 0x35), (0x3552 * 2) - 27300);
    assert_eq!(temperature(0x52, 0x35), 0);
    assert_eq!(temperature(0xDE, 0x39), 2328);
    assert_eq!(temperature(0xFF, 0xFF), 103770);
}

#[test]
fn presence_is_reported_to_the_owner() {
    let (mut d, a, b) = driver();
    assert_eq!(d.command(0, 0, 0, b), CommandReturn::Success);
    assert_eq!(d.command(1, 0, 0, a), CommandReturn::Success);
    assert_eq!(d.state, State::IsPresent);
    assert_eq!(d.smbus_temp.transfers(), vec![Bus::WriteRead(vec![0x04], 1)]);
    assert_eq!(d.command(2, 0, 0, a), CommandReturn::Failure(ErrorCode::BUSY));
    assert_eq!(d.command(2, 0, 0, b), CommandReturn::Failure(ErrorCode::NOMEM));
    let buffer = d.smbus_temp.hand_back(&[60]);
    assert_eq!(d.command_complete(buffer, Ok(())), None);
    assert_eq!(d.apps.take_upcall(0, 0), Some((1, 0, 0)));
    d.command(1, 0, 0, a);
    let buffer = d.smbus_temp.hand_back(&[61]);
    d.command_complete(buffer, Ok(()));
    assert_eq!(d.apps.take_upcall(0, 0), Some((0, 0, 0)));
    d.command(1, 0, 0, a);
    let buffer = d.smbus_temp.hand_back(&[60]);
    d.command_complete(buffer, Err(I2cError::DataNak));
    assert_eq!(d.apps.take_upcall(0, 0), Some((0, 0, 0)));
}

#[test]
fn temperatures_are_reported_to_owner_and_client() {
    let (mut d, a, _) = driver();
    assert_eq!(d.command(2, 0, 0, a), CommandReturn::Success);
    assert_eq!(d.state, State::ReadAmbientTemp);
    let buffer = d.smbus_temp.hand_back(&[0xDE, 0x39]);
    assert_eq!(d.command_complete(buffer, Ok(())), Some(Ok(2328)));
    assert_eq!(d.apps.take_upcall(0, 0), Some((2328, 0, 0)));
    assert_eq!(d.command(3, 0, 0, a), CommandReturn::Success);
    assert_eq!(d.state, State::ReadObjTemp);
    let buffer = d.smbus_temp.hand_back(&[0x00, 0x35]);
    assert_eq!(d.command_complete(buffer, Ok(())), Some(Ok(-164)));
    assert_eq!(d.apps.take_upcall(0, 0), Some(((-164isize) as usize, 0, 0)));
    assert_eq!(
        d.smbus_temp.transfers(),
        vec![Bus::WriteRead(vec![0x06], 1), Bus::WriteRead(vec![0x07], 2)]
    );
    assert_eq!(d.read_temperature(), Ok(()));
    let buffer = d.smbus_temp.hand_back(&[0, 0]);
    assert_eq!(
        d.command_complete(buffer, Err(I2cError::Overrun)),
        Some(Err(ErrorCode::SIZE))
    );
    assert_eq!(d.apps.take_upcall(0, 0), Some((0, 0, 0)));
    assert_eq!(d.command(4, 0, 0, a), CommandReturn::Failure(ErrorCode::NOSUPPORT));
}

#[test]
fn thermometer_refused_transfer_keeps_the_buffer() {
    let (mut d, a, _) = driver();
    d.smbus_temp.refuse = Some(I2cError::Busy);
    assert_eq!(d.command(3, 0, 0, a), CommandReturn::Failure(ErrorCode::BUSY));
    assert_eq!(d.state, State::Idle);
    assert!(d.buffer.is_some());
    d.buffer.take();
    assert_eq!(d.is_present(), Err(ErrorCode::NOMEM));
    assert_eq!(d.read_ambient_temperature(), Err(ErrorCode::NOMEM));
    assert_eq!(d.state, State::Idle);
}

#[test]
fn thermometer_owner_that_is_gone_is_told_nothing() {
    let (mut d, a, b) = driver();
    d.command(2, 0, 0, a);
    d.apps.terminate(0);
    let buffer = d.smbus_temp.hand_back(&[0xDE, 0x39]);
    assert_eq!(d.command_complete(buffer, Ok(())), Some(Ok(2328)));
    assert_eq!(d.apps.records[0].pending[0], None);
    assert!(d.buffer.is_some());
    assert_eq!(d.command(1, 0, 0, b), CommandReturn::Success);
    assert_eq!(d.allocate_grant(b), Ok(()));
    let spare = d.smbus_temp.held.take().unwrap();
    d.state = State::Idle;
    assert_eq!(d.command_complete(spare, Ok(())), None);
}
