use arbitration::capsules::pca9544a::{encode_selection, App, ControlField, State, PCA9544A};
use arbitration::kernel::errorcode::ErrorCode;
use arbitration::kernel::grant::Grant;
use arbitration::kernel::hil::i2c::{Error as I2cError, I2CDevice};
use arbitration::kernel::process::ProcessId;
use arbitration::kernel::syscall::CommandReturn;

#[derive(Debug, Clone, PartialEq)]
enum Bus {
    Enable,
    Disable,
    Write(Vec<u8>),
    Read(usize),
    WriteRead(Vec<u8>, usize),
}

struct Device {
    calls: Vec<Bus>,
    held: Option<Vec<u8>>,
    refuse: Option<I2cError>,
}

impl Device {
    fn new() -> Device {
        Device { calls: Vec::new(), held: None, refuse: None }
    }

    fn answer(&mut self, buffer: Vec<u8>) -> Result<(), (I2cError, Vec<u8>)> {
        match self.refuse {
            Some(e) => Err((e, buffer)),
            None => {
                self.held = Some(buffer);
                Ok(())
            }
        }
    }

    fn hand_back(&mut self, bytes: &[u8]) -> Vec<u8> {
        let mut buffer = self.held.take().expect("no transfer is under way");
        buffer[..bytes.len()].copy_from_slice(bytes);
        buffer
    }

    fn transfers(&self) -> Vec<Bus> {
        self.calls
            .iter()
            .filter(|c| !matches!(c, Bus::Enable | Bus::Disable))
            .cloned()
            .collect()
    }
}

impl I2CDevice for Device {
    fn switched(&self, _before: &Self, _on: bool) -> bool {
        true
    }

    fn write_read_asked(
        &self,
        _before: &Self,
        _data: Vec<u8>,
        _write_len: usize,
        _read_len: usize,
        _r: Result<(), (I2cError, Vec<u8>)>,
    ) -> bool {
        true
    }

    fn write_asked(
        &self,
        _before: &Self,
        _data: Vec<u8>,
        _len: usize,
        _r: Result<(), (I2cError, Vec<u8>)>,
    ) -> bool {
        true
    }

    fn read_asked(
        &self,
        _before: &Self,
        _buffer: Vec<u8>,
        _len: usize,
        _r: Result<(), (I2cError, Vec<u8>)>,
    ) -> bool {
        true
    }

    fn enable(&mut self) {
        self.calls.push(Bus::Enable);
    }

    fn disable(&mut self) {
        self.calls.push(Bus::Disable);
    }

    fn write_read(&mut self, data: Vec<u8>, write_len: usize, read_len: usize) -> Result<(), (I2cError, Vec<u8>)> {
        self.calls.push(Bus::WriteRead(data[..write_len].to_vec(), read_len));
        self.answer(data)
    }

    fn write(&mut self, data: Vec<u8>, len: usize) -> Result<(), (I2cError, Vec<u8>)> {
        self.calls.push(Bus::Write(data[..len].to_vec()));
        self.answer(data)
    }

    fn read(&mut self, buffer: Vec<u8>, len: usize) -> Result<(), (I2cError, Vec<u8>)> {
        self.calls.push(Bus::Read(len));
        self.answer(buffer)
    }
}

fn driver() -> (PCA9544A<Device>, ProcessId, ProcessId) {
    let mut grant: Grant<App> = Grant::new(2, 1, 0, 0);
    let a = grant.load(0, 5);
    let b = grant.load(1, 6);
    (PCA9544A::new(Device::new(), vec![0u8; 5], grant), a, b)
}

#[test]
fn selection_bytes() {
    let mut buffer = vec![0xFFu8; 5];
    assert_eq!(encode_selection(&mut buffer, 0b0000), 1);
    assert_eq!(buffer[0], 0);
    assert_eq!(encode_selection(&mut buffer, 0b0101), 3);
    assert_eq!(&buffer[..3], &[0, 4, 6]);
    assert_eq!(encode_selection(&mut buffer, 0b1111), 5);
    assert_eq!(buffer, vec![0, 4, 5, 6, 7]);
    assert_eq!(encode_selection(&mut buffer, 0b1111_1000), 2);
    assert_eq!(&buffer[..2], &[0, 7]);
}

#[test]
fn control_fields() {
    assert_eq!(ControlField::InterruptMask.extract(0b1010_0110), 0b1010);
    assert_eq!(ControlField::SelectedChannels.extract(0b1010_0110), 0b110);
    assert_eq!(ControlField::InterruptMask.into_tag(), 1);
    assert_eq!(ControlField::SelectedChannels.into_tag(), 2);
}

#[test]
fn channels_are_selected_for_the_owner() {
    let (mut d, a, b) = driver();
    assert_eq!(d.command(0, 0, 0, b), CommandReturn::Success);
    assert_eq!(d.command(1, 0b0110, 0, a), CommandReturn::Success);
    assert_eq!(d.owning_process, Some(a));
    assert_eq!(d.state, State::Done);
    assert_eq!(d.i2c.transfers(), vec![Bus::Write(vec![0, 5, 6])]);
    assert_eq!(d.command(2, 0, 0, b), CommandReturn::Failure(ErrorCode::NOMEM));
    assert_eq!(d.command(2, 0, 0, a), CommandReturn::Failure(ErrorCode::NOMEM));
    let buffer = d.i2c.hand_back(&[]);
    d.command_complete(buffer, Ok(()));
    assert_eq!(d.apps.records[0].pending[0], Some((0, 0, 0)));
    assert_eq!(d.state, State::Idle);
    assert_eq!(d.command(2, 0xFF, 0, a), CommandReturn::Success);
    assert_eq!(d.i2c.transfers()[1], Bus::Write(vec![0]));
}

#[test]
fn control_register_is_read_for_the_owner() {
    let (mut d, a, _) = driver();
    assert_eq!(d.command(3, 0, 0, a), CommandReturn::Success);
    assert_eq!(d.state, State::ReadControl(ControlField::InterruptMask));
    let buffer = d.i2c.hand_back(&[0b0101_0011]);
    d.command_complete(buffer, Ok(()));
    assert_eq!(d.apps.take_upcall(0, 0), Some((1, 0b0101, 0)));
    assert_eq!(d.command(4, 0, 0, a), CommandReturn::Success);
    let buffer = d.i2c.hand_back(&[0b0101_0011]);
    d.command_complete(buffer, Ok(()));
    assert_eq!(d.apps.take_upcall(0, 0), Some((2, 0b011, 0)));
    assert_eq!(d.i2c.transfers(), vec![Bus::Read(1), Bus::Read(1)]);
    assert_eq!(d.command(5, 0, 0, a), CommandReturn::Failure(ErrorCode::NOSUPPORT));
}

#[test]
fn multiplexer_refused_transfer_keeps_the_buffer() {
    let (mut d, a, _) = driver();
    d.i2c.refuse = Some(I2cError::AddressNak);
    assert_eq!(d.command(1, 1, 0, a), CommandReturn::Failure(ErrorCode::NOACK));
    assert_eq!(d.state, State::Idle);
    assert!(d.buffer.is_some());
    assert_eq!(d.read_interrupts(), CommandReturn::Failure(ErrorCode::NOACK));
    assert!(d.buffer.is_some());
}

#[test]
fn multiplexer_passes_to_another_process_when_its_owner_is_gone() {
    let (mut d, a, b) = driver();
    d.command(3, 0, 0, a);
    d.apps.terminate(0);
    let buffer = d.i2c.hand_back(&[0xFF]);
    d.command_complete(buffer, Ok(()));
    assert_eq!(d.apps.records[0].pending[0], None);
    assert!(d.buffer.is_some());
    assert_eq!(d.command(4, 0, 0, b), CommandReturn::Success);
    assert_eq!(d.owning_process, Some(b));
    assert_eq!(d.allocate_grant(b), Ok(()));
    let spare = d.i2c.held.take().unwrap();
    d.state = State::Idle;
    d.command_complete(spare, Ok(()));
    assert_eq!(d.apps.records[1].pending[0], None);
}
