use arbitration::capsules::isl29035::{lux, Isl29035, State};
use arbitration::kernel::errorcode::ErrorCode;
use arbitration::kernel::hil::i2c::{Error as I2cError, I2CDevice};
use arbitration::kernel::hil::sensors::AmbientLight;
use arbitration::kernel::hil::time::Alarm;

#[derive(Debug, Clone, PartialEq)]
enum Bus {
    Enable,
    Disable,
    Write(Vec<u8>),
    Read(usize),
    WriteRead(Vec<u8>, usize),
}

struct Device {
    calls: Vec<Bus>,
    held: Option<Vec<u8>>,
    refuse: Option<I2cError>,
}

impl Device {
    fn new() -> Device {
        Device { calls: Vec::new(), held: None, refuse: None }
    }

    fn answer(&mut self, buffer: Vec<u8>) -> Result<(), (I2cError, Vec<u8>)> {
        match self.refuse {
            Some(e) => Err((e, buffer)),
            None => {
                self.held = Some(buffer);
                Ok(())
            }
        }
    }

    fn hand_back(&mut self, bytes: &[u8]) -> Vec<u8> {
        let mut buffer = self.held.take().expect("no transfer is under way");
        buffer[..bytes.len()].copy_from_slice(bytes);
        buffer
    }

    fn transfers(&self) -> Vec<Bus> {
        self.calls
            .iter()
            .filter(|c| !matches!(c, Bus::Enable | Bus::Disable))
            .cloned()
            .collect()
    }
}

impl I2CDevice for Device {
    fn switched(&self, _before: &Self, _on: bool) -> bool {
        true
    }

    fn write_read_asked(
        &self,
        _before: &Self,
        _data: Vec<u8>,
        _write_len: usize,
        _read_len: usize,
        _r: Result<(), (I2cError, Vec<u8>)>,
    ) -> bool {
        true
    }

    fn write_asked(
        &self,
        _before: &Self,
        _data: Vec<u8>,
        _len: usize,
        _r: Result<(), (I2cError, Vec<u8>)>,
    ) -> bool {
        true
    }

    fn read_asked(
        &self,
        _before: &Self,
        _buffer: Vec<u8>,
        _len: usize,
        _r: Result<(), (I2cError, Vec<u8>)>,
    ) -> bool {
        true
    }

    fn enable(&mut self) {
        self.calls.push(Bus::Enable);
    }

    fn disable(&mut self) {
        self.calls.push(Bus::Disable);
    }

    fn write_read(&mut self, data: Vec<u8>, write_len: usize, read_len: usize) -> Result<(), (I2cError, Vec<u8>)> {
        self.calls.push(Bus::WriteRead(data[..write_len].to_vec(), read_len));
        self.answer(data)
    }

    fn write(&mut self, data: Vec<u8>, len: usize) -> Result<(), (I2cError, Vec<u8>)> {
        self.calls.push(Bus::Write(data[..len].to_vec()));
        self.answer(data)
    }

    fn read(&mut self, buffer: Vec<u8>, len: usize) -> Result<(), (I2cError, Vec<u8>)> {
        self.calls.push(Bus::Read(len));
        self.answer(buffer)
    }
}

struct Clock {
    now: u32,
    set: Vec<(u32, u32)>,
}

impl Clock {
    fn new() -> Clock {
        Clock { now: 1000, set: Vec::new() }
    }
}

impl Alarm for Clock {
    fn rate(&self) -> u32 {
        self.frequency()
    }

    fn time(&self) -> u32 {
        self.now()
    }

    fn ticks_us(&self, us: u32) -> u32 {
        self.ticks_from_us(us)
    }

    fn ticks_ms(&self, ms: u32) -> u32 {
        self.ticks_from_ms(ms)
    }

    fn armed(&self, _before: &Self, _reference: u32, _dt: u32) -> bool {
        true
    }

    fn frequency(&self) -> u32 {
        16_000
    }

    fn now(&self) -> u32 {
        self.now
    }

    fn set_alarm(&mut self, reference: u32, dt: u32) {
        self.set.push((reference, dt));
    }

    fn ticks_from_us(&self, us: u32) -> u32 {
        us * 16 / 1000
    }

    fn ticks_from_ms(&self, ms: u32) -> u32 {
        ms * 16
    }
}

fn sensor() -> Isl29035<Device, Clock> {
    let mut s = Isl29035::new(Device::new(), Clock::new(), vec![0u8; 3]);
    s.set_client();
    s
}

#[test]
fn lux_from_the_raw_byte() {
    assert_eq!(lux(0), 0);
    assert_eq!(lux(1), 15);
    assert_eq!(lux(128), 2000);
    assert_eq!(lux(255), 3984);
}

#[test]
fn a_reading_takes_four_steps() {
    let mut s = sensor();
    assert_eq!(s.read_light_intensity(), Ok(()));
    assert_eq!(s.state, State::Enabling);
    assert_eq!(s.i2c.transfers(), vec![Bus::Write(vec![0, 0b1010_0000, 0b0000_1001])]);
    assert_eq!(s.start_read_lux(), Err(ErrorCode::BUSY));

    let b = s.i2c.hand_back(&[]);
    assert_eq!(s.command_complete(b, Ok(())), None);
    assert_eq!(s.state, State::Integrating);
    assert_eq!(s.alarm.set, vec![(1000, 410 * 16 / 1000)]);
    assert!(s.buffer.is_some());

    assert_eq!(s.alarm(), None);
    assert_eq!(s.state, State::ReadingLI);
    assert_eq!(s.i2c.transfers()[1], Bus::WriteRead(vec![0x02], 2));

    let b = s.i2c.hand_back(&[64, 0]);
    assert_eq!(s.command_complete(b, Ok(())), None);
    assert_eq!(s.state, State::Disabling(1000));
    assert_eq!(s.i2c.transfers()[2], Bus::Write(vec![0, 0]));

    let b = s.i2c.hand_back(&[]);
    assert_eq!(s.command_complete(b, Ok(())), Some(1000));
    assert_eq!(s.state, State::Disabled);
    assert!(s.buffer.is_some());
    assert_eq!(s.i2c.calls.last(), Some(&Bus::Disable));
}

#[test]
fn failed_step_reports_zero() {
    let mut s = sensor();
    s.start_read_lux().unwrap();
    let b = s.i2c.hand_back(&[]);
    assert_eq!(s.command_complete(b, Err(I2cError::DataNak)), Some(0));
    assert_eq!(s.state, State::Disabled);
    assert!(s.buffer.is_some());

    s.start_read_lux().unwrap();
    let b = s.i2c.hand_back(&[]);
    s.command_complete(b, Ok(()));
    s.i2c.refuse = Some(I2cError::Busy);
    assert_eq!(s.alarm(), Some(0));
    assert_eq!(s.state, State::Disabled);
    assert!(s.buffer.is_some());
}

#[test]
fn refused_start_leaves_the_sensor_disabled() {
    let mut s = sensor();
    s.i2c.refuse = Some(I2cError::ArbitrationLost);
    assert_eq!(s.start_read_lux(), Err(ErrorCode::RESERVE));
    assert_eq!(s.state, State::Disabled);
    assert!(s.buffer.is_some());
    s.buffer.take();
    assert_eq!(s.start_read_lux(), Err(ErrorCode::NOMEM));
    assert_eq!(s.alarm(), None);
}

#[test]
fn refused_switching_off_reports_zero() {
    let mut s = sensor();
    s.start_read_lux().unwrap();
    let b = s.i2c.hand_back(&[]);
    s.command_complete(b, Ok(()));
    s.alarm();
    s.i2c.refuse = Some(I2cError::Overrun);
    let b = s.i2c.hand_back(&[200, 0]);
    assert_eq!(s.command_complete(b, Ok(())), Some(0));
    assert_eq!(s.state, State::Disabled);
    assert!(s.buffer.is_some());
}

#[test]
fn reading_without_a_client_reports_nothing() {
    let mut s = Isl29035::new(Device::new(), Clock::new(), vec![0u8; 3]);
    s.state = State::Disabling(77);
    assert_eq!(s.command_complete(vec![0u8; 3], Ok(())), None);
    assert_eq!(s.state, State::Disabled);
    assert_eq!(s.command_complete(vec![1u8; 3], Ok(())), None);
    assert_eq!(s.buffer.value, Some(vec![1u8; 3]));
}
