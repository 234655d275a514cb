use arbitration::capsules::si7021::{humidity, temperature, Measurement, OnDeck, State, SI7021};
use arbitration::kernel::errorcode::ErrorCode;
use arbitration::kernel::hil::i2c::{Error as I2cError, I2CDevice};
use arbitration::kernel::hil::sensors::{HumidityDriver, TemperatureDriver};
use arbitration::kernel::hil::time::Alarm;

#[derive(Debug, Clone, PartialEq)]
enum Bus {
    Enable,
    Disable,
    Write(Vec<u8>),
    Read(usize),
    WriteRead(Vec<u8>, usize),
}

struct Device {
    calls: Vec<Bus>,
    held: Option<Vec<u8>>,
    refuse: Option<I2cError>,
}

impl Device {
    fn new() -> Device {
        Device { calls: Vec::new(), held: None, refuse: None }
    }

    fn answer(&mut self, buffer: Vec<u8>) -> Result<(), (I2cError, Vec<u8>)> {
        match self.refuse {
            Some(e) => Err((e, buffer)),
            None => {
                self.held = Some(buffer);
                Ok(())
            }
        }
    }

    fn hand_back(&mut self, bytes: &[u8]) -> Vec<u8> {
        let mut buffer = self.held.take().expect("no transfer is under way");
        buffer[..bytes.len()].copy_from_slice(bytes);
        buffer
    }

    fn transfers(&self) -> Vec<Bus> {
        self.calls
            .iter()
            .filter(|c| !matches!(c, Bus::Enable | Bus::Disable))
            .cloned()
            .collect()
    }
}

impl I2CDevice for Device {
    fn switched(&self, _before: &Self, _on: bool) -> bool {
        true
    }

    fn write_read_asked(
        &self,
        _before: &Self,
        _data: Vec<u8>,
        _write_len: usize,
        _read_len: usize,
        _r: Result<(), (I2cError, Vec<u8>)>,
    ) -> bool {
        true
    }

    fn write_asked(
        &self,
        _before: &Self,
        _data: Vec<u8>,
        _len: usize,
        _r: Result<(), (I2cError, Vec<u8>)>,
    ) -> bool {
        true
    }

    fn read_asked(
        &self,
        _before: &Self,
        _buffer: Vec<u8>,
        _len: usize,
        _r: Result<(), (I2cError, Vec<u8>)>,
    ) -> bool {
        true
    }

    fn enable(&mut self) {
        self.calls.push(Bus::Enable);
    }

    fn disable(&mut self) {
        self.calls.push(Bus::Disable);
    }

    fn write_read(&mut self, data: Vec<u8>, write_len: usize, read_len: usize) -> Result<(), (I2cError, Vec<u8>)> {
        self.calls.push(Bus::WriteRead(data[..write_len].to_vec(), read_len));
        self.answer(data)
    }

    fn write(&mut self, data: Vec<u8>, len: usize) -> Result<(), (I2cError, Vec<u8>)> {
        self.calls.push(Bus::Write(data[..len].to_vec()));
        self.answer(data)
    }

    fn read(&mut self, buffer: Vec<u8>, len: usize) -> Result<(), (I2cError, Vec<u8>)> {
        self.calls.push(Bus::Read(len));
        self.answer(buffer)
    }
}

struct Clock {
    now: u32,
    set: Vec<(u32, u32)>,
}

impl Clock {
    fn new() -> Clock {
        Clock { now: 1000, set: Vec::new() }
    }
}

impl Alarm for Clock {
    fn rate(&self) -> u32 {
        self.frequency()
    }

    fn time(&self) -> u32 {
        self.now()
    }

    fn ticks_us(&self, us: u32) -> u32 {
        self.ticks_from_us(us)
    }

    fn ticks_ms(&self, ms: u32) -> u32 {
        self.ticks_from_ms(ms)
    }

    fn armed(&self, _before: &Self, _reference: u32, _dt: u32) -> bool {
        true
    }

    fn frequency(&self) -> u32 {
        16_000
    }

    fn now(&self) -> u32 {
        self.now
    }

    fn set_alarm(&mut self, reference: u32, dt: u32) {
        self.set.push((reference, dt));
    }

    fn ticks_from_us(&self, us: u32) -> u32 {
        us * 16 / 1000
    }

    fn ticks_from_ms(&self, ms: u32) -> u32 {
        ms * 16
    }
}

fn sensor() -> SI7021<Clock, Device> {
    let mut s = SI7021::new(Device::new(), Clock::new(), vec![0u8; 14]);
    s.set_temperature_client();
    s.set_humidity_client();
    s
}

#[test]
fn temperature_in_hundredths_of_a_degree() {
    assert_eq!(temperature(0, 0), -4685);
    assert_eq!(temperature(0x66, 0x4C), (0x664C * 17572 / 65536) - 4685);
    assert_eq!(temperature(0x66, 0x4C), 2336);
    assert_eq!(temperature(0xFF, 0xFF), 12886);
}

#[test]
fn humidity_in_hundredths_of_a_percent() {
    assert_eq!(humidity(0x80, 0x00), 5650);
    assert_eq!(humidity(0xFF, 0xFF), 11899);
    assert_eq!(humidity(0x0C, 0x4A), 0);
    assert_eq!(humidity(0, 0), 65536 - 600);
}

#[test]
fn temperature_measurement_runs_through_its_steps() {
    let mut s = sensor();
    assert_eq!(s.read_temperature(), Ok(()));
    assert_eq!(s.state, State::TakeTempMeasurementInit);
    assert_eq!(s.i2c.transfers(), vec![Bus::Write(vec![0xf3])]);
    let b = s.i2c.hand_back(&[]);
    assert_eq!(s.command_complete(b, Ok(())), None);
    assert_eq!(s.state, State::WaitTemp);
    assert_eq!(s.alarm.set, vec![(1000, 320)]);
    s.alarm();
    assert_eq!(s.state, State::ReadTempMeasurement);
    let b = s.i2c.hand_back(&[]);
    assert_eq!(s.command_complete(b, Ok(())), None);
    assert_eq!(s.state, State::GotTempMeasurement);
    let b = s.i2c.hand_back(&[0x66, 0x4C]);
    assert_eq!(s.command_complete(b, Ok(())), Some(Measurement::Temperature(2336)));
    assert_eq!(s.state, State::Idle);
    assert!(s.buffer.is_some());
    assert_eq!(s.i2c.transfers(), vec![Bus::Write(vec![0xf3]), Bus::Read(2), Bus::Read(2)]);
}

#[test]
fn measurement_on_deck_follows_at_once() {
    let mut s = sensor();
    assert_eq!(s.read_humidity(), Ok(()));
    assert_eq!(s.state, State::TakeRhMeasurementInit);
    assert_eq!(s.read_temperature(), Ok(()));
    assert_eq!(s.on_deck, OnDeck::Temperature);
    assert_eq!(s.read_temperature(), Err(ErrorCode::BUSY));
    assert_eq!(s.read_humidity(), Err(ErrorCode::BUSY));
    assert_eq!(s.on_deck, OnDeck::Temperature);
    let b = s.i2c.hand_back(&[]);
    s.command_complete(b, Ok(()));
    s.alarm();
    let b = s.i2c.hand_back(&[]);
    s.command_complete(b, Ok(()));
    let b = s.i2c.hand_back(&[0x80, 0x00]);
    assert_eq!(s.command_complete(b, Ok(())), Some(Measurement::Humidity(5650)));
    assert_eq!(s.state, State::TakeTempMeasurementInit);
    assert_eq!(s.on_deck, OnDeck::Nothing);
    assert_eq!(s.i2c.transfers().last(), Some(&Bus::Write(vec![0xf3])));
}

#[test]
fn serial_number_is_read_in_two_halves() {
    let mut s = sensor();
    s.read_id();
    assert_eq!(s.state, State::SelectElectronicId1);
    let b = s.i2c.hand_back(&[]);
    s.command_complete(b, Ok(()));
    assert_eq!(s.state, State::ReadElectronicId1);
    let b = s.i2c.hand_back(&[1, 2, 3, 4, 5, 6, 7, 8]);
    s.command_complete(b, Ok(()));
    assert_eq!(s.state, State::SelectElectronicId2);
    let b = s.i2c.hand_back(&[]);
    s.command_complete(b, Ok(()));
    assert_eq!(s.state, State::ReadElectronicId2);
    let b = s.i2c.hand_back(&[9, 10, 11, 12, 13, 14]);
    s.command_complete(b, Ok(()));
    assert_eq!(s.state, State::Idle);
    assert_eq!(
        s.buffer.value,
        Some(vec![9, 10, 11, 12, 13, 14, 1, 2, 3, 4, 5, 6, 1, 2])
    );
    assert_eq!(
        s.i2c.transfers(),
        vec![
            Bus::Write(vec![0xfa, 0x0f]),
            Bus::Read(8),
            Bus::Write(vec![0xfc, 0xc9]),
            Bus::Read(6)
        ]
    );
}

#[test]
fn refused_step_makes_the_sensor_idle() {
    let mut s = sensor();
    s.i2c.refuse = Some(I2cError::DataNak);
    assert_eq!(s.read_temperature(), Err(ErrorCode::NOACK));
    assert_eq!(s.state, State::Idle);
    assert!(s.buffer.is_some());
    s.i2c.refuse = None;
    s.read_humidity().unwrap();
    let b = s.i2c.hand_back(&[]);
    s.command_complete(b, Ok(()));
    s.i2c.refuse = Some(I2cError::Busy);
    s.alarm();
    assert_eq!(s.state, State::Idle);
    assert!(s.buffer.is_some());
    s.buffer.take();
    assert_eq!(s.read_humidity(), Err(ErrorCode::BUSY));
    s.alarm();
    s.read_id();
    assert_eq!(s.state, State::Idle);
}

#[test]
fn measurement_without_a_client_reports_nothing() {
    let mut s = SI7021::new(Device::new(), Clock::new(), vec![0u8; 14]);
    s.state = State::GotRhMeasurement;
    assert_eq!(s.command_complete(vec![0x80; 14], Ok(())), None);
    assert_eq!(s.state, State::Idle);
    s.init_measurement(vec![0u8; 14]);
    s.set_idle(vec![1u8; 14]);
    assert_eq!(s.buffer.value, Some(vec![1u8; 14]));
}
