use arbitration::capsules::lsm303dlhc::{
    scale_acceleration, scale_field, temperature, App, Lsm303dlhcI2C, State,
};
use arbitration::capsules::lsm303xx::{
    encode_ctrl_reg1, encode_ctrl_reg4, Lsm303AccelDataRate, Lsm303MagnetoDataRate, Lsm303Range,
    Lsm303Scale,
};
use arbitration::kernel::errorcode::ErrorCode;
use arbitration::kernel::grant::Grant;
use arbitration::kernel::hil::i2c::{Error as I2cError, I2CDevice};
use arbitration::kernel::hil::sensors::{NineDof, TemperatureDriver};
use arbitration::kernel::process::ProcessId;
use arbitration::kernel::syscall::CommandReturn;

#[derive(Debug, Clone, PartialEq)]
enum Bus {
    Enable,
    Disable,
    Write(Vec<u8>),
    Read(usize),
    WriteRead(Vec<u8>, usize),
}

struct Device {
    calls: Vec<Bus>,
    held: Option<Vec<u8>>,
    refuse: Option<I2cError>,
}

impl Device {
    fn new() -> Device {
        Device { calls: Vec::new(), held: None, refuse: None }
    }

    fn answer(&mut self, buffer: Vec<u8>) -> Result<(), (I2cError, Vec<u8>)> {
        match self.refuse {
            Some(e) => Err((e, buffer)),
            None => {
                self.held = Some(buffer);
                Ok(())
            }
        }
    }

    fn hand_back(&mut self, bytes: &[u8]) -> Vec<u8> {
        let mut buffer = self.held.take().expect("no transfer is under way");
        buffer[..bytes.len()].copy_from_slice(bytes);
        buffer
    }

    fn transfers(&self) -> Vec<Bus> {
        self.calls
            .iter()
            .filter(|c| !matches!(c, Bus::Enable | Bus::Disable))
            .cloned()
            .collect()
    }
}

impl I2CDevice for Device {
    fn switched(&self, _before: &Self, _on: bool) -> bool {
        true
    }

    fn write_read_asked(
        &self,
        _before: &Self,
        _data: Vec<u8>,
        _write_len: usize,
        _read_len: usize,
        _r: Result<(), (I2cError, Vec<u8>)>,
    ) -> bool {
        true
    }

    fn write_asked(
        &self,
        _before: &Self,
        _data: Vec<u8>,
        _len: usize,
        _r: Result<(), (I2cError, Vec<u8>)>,
    ) -> bool {
        true
    }

    fn read_asked(
        &self,
        _before: &Self,
        _buffer: Vec<u8>,
        _len: usize,
        _r: Result<(), (I2cError, Vec<u8>)>,
    ) -> bool {
        true
    }

    fn enable(&mut self) {
        self.calls.push(Bus::Enable);
    }

    fn disable(&mut self) {
        self.calls.push(Bus::Disable);
    }

    fn write_read(&mut self, data: Vec<u8>, write_len: usize, read_len: usize) -> Result<(), (I2cError, Vec<u8>)> {
        self.calls.push(Bus::WriteRead(data[..write_len].to_vec(), read_len));
        self.answer(data)
    }

    fn write(&mut self, data: Vec<u8>, len: usize) -> Result<(), (I2cError, Vec<u8>)> {
        self.calls.push(Bus::Write(data[..len].to_vec()));
        self.answer(data)
    }

    fn read(&mut self, buffer: Vec<u8>, len: usize) -> Result<(), (I2cError, Vec<u8>)> {
        self.calls.push(Bus::Read(len));
        self.answer(buffer)
    }
}

fn driver() -> (Lsm303dlhcI2C<Device>, ProcessId, ProcessId) {
    let mut grant: Grant<App> = Grant::new(2, 1, 0, 0);
    let a = grant.load(0, 5);
    let b = grant.load(1, 6);
    let mut d = Lsm303dlhcI2C::new(Device::new(), Device::new(), vec![0u8; 8], grant);
    d.set_nine_dof_client();
    d.set_temperature_client();
    (d, a, b)
}

fn neg(v: isize) -> usize {
    v as usize
}

fn complete(d: &mut Lsm303dlhcI2C<Device>, bytes: &[u8], status: Result<(), I2cError>) -> arbitration::capsules::lsm303dlhc::Readings {
    let buffer = if d.i2c_accelerometer.held.is_some() {
        d.i2c_accelerometer.hand_back(bytes)
    } else {
        d.i2c_magnetometer.hand_back(bytes)
    };
    d.command_complete(buffer, status)
}

#[test]
fn settings_by_number() {
    assert_eq!(Lsm303AccelDataRate::from_usize(0), Some(Lsm303AccelDataRate::Off));
    assert_eq!(Lsm303AccelDataRate::from_usize(9), Some(Lsm303AccelDataRate::Normal1344LowPower5376Hz));
    assert_eq!(Lsm303AccelDataRate::from_usize(10), None);
    assert_eq!(Lsm303AccelDataRate::DataRate100Hz.into_u8(), 5);
    assert_eq!(Lsm303Scale::from_usize(3), Some(Lsm303Scale::Scale16G));
    assert_eq!(Lsm303Scale::from_usize(4), None);
    assert_eq!(Lsm303Scale::Scale8G.scale_factor(), 8);
    assert_eq!(Lsm303MagnetoDataRate::from_usize(7), Some(Lsm303MagnetoDataRate::DataRate220_0Hz));
    assert_eq!(Lsm303MagnetoDataRate::from_usize(8), None);
    assert_eq!(Lsm303Range::from_usize(1), Some(Lsm303Range::Range1_3G));
    assert_eq!(Lsm303Range::from_usize(8), None);
    assert_eq!(Lsm303Range::Range1_3G.range_factor_x_y(), 1100);
    assert_eq!(Lsm303Range::Range1_3G.range_factor_z(), 980);
    assert_eq!(Lsm303Range::Range8_1.range_factor_x_y(), 230);
    assert_eq!(Lsm303Range::Range8_1.range_factor_z(), 205);
    assert_eq!(Lsm303Range::Range4_0G.into_u8(), 4);
    assert_eq!(Lsm303MagnetoDataRate::DataRate15_0Hz.into_u8(), 4);
}

#[test]
fn control_register_values() {
    assert_eq!(encode_ctrl_reg1(Lsm303AccelDataRate::DataRate100Hz, false), 0x57);
    assert_eq!(encode_ctrl_reg1(Lsm303AccelDataRate::DataRate1Hz, true), 0x1F);
    assert_eq!(encode_ctrl_reg1(Lsm303AccelDataRate::Off, false), 0x07);
    assert_eq!(encode_ctrl_reg4(Lsm303Scale::Scale2G, false), 0x00);
    assert_eq!(encode_ctrl_reg4(Lsm303Scale::Scale8G, true), 0x28);
    assert_eq!(encode_ctrl_reg4(Lsm303Scale::Scale16G, false), 0x30);
}

#[test]
fn readings_from_raw_values() {
    assert_eq!(scale_acceleration(0x00, 0x40, Lsm303Scale::Scale2G), 1000);
    assert_eq!(scale_acceleration(0x00, 0x40, Lsm303Scale::Scale16G), 8000);
    assert_eq!(scale_acceleration(0x00, 0xC0, Lsm303Scale::Scale2G), neg(-1000));
    assert_eq!(scale_acceleration(0x01, 0x00, Lsm303Scale::Scale2G), 0);
    assert_eq!(scale_acceleration(0xFF, 0xFF, Lsm303Scale::Scale2G), 0);
    assert_eq!(scale_field(0x4C, 0x04, 1100), 100);
    assert_eq!(scale_field(0xB4, 0xFB, 1100), neg(-100));
    assert_eq!(scale_field(0x01, 0x00, 230), 0);
    assert_eq!(temperature(0x00, 0x00), 17);
    assert_eq!(temperature(0x00, 0x19), 67);
    assert_eq!(temperature(0x80, 0x00), 18);
    assert_eq!(temperature(0xF0, 0xFF), 17);
    assert_eq!(temperature(0x00, 0xFF), 15);
}

#[test]
fn acceleration_is_reported_to_owner_and_client() {
    let (mut d, a, _) = driver();
    assert_eq!(d.command(3, 1, 0, a), CommandReturn::Success);
    assert_eq!(d.accel_scale, Lsm303Scale::Scale4G);
    let r = complete(&mut d, &[], Ok(()));
    assert!(r.nine_dof.is_none());
    assert_eq!(d.apps.take_upcall(0, 0), Some((1, 0, 0)));
    assert_eq!(d.read_accelerometer(), Ok(()));
    assert_eq!(d.state, State::ReadAccelerationXYZ);
    assert_eq!(d.i2c_accelerometer.transfers().last(), Some(&Bus::WriteRead(vec![0xA8], 6)));
    let r = complete(&mut d, &[0x00, 0x40, 0x00, 0xC0, 0x10, 0x00], Ok(()));
    assert_eq!(r.nine_dof, Some((2000, neg(-2000), 1)));
    assert_eq!(d.apps.take_upcall(0, 0), Some((0x4000, neg(-0x4000), 0x10)));
    assert_eq!(d.state, State::Idle);
    assert!(d.buffer.is_some());
}

#[test]
fn magnetic_field_is_reported_with_the_axes_reordered() {
    let (mut d, a, _) = driver();
    d.command(5, 1, 0, a);
    complete(&mut d, &[], Ok(()));
    d.apps.take_upcall(0, 0);
    assert_eq!(d.read_magnetometer(), Ok(()));
    assert_eq!(d.i2c_magnetometer.transfers().last(), Some(&Bus::WriteRead(vec![0x03], 6)));
    let r = complete(&mut d, &[0x04, 0x4C, 0x03, 0xD4, 0xFB, 0xB4], Ok(()));
    assert_eq!(r.nine_dof, Some((100, neg(-112), 89)));
    assert_eq!(d.apps.take_upcall(0, 0), Some((0x044C, neg(-1100), 0x03D4)));
}

#[test]
fn failed_readings_report_zeros() {
    let (mut d, a, _) = driver();
    d.command(1, 0, 0, a);
    complete(&mut d, &[60], Err(I2cError::DataNak));
    assert_eq!(d.apps.take_upcall(0, 0), Some((0, 0, 0)));
    d.read_acceleration_xyz().unwrap();
    let r = complete(&mut d, &[1, 1, 1, 1, 1, 1], Err(I2cError::DataNak));
    assert_eq!(r.nine_dof, Some((0, 0, 0)));
    assert_eq!(d.apps.take_upcall(0, 0), Some((0, 0, 0)));
    d.read_magnetometer_xyz().unwrap();
    let r = complete(&mut d, &[1, 1, 1, 1, 1, 1], Err(I2cError::Busy));
    assert_eq!(r.nine_dof, Some((0, 0, 0)));
    d.apps.take_upcall(0, 0);
    assert_eq!(TemperatureDriver::read_temperature(&mut d), Ok(()));
    let r = complete(&mut d, &[0x19, 0x00], Err(I2cError::Overrun));
    assert_eq!(r.temperature, Some(Err(ErrorCode::SIZE)));
    assert_eq!(d.apps.take_upcall(0, 0), Some((0, 0, 0)));
    assert_eq!(d.read_gyroscope(), Err(ErrorCode::NODEVICE));
}

#[test]
fn presence_and_temperature() {
    let (mut d, a, _) = driver();
    assert_eq!(d.command(1, 0, 0, a), CommandReturn::Success);
    assert_eq!(d.i2c_magnetometer.transfers(), vec![Bus::WriteRead(vec![0x0F], 1)]);
    complete(&mut d, &[60], Ok(()));
    assert_eq!(d.apps.take_upcall(0, 0), Some((1, 0, 0)));
    d.read_temperature().unwrap();
    assert_eq!(d.i2c_magnetometer.transfers().last(), Some(&Bus::WriteRead(vec![0x31], 2)));
    let r = complete(&mut d, &[0x19, 0x00], Ok(()));
    assert_eq!(r.temperature, Some(Ok(67)));
    assert_eq!(d.apps.take_upcall(0, 0), Some((67, 0, 0)));
}

#[test]
fn commands_check_their_settings() {
    let (mut d, a, b) = driver();
    assert_eq!(d.command(0, 0, 0, b), CommandReturn::Success);
    assert_eq!(d.command(2, 10, 0, a), CommandReturn::Failure(ErrorCode::INVAL));
    assert_eq!(d.command(3, 4, 0, a), CommandReturn::Failure(ErrorCode::INVAL));
    assert_eq!(d.command(4, 8, 0, a), CommandReturn::Failure(ErrorCode::INVAL));
    assert_eq!(d.command(5, 8, 0, a), CommandReturn::Failure(ErrorCode::INVAL));
    assert_eq!(d.command(6, 0, 0, a), CommandReturn::Failure(ErrorCode::NOSUPPORT));
    assert_eq!(d.command(2, 5, 1, b), CommandReturn::Failure(ErrorCode::NOMEM));
    assert_eq!(d.command(2, 5, 1, a), CommandReturn::Success);
    assert_eq!(d.i2c_accelerometer.transfers(), vec![Bus::Write(vec![0x20, 0x5F])]);
    assert_eq!(d.command(3, 0, 0, a), CommandReturn::Failure(ErrorCode::BUSY));
    complete(&mut d, &[], Ok(()));
    assert_eq!(d.command(4, 4, 1, a), CommandReturn::Success);
    assert_eq!(d.i2c_magnetometer.transfers(), vec![Bus::Write(vec![0x00, 0x90])]);
    complete(&mut d, &[], Ok(()));
    assert_eq!(d.command(5, 7, 0, a), CommandReturn::Success);
    assert_eq!(d.i2c_magnetometer.transfers().last(), Some(&Bus::Write(vec![0x01, 0xE0, 0])));
    assert_eq!(d.mag_range, Lsm303Range::Range8_1);
    assert_eq!(d.allocate_grant(a), Ok(()));
}

#[test]
fn configuration_is_a_chain_of_four_requests() {
    let (mut d, a, _) = driver();
    d.current_process = Some(a);
    assert_eq!(
        d.configure(
            Lsm303AccelDataRate::DataRate25Hz,
            false,
            Lsm303Scale::Scale8G,
            true,
            true,
            Lsm303MagnetoDataRate::DataRate3_0Hz,
            Lsm303Range::Range4_7G,
        ),
        Ok(())
    );
    assert!(d.config_in_progress);
    assert_eq!(d.state, State::SetPowerMode);
    assert_eq!(
        d.configure(
            Lsm303AccelDataRate::Off,
            false,
            Lsm303Scale::Scale2G,
            false,
            false,
            Lsm303MagnetoDataRate::DataRate0_75Hz,
            Lsm303Range::Range1G,
        ),
        Err(ErrorCode::BUSY)
    );
    assert_eq!(d.accel_scale, Lsm303Scale::Scale8G);
    complete(&mut d, &[], Ok(()));
    assert_eq!(d.state, State::SetScaleAndResolution);
    d.apps.take_upcall(0, 0);
    complete(&mut d, &[], Ok(()));
    assert_eq!(d.state, State::SetTemperatureDataRate);
    complete(&mut d, &[], Ok(()));
    assert_eq!(d.state, State::SetRange);
    assert!(d.config_in_progress);
    complete(&mut d, &[], Ok(()));
    assert_eq!(d.state, State::Idle);
    assert!(!d.config_in_progress);
    assert!(d.buffer.is_some());
    assert_eq!(
        d.i2c_accelerometer.transfers(),
        vec![Bus::Write(vec![0x20, 0x37]), Bus::Write(vec![0x23, 0x28])]
    );
    assert_eq!(
        d.i2c_magnetometer.transfers(),
        vec![Bus::Write(vec![0x00, 0x88]), Bus::Write(vec![0x01, 0xA0, 0])]
    );
    assert_eq!(d.apps.records[0].pending[0], Some((1, 0, 0)));
}

#[test]
fn refused_step_ends_the_configuration() {
    let (mut d, _, _) = driver();
    d.i2c_accelerometer.refuse = Some(I2cError::AddressNak);
    assert_eq!(
        d.configure(
            Lsm303AccelDataRate::DataRate25Hz,
            false,
            Lsm303Scale::Scale8G,
            true,
            true,
            Lsm303MagnetoDataRate::DataRate3_0Hz,
            Lsm303Range::Range4_7G,
        ),
        Err(ErrorCode::NOACK)
    );
    assert!(!d.config_in_progress);
    assert_eq!(d.state, State::Idle);
    assert!(d.buffer.is_some());
    d.i2c_accelerometer.refuse = None;
    d.set_power_mode(Lsm303AccelDataRate::DataRate1Hz, false).unwrap();
    d.config_in_progress = true;
    d.i2c_accelerometer.refuse = Some(I2cError::Busy);
    complete(&mut d, &[], Ok(()));
    assert!(!d.config_in_progress);
    assert_eq!(d.state, State::Idle);
    assert!(d.buffer.is_some());
    d.buffer.take();
    assert_eq!(d.is_present(), Err(ErrorCode::NOMEM));
    assert_eq!(d.state, State::Idle);
}

#[test]
fn accelerometer_owner_that_is_gone_is_told_nothing() {
    let (mut d, a, b) = driver();
    d.command(2, 1, 0, a);
    d.apps.terminate(0);
    complete(&mut d, &[], Ok(()));
    assert_eq!(d.apps.records[0].pending[0], None);
    assert_eq!(d.state, State::Idle);
    assert!(d.buffer.is_some());
    assert_eq!(d.command(1, 0, 0, b), CommandReturn::Success);
    assert_eq!(d.current_process, Some(b));
    d.state = State::Idle;
    let spare = d.i2c_magnetometer.held.take().unwrap();
    let r = d.command_complete(spare, Ok(()));
    assert!(r.nine_dof.is_none() && r.temperature.is_none());
    assert_eq!(d.apps.records[1].pending[0], None);
}
