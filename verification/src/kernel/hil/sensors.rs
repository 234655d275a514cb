//! Environmental sensors.

use vstd::prelude::*;
use crate::kernel::errorcode::ErrorCode;

verus! {

/// A sensor of relative humidity.
pub trait HumidityDriver {
    /// The sensor is in a state in which it can be asked.
    spec fn ready(&self) -> bool;

    /// What a request for one measurement, answered with `r`, has made of
    /// the sensor that was `before`.
    spec fn humidity_asked(&self, before: &Self, r: Result<(), ErrorCode>) -> bool;

    /// Requests one measurement.
    fn read_humidity(&mut self) -> (r: Result<(), ErrorCode>)
        requires
            old(self).ready(),
        ensures
            final(self).ready(),
            final(self).humidity_asked(old(self), r),
    ;
}

/// A sensor of temperature.
pub trait TemperatureDriver {
    /// The sensor is in a state in which it can be asked.
    spec fn ready(&self) -> bool;

    /// Requests one measurement.
    fn read_temperature(&mut self) -> (r: Result<(), ErrorCode>)
        requires
            old(self).ready(),
        ensures
            final(self).ready(),
    ;
}

/// A sensor of ambient light.
pub trait AmbientLight {
    /// The sensor is in a state in which it can be asked.
    spec fn ready(&self) -> bool;

    /// Requests one measurement.
    fn read_light_intensity(&mut self) -> (r: Result<(), ErrorCode>)
        requires
            old(self).ready(),
        ensures
            final(self).ready(),
    ;
}

/// A sensor of motion along three axes.
pub trait NineDof {
    /// The sensor is in a state in which it can be asked.
    spec fn ready(&self) -> bool;

    /// Requests the acceleration.
    fn read_accelerometer(&mut self) -> (r: Result<(), ErrorCode>)
        requires
            old(self).ready(),
        ensures
            final(self).ready(),
    ;

    /// Requests the magnetic field.
    fn read_magnetometer(&mut self) -> (r: Result<(), ErrorCode>)
        requires
            old(self).ready(),
        ensures
            final(self).ready(),
    ;

    /// Requests the rotation.
    fn read_gyroscope(&mut self) -> (r: Result<(), ErrorCode>)
        requires
            old(self).ready(),
        ensures
            final(self).ready(),
    ;
}

} // verus!
