//! Settings and registers common to the accelerometers and magnetometers of
//! one family.

use vstd::prelude::*;

verus! {

/// The first control register of the accelerometer.
pub const ACCEL_CTRL_REG1: u8 = 0x20;

/// The fourth control register of the accelerometer.
pub const ACCEL_CTRL_REG4: u8 = 0x23;

/// The first of the six registers of the acceleration.
pub const ACCEL_OUT_X_L_A: u8 = 0x28;

/// How often the accelerometer measures.
#[derive(Clone, Copy, Debug, PartialEq, Eq, Structural)]
pub enum Lsm303AccelDataRate {
    Off,
    DataRate1Hz,
    DataRate10Hz,
    DataRate25Hz,
    DataRate50Hz,
    DataRate100Hz,
    DataRate200Hz,
    DataRate400Hz,
    LowPower1620Hz,
    Normal1344LowPower5376Hz,
}

impl Lsm303AccelDataRate {
    /// The number that stands for the rate, in commands and in the chip's
    /// register.
    pub open spec fn number(self) -> u8 {
        match self {
            Lsm303AccelDataRate::Off => 0,
            Lsm303AccelDataRate::DataRate1Hz => 1,
            Lsm303AccelDataRate::DataRate10Hz => 2,
            Lsm303AccelDataRate::DataRate25Hz => 3,
            Lsm303AccelDataRate::DataRate50Hz => 4,
            Lsm303AccelDataRate::DataRate100Hz => 5,
            Lsm303AccelDataRate::DataRate200Hz => 6,
            Lsm303AccelDataRate::DataRate400Hz => 7,
            Lsm303AccelDataRate::LowPower1620Hz => 8,
            Lsm303AccelDataRate::Normal1344LowPower5376Hz => 9,
        }
    }

    /// The number by which the chip knows this setting.
    pub fn into_u8(self) -> (r: u8)
        ensures
            r == self.number(),
            r <= 9,
    {
        match self {
            Lsm303AccelDataRate::Off => 0,
            Lsm303AccelDataRate::DataRate1Hz => 1,
            Lsm303AccelDataRate::DataRate10Hz => 2,
            Lsm303AccelDataRate::DataRate25Hz => 3,
            Lsm303AccelDataRate::DataRate50Hz => 4,
            Lsm303AccelDataRate::DataRate100Hz => 5,
            Lsm303AccelDataRate::DataRate200Hz => 6,
            Lsm303AccelDataRate::DataRate400Hz => 7,
            Lsm303AccelDataRate::LowPower1620Hz => 8,
            Lsm303AccelDataRate::Normal1344LowPower5376Hz => 9,
        }
    }

    /// The rate that `n` stands for, if it stands for one.
    pub fn from_usize(n: usize) -> (r: Option<Lsm303AccelDataRate>)
        ensures
            n <= 9 ==> r is Some && r->Some_0.number() == n,
            n > 9 ==> r is None,
    {
        if n == 0 {
            Some(Lsm303AccelDataRate::Off)
        } else if n == 1 {
            Some(Lsm303AccelDataRate::DataRate1Hz)
        } else if n == 2 {
            Some(Lsm303AccelDataRate::DataRate10Hz)
        } else if n == 3 {
            Some(Lsm303AccelDataRate::DataRate25Hz)
        } else if n == 4 {
            Some(Lsm303AccelDataRate::DataRate50Hz)
        } else if n == 5 {
            Some(Lsm303AccelDataRate::DataRate100Hz)
        } else if n == 6 {
            Some(Lsm303AccelDataRate::DataRate200Hz)
        } else if n == 7 {
            Some(Lsm303AccelDataRate::DataRate400Hz)
        } else if n == 8 {
            Some(Lsm303AccelDataRate::LowPower1620Hz)
        } else if n == 9 {
            Some(Lsm303AccelDataRate::Normal1344LowPower5376Hz)
        } else {
            None
        }
    }
}

/// The range of the accelerometer.
#[derive(Clone, Copy, Debug, PartialEq, Eq, Structural)]
pub enum Lsm303Scale {
    Scale2G,
    Scale4G,
    Scale8G,
    Scale16G,
}

impl Lsm303Scale {
    /// The number that stands for the range.
    pub open spec fn number(self) -> u8 {
        match self {
            Lsm303Scale::Scale2G => 0,
            Lsm303Scale::Scale4G => 1,
            Lsm303Scale::Scale8G => 2,
            Lsm303Scale::Scale16G => 3,
        }
    }

    /// The range in units of the acceleration of gravity.
    pub open spec fn factor(self) -> int {
        match self {
            Lsm303Scale::Scale2G => 2,
            Lsm303Scale::Scale4G => 4,
            Lsm303Scale::Scale8G => 8,
            Lsm303Scale::Scale16G => 16,
        }
    }

    /// The number by which the chip knows this setting.
    pub fn into_u8(self) -> (r: u8)
        ensures
            r == self.number(),
            r <= 3,
    {
        match self {
            Lsm303Scale::Scale2G => 0,
            Lsm303Scale::Scale4G => 1,
            Lsm303Scale::Scale8G => 2,
            Lsm303Scale::Scale16G => 3,
        }
    }

    /// The range in units of the acceleration of gravity.
    pub fn scale_factor(self) -> (r: i32)
        ensures
            r == self.factor(),
            2 <= r <= 16,
    {
        match self {
            Lsm303Scale::Scale2G => 2,
            Lsm303Scale::Scale4G => 4,
            Lsm303Scale::Scale8G => 8,
            Lsm303Scale::Scale16G => 16,
        }
    }

    /// The range that `n` stands for, if it stands for one.
    pub fn from_usize(n: usize) -> (r: Option<Lsm303Scale>)
        ensures
            n <= 3 ==> r is Some && r->Some_0.number() == n,
            n > 3 ==> r is None,
    {
        if n == 0 {
            Some(Lsm303Scale::Scale2G)
        } else if n == 1 {
            Some(Lsm303Scale::Scale4G)
        } else if n == 2 {
            Some(Lsm303Scale::Scale8G)
        } else if n == 3 {
            Some(Lsm303Scale::Scale16G)
        } else {
            None
        }
    }
}

/// How often the magnetometer measures.
#[derive(Clone, Copy, Debug, PartialEq, Eq, Structural)]
pub enum Lsm303MagnetoDataRate {
    DataRate0_75Hz,
    DataRate1_5Hz,
    DataRate3_0Hz,
    DataRate7_5Hz,
    DataRate15_0Hz,
    DataRate30_0Hz,
    DataRate75_0Hz,
    DataRate220_0Hz,
}

impl Lsm303MagnetoDataRate {
    /// The number that stands for the rate.
    pub open spec fn number(self) -> u8 {
        match self {
            Lsm303MagnetoDataRate::DataRate0_75Hz => 0,
            Lsm303MagnetoDataRate::DataRate1_5Hz => 1,
            Lsm303MagnetoDataRate::DataRate3_0Hz => 2,
            Lsm303MagnetoDataRate::DataRate7_5Hz => 3,
            Lsm303MagnetoDataRate::DataRate15_0Hz => 4,
            Lsm303MagnetoDataRate::DataRate30_0Hz => 5,
            Lsm303MagnetoDataRate::DataRate75_0Hz => 6,
            Lsm303MagnetoDataRate::DataRate220_0Hz => 7,
        }
    }

    /// The number by which the chip knows this setting.
    pub fn into_u8(self) -> (r: u8)
        ensures
            r == self.number(),
            r <= 7,
    {
        match self {
            Lsm303MagnetoDataRate::DataRate0_75Hz => 0,
            Lsm303MagnetoDataRate::DataRate1_5Hz => 1,
            Lsm303MagnetoDataRate::DataRate3_0Hz => 2,
            Lsm303MagnetoDataRate::DataRate7_5Hz => 3,
            Lsm303MagnetoDataRate::DataRate15_0Hz => 4,
            Lsm303MagnetoDataRate::DataRate30_0Hz => 5,
            Lsm303MagnetoDataRate::DataRate75_0Hz => 6,
            Lsm303MagnetoDataRate::DataRate220_0Hz => 7,
        }
    }

    /// The rate that `n` stands for, if it stands for one.
    pub fn from_usize(n: usize) -> (r: Option<Lsm303MagnetoDataRate>)
        ensures
            n <= 7 ==> r is Some && r->Some_0.number() == n,
            n > 7 ==> r is None,
    {
        if n == 0 {
            Some(Lsm303MagnetoDataRate::DataRate0_75Hz)
        } else if n == 1 {
            Some(Lsm303MagnetoDataRate::DataRate1_5Hz)
        } else if n == 2 {
            Some(Lsm303MagnetoDataRate::DataRate3_0Hz)
        } else if n == 3 {
            Some(Lsm303MagnetoDataRate::DataRate7_5Hz)
        } else if n == 4 {
            Some(Lsm303MagnetoDataRate::DataRate15_0Hz)
        } else if n == 5 {
            Some(Lsm303MagnetoDataRate::DataRate30_0Hz)
        } else if n == 6 {
            Some(Lsm303MagnetoDataRate::DataRate75_0Hz)
        } else if n == 7 {
            Some(Lsm303MagnetoDataRate::DataRate220_0Hz)
        } else {
            None
        }
    }
}

/// The range of the magnetometer.
#[derive(Clone, Copy, Debug, PartialEq, Eq, Structural)]
pub enum Lsm303Range {
    Range1G,
    Range1_3G,
    Range1_9G,
    Range2_5G,
    Range4_0G,
    Range4_7G,
    Range5_6G,
    Range8_1,
}

impl Lsm303Range {
    /// The number that stands for the range.
    pub open spec fn number(self) -> u8 {
        match self {
            Lsm303Range::Range1G => 0,
            Lsm303Range::Range1_3G => 1,
            Lsm303Range::Range1_9G => 2,
            Lsm303Range::Range2_5G => 3,
            Lsm303Range::Range4_0G => 4,
            Lsm303Range::Range4_7G => 5,
            Lsm303Range::Range5_6G => 6,
            Lsm303Range::Range8_1 => 7,
        }
    }

    /// The digits per gauss along the first two axes.
    pub open spec fn factor_x_y(self) -> int {
        match self {
            Lsm303Range::Range1G => 1000,
            Lsm303Range::Range1_3G => 1100,
            Lsm303Range::Range1_9G => 855,
            Lsm303Range::Range2_5G => 670,
            Lsm303Range::Range4_0G => 450,
            Lsm303Range::Range4_7G => 400,
            Lsm303Range::Range5_6G => 330,
            Lsm303Range::Range8_1 => 230,
        }
    }

    /// The digits per gauss along the third axis.
    pub open spec fn factor_z(self) -> int {
        match self {
            Lsm303Range::Range1G => 1000,
            Lsm303Range::Range1_3G => 980,
            Lsm303Range::Range1_9G => 760,
            Lsm303Range::Range2_5G => 600,
            Lsm303Range::Range4_0G => 400,
            Lsm303Range::Range4_7G => 355,
            Lsm303Range::Range5_6G => 295,
            Lsm303Range::Range8_1 => 205,
        }
    }

    /// The number by which the chip knows this setting.
    pub fn into_u8(self) -> (r: u8)
        ensures
            r == self.number(),
            r <= 7,
    {
        match self {
            Lsm303Range::Range1G => 0,
            Lsm303Range::Range1_3G => 1,
            Lsm303Range::Range1_9G => 2,
            Lsm303Range::Range2_5G => 3,
            Lsm303Range::Range4_0G => 4,
            Lsm303Range::Range4_7G => 5,
            Lsm303Range::Range5_6G => 6,
            Lsm303Range::Range8_1 => 7,
        }
    }

    /// The digits per gauss along the first two axes.
    pub fn range_factor_x_y(self) -> (r: i32)
        ensures
            r == self.factor_x_y(),
            200 <= r <= 1100,
    {
        match self {
            Lsm303Range::Range1G => 1000,
            Lsm303Range::Range1_3G => 1100,
            Lsm303Range::Range1_9G => 855,
            Lsm303Range::Range2_5G => 670,
            Lsm303Range::Range4_0G => 450,
            Lsm303Range::Range4_7G => 400,
            Lsm303Range::Range5_6G => 330,
            Lsm303Range::Range8_1 => 230,
        }
    }

    /// The digits per gauss along the third axis.
    pub fn range_factor_z(self) -> (r: i32)
        ensures
            r == self.factor_z(),
            200 <= r <= 1000,
    {
        match self {
            Lsm303Range::Range1G => 1000,
            Lsm303Range::Range1_3G => 980,
            Lsm303Range::Range1_9G => 760,
            Lsm303Range::Range2_5G => 600,
            Lsm303Range::Range4_0G => 400,
            Lsm303Range::Range4_7G => 355,
            Lsm303Range::Range5_6G => 295,
            Lsm303Range::Range8_1 => 205,
        }
    }

    /// The range that `n` stands for, if it stands for one.
    pub fn from_usize(n: usize) -> (r: Option<Lsm303Range>)
        ensures
            n <= 7 ==> r is Some && r->Some_0.number() == n,
            n > 7 ==> r is None,
    {
        if n == 0 {
            Some(Lsm303Range::Range1G)
        } else if n == 1 {
            Some(Lsm303Range::Range1_3G)
        } else if n == 2 {
            Some(Lsm303Range::Range1_9G)
        } else if n == 3 {
            Some(Lsm303Range::Range2_5G)
        } else if n == 4 {
            Some(Lsm303Range::Range4_0G)
        } else if n == 5 {
            Some(Lsm303Range::Range4_7G)
        } else if n == 6 {
            Some(Lsm303Range::Range5_6G)
        } else if n == 7 {
            Some(Lsm303Range::Range8_1)
        } else {
            None
        }
    }
}

/// The value of the accelerometer's first control register: the rate from
/// bit 4, low power in bit 3, and the three axes switched on.
pub open spec fn ctrl_reg1(data_rate: Lsm303AccelDataRate, low_power: bool) -> u8 {
    ((data_rate.number() << 4) | (if low_power {
        0x08u8
    } else {
        0x00u8
    }) | 0x07) as u8
}

/// Computes the value of the accelerometer's first control register.
pub fn encode_ctrl_reg1(data_rate: Lsm303AccelDataRate, low_power: bool) -> (r: u8)
    ensures
        r == ctrl_reg1(data_rate, low_power),
{
    (data_rate.into_u8() << 4) | (if low_power {
        0x08u8
    } else {
        0x00u8
    }) | 0x07
}

/// The value of the accelerometer's fourth control register: the range
/// from bit 4, high resolution in bit 3.
pub open spec fn ctrl_reg4(scale: Lsm303Scale, high_resolution: bool) -> u8 {
    ((scale.number() << 4) | (if high_resolution {
        0x08u8
    } else {
        0x00u8
    })) as u8
}

/// Computes the value of the accelerometer's fourth control register.
pub fn encode_ctrl_reg4(scale: Lsm303Scale, high_resolution: bool) -> (r: u8)
    ensures
        r == ctrl_reg4(scale, high_resolution),
{
    (scale.into_u8() << 4) | (if high_resolution {
        0x08u8
    } else {
        0x00u8
    })
}

} // verus!
