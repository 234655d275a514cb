//! Limits and settings in which the chips of the family differ.

use vstd::prelude::*;

verus! {

/// The chips of the family.
#[derive(Clone, Copy, Debug, PartialEq, Eq, Structural)]
pub enum Chip {
    Stm32f401,
    Stm32f412,
    Stm32f429,
    Stm32f446,
}

/// The lowest frequency of the phase-locked loop, in megahertz.
pub open spec fn pll_min_freq(chip: Chip) -> usize {
    if chip == Chip::Stm32f401 {
        24
    } else {
        13
    }
}

/// The highest frequency of the first peripheral bus, in megahertz.
pub open spec fn apb1_frequency_limit(chip: Chip) -> usize {
    match chip {
        Chip::Stm32f412 => 50,
        Chip::Stm32f429 => 45,
        Chip::Stm32f446 => 45,
        Chip::Stm32f401 => 42,
    }
}

/// The highest frequency of the system clock, in megahertz.
pub open spec fn sys_clock_frequency_limit(chip: Chip) -> usize {
    match chip {
        Chip::Stm32f412 => 100,
        Chip::Stm32f429 => 168,
        Chip::Stm32f446 => 168,
        Chip::Stm32f401 => 84,
    }
}

/// The lowest frequency of the phase-locked loop, in megahertz.
pub fn pll_min_freq_mhz(chip: Chip) -> (r: usize)
    ensures
        r == pll_min_freq(chip),
{
    match chip {
        Chip::Stm32f401 => 24,
        _ => 13,
    }
}

/// The highest frequency of the first peripheral bus, in megahertz.
pub fn apb1_frequency_limit_mhz(chip: Chip) -> (r: usize)
    ensures
        r == apb1_frequency_limit(chip),
{
    match chip {
        Chip::Stm32f412 => 50,
        Chip::Stm32f429 => 45,
        Chip::Stm32f446 => 45,
        Chip::Stm32f401 => 42,
    }
}

/// The highest frequency of the second peripheral bus, in megahertz:
/// twice that of the first.
pub fn apb2_frequency_limit_mhz(chip: Chip) -> (r: usize)
    ensures
        r == 2 * apb1_frequency_limit(chip),
{
    2 * apb1_frequency_limit_mhz(chip)
}

/// The highest frequency of the system clock, in megahertz.
pub fn sys_clock_frequency_limit_mhz(chip: Chip) -> (r: usize)
    ensures
        r == sys_clock_frequency_limit(chip),
{
    match chip {
        Chip::Stm32f412 => 100,
        Chip::Stm32f429 => 168,
        Chip::Stm32f446 => 168,
        Chip::Stm32f401 => 84,
    }
}

/// The number of wait states of the flash memory.
#[derive(Clone, Copy, Debug, PartialEq, Eq, Structural)]
pub enum FlashLatency {
    Latency0,
    Latency1,
    Latency2,
    Latency3,
    Latency4,
    Latency5,
    Latency6,
    Latency7,
    Latency8,
    Latency9,
    Latency10,
    Latency11,
    Latency12,
    Latency13,
    Latency14,
    Latency15,
}

impl FlashLatency {
    /// The number of wait states.
    pub open spec fn cycles(self) -> u32 {
        match self {
            FlashLatency::Latency0 => 0,
            FlashLatency::Latency1 => 1,
            FlashLatency::Latency2 => 2,
            FlashLatency::Latency3 => 3,
            FlashLatency::Latency4 => 4,
            FlashLatency::Latency5 => 5,
            FlashLatency::Latency6 => 6,
            FlashLatency::Latency7 => 7,
            FlashLatency::Latency8 => 8,
            FlashLatency::Latency9 => 9,
            FlashLatency::Latency10 => 10,
            FlashLatency::Latency11 => 11,
            FlashLatency::Latency12 => 12,
            FlashLatency::Latency13 => 13,
            FlashLatency::Latency14 => 14,
            FlashLatency::Latency15 => 15,
        }
    }
}

/// The number of wait states that the flash memory of `chip` needs at a
/// system clock of `frequency_mhz` megahertz and a supply between 2.7 and
/// 3.6 volts: one more for every 30 megahertz, where the F412 has its
/// steps at 30, 64 and 90 megahertz and needs no more than three, the
/// others no more than five.
pub open spec fn wait_cycles(chip: Chip, frequency_mhz: usize) -> u32 {
    if chip == Chip::Stm32f412 {
        if frequency_mhz <= 30 {
            0
        } else if frequency_mhz <= 64 {
            1
        } else if frequency_mhz <= 90 {
            2
        } else {
            3
        }
    } else {
        if frequency_mhz <= 30 {
            0
        } else if frequency_mhz <= 60 {
            1
        } else if frequency_mhz <= 90 {
            2
        } else if frequency_mhz <= 120 {
            3
        } else if frequency_mhz <= 150 {
            4
        } else {
            5
        }
    }
}

/// The wait states that the flash memory of `chip` needs at a system
/// clock of `frequency_mhz` megahertz: see `wait_cycles`.
pub fn get_number_wait_cycles_based_on_frequency(chip: Chip, frequency_mhz: usize) -> (r:
    FlashLatency)
    ensures
        r.cycles() == wait_cycles(chip, frequency_mhz),
{
    match chip {
        Chip::Stm32f412 => {
            if frequency_mhz <= 30 {
                FlashLatency::Latency0
            } else if frequency_mhz <= 64 {
                FlashLatency::Latency1
            } else if frequency_mhz <= 90 {
                FlashLatency::Latency2
            } else {
                FlashLatency::Latency3
            }
        },
        _ => {
            if frequency_mhz <= 30 {
                FlashLatency::Latency0
            } else if frequency_mhz <= 60 {
                FlashLatency::Latency1
            } else if frequency_mhz <= 90 {
                FlashLatency::Latency2
            } else if frequency_mhz <= 120 {
                FlashLatency::Latency3
            } else if frequency_mhz <= 150 {
                FlashLatency::Latency4
            } else {
                FlashLatency::Latency5
            }
        },
    }
}

/// The wait states that the value of the latency field stands for; every
/// value above 14 stands for 15.
pub fn convert_register_to_enum(flash_latency_register: u32) -> (r: FlashLatency)
    ensures
        r.cycles() == (if flash_latency_register <= 14 {
            flash_latency_register
        } else {
            15
        }),
{
    match flash_latency_register {
        0 => FlashLatency::Latency0,
        1 => FlashLatency::Latency1,
        2 => FlashLatency::Latency2,
        3 => FlashLatency::Latency3,
        4 => FlashLatency::Latency4,
        5 => FlashLatency::Latency5,
        6 => FlashLatency::Latency6,
        7 => FlashLatency::Latency7,
        8 => FlashLatency::Latency8,
        9 => FlashLatency::Latency9,
        10 => FlashLatency::Latency10,
        11 => FlashLatency::Latency11,
        12 => FlashLatency::Latency12,
        13 => FlashLatency::Latency13,
        14 => FlashLatency::Latency14,
        _ => FlashLatency::Latency15,
    }
}

} // verus!
