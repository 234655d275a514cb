use arbitration::chips::stm32f412g::interrupt_service::{
    FamilyPeripherals, Stm32f412gDefaultPeripherals, RNG,
};
use arbitration::chips::stm32f4xx::chip_specific::{
    apb1_frequency_limit_mhz, apb2_frequency_limit_mhz, convert_register_to_enum,
    get_number_wait_cycles_based_on_frequency, pll_min_freq_mhz, sys_clock_frequency_limit_mhz,
    Chip, FlashLatency,
};
use arbitration::chips::stm32f4xx::fsmc::{
    compose, modify, Fsmc, FsmcBank, FsmcBankRegisters, FsmcBanks, Store,
};
use arbitration::chips::stm32f4xx::i2c::{I2CRegisters, I2CSpeed, I2CStatus, I2C};
use arbitration::chips::stm32f4xx::trng::{Interrupt, RngRegisters, Trng};
use arbitration::kernel::errorcode::ErrorCode;
use arbitration::kernel::hil::bus8080::{Bus8080, BusWidth};
use arbitration::kernel::hil::entropy::{Continue, Entropy32};
use arbitration::kernel::hil::i2c::{Error as I2cError, I2CMaster};
use arbitration::kernel::platform::{ClockInterface, InterruptService};

struct Gate {
    on: bool,
}

impl ClockInterface for Gate {
    fn enabled(&self) -> bool {
        self.on
    }

    fn switched(&self, _before: &Self, on: bool) -> bool {
        self.on == on
    }

    fn is_enabled(&self) -> bool {
        self.on
    }

    fn enable(&mut self) {
        self.on = true;
    }

    fn disable(&mut self) {
        self.on = false;
    }
}

struct Family {
    served: Vec<u32>,
    connected: bool,
}

impl InterruptService for Family {
    fn served(&self, _before: &Self, _interrupt: u32, _r: bool) -> bool {
        true
    }

    fn service_interrupt(&mut self, interrupt: u32) -> bool {
        self.served.push(interrupt);
        interrupt < 10
    }
}

impl FamilyPeripherals for Family {
    fn connected(&self, _before: &Self) -> bool {
        true
    }

    fn setup_circular_deps(&mut self) {
        self.connected = true;
    }
}

#[test]
fn limits_of_the_chips() {
    assert_eq!(pll_min_freq_mhz(Chip::Stm32f401), 24);
    assert_eq!(pll_min_freq_mhz(Chip::Stm32f412), 13);
    assert_eq!(apb1_frequency_limit_mhz(Chip::Stm32f412), 50);
    assert_eq!(apb1_frequency_limit_mhz(Chip::Stm32f429), 45);
    assert_eq!(apb1_frequency_limit_mhz(Chip::Stm32f446), 45);
    assert_eq!(apb1_frequency_limit_mhz(Chip::Stm32f401), 42);
    assert_eq!(apb2_frequency_limit_mhz(Chip::Stm32f412), 100);
    assert_eq!(apb2_frequency_limit_mhz(Chip::Stm32f401), 84);
    assert_eq!(sys_clock_frequency_limit_mhz(Chip::Stm32f412), 100);
    assert_eq!(sys_clock_frequency_limit_mhz(Chip::Stm32f429), 168);
    assert_eq!(sys_clock_frequency_limit_mhz(Chip::Stm32f401), 84);
}

#[test]
fn flash_wait_states() {
    let f412 = |mhz| get_number_wait_cycles_based_on_frequency(Chip::Stm32f412, mhz);
    assert_eq!(f412(0), FlashLatency::Latency0);
    assert_eq!(f412(30), FlashLatency::Latency0);
    assert_eq!(f412(31), FlashLatency::Latency1);
    assert_eq!(f412(64), FlashLatency::Latency1);
    assert_eq!(f412(65), FlashLatency::Latency2);
    assert_eq!(f412(90), FlashLatency::Latency2);
    assert_eq!(f412(91), FlashLatency::Latency3);
    assert_eq!(f412(1000), FlashLatency::Latency3);
    let f429 = |mhz| get_number_wait_cycles_based_on_frequency(Chip::Stm32f429, mhz);
    assert_eq!(f429(30), FlashLatency::Latency0);
    assert_eq!(f429(60), FlashLatency::Latency1);
    assert_eq!(f429(61), FlashLatency::Latency2);
    assert_eq!(f429(120), FlashLatency::Latency3);
    assert_eq!(f429(150), FlashLatency::Latency4);
    assert_eq!(f429(151), FlashLatency::Latency5);
    assert_eq!(
        get_number_wait_cycles_based_on_frequency(Chip::Stm32f401, 84),
        FlashLatency::Latency2
    );
    assert_eq!(convert_register_to_enum(0), FlashLatency::Latency0);
    assert_eq!(convert_register_to_enum(7), FlashLatency::Latency7);
    assert_eq!(convert_register_to_enum(14), FlashLatency::Latency14);
    assert_eq!(convert_register_to_enum(15), FlashLatency::Latency15);
    assert_eq!(convert_register_to_enum(99), FlashLatency::Latency15);
}

fn trng(sr: u32) -> Trng<Gate> {
    let mut t = Trng::new(RngRegisters { cr: 0, sr, data: 0xCAFE_F00D }, Gate { on: false });
    t.set_client();
    t
}

#[test]
fn generator_is_switched_on_and_off() {
    let mut t = trng(0);
    assert_eq!(t.get(), Ok(()));
    assert_eq!(t.registers.cr, 0b1100);
    assert_eq!(t.cancel(), Ok(()));
    assert_eq!(t.registers.cr, 0);
    t.enable_clock();
    assert!(t.is_enabled_clock());
    t.disable_clock();
    assert!(!t.is_enabled_clock());
}

#[test]
fn generator_faults_are_cleared() {
    let mut t = trng(0b110_0001);
    t.registers.cr = 0b1000;
    assert_eq!(t.handle_interrupt(), Interrupt::SeedError);
    assert_eq!(t.registers.sr, 0b010_0000);
    assert_eq!(t.registers.cr, 0b1100);
    assert_eq!(t.handle_interrupt(), Interrupt::ClockError);
    assert_eq!(t.registers.sr, 0);
    assert_eq!(t.handle_interrupt(), Interrupt::Entropy);
    let mut silent = Trng::new(RngRegisters { cr: 0, sr: 1, data: 0 }, Gate { on: true });
    assert_eq!(silent.handle_interrupt(), Interrupt::Ignored);
}

#[test]
fn entropy_is_read_once() {
    let mut t = trng(1);
    t.get().unwrap();
    assert_eq!(t.handle_interrupt(), Interrupt::Entropy);
    assert_eq!(t.next(), Some(0xCAFE_F00D));
    assert_eq!(t.next(), None);
    t.entropy_delivered(Continue::More);
    assert_eq!(t.registers.cr, 0b1100);
    t.entropy_delivered(Continue::Done);
    assert_eq!(t.registers.cr, 0);
}

#[test]
fn interrupts_find_their_peripheral() {
    let family = Family { served: Vec::new(), connected: false };
    let mut p = Stm32f412gDefaultPeripherals::new(family, trng(1));
    p.init();
    assert!(p.stm32f4.connected);
    assert_eq!(RNG, 80);
    assert_eq!(p.serve(80), (true, Some(Interrupt::Entropy)));
    assert!(p.stm32f4.served.is_empty());
    assert!(p.service_interrupt(3));
    assert!(!p.service_interrupt(33));
    assert_eq!(p.stm32f4.served, vec![3, 33]);
    assert_eq!(p.serve(5), (true, None));
}

fn fsmc(first_bank: bool) -> Fsmc<Gate> {
    let bank = |there: bool| {
        if there {
            Some(FsmcBank { reg: 0, ram: 0xBEEF, stores: Vec::new() })
        } else {
            None
        }
    };
    let registers = FsmcBankRegisters {
        bcr1: 0xFFFF_FFFF,
        btr1: 0,
        bcr2: 2,
        btr2: 3,
        bcr3: 4,
        btr3: 5,
        bcr4: 6,
        btr4: 7,
        bwtr1: 0xF000_0000,
        bwtr2: 9,
        bwtr3: 10,
        bwtr4: 11,
    };
    let mut f = Fsmc::new(registers, vec![bank(first_bank), None, bank(true), None], Gate { on: false });
    f.set_client();
    f
}

#[test]
fn bus_timing_is_set_on_enable() {
    let mut f = fsmc(true);
    f.enable();
    assert!(f.clock.on);
    assert_eq!(f.registers.bcr1, 0xFFC0_04C0 | 0x0020_5011);
    assert_eq!(f.registers.btr1, 0x0221_2419);
    assert_eq!(f.registers.bwtr1, 0xC000_0711);
    assert_eq!(f.registers.bcr2, 2);
    assert_eq!(f.registers.bwtr4, 11);
    f.disable();
    assert!(!f.clock.on);
    assert_eq!(modify(0b1111, 0b0110, 0b0100), 0b1101);
}

#[test]
fn words_are_composed_by_width() {
    let buffer = vec![0x11, 0x22, 0x33, 0x44];
    assert_eq!(compose(&buffer, BusWidth::Bits8, 2), 0x33);
    assert_eq!(compose(&buffer, BusWidth::Bits16LE, 1), 0x4433);
    assert_eq!(compose(&buffer, BusWidth::Bits16BE, 1), 0x3344);
    assert_eq!(BusWidth::Bits8.width_in_bytes(), 1);
    assert_eq!(BusWidth::Bits16LE.width_in_bytes(), 2);
    assert_eq!(BusWidth::Bits16BE.width_in_bytes(), 2);
    assert_eq!(FsmcBanks::Bank3.into_usize(), 2);
}

#[test]
fn bus_write_stores_each_word() {
    let mut f = fsmc(true);
    assert_eq!(f.set_addr(BusWidth::Bits8, 0x12A), Ok(()));
    assert_eq!(f.set_addr(BusWidth::Bits16LE, 1), Err(ErrorCode::NOSUPPORT));
    assert!(f.deferred_call);
    let done = f.handle_deferred_call().unwrap();
    assert!(done.buffer.is_none());
    assert_eq!(done.len, 0);
    assert!(Bus8080::write(&mut f, BusWidth::Bits16BE, vec![1, 2, 3, 4, 5], 2).is_ok());
    assert_eq!(
        f.bank[0].as_ref().unwrap().stores,
        vec![Store::Reg(0x12A), Store::Ram(0x0102), Store::Ram(0x0304)]
    );
    assert!(f.bank[2].as_ref().unwrap().stores.is_empty());
    assert_eq!((f.bus_width, f.len), (2, 2));
    let done = f.handle_deferred_call().unwrap();
    assert_eq!(done.buffer, Some(vec![1, 2, 3, 4, 5]));
    assert_eq!(done.len, 2);
    assert_eq!(done.status, Ok(()));
    assert!(!f.deferred_call);
    match f.send(BusWidth::Bits16LE, vec![1, 2, 3], 2) {
        Err((e, b)) => {
            assert_eq!(e, ErrorCode::NOMEM);
            assert_eq!(b, vec![1, 2, 3]);
        }
        Ok(()) => panic!("the buffer holds one word only"),
    }
    f.write_data(FsmcBanks::Bank3, 7);
    f.write_reg(FsmcBanks::Bank2, 7);
    assert_eq!(f.bank[2].as_ref().unwrap().stores, vec![Store::Ram(7)]);
}

#[test]
fn bus_read_fills_the_buffer_by_width() {
    let mut f = fsmc(true);
    assert_eq!(f.read_reg(FsmcBanks::Bank1), Some(0xBEEF));
    assert_eq!(f.read_reg(FsmcBanks::Bank2), None);
    assert!(Bus8080::read(&mut f, BusWidth::Bits16LE, vec![0; 5], 2).is_ok());
    assert_eq!(f.buffer.value, Some(vec![0xEF, 0xBE, 0xEF, 0xBE, 0]));
    f.handle_deferred_call();
    assert!(f.receive(BusWidth::Bits16BE, vec![0; 4], 1).is_ok());
    assert_eq!(f.buffer.value, Some(vec![0xBE, 0xEF, 0, 0]));
    f.handle_deferred_call();
    assert!(f.receive(BusWidth::Bits8, vec![0; 2], 2).is_ok());
    assert_eq!(f.buffer.value, Some(vec![0xEF, 0xEF]));
    f.handle_deferred_call();
    assert!(matches!(f.receive(BusWidth::Bits8, vec![0; 2], 3), Err((ErrorCode::NOMEM, _))));
    let mut absent = fsmc(false);
    assert!(matches!(absent.receive(BusWidth::Bits8, vec![0; 2], 1), Err((ErrorCode::NOMEM, _))));
    assert!(absent.send(BusWidth::Bits8, vec![0; 2], 1).is_ok());
    absent.client = false;
    assert!(absent.handle_deferred_call().is_none());
    assert!(absent.buffer.is_some());
}

fn i2c() -> I2C<Gate> {
    let registers = I2CRegisters {
        cr1: 0,
        cr2: 0,
        oar1: 0,
        oar2: 0,
        dr: 0,
        sr1: 0,
        sr2: 0,
        ccr: 0,
        trise: 0,
        fltr: 0,
    };
    let mut bus = I2C::new(registers, Gate { on: false });
    bus.set_master_client();
    bus
}

const SB: u32 = 1 << 0;
const ADDR: u32 = 1 << 1;
const BTF: u32 = 1 << 2;
const RXNE: u32 = 1 << 6;
const TXE: u32 = 1 << 7;

#[test]
fn bus_speed_settings() {
    let mut bus = i2c();
    bus.registers.ccr = 0xFFFF_FFFF;
    bus.set_speed(I2CSpeed::Speed100k, 42);
    assert_eq!(bus.registers.cr2, 42);
    assert_eq!(bus.registers.ccr, 0xFFFF_7000 | 210);
    assert_eq!(bus.registers.trise, 43);
    assert_eq!(bus.registers.cr1, 1);
    bus.set_speed(I2CSpeed::Speed400k, 48);
    assert_eq!(bus.registers.cr2, 48);
    assert_eq!(bus.registers.ccr, 0xFFFF_F000 | 40);
    assert_eq!(bus.registers.trise, 49);
    bus.enable_clock();
    assert!(bus.is_enabled_clock());
    bus.disable_clock();
    assert!(!bus.is_enabled_clock());
    bus.disable();
    assert_eq!(bus.registers.cr1, 0);
    bus.enable();
    assert_eq!(bus.registers.cr1, 1);
}

#[test]
fn bus_write_runs_through_its_events() {
    let mut bus = i2c();
    assert!(bus.write(0x3C, vec![0xA1, 0xA2, 0xA3], 2).is_ok());
    assert_eq!(bus.status, I2CStatus::Writing);
    assert_eq!(bus.tx_len, 2);
    assert_eq!(bus.registers.cr1, 1 | (1 << 10) | (1 << 8));
    assert_eq!(bus.registers.cr2, 0b111 << 8);
    match bus.write(0, vec![9], 1) {
        Err((e, b)) => {
            assert_eq!(e, I2cError::Busy);
            assert_eq!(b, vec![9]);
        }
        Ok(()) => panic!("a transfer is under way"),
    }
    bus.registers.sr1 = SB;
    assert!(bus.handle_event().is_none());
    assert_eq!(bus.registers.dr, 0x78);
    bus.registers.sr1 = ADDR | TXE;
    assert!(bus.handle_event().is_none());
    assert_eq!(bus.registers.dr, 0xA1);
    bus.registers.sr1 = TXE;
    bus.handle_event();
    assert_eq!(bus.registers.dr, 0xA2);
    assert_eq!(bus.tx_position, 2);
    bus.registers.sr1 = TXE | BTF;
    let done = bus.handle_event().unwrap();
    assert_eq!(done.buffer, vec![0xA1, 0xA2, 0xA3]);
    assert_eq!(done.status, Ok(()));
    assert_eq!(bus.status, I2CStatus::Idle);
    assert_eq!(bus.registers.cr2, 0);
    assert_eq!(bus.registers.cr1 & (1 << 9), 1 << 9);
    assert_eq!(bus.registers.cr1 & (1 << 10), 0);
}

#[test]
fn bus_write_that_the_peer_does_not_take() {
    let mut bus = i2c();
    bus.write(0x3C, vec![1, 2, 3], 3).unwrap();
    bus.registers.sr1 = TXE;
    bus.handle_event();
    bus.registers.sr1 = BTF;
    let done = bus.handle_event().unwrap();
    assert_eq!(done.status, Err(I2cError::DataNak));
    assert_eq!(bus.status, I2CStatus::Idle);
    assert!(bus.buffer.is_none());
}

#[test]
fn bus_read_stores_the_bytes() {
    let mut bus = i2c();
    assert!(bus.read(0x3C, vec![0; 4], 2).is_ok());
    assert_eq!(bus.status, I2CStatus::Reading);
    bus.registers.sr1 = SB;
    bus.handle_event();
    assert_eq!(bus.registers.dr, 0x79);
    bus.registers.dr = 0x1AB;
    bus.registers.sr1 = RXNE;
    assert!(bus.handle_event().is_none());
    assert_eq!(bus.registers.sr1, 0);
    assert_eq!(bus.rx_position, 1);
    bus.registers.dr = 0xCD;
    bus.registers.sr1 = RXNE;
    let done = bus.handle_event().unwrap();
    assert_eq!(done.buffer, vec![0xAB, 0xCD, 0, 0]);
    assert_eq!(done.status, Ok(()));
    assert_eq!(bus.status, I2CStatus::Idle);
    match bus.read(0, vec![7], 1) {
        Ok(()) => {}
        Err(_) => panic!("the bus is free again"),
    }
    match bus.read(0, vec![8], 1) {
        Err((e, b)) => {
            assert_eq!(e, I2cError::ArbitrationLost);
            assert_eq!(b, vec![8]);
        }
        Ok(()) => panic!("a transfer is under way"),
    }
}

#[test]
fn bus_write_then_read() {
    let mut bus = i2c();
    assert!(bus.write_read(0x10, vec![0x0F, 0], 1, 1).is_ok());
    assert_eq!(bus.status, I2CStatus::WritingReading);
    bus.registers.sr1 = SB | TXE;
    bus.handle_event();
    assert_eq!(bus.registers.dr, 0x0F);
    bus.registers.cr1 = 1;
    bus.registers.sr1 = BTF;
    assert!(bus.handle_event().is_none());
    assert_eq!(bus.status, I2CStatus::Reading);
    assert_eq!(bus.registers.cr1, 1 | (1 << 10) | (1 << 8));
    bus.registers.sr1 = SB;
    bus.handle_event();
    assert_eq!(bus.registers.dr, 0x21);
    bus.registers.dr = 0x42;
    bus.registers.sr1 = RXNE;
    let done = bus.handle_event().unwrap();
    assert_eq!(done.buffer, vec![0x42, 0]);
    assert_eq!(done.status, Ok(()));
}

#[test]
fn bus_error_ends_the_transfer() {
    let mut bus = i2c();
    bus.write(1, vec![1], 1).unwrap();
    let done = bus.handle_error().unwrap();
    assert_eq!(done.status, Err(I2cError::DataNak));
    assert_eq!(bus.status, I2CStatus::Idle);
    assert!(bus.handle_error().is_none());
    bus.registers.sr1 = TXE;
    assert!(bus.handle_event().is_none());
    assert_eq!(bus.status, I2CStatus::Idle);
    bus.read(1, vec![0; 2], 9).unwrap();
    assert_eq!(bus.rx_len, 2);
    bus.registers.sr1 = BTF;
    let done = bus.handle_event().unwrap();
    assert_eq!(done.status, Err(I2cError::DataNak));
    bus.master_client = false;
    bus.write(1, vec![1], 0).unwrap();
    bus.registers.sr1 = BTF;
    assert!(bus.handle_event().is_none());
    assert!(bus.buffer.is_some());
    assert_eq!(bus.status, I2CStatus::Idle);
}
