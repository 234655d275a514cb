use arbitration::capsules::hd44780::{LCDStatus, HD44780};
use arbitration::kernel::errorcode::ErrorCode;
use arbitration::kernel::hil::gpio::Pin;
use arbitration::kernel::hil::text_screen::{ScreenEvent, TextScreen};
use arbitration::kernel::hil::time::Alarm;

struct Clock {
    now: u32,
    set: Vec<(u32, u32)>,
}

impl Clock {
    fn new() -> Clock {
        Clock { now: 1000, set: Vec::new() }
    }
}

impl Alarm for Clock {
    fn rate(&self) -> u32 {
        self.frequency()
    }

    fn time(&self) -> u32 {
        self.now()
    }

    fn ticks_us(&self, us: u32) -> u32 {
        self.ticks_from_us(us)
    }

    fn ticks_ms(&self, ms: u32) -> u32 {
        self.ticks_from_ms(ms)
    }

    fn armed(&self, _before: &Self, _reference: u32, _dt: u32) -> bool {
        true
    }

    fn frequency(&self) -> u32 {
        16_000
    }

    fn now(&self) -> u32 {
        self.now
    }

    fn set_alarm(&mut self, reference: u32, dt: u32) {
        self.set.push((reference, dt));
    }

    fn ticks_from_us(&self, us: u32) -> u32 {
        us * 16 / 1000
    }

    fn ticks_from_ms(&self, ms: u32) -> u32 {
        ms * 16
    }
}

struct Wire {
    level: Option<bool>,
    output: bool,
}

impl Wire {
    fn new() -> Wire {
        Wire { level: None, output: false }
    }
}

impl Pin for Wire {
    fn turned(&self, _before: &Self, _output: bool) -> bool {
        true
    }

    fn driven(&self, _before: &Self, _high: bool) -> bool {
        true
    }

    fn make_output(&mut self) {
        self.output = true;
    }

    fn make_input(&mut self) {
        self.output = false;
    }

    fn set(&mut self) {
        self.level = Some(true);
    }

    fn clear(&mut self) {
        self.level = Some(false);
    }
}

type Lcd = HD44780<Wire, Clock>;

fn display() -> Lcd {
    let mut d = HD44780::new(
        Wire::new(),
        Wire::new(),
        Wire::new(),
        Wire::new(),
        Wire::new(),
        Wire::new(),
        vec![0u8; 4],
        Clock::new(),
        16,
        2,
    );
    d.set_client(true);
    d
}

fn data(d: &Lcd) -> u8 {
    let bit = |w: &Wire, n: u8| if w.level == Some(true) { 1 << n } else { 0 };
    bit(&d.data_4_pin, 0) | bit(&d.data_5_pin, 1) | bit(&d.data_6_pin, 2) | bit(&d.data_7_pin, 3)
}

/// Runs the display until it is idle and collects the halves of four bits
/// that were latched on the way, each with the level of the register
/// select pin.
fn run(d: &mut Lcd) -> (Vec<(bool, u8)>, Vec<ScreenEvent>) {
    let mut latched = Vec::new();
    let mut events = Vec::new();
    for _ in 0..10_000 {
        let status = d.lcd.lcd_status;
        if status == LCDStatus::PulseLow {
            latched.push((d.rs_pin.level == Some(true), data(d)));
        }
        if let Some(e) = d.alarm() {
            events.push(e);
        }
        if d.lcd.lcd_status == LCDStatus::Idle && status == LCDStatus::Idle {
            return (latched, events);
        }
    }
    panic!("the display never became idle");
}

fn bytes(latched: &[(bool, u8)]) -> Vec<(bool, u8)> {
    latched.chunks(2).map(|p| (p[0].0, (p[0].1 << 4) | p[1].1)).collect()
}

#[test]
fn new_display_knows_its_rows() {
    let d = display();
    assert!(d.rs_pin.output && d.en_pin.output && d.data_7_pin.output);
    assert_eq!(d.row_offsets.value, Some(vec![0x00, 0x40, 0x10, 0x50]));
    assert_eq!(d.lcd.display_function, 0x08);
    assert_eq!(d.lcd.num_lines, 2);
    assert_eq!(d.lcd.lcd_status, LCDStatus::Idle);
    assert_eq!(d.get_size(), (16, 2));
    let one: Lcd = HD44780::new(
        Wire::new(),
        Wire::new(),
        Wire::new(),
        Wire::new(),
        Wire::new(),
        Wire::new(),
        vec![9u8; 5],
        Clock::new(),
        200,
        1,
    );
    assert_eq!(one.lcd.display_function, 0x00);
    assert_eq!(one.row_offsets.value, Some(vec![0x00, 0x40, 200, 8, 9]));
}

#[test]
fn delay_sets_the_alarm() {
    let mut d = display();
    d.set_delay(500, LCDStatus::PulseHigh);
    assert_eq!(d.lcd.lcd_status, LCDStatus::PulseHigh);
    assert_eq!(d.alarm.set, vec![(1000, 32)]);
    d.set_delay(10, LCDStatus::Begin0);
    assert_eq!(d.alarm.set[1], (1000, 1600));
}

#[test]
fn a_command_goes_out_in_two_halves() {
    let mut d = display();
    d.lcd_command(0xA5, LCDStatus::Idle);
    assert_eq!(d.lcd.lcd_status, LCDStatus::PulseLow);
    assert_eq!(d.lcd.lcd_after_pulse_status, LCDStatus::Command);
    assert_eq!(d.lcd.lcd_after_command_status, LCDStatus::Idle);
    assert_eq!(d.lcd.command_to_finish, 0xA5);
    assert_eq!(d.en_pin.level, Some(false));
    let (latched, events) = run(&mut d);
    assert_eq!(latched, vec![(false, 0xA), (false, 0x5)]);
    assert_eq!(events.len(), 1);
    assert!(matches!(events[0], ScreenEvent::CommandComplete(Ok(()))));
}

#[test]
fn first_display_on_initialises_the_controller() {
    let mut d = display();
    assert_eq!(d.display_on(), Ok(()));
    assert_eq!(d.lcd.lcd_status, LCDStatus::Begin0);
    assert_eq!(d.display_on(), Err(ErrorCode::BUSY));
    let (latched, events) = run(&mut d);
    assert_eq!(&latched[..4], &[(false, 3), (false, 3), (false, 3), (false, 2)]);
    assert_eq!(
        bytes(&latched[4..]),
        vec![(false, 0x28), (false, 0x0E), (false, 0x01), (false, 0x06)]
    );
    assert!(d.lcd.initialized);
    assert!(!d.lcd.begin_done);
    assert_eq!(events.len(), 1);
    assert!(matches!(events[0], ScreenEvent::CommandComplete(Ok(()))));
    assert_eq!(d.lcd.display_control, 0x06);
    assert_eq!(d.lcd.display_mode, 0x02);
}

#[test]
fn display_control_commands() {
    let mut d = display();
    d.lcd.initialized = true;
    d.lcd.display_control = 0x06;
    assert_eq!(d.show_cursor(), Ok(()));
    assert_eq!(bytes(&run(&mut d).0), vec![(false, 0x0E)]);
    assert_eq!(d.blink_cursor_on(), Ok(()));
    assert_eq!(bytes(&run(&mut d).0), vec![(false, 0x0F)]);
    assert_eq!(d.hide_cursor(), Ok(()));
    assert_eq!(bytes(&run(&mut d).0), vec![(false, 0x0D)]);
    assert_eq!(d.blink_cursor_off(), Ok(()));
    assert_eq!(bytes(&run(&mut d).0), vec![(false, 0x0C)]);
    assert_eq!(d.display_off(), Ok(()));
    assert_eq!(bytes(&run(&mut d).0), vec![(false, 0x08)]);
    assert_eq!(d.display_on(), Ok(()));
    assert_eq!(bytes(&run(&mut d).0), vec![(false, 0x0C)]);
    assert_eq!(d.clear(), Ok(()));
    assert_eq!(d.clear(), Err(ErrorCode::BUSY));
    assert_eq!(bytes(&run(&mut d).0), vec![(false, 0x01)]);
    assert_eq!(d.screen_command(3, 0, 0), Err(ErrorCode::INVAL));
    assert_eq!(d.lcd.lcd_status, LCDStatus::Idle);
}

#[test]
fn text_is_printed_character_by_character() {
    let mut d = display();
    assert!(d.print(vec![b'H', b'i', b'!', b'?'], 3).is_ok());
    assert_eq!(d.lcd.write_len, 2);
    assert_eq!(d.lcd.write_offset, 1);
    match d.print(vec![b'x'], 1) {
        Err((e, b)) => {
            assert_eq!(e, ErrorCode::BUSY);
            assert_eq!(b, vec![b'x']);
        }
        Ok(()) => panic!("the display is busy"),
    }
    let (latched, events) = run(&mut d);
    assert_eq!(bytes(&latched), vec![(true, b'H'), (true, b'i'), (true, b'!')]);
    assert_eq!(events.len(), 1);
    match &events[0] {
        ScreenEvent::WriteComplete(buffer, len, Ok(())) => {
            assert_eq!(buffer, &vec![b'H', b'i', b'!', b'?']);
            assert_eq!(*len, 3);
        }
        _ => panic!("the print is done"),
    }
    assert!(d.write_buffer.is_none());
    assert!(!d.lcd.done_printing);
}

#[test]
fn cursor_is_put_within_the_display() {
    let mut d = display();
    assert_eq!(d.set_cursor(5, 1), Ok(()));
    assert_eq!(bytes(&run(&mut d).0), vec![(false, 0x80 | 0x45)]);
    assert_eq!(d.set_cursor(2, 0), Ok(()));
    assert_eq!(bytes(&run(&mut d).0), vec![(false, 0x82)]);
    assert_eq!(d.set_cursor(1, 9), Ok(()));
    assert_eq!(bytes(&run(&mut d).0), vec![(false, 0x80 | 0x41)]);
    assert_eq!(d.set_cursor(1, 0), Ok(()));
    assert_eq!(d.set_cursor(1, 0), Err(ErrorCode::BUSY));
    run(&mut d);
    d.move_cursor(0xFF, 3);
    assert_eq!(d.lcd.command_to_finish, 0x80 | 0x4F);
}

#[test]
fn display_without_a_client_tells_nobody() {
    let mut d = display();
    d.set_client(false);
    d.lcd_clear(LCDStatus::Idle);
    for _ in 0..20 {
        assert!(d.continue_ops().is_none());
    }
    assert_eq!(d.lcd.lcd_status, LCDStatus::Idle);
    assert_eq!(d.set_rows(1, 2, 3, 4), Ok(()));
    assert_eq!(d.row_offsets.value, Some(vec![1, 2, 3, 4]));
    d.write_4_bits(0b1010, LCDStatus::Idle);
    assert_eq!(data(&d), 0b1010);
    d.pulse(LCDStatus::Begin3);
    assert_eq!(d.lcd.lcd_after_pulse_status, LCDStatus::Begin3);
    d.lcd_display(LCDStatus::Idle);
    assert_eq!(d.lcd.command_to_finish, 0x08);
    d.write_character();
    assert_eq!(d.lcd.command_to_finish, 0);
    d.init(20, 4);
    assert_eq!(d.lcd.num_lines, 4);
    assert_eq!(d.row_offsets.value, Some(vec![0, 0x40, 20, 0x54]));
}
