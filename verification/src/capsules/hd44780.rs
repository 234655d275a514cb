//! Driver of a character display that is wired to six pins.
//!
//! Every byte for the display goes out as two halves of four bits, each
//! latched by a pulse on the enable pin, and every step of that takes time.
//! So the driver is a state machine that an alarm drives: each step sets
//! pins, records what comes next, and sets the alarm; when the alarm fires
//! the next step follows. Switching the display on for the first time runs
//! through the initialisation that the controller asks for.

use vstd::prelude::*;
use crate::kernel::cells::TakeCell;
use crate::kernel::errorcode::ErrorCode;
use crate::kernel::hil::gpio::Pin;
use crate::kernel::hil::text_screen::{Request, ScreenEvent, TextScreen};
use crate::kernel::hil::time::Alarm;

verus! {

/// The command that clears the display.
pub const LCD_CLEARDISPLAY: u8 = 0x01;

/// The command that sets the entry mode.
pub const LCD_ENTRYMODESET: u8 = 0x04;

/// The command that controls display, cursor and blinking.
pub const LCD_DISPLAYCONTROL: u8 = 0x08;

/// The command that sets width of the bus, lines and font.
pub const LCD_FUNCTIONSET: u8 = 0x20;

/// The command that sets the address of the cursor.
pub const LCD_SETDDRAMADDR: u8 = 0x80;

/// Entry mode: text runs from left to right.
pub const LCD_ENTRYLEFT: u8 = 0x02;

/// Entry mode: the display does not shift.
pub const LCD_ENTRYSHIFTDECREMENT: u8 = 0x00;

/// Display control: the display is on.
pub const LCD_DISPLAYON: u8 = 0x04;

/// Display control: the cursor is shown.
pub const LCD_CURSORON: u8 = 0x02;

/// Display control: the cursor blinks.
pub const LCD_BLINKON: u8 = 0x01;

/// Display control: the cursor does not blink.
pub const LCD_BLINKOFF: u8 = 0x00;

/// Function set: the bus is eight bits wide.
pub const LCD_8BITMODE: u8 = 0x10;

/// Function set: the bus is four bits wide.
pub const LCD_4BITMODE: u8 = 0x00;

/// Function set: the display has two lines.
pub const LCD_2LINE: u8 = 0x08;

/// Function set: the display has one line.
pub const LCD_1LINE: u8 = 0x00;

/// Function set: a character is five dots wide and eight high.
pub const LCD_5X8DOTS: u8 = 0x00;

/// The length of the list of row offsets.
pub const BUF_LEN: usize = 4;

/// The step that the driver takes when the alarm fires next.
#[allow(non_camel_case_types)]
#[derive(Clone, Copy, Debug, PartialEq, Eq, Structural)]
pub enum LCDStatus {
    Idle,
    Begin0,
    Begin0_1,
    Begin1,
    Begin1_2,
    Begin2,
    Begin2_3,
    Begin3,
    Begin4,
    Begin5,
    Begin6,
    Begin7,
    Begin8,
    Begin9,
    Begin10,
    Begin11,
    Begin12,
    Printing,
    PulseLow,
    PulseHigh,
    Command,
    Clear,
}

/// What the driver remembers between two steps.
#[derive(Clone, Copy, Debug, PartialEq, Eq, Structural)]
pub struct Lcd {
    pub width: u8,
    pub height: u8,
    pub display_function: u8,
    pub display_control: u8,
    pub display_mode: u8,
    pub num_lines: u8,
    pub lcd_status: LCDStatus,
    pub lcd_after_pulse_status: LCDStatus,
    pub lcd_after_command_status: LCDStatus,
    pub lcd_after_delay_status: LCDStatus,
    pub command_to_finish: u8,
    pub begin_done: bool,
    pub initialized: bool,
    pub done_printing: bool,
    pub write_len: u8,
    pub write_buffer_len: u8,
    pub write_offset: u8,
}

impl Lcd {
    /// Waiting, with `next` as the step to take then.
    pub open spec fn delayed(self, next: LCDStatus) -> Lcd {
        Lcd { lcd_status: next, ..self }
    }

    /// A pulse on the enable pin has begun, after which `after` follows.
    pub open spec fn pulsed(self, after: LCDStatus) -> Lcd {
        (Lcd { lcd_after_pulse_status: after, ..self }).delayed(LCDStatus::PulseLow)
    }

    /// Four bits are on the data pins and the pulse that latches them has
    /// begun.
    pub open spec fn wrote_4_bits(self, next: LCDStatus) -> Lcd {
        self.pulsed(next)
    }

    /// The byte `value` is on its way as a command: its high half is being
    /// latched, its low half follows, and then `next`.
    pub open spec fn commanded(self, value: u8, next: LCDStatus) -> Lcd {
        (Lcd {
            lcd_after_command_status: next,
            command_to_finish: value,
            ..self
        }).wrote_4_bits(LCDStatus::Command)
    }

    /// The display is being cleared, after which `next` follows.
    pub open spec fn cleared(self, next: LCDStatus) -> Lcd {
        (Lcd { lcd_after_delay_status: next, ..self }).commanded(LCD_CLEARDISPLAY, LCDStatus::Clear)
    }

    /// The display control is on its way, after which `next` follows.
    pub open spec fn displayed(self, next: LCDStatus) -> Lcd {
        self.commanded(LCD_DISPLAYCONTROL | self.display_control, next)
    }

    /// The character `value` of the text is on its way: one character
    /// fewer is left to print.
    pub open spec fn wrote_character(self, value: u8) -> Lcd {
        let left: u8 = if self.write_len > 0 {
            (self.write_len - 1) as u8
        } else {
            0u8
        };
        (Lcd {
            done_printing: left == 0,
            write_offset: if self.write_offset < 255 {
                (self.write_offset + 1) as u8
            } else {
                0u8
            },
            write_len: left,
            command_to_finish: value,
            ..self
        }).wrote_4_bits(LCDStatus::Printing)
    }

    /// The bits `value` of the display control are being set or cleared,
    /// and the control is on its way to the display.
    pub open spec fn controlled(self, set: bool, value: u8) -> Lcd {
        (Lcd {
            display_control: if set {
                self.display_control | value
            } else {
                self.display_control & !value
            },
            ..self
        }).displayed(LCDStatus::Idle)
    }

    /// The function-set byte for the display.
    pub open spec fn function_set(self) -> u8 {
        LCD_FUNCTIONSET | self.display_function
    }

    /// The state after the step that the alarm starts. In the status
    /// `Idle` no step is due.
    pub open spec fn stepped(self) -> Lcd {
        match self.lcd_status {
            LCDStatus::Idle => self,
            LCDStatus::Begin0 => if (self.display_function & LCD_8BITMODE) == 0 {
                self.wrote_4_bits(LCDStatus::Begin0_1)
            } else {
                self.commanded(self.function_set() >> 4, LCDStatus::Begin4)
            },
            LCDStatus::Begin0_1 => self.delayed(LCDStatus::Begin1),
            LCDStatus::Begin1 => self.wrote_4_bits(LCDStatus::Begin1_2),
            LCDStatus::Begin1_2 => self.delayed(LCDStatus::Begin2),
            LCDStatus::Begin2 => self.wrote_4_bits(LCDStatus::Begin2_3),
            LCDStatus::Begin2_3 => self.delayed(LCDStatus::Begin3),
            LCDStatus::Begin3 => self.wrote_4_bits(LCDStatus::Begin9),
            LCDStatus::Begin4 => self.commanded(self.function_set(), LCDStatus::Begin5),
            LCDStatus::Begin5 => self.delayed(LCDStatus::Begin6),
            LCDStatus::Begin6 => self.commanded(self.function_set(), LCDStatus::Begin7),
            LCDStatus::Begin7 => self.delayed(LCDStatus::Begin8),
            LCDStatus::Begin8 => self.commanded(self.function_set(), LCDStatus::Begin9),
            LCDStatus::Begin9 => self.commanded(self.function_set(), LCDStatus::Begin10),
            LCDStatus::Begin10 => (Lcd {
                display_control: LCD_DISPLAYON | LCD_CURSORON | LCD_BLINKOFF,
                ..self
            }).displayed(LCDStatus::Begin11),
            LCDStatus::Begin11 => self.cleared(LCDStatus::Begin12),
            LCDStatus::Begin12 => (Lcd {
                display_mode: LCD_ENTRYLEFT | LCD_ENTRYSHIFTDECREMENT,
                begin_done: true,
                ..self
            }).commanded(
                LCD_ENTRYMODESET | (LCD_ENTRYLEFT | LCD_ENTRYSHIFTDECREMENT),
                LCDStatus::Idle,
            ),
            LCDStatus::Clear => self.delayed(self.lcd_after_delay_status),
            LCDStatus::Printing => self.wrote_4_bits(LCDStatus::Idle),
            LCDStatus::PulseLow => self.delayed(LCDStatus::PulseHigh),
            LCDStatus::Command => self.wrote_4_bits(self.lcd_after_command_status),
            LCDStatus::PulseHigh => self.delayed(self.lcd_after_pulse_status),
        }
    }
}

/// The six pins and the alarm of the driver, as a step finds and leaves
/// them.
pub struct Wires<P: Pin, A: Alarm> {
    pub rs: P,
    pub en: P,
    pub data_4: P,
    pub data_5: P,
    pub data_6: P,
    pub data_7: P,
    pub alarm: A,
}

impl<P: Pin, A: Alarm> Wires<P, A> {
    /// The alarm was armed for the `timer`-th part of a second from now.
    pub open spec fn timed(self, before: Wires<P, A>, timer: u32) -> bool {
        self.alarm.armed(
            &before.alarm,
            before.alarm.time(),
            (before.alarm.rate() / timer) as u32,
        )
    }

    /// The six pins are as before.
    pub open spec fn same_pins(self, before: Wires<P, A>) -> bool {
        &&& self.rs == before.rs
        &&& self.en == before.en
        &&& self.same_data(before)
    }

    /// The four data pins are as before.
    pub open spec fn same_data(self, before: Wires<P, A>) -> bool {
        &&& self.data_4 == before.data_4
        &&& self.data_5 == before.data_5
        &&& self.data_6 == before.data_6
        &&& self.data_7 == before.data_7
    }

    /// A wait for the `timer`-th part of a second was begun: the alarm
    /// was armed, and no pin was touched.
    pub open spec fn delayed(self, before: Wires<P, A>, timer: u32) -> bool {
        self.same_pins(before) && self.timed(before, timer)
    }

    /// A pulse on the enable pin was begun: the pin was driven low, and
    /// the alarm armed for the length of the pulse.
    pub open spec fn pulse_begun(self, before: Wires<P, A>) -> bool {
        &&& self.en.driven(&before.en, false)
        &&& self.timed(before, 500)
    }

    /// The four low bits of `value` were put on the data pins, the
    /// lowest on the first, and a pulse was begun to latch them.
    pub open spec fn latched(self, before: Wires<P, A>, value: u8) -> bool {
        &&& self.data_4.driven(&before.data_4, (value >> 0) & 0x01 != 0)
        &&& self.data_5.driven(&before.data_5, (value >> 1) & 0x01 != 0)
        &&& self.data_6.driven(&before.data_6, (value >> 2) & 0x01 != 0)
        &&& self.data_7.driven(&before.data_7, (value >> 3) & 0x01 != 0)
        &&& self.pulse_begun(before)
    }

    /// The high half of `value` went out: the register-select pin was
    /// driven high for a character (`character`) and low for a command, and
    /// the four high bits were latched.
    pub open spec fn sent(self, before: Wires<P, A>, value: u8, character: bool) -> bool {
        &&& self.rs.driven(&before.rs, character)
        &&& self.latched(before, value >> 4)
    }

    /// The four low bits of `value` were latched, and nothing was asked
    /// of the register-select pin.
    pub open spec fn nibble(self, before: Wires<P, A>, value: u8) -> bool {
        self.rs == before.rs && self.latched(before, value)
    }

    /// The level of the enable pin was changed in the middle or at the
    /// end of a pulse, and the alarm armed for the rest of the pulse.
    pub open spec fn pulse_gone_on(self, before: Wires<P, A>, high: bool) -> bool {
        &&& self.rs == before.rs
        &&& self.same_data(before)
        &&& self.en.driven(&before.en, high)
        &&& self.timed(before, 500)
    }

    /// The initialisation was begun on a bus of four bits: the
    /// register-select pin and the enable pin were driven low, which made
    /// the enable pin `en`, and the first nibble was latched.
    pub open spec fn begun(self, before: Wires<P, A>, en: P) -> bool {
        &&& en.driven(&before.en, false)
        &&& self.rs.driven(&before.rs, false)
        &&& self.latched(Wires { en, ..before }, 0x03)
    }

    /// The initialisation was begun on a bus of eight bits: the
    /// register-select pin was driven low, which made it `rs1`, the enable
    /// pin was driven low, which made it `en`, the register-select pin was
    /// driven low again, which made it `rs2`, and the high half of `value`
    /// went out as a command.
    pub open spec fn begun_wide(
        self,
        before: Wires<P, A>,
        value: u8,
        rs1: P,
        rs2: P,
        en: P,
    ) -> bool {
        &&& rs1.driven(&before.rs, false)
        &&& en.driven(&before.en, false)
        &&& rs2.driven(&rs1, false)
        &&& self.sent(Wires { rs: rs2, en, ..before }, value, false)
    }

    /// What the step that is due in the status of `lcd` asks of pins and
    /// alarm: the waits of the initialisation take the 200th or 500th part
    /// of a second; its nibbles and commands go out as `nibble` and `sent`
    /// say; the second half of a command or character is latched; and a
    /// pulse goes on with the enable pin high and ends with it low.
    pub open spec fn stepped(self, before: Wires<P, A>, lcd: Lcd) -> bool {
        let function = LCD_FUNCTIONSET | lcd.display_function;
        match lcd.lcd_status {
            LCDStatus::Idle => self == before,
            LCDStatus::Begin0 => if (lcd.display_function & LCD_8BITMODE) == 0 {
                exists|en: P| #[trigger] self.begun(before, en)
            } else {
                exists|rs1: P, rs2: P, en: P| #[trigger]
                    self.begun_wide(before, function >> 4, rs1, rs2, en)
            },
            LCDStatus::Begin0_1 | LCDStatus::Begin1_2 | LCDStatus::Begin5 => self.delayed(
                before,
                200,
            ),
            LCDStatus::Begin2_3 | LCDStatus::Begin7 | LCDStatus::Clear => self.delayed(
                before,
                500,
            ),
            LCDStatus::Begin1 | LCDStatus::Begin2 => self.nibble(before, 0x03),
            LCDStatus::Begin3 => self.nibble(before, 0x02),
            LCDStatus::Begin4 | LCDStatus::Begin6 | LCDStatus::Begin8 | LCDStatus::Begin9 => {
                self.sent(before, function, false)
            },
            LCDStatus::Begin10 => self.sent(
                before,
                LCD_DISPLAYCONTROL | (LCD_DISPLAYON | LCD_CURSORON | LCD_BLINKOFF),
                false,
            ),
            LCDStatus::Begin11 => self.sent(before, LCD_CLEARDISPLAY, false),
            LCDStatus::Begin12 => self.sent(
                before,
                LCD_ENTRYMODESET | (LCD_ENTRYLEFT | LCD_ENTRYSHIFTDECREMENT),
                false,
            ),
            LCDStatus::Printing | LCDStatus::Command => self.nibble(before, lcd.command_to_finish),
            LCDStatus::PulseLow => self.pulse_gone_on(before, true),
            LCDStatus::PulseHigh => self.pulse_gone_on(before, false),
        }
    }
}

/// The driver of the display.
pub struct HD44780<P: Pin, A: Alarm> {
    pub rs_pin: P,
    pub en_pin: P,
    pub data_4_pin: P,
    pub data_5_pin: P,
    pub data_6_pin: P,
    pub data_7_pin: P,
    pub lcd: Lcd,
    /// Where in the display's memory each row begins.
    pub row_offsets: TakeCell<Vec<u8>>,
    pub alarm: A,
    /// Whether a client is registered to be told of completions.
    pub text_screen_client: bool,
    /// The text that is being printed.
    pub write_buffer: TakeCell<Vec<u8>>,
}

impl<P: Pin, A: Alarm> HD44780<P, A> {
    /// The list of row offsets, while it is with the driver, has four
    /// entries.
    pub open spec fn wf(&self) -> bool {
        self.row_offsets.value matches Some(b) ==> b@.len() >= BUF_LEN
    }

    /// The six pins and the alarm of the driver.
    pub open spec fn wires(&self) -> Wires<P, A> {
        Wires {
            rs: self.rs_pin,
            en: self.en_pin,
            data_4: self.data_4_pin,
            data_5: self.data_5_pin,
            data_6: self.data_6_pin,
            data_7: self.data_7_pin,
            alarm: self.alarm,
        }
    }

    /// Everything but the pins, the alarm and what the driver remembers
    /// between steps is as in `other`.
    pub open spec fn same_rest(&self, other: &HD44780<P, A>) -> bool {
        &&& self.row_offsets == other.row_offsets
        &&& self.text_screen_client == other.text_screen_client
        &&& self.write_buffer == other.write_buffer
    }

    /// Creates the driver of a display of `width` columns and `height`
    /// rows, with the six pins as outputs.
    pub fn new(
        rs_pin: P,
        en_pin: P,
        data_4_pin: P,
        data_5_pin: P,
        data_6_pin: P,
        data_7_pin: P,
        row_offsets: Vec<u8>,
        alarm: A,
        width: u8,
        height: u8,
    ) -> (r: HD44780<P, A>)
        requires
            row_offsets@.len() >= BUF_LEN,
        ensures
            r.wf(),
            r.alarm == alarm,
            r.rs_pin.turned(&rs_pin, true),
            r.en_pin.turned(&en_pin, true),
            r.data_4_pin.turned(&data_4_pin, true),
            r.data_5_pin.turned(&data_5_pin, true),
            r.data_6_pin.turned(&data_6_pin, true),
            r.data_7_pin.turned(&data_7_pin, true),
            !r.text_screen_client,
            r.write_buffer.value is None,
            r.lcd == (Lcd {
                width,
                height,
                display_function: if height > 1 {
                    LCD_2LINE
                } else {
                    0
                },
                display_control: 0,
                display_mode: 0,
                num_lines: height,
                lcd_status: LCDStatus::Idle,
                lcd_after_pulse_status: LCDStatus::Idle,
                lcd_after_command_status: LCDStatus::Idle,
                lcd_after_delay_status: LCDStatus::Idle,
                command_to_finish: 0,
                begin_done: false,
                initialized: false,
                done_printing: false,
                write_len: 0,
                write_buffer_len: 0,
                write_offset: 0,
            }),
            r.row_offsets.value is Some,
            r.row_offsets.value->Some_0@.len() == row_offsets@.len(),
            r.row_offsets.value->Some_0@.subrange(0, 4) == seq![
                0x00u8,
                0x40u8,
                width,
                0x40u8.wrapping_add(width),
            ],
    {
        let mut rs_pin = rs_pin;
        let mut en_pin = en_pin;
        let mut data_4_pin = data_4_pin;
        let mut data_5_pin = data_5_pin;
        let mut data_6_pin = data_6_pin;
        let mut data_7_pin = data_7_pin;
        rs_pin.make_output();
        en_pin.make_output();
        data_4_pin.make_output();
        data_5_pin.make_output();
        data_6_pin.make_output();
        data_7_pin.make_output();
        let mut hd44780 = HD44780 {
            rs_pin,
            en_pin,
            data_4_pin,
            data_5_pin,
            data_6_pin,
            data_7_pin,
            lcd: Lcd {
                width,
                height,
                display_function: LCD_4BITMODE | LCD_1LINE | LCD_5X8DOTS,
                display_control: 0,
                display_mode: 0,
                num_lines: 0,
                lcd_status: LCDStatus::Idle,
                lcd_after_pulse_status: LCDStatus::Idle,
                lcd_after_command_status: LCDStatus::Idle,
                lcd_after_delay_status: LCDStatus::Idle,
                command_to_finish: 0,
                begin_done: false,
                initialized: false,
                done_printing: false,
                write_len: 0,
                write_buffer_len: 0,
                write_offset: 0,
            },
            row_offsets: TakeCell::new(row_offsets),
            alarm,
            text_screen_client: false,
            write_buffer: TakeCell::empty(),
        };
        hd44780.init(width, height);
        let f = hd44780.lcd.display_function;
        assert(f == (if height > 1 {
            8u8
        } else {
            0u8
        })) by (bit_vector)
            requires
                f == (if height > 1 {
                    (0u8 | 0u8 | 0u8) | 8u8
                } else {
                    0u8 | 0u8 | 0u8
                }),
        ;
        hd44780
    }

    /// Registers or removes the client.
    pub fn set_client(&mut self, client: bool)
        ensures
            *final(self) == (HD44780 { text_screen_client: client, ..*old(self) }),
    {
        self.text_screen_client = client;
    }

    /// Sets the size of the display: the two-line mode if it has more than
    /// one row, and the offsets at which its rows begin.
    pub fn init(&mut self, col: u8, row: u8)
        requires
            old(self).wf(),
        ensures
            final(self).wf(),
            final(self).lcd == (Lcd {
                begin_done: false,
                width: col,
                height: row,
                display_function: if row > 1 {
                    old(self).lcd.display_function | LCD_2LINE
                } else {
                    old(self).lcd.display_function
                },
                num_lines: row,
                ..old(self).lcd
            }),
            final(self).wires() == old(self).wires(),
            final(self).text_screen_client == old(self).text_screen_client,
            final(self).write_buffer == old(self).write_buffer,
            final(self).row_offsets.value is Some <==> old(self).row_offsets.value is Some,
            old(self).row_offsets.value matches Some(b) ==> {
                &&& final(self).row_offsets.value->Some_0@.len() == b@.len()
                &&& final(self).row_offsets.value->Some_0@.subrange(0, 4) == seq![
                    0x00u8,
                    0x40u8,
                    col,
                    0x40u8.wrapping_add(col),
                ]
            },
    {
        self.lcd.begin_done = false;
        self.lcd.width = col;
        self.lcd.height = row;
        if row > 1 {
            self.lcd.display_function = self.lcd.display_function | LCD_2LINE;
        }
        self.lcd.num_lines = row;
        let _ = self.set_rows(0x00, 0x40, col, 0x40u8.wrapping_add(col));
    }

    /// Sets the offsets at which the four rows begin. Without the list
    /// nothing is set.
    pub fn set_rows(&mut self, row0: u8, row1: u8, row2: u8, row3: u8) -> (r: Result<(), ErrorCode>)
        requires
            old(self).wf(),
        ensures
            final(self).wf(),
            r is Ok,
            final(self).lcd == old(self).lcd,
            final(self).wires() == old(self).wires(),
            final(self).text_screen_client == old(self).text_screen_client,
            final(self).write_buffer == old(self).write_buffer,
            final(self).row_offsets.value is Some <==> old(self).row_offsets.value is Some,
            old(self).row_offsets.value matches Some(b) ==> {
                &&& final(self).row_offsets.value->Some_0@.len() == b@.len()
                &&& final(self).row_offsets.value->Some_0@.subrange(0, 4) == seq![
                    row0,
                    row1,
                    row2,
                    row3,
                ]
            },
    {
        match self.row_offsets.take() {
            None => {},
            Some(mut buffer) => {
                buffer[0] = row0;
                buffer[1] = row1;
                buffer[2] = row2;
                buffer[3] = row3;
                assert(buffer@.subrange(0, 4) =~= seq![row0, row1, row2, row3]);
                self.row_offsets.put(Some(buffer));
            },
        }
        Ok(())
    }

    /// Waits for the `timer`-th part of a second; then `next_status`
    /// follows.
    pub fn set_delay(&mut self, timer: u32, next_status: LCDStatus)
        requires
            timer > 0,
        ensures
            final(self).lcd == old(self).lcd.delayed(next_status),
            final(self).same_rest(old(self)),
            final(self).wires().delayed(old(self).wires(), timer),
    {
        self.lcd.lcd_status = next_status;
        let now = self.alarm.now();
        let dt = self.alarm.frequency() / timer;
        self.alarm.set_alarm(now, dt);
    }

    /// Begins a pulse on the enable pin; then `after_pulse_status`
    /// follows.
    pub fn pulse(&mut self, after_pulse_status: LCDStatus)
        ensures
            final(self).lcd == old(self).lcd.pulsed(after_pulse_status),
            final(self).same_rest(old(self)),
            final(self).wires().pulse_begun(old(self).wires()),
            final(self).wires().same_data(old(self).wires()),
            final(self).rs_pin == old(self).rs_pin,
    {
        self.lcd.lcd_after_pulse_status = after_pulse_status;
        self.en_pin.clear();
        self.set_delay(500, LCDStatus::PulseLow);
    }

    /// Puts the four low bits of `value` on the data pins and latches
    /// them; then `next_status` follows.
    pub fn write_4_bits(&mut self, value: u8, next_status: LCDStatus)
        ensures
            final(self).lcd == old(self).lcd.wrote_4_bits(next_status),
            final(self).same_rest(old(self)),
            final(self).wires().latched(old(self).wires(), value),
            final(self).rs_pin == old(self).rs_pin,
    {
        if (value >> 0) & 0x01 != 0 {
            self.data_4_pin.set();
        } else {
            self.data_4_pin.clear();
        }
        if (value >> 1) & 0x01 != 0 {
            self.data_5_pin.set();
        } else {
            self.data_5_pin.clear();
        }
        if (value >> 2) & 0x01 != 0 {
            self.data_6_pin.set();
        } else {
            self.data_6_pin.clear();
        }
        if (value >> 3) & 0x01 != 0 {
            self.data_7_pin.set();
        } else {
            self.data_7_pin.clear();
        }
        self.pulse(next_status);
    }

    /// Sends the display control; then `next_state` follows.
    pub fn lcd_display(&mut self, next_state: LCDStatus)
        ensures
            final(self).lcd == old(self).lcd.displayed(next_state),
            final(self).same_rest(old(self)),
            final(self).wires().sent(
                old(self).wires(),
                LCD_DISPLAYCONTROL | old(self).lcd.display_control,
                false,
            ),
    {
        let value = LCD_DISPLAYCONTROL | self.lcd.display_control;
        self.lcd.command_to_finish = value;
        self.lcd_command(value, next_state);
    }

    /// Sends `value` as a command, its high half first; then `next_state`
    /// follows.
    pub fn lcd_command(&mut self, value: u8, next_state: LCDStatus)
        ensures
            final(self).lcd == old(self).lcd.commanded(value, next_state),
            final(self).same_rest(old(self)),
            final(self).wires().sent(old(self).wires(), value, false),
    {
        self.lcd.lcd_after_command_status = next_state;
        self.lcd.command_to_finish = value;
        self.rs_pin.clear();
        self.write_4_bits(value >> 4, LCDStatus::Command);
    }

    /// Clears the display; then `next_state` follows.
    pub fn lcd_clear(&mut self, next_state: LCDStatus)
        ensures
            final(self).lcd == old(self).lcd.cleared(next_state),
            final(self).same_rest(old(self)),
            final(self).wires().sent(old(self).wires(), LCD_CLEARDISPLAY, false),
    {
        self.lcd.lcd_after_delay_status = next_state;
        self.lcd_command(LCD_CLEARDISPLAY, LCDStatus::Clear);
    }

    /// The character of the text at the write offset; zero without the
    /// text or behind its end.
    pub open spec fn character(&self) -> u8 {
        match self.write_buffer.value {
            Some(b) => if self.lcd.write_offset < b@.len() {
                b@[self.lcd.write_offset as int]
            } else {
                0
            },
            None => 0,
        }
    }

    /// Sends the next character of the text, its high half first.
    pub fn write_character(&mut self)
        ensures
            final(self).lcd == old(self).lcd.wrote_character(old(self).character()),
            final(self).same_rest(old(self)),
            final(self).wires().sent(old(self).wires(), old(self).character(), true),
    {
        let offset = self.lcd.write_offset as usize;
        let value: u8 = match &self.write_buffer.value {
            Some(buffer) => if offset < buffer.len() {
                buffer[offset]
            } else {
                0
            },
            None => 0,
        };
        self.lcd.done_printing = false;
        self.lcd.write_offset = if self.lcd.write_offset < 255 {
            self.lcd.write_offset + 1
        } else {
            0
        };
        self.lcd.write_len = if self.lcd.write_len > 0 {
            self.lcd.write_len - 1
        } else {
            0
        };
        if self.lcd.write_len == 0 {
            self.lcd.done_printing = true;
        }
        self.rs_pin.set();
        self.lcd.command_to_finish = value;
        self.write_4_bits(value >> 4, LCDStatus::Printing);
    }

    /// The offset at which row `row` begins; zero without the list of
    /// offsets or for a row that the list does not hold.
    pub open spec fn row_offset(&self, row: u8) -> u8 {
        match self.row_offsets.value {
            Some(b) => if row < b@.len() {
                b@[row as int]
            } else {
                0
            },
            None => 0,
        }
    }

    /// Moves the cursor to column `col` of row `row`: the address in the
    /// display's memory is the row's offset plus the column, in eight
    /// bits.
    pub fn move_cursor(&mut self, col: u8, row: u8)
        ensures
            final(self).lcd == old(self).lcd.commanded(
                LCD_SETDDRAMADDR | col.wrapping_add(old(self).row_offset(row)),
                LCDStatus::Idle,
            ),
            final(self).same_rest(old(self)),
            final(self).wires().sent(
                old(self).wires(),
                final(self).lcd.command_to_finish,
                false,
            ),
    {
        let value: u8 = match &self.row_offsets.value {
            Some(buffer) => if (row as usize) < buffer.len() {
                buffer[row as usize]
            } else {
                0
            },
            None => 0,
        };
        let command = LCD_SETDDRAMADDR | col.wrapping_add(value);
        self.lcd.command_to_finish = command;
        self.lcd_command(command, LCDStatus::Idle);
    }

    /// Starts a command on an idle display: command 1 sets (`op` zero) or
    /// clears the bits `value` of the display control and sends it; command
    /// 2 clears the display. Refused with `BUSY` unless the display is idle,
    /// and with `INVAL` for any other command; nothing changes then.
    pub fn screen_command(&mut self, command: usize, op: usize, value: u8) -> (r: Result<
        (),
        ErrorCode,
    >)
        ensures
            final(self).same_rest(old(self)),
            old(self).lcd.lcd_status != LCDStatus::Idle ==> r == Err::<(), ErrorCode>(
                ErrorCode::BUSY,
            ) && *final(self) == *old(self),
            old(self).lcd.lcd_status == LCDStatus::Idle && command != 1 && command != 2 ==> r
                == Err::<(), ErrorCode>(ErrorCode::INVAL) && *final(self) == *old(self),
            old(self).lcd.lcd_status == LCDStatus::Idle && command == 1 ==> r is Ok
                && final(self).lcd == (Lcd {
                display_control: if op == 0 {
                    old(self).lcd.display_control | value
                } else {
                    old(self).lcd.display_control & !value
                },
                ..old(self).lcd
            }).displayed(LCDStatus::Idle),
            old(self).lcd.lcd_status == LCDStatus::Idle && command == 2 ==> r is Ok
                && final(self).lcd == old(self).lcd.cleared(LCDStatus::Idle),
            r is Ok ==> final(self).wires().sent(
                old(self).wires(),
                final(self).lcd.command_to_finish,
                false,
            ),
    {
        if self.lcd.lcd_status == LCDStatus::Idle {
            if command == 1 {
                if op == 0 {
                    self.lcd.display_control = self.lcd.display_control | value;
                } else {
                    self.lcd.display_control = self.lcd.display_control & !value;
                }
                self.lcd_display(LCDStatus::Idle);
                Ok(())
            } else if command == 2 {
                self.lcd_clear(LCDStatus::Idle);
                Ok(())
            } else {
                Err(ErrorCode::INVAL)
            }
        } else {
            Err(ErrorCode::BUSY)
        }
    }

    /// Takes the step that is due.
    ///
    /// In every status but `Idle` the step of `Lcd::stepped` is taken, and
    /// nobody is told anything. In `Idle` something is complete, and a
    /// client that is registered is told: after the initialisation, that
    /// the display is on and initialised; while characters are left to
    /// print, nothing, and the next character goes out; after the last
    /// character, that the print is done, and the text goes back with the
    /// number of its characters; else that the command is done. Without a
    /// client nothing is done in `Idle`.
    pub fn continue_ops(&mut self) -> (r: Option<ScreenEvent>)
        ensures
            final(self).text_screen_client == old(self).text_screen_client,
            final(self).row_offsets == old(self).row_offsets,
            old(self).lcd.lcd_status != LCDStatus::Idle ==> {
                &&& r is None
                &&& final(self).lcd == old(self).lcd.stepped()
                &&& final(self).write_buffer == old(self).write_buffer
                &&& final(self).wires().stepped(old(self).wires(), old(self).lcd)
            },
            old(self).lcd.lcd_status == LCDStatus::Idle ==> if old(self).text_screen_client
                && !old(self).lcd.begin_done && old(self).lcd.write_len > 0 {
                final(self).wires().sent(old(self).wires(), old(self).character(), true)
            } else {
                final(self).wires() == old(self).wires()
            },
            old(self).lcd.lcd_status == LCDStatus::Idle && !old(self).text_screen_client ==> r
                is None && *final(self) == *old(self),
            old(self).lcd.lcd_status == LCDStatus::Idle && old(self).text_screen_client ==> {
                if old(self).lcd.begin_done {
                    &&& r matches Some(ScreenEvent::CommandComplete(res)) && res is Ok
                    &&& final(self).lcd == (Lcd {
                        begin_done: false,
                        initialized: true,
                        ..old(self).lcd
                    })
                    &&& final(self).write_buffer == old(self).write_buffer
                } else if old(self).lcd.write_len > 0 {
                    &&& r is None
                    &&& final(self).lcd == old(self).lcd.wrote_character(old(self).character())
                    &&& final(self).write_buffer == old(self).write_buffer
                } else if old(self).lcd.done_printing {
                    &&& final(self).lcd == (Lcd { done_printing: false, ..old(self).lcd })
                    &&& final(self).write_buffer.value is None
                    &&& match old(self).write_buffer.value {
                        Some(b) => r matches Some(ScreenEvent::WriteComplete(buffer, len, res))
                            && buffer == b && len == old(self).lcd.write_buffer_len && res is Ok,
                        None => r is None,
                    }
                } else {
                    &&& r matches Some(ScreenEvent::CommandComplete(res)) && res is Ok
                    &&& *final(self) == *old(self)
                }
            },
    {
        let state = self.lcd.lcd_status;
        match state {
            LCDStatus::Idle => {
                if !self.text_screen_client {
                    return None;
                }
                if self.lcd.begin_done {
                    self.lcd.begin_done = false;
                    self.lcd.initialized = true;
                    Some(ScreenEvent::CommandComplete(Ok(())))
                } else if self.lcd.write_len > 0 {
                    self.write_character();
                    None
                } else if self.lcd.done_printing {
                    self.lcd.done_printing = false;
                    match self.write_buffer.take() {
                        Some(buffer) => Some(
                            ScreenEvent::WriteComplete(
                                buffer,
                                self.lcd.write_buffer_len as usize,
                                Ok(()),
                            ),
                        ),
                        None => None,
                    }
                } else {
                    Some(ScreenEvent::CommandComplete(Ok(())))
                }
            },
            _ => {
                self.step(state);
                None
            },
        }
    }

    /// Takes the step of the status `state`, which is the driver's and is
    /// not `Idle`: see `Lcd::stepped`.
    fn step(&mut self, state: LCDStatus)
        requires
            state == old(self).lcd.lcd_status,
            state != LCDStatus::Idle,
        ensures
            final(self).lcd == old(self).lcd.stepped(),
            final(self).same_rest(old(self)),
            final(self).wires().stepped(old(self).wires(), old(self).lcd),
    {
        match state {
            LCDStatus::Idle => {},
            LCDStatus::Begin0 => {
                self.rs_pin.clear();
                let ghost rs1 = self.rs_pin;
                self.en_pin.clear();
                let ghost en = self.en_pin;
                if (self.lcd.display_function & LCD_8BITMODE) == 0 {
                    self.write_4_bits(0x03, LCDStatus::Begin0_1);
                    assert(self.wires().begun(old(self).wires(), en));
                } else {
                    self.rs_pin.clear();
                    let ghost rs2 = self.rs_pin;
                    self.lcd_command(
                        (LCD_FUNCTIONSET | self.lcd.display_function) >> 4,
                        LCDStatus::Begin4,
                    );
                    assert(self.wires().begun_wide(
                        old(self).wires(),
                        (LCD_FUNCTIONSET | old(self).lcd.display_function) >> 4,
                        rs1,
                        rs2,
                        en,
                    ));
                }
            },
            LCDStatus::Begin0_1 => {
                self.set_delay(200, LCDStatus::Begin1);
            },
            LCDStatus::Begin1 => {
                self.write_4_bits(0x03, LCDStatus::Begin1_2);
            },
            LCDStatus::Begin1_2 => {
                self.set_delay(200, LCDStatus::Begin2);
            },
            LCDStatus::Begin2 => {
                self.write_4_bits(0x03, LCDStatus::Begin2_3);
            },
            LCDStatus::Begin2_3 => {
                self.set_delay(500, LCDStatus::Begin3);
            },
            LCDStatus::Begin3 => {
                self.write_4_bits(0x02, LCDStatus::Begin9);
            },
            LCDStatus::Begin4 => {
                let value = LCD_FUNCTIONSET | self.lcd.display_function;
                self.lcd.command_to_finish = value;
                self.lcd_command(value, LCDStatus::Begin5);
            },
            LCDStatus::Begin5 => {
                self.set_delay(200, LCDStatus::Begin6);
            },
            LCDStatus::Begin6 => {
                self.lcd_command(LCD_FUNCTIONSET | self.lcd.display_function, LCDStatus::Begin7);
            },
            LCDStatus::Begin7 => {
                self.set_delay(500, LCDStatus::Begin8);
            },
            LCDStatus::Begin8 => {
                self.lcd_command(LCD_FUNCTIONSET | self.lcd.display_function, LCDStatus::Begin9);
            },
            LCDStatus::Begin9 => {
                let value = LCD_FUNCTIONSET | self.lcd.display_function;
                self.lcd.command_to_finish = value;
                self.lcd_command(value, LCDStatus::Begin10);
            },
            LCDStatus::Begin10 => {
                self.lcd.display_control = LCD_DISPLAYON | LCD_CURSORON | LCD_BLINKOFF;
                self.lcd_display(LCDStatus::Begin11);
            },
            LCDStatus::Begin11 => {
                self.lcd_clear(LCDStatus::Begin12);
            },
            LCDStatus::Begin12 => {
                self.lcd.display_mode = LCD_ENTRYLEFT | LCD_ENTRYSHIFTDECREMENT;
                let value = LCD_ENTRYMODESET | self.lcd.display_mode;
                self.lcd.command_to_finish = value;
                self.lcd.begin_done = true;
                self.lcd_command(value, LCDStatus::Idle);
            },
            LCDStatus::Clear => {
                self.set_delay(500, self.lcd.lcd_after_delay_status);
            },
            LCDStatus::Printing => {
                self.write_4_bits(self.lcd.command_to_finish, LCDStatus::Idle);
            },
            LCDStatus::PulseLow => {
                self.en_pin.set();
                self.set_delay(500, LCDStatus::PulseHigh);
            },
            LCDStatus::Command => {
                self.write_4_bits(self.lcd.command_to_finish, self.lcd.lcd_after_command_status);
            },
            LCDStatus::PulseHigh => {
                self.en_pin.clear();
                self.set_delay(500, self.lcd.lcd_after_pulse_status);
            },
        }
    }

    /// The alarm fired: the step that is due is taken.
    pub fn alarm(&mut self) -> (r: Option<ScreenEvent>)
        ensures
            final(self).text_screen_client == old(self).text_screen_client,
            final(self).row_offsets == old(self).row_offsets,
            old(self).lcd.lcd_status != LCDStatus::Idle ==> r is None && final(self).lcd
                == old(self).lcd.stepped() && final(self).write_buffer == old(self).write_buffer
                && final(self).wires().stepped(old(self).wires(), old(self).lcd),
    {
        self.continue_ops()
    }

    /// The driver after a request to set or clear the bits `value` of the
    /// display control was made on `before` and answered with `r`: refused
    /// with `BUSY` unless the display is idle, and then nothing has changed;
    /// else the control is on its way.
    pub open spec fn control_requested(&self, before: &HD44780<P, A>, set: bool, value: u8,
        r: Result<
        (),
        ErrorCode,
    >) -> bool {
        &&& self.same_rest(before)
        &&& if before.lcd.lcd_status == LCDStatus::Idle {
            r is Ok && self.lcd == before.lcd.controlled(set, value) && self.wires().sent(
                before.wires(),
                self.lcd.command_to_finish,
                false,
            )
        } else {
            r == Err::<(), ErrorCode>(ErrorCode::BUSY) && *self == *before
        }
    }

    /// The driver after a print of `len` bytes of `buffer` was requested on
    /// `before` and answered with `r`: see `print`.
    pub open spec fn print_requested(
        &self,
        before: &HD44780<P, A>,
        buffer: Vec<u8>,
        len: usize,
        r: Result<(),
        (ErrorCode,
        Vec<u8>)>,
    ) -> bool {
        &&& self.text_screen_client == before.text_screen_client
        &&& self.row_offsets == before.row_offsets
        &&& (before.lcd.lcd_status != LCDStatus::Idle ==> r == Err::<(), (ErrorCode, Vec<u8>)>(
            (ErrorCode::BUSY, buffer),
        ) && *self == *before)
        &&& (before.lcd.lcd_status == LCDStatus::Idle ==> {
            &&& r is Ok
            &&& self.write_buffer.value == Some(buffer)
            &&& self.lcd == (Lcd {
                write_len: len as u8,
                write_buffer_len: len as u8,
                write_offset: 0,
                ..before.lcd
            }).wrote_character(
                if 0 < buffer@.len() {
                    buffer@[0]
                } else {
                    0
                },
            )
            &&& self.wires().sent(before.wires(), self.lcd.command_to_finish, true)
        })
    }

    /// The driver after the cursor was asked to go to column `x_position`
    /// of row `y_position` on `before`, answered with `r`: see `set_cursor`.
    pub open spec fn cursor_requested(
        &self,
        before: &HD44780<P, A>,
        x_position: usize,
        y_position: usize,
        r: Result<(),
        ErrorCode>,
    ) -> bool {
        &&& self.same_rest(before)
        &&& (before.lcd.lcd_status != LCDStatus::Idle ==> r == Err::<(), ErrorCode>(
            ErrorCode::BUSY,
        ) && *self == *before)
        &&& (before.lcd.lcd_status == LCDStatus::Idle ==> r is Ok && self.lcd
            == before.lcd.commanded(
            LCD_SETDDRAMADDR | (x_position as u8).wrapping_add(
                before.row_offset(before.line(y_position)),
            ),
            LCDStatus::Idle,
        ) && self.wires().sent(before.wires(), self.lcd.command_to_finish, false))
    }

    /// The driver after the display was asked to switch on on `before`,
    /// answered with `r`: see `display_on`.
    pub open spec fn display_on_requested(
        &self,
        before: &HD44780<P, A>,
        r: Result<(),
        ErrorCode>,
    ) -> bool {
        &&& self.same_rest(before)
        &&& (!before.lcd.initialized ==> if before.lcd.lcd_status == LCDStatus::Idle {
            r is Ok && self.lcd == before.lcd.delayed(LCDStatus::Begin0)
                && self.wires().delayed(before.wires(), 10)
        } else {
            r == Err::<(), ErrorCode>(ErrorCode::BUSY) && *self == *before
        })
        &&& (before.lcd.initialized ==> self.control_requested(
            before,
            true,
            LCD_DISPLAYON,
            r,
        ))
    }

    /// The driver after the display was asked to clear on `before`,
    /// answered with `r`: see `clear`.
    pub open spec fn clear_requested(
        &self,
        before: &HD44780<P, A>,
        r: Result<(),
        ErrorCode>,
    ) -> bool {
        &&& self.same_rest(before)
        &&& (if before.lcd.lcd_status == LCDStatus::Idle {
            r is Ok && self.lcd == before.lcd.cleared(LCDStatus::Idle) && self.wires().sent(
                before.wires(),
                self.lcd.command_to_finish,
                false,
            )
        } else {
            r == Err::<(), ErrorCode>(ErrorCode::BUSY) && *self == *before
        })
    }

    /// The row that the cursor is put in when row `y_position` is asked
    /// for: no row behind the fourth, and none behind the last of the
    /// display.
    pub open spec fn line(&self, y_position: usize) -> u8 {
        let line: u8 = if y_position as u8 >= 4 {
            3u8
        } else {
            y_position as u8
        };
        if line >= self.lcd.num_lines {
            if self.lcd.num_lines > 0 {
                (self.lcd.num_lines - 1) as u8
            } else {
                0u8
            }
        } else {
            line
        }
    }
}

impl<P: Pin, A: Alarm> TextScreen for HD44780<P, A> {
    open spec fn ready(&self) -> bool {
        self.wf()
    }

    /// What each request makes of the driver: see the function of its
    /// name.
    open spec fn asked(&self, before: &Self, request: Request, r: Result<(), ErrorCode>) -> bool {
        match request {
            Request::DisplayOn => self.display_on_requested(before, r),
            Request::DisplayOff => self.control_requested(before, false, LCD_DISPLAYON, r),
            Request::BlinkOn => self.control_requested(before, true, LCD_BLINKON, r),
            Request::BlinkOff => self.control_requested(before, false, LCD_BLINKON, r),
            Request::ShowCursor => self.control_requested(before, true, LCD_CURSORON, r),
            Request::HideCursor => self.control_requested(before, false, LCD_CURSORON, r),
            Request::SetCursor(x, y) => self.cursor_requested(before, x, y, r),
            Request::Clear => self.clear_requested(before, r),
        }
    }

    /// What a print makes of the driver: see `print`.
    open spec fn print_asked(
        &self,
        before: &Self,
        buffer: Vec<u8>,
        len: usize,
        r: Result<(), (ErrorCode, Vec<u8>)>,
    ) -> bool {
        self.print_requested(before, buffer, len, r)
    }

    /// The display has sixteen columns and two rows.
    open spec fn size(&self) -> (usize, usize) {
        (16, 2)
    }

    /// The display has sixteen columns and two rows.
    fn get_size(&self) -> (r: (usize, usize))
        ensures
            r == (16usize, 2usize),
    {
        (16, 2)
    }

    /// Prints the first `len` bytes of `buffer`, counted in eight bits.
    /// Refused with `BUSY` unless the display is idle; then the buffer comes
    /// back and nothing changes. Accepted, the text stays with the driver
    /// and its first character goes out.
    fn print(&mut self, buffer: Vec<u8>, len: usize) -> (r: Result<(), (ErrorCode, Vec<u8>)>)
        ensures
            final(self).text_screen_client == old(self).text_screen_client,
            final(self).row_offsets == old(self).row_offsets,
            old(self).lcd.lcd_status != LCDStatus::Idle ==> r == Err::<(), (ErrorCode, Vec<u8>)>(
                (ErrorCode::BUSY, buffer),
            ) && *final(self) == *old(self),
            old(self).lcd.lcd_status == LCDStatus::Idle ==> {
                &&& r is Ok
                &&& final(self).write_buffer.value == Some(buffer)
                &&& final(self).lcd == (Lcd {
                    write_len: len as u8,
                    write_buffer_len: len as u8,
                    write_offset: 0,
                    ..old(self).lcd
                }).wrote_character(
                    if 0 < buffer@.len() {
                        buffer@[0]
                    } else {
                        0
                    },
                )
            },
    {
        if self.lcd.lcd_status == LCDStatus::Idle {
            self.write_buffer.put(Some(buffer));
            self.lcd.write_len = len as u8;
            self.lcd.write_buffer_len = len as u8;
            self.lcd.write_offset = 0;
            self.write_character();
            Ok(())
        } else {
            Err((ErrorCode::BUSY, buffer))
        }
    }

    /// Moves the cursor to column `x_position`, counted in eight bits, of
    /// the row that `line` gives for `y_position`. Refused with `BUSY`
    /// unless the display is idle.
    fn set_cursor(&mut self, x_position: usize, y_position: usize) -> (r: Result<(), ErrorCode>)
        ensures
            final(self).same_rest(old(self)),
            old(self).lcd.lcd_status != LCDStatus::Idle ==> r == Err::<(), ErrorCode>(
                ErrorCode::BUSY,
            ) && *final(self) == *old(self),
            old(self).lcd.lcd_status == LCDStatus::Idle ==> r is Ok && final(self).lcd
                == old(self).lcd.commanded(
                LCD_SETDDRAMADDR | (x_position as u8).wrapping_add(
                    old(self).row_offset(old(self).line(y_position)),
                ),
                LCDStatus::Idle,
            ),
    {
        if self.lcd.lcd_status == LCDStatus::Idle {
            let mut line_number: u8 = y_position as u8;
            if line_number >= 4 {
                line_number = 3;
            }
            if line_number >= self.lcd.num_lines {
                line_number = if self.lcd.num_lines > 0 {
                    self.lcd.num_lines - 1
                } else {
                    0
                };
            }
            self.move_cursor(x_position as u8, line_number);
            Ok(())
        } else {
            Err(ErrorCode::BUSY)
        }
    }

    /// Hides the cursor.
    fn hide_cursor(&mut self) -> (r: Result<(), ErrorCode>)
        ensures
            final(self).control_requested(old(self), false, LCD_CURSORON, r),
    {
        self.screen_command(1, 1, LCD_CURSORON)
    }

    /// Shows the cursor.
    fn show_cursor(&mut self) -> (r: Result<(), ErrorCode>)
        ensures
            final(self).control_requested(old(self), true, LCD_CURSORON, r),
    {
        self.screen_command(1, 0, LCD_CURSORON)
    }

    /// Lets the cursor blink.
    fn blink_cursor_on(&mut self) -> (r: Result<(), ErrorCode>)
        ensures
            final(self).control_requested(old(self), true, LCD_BLINKON, r),
    {
        self.screen_command(1, 0, LCD_BLINKON)
    }

    /// Stops the cursor from blinking.
    fn blink_cursor_off(&mut self) -> (r: Result<(), ErrorCode>)
        ensures
            final(self).control_requested(old(self), false, LCD_BLINKON, r),
    {
        self.screen_command(1, 1, LCD_BLINKON)
    }

    /// Switches the display on. The first time, this starts the
    /// initialisation, unless the display is busy, which is refused with
    /// `BUSY`.
    fn display_on(&mut self) -> (r: Result<(), ErrorCode>)
        ensures
            final(self).same_rest(old(self)),
            !old(self).lcd.initialized ==> if old(self).lcd.lcd_status == LCDStatus::Idle {
                r is Ok && final(self).lcd == old(self).lcd.delayed(LCDStatus::Begin0)
            } else {
                r == Err::<(), ErrorCode>(ErrorCode::BUSY) && *final(self) == *old(self)
            },
            old(self).lcd.initialized ==> final(self).control_requested(
                old(self),
                true,
                LCD_DISPLAYON,
                r,
            ),
    {
        if !self.lcd.initialized {
            if self.lcd.lcd_status == LCDStatus::Idle {
                self.set_delay(10, LCDStatus::Begin0);
                Ok(())
            } else {
                Err(ErrorCode::BUSY)
            }
        } else {
            self.screen_command(1, 0, LCD_DISPLAYON)
        }
    }

    /// Switches the display off.
    fn display_off(&mut self) -> (r: Result<(), ErrorCode>)
        ensures
            final(self).control_requested(old(self), false, LCD_DISPLAYON, r),
    {
        self.screen_command(1, 1, LCD_DISPLAYON)
    }

    /// Clears the display. Refused with `BUSY` unless the display is idle.
    fn clear(&mut self) -> (r: Result<(), ErrorCode>)
        ensures
            final(self).same_rest(old(self)),
            if old(self).lcd.lcd_status == LCDStatus::Idle {
                r is Ok && final(self).lcd == old(self).lcd.cleared(LCDStatus::Idle)
            } else {
                r == Err::<(), ErrorCode>(ErrorCode::BUSY) && *final(self) == *old(self)
            },
    {
        self.screen_command(2, 0, 0)
    }
}

} // verus!
