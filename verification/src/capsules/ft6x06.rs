//! Driver of a capacitive touch panel on a two-wire bus.
//!
//! The panel raises an interrupt when it has something to report. The
//! driver then reads the panel's registers in one transfer and decodes them
//! into a touch, a gesture, and the list of touches, for the clients
//! registered for each.

use vstd::prelude::*;
use crate::kernel::cells::TakeCell;
use crate::kernel::errorcode::ErrorCode;
use crate::kernel::hil::gpio::{InterruptEdge, InterruptPin};
use crate::kernel::hil::i2c::{Error, I2CDevice};
use crate::kernel::hil::touch::{GestureEvent, TouchEvent, TouchStatus};

verus! {

/// The number of registers read in one transfer.
pub const REGISTERS: usize = 15;

/// The register that the transfer starts with.
pub const REG_GEST_ID: u8 = 0x01;

/// The number of touches that the panel tells apart.
pub const MAX_TOUCHES: usize = 2;

/// The touch reported when nothing touches the panel.
pub fn no_touch() -> (r: TouchEvent)
    ensures
        r == (TouchEvent {
            id: 0,
            x: 0,
            y: 0,
            status: TouchStatus::Released,
            size: None,
            pressure: None,
        }),
{
    TouchEvent { id: 0, x: 0, y: 0, status: TouchStatus::Released, size: None, pressure: None }
}

/// What the two highest bits of a touch's first register say the finger
/// did.
pub open spec fn status_of(register: u8) -> Option<TouchStatus> {
    if register >> 6 == 0 {
        Some(TouchStatus::Pressed)
    } else if register >> 6 == 1 {
        Some(TouchStatus::Released)
    } else if register >> 6 == 2 {
        Some(TouchStatus::Moved)
    } else {
        None
    }
}

/// Decodes what a finger did.
pub fn decode_status(register: u8) -> (r: Option<TouchStatus>)
    ensures
        r == status_of(register),
{
    let v = register >> 6;
    if v == 0 {
        Some(TouchStatus::Pressed)
    } else if v == 1 {
        Some(TouchStatus::Released)
    } else if v == 2 {
        Some(TouchStatus::Moved)
    } else {
        None
    }
}

/// The gesture that the gesture register names.
pub open spec fn gesture_of(register: u8) -> Option<GestureEvent> {
    if register == 0x10 {
        Some(GestureEvent::SwipeUp)
    } else if register == 0x14 {
        Some(GestureEvent::SwipeRight)
    } else if register == 0x18 {
        Some(GestureEvent::SwipeDown)
    } else if register == 0x1C {
        Some(GestureEvent::SwipeLeft)
    } else if register == 0x48 {
        Some(GestureEvent::ZoomIn)
    } else if register == 0x49 {
        Some(GestureEvent::ZoomOut)
    } else {
        None
    }
}

/// Decodes the gesture register.
pub fn decode_gesture(register: u8) -> (r: Option<GestureEvent>)
    ensures
        r == gesture_of(register),
{
    if register == 0x10 {
        Some(GestureEvent::SwipeUp)
    } else if register == 0x14 {
        Some(GestureEvent::SwipeRight)
    } else if register == 0x18 {
        Some(GestureEvent::SwipeDown)
    } else if register == 0x1C {
        Some(GestureEvent::SwipeLeft)
    } else if register == 0x48 {
        Some(GestureEvent::ZoomIn)
    } else if register == 0x49 {
        Some(GestureEvent::ZoomOut)
    } else {
        None
    }
}

/// A coordinate: the four low bits of `high` above the eight of `low`.
pub open spec fn coordinate(high: u8, low: u8) -> u16 {
    ((((high & 0x0F) as u16) << 8) + (low as u16)) as u16
}

/// Decodes a coordinate.
pub fn decode_coordinate(high: u8, low: u8) -> (r: u16)
    ensures
        r == coordinate(high, low),
{
    let h = (high & 0x0F) as u16;
    assert(h <= 15) by (bit_vector)
        requires
            h == (high & 0x0F) as u16,
    ;
    let shifted = h << 8;
    assert(shifted <= 0x0F00) by (bit_vector)
        requires
            h <= 15,
            shifted == h << 8,
    ;
    shifted + (low as u16)
}

/// The touch that the six registers from `at` on describe, with the
/// status given; `id` tells whether the finger's number is reported or
/// zero.
pub open spec fn touch_at(buffer: Seq<u8>, at: int, status: TouchStatus, id: bool) -> TouchEvent {
    TouchEvent {
        status,
        x: coordinate(buffer[at], buffer[at + 1]),
        y: coordinate(buffer[at + 2], buffer[at + 3]),
        id: if id {
            (buffer[at + 2] >> 4) as usize
        } else {
            0
        },
        pressure: Some(buffer[at + 4] as u16),
        size: Some(buffer[at + 5] as u16),
    }
}

/// Decodes the touch that the six registers from `at` on describe.
pub fn decode_touch(buffer: &Vec<u8>, at: usize, status: TouchStatus, id: bool) -> (r: TouchEvent)
    requires
        at + 5 < buffer@.len(),
    ensures
        r == touch_at(buffer@, at as int, status, id),
{
    let _ = buffer.len();
    TouchEvent {
        status,
        x: decode_coordinate(buffer[at], buffer[at + 1]),
        y: decode_coordinate(buffer[at + 2], buffer[at + 3]),
        id: if id {
            (buffer[at + 2] >> 4) as usize
        } else {
            0
        },
        pressure: Some(buffer[at + 4] as u16),
        size: Some(buffer[at + 5] as u16),
    }
}

/// What the clients of the panel are told after one report.
#[derive(Clone, Copy, Debug, PartialEq, Eq, Structural)]
pub struct Report {
    /// For the client of single touches.
    pub touch: Option<TouchEvent>,
    /// For the client of gestures.
    pub gesture: Option<GestureEvent>,
    /// For the client of multiple touches: how many touches were stored in
    /// the list of touches.
    pub touches: Option<usize>,
}

/// The driver of the panel.
pub struct Ft6x06<I: I2CDevice, P: InterruptPin> {
    pub i2c: I,
    pub interrupt_pin: P,
    /// Whether a client is registered for single touches.
    pub touch_client: bool,
    /// Whether a client is registered for gestures.
    pub gesture_client: bool,
    /// Whether a client is registered for multiple touches.
    pub multi_touch_client: bool,
    pub num_touches: usize,
    pub buffer: TakeCell<Vec<u8>>,
    /// The list of touches of the last report.
    pub events: TakeCell<Vec<TouchEvent>>,
}

impl<I: I2CDevice, P: InterruptPin> Ft6x06<I, P> {
    /// The buffer, while it is with the driver, holds a whole report, and
    /// the list of touches has room for two.
    pub open spec fn wf(&self) -> bool {
        &&& (self.buffer.value matches Some(b) ==> b@.len() >= REGISTERS)
        &&& (self.events.value matches Some(e) ==> e@.len() >= MAX_TOUCHES)
    }

    /// The clients are those of `other`.
    pub open spec fn same_clients(&self, other: &Ft6x06<I, P>) -> bool {
        &&& self.touch_client == other.touch_client
        &&& self.gesture_client == other.gesture_client
        &&& self.multi_touch_client == other.multi_touch_client
    }

    /// Creates the driver of the panel behind `i2c` and lets the panel
    /// raise interrupts on falling edges.
    pub fn new(i2c: I, interrupt_pin: P, buffer: Vec<u8>, events: Vec<TouchEvent>) -> (r: Ft6x06<
        I,
        P,
    >)
        requires
            buffer@.len() >= REGISTERS,
            events@.len() >= MAX_TOUCHES,
        ensures
            r.wf(),
            r.i2c == i2c,
            r.interrupt_pin.interrupts_set(&interrupt_pin, Some(InterruptEdge::FallingEdge)),
            !r.touch_client,
            !r.gesture_client,
            !r.multi_touch_client,
            r.num_touches == 0,
            r.buffer.value == Some(buffer),
            r.events.value == Some(events),
    {
        let mut interrupt_pin = interrupt_pin;
        interrupt_pin.enable_interrupts(InterruptEdge::FallingEdge);
        Ft6x06 {
            i2c,
            interrupt_pin,
            touch_client: false,
            gesture_client: false,
            multi_touch_client: false,
            num_touches: 0,
            buffer: TakeCell::new(buffer),
            events: TakeCell::new(events),
        }
    }

    /// Registers the client for single touches.
    pub fn set_touch_client(&mut self)
        ensures
            *final(self) == (Ft6x06 { touch_client: true, ..*old(self) }),
    {
        self.touch_client = true;
    }

    /// Registers the client for gestures.
    pub fn set_gesture_client(&mut self)
        ensures
            *final(self) == (Ft6x06 { gesture_client: true, ..*old(self) }),
    {
        self.gesture_client = true;
    }

    /// Registers the client for multiple touches.
    pub fn set_multi_touch_client(&mut self)
        ensures
            *final(self) == (Ft6x06 { multi_touch_client: true, ..*old(self) }),
    {
        self.multi_touch_client = true;
    }

    /// The single touch that a report tells of: the first touch, if the
    /// panel counts no more than two and says what the finger did.
    pub open spec fn single(buffer: Seq<u8>) -> Option<TouchEvent> {
        if (buffer[1] & 0x0F) as usize <= MAX_TOUCHES {
            match status_of(buffer[2]) {
                Some(status) => Some(touch_at(buffer, 2, status, false)),
                None => None,
            }
        } else {
            None
        }
    }

    /// The touches that a report tells of: those of the two that say what
    /// the finger did, in order.
    pub open spec fn listed(buffer: Seq<u8>) -> Seq<TouchEvent> {
        let first = match status_of(buffer[2]) {
            Some(status) => seq![touch_at(buffer, 2, status, true)],
            None => Seq::<TouchEvent>::empty(),
        };
        match status_of(buffer[8]) {
            Some(status) => first.push(touch_at(buffer, 8, status, true)),
            None => first,
        }
    }

    /// The panel's report has arrived in `buffer`.
    ///
    /// The number of touches is taken from the report. If the panel counts
    /// no more than two, each client that is registered is told its part:
    /// the first touch, the gesture, and the touches, which are stored at
    /// the start of the list of touches. The buffer is with the driver
    /// again, and the panel may raise its next interrupt.
    pub fn command_complete(&mut self, buffer: Vec<u8>, _status: Result<(), Error>) -> (r: Report)
        requires
            old(self).wf(),
            buffer@.len() >= REGISTERS,
        ensures
            final(self).wf(),
            final(self).same_clients(old(self)),
            final(self).i2c == old(self).i2c,
            final(self).interrupt_pin.interrupts_set(
                &old(self).interrupt_pin,
                Some(InterruptEdge::FallingEdge),
            ),
            final(self).buffer.value == Some(buffer),
            final(self).num_touches == (buffer@[1] & 0x0F) as usize,
            r.touch == (if old(self).touch_client {
                Self::single(buffer@)
            } else {
                None
            }),
            r.gesture == (if old(self).gesture_client && final(self).num_touches <= MAX_TOUCHES {
                gesture_of(buffer@[0])
            } else {
                None
            }),
            final(self).events.value is Some <==> old(self).events.value is Some,
            if old(self).multi_touch_client && final(self).num_touches <= MAX_TOUCHES
                && old(self).events.value is Some {
                let listed = Self::listed(buffer@);
                &&& r.touches == Some(listed.len() as usize)
                &&& final(self).events.value->Some_0@.len() == old(self).events.value->Some_0@.len()
                &&& final(self).events.value->Some_0@.subrange(0, listed.len() as int) == listed
            } else {
                r.touches is None && final(self).events == old(self).events
            },
    {
        self.num_touches = (buffer[1] & 0x0F) as usize;
        let within = self.num_touches <= MAX_TOUCHES;
        let touch = if self.touch_client && within {
            match decode_status(buffer[2]) {
                Some(status) => Some(decode_touch(&buffer, 2, status, false)),
                None => None,
            }
        } else {
            None
        };
        let gesture = if self.gesture_client && within {
            decode_gesture(buffer[0])
        } else {
            None
        };
        let touches = if self.multi_touch_client && within {
            match self.events.take() {
                None => None,
                Some(mut events) => {
                    let mut num_touches: usize = 0;
                    match decode_status(buffer[2]) {
                        Some(status) => {
                            events[num_touches] = decode_touch(&buffer, 2, status, true);
                            num_touches += 1;
                        },
                        None => {},
                    }
                    match decode_status(buffer[8]) {
                        Some(status) => {
                            events[num_touches] = decode_touch(&buffer, 8, status, true);
                            num_touches += 1;
                        },
                        None => {},
                    }
                    assert(events@.subrange(0, num_touches as int) =~= Self::listed(buffer@));
                    self.events.put(Some(events));
                    Some(num_touches)
                },
            }
        } else {
            None
        };
        self.buffer.put(Some(buffer));
        self.interrupt_pin.enable_interrupts(InterruptEdge::FallingEdge);
        Report { touch, gesture, touches }
    }

    /// What becomes of the request for the registers once the bus has
    /// answered: refused, the buffer is back with the driver and the panel
    /// may raise its interrupt again.
    pub fn request_answered(&mut self, answer: Result<(), (Error, Vec<u8>)>)
        requires
            old(self).wf(),
            old(self).buffer.value is None,
            answer matches Err((_, b)) ==> b@.len() >= REGISTERS,
        ensures
            final(self).wf(),
            final(self).same_clients(old(self)),
            final(self).i2c == old(self).i2c,
            final(self).num_touches == old(self).num_touches,
            final(self).events == old(self).events,
            match answer {
                Ok(()) => *final(self) == *old(self),
                Err((_, b)) => final(self).buffer.value == Some(b)
                    && final(self).interrupt_pin.interrupts_set(
                    &old(self).interrupt_pin,
                    Some(InterruptEdge::FallingEdge),
                ),
            },
    {
        match answer {
            Ok(()) => {},
            Err((_err, buffer)) => {
                self.buffer.put(Some(buffer));
                self.interrupt_pin.enable_interrupts(InterruptEdge::FallingEdge);
            },
        }
    }

    /// This is the driver `before`, which held its buffer, after the
    /// panel's interrupt. The pin was told to raise no interrupts, which
    /// made it `off`. The bus was asked to write one byte of the buffer
    /// `tx`, the number of the first register, and to read all registers,
    /// and answered `a`. If it refused, the buffer that it handed back is
    /// with the driver and the pin was told to raise interrupts on falling
    /// edges again.
    pub open spec fn requested(
        &self,
        before: &Ft6x06<I, P>,
        off: P,
        tx: Vec<u8>,
        a: Result<(), (Error, Vec<u8>)>,
    ) -> bool {
        &&& off.interrupts_set(&before.interrupt_pin, None)
        &&& tx@ == before.buffer.value->Some_0@.update(0, REG_GEST_ID)
        &&& self.i2c.write_read_asked(&before.i2c, tx, 1, REGISTERS, a)
        &&& match a {
            Ok(()) => self.interrupt_pin == off && self.buffer.value is None,
            Err((_, b)) => self.buffer.value == Some(b) && self.interrupt_pin.interrupts_set(
                &off,
                Some(InterruptEdge::FallingEdge),
            ),
        }
    }

    /// The panel raised its interrupt: its registers are requested, and
    /// the interrupt stays off until they have arrived. If the bus refuses,
    /// the buffer is back with the driver and the interrupt is on again.
    /// Without the buffer nothing is done.
    pub fn fired(&mut self)
        requires
            old(self).wf(),
        ensures
            final(self).wf(),
            final(self).same_clients(old(self)),
            final(self).num_touches == old(self).num_touches,
            final(self).events == old(self).events,
            old(self).buffer.value is None ==> *final(self) == *old(self),
            final(self).buffer.value matches Some(b) ==> old(self).buffer.value is Some,
            old(self).buffer.value is Some ==> exists|
                off: P,
                tx: Vec<u8>,
                a: Result<(), (Error, Vec<u8>)>,
            | #[trigger] final(self).requested(old(self), off, tx, a),
    {
        match self.buffer.take() {
            None => {},
            Some(mut buffer) => {
                self.interrupt_pin.disable_interrupts();
                let ghost off = self.interrupt_pin;
                buffer[0] = REG_GEST_ID;
                let answer = self.i2c.write_read(buffer, 1, REGISTERS);
                let ghost a = answer;
                self.request_answered(answer);
                assert(buffer@ =~= old(self).buffer.value->Some_0@.update(0, REG_GEST_ID));
                assert(self.requested(old(self), off, buffer, a));
            },
        }
    }

    /// Switches the reporting of touches on: there is nothing to do.
    pub fn enable(&self) -> (r: Result<(), ErrorCode>)
        ensures
            r is Ok,
    {
        Ok(())
    }

    /// Switches the reporting of touches off: there is nothing to do.
    pub fn disable(&self) -> (r: Result<(), ErrorCode>)
        ensures
            r is Ok,
    {
        Ok(())
    }

    /// The number of touches that the panel tells apart.
    pub fn get_num_touches(&self) -> (r: usize)
        ensures
            r == MAX_TOUCHES,
    {
        MAX_TOUCHES
    }

    /// The touch with the number `index` of the last report, read from the
    /// registers as the buffer holds them: seven registers for each touch,
    /// behind the first. A finger of which the registers do not say what it
    /// did counts as released. Nothing is answered without the buffer, for
    /// a number above that of the touches, or for registers that the buffer
    /// does not hold.
    pub fn get_touch(&self, index: usize) -> (r: Option<TouchEvent>)
        requires
            self.wf(),
        ensures
            r == (match self.buffer.value {
                Some(b) => if index <= self.num_touches && index * 7 + 7 < b@.len() {
                    Some(
                        touch_at(
                            b@,
                            index * 7 + 2,
                            match status_of(b@[index * 7 + 1]) {
                                Some(s) => s,
                                None => TouchStatus::Released,
                            },
                            false,
                        ),
                    )
                } else {
                    None
                },
                None => None,
            }),
    {
        match &self.buffer.value {
            None => None,
            Some(buffer) => {
                let len = buffer.len();
                if index <= self.num_touches && index < len / 7 && index * 7 + 7 < len {
                    let offset = index * 7;
                    let status = match decode_status(buffer[offset + 1]) {
                        Some(s) => s,
                        None => TouchStatus::Released,
                    };
                    Some(decode_touch(buffer, offset + 2, status, false))
                } else {
                    None
                }
            },
        }
    }
}

} // verus!
