//! Driver of a ferroelectric memory on a serial peripheral bus.
//!
//! A read is one transfer. A write is two: the chip is told to accept
//! writes, then address and bytes follow. The client's buffer stays with
//! the driver for the time of its transfer and comes back with the
//! completion, or with the refusal of the request.

use vstd::prelude::*;
use crate::kernel::cells::TakeCell;
use crate::kernel::errorcode::ErrorCode;
use crate::kernel::grant::{copy_slice, spliced};
use crate::kernel::hil::nonvolatile_storage::{Done, NonvolatileStorage};
use crate::kernel::hil::spi::{ClockPhase, ClockPolarity, SpiMasterDevice};
use crate::kernel::math::{least, smaller};

verus! {

/// The length of the buffers that the driver is made with.
pub const BUF_LEN: usize = 512;

/// The fewest bytes that each of the driver's buffers must hold: a command
/// with its address and one byte.
pub const MIN_LEN: usize = 4;

/// The rate of the bus in bits per second.
pub const SPI_SPEED: u32 = 4000000;

/// The command that allows the next write.
pub const OP_WRITE_ENABLE: u8 = 0x06;

/// The command that reads the status register.
pub const OP_READ_STATUS_REGISTER: u8 = 0x05;

/// The command that reads from the memory.
pub const OP_READ_MEMORY: u8 = 0x03;

/// The command that writes to the memory.
pub const OP_WRITE_MEMORY: u8 = 0x02;

/// What the driver waits for.
#[derive(Clone, Copy, Debug, PartialEq, Eq, Structural)]
pub enum State {
    Idle,
    ReadStatus,
    WriteEnable,
    WriteMemory,
    ReadMemory,
}

/// Requests that only this chip understands.
pub trait FM25CLCustom {
    /// The chip is in a state in which it can be asked.
    spec fn ready(&self) -> bool;

    /// Requests the status register.
    fn read_status(&mut self) -> (r: Result<(), ErrorCode>)
        requires
            old(self).ready(),
        ensures
            final(self).ready(),
    ;
}

/// The receiver of what only this chip reports.
pub trait FM25CLClient {
    /// What being told the status `status` has made of the receiver that
    /// was `before`.
    spec fn told_status(&self, before: &Self, status: u8) -> bool;

    /// What being told that a read is done, with `len` bytes in `data`,
    /// has made of the receiver that was `before`.
    spec fn told_read(&self, before: &Self, data: Vec<u8>, len: usize) -> bool;

    /// What being told that a write is done, with `buffer` back, has made
    /// of the receiver that was `before`.
    spec fn told_done(&self, before: &Self, buffer: Vec<u8>) -> bool;

    /// The status register was read.
    fn status(&mut self, status: u8)
        ensures
            final(self).told_status(old(self), status),
    ;

    /// A read is done: `len` bytes are in `data`.
    fn read(&mut self, data: Vec<u8>, len: usize)
        ensures
            final(self).told_read(old(self), data, len),
    ;

    /// A write is done.
    fn done(&mut self, buffer: Vec<u8>)
        ensures
            final(self).told_done(old(self), buffer),
    ;
}

/// What the clients of the memory are told.
pub enum Event {
    /// The value of the status register, for the client of the chip.
    Status(u8),
    /// A read is done, for the client of the storage.
    ReadDone(Done),
    /// A write is done, for the client of the storage.
    WriteDone(Done),
}

/// Tells `client` of `event`, as far as the event is one for the client of
/// the chip; an event for the client of the storage comes back.
pub fn deliver<C: FM25CLClient>(client: &mut C, event: Event) -> (r: Option<Event>)
    ensures
        event matches Event::Status(s) ==> r is None && final(client).told_status(old(client), s),
        !(event is Status) ==> r == Some(event) && *final(client) == *old(client),
{
    match event {
        Event::Status(s) => {
            client.status(s);
            None
        },
        e => Some(e),
    }
}

/// The high byte of an address.
pub open spec fn address_high(address: u16) -> u8 {
    ((address >> 8) & 0xFF) as u8
}

/// The low byte of an address.
pub open spec fn address_low(address: u16) -> u8 {
    (address & 0xFF) as u8
}

/// The driver of the memory.
pub struct FM25CL<S: SpiMasterDevice> {
    pub spi: S,
    pub state: State,
    pub txbuffer: TakeCell<Vec<u8>>,
    pub rxbuffer: TakeCell<Vec<u8>>,
    /// Whether a client of the storage is registered.
    pub client: bool,
    /// Whether a client of the chip is registered.
    pub client_custom: bool,
    /// The buffer of the client whose transfer is under way.
    pub client_buffer: TakeCell<Vec<u8>>,
    pub client_write_address: u16,
    pub client_write_len: u16,
}

impl<S: SpiMasterDevice> FM25CL<S> {
    /// The driver's buffers, while they are with the driver, can hold a
    /// command with its address and a byte, and the buffer for sending is
    /// away while a transfer is under way.
    pub open spec fn wf(&self) -> bool {
        &&& (self.txbuffer.value matches Some(b) ==> b@.len() >= MIN_LEN)
        &&& (self.rxbuffer.value matches Some(b) ==> b@.len() >= MIN_LEN)
        &&& (self.state != State::Idle ==> self.txbuffer.value is None)
    }

    /// The clients are those of `other`.
    pub open spec fn same_clients(&self, other: &FM25CL<S>) -> bool {
        self.client == other.client && self.client_custom == other.client_custom
    }

    /// Creates the driver of the memory behind `spi`.
    pub fn new(spi: S, txbuffer: Vec<u8>, rxbuffer: Vec<u8>) -> (r: FM25CL<S>)
        requires
            txbuffer@.len() >= MIN_LEN,
            rxbuffer@.len() >= MIN_LEN,
        ensures
            r.wf(),
            r.spi == spi,
            r.state == State::Idle,
            r.txbuffer.value == Some(txbuffer),
            r.rxbuffer.value == Some(rxbuffer),
            !r.client,
            !r.client_custom,
            r.client_buffer.value is None,
            r.client_write_address == 0,
            r.client_write_len == 0,
    {
        FM25CL {
            spi,
            state: State::Idle,
            txbuffer: TakeCell::new(txbuffer),
            rxbuffer: TakeCell::new(rxbuffer),
            client: false,
            client_custom: false,
            client_buffer: TakeCell::empty(),
            client_write_address: 0,
            client_write_len: 0,
        }
    }

    /// Registers the client of the chip.
    pub fn set_client(&mut self)
        ensures
            *final(self) == (FM25CL { client_custom: true, ..*old(self) }),
    {
        self.client_custom = true;
    }

    /// Registers the client of the storage.
    pub fn set_storage_client(&mut self)
        ensures
            *final(self) == (FM25CL { client: true, ..*old(self) }),
    {
        self.client = true;
    }

    /// The bus of this driver is what the bus of `before` became by a
    /// request. First the bus was set up for the chip, which it answered
    /// with `set_up` and which made it `mid`. If that was accepted and the
    /// driver had the buffers that the request needs, the bus was then asked
    /// for a transfer of `len` bytes with the buffer `tx`, which holds
    /// `bytes`, and with the buffer for receiving if the request reads; it
    /// answered `a`: accepted, the buffers that went to the bus are away;
    /// refused, the holders hold the buffers that the bus handed back.
    /// Otherwise it was asked nothing more, and the holders are as they
    /// were.
    pub open spec fn bus_asked(
        &self,
        before: &FM25CL<S>,
        bytes: Seq<u8>,
        read: bool,
        len: usize,
        set_up: Result<(), ErrorCode>,
        mid: S,
        tx: Vec<u8>,
        a: Result<(), (ErrorCode, Vec<u8>, Option<Vec<u8>>)>,
    ) -> bool {
        &&& mid.configured(
            &before.spi,
            ClockPolarity::IdleLow,
            ClockPhase::SampleLeading,
            SPI_SPEED,
            set_up,
        )
        &&& if set_up is Ok && before.has_buffers(read) {
            &&& tx@ == bytes
            &&& self.spi.transferred(
                &mid,
                tx,
                if read {
                    before.rxbuffer.value
                } else {
                    None
                },
                len,
                a,
            )
            &&& match a {
                Ok(()) => self.txbuffer.value is None && self.rxbuffer.value == (if read {
                    None
                } else {
                    before.rxbuffer.value
                }),
                Err((_, w, rd)) => self.txbuffer.value == Some(w) && self.rxbuffer.value == (
                if read {
                    rd
                } else {
                    before.rxbuffer.value
                }),
            }
        } else {
            &&& self.spi == mid
            &&& self.txbuffer == before.txbuffer
            &&& self.rxbuffer == before.rxbuffer
        }
    }

    /// The driver holds the buffers that a request needs: the one for
    /// sending, and the one for receiving if the request reads.
    pub open spec fn has_buffers(&self, read: bool) -> bool {
        self.txbuffer.value is Some && (read ==> self.rxbuffer.value is Some)
    }

    /// What a request is answered, given the answers `set_up` and `a` of
    /// the bus (see `bus_asked`): the reason for which the bus could not be
    /// set up; else `RESERVE` without the buffers; else the reason for which
    /// the bus refused the transfer, if it did.
    pub open spec fn answer(
        set_up: Result<(), ErrorCode>,
        has_buffers: bool,
        a: Result<(), (ErrorCode, Vec<u8>, Option<Vec<u8>>)>,
    ) -> Result<(), ErrorCode> {
        match set_up {
            Err(e) => Err(e),
            Ok(()) => if !has_buffers {
                Err(ErrorCode::RESERVE)
            } else {
                match a {
                    Ok(()) => Ok(()),
                    Err((e, _, _)) => Err(e),
                }
            },
        }
    }

    /// What a request that carries the client's `buffer` is answered:
    /// `answer`, with the buffer handed back in a refusal.
    pub open spec fn answer_with(
        answer: Result<(), ErrorCode>,
        buffer: Vec<u8>,
    ) -> Result<(), (ErrorCode, Vec<u8>)> {
        match answer {
            Ok(()) => Ok(()),
            Err(e) => Err((e, buffer)),
        }
    }

    /// Sets the bus up for the chip: a clock that idles low, data sampled
    /// on the leading edge, at `SPI_SPEED`. The answer is the bus's.
    pub fn configure_spi(&mut self) -> (r: Result<(), ErrorCode>)
        ensures
            final(self).spi.configured(
                &old(self).spi,
                ClockPolarity::IdleLow,
                ClockPhase::SampleLeading,
                SPI_SPEED,
                r,
            ),
            final(self).state == old(self).state,
            final(self).txbuffer == old(self).txbuffer,
            final(self).rxbuffer == old(self).rxbuffer,
            final(self).client_buffer == old(self).client_buffer,
            final(self).same_clients(old(self)),
            final(self).client_write_address == old(self).client_write_address,
            final(self).client_write_len == old(self).client_write_len,
    {
        self.spi.configure(ClockPolarity::IdleLow, ClockPhase::SampleLeading, SPI_SPEED)
    }

    /// What becomes of a transfer once the bus has answered: accepted, the
    /// driver waits in state `next` for its completion; refused, the
    /// driver's buffers are back with it, the driver is idle, and the bus's
    /// reason is returned.
    pub fn transfer_answered(
        &mut self,
        answer: Result<(), (ErrorCode, Vec<u8>, Option<Vec<u8>>)>,
        next: State,
    ) -> (r: Result<(), ErrorCode>)
        requires
            old(self).wf(),
            old(self).txbuffer.value is None,
            next != State::Idle,
            answer matches Err((_, tx, rx)) ==> tx@.len() >= MIN_LEN && (rx matches Some(b)
                ==> b@.len() >= MIN_LEN),
        ensures
            final(self).wf(),
            final(self).spi == old(self).spi,
            final(self).same_clients(old(self)),
            final(self).client_buffer == old(self).client_buffer,
            final(self).client_write_address == old(self).client_write_address,
            final(self).client_write_len == old(self).client_write_len,
            match answer {
                Ok(()) => r == Ok::<(), ErrorCode>(()) && final(self).state == next
                    && final(self).txbuffer.value is None && final(self).rxbuffer
                    == old(self).rxbuffer,
                Err((e, tx, rx)) => {
                    &&& r == Err::<(), ErrorCode>(e)
                    &&& final(self).state == State::Idle
                    &&& final(self).txbuffer.value == Some(tx)
                    &&& rx is Some ==> final(self).rxbuffer.value == rx
                    &&& rx is None ==> final(self).rxbuffer == old(self).rxbuffer
                },
            },
    {
        match answer {
            Ok(()) => {
                self.state = next;
                Ok(())
            },
            Err((err, txbuffer, rxbuffer)) => {
                self.state = State::Idle;
                self.txbuffer.put(Some(txbuffer));
                self.keep(rxbuffer);
                Err(err)
            },
        }
    }

    /// The driver after a request with the client's `buffer` was refused:
    /// none of its buffers has moved, and the client's buffer is back with
    /// the client.
    pub open spec fn unmoved(&self, before: &FM25CL<S>) -> bool {
        &&& self.wf()
        &&& self.same_clients(before)
        &&& self.state == before.state
        &&& (self.txbuffer.value is Some <==> before.txbuffer.value is Some)
        &&& (self.rxbuffer.value is Some <==> before.rxbuffer.value is Some)
        &&& self.client_buffer == before.client_buffer
    }

    /// The driver after a write of `len` bytes of `buffer` at `address`
    /// was requested on `before` and answered with `r`: see `write`.
    pub open spec fn write_requested(
        &self,
        before: &FM25CL<S>,
        address: u16,
        buffer: Vec<u8>,
        len: u16,
        r: Result<(), (ErrorCode, Vec<u8>)>,
    ) -> bool {
        &&& self.wf()
        &&& self.same_clients(before)
        &&& (r matches Err((e, b)) ==> {
            &&& b == buffer
            &&& self.unmoved(before)
            &&& self.client_write_address == before.client_write_address
            &&& self.client_write_len == before.client_write_len
        })
        &&& (before.txbuffer.value is None ==> r is Err)
        &&& exists|
            set_up: Result<(), ErrorCode>,
            mid: S,
            tx: Vec<u8>,
            a: Result<(), (ErrorCode, Vec<u8>, Option<Vec<u8>>)>,
        |
            #[trigger] self.bus_asked(
                before,
                before.txbuffer.value->Some_0@.update(0, OP_WRITE_ENABLE),
                false,
                1,
                set_up,
                mid,
                tx,
                a,
            ) && r == Self::answer_with(
                Self::answer(set_up, before.has_buffers(false), a),
                buffer,
            )
        &&& (r is Ok ==> {
            &&& self.state == State::WriteEnable
            &&& self.txbuffer.value is None
            &&& self.rxbuffer == before.rxbuffer
            &&& self.client_buffer.value == Some(buffer)
            &&& self.client_write_address == address
            &&& self.client_write_len == least(
                before.txbuffer.value->Some_0@.len() as int,
                len as int,
            )
        })
    }

    /// Writes `len` bytes of `buffer` at `address`, as far as the driver's
    /// buffer can carry them.
    ///
    /// The request is refused with the bus's reason if the bus cannot be
    /// set up or refuses the transfer, and with `RESERVE` without the
    /// driver's buffer for sending; a refusal hands `buffer` back and moves
    /// none of the driver's buffers. Accepted, the client's buffer stays
    /// with the driver, which has told the chip to accept writes and waits
    /// for that transfer to complete.
    pub fn write(&mut self, address: u16, buffer: Vec<u8>, len: u16) -> (r: Result<
        (),
        (ErrorCode, Vec<u8>),
    >)
        requires
            old(self).wf(),
        ensures
            final(self).write_requested(old(self), address, buffer, len, r),
    {
        let ghost bytes = old(self).txbuffer.value->Some_0@.update(0, OP_WRITE_ENABLE);
        let ghost none = Ok::<(), (ErrorCode, Vec<u8>, Option<Vec<u8>>)>(());
        let set_up = self.configure_spi();
        let ghost mid = self.spi;
        match set_up {
            Err(e) => {
                assert(self.bus_asked(old(self), bytes, false, 1, set_up, mid, buffer, none));
                return Err((e, buffer));
            },
            Ok(()) => {},
        }
        match self.txbuffer.take() {
            None => {
                assert(self.bus_asked(old(self), bytes, false, 1, set_up, mid, buffer, none));
                Err((ErrorCode::RESERVE, buffer))
            },
            Some(mut txbuffer) => {
                txbuffer[0] = OP_WRITE_ENABLE;
                let write_len = smaller(txbuffer.len(), len as usize);
                let answer = self.spi.read_write_bytes(txbuffer, None, 1);
                let ghost a = answer;
                let started = self.transfer_answered(answer, State::WriteEnable);
                let r = match started {
                    Ok(()) => {
                        self.client_buffer.replace(buffer);
                        self.client_write_address = address;
                        self.client_write_len = write_len as u16;
                        Ok(())
                    },
                    Err(err) => Err((err, buffer)),
                };
                assert(txbuffer@ =~= bytes);
                assert(self.bus_asked(old(self), bytes, false, 1, set_up, mid, txbuffer, a));
                r
            },
        }
    }

    /// The driver after a read of `len` bytes at `address` into `buffer`
    /// was requested on `before` and answered with `r`: see `read`.
    pub open spec fn read_requested(
        &self,
        before: &FM25CL<S>,
        address: u16,
        buffer: Vec<u8>,
        len: u16,
        r: Result<(), (ErrorCode, Vec<u8>)>,
    ) -> bool {
        &&& self.wf()
        &&& self.same_clients(before)
        &&& self.client_write_address == before.client_write_address
        &&& self.client_write_len == before.client_write_len
        &&& (r matches Err((e, b)) ==> b == buffer && self.unmoved(before))
        &&& (before.txbuffer.value is None || before.rxbuffer.value is None ==> r is Err)
        &&& exists|
            set_up: Result<(), ErrorCode>,
            mid: S,
            tx: Vec<u8>,
            a: Result<(), (ErrorCode, Vec<u8>, Option<Vec<u8>>)>,
        |
            #[trigger] self.bus_asked(
                before,
                before.txbuffer.value->Some_0@.update(0, OP_READ_MEMORY).update(
                    1,
                    address_high(address),
                ).update(2, address_low(address)),
                true,
                (least(before.rxbuffer.value->Some_0@.len() - 3, len as int) + 3) as usize,
                set_up,
                mid,
                tx,
                a,
            ) && r == Self::answer_with(
                Self::answer(set_up, before.has_buffers(true), a),
                buffer,
            )
        &&& (r is Ok ==> {
            &&& self.state == State::ReadMemory
            &&& self.txbuffer.value is None
            &&& self.rxbuffer.value is None
            &&& self.client_buffer.value == Some(buffer)
        })
    }

    /// Reads `len` bytes at `address` into `buffer`, as far as the
    /// driver's buffer can carry them.
    ///
    /// The request is refused with the bus's reason if the bus cannot be
    /// set up or refuses the transfer, and with `RESERVE` without both of
    /// the driver's buffers; a refusal hands `buffer` back and moves none of
    /// the driver's buffers. Accepted, the client's buffer stays with the
    /// driver, which waits for the transfer to complete.
    pub fn read(&mut self, address: u16, buffer: Vec<u8>, len: u16) -> (r: Result<
        (),
        (ErrorCode, Vec<u8>),
    >)
        requires
            old(self).wf(),
        ensures
            final(self).read_requested(old(self), address, buffer, len, r),
    {
        let ghost bytes = old(self).txbuffer.value->Some_0@.update(0, OP_READ_MEMORY).update(
            1,
            address_high(address),
        ).update(2, address_low(address));
        let ghost count = (least(old(self).rxbuffer.value->Some_0@.len() - 3, len as int)
            + 3) as usize;
        let ghost none = Ok::<(), (ErrorCode, Vec<u8>, Option<Vec<u8>>)>(());
        let set_up = self.configure_spi();
        let ghost mid = self.spi;
        match set_up {
            Err(e) => {
                assert(self.bus_asked(old(self), bytes, true, count, set_up, mid, buffer, none));
                return Err((e, buffer));
            },
            Ok(()) => {},
        }
        match self.txbuffer.take() {
            None => {
                assert(self.bus_asked(old(self), bytes, true, count, set_up, mid, buffer, none));
                Err((ErrorCode::RESERVE, buffer))
            },
            Some(mut txbuffer) => match self.rxbuffer.take() {
                None => {
                    self.txbuffer.put(Some(txbuffer));
                    assert(self.bus_asked(
                        old(self),
                        bytes,
                        true,
                        count,
                        set_up,
                        mid,
                        buffer,
                        none,
                    ));
                    Err((ErrorCode::RESERVE, buffer))
                },
                Some(rxbuffer) => {
                    txbuffer[0] = OP_READ_MEMORY;
                    txbuffer[1] = ((address >> 8) & 0xFF) as u8;
                    txbuffer[2] = (address & 0xFF) as u8;
                    let read_len = smaller(rxbuffer.len() - 3, len as usize);
                    let answer = self.spi.read_write_bytes(txbuffer, Some(rxbuffer), read_len + 3);
                    let ghost a = answer;
                    let started = self.transfer_answered(answer, State::ReadMemory);
                    let r = match started {
                        Ok(()) => {
                            self.client_buffer.replace(buffer);
                            Ok(())
                        },
                        Err(err) => Err((err, buffer)),
                    };
                    assert(txbuffer@ =~= bytes);
                    assert(self.bus_asked(
                        old(self),
                        bytes,
                        true,
                        count,
                        set_up,
                        mid,
                        txbuffer,
                        a,
                    ));
                    r
                },
            },
        }
    }

    /// The driver after the status register was requested on `before`
    /// and answered with `r`: see `request_status`.
    pub open spec fn status_requested(
        &self,
        before: &FM25CL<S>,
        r: Result<(), ErrorCode>,
    ) -> bool {
        &&& self.wf()
        &&& self.same_clients(before)
        &&& self.client_buffer == before.client_buffer
        &&& (r is Err ==> self.unmoved(before))
        &&& (before.txbuffer.value is None || before.rxbuffer.value is None ==> r is Err)
        &&& (r is Ok ==> self.state == State::ReadStatus && self.txbuffer.value
            is None && self.rxbuffer.value is None)
        &&& (exists|
            set_up: Result<(), ErrorCode>,
            mid: S,
            tx: Vec<u8>,
            a: Result<(), (ErrorCode, Vec<u8>, Option<Vec<u8>>)>,
        |
            #[trigger] self.bus_asked(
                before,
                before.txbuffer.value->Some_0@.update(0, OP_READ_STATUS_REGISTER),
                true,
                4,
                set_up,
                mid,
                tx,
                a,
            ) && r == Self::answer(set_up, before.has_buffers(true), a))
    }

    /// Requests the status register.
    ///
    /// Refused with the bus's reason if the bus cannot be set up or refuses
    /// the transfer, and with `RESERVE` without both of the driver's
    /// buffers; then none of the buffers has moved. Accepted, the driver
    /// waits for the transfer to complete.
    pub fn request_status(&mut self) -> (r: Result<(), ErrorCode>)
        requires
            old(self).wf(),
        ensures
            final(self).status_requested(old(self), r),
    {
        let ghost bytes = old(self).txbuffer.value->Some_0@.update(0, OP_READ_STATUS_REGISTER);
        let ghost none = Ok::<(), (ErrorCode, Vec<u8>, Option<Vec<u8>>)>(());
        let ghost any = old(self).txbuffer.value->Some_0;
        let set_up = self.configure_spi();
        let ghost mid = self.spi;
        match set_up {
            Err(e) => {
                assert(self.bus_asked(old(self), bytes, true, 4, set_up, mid, any, none));
                return Err(e);
            },
            Ok(()) => {},
        }
        match self.txbuffer.take() {
            None => {
                assert(self.bus_asked(old(self), bytes, true, 4, set_up, mid, any, none));
                Err(ErrorCode::RESERVE)
            },
            Some(mut txbuffer) => match self.rxbuffer.take() {
                None => {
                    self.txbuffer.put(Some(txbuffer));
                    assert(self.bus_asked(old(self), bytes, true, 4, set_up, mid, any, none));
                    Err(ErrorCode::RESERVE)
                },
                Some(rxbuffer) => {
                    txbuffer[0] = OP_READ_STATUS_REGISTER;
                    let answer = self.spi.read_write_bytes(txbuffer, Some(rxbuffer), 4);
                    let ghost a = answer;
                    let r = self.transfer_answered(answer, State::ReadStatus);
                    assert(txbuffer@ =~= bytes);
                    assert(self.bus_asked(old(self), bytes, true, 4, set_up, mid, txbuffer, a));
                    r
                },
            },
        }
    }

    /// The number of bytes of a write that travel with the second
    /// transfer: no more than were asked for, than the client's buffer
    /// holds, and than fit behind command and address.
    pub open spec fn payload(write_buffer_len: int, client_len: int, asked: int) -> int {
        least(least(write_buffer_len - 3, asked), client_len)
    }

    /// The bus of this driver is what the bus of `before` became by the
    /// second transfer of a write, behind the one that told the chip to
    /// accept writes and handed back `write_buffer` and `read_buffer`. The
    /// buffer `tx` holds the command to write, the address, and behind them
    /// the client's bytes, as many as `payload` says; the bus was asked to
    /// transfer those bytes, with the buffer for receiving if one came back,
    /// and answered `a`. Accepted, the driver waits for the transfer without
    /// the buffer for sending; refused, the driver is idle and the holders
    /// hold the buffers that the bus handed back.
    pub open spec fn written_on(
        &self,
        before: &FM25CL<S>,
        write_buffer: Vec<u8>,
        read_buffer: Option<Vec<u8>>,
        tx: Vec<u8>,
        a: Result<(), (ErrorCode, Vec<u8>, Option<Vec<u8>>)>,
    ) -> bool {
        let client = before.client_buffer.value->Some_0;
        let n = Self::payload(
            write_buffer@.len() as int,
            client@.len() as int,
            before.client_write_len as int,
        );
        &&& tx@ == spliced(
            write_buffer@.update(0, OP_WRITE_MEMORY).update(
                1,
                address_high(before.client_write_address),
            ).update(2, address_low(before.client_write_address)),
            3,
            client@,
            0,
            n,
        )
        &&& self.spi.transferred(&before.spi, tx, read_buffer, (n + 3) as usize, a)
        &&& match a {
            Ok(()) => self.state == State::WriteMemory && self.txbuffer.value is None
                && self.rxbuffer == before.rxbuffer,
            Err((_, w, rd)) => self.state == State::Idle && self.txbuffer.value == Some(w)
                && self.rxbuffer.value == (if rd is Some {
                rd
            } else {
                before.rxbuffer.value
            }),
        }
    }

    /// The bus reports a transfer done and hands the buffers back.
    ///
    /// After the status was read, the driver is idle with its buffers and
    /// the client of the chip is told the status. After the chip was told
    /// to accept writes, the address and the client's bytes go out with the
    /// second transfer; if the bus refuses it, the write ends there. After
    /// that transfer, and after a read, the driver is idle with its buffers
    /// and the client's buffer goes back with the event for the client of
    /// the storage; after a read it holds the bytes read, behind the three
    /// bytes that the chip sends first. A completion that the driver does
    /// not wait for only returns the buffers.
    pub fn read_write_done(
        &mut self,
        write_buffer: Vec<u8>,
        read_buffer: Option<Vec<u8>>,
        len: usize,
        _status: Result<(), ErrorCode>,
    ) -> (r: Option<Event>)
        requires
            old(self).wf(),
            write_buffer@.len() >= MIN_LEN,
            read_buffer matches Some(b) ==> b@.len() >= MIN_LEN,
        ensures
            final(self).wf(),
            final(self).same_clients(old(self)),
            match old(self).state {
                State::Idle => r is None && final(self).state == State::Idle,
                State::ReadStatus => {
                    &&& final(self).state == State::Idle
                    &&& final(self).txbuffer.value == Some(write_buffer)
                    &&& read_buffer is Some ==> final(self).rxbuffer.value == read_buffer
                    &&& r matches Some(e) ==> e == Event::Status(read_buffer->Some_0@[1])
                    &&& r is Some <==> old(self).client_custom && read_buffer is Some
                },
                State::WriteEnable => {
                    &&& r is None
                    &&& final(self).state == State::WriteMemory || final(self).state == State::Idle
                    &&& final(self).state == State::WriteMemory ==> final(self).txbuffer.value
                        is None
                    &&& final(self).state == State::Idle ==> final(self).txbuffer.value is Some
                },
                State::WriteMemory => {
                    &&& final(self).state == State::Idle
                    &&& final(self).txbuffer.value == Some(write_buffer)
                    &&& read_buffer is Some ==> final(self).rxbuffer.value == read_buffer
                    &&& final(self).client_buffer.value is None
                    &&& match old(self).client_buffer.value {
                        Some(b) => r matches Some(Event::WriteDone(d)) && d.buffer == b && d.length
                            == least(write_buffer@.len() as int, old(self).client_write_len as int),
                        None => r is None,
                    }
                },
                State::ReadMemory => {
                    &&& final(self).state == State::Idle
                    &&& final(self).txbuffer.value == Some(write_buffer)
                    &&& read_buffer is Some ==> final(self).rxbuffer.value == read_buffer
                    &&& match (old(self).client_buffer.value, read_buffer) {
                        (Some(b), Some(rb)) => {
                            let n = Self::got(b@.len() as int, rb@.len() as int, len as int);
                            &&& final(self).client_buffer.value is None
                            &&& r matches Some(Event::ReadDone(d)) && d.length == n && d.buffer@
                                == spliced(b@, 0, rb@, 3, n)
                        },
                        _ => r is None && final(self).client_buffer == old(self).client_buffer,
                    }
                },
            },
            old(self).state != State::WriteEnable || old(self).client_buffer.value is None
                ==> final(self).spi == old(self).spi,
            old(self).state == State::WriteEnable && old(self).client_buffer.value is Some
                ==> exists|tx: Vec<u8>, a: Result<(), (ErrorCode, Vec<u8>, Option<Vec<u8>>)>|
             #[trigger] final(self).written_on(old(self), write_buffer, read_buffer, tx, a),
    {
        let ghost given = write_buffer;
        match self.state {
            State::ReadStatus => {
                self.state = State::Idle;
                self.txbuffer.put(Some(write_buffer));
                match read_buffer {
                    None => None,
                    Some(read_buffer) => {
                        let status = read_buffer[1];
                        self.rxbuffer.put(Some(read_buffer));
                        if self.client_custom {
                            Some(Event::Status(status))
                        } else {
                            None
                        }
                    },
                }
            },
            State::WriteEnable => {
                let mut write_buffer = write_buffer;
                match self.client_buffer.take() {
                    None => {
                        self.state = State::Idle;
                        self.txbuffer.put(Some(write_buffer));
                        self.keep(read_buffer);
                        None
                    },
                    Some(buffer) => {
                        write_buffer[0] = OP_WRITE_MEMORY;
                        write_buffer[1] = ((self.client_write_address >> 8) & 0xFF) as u8;
                        write_buffer[2] = (self.client_write_address & 0xFF) as u8;
                        let write_len = smaller(
                            smaller(write_buffer.len() - 3, self.client_write_len as usize),
                            buffer.len(),
                        );
                        copy_slice(&mut write_buffer, 3, &buffer, 0, write_len);
                        self.client_buffer.put(Some(buffer));
                        let answer = self.spi.read_write_bytes(
                            write_buffer,
                            read_buffer,
                            write_len + 3,
                        );
                        let ghost a = answer;
                        let _ = self.transfer_answered(answer, State::WriteMemory);
                        assert(self.written_on(old(self), given, read_buffer, write_buffer, a));
                        None
                    },
                }
            },
            State::WriteMemory => {
                self.state = State::Idle;
                let write_len = smaller(write_buffer.len(), self.client_write_len as usize);
                self.txbuffer.put(Some(write_buffer));
                self.keep(read_buffer);
                match self.client_buffer.take() {
                    None => None,
                    Some(buffer) => Some(Event::WriteDone(Done { buffer, length: write_len })),
                }
            },
            State::ReadMemory => {
                self.state = State::Idle;
                self.txbuffer.put(Some(write_buffer));
                match read_buffer {
                    None => None,
                    Some(read_buffer) => {
                        let r = match self.client_buffer.take() {
                            None => None,
                            Some(mut buffer) => {
                                let read_len = smaller(buffer.len(), len);
                                let wanted = if read_len >= 3 {
                                    read_len - 3
                                } else {
                                    0
                                };
                                let n = smaller(wanted, read_buffer.len() - 3);
                                copy_slice(&mut buffer, 0, &read_buffer, 3, n);
                                Some(Event::ReadDone(Done { buffer, length: n }))
                            },
                        };
                        self.rxbuffer.put(Some(read_buffer));
                        r
                    },
                }
            },
            State::Idle => {
                if self.txbuffer.is_none() {
                    self.txbuffer.put(Some(write_buffer));
                }
                self.keep(read_buffer);
                None
            },
        }
    }

    /// The number of bytes that a read delivers: what the transfer
    /// carried behind the three bytes that the chip sends first, as far as
    /// the client's buffer and the driver's reach.
    pub open spec fn got(client_len: int, read_buffer_len: int, len: int) -> int {
        let read_len = least(client_len, len);
        least(
            if read_len >= 3 {
                read_len - 3
            } else {
                0
            },
            read_buffer_len - 3,
        )
    }

    /// Stores the buffer for receiving, if one came back.
    fn keep(&mut self, read_buffer: Option<Vec<u8>>)
        requires
            read_buffer matches Some(b) ==> b@.len() >= MIN_LEN,
        ensures
            read_buffer is Some ==> final(self).rxbuffer.value == read_buffer,
            read_buffer is None ==> final(self).rxbuffer == old(self).rxbuffer,
            final(self).spi == old(self).spi,
            final(self).state == old(self).state,
            final(self).txbuffer == old(self).txbuffer,
            final(self).client_buffer == old(self).client_buffer,
            final(self).same_clients(old(self)),
            final(self).client_write_address == old(self).client_write_address,
            final(self).client_write_len == old(self).client_write_len,
    {
        match read_buffer {
            None => {},
            Some(b) => {
                self.rxbuffer.put(Some(b));
            },
        }
    }
}

impl<S: SpiMasterDevice> FM25CLCustom for FM25CL<S> {
    open spec fn ready(&self) -> bool {
        self.wf()
    }

    /// Requests the status register: see `request_status`.
    fn read_status(&mut self) -> (r: Result<(), ErrorCode>)
        ensures
            final(self).status_requested(old(self), r),
    {
        self.request_status()
    }
}

impl<S: SpiMasterDevice> NonvolatileStorage for FM25CL<S> {
    open spec fn ready(&self) -> bool {
        self.wf()
    }

    /// A read through the interface of storage chips is a read of the
    /// driver, with address and length cut to 16 bits: see
    /// `read_requested`.
    open spec fn read_asked(
        &self,
        before: &Self,
        buffer: Vec<u8>,
        address: usize,
        length: usize,
        r: Result<(), (ErrorCode, Vec<u8>)>,
    ) -> bool {
        self.read_requested(before, address as u16, buffer, length as u16, r)
    }

    /// A write through the interface of storage chips is a write of the
    /// driver, with address and length cut to 16 bits: see
    /// `write_requested`.
    open spec fn write_asked(
        &self,
        before: &Self,
        buffer: Vec<u8>,
        address: usize,
        length: usize,
        r: Result<(), (ErrorCode, Vec<u8>)>,
    ) -> bool {
        self.write_requested(before, address as u16, buffer, length as u16, r)
    }

    /// Reads `length` bytes at `address`, both in 16 bits: see
    /// `FM25CL::read`.
    fn read(&mut self, buffer: Vec<u8>, address: usize, length: usize) -> (r: Result<
        (),
        (ErrorCode, Vec<u8>),
    >) {
        FM25CL::read(self, address as u16, buffer, length as u16)
    }

    /// Writes `length` bytes at `address`, both in 16 bits: see
    /// `FM25CL::write`.
    fn write(&mut self, buffer: Vec<u8>, address: usize, length: usize) -> (r: Result<
        (),
        (ErrorCode, Vec<u8>),
    >) {
        FM25CL::write(self, address as u16, buffer, length as u16)
    }
}

} // verus!
