//! The flexible static memory controller, used as a parallel bus.
//!
//! A device on the bus is seen as two locations of a memory bank: a write
//! to the first selects a register of the device, reads and writes of the
//! second transfer data. The controller's own registers hold the timing of
//! the bus. Registers are held as the values to be written to the
//! hardware; every store to a bank is recorded in order.

use vstd::prelude::*;
use crate::kernel::cells::TakeCell;
use crate::kernel::errorcode::ErrorCode;
use crate::kernel::hil::bus8080::{Bus8080, BusWidth, Completion};
use crate::kernel::platform::ClockInterface;

verus! {

/// The registers that hold control and timing of the four banks.
#[derive(Clone, Copy, Debug, PartialEq, Eq, Structural)]
pub struct FsmcBankRegisters {
    pub bcr1: u32,
    pub btr1: u32,
    pub bcr2: u32,
    pub btr2: u32,
    pub bcr3: u32,
    pub btr3: u32,
    pub bcr4: u32,
    pub btr4: u32,
    pub bwtr1: u32,
    pub bwtr2: u32,
    pub bwtr3: u32,
    pub bwtr4: u32,
}

/// The bits of the control register that `enable` decides.
pub const BCR_MASK: u32 = 0x003F_FB3F;

/// Their values: bank enabled, not multiplexed, static memory of 16 bits,
/// writes enabled, separate timing for writes, no bursts, no waits.
pub const BCR_VALUE: u32 = 0x0020_5011;

/// The bits of the read timing that `enable` decides.
pub const BTR_MASK: u32 = 0x3FFF_FFFF;

/// Their values: address setup 9, address hold 1, data phase 36, bus
/// turnaround 1, clock divider 2, data latency 2, access mode A.
pub const BTR_VALUE: u32 = 0x0221_2419;

/// The bits of the write timing that `enable` decides.
pub const BWTR_MASK: u32 = 0x300F_FFFF;

/// Their values: address setup 1, address hold 1, data phase 7, bus
/// turnaround 0, access mode A.
pub const BWTR_VALUE: u32 = 0x0000_0711;

/// The register `reg` with the bits of `mask` replaced by those of
/// `value`.
pub open spec fn modified(reg: u32, mask: u32, value: u32) -> u32 {
    (reg & !mask) | value
}

/// Replaces the bits of `mask` in `reg` by those of `value`.
pub fn modify(reg: u32, mask: u32, value: u32) -> (r: u32)
    ensures
        r == modified(reg, mask, value),
{
    (reg & !mask) | value
}

/// A store to a bank.
#[derive(Clone, Copy, Debug, PartialEq, Eq, Structural)]
pub enum Store {
    /// A register of the device was selected.
    Reg(u16),
    /// A word of data was written.
    Ram(u16),
}

/// The two locations of a bank: what was last read from the hardware at
/// each, and the stores made to them.
pub struct FsmcBank {
    pub reg: u16,
    pub ram: u16,
    pub stores: Vec<Store>,
}

/// The banks of the controller.
#[derive(Clone, Copy, Debug, PartialEq, Eq, Structural)]
pub enum FsmcBanks {
    Bank1,
    Bank2,
    Bank3,
    Bank4,
}

impl FsmcBanks {
    /// The place of the bank among the four.
    pub open spec fn index(self) -> int {
        match self {
            FsmcBanks::Bank1 => 0,
            FsmcBanks::Bank2 => 1,
            FsmcBanks::Bank3 => 2,
            FsmcBanks::Bank4 => 3,
        }
    }

    /// The place of the bank among the four.
    pub fn into_usize(self) -> (r: usize)
        ensures
            r == self.index(),
    {
        match self {
            FsmcBanks::Bank1 => 0,
            FsmcBanks::Bank2 => 1,
            FsmcBanks::Bank3 => 2,
            FsmcBanks::Bank4 => 3,
        }
    }
}

/// The place in a buffer of byte `byte` of the word `pos`, for words of
/// `width`: the low byte first, unless the width says highest first.
pub open spec fn place(width: BusWidth, pos: int, byte: int) -> int {
    width.bytes() * pos + (if width == BusWidth::Bits16BE {
        width.bytes() - byte - 1
    } else {
        byte
    })
}

/// The word `pos` of a buffer, for words of `width`.
pub open spec fn word_at(buffer: Seq<u8>, width: BusWidth, pos: int) -> u16 {
    if width.bytes() == 1 {
        buffer[place(width, pos, 0)] as u16
    } else {
        (buffer[place(width, pos, 0)] as u16) | ((buffer[place(width, pos, 1)] as u16) << 8)
    }
}

/// The stores that a write of the first `len` words of a buffer makes.
pub open spec fn stores_of(buffer: Seq<u8>, width: BusWidth, len: int) -> Seq<Store> {
    Seq::new(len as nat, |pos: int| Store::Ram(word_at(buffer, width, pos)))
}

/// The buffer after `len` words of the value `data` were read into it,
/// for words of `width`.
pub open spec fn filled(buffer: Seq<u8>, width: BusWidth, len: int, data: u16) -> Seq<u8> {
    Seq::new(
        buffer.len(),
        |j: int|
            if j < width.bytes() * len {
                if width.bytes() == 1 {
                    data as u8
                } else if (j % 2 == 0) == (width != BusWidth::Bits16BE) {
                    data as u8
                } else {
                    (data >> 8) as u8
                }
            } else {
                buffer[j]
            },
    )
}

/// Reads the word `pos` of a buffer, for words of `width`.
pub fn compose(buffer: &Vec<u8>, width: BusWidth, pos: usize) -> (r: u16)
    requires
        width.bytes() * (pos + 1) <= buffer@.len(),
    ensures
        r == word_at(buffer@, width, pos as int),
{
    let _ = buffer.len();
    match width {
        BusWidth::Bits8 => buffer[pos] as u16,
        BusWidth::Bits16LE => (buffer[2 * pos] as u16) | ((buffer[2 * pos + 1] as u16) << 8),
        BusWidth::Bits16BE => (buffer[2 * pos + 1] as u16) | ((buffer[2 * pos] as u16) << 8),
    }
}

/// The controller.
pub struct Fsmc<C: ClockInterface> {
    pub registers: FsmcBankRegisters,
    pub bank: Vec<Option<FsmcBank>>,
    pub clock: C,
    /// Whether a client is registered to be told of completions.
    pub client: bool,
    /// The buffer of the transfer whose completion is still to be told.
    pub buffer: TakeCell<Vec<u8>>,
    pub bus_width: usize,
    pub len: usize,
    /// Whether a completion is still to be told.
    pub deferred_call: bool,
}

impl<C: ClockInterface> Fsmc<C> {
    /// The controller has four banks.
    pub open spec fn wf(&self) -> bool {
        self.bank@.len() == 4
    }

    /// The stores made to the first bank; none if the bank is not there.
    pub open spec fn stores(&self) -> Seq<Store> {
        match self.bank@[0] {
            Some(b) => b.stores@,
            None => Seq::empty(),
        }
    }

    /// Everything but the banks, the buffer and what is still to be told
    /// is as in `other`.
    pub open spec fn same_setup(&self, other: &Fsmc<C>) -> bool {
        &&& self.registers == other.registers
        &&& self.clock == other.clock
        &&& self.client == other.client
    }

    /// Creates the controller with the banks `bank_addr`, of which those
    /// that are not wired are absent.
    pub fn new(registers: FsmcBankRegisters, bank_addr: Vec<Option<FsmcBank>>, clock: C) -> (r:
        Fsmc<C>)
        requires
            bank_addr@.len() == 4,
        ensures
            r.wf(),
            r.registers == registers,
            r.bank == bank_addr,
            r.clock == clock,
            !r.client,
            r.buffer.value is None,
            r.bus_width == 1,
            r.len == 0,
            !r.deferred_call,
    {
        Fsmc {
            registers,
            bank: bank_addr,
            clock,
            client: false,
            buffer: TakeCell::empty(),
            bus_width: 1,
            len: 0,
            deferred_call: false,
        }
    }

    /// Registers the client.
    pub fn set_client(&mut self)
        ensures
            *final(self) == (Fsmc { client: true, ..*old(self) }),
    {
        self.client = true;
    }

    /// Sets control and timing of the first bank for a display and lets
    /// the clock run. Of each register only the bits that the setting
    /// decides change.
    pub fn enable(&mut self)
        ensures
            final(self).registers == (FsmcBankRegisters {
                bcr1: modified(old(self).registers.bcr1, BCR_MASK, BCR_VALUE),
                btr1: modified(old(self).registers.btr1, BTR_MASK, BTR_VALUE),
                bwtr1: modified(old(self).registers.bwtr1, BWTR_MASK, BWTR_VALUE),
                ..old(self).registers
            }),
            final(self).bank == old(self).bank,
            final(self).client == old(self).client,
            final(self).buffer == old(self).buffer,
            final(self).bus_width == old(self).bus_width,
            final(self).len == old(self).len,
            final(self).deferred_call == old(self).deferred_call,
    {
        self.registers.bcr1 = modify(self.registers.bcr1, BCR_MASK, BCR_VALUE);
        self.registers.btr1 = modify(self.registers.btr1, BTR_MASK, BTR_VALUE);
        self.registers.bwtr1 = modify(self.registers.bwtr1, BWTR_MASK, BWTR_VALUE);
        self.enable_clock();
    }

    /// Stops the clock.
    pub fn disable(&mut self)
        ensures
            final(self).registers == old(self).registers,
            final(self).bank == old(self).bank,
            final(self).client == old(self).client,
            final(self).buffer == old(self).buffer,
            final(self).bus_width == old(self).bus_width,
            final(self).len == old(self).len,
            final(self).deferred_call == old(self).deferred_call,
    {
        self.disable_clock();
    }

    /// Switches the clock of the controller on.
    pub fn enable_clock(&mut self)
        ensures
            final(self).clock.switched(&old(self).clock, true),
            final(self).registers == old(self).registers,
            final(self).bank == old(self).bank,
            final(self).client == old(self).client,
            final(self).buffer == old(self).buffer,
            final(self).bus_width == old(self).bus_width,
            final(self).len == old(self).len,
            final(self).deferred_call == old(self).deferred_call,
    {
        self.clock.enable();
    }

    /// Switches the clock of the controller off.
    pub fn disable_clock(&mut self)
        ensures
            final(self).clock.switched(&old(self).clock, false),
            final(self).registers == old(self).registers,
            final(self).bank == old(self).bank,
            final(self).client == old(self).client,
            final(self).buffer == old(self).buffer,
            final(self).bus_width == old(self).bus_width,
            final(self).len == old(self).len,
            final(self).deferred_call == old(self).deferred_call,
    {
        self.clock.disable();
    }

    /// Reads the data location of `bank`; nothing if the bank is not
    /// there.
    pub fn read_reg(&self, bank: FsmcBanks) -> (r: Option<u16>)
        requires
            self.wf(),
        ensures
            r == (match self.bank@[bank.index()] {
                Some(b) => Some(b.ram),
                None => None,
            }),
    {
        match &self.bank[bank.into_usize()] {
            Some(b) => Some(b.ram),
            None => None,
        }
    }

    /// Stores `store` to `bank`, if the bank is there.
    fn store(&mut self, bank: FsmcBanks, store: Store)
        requires
            old(self).wf(),
        ensures
            final(self).wf(),
            final(self).same_setup(old(self)),
            final(self).buffer == old(self).buffer,
            final(self).bus_width == old(self).bus_width,
            final(self).len == old(self).len,
            final(self).deferred_call == old(self).deferred_call,
            forall|i: int|
                0 <= i < 4 && i != bank.index() ==> final(self).bank@[i] == old(self).bank@[i],
            match old(self).bank@[bank.index()] {
                Some(b) => final(self).bank@[bank.index()] matches Some(after) && after.reg
                    == b.reg && after.ram == b.ram && after.stores@ == b.stores@.push(store),
                None => final(self).bank@[bank.index()] is None,
            },
    {
        let i = bank.into_usize();
        let mut slot: Option<FsmcBank> = None;
        core::mem::swap(&mut self.bank[i], &mut slot);
        match slot {
            Some(mut b) => {
                b.stores.push(store);
                self.bank[i] = Some(b);
            },
            None => {},
        }
    }

    /// Selects the register `addr` of the device on `bank`.
    pub fn write_reg(&mut self, bank: FsmcBanks, addr: u16)
        requires
            old(self).wf(),
        ensures
            final(self).wf(),
            final(self).same_setup(old(self)),
            final(self).buffer == old(self).buffer,
            final(self).bus_width == old(self).bus_width,
            final(self).len == old(self).len,
            final(self).deferred_call == old(self).deferred_call,
            forall|i: int|
                0 <= i < 4 && i != bank.index() ==> final(self).bank@[i] == old(self).bank@[i],
            match old(self).bank@[bank.index()] {
                Some(b) => final(self).bank@[bank.index()] matches Some(after) && after.reg
                    == b.reg && after.ram == b.ram && after.stores@ == b.stores@.push(
                    Store::Reg(addr),
                ),
                None => final(self).bank@[bank.index()] is None,
            },
    {
        self.store(bank, Store::Reg(addr));
    }

    /// Writes the word `data` to the device on `bank`.
    pub fn write_data(&mut self, bank: FsmcBanks, data: u16)
        requires
            old(self).wf(),
        ensures
            final(self).wf(),
            final(self).same_setup(old(self)),
            final(self).buffer == old(self).buffer,
            final(self).bus_width == old(self).bus_width,
            final(self).len == old(self).len,
            final(self).deferred_call == old(self).deferred_call,
            forall|i: int|
                0 <= i < 4 && i != bank.index() ==> final(self).bank@[i] == old(self).bank@[i],
            match old(self).bank@[bank.index()] {
                Some(b) => final(self).bank@[bank.index()] matches Some(after) && after.reg
                    == b.reg && after.ram == b.ram && after.stores@ == b.stores@.push(
                    Store::Ram(data),
                ),
                None => final(self).bank@[bank.index()] is None,
            },
    {
        self.store(bank, Store::Ram(data));
    }

    /// Tells the client of the completion that is due: the buffer of the
    /// transfer, if it had one, and the number of its words. Without a
    /// client nobody is told, and the buffer stays.
    pub fn handle_deferred_call(&mut self) -> (r: Option<Completion>)
        ensures
            final(self).same_setup(old(self)),
            final(self).bank == old(self).bank,
            final(self).bus_width == old(self).bus_width,
            final(self).len == old(self).len,
            !final(self).deferred_call,
            !old(self).client ==> r is None && final(self).buffer == old(self).buffer,
            old(self).client ==> final(self).buffer.value is None && r is Some && r->Some_0.buffer
                == old(self).buffer.value && r->Some_0.len == (if old(self).buffer.value is Some {
                old(self).len
            } else {
                0
            }) && r->Some_0.status is Ok,
    {
        self.deferred_call = false;
        if !self.client {
            return None;
        }
        match self.buffer.take() {
            None => Some(Completion { buffer: None, len: 0, status: Ok(()) }),
            Some(buffer) => Some(Completion { buffer: Some(buffer), len: self.len,
                status: Ok(()) }),
        }
    }

    /// The controller after the register `addr` was to be selected on
    /// `before`, with the answer `r`: see `select`.
    pub open spec fn selected(
        &self,
        before: &Fsmc<C>,
        addr_width: BusWidth,
        addr: usize,
        r: Result<(), ErrorCode>,
    ) -> bool {
        &&& self.wf()
        &&& self.same_setup(before)
        &&& self.buffer == before.buffer
        &&& (addr_width != BusWidth::Bits8 ==> r == Err::<(), ErrorCode>(ErrorCode::NOSUPPORT)
            && *self == *before)
        &&& (addr_width == BusWidth::Bits8 ==> r is Ok && self.deferred_call
            && self.stores() == (if before.bank@[0] is Some {
            before.stores().push(Store::Reg(addr as u16))
        } else {
            before.stores()
        }))
    }

    /// Selects the register `addr` of the device, for addresses of eight
    /// bits; addresses of other widths are refused with `NOSUPPORT`.
    pub fn select(&mut self, addr_width: BusWidth, addr: usize) -> (r: Result<(), ErrorCode>)
        requires
            old(self).wf(),
        ensures
            final(self).selected(old(self), addr_width, addr, r),
    {
        match addr_width {
            BusWidth::Bits8 => {
                self.write_reg(FsmcBanks::Bank1, addr as u16);
                self.deferred_call = true;
                Ok(())
            },
            _ => Err(ErrorCode::NOSUPPORT),
        }
    }

    /// The controller after the first `len` words of `buffer`, of
    /// `data_width`, were to be written on `before`, with the answer `r`:
    /// see `send`.
    pub open spec fn sent(
        &self,
        before: &Fsmc<C>,
        data_width: BusWidth,
        buffer: Vec<u8>,
        len: usize,
        r: Result<(), (ErrorCode, Vec<u8>)>,
    ) -> bool {
        &&& self.wf()
        &&& self.same_setup(before)
        &&& (buffer@.len() < len * data_width.bytes() ==> r == Err::<(), (ErrorCode, Vec<u8>)>(
            (ErrorCode::NOMEM, buffer),
        ) && *self == *before)
        &&& (buffer@.len() >= len * data_width.bytes() ==> {
            &&& r is Ok
            &&& self.buffer.value == Some(buffer)
            &&& self.bus_width == data_width.bytes()
            &&& self.len == len
            &&& self.deferred_call
            &&& self.stores() == (if before.bank@[0] is Some {
                before.stores() + stores_of(buffer@, data_width, len as int)
            } else {
                before.stores()
            })
        })
    }

    /// Writes the first `len` words of `buffer` to the device, for words
    /// of `data_width`. A buffer that holds fewer words is refused with
    /// `NOMEM` and comes back; nothing changes then. Accepted, the words
    /// are stored to the first bank in order (see `stores_of`), the buffer
    /// stays with the controller, and the completion is due.
    pub fn send(&mut self, data_width: BusWidth, buffer: Vec<u8>, len: usize) -> (r: Result<
        (),
        (ErrorCode, Vec<u8>),
    >)
        requires
            old(self).wf(),
        ensures
            final(self).sent(old(self), data_width, buffer, len, r),
    {
        let bytes = data_width.width_in_bytes();
        if len <= buffer.len() / bytes {
            assert(len * bytes <= buffer@.len()) by (nonlinear_arith)
                requires
                    len <= (buffer@.len() as int) / (bytes as int),
                    1 <= bytes <= 2,
            ;
            let mut pos: usize = 0;
            while pos < len
                invariant
                    self.wf(),
                    self.same_setup(old(self)),
                    self.buffer == old(self).buffer,
                    self.bus_width == old(self).bus_width,
                    self.len == old(self).len,
                    self.deferred_call == old(self).deferred_call,
                    pos <= len,
                    bytes == data_width.bytes(),
                    len * bytes <= buffer@.len(),
                    self.bank@[0] is Some <==> old(self).bank@[0] is Some,
                    forall|i: int| 1 <= i < 4 ==> self.bank@[i] == old(self).bank@[i],
                    old(self).bank@[0] matches Some(b) ==> self.bank@[0]->Some_0.reg == b.reg
                        && self.bank@[0]->Some_0.ram == b.ram,
                    self.stores() =~= (if old(self).bank@[0] is Some {
                        old(self).stores() + stores_of(buffer@, data_width, pos as int)
                    } else {
                        old(self).stores()
                    }),
                decreases len - pos,
            {
                assert(bytes * (pos + 1) <= buffer@.len()) by (nonlinear_arith)
                    requires
                        pos < len,
                        len * bytes <= buffer@.len(),
                        1 <= bytes <= 2,
                ;
                let data = compose(&buffer, data_width, pos);
                self.write_data(FsmcBanks::Bank1, data);
                pos += 1;
            }
            self.buffer.replace(buffer);
            self.bus_width = bytes;
            self.len = len;
            self.deferred_call = true;
            Ok(())
        } else {
            assert(buffer@.len() < len * bytes) by (nonlinear_arith)
                requires
                    len > (buffer@.len() as int) / (bytes as int),
                    1 <= bytes <= 2,
            ;
            Err((ErrorCode::NOMEM, buffer))
        }
    }

    /// The controller after `len` words of `data_width` were to be read
    /// into `buffer` on `before`, with the answer `r`: see `receive`.
    pub open spec fn received(
        &self,
        before: &Fsmc<C>,
        data_width: BusWidth,
        buffer: Vec<u8>,
        len: usize,
        r: Result<(), (ErrorCode, Vec<u8>)>,
    ) -> bool {
        &&& self.wf()
        &&& self.same_setup(before)
        &&& self.bank == before.bank
        &&& (r is Err <==> buffer@.len() < len * data_width.bytes() || (len > 0
            && before.bank@[0] is None))
        &&& (r is Err ==> {
            &&& r == Err::<(), (ErrorCode, Vec<u8>)>((ErrorCode::NOMEM, buffer))
            &&& self.buffer == before.buffer
            &&& self.bus_width == before.bus_width
            &&& self.len == before.len
            &&& self.deferred_call == before.deferred_call
        })
        &&& (r is Ok ==> {
            &&& self.bus_width == data_width.bytes()
            &&& self.len == len
            &&& self.deferred_call
            &&& self.buffer.value is Some
            &&& len > 0 ==> self.buffer.value->Some_0@ == filled(
                buffer@,
                data_width,
                len as int,
                before.bank@[0]->Some_0.ram,
            )
            &&& len == 0 ==> self.buffer.value == Some(buffer)
        })
    }

    /// Reads `len` words from the device into `buffer`, for words of
    /// `data_width`. A buffer that holds fewer words, and a first bank that
    /// is not there, are refused with `NOMEM`; the buffer comes back and the
    /// controller is as before. Accepted, each word of the buffer holds what
    /// the data location reads (see `filled`), the buffer stays with the
    /// controller, and the completion is due.
    pub fn receive(&mut self, data_width: BusWidth, buffer: Vec<u8>, len: usize) -> (r: Result<
        (),
        (ErrorCode, Vec<u8>),
    >)
        requires
            old(self).wf(),
        ensures
            final(self).received(old(self), data_width, buffer, len, r),
    {
        let bytes = data_width.width_in_bytes();
        if len <= buffer.len() / bytes {
            assert(len * bytes <= buffer@.len()) by (nonlinear_arith)
                requires
                    len <= (buffer@.len() as int) / (bytes as int),
                    1 <= bytes <= 2,
            ;
            if len == 0 {
                self.buffer.replace(buffer);
                self.bus_width = bytes;
                self.len = len;
                self.deferred_call = true;
                return Ok(());
            }
            let data = match self.read_reg(FsmcBanks::Bank1) {
                Some(d) => d,
                None => {
                    return Err((ErrorCode::NOMEM, buffer));
                },
            };
            let mut buffer = buffer;
            let ghost before = buffer@;
            let total = len * bytes;
            let low = data as u8;
            let high = (data >> 8) as u8;
            let mut j: usize = 0;
            while j < total
                invariant
                    j <= total,
                    total == len * bytes,
                    total <= buffer@.len(),
                    buffer@.len() == before.len(),
                    bytes == data_width.bytes(),
                    low == data as u8,
                    high == (data >> 8) as u8,
                    forall|k: int|
                        0 <= k < buffer@.len() ==> buffer@[k] == (if k < j {
                            filled(before, data_width, len as int, data)[k]
                        } else {
                            before[k]
                        }),
                decreases total - j,
            {
                let value = match data_width {
                    BusWidth::Bits8 => low,
                    BusWidth::Bits16LE => if j % 2 == 0 {
                        low
                    } else {
                        high
                    },
                    BusWidth::Bits16BE => if j % 2 == 0 {
                        high
                    } else {
                        low
                    },
                };
                buffer[j] = value;
                j += 1;
            }
            assert(buffer@ =~= filled(before, data_width, len as int, data));
            self.buffer.replace(buffer);
            self.bus_width = bytes;
            self.len = len;
            self.deferred_call = true;
            Ok(())
        } else {
            assert(buffer@.len() < len * bytes) by (nonlinear_arith)
                requires
                    len > (buffer@.len() as int) / (bytes as int),
                    1 <= bytes <= 2,
            ;
            Err((ErrorCode::NOMEM, buffer))
        }
    }
}

impl<C: ClockInterface> Bus8080 for Fsmc<C> {
    open spec fn ready(&self) -> bool {
        self.wf()
    }

    /// Selects a register of the device: see `Fsmc::select`.
    fn set_addr(&mut self, addr_width: BusWidth, addr: usize) -> (r: Result<(), ErrorCode>)
        ensures
            final(self).selected(old(self), addr_width, addr, r),
    {
        self.select(addr_width, addr)
    }

    /// Writes words to the device: see `Fsmc::send`.
    fn write(&mut self, data_width: BusWidth, buffer: Vec<u8>, len: usize) -> (r: Result<
        (),
        (ErrorCode, Vec<u8>),
    >)
        ensures
            final(self).sent(old(self), data_width, buffer, len, r),
    {
        self.send(data_width, buffer, len)
    }

    /// Reads words from the device: see `Fsmc::receive`.
    fn read(&mut self, data_width: BusWidth, buffer: Vec<u8>, len: usize) -> (r: Result<
        (),
        (ErrorCode, Vec<u8>),
    >)
        ensures
            final(self).received(old(self), data_width, buffer, len, r),
    {
        self.receive(data_width, buffer, len)
    }
}

} // verus!
