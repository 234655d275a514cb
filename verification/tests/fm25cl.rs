use arbitration::capsules::fm25cl::{deliver, Event, FM25CLClient, FM25CLCustom, State, FM25CL};
use arbitration::kernel::errorcode::ErrorCode;
use arbitration::kernel::hil::nonvolatile_storage::NonvolatileStorage;
use arbitration::kernel::hil::spi::{ClockPhase, ClockPolarity, SpiMasterDevice};

#[derive(Debug, Clone, PartialEq)]
enum Transfer {
    Configure(ClockPolarity, ClockPhase, u32),
    Bytes(Vec<u8>, bool),
}

struct SpiDevice {
    calls: Vec<Transfer>,
    held: Option<(Vec<u8>, Option<Vec<u8>>)>,
    refuse: Option<ErrorCode>,
    refuse_configure: Option<ErrorCode>,
}

impl SpiDevice {
    fn new() -> SpiDevice {
        SpiDevice { calls: Vec::new(), held: None, refuse: None, refuse_configure: None }
    }

    fn hand_back(&mut self, read: &[u8]) -> (Vec<u8>, Option<Vec<u8>>) {
        let (tx, rx) = self.held.take().expect("no transfer is under way");
        let rx = rx.map(|mut b| {
            b[..read.len()].copy_from_slice(read);
            b
        });
        (tx, rx)
    }

    fn transfers(&self) -> Vec<Transfer> {
        self.calls.iter().filter(|c| matches!(c, Transfer::Bytes(..))).cloned().collect()
    }
}

impl SpiMasterDevice for SpiDevice {
    fn configured(
        &self,
        _before: &Self,
        _cpol: ClockPolarity,
        _cpal: ClockPhase,
        _rate: u32,
        _r: Result<(), ErrorCode>,
    ) -> bool {
        true
    }

    fn transferred(
        &self,
        _before: &Self,
        _write_buffer: Vec<u8>,
        _read_buffer: Option<Vec<u8>>,
        _len: usize,
        _r: Result<(), (ErrorCode, Vec<u8>, Option<Vec<u8>>)>,
    ) -> bool {
        true
    }

    fn configure(&mut self, cpol: ClockPolarity, cpal: ClockPhase, rate: u32) -> Result<(), ErrorCode> {
        self.calls.push(Transfer::Configure(cpol, cpal, rate));
        match self.refuse_configure {
            Some(e) => Err(e),
            None => Ok(()),
        }
    }

    fn read_write_bytes(
        &mut self,
        write_buffer: Vec<u8>,
        read_buffer: Option<Vec<u8>>,
        len: usize,
    ) -> Result<(), (ErrorCode, Vec<u8>, Option<Vec<u8>>)> {
        self.calls.push(Transfer::Bytes(write_buffer[..len].to_vec(), read_buffer.is_some()));
        match self.refuse {
            Some(e) => Err((e, write_buffer, read_buffer)),
            None => {
                self.held = Some((write_buffer, read_buffer));
                Ok(())
            }
        }
    }
}

struct Listener {
    statuses: Vec<u8>,
}

impl FM25CLClient for Listener {
    fn told_status(&self, _before: &Self, _status: u8) -> bool {
        true
    }

    fn told_read(&self, _before: &Self, _data: Vec<u8>, _len: usize) -> bool {
        true
    }

    fn told_done(&self, _before: &Self, _buffer: Vec<u8>) -> bool {
        true
    }

    fn status(&mut self, status: u8) {
        self.statuses.push(status);
    }

    fn read(&mut self, _data: Vec<u8>, _len: usize) {}

    fn done(&mut self, _buffer: Vec<u8>) {}
}

fn memory() -> FM25CL<SpiDevice> {
    let mut m = FM25CL::new(SpiDevice::new(), vec![0u8; 16], vec![0u8; 16]);
    m.set_client();
    m.set_storage_client();
    m
}

#[test]
fn write_takes_two_transfers() {
    let mut m = memory();
    let data = vec![0xA1, 0xA2, 0xA3, 0xA4, 0xA5];
    assert!(m.write(0x1234, data.clone(), 4).is_ok());
    assert_eq!(m.state, State::WriteEnable);
    assert_eq!(
        m.spi.calls,
        vec![
            Transfer::Configure(ClockPolarity::IdleLow, ClockPhase::SampleLeading, 4_000_000),
            Transfer::Bytes(vec![0x06], false)
        ]
    );
    assert_eq!(m.client_buffer.value, Some(data.clone()));
    let (tx, rx) = m.spi.hand_back(&[]);
    assert!(m.read_write_done(tx, rx, 1, Ok(())).is_none());
    assert_eq!(m.state, State::WriteMemory);
    assert_eq!(
        m.spi.transfers()[1],
        Transfer::Bytes(vec![0x02, 0x12, 0x34, 0xA1, 0xA2, 0xA3, 0xA4], false)
    );
    let (tx, rx) = m.spi.hand_back(&[]);
    match m.read_write_done(tx, rx, 7, Ok(())) {
        Some(Event::WriteDone(done)) => {
            assert_eq!(done.buffer, data);
            assert_eq!(done.length, 4);
        }
        _ => panic!("the write is done"),
    }
    assert_eq!(m.state, State::Idle);
    assert!(m.txbuffer.is_some());
    assert!(m.client_buffer.is_none());
}

#[test]
fn read_delivers_the_bytes_behind_the_command() {
    let mut m = memory();
    assert!(NonvolatileStorage::read(&mut m, vec![0u8; 6], 0x0102, 4).is_ok());
    assert_eq!(m.state, State::ReadMemory);
    assert_eq!(m.spi.transfers(), vec![Transfer::Bytes(vec![0x03, 0x01, 0x02, 0, 0, 0, 0], true)]);
    let (tx, rx) = m.spi.hand_back(&[0, 0, 0, 9, 8, 7, 6]);
    match m.read_write_done(tx, rx, 7, Ok(())) {
        Some(Event::ReadDone(done)) => {
            assert_eq!(done.buffer, vec![9, 8, 7, 0, 0, 0]);
            assert_eq!(done.length, 3);
        }
        _ => panic!("the read is done"),
    }
    assert_eq!(m.state, State::Idle);
    assert!(m.txbuffer.is_some() && m.rxbuffer.is_some());
}

#[test]
fn read_is_cut_to_the_buffers() {
    let mut m = memory();
    assert!(m.read(0, vec![0u8; 40], 100).is_ok());
    assert!(matches!(&m.spi.transfers()[0], Transfer::Bytes(b, true) if b.len() == 16));
    let (tx, rx) = m.spi.hand_back(&[1; 16]);
    match m.read_write_done(tx, rx, 16, Ok(())) {
        Some(Event::ReadDone(done)) => {
            assert_eq!(done.length, 13);
            assert_eq!(&done.buffer[..13], &[1; 13]);
            assert_eq!(done.buffer[13], 0);
        }
        _ => panic!("the read is done"),
    }
}

#[test]
fn status_goes_to_the_client_of_the_chip() {
    let mut m = memory();
    assert_eq!(m.read_status(), Ok(()));
    assert_eq!(m.state, State::ReadStatus);
    assert!(matches!(&m.spi.transfers()[0], Transfer::Bytes(b, true) if b[0] == 0x05 && b.len() == 4));
    let (tx, rx) = m.spi.hand_back(&[0, 0x42]);
    let event = m.read_write_done(tx, rx, 4, Ok(())).unwrap();
    let mut listener = Listener { statuses: Vec::new() };
    assert!(deliver(&mut listener, event).is_none());
    assert_eq!(listener.statuses, vec![0x42]);
    let other = Event::WriteDone(arbitration::kernel::hil::nonvolatile_storage::Done {
        buffer: vec![1],
        length: 1,
    });
    assert!(matches!(deliver(&mut listener, other), Some(Event::WriteDone(_))));
}

#[test]
fn memory_refusals_hand_the_buffer_back() {
    let mut m = memory();
    m.spi.refuse_configure = Some(ErrorCode::OFF);
    match m.write(0, vec![1, 2], 2) {
        Err((e, b)) => {
            assert_eq!(e, ErrorCode::OFF);
            assert_eq!(b, vec![1, 2]);
        }
        Ok(()) => panic!("the bus cannot be set up"),
    }
    assert_eq!(m.request_status(), Err(ErrorCode::OFF));
    m.spi.refuse_configure = None;
    m.spi.refuse = Some(ErrorCode::BUSY);
    match m.read(0, vec![3, 4], 2) {
        Err((e, b)) => {
            assert_eq!(e, ErrorCode::BUSY);
            assert_eq!(b, vec![3, 4]);
        }
        Ok(()) => panic!("the bus refuses"),
    }
    assert!(m.txbuffer.is_some() && m.rxbuffer.is_some());
    assert_eq!(m.state, State::Idle);
    assert!(m.client_buffer.is_none());
    assert!(NonvolatileStorage::write(&mut m, vec![5], 0, 1).is_err());
    m.spi.refuse = None;
    m.rxbuffer.take();
    assert!(matches!(m.read(0, vec![3], 1), Err((ErrorCode::RESERVE, _))));
    assert!(m.txbuffer.is_some());
    assert_eq!(m.request_status(), Err(ErrorCode::RESERVE));
    m.txbuffer.take();
    assert!(matches!(m.write(0, vec![3], 1), Err((ErrorCode::RESERVE, _))));
}

#[test]
fn refused_second_transfer_ends_the_write() {
    let mut m = memory();
    m.write(0, vec![1, 2, 3], 3).unwrap();
    m.spi.refuse = Some(ErrorCode::FAIL);
    let (tx, rx) = m.spi.hand_back(&[]);
    assert!(m.read_write_done(tx, rx, 1, Ok(())).is_none());
    assert_eq!(m.state, State::Idle);
    assert!(m.txbuffer.is_some());
    assert_eq!(m.client_buffer.value, Some(vec![1, 2, 3]));
}

#[test]
fn completion_that_is_not_awaited_returns_the_buffers() {
    let mut m = memory();
    let tx = m.txbuffer.take().unwrap();
    let rx = m.rxbuffer.take();
    assert!(m.read_write_done(tx, rx, 0, Ok(())).is_none());
    assert!(m.txbuffer.is_some() && m.rxbuffer.is_some());
}
