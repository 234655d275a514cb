use arbitration::kernel::cells::TakeCell;
use arbitration::kernel::errorcode::{into_statuscode, ErrorCode};
use arbitration::kernel::hil::i2c::Error as I2cError;
use arbitration::kernel::math::{divide, floor_divide, to_signed16, usize_from, word_of};
use arbitration::kernel::process::{Error, ProcessId, State};
use arbitration::kernel::queue::{Queue, VecQueue};
use arbitration::kernel::registers::Field;
use arbitration::kernel::syscall::CommandReturn;

#[test]
fn status_word_is_zero_for_success_only() {
    assert_eq!(into_statuscode(Ok(())), 0);
    assert_eq!(into_statuscode(Err(ErrorCode::FAIL)), 1);
    assert_eq!(into_statuscode(Err(ErrorCode::BUSY)), 2);
    assert_eq!(into_statuscode(Err(ErrorCode::NOACK)), 13);
    assert_eq!(into_statuscode(Err(ErrorCode::BADRVAL)), 1024);
}

#[test]
fn every_error_has_its_own_word() {
    let all = [
        ErrorCode::FAIL,
        ErrorCode::BUSY,
        ErrorCode::ALREADY,
        ErrorCode::OFF,
        ErrorCode::RESERVE,
        ErrorCode::INVAL,
        ErrorCode::SIZE,
        ErrorCode::CANCEL,
        ErrorCode::NOMEM,
        ErrorCode::NOSUPPORT,
        ErrorCode::NODEVICE,
        ErrorCode::UNINSTALLED,
        ErrorCode::NOACK,
    ];
    for (i, e) in all.iter().enumerate() {
        assert_eq!(e.into_usize(), i + 1);
    }
}

#[test]
fn process_errors_map_to_error_codes() {
    assert_eq!(Error::NoSuchApp.into_errorcode(), ErrorCode::INVAL);
    assert_eq!(Error::InactiveApp.into_errorcode(), ErrorCode::FAIL);
    assert_eq!(Error::OutOfMemory.into_errorcode(), ErrorCode::NOMEM);
    assert_eq!(Error::AddressOutOfBounds.into_errorcode(), ErrorCode::INVAL);
    assert_eq!(Error::KernelError.into_errorcode(), ErrorCode::FAIL);
    assert_eq!(Error::AlreadyInUse.into_errorcode(), ErrorCode::FAIL);
}

#[test]
fn bus_errors_map_to_error_codes() {
    assert_eq!(I2cError::AddressNak.into_errorcode(), ErrorCode::NOACK);
    assert_eq!(I2cError::DataNak.into_errorcode(), ErrorCode::NOACK);
    assert_eq!(I2cError::ArbitrationLost.into_errorcode(), ErrorCode::RESERVE);
    assert_eq!(I2cError::Overrun.into_errorcode(), ErrorCode::SIZE);
    assert_eq!(I2cError::NotSupported.into_errorcode(), ErrorCode::NOSUPPORT);
    assert_eq!(I2cError::Busy.into_errorcode(), ErrorCode::BUSY);
}

#[test]
fn process_states_that_count_as_active() {
    assert!(State::Running.is_active());
    assert!(State::Yielded.is_active());
    assert!(!State::StoppedRunning.is_active());
    assert!(!State::StoppedYielded.is_active());
    assert!(!State::Faulted.is_active());
    assert!(!State::Terminated.is_active());
    assert!(!State::Unstarted.is_active());
}

#[test]
fn process_identity_parts() {
    let id = ProcessId::new(3, 17);
    assert_eq!(id.index(), 3);
    assert_eq!(id.id(), 17);
    assert_eq!(id, ProcessId { index: 3, identifier: 17 });
    assert_ne!(id, ProcessId::new(3, 18));
}

#[test]
fn command_return_from_result() {
    assert_eq!(CommandReturn::from_result(Ok(())), CommandReturn::Success);
    assert_eq!(
        CommandReturn::from_result(Err(ErrorCode::BUSY)),
        CommandReturn::Failure(ErrorCode::BUSY)
    );
    assert!(CommandReturn::success().is_success());
    assert!(CommandReturn::success_u32(5).is_success());
    assert!(!CommandReturn::failure(ErrorCode::FAIL).is_success());
}

#[test]
fn take_cell_hands_its_value_out_once() {
    let mut cell = TakeCell::new(vec![1u8, 2, 3]);
    assert!(cell.is_some());
    assert_eq!(cell.take(), Some(vec![1u8, 2, 3]));
    assert!(cell.is_none());
    assert_eq!(cell.take(), None);
    assert_eq!(cell.replace(vec![9u8]), None);
    assert_eq!(cell.replace(vec![8u8]), Some(vec![9u8]));
    assert_eq!(cell.take(), Some(vec![8u8]));
    cell.put(None);
    assert!(cell.is_none());
    cell.put(Some(vec![4u8]));
    assert_eq!(cell.value, Some(vec![4u8]));
    let empty: TakeCell<u32> = TakeCell::empty();
    assert!(empty.is_none());
}

#[test]
fn signed_quantities_of_16_bits() {
    assert_eq!(to_signed16(0x00, 0x00), 0);
    assert_eq!(to_signed16(0xFF, 0x7F), 32767);
    assert_eq!(to_signed16(0x00, 0x80), -32768);
    assert_eq!(to_signed16(0xFF, 0xFF), -1);
    assert_eq!(to_signed16(0x34, 0x12), 0x1234);
}

#[test]
fn signed_quantities_as_machine_words() {
    assert_eq!(word_of(0), 0);
    assert_eq!(word_of(5), 5);
    assert_eq!(word_of(-1), usize::MAX);
    assert_eq!(word_of(-2), usize::MAX - 1);
    assert_eq!(word_of(i32::MIN), (i32::MIN as isize) as usize);
    assert_eq!(word_of(-27300), (-27300isize) as usize);
}

#[test]
fn division_rounds_towards_zero_or_down() {
    assert_eq!(divide(7, 2), 3);
    assert_eq!(divide(-7, 2), -3);
    assert_eq!(divide(-8, 2), -4);
    assert_eq!(divide(0, 5), 0);
    assert_eq!(divide(i32::MIN, 1), i32::MIN);
    assert_eq!(floor_divide(7, 2), 3);
    assert_eq!(floor_divide(-7, 2), -4);
    assert_eq!(floor_divide(-8, 2), -4);
    assert_eq!(floor_divide(-1, 16), -1);
    assert_eq!(floor_divide(i32::MIN, 1), i32::MIN);
    assert_eq!(usize_from(true), 1);
    assert_eq!(usize_from(false), 0);
}

#[test]
fn register_fields() {
    let f = Field::new(4, 3);
    assert_eq!(f.get_low_mask(), 0b111);
    assert_eq!(f.get_mask(), 0b111_0000);
    assert_eq!(f.read(0b1010_0101), 0b010);
    assert_eq!(f.value(0b1111), 0b111_0000);
    assert_eq!(f.modify(0xFFFF_FFFF, 0b010), 0xFFFF_FFAF);
    assert_eq!(f.set(0), 0b111_0000);
    assert_eq!(f.clear(0xFF), 0x8F);
    assert!(f.is_set(0b001_0000));
    assert!(!f.is_set(0b1000_1111));
    let top = Field::bit(31);
    assert_eq!(top.set(0), 0x8000_0000);
    assert_eq!(top.read(0x8000_0000), 1);
    let whole = Field::new(0, 32);
    assert_eq!(whole.get_mask(), 0xFFFF_FFFF);
    assert_eq!(whole.modify(0x1234, 0xABCD), 0xABCD);
}

#[test]
fn queue_is_first_in_first_out_and_bounded() {
    let mut q: VecQueue<u32> = VecQueue::new(2);
    assert!(!q.has_elements());
    assert!(!q.is_full());
    assert!(q.enqueue(1));
    assert!(q.enqueue(2));
    assert!(q.is_full());
    assert!(!q.enqueue(3));
    assert_eq!(q.len(), 2);
    assert_eq!(q.dequeue(), Some(1));
    assert_eq!(q.dequeue(), Some(2));
    assert_eq!(q.dequeue(), None);
}

#[test]
fn queue_push_makes_room_by_dropping_the_oldest() {
    let mut q: VecQueue<u32> = VecQueue::new(2);
    assert_eq!(q.push(1), None);
    assert_eq!(q.push(2), None);
    assert_eq!(q.push(3), Some(1));
    assert_eq!(q.items, vec![2, 3]);
    assert_eq!(q.remove_first_matching(|x| *x > 5), None);
    assert_eq!(q.remove_first_matching(|x| *x >= 2), Some(2));
    assert_eq!(q.items, vec![3]);
    q.empty();
    assert_eq!(q.len(), 0);
    let mut none: VecQueue<u32> = VecQueue::new(0);
    assert_eq!(none.push(7), Some(7));
    assert!(!none.enqueue(7));
}

#[test]
fn queue_keeps_what_is_wanted_in_order() {
    let mut q: VecQueue<u32> = VecQueue::new(8);
    for v in [5, 2, 8, 3, 10, 1] {
        q.enqueue(v);
    }
    q.retain(|x| *x % 2 == 0 || *x == 3);
    assert_eq!(q.items, vec![2, 8, 3, 10]);
    assert_eq!(q.remove_first_matching(|x| *x > 2), Some(8));
    assert_eq!(q.items, vec![2, 3, 10]);
    q.retain(|_| false);
    assert!(!q.has_elements());
    q.retain(|_| true);
    assert_eq!(q.len(), 0);
}
