use arbitration::capsules::rng::{
    byte_of, App, Delivery, Entropy32To8, Entropy32ToRandom, Entropy8To32, RngDriver,
    SynchronousRandom,
};
use arbitration::kernel::errorcode::ErrorCode;
use arbitration::kernel::grant::{Grant, ProcessBuffer};
use arbitration::kernel::hil::entropy::{self, Available, Entropy32, Entropy8};
use arbitration::kernel::hil::rng::{self, Rng};
use arbitration::kernel::process::ProcessId;
use arbitration::kernel::syscall::CommandReturn;

struct Source {
    gets: usize,
    cancels: usize,
}

impl Source {
    fn new() -> Source {
        Source { gets: 0, cancels: 0 }
    }
}

impl Rng for Source {
    fn asked(&self, _before: &Self, _start: bool, _r: Result<(), ErrorCode>) -> bool {
        true
    }

    fn get(&mut self) -> Result<(), ErrorCode> {
        self.gets += 1;
        Ok(())
    }

    fn cancel(&mut self) -> Result<(), ErrorCode> {
        self.cancels += 1;
        Err(ErrorCode::FAIL)
    }
}

impl Entropy32 for Source {
    fn asked(&self, _before: &Self, _start: bool, _r: Result<(), ErrorCode>) -> bool {
        true
    }

    fn get(&mut self) -> Result<(), ErrorCode> {
        self.gets += 1;
        Ok(())
    }

    fn cancel(&mut self) -> Result<(), ErrorCode> {
        self.cancels += 1;
        Ok(())
    }
}

impl Entropy8 for Source {
    fn asked(&self, _before: &Self, _start: bool, _r: Result<(), ErrorCode>) -> bool {
        true
    }

    fn get(&mut self) -> Result<(), ErrorCode> {
        self.gets += 1;
        Ok(())
    }

    fn cancel(&mut self) -> Result<(), ErrorCode> {
        self.cancels += 1;
        Ok(())
    }
}

fn driver(sizes: &[usize]) -> (RngDriver<Source>, Vec<ProcessId>) {
    let mut grant: Grant<App> = Grant::new(sizes.len(), 1, 0, 1);
    let mut ids = Vec::new();
    for (i, size) in sizes.iter().enumerate() {
        let id = grant.load(i, 80 + i);
        grant.allow_readwrite(id, 0, ProcessBuffer::new(0x700, vec![0u8; *size])).ok().unwrap();
        ids.push(id);
    }
    (RngDriver::new(Source::new(), grant), ids)
}

#[test]
fn bytes_of_a_word_lowest_first() {
    assert_eq!(byte_of(0x1234_5678, 0), 0x78);
    assert_eq!(byte_of(0x1234_5678, 1), 0x56);
    assert_eq!(byte_of(0x1234_5678, 2), 0x34);
    assert_eq!(byte_of(0x1234_5678, 3), 0x12);
}

#[test]
fn available_items_are_taken_in_order() {
    let mut a = Available::new(vec![1u32, 2, 3]);
    assert_eq!(a.remaining(), 3);
    assert_eq!(a.next(), Some(1));
    assert_eq!(a.next(), Some(2));
    assert_eq!(a.remaining(), 1);
    assert_eq!(a.next(), Some(3));
    assert_eq!(a.next(), None);
    assert_eq!(a.remaining(), 0);
}

#[test]
fn request_asks_the_generator_once() {
    let (mut d, p) = driver(&[8, 8]);
    assert_eq!(d.command(0, 0, 0, p[0]), CommandReturn::Success);
    assert_eq!(d.command(1, 8, 0, p[0]), CommandReturn::Success);
    assert!(d.getting_randomness);
    assert_eq!(d.rng.gets, 1);
    assert_eq!(d.command(1, 4, 0, p[1]), CommandReturn::Success);
    assert_eq!(d.rng.gets, 1);
    assert_eq!(d.apps.get(0), App { remaining: 8, idx: 0 });
    assert_eq!(d.command(2, 0, 0, p[0]), CommandReturn::Failure(ErrorCode::NOSUPPORT));
    assert_eq!(
        d.command(1, 8, 0, ProcessId::new(0, 1)),
        CommandReturn::Failure(ErrorCode::INVAL)
    );
    assert_eq!(d.allocate_grant(p[0]), Ok(()));
}

#[test]
fn buffers_are_filled_in_slot_order() {
    let (mut d, p) = driver(&[6, 8]);
    d.command(1, 6, 0, p[0]);
    d.command(1, 3, 0, p[1]);
    let mut words = Available::new(vec![0x0403_0201, 0x0807_0605, 0x0C0B_0A09, 0x100F_0E0D]);
    assert_eq!(d.randomness_available(&mut words, Ok(())), rng::Continue::Done);
    assert_eq!(d.apps.records[0].rw[0].data, vec![1, 2, 3, 4, 5, 6]);
    assert_eq!(d.apps.records[1].rw[0].data, vec![9, 10, 11, 0, 0, 0, 0, 0]);
    assert_eq!(d.apps.records[0].pending[0], Some((0, 6, 0)));
    assert_eq!(d.apps.records[1].pending[0], Some((0, 3, 0)));
    assert_eq!(words.position, 3);
    assert!(!d.getting_randomness);
    assert_eq!(d.apps.get(0), App { remaining: 0, idx: 6 });
}

#[test]
fn filling_goes_on_when_more_randomness_arrives() {
    let (mut d, p) = driver(&[10, 4]);
    d.command(1, 10, 0, p[0]);
    d.command(1, 4, 0, p[1]);
    let mut words = Available::new(vec![0x4444_4444, 0x5555_5555]);
    assert_eq!(d.randomness_available(&mut words, Ok(())), rng::Continue::More);
    assert_eq!(d.apps.get(0), App { remaining: 2, idx: 8 });
    assert_eq!(d.apps.records[0].pending[0], None);
    assert_eq!(d.apps.get(1), App { remaining: 4, idx: 0 });
    assert!(d.getting_randomness);
    let mut words = Available::new(vec![0x6666_6666, 0x7777_7777]);
    assert_eq!(d.randomness_available(&mut words, Ok(())), rng::Continue::Done);
    assert_eq!(
        d.apps.records[0].rw[0].data,
        vec![0x44, 0x44, 0x44, 0x44, 0x55, 0x55, 0x55, 0x55, 0x66, 0x66]
    );
    assert_eq!(d.apps.records[1].rw[0].data, vec![0x77; 4]);
    assert_eq!(d.apps.records[0].pending[0], Some((0, 10, 0)));
    assert_eq!(words.position, 2);
}

#[test]
fn request_is_cut_to_the_buffer() {
    let (mut d, p) = driver(&[3]);
    d.command(1, 100, 0, p[0]);
    let mut words = Available::new(vec![0xAABB_CCDD, 0x1122_3344]);
    assert_eq!(d.randomness_available(&mut words, Ok(())), rng::Continue::Done);
    assert_eq!(d.apps.records[0].rw[0].data, vec![0xDD, 0xCC, 0xBB]);
    assert_eq!(d.apps.records[0].pending[0], Some((0, 3, 0)));
    assert_eq!(words.position, 1);
}

#[test]
fn request_behind_the_end_of_the_buffer_is_over() {
    let (mut d, p) = driver(&[4]);
    d.command(1, 2, 0, p[0]);
    d.apps.set(0, App { remaining: 2, idx: 9 });
    let mut words = Available::new(vec![1, 2]);
    assert_eq!(d.randomness_available(&mut words, Ok(())), rng::Continue::Done);
    assert_eq!(d.apps.get(0), App { remaining: 0, idx: 0 });
    assert_eq!(d.apps.records[0].rw[0].data, vec![0; 4]);
    assert_eq!(d.apps.records[0].pending[0], Some((0, 0, 0)));
    assert_eq!(words.position, 0);
}

#[test]
fn random_bytes_skip_a_process_that_is_gone() {
    let (mut d, p) = driver(&[4, 4]);
    d.command(1, 4, 0, p[0]);
    d.command(1, 4, 0, p[1]);
    d.apps.terminate(0);
    let mut words = Available::new(vec![0x0101_0101]);
    assert_eq!(d.randomness_available(&mut words, Ok(())), rng::Continue::Done);
    assert_eq!(d.apps.records[1].rw[0].data, vec![1; 4]);
    assert_eq!(d.apps.records[0].pending[0], None);
}

#[test]
fn words_pass_through_the_first_adapter() {
    let mut a = Entropy32ToRandom::new(Source::new());
    assert_eq!(a.entropy_available(Ok(())), None);
    assert_eq!(a.answer(Some(rng::Continue::More)), entropy::Continue::Done);
    a.set_client();
    assert_eq!(a.entropy_available(Err(ErrorCode::FAIL)), Some(Err(ErrorCode::FAIL)));
    assert_eq!(a.answer(Some(rng::Continue::More)), entropy::Continue::More);
    assert_eq!(a.answer(Some(rng::Continue::Done)), entropy::Continue::Done);
    assert_eq!(a.answer(None), entropy::Continue::Done);
    assert_eq!(a.get(), Ok(()));
    assert_eq!(a.cancel(), Ok(()));
    assert_eq!((a.egen.gets, a.egen.cancels), (1, 1));
}

fn is_more(d: Delivery) -> bool {
    matches!(d, Delivery::Answer(entropy::Continue::More))
}

#[test]
fn four_bytes_make_a_word() {
    let mut a = Entropy8To32::new(Source::new());
    let mut bytes = Available::new(vec![0x11u8, 0x22]);
    assert!(matches!(
        a.entropy_available(&mut bytes, Ok(())),
        Delivery::Answer(entropy::Continue::Done)
    ));
    assert_eq!(bytes.position, 0);
    a.set_client();
    assert!(is_more(a.entropy_available(&mut bytes, Ok(()))));
    assert_eq!((a.count, a.bytes), (2, 0x2211));
    assert_eq!(a.next(), None);
    let mut bytes = Available::new(vec![0x33u8, 0x44, 0x55]);
    assert!(matches!(a.entropy_available(&mut bytes, Ok(())), Delivery::Deliver(Ok(()))));
    assert_eq!(bytes.position, 2);
    assert_eq!(a.next(), Some(0x4433_2211));
    assert_eq!(a.next(), None);
    assert_eq!(a.delivered(Ok(()), entropy::Continue::More), entropy::Continue::More);
    assert_eq!((a.count, a.bytes), (0, 0));
    assert!(is_more(a.entropy_available(&mut bytes, Ok(()))));
    assert_eq!((a.count, a.bytes), (1, 0x55));
    assert!(matches!(
        a.entropy_available(&mut bytes, Err(ErrorCode::OFF)),
        Delivery::Deliver(Err(ErrorCode::OFF))
    ));
    assert_eq!(a.delivered(Err(ErrorCode::OFF), entropy::Continue::Done), entropy::Continue::Done);
    assert_eq!(a.bytes, 0x55);
    assert_eq!(Entropy32::get(&mut a), Ok(()));
    assert_eq!(a.egen.gets, 1);
}

#[test]
fn a_word_gives_four_bytes() {
    let mut a = Entropy32To8::new(Source::new());
    let mut words = Available::new(vec![0xDDCC_BBAAu32, 7]);
    assert!(matches!(
        a.entropy_available(&mut words, Ok(())),
        Delivery::Answer(entropy::Continue::Done)
    ));
    a.set_client();
    assert!(matches!(a.entropy_available(&mut words, Ok(())), Delivery::Deliver(Ok(()))));
    assert_eq!(words.position, 1);
    assert_eq!(a.next(), Some(0xAA));
    assert_eq!(a.next(), Some(0xBB));
    assert_eq!(a.next(), Some(0xCC));
    assert_eq!(a.next(), Some(0xDD));
    assert_eq!(a.next(), None);
    let mut none: Available<u32> = Available::new(vec![]);
    assert!(is_more(a.entropy_available(&mut none, Ok(()))));
    assert!(matches!(
        a.entropy_available(&mut none, Err(ErrorCode::FAIL)),
        Delivery::Deliver(Err(ErrorCode::FAIL))
    ));
    assert_eq!(Entropy8::cancel(&mut a), Ok(()));
    assert_eq!(a.egen.cancels, 1);
}

#[test]
fn pseudo_random_sequence() {
    let mut r = SynchronousRandom::new(Source::new());
    assert_eq!(r.seed, 0);
    assert_eq!(r.random(), 1_013_904_223);
    assert_eq!(r.random(), 1_013_904_223u32.wrapping_mul(1_644_525).wrapping_add(1_013_904_223));
    r.reseed(1);
    assert_eq!(r.random(), 1_644_525 + 1_013_904_223);
    r.reseed(u32::MAX);
    assert_eq!(r.random(), 1_013_904_223 - 1_644_525);
    r.initialize();
    assert_eq!(r.rgen.gets, 1);
    let mut none: Available<u32> = Available::new(vec![]);
    assert_eq!(r.randomness_available(&mut none, Ok(())), rng::Continue::More);
    let mut words = Available::new(vec![99u32, 100]);
    assert_eq!(r.randomness_available(&mut words, Ok(())), rng::Continue::Done);
    assert_eq!(r.seed, 99);
    assert_eq!(words.position, 1);
}
