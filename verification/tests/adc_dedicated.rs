use arbitration::capsules::adc::{
    advance, copy_samples, next_offset, split_request, AdcDedicated, AdcMode, App, Progress,
};
use arbitration::kernel::math::smaller;
use arbitration::kernel::errorcode::ErrorCode;
use arbitration::kernel::grant::{Grant, ProcessBuffer};
use arbitration::kernel::hil::adc::{Adc, AdcHighSpeed};
use arbitration::kernel::process::ProcessId;
use arbitration::kernel::syscall::CommandReturn;

#[derive(Debug, Clone, PartialEq)]
enum Call {
    Sample(u8),
    Continuous(u8, u32),
    Highspeed(u8, u32, usize, usize),
    Provide(usize),
    Stop,
    Retrieve,
}

struct Converter {
    calls: Vec<Call>,
    held: Vec<Vec<u16>>,
    refuse: Option<ErrorCode>,
    refuse_provide: bool,
}

impl Converter {
    fn new() -> Converter {
        Converter { calls: Vec::new(), held: Vec::new(), refuse: None, refuse_provide: false }
    }

    fn hand_back(&mut self) -> Vec<u16> {
        self.held.remove(0)
    }
}

impl Adc for Converter {
    type Channel = u8;

    fn sample_asked(
        &self,
        _before: &Self,
        _channel: u8,
        _frequency: Option<u32>,
        _r: Result<(), ErrorCode>,
    ) -> bool {
        true
    }

    fn stop_asked(&self, _before: &Self, _r: Result<(), ErrorCode>) -> bool {
        true
    }

    fn sample(&mut self, channel: &u8) -> Result<(), ErrorCode> {
        self.calls.push(Call::Sample(*channel));
        match self.refuse {
            Some(e) => Err(e),
            None => Ok(()),
        }
    }

    fn sample_continuous(&mut self, channel: &u8, frequency: u32) -> Result<(), ErrorCode> {
        self.calls.push(Call::Continuous(*channel, frequency));
        match self.refuse {
            Some(e) => Err(e),
            None => Ok(()),
        }
    }

    fn stop_sampling(&mut self) -> Result<(), ErrorCode> {
        self.calls.push(Call::Stop);
        Ok(())
    }

    fn resolution_bits(&self) -> usize {
        10
    }

    fn voltage_reference_mv(&self) -> Option<usize> {
        Some(1800)
    }

    fn get_resolution_bits(&self) -> usize {
        10
    }

    fn get_voltage_reference_mv(&self) -> Option<usize> {
        Some(1800)
    }
}

impl AdcHighSpeed for Converter {
    fn retrieved(
        &self,
        _before: &Self,
        _r: Result<(Option<Vec<u16>>, Option<Vec<u16>>), ErrorCode>,
    ) -> bool {
        true
    }

    fn highspeed_asked(
        &self,
        _before: &Self,
        _channel: u8,
        _frequency: u32,
        _buffer1: Vec<u16>,
        _length1: usize,
        _buffer2: Vec<u16>,
        _length2: usize,
        _r: Result<(), (ErrorCode, Vec<u16>, Vec<u16>)>,
    ) -> bool {
        true
    }

    fn provide_asked(
        &self,
        _before: &Self,
        _buf: Vec<u16>,
        _length: usize,
        _r: Result<(), (ErrorCode, Vec<u16>)>,
    ) -> bool {
        true
    }

    fn sample_highspeed(
        &mut self,
        channel: &u8,
        frequency: u32,
        buffer1: Vec<u16>,
        length1: usize,
        buffer2: Vec<u16>,
        length2: usize,
    ) -> Result<(), (ErrorCode, Vec<u16>, Vec<u16>)> {
        self.calls.push(Call::Highspeed(*channel, frequency, length1, length2));
        match self.refuse {
            Some(e) => Err((e, buffer1, buffer2)),
            None => {
                self.held.push(buffer1);
                self.held.push(buffer2);
                Ok(())
            }
        }
    }

    fn provide_buffer(&mut self, buf: Vec<u16>, length: usize) -> Result<(), (ErrorCode, Vec<u16>)> {
        self.calls.push(Call::Provide(length));
        if self.refuse_provide {
            Err((ErrorCode::BUSY, buf))
        } else {
            self.held.push(buf);
            Ok(())
        }
    }

    fn retrieve_buffers(&mut self) -> Result<(Option<Vec<u16>>, Option<Vec<u16>>), ErrorCode> {
        self.calls.push(Call::Retrieve);
        let first = if self.held.is_empty() { None } else { Some(self.held.remove(0)) };
        let second = if self.held.is_empty() { None } else { Some(self.held.remove(0)) };
        Ok((first, second))
    }
}

const CHUNK: usize = 128;

fn driver() -> (AdcDedicated<Converter>, ProcessId, ProcessId) {
    let mut grant: Grant<App> = Grant::new(2, 1, 0, 2);
    let a = grant.load(0, 11);
    let b = grant.load(1, 22);
    let d = AdcDedicated::new(
        Converter::new(),
        grant,
        vec![10u8, 20, 30],
        vec![0u16; CHUNK],
        vec![0u16; CHUNK],
        vec![0u16; CHUNK],
    );
    (d, a, b)
}

fn held(d: &AdcDedicated<Converter>) -> usize {
    [&d.adc_buf1, &d.adc_buf2, &d.adc_buf3].iter().filter(|c| c.value.is_some()).count()
}

fn share(d: &mut AdcDedicated<Converter>, id: ProcessId, n: usize, ptr: usize, len: usize) {
    d.apps.allow_readwrite(id, n, ProcessBuffer::new(ptr, vec![0u8; len])).ok().unwrap();
}

#[test]
fn request_split_over_two_buffers() {
    assert_eq!(split_request(5, 128, 128), (5, 0));
    assert_eq!(split_request(128, 128, 128), (128, 0));
    assert_eq!(split_request(200, 128, 128), (128, 72));
    assert_eq!(split_request(300, 128, 128), (128, 128));
    assert_eq!(split_request(0, 128, 128), (0, 0));
    assert_eq!(split_request(10, 0, 4), (0, 4));
    assert_eq!(smaller(3, 9), 3);
    assert_eq!(smaller(9, 3), 3);
}

#[test]
fn offsets_advance_by_two_bytes_a_sample() {
    assert_eq!(next_offset(0, 5), 10);
    assert_eq!(next_offset(256, 128), 512);
    assert_eq!(next_offset(usize::MAX - 1, 1), usize::MAX);
    assert_eq!(next_offset(0, 0), 0);
}

#[test]
fn mode_words() {
    assert_eq!(AdcMode::SingleSample.into_usize(), 0);
    assert_eq!(AdcMode::ContinuousSample.into_usize(), 1);
    assert_eq!(AdcMode::SingleBuffer.into_usize(), 2);
    assert_eq!(AdcMode::ContinuousBuffer.into_usize(), 3);
    assert_eq!(AdcMode::NoMode.into_usize(), usize::MAX);
}

#[test]
fn samples_are_stored_low_byte_first_behind_what_is_there() {
    let mut g: Grant<App> = Grant::new(1, 1, 0, 2);
    let id = g.load(0, 1);
    g.allow_readwrite(id, 0, ProcessBuffer::new(0x100, vec![0xEE; 9])).ok().unwrap();
    copy_samples(&mut g, 0, 0, 1, &vec![0x1234, 0xABCD, 0x0102, 0x0304, 0x0506], 3);
    assert_eq!(
        g.records[0].rw[0].data,
        vec![0xEE, 0xEE, 0x34, 0x12, 0xCD, 0xAB, 0x02, 0x01, 0xEE]
    );
    copy_samples(&mut g, 0, 0, 4, &vec![0xBEEF, 0x1111], 2);
    assert_eq!(g.records[0].rw[0].data[8], 0xEF);
    copy_samples(&mut g, 0, 0, 9, &vec![0x2222], 1);
    assert_eq!(g.records[0].rw[0].data[8], 0xEF);
    copy_samples(&mut g, 0, 0, 0, &vec![0x7777], 5);
    assert_eq!(&g.records[0].rw[0].data[0..4], &[0x77, 0x77, 0x34, 0x12]);
}

fn app(remaining: usize, outstanding: usize, next: usize) -> App {
    App {
        app_buf_offset: 0,
        samples_remaining: remaining,
        samples_outstanding: outstanding,
        next_samples_outstanding: next,
        using_app_buf0: true,
    }
}

#[test]
fn capture_advances_while_samples_remain() {
    let p = advance(app(44, 256, 0), false, 0, 300, 128, Some(128));
    assert_eq!(
        p,
        Progress { app: app(0, 172, 0), request: Some(44), perform_callback: false }
    );
    let p = advance(app(500, 256, 0), false, 0, 800, 128, Some(128));
    assert_eq!(
        p,
        Progress { app: app(372, 256, 0), request: Some(128), perform_callback: false }
    );
    let p = advance(app(44, 256, 0), false, 0, 300, 128, None);
    assert_eq!(p, Progress { app: app(44, 128, 0), request: None, perform_callback: false });
}

#[test]
fn capture_completes_when_nothing_is_outstanding() {
    let p = advance(app(0, 44, 0), false, 0, 300, 44, Some(128));
    assert_eq!(p, Progress { app: app(0, 0, 0), request: None, perform_callback: true });
    let p = advance(app(0, 172, 0), false, 0, 300, 128, Some(128));
    assert_eq!(p, Progress { app: app(0, 44, 0), request: None, perform_callback: false });
    let p = advance(app(0, 10, 0), false, 0, 300, 50, Some(128));
    assert_eq!(p, Progress { app: app(0, 0, 0), request: None, perform_callback: true });
}

#[test]
fn continuous_capture_requests_ahead_and_switches_buffers() {
    let p = advance(app(0, 172, 0), true, 200, 300, 128, Some(128));
    assert_eq!(
        p,
        Progress { app: app(0, 44, 128), request: Some(128), perform_callback: false }
    );
    let p = advance(app(0, 44, 128), true, 200, 300, 44, Some(128));
    let mut after = app(0, 200, 128);
    after.using_app_buf0 = false;
    assert_eq!(p, Progress { app: after, request: Some(72), perform_callback: true });
    let p = advance(app(0, 20, 30), true, 30, 40, 20, Some(128));
    let mut after = app(0, 30, 40);
    after.using_app_buf0 = false;
    assert_eq!(p, Progress { app: after, request: Some(40), perform_callback: true });
}

#[test]
fn single_sample() {
    let (mut d, a, _) = driver();
    assert_eq!(d.command(1, 1, 0, a), CommandReturn::Success);
    assert!(d.active);
    assert_eq!(d.mode, AdcMode::SingleSample);
    assert_eq!(d.channel, 1);
    assert_eq!(d.adc.calls, vec![Call::Sample(20)]);
    assert_eq!(d.sample(0), Err(ErrorCode::BUSY));
    d.sample_ready(0x3FF);
    assert!(!d.active);
    assert_eq!(d.mode, AdcMode::NoMode);
    assert_eq!(d.apps.records[0].pending[0], Some((0, 1, 0x3FF)));
}

#[test]
fn sample_on_a_channel_that_is_not_there() {
    let (mut d, _, _) = driver();
    assert_eq!(d.sample(3), Err(ErrorCode::INVAL));
    assert_eq!(d.sample_continuous(3, 10), Err(ErrorCode::INVAL));
    assert_eq!(d.sample_buffer(3, 10), Err(ErrorCode::INVAL));
    assert_eq!(d.sample_buffer_continuous(3, 10), Err(ErrorCode::INVAL));
    assert!(d.adc.calls.is_empty());
    assert!(!d.active);
}

#[test]
fn refused_sample_leaves_the_driver_idle() {
    let (mut d, _, _) = driver();
    d.adc.refuse = Some(ErrorCode::OFF);
    assert_eq!(d.sample(0), Err(ErrorCode::OFF));
    assert!(!d.active);
    assert_eq!(d.mode, AdcMode::NoMode);
    assert_eq!(d.sample_continuous(0, 100), Err(ErrorCode::OFF));
    assert!(!d.active);
}

#[test]
fn continuous_samples_keep_the_driver_active() {
    let (mut d, a, _) = driver();
    assert_eq!(d.command(2, 2, 1000, a), CommandReturn::Success);
    assert_eq!(d.adc.calls, vec![Call::Continuous(30, 1000)]);
    d.sample_ready(1);
    assert!(d.active);
    assert_eq!(d.mode, AdcMode::ContinuousSample);
    assert_eq!(d.apps.records[0].pending[0], Some((1, 2, 1)));
    d.sample_ready(2);
    assert_eq!(d.apps.records[0].pending[0], Some((1, 2, 1)));
    assert_eq!(d.apps.records[0].dropped, 1);
    assert_eq!(d.command(5, 0, 0, a), CommandReturn::Success);
    assert!(!d.active);
    assert_eq!(d.adc.calls.last(), Some(&Call::Retrieve));
}

#[test]
fn sample_that_nobody_awaits_stops_the_converter() {
    let (mut d, _, _) = driver();
    d.sample_ready(5);
    assert!(!d.active);
    assert_eq!(d.adc.calls, vec![Call::Stop]);
    let (mut d, a, _) = driver();
    d.command(2, 0, 10, a);
    d.apps.terminate(0);
    d.sample_ready(5);
    assert!(!d.active);
    assert_eq!(d.mode, AdcMode::NoMode);
    assert_eq!(d.processid, None);
    assert_eq!(d.apps.records[0].pending[0], None);
    assert_eq!(d.adc.calls.last(), Some(&Call::Stop));
}

#[test]
fn only_one_process_owns_the_converter() {
    let (mut d, a, b) = driver();
    assert_eq!(d.command(0, 0, 0, a), CommandReturn::SuccessU32(3));
    assert_eq!(d.processid, None);
    assert_eq!(d.command(101, 0, 0, a), CommandReturn::SuccessU32(10));
    assert_eq!(d.processid, Some(a));
    assert_eq!(d.command(101, 0, 0, b), CommandReturn::Failure(ErrorCode::NOMEM));
    assert_eq!(d.command(0, 0, 0, b), CommandReturn::SuccessU32(3));
    assert_eq!(d.command(1, 0, 0, a), CommandReturn::Success);
    d.apps.terminate(0);
    assert_eq!(d.command(101, 0, 0, b), CommandReturn::Failure(ErrorCode::NOMEM));
    d.sample_ready(1);
    assert_eq!(d.command(101, 0, 0, b), CommandReturn::SuccessU32(10));
    assert_eq!(d.processid, Some(b));
}

#[test]
fn dedicated_other_commands() {
    let (mut d, a, _) = driver();
    assert_eq!(d.command(101, 0, 0, a), CommandReturn::SuccessU32(10));
    assert_eq!(d.command(102, 0, 0, a), CommandReturn::SuccessU32(1800));
    assert_eq!(d.command(6, 0, 0, a), CommandReturn::Failure(ErrorCode::NOSUPPORT));
    assert_eq!(d.command(5, 0, 0, a), CommandReturn::Success);
    assert_eq!(d.allocate_grant(a), Ok(()));
}

#[test]
fn capture_needs_a_shared_buffer() {
    let (mut d, a, _) = driver();
    assert_eq!(d.command(3, 0, 100, a), CommandReturn::Failure(ErrorCode::NOMEM));
    assert!(!d.active);
    share(&mut d, a, 0, 0x1000, 10);
    assert_eq!(d.command(4, 0, 100, a), CommandReturn::Failure(ErrorCode::NOMEM));
    assert!(d.adc.calls.is_empty());
    assert_eq!(held(&d), 3);
    let (mut d, _, _) = driver();
    assert_eq!(d.sample_buffer(0, 100), Err(ErrorCode::NOMEM));
}

#[test]
fn capture_into_a_buffer_smaller_than_a_chunk() {
    let (mut d, a, _) = driver();
    share(&mut d, a, 0, 0x2000, 10);
    assert_eq!(d.command(3, 1, 44100, a), CommandReturn::Success);
    assert!(d.active);
    assert_eq!(d.mode, AdcMode::SingleBuffer);
    assert_eq!(d.adc.calls, vec![Call::Highspeed(20, 44100, 5, 0)]);
    assert_eq!(held(&d), 1);
    assert_eq!(d.apps.get(0).samples_outstanding, 5);
    assert_eq!(d.apps.get(0).samples_remaining, 0);

    let mut chunk = d.adc.hand_back();
    for (i, s) in chunk.iter_mut().enumerate() {
        *s = 0x0100 * (i as u16 + 1) + 0x11;
    }
    d.samples_ready(chunk, 5);
    assert_eq!(
        d.apps.records[0].rw[0].data,
        vec![0x11, 0x01, 0x11, 0x02, 0x11, 0x03, 0x11, 0x04, 0x11, 0x05]
    );
    assert_eq!(d.apps.records[0].pending[0], Some((2, (5 << 8) | 1, 0x2000)));
    assert_eq!(d.apps.records[0].dropped, 0);
    assert!(!d.active);
    assert_eq!(d.mode, AdcMode::NoMode);
    assert_eq!(d.apps.get(0).app_buf_offset, 0);
    assert_eq!(held(&d), 3);
    assert_eq!(
        d.adc.calls,
        vec![Call::Highspeed(20, 44100, 5, 0), Call::Stop, Call::Retrieve]
    );
}

#[test]
fn capture_over_several_chunks() {
    let (mut d, a, _) = driver();
    share(&mut d, a, 0, 0x4000, 600);
    assert_eq!(d.sample_buffer(0, 8000), Err(ErrorCode::NOMEM));
    d.processid = Some(a);
    assert_eq!(d.sample_buffer(2, 8000), Ok(()));
    assert_eq!(d.adc.calls, vec![Call::Highspeed(30, 8000, 128, 128)]);
    assert_eq!(d.apps.get(0).samples_remaining, 44);
    assert_eq!(d.apps.get(0).samples_outstanding, 256);

    let mut chunk = d.adc.hand_back();
    chunk.iter_mut().for_each(|s| *s = 0x0A0B);
    d.samples_ready(chunk, 128);
    assert_eq!(d.adc.calls.last(), Some(&Call::Provide(44)));
    assert_eq!(d.apps.get(0).samples_remaining, 0);
    assert_eq!(d.apps.get(0).samples_outstanding, 172);
    assert_eq!(d.apps.get(0).app_buf_offset, 256);
    assert_eq!(d.apps.records[0].pending[0], None);
    assert!(d.apps.records[0].rw[0].data[0..256].chunks(2).all(|c| c == [0x0B, 0x0A]));
    assert!(d.apps.records[0].rw[0].data[256..].iter().all(|b| *b == 0));

    let mut chunk = d.adc.hand_back();
    chunk.iter_mut().for_each(|s| *s = 0x0C0D);
    d.samples_ready(chunk, 128);
    assert_eq!(d.apps.get(0).samples_outstanding, 44);
    assert_eq!(d.apps.get(0).app_buf_offset, 512);
    assert_eq!(d.apps.records[0].pending[0], None);
    assert!(d.apps.records[0].rw[0].data[256..512].chunks(2).all(|c| c == [0x0D, 0x0C]));
    assert!(d.active);

    let mut chunk = d.adc.hand_back();
    chunk.iter_mut().for_each(|s| *s = 0x0E0F);
    d.samples_ready(chunk, 44);
    assert!(d.apps.records[0].rw[0].data[512..600].chunks(2).all(|c| c == [0x0F, 0x0E]));
    assert!(d.apps.records[0].rw[0].data[0..256].chunks(2).all(|c| c == [0x0B, 0x0A]));
    assert_eq!(d.apps.records[0].pending[0], Some((2, (300 << 8) | 2, 0x4000)));
    assert!(!d.active);
    assert_eq!(held(&d), 3);
    assert_eq!(
        d.adc.calls.iter().filter(|c| matches!(c, Call::Provide(_))).count(),
        1
    );
}

#[test]
fn refused_capture_keeps_all_buffers() {
    let (mut d, a, _) = driver();
    share(&mut d, a, 0, 0x2000, 10);
    d.processid = Some(a);
    d.adc.refuse = Some(ErrorCode::FAIL);
    assert_eq!(d.sample_buffer(0, 100), Err(ErrorCode::FAIL));
    assert!(!d.active);
    assert_eq!(d.mode, AdcMode::NoMode);
    assert_eq!(held(&d), 3);
    assert_eq!(d.apps.get(0).samples_outstanding, 0);
    assert_eq!(d.apps.get(0).samples_remaining, 0);
}

#[test]
fn capture_without_both_buffers_is_busy() {
    let (mut d, a, _) = driver();
    share(&mut d, a, 0, 0x2000, 10);
    d.processid = Some(a);
    let taken = d.adc_buf2.take();
    assert_eq!(d.sample_buffer(0, 100), Err(ErrorCode::BUSY));
    assert!(d.adc_buf1.is_some());
    assert!(d.adc.calls.is_empty());
    assert!(!d.active);
    d.adc_buf2.put(taken);
    assert_eq!(held(&d), 3);
}

#[test]
fn buffer_of_a_process_that_is_gone_is_reclaimed() {
    let (mut d, a, _) = driver();
    share(&mut d, a, 0, 0x2000, 600);
    d.processid = Some(a);
    d.sample_buffer(0, 100).unwrap();
    assert_eq!(held(&d), 1);
    d.apps.terminate(0);
    let chunk = d.adc.hand_back();
    d.samples_ready(chunk, 128);
    assert!(!d.active);
    assert_eq!(d.mode, AdcMode::NoMode);
    assert_eq!(d.processid, None);
    assert_eq!(held(&d), 3);
    assert_eq!(d.apps.records[0].pending[0], None);
    assert_eq!(d.adc.calls.last(), Some(&Call::Retrieve));
}

#[test]
fn buffer_that_nobody_awaits_is_stored() {
    let (mut d, _, _) = driver();
    let spare = d.adc_buf1.take().unwrap();
    assert_eq!(held(&d), 2);
    d.samples_ready(spare, 0);
    assert_eq!(held(&d), 3);
    assert!(!d.active);
}

#[test]
fn continuous_capture_alternates_buffers() {
    let (mut d, a, _) = driver();
    share(&mut d, a, 0, 0x1000, 256);
    share(&mut d, a, 1, 0x2000, 256);
    assert_eq!(d.command(4, 0, 100, a), CommandReturn::Success);
    assert_eq!(d.mode, AdcMode::ContinuousBuffer);
    assert_eq!(d.adc.calls, vec![Call::Highspeed(10, 100, 128, 128)]);

    let mut chunk = d.adc.hand_back();
    chunk.iter_mut().for_each(|s| *s = 0x0101);
    d.samples_ready(chunk, 128);
    assert_eq!(d.apps.records[0].pending[0], Some((3, (128 << 8) | 0, 0x1000)));
    assert!(d.apps.records[0].rw[0].data.iter().all(|b| *b == 1));
    assert!(d.active);
    assert!(!d.apps.get(0).using_app_buf0);
    assert_eq!(d.apps.get(0).app_buf_offset, 0);
    d.apps.take_upcall(0, 0);

    let mut chunk = d.adc.hand_back();
    chunk.iter_mut().for_each(|s| *s = 0x0202);
    d.samples_ready(chunk, 128);
    assert!(d.apps.records[0].rw[1].data.iter().all(|b| *b == 2));
    assert_eq!(d.apps.records[0].pending[0], Some((3, (128 << 8) | 0, 0x2000)));
    assert!(d.apps.get(0).using_app_buf0);

    assert_eq!(d.stop_sampling(), Ok(()));
    assert!(!d.active);
    assert_eq!(held(&d), 3);
}

#[test]
fn stop_without_an_owner_fails() {
    let (mut d, a, _) = driver();
    d.command(2, 0, 10, a);
    d.apps.terminate(0);
    assert_eq!(d.stop_sampling(), Err(ErrorCode::FAIL));
    assert_eq!(d.processid, None);
    let (mut d, _, _) = driver();
    assert_eq!(d.stop_sampling(), Ok(()));
    assert!(d.adc.calls.is_empty());
}

#[test]
fn buffers_go_out_oldest_first() {
    let (mut d, _, _) = driver();
    let b1 = d.take_buffer().unwrap();
    assert!(d.adc_buf1.is_none() && d.adc_buf2.is_some());
    let b2 = d.take_buffer().unwrap();
    let b3 = d.take_buffer().unwrap();
    assert_eq!(d.take_buffer(), None);
    assert_eq!(d.free_capacity(), None);
    d.replace_buffer(vec![1u16; 7]);
    assert_eq!(d.adc_buf3.value, Some(vec![1u16; 7]));
    d.replace_buffer(vec![2u16; 8]);
    assert_eq!(d.adc_buf3.value, Some(vec![2u16; 8]));
    assert_eq!(d.adc_buf2.value, Some(vec![1u16; 7]));
    d.replace_buffer(vec![3u16; 9]);
    assert_eq!(d.adc_buf1.value, Some(vec![2u16; 8]));
    assert_eq!(d.adc_buf3.value, Some(vec![3u16; 9]));
    assert_eq!(d.free_capacity(), Some(8));
    assert_eq!(d.take_buffer(), Some(vec![2u16; 8]));
    d.reclaim(Some(b1), None);
    d.reclaim(None, None);
    assert_eq!(held(&d), 3);
    drop((b2, b3));
}
