use arbitration::capsules::virtual_pwm::{MuxPwm, Operation, PwmPinUser};
use arbitration::kernel::errorcode::ErrorCode;
use arbitration::kernel::hil::pwm::Pwm;

#[derive(Debug, Clone, PartialEq)]
enum Call {
    Start(u8, usize, usize),
    Stop(u8),
}

struct Generator {
    calls: Vec<Call>,
    refuse: Vec<u8>,
}

impl Generator {
    fn new() -> Generator {
        Generator { calls: Vec::new(), refuse: Vec::new() }
    }
}

impl Pwm for Generator {
    type Pin = u8;

    fn started(
        &self,
        _before: &Self,
        _pin: u8,
        _frequency_hz: usize,
        _duty_cycle: usize,
        _r: Result<(), ErrorCode>,
    ) -> bool {
        true
    }

    fn stopped(&self, _before: &Self, _pin: u8, _r: Result<(), ErrorCode>) -> bool {
        true
    }

    fn start(&mut self, pin: &u8, frequency_hz: usize, duty_cycle: usize) -> Result<(), ErrorCode> {
        self.calls.push(Call::Start(*pin, frequency_hz, duty_cycle));
        if self.refuse.contains(pin) {
            Err(ErrorCode::INVAL)
        } else {
            Ok(())
        }
    }

    fn stop(&mut self, pin: &u8) -> Result<(), ErrorCode> {
        self.calls.push(Call::Stop(*pin));
        Ok(())
    }

    fn maximum_frequency_hz(&self) -> usize {
        1_000_000
    }

    fn maximum_duty_cycle(&self) -> usize {
        100
    }

    fn get_maximum_frequency_hz(&self) -> usize {
        1_000_000
    }

    fn get_maximum_duty_cycle(&self) -> usize {
        100
    }
}

fn mux_with(pins: &[u8]) -> (MuxPwm<Generator>, Vec<usize>) {
    let mut mux = MuxPwm::new(Generator::new());
    let mut handles = Vec::new();
    for pin in pins {
        handles.push(PwmPinUser::new(*pin).add_to_mux(&mut mux));
    }
    (mux, handles)
}

#[test]
fn users_are_registered_in_order() {
    let (mux, handles) = mux_with(&[7, 9, 11]);
    assert_eq!(handles, vec![0, 1, 2]);
    assert_eq!(mux.devices.len(), 3);
    assert_eq!(mux.devices[1].pin, 9);
    assert!(mux.inflight.is_none());
}

#[test]
fn shared_generator_changes_hands() {
    let (mut mux, h) = mux_with(&[1, 2]);
    let (a, b) = (h[0], h[1]);

    assert_eq!(mux.start(a, 440, 50), Ok(()));
    assert_eq!(mux.inflight, Some(a));
    assert_eq!(mux.pwm.calls, vec![Call::Start(1, 440, 50)]);

    assert_eq!(mux.start(b, 220, 25), Ok(()));
    assert_eq!(mux.inflight, Some(a));
    assert_eq!(
        mux.devices[b].operation,
        Some(Operation::Simple { frequency_hz: 220, duty_cycle: 25 })
    );
    assert_eq!(mux.pwm.calls, vec![Call::Start(1, 440, 50)]);

    assert_eq!(mux.stop(a), Ok(()));
    assert_eq!(mux.inflight, Some(b));
    assert_eq!(mux.devices[b].operation, None);
    assert_eq!(
        mux.pwm.calls,
        vec![Call::Start(1, 440, 50), Call::Stop(1), Call::Start(2, 220, 25)]
    );
}

#[test]
fn second_request_of_waiting_user_is_busy() {
    let (mut mux, h) = mux_with(&[1, 2]);
    assert_eq!(mux.start(h[0], 440, 50), Ok(()));
    assert_eq!(mux.start(h[1], 220, 25), Ok(()));
    let calls = mux.pwm.calls.len();
    assert_eq!(mux.start(h[1], 1000, 10), Err(ErrorCode::BUSY));
    assert_eq!(mux.stop(h[1]), Err(ErrorCode::BUSY));
    assert_eq!(
        mux.devices[h[1]].operation,
        Some(Operation::Simple { frequency_hz: 220, duty_cycle: 25 })
    );
    assert_eq!(mux.pwm.calls.len(), calls);
    assert_eq!(mux.inflight, Some(h[0]));
}

#[test]
fn refused_start_leaves_generator_free() {
    let (mut mux, h) = mux_with(&[1, 2]);
    mux.pwm.refuse.push(1);
    assert_eq!(mux.start(h[0], 440, 50), Err(ErrorCode::INVAL));
    assert_eq!(mux.inflight, None);
    assert_eq!(mux.start(h[1], 220, 25), Ok(()));
    assert_eq!(mux.inflight, Some(h[1]));
}

#[test]
fn refused_waiting_request_is_dropped_and_scan_goes_on() {
    let (mut mux, h) = mux_with(&[1, 2, 3]);
    assert_eq!(mux.start(h[0], 440, 50), Ok(()));
    assert_eq!(mux.start(h[1], 220, 25), Ok(()));
    assert_eq!(mux.start(h[2], 110, 75), Ok(()));
    mux.pwm.refuse.push(2);
    assert_eq!(mux.stop(h[0]), Ok(()));
    assert_eq!(mux.inflight, Some(h[2]));
    assert_eq!(mux.devices[h[1]].operation, None);
    assert_eq!(mux.devices[h[2]].operation, None);
    assert_eq!(
        mux.pwm.calls,
        vec![
            Call::Start(1, 440, 50),
            Call::Stop(1),
            Call::Start(2, 220, 25),
            Call::Start(3, 110, 75)
        ]
    );
}

#[test]
fn owner_updates_parameters_in_place() {
    let (mut mux, h) = mux_with(&[1, 2]);
    assert_eq!(mux.start(h[0], 440, 50), Ok(()));
    assert_eq!(mux.start(h[0], 880, 20), Ok(()));
    assert_eq!(mux.inflight, Some(h[0]));
    assert_eq!(mux.devices[h[0]].operation, None);
    assert_eq!(mux.pwm.calls, vec![Call::Start(1, 440, 50), Call::Start(1, 880, 20)]);
}

#[test]
fn waiting_stop_is_dropped_when_served() {
    let (mut mux, h) = mux_with(&[1, 2, 3]);
    assert_eq!(mux.start(h[0], 440, 50), Ok(()));
    assert_eq!(mux.stop(h[1]), Ok(()));
    assert_eq!(mux.start(h[2], 110, 75), Ok(()));
    assert_eq!(mux.devices[h[1]].operation, Some(Operation::Stop));
    assert_eq!(mux.stop(h[0]), Ok(()));
    assert_eq!(mux.inflight, Some(h[2]));
    assert_eq!(mux.devices[h[1]].operation, None);
}

#[test]
fn stop_on_free_generator_does_nothing() {
    let (mut mux, h) = mux_with(&[1]);
    assert_eq!(mux.stop(h[0]), Ok(()));
    assert!(mux.pwm.calls.is_empty());
    assert_eq!(mux.inflight, None);
    mux.do_next_op();
    assert!(mux.pwm.calls.is_empty());
}

#[test]
fn limits_come_from_the_generator() {
    let (mux, _) = mux_with(&[1]);
    assert_eq!(mux.get_maximum_frequency_hz(), 1_000_000);
    assert_eq!(mux.get_maximum_duty_cycle(), 100);
}
