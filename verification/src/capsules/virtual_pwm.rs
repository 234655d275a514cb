//! Shares one signal generator among several pins.
//!
//! Each user of the generator owns one slot for a request. The generator
//! serves one user at a time, its owner. While it is owned, requests of
//! other users wait in their slots; when the owner stops, the slots are
//! scanned in the order in which the users were registered and the first
//! request that the hardware accepts makes its user the new owner.

use vstd::prelude::*;
use crate::kernel::errorcode::ErrorCode;
use crate::kernel::hil::pwm::Pwm;

verus! {

/// What a user asks of the generator.
#[derive(Clone, Copy, Debug, PartialEq, Eq, Structural)]
pub enum Operation {
    /// Drive the pin with this frequency and duty cycle.
    Simple { frequency_hz: usize, duty_cycle: usize },
    /// Stop driving the pin.
    Stop,
}

/// One user of the shared generator: its pin and its request slot.
pub struct PwmPinUser<P: Pwm> {
    pub pin: P::Pin,
    pub operation: Option<Operation>,
}

/// The arbiter of one generator.
pub struct MuxPwm<P: Pwm> {
    pub pwm: P,
    pub devices: Vec<PwmPinUser<P>>,
    pub inflight: Option<usize>,
}

impl<P: Pwm> PwmPinUser<P> {
    /// A user of `pin` with an empty request slot.
    pub fn new(pin: P::Pin) -> (r: PwmPinUser<P>)
        ensures
            r.pin == pin,
            r.operation is None,
    {
        PwmPinUser { pin, operation: None }
    }

    /// Registers the user with `mux`, behind the users registered before,
    /// and answers the handle under which the user makes its requests.
    pub fn add_to_mux(self, mux: &mut MuxPwm<P>) -> (handle: usize)
        requires
            old(mux).settled(),
            self.operation is None,
        ensures
            final(mux).settled(),
            handle == old(mux).devices@.len(),
            final(mux).devices@ == old(mux).devices@.push(self),
            final(mux).inflight == old(mux).inflight,
            final(mux).pwm == old(mux).pwm,
    {
        let handle = mux.devices.len();
        mux.devices.push(self);
        handle
    }
}

impl<P: Pwm> MuxPwm<P> {
    /// The owner, if there is one, is a registered user.
    pub open spec fn valid(&self) -> bool {
        self.inflight matches Some(o) ==> o < self.devices@.len()
    }

    /// The state between two requests: the owner's slot is empty, and no
    /// request waits while the generator is free.
    pub open spec fn settled(&self) -> bool {
        &&& self.valid()
        &&& (self.inflight matches Some(o) ==> self.devices@[o as int].operation is None)
        &&& (self.inflight is None ==> self.no_request_from(0))
    }

    /// No user with handle `from` or above has a request waiting.
    pub open spec fn no_request_from(&self, from: int) -> bool {
        forall|i: int| from <= i < self.devices@.len()
            ==> (#[trigger] self.devices@[i]).operation is None
    }

    /// The request waiting in the slot of user `i`.
    pub open spec fn pending(&self, i: int) -> Option<Operation> {
        self.devices@[i].operation
    }

    /// The users and their pins are those of `other`; slots may differ.
    pub open spec fn same_users(&self, other: &MuxPwm<P>) -> bool {
        &&& self.devices@.len() == other.devices@.len()
        &&& forall|i: int|
            0 <= i < self.devices@.len() ==> (#[trigger] self.devices@[i]).pin
                == other.devices@[i].pin
    }

    /// The arbiter after the free generator was offered to the users whose
    /// slots were `devices`, in the order of registration: the new owner, if
    /// there is one, had a request to drive its pin waiting; the slots up to
    /// its own are empty, and those behind it are as they were. Without a
    /// new owner all slots are empty.
    pub open spec fn dispatched(&self, devices: Seq<PwmPinUser<P>>) -> bool {
        &&& self.settled()
        &&& self.devices@.len() == devices.len()
        &&& forall|i: int|
            0 <= i < devices.len() ==> (#[trigger] self.devices@[i]).pin == devices[i].pin
        &&& match self.inflight {
            Some(o) => {
                &&& devices[o as int].operation is Some
                &&& devices[o as int].operation != Some(Operation::Stop)
                &&& forall|j: int| 0 <= j <= o ==> (#[trigger] self.devices@[j]).operation is None
                &&& forall|j: int|
                    o < j < devices.len() ==> (#[trigger] self.devices@[j]) == devices[j]
                &&& exists|generator: P| #[trigger]
                    self.accepted_from(generator, devices[o as int])
            },
            None => forall|j: int|
                0 <= j < devices.len() ==> (#[trigger] self.devices@[j]).operation is None,
        }
    }

    /// The generator of this arbiter is what `generator` became when it
    /// was asked to drive the pin of `user` with the frequency and duty
    /// cycle of the request that waited in the user's slot, and accepted.
    pub open spec fn accepted_from(&self, generator: P, user: PwmPinUser<P>) -> bool {
        match user.operation {
            Some(Operation::Simple { frequency_hz, duty_cycle }) => self.pwm.started(
                &generator,
                user.pin,
                frequency_hz,
                duty_cycle,
                Ok(()),
            ),
            _ => false,
        }
    }

    /// The slots of `before` with the slot of `user` emptied.
    pub open spec fn without(before: &MuxPwm<P>, user: usize) -> Seq<PwmPinUser<P>> {
        before.devices@.update(
            user as int,
            PwmPinUser { pin: before.devices@[user as int].pin, operation: None },
        )
    }

    /// The generator of `before` was asked to stop driving the pin of
    /// `user`, answered `a` and was `halted` then. From there the scan of
    /// the other users' slots led to the generator of this arbiter: see
    /// `scanned`.
    pub open spec fn released(
        &self,
        before: &MuxPwm<P>,
        user: usize,
        halted: P,
        a: Result<(), ErrorCode>,
        trail: Seq<P>,
        answers: Seq<Result<(), ErrorCode>>,
    ) -> bool {
        &&& halted.stopped(&before.pwm, before.devices@[user as int].pin, a)
        &&& self.scanned(Self::without(before, user), halted, trail, answers)
    }

    /// An arbiter of `pwm` without users.
    pub fn new(pwm: P) -> (r: MuxPwm<P>)
        ensures
            r.settled(),
            r.pwm == pwm,
            r.devices@.len() == 0,
            r.inflight is None,
    {
        MuxPwm { pwm, devices: Vec::new(), inflight: None }
    }

    /// What becomes of the arbiter once the hardware has answered the start
    /// asked for the waiting user `i`: that user owns the generator if the
    /// start was accepted; if not, its request is dropped and the generator
    /// remains free.
    pub fn start_answered(&mut self, i: usize, answer: Result<(), ErrorCode>) -> (started: bool)
        requires
            old(self).inflight is None,
        ensures
            started == answer.is_ok(),
            final(self).inflight == (if answer.is_ok() {
                Some(i)
            } else {
                None
            }),
            final(self).devices == old(self).devices,
            final(self).pwm == old(self).pwm,
    {
        match answer {
            Ok(()) => {
                self.inflight = Some(i);
                true
            },
            Err(_) => false,
        }
    }

    /// What the scan did at the slot of user `j`, of the users whose slots
    /// were `devices`, when it ended with the owner `owner`: `trail` holds
    /// the generator as it was before and behind each slot, `answers` what
    /// the generator answered at each slot. A request to drive a pin that
    /// the scan reached was put to the generator as it waited, with the
    /// user's pin, and it was accepted if and only if the user is the owner;
    /// at every other slot the generator was not touched. The scan reached
    /// the slots up to the owner's, and all slots if there is no owner.
    pub open spec fn step(
        trail: Seq<P>,
        answers: Seq<Result<(), ErrorCode>>,
        devices: Seq<PwmPinUser<P>>,
        owner: Option<usize>,
        j: int,
    ) -> bool {
        let reached = match owner {
            Some(o) => j <= o,
            None => true,
        };
        match devices[j].operation {
            Some(Operation::Simple { frequency_hz, duty_cycle }) if reached => {
                &&& trail[j + 1].started(
                    &trail[j],
                    devices[j].pin,
                    frequency_hz,
                    duty_cycle,
                    answers[j],
                )
                &&& (answers[j] is Ok <==> owner == Some(j as usize))
            },
            _ => trail[j + 1] == trail[j],
        }
    }

    /// The generator of this arbiter is what the generator `start` became
    /// by the scan of the users whose slots were `devices`: the trail of the
    /// generator leads from `start` to it, slot by slot as `step` says.
    pub open spec fn scanned(
        &self,
        devices: Seq<PwmPinUser<P>>,
        start: P,
        trail: Seq<P>,
        answers: Seq<Result<(), ErrorCode>>,
    ) -> bool {
        &&& trail.len() == devices.len() + 1
        &&& answers.len() == devices.len()
        &&& trail[0] == start
        &&& trail[devices.len() as int] == self.pwm
        &&& forall|j: int|
            0 <= j < devices.len() ==> #[trigger] Self::step(
                trail,
                answers,
                devices,
                self.inflight,
                j,
            )
    }

    /// Gives the free generator to the first waiting user whose request the
    /// hardware accepts, scanning the users in the order of registration.
    /// A waiting stop, and a start that the hardware refuses, are dropped
    /// and the scan goes on. With no owner found the generator stays free.
    fn dispatch(&mut self)
        requires
            old(self).inflight is None,
        ensures
            final(self).dispatched(old(self).devices@),
            old(self).no_request_from(0) ==> *final(self) == *old(self),
            exists|trail: Seq<P>, answers: Seq<Result<(), ErrorCode>>| #[trigger]
                final(self).scanned(old(self).devices@, old(self).pwm, trail, answers),
    {
        let ghost mut trail: Seq<P> = seq![self.pwm];
        let ghost mut answers: Seq<Result<(), ErrorCode>> = Seq::empty();
        let ghost devices = self.devices@;
        let mut i: usize = 0;
        while i < self.devices.len() && self.inflight.is_none()
            invariant
                devices == old(self).devices@,
                trail.len() == i + 1,
                answers.len() == i,
                trail[0] == old(self).pwm,
                trail[i as int] == self.pwm,
                forall|j: int|
                    0 <= j < i ==> #[trigger] Self::step(
                        trail,
                        answers,
                        devices,
                        self.inflight,
                        j,
                    ),
                self.same_users(old(self)),
                i <= self.devices@.len(),
                forall|j: int| 0 <= j < i ==> (#[trigger] self.devices@[j]).operation is None,
                forall|j: int|
                    i <= j < self.devices@.len() ==> (#[trigger] self.devices@[j])
                        == old(self).devices@[j],
                self.inflight matches Some(o) ==> {
                    &&& o + 1 == i
                    &&& old(self).pending(o as int) is Some
                    &&& old(self).pending(o as int) != Some(Operation::Stop)
                },
                old(self).no_request_from(0) ==> *self == *old(self),
                self.inflight matches Some(o) ==> exists|generator: P| #[trigger]
                    self.accepted_from(generator, old(self).devices@[o as int]),
            decreases self.devices@.len() - i,
        {
            assert(self.devices@[i as int] == old(self).devices@[i as int]);
            let ghost trail_before = trail;
            let ghost answers_before = answers;
            let ghost mut answered: Result<(), ErrorCode> = Ok(());
            let waiting = self.devices[i].operation;
            match waiting {
                None => {},
                Some(Operation::Stop) => {
                    self.devices[i].operation = None;
                },
                Some(Operation::Simple { frequency_hz, duty_cycle }) => {
                    self.devices[i].operation = None;
                    let ghost generator = self.pwm;
                    let answer = self.pwm.start(&self.devices[i].pin, frequency_hz, duty_cycle);
                    self.start_answered(i, answer);
                    proof {
                        answered = answer;
                        if answer is Ok {
                            assert(answer->Ok_0 == ());
                            assert(answer == Ok::<(), ErrorCode>(()));
                            assert(self.accepted_from(generator, old(self).devices@[i as int]));
                        }
                    }
                },
            }
            proof {
                trail = trail.push(self.pwm);
                answers = answers.push(answered);
                assert forall|j: int| 0 <= j < i + 1 implies #[trigger] Self::step(
                    trail,
                    answers,
                    devices,
                    self.inflight,
                    j,
                ) by {
                    if j < i {
                        assert(Self::step(trail_before, answers_before, devices, None, j));
                        assert(trail[j] == trail_before[j]);
                        assert(trail[j + 1] == trail_before[j + 1]);
                        assert(answers[j] == answers_before[j]);
                    }
                }
            }
            i += 1;
        }
        proof {
            let n = devices.len();
            let reached = trail;
            let heard = answers;
            let generator = self.pwm;
            trail = reached + Seq::new((n - i) as nat, |k: int| generator);
            answers = heard + Seq::new((n - i) as nat, |k: int| Ok::<(), ErrorCode>(()));
            assert forall|j: int| 0 <= j < n implies #[trigger] Self::step(
                trail,
                answers,
                devices,
                self.inflight,
                j,
            ) by {
                if j < i {
                    assert(Self::step(reached, heard, devices, self.inflight, j));
                    assert(trail[j] == reached[j]);
                    assert(trail[j + 1] == reached[j + 1]);
                    assert(answers[j] == heard[j]);
                } else {
                    assert(trail[j] == generator);
                    assert(trail[j + 1] == generator);
                }
            }
            assert(self.scanned(old(self).devices@, old(self).pwm, trail, answers));
        }
    }

    /// Serves what waits. While the generator is owned, only a request in
    /// the owner's own slot is acted upon: new parameters are passed on to
    /// the hardware, a stop frees the generator. Whenever the generator is
    /// free, it is given to the next waiting user.
    pub fn do_next_op(&mut self)
        requires
            old(self).valid(),
        ensures
            final(self).settled(),
            final(self).same_users(old(self)),
            old(self).settled() ==> *final(self) == *old(self),
            old(self).inflight is None ==> final(self).dispatched(old(self).devices@)
                && exists|trail: Seq<P>, answers: Seq<Result<(), ErrorCode>>| #[trigger]
                final(self).scanned(old(self).devices@, old(self).pwm, trail, answers),
            old(self).inflight matches Some(o) ==> match old(self).pending(o as int) {
                None => *final(self) == *old(self),
                Some(Operation::Simple { frequency_hz, duty_cycle }) => {
                    &&& final(self).inflight == old(self).inflight
                    &&& final(self).pending(o as int) is None
                    &&& forall|j: int|
                        0 <= j < old(self).devices@.len() && j != o
                            ==> (#[trigger] final(self).devices@[j]) == old(self).devices@[j]
                    &&& exists|a: Result<(), ErrorCode>| #[trigger]
                        final(self).pwm.started(
                            &old(self).pwm,
                            old(self).devices@[o as int].pin,
                            frequency_hz,
                            duty_cycle,
                            a,
                        )
                },
                Some(Operation::Stop) => {
                    &&& final(self).dispatched(
                        old(self).devices@.update(
                            o as int,
                            PwmPinUser { pin: old(self).devices@[o as int].pin, operation: None },
                        ),
                    )
                    &&& exists|
                        halted: P,
                        a: Result<(), ErrorCode>,
                        trail: Seq<P>,
                        answers: Seq<Result<(), ErrorCode>>,
                    | #[trigger] final(self).released(old(self), o, halted, a, trail, answers)
                },
            },
    {
        match self.inflight {
            None => {
                self.dispatch();
            },
            Some(o) => {
                let waiting = self.devices[o].operation;
                match waiting {
                    None => {},
                    Some(Operation::Simple { frequency_hz, duty_cycle }) => {
                        self.devices[o].operation = None;
                        let a = self.pwm.start(&self.devices[o].pin, frequency_hz, duty_cycle);
                        assert(self.pwm.started(
                            &old(self).pwm,
                            old(self).devices@[o as int].pin,
                            frequency_hz,
                            duty_cycle,
                            a,
                        ));
                    },
                    Some(Operation::Stop) => {
                        self.devices[o].operation = None;
                        let a = self.pwm.stop(&self.devices[o].pin);
                        let ghost halted = self.pwm;
                        self.inflight = None;
                        let ghost ready = *self;
                        self.dispatch();
                        proof {
                            let (trail, answers) = choose|
                                trail: Seq<P>,
                                answers: Seq<Result<(), ErrorCode>>,
                            | #[trigger] self.scanned(ready.devices@, ready.pwm, trail, answers);
                            assert(ready.devices@ =~= Self::without(old(self), o));
                            assert(self.released(old(self), o, halted, a, trail, answers));
                        }
                    },
                }
            },
        }
    }

    /// The generator of this arbiter is what the generator of `before`
    /// became when it was asked to drive the pin of `user` as `operation`
    /// says, and answered `r`.
    pub open spec fn asked(
        &self,
        before: &MuxPwm<P>,
        user: usize,
        operation: Operation,
        r: Result<(), ErrorCode>,
    ) -> bool {
        match operation {
            Operation::Simple { frequency_hz, duty_cycle } => self.pwm.started(
                &before.pwm,
                before.devices@[user as int].pin,
                frequency_hz,
                duty_cycle,
                r,
            ),
            Operation::Stop => false,
        }
    }

    /// The arbiter after user `user` made the request `operation` on
    /// `before` and was answered with `r`.
    ///
    /// A user whose slot is occupied is refused with `BUSY`, and nothing has
    /// changed. While another user owns the generator the request waits in
    /// the user's slot, and the hardware is not touched. On a free generator
    /// a request to drive the pin makes the user the owner if the hardware
    /// accepts it, and leaves the generator free if not; a stop has nothing
    /// to stop. The owner's request to drive leaves it the owner; its stop
    /// frees the generator, which is offered to those who wait.
    pub open spec fn requested(
        &self,
        before: &MuxPwm<P>,
        user: usize,
        operation: Operation,
        r: Result<(), ErrorCode>,
    ) -> bool {
        &&& self.settled()
        &&& self.same_users(before)
        &&& if before.pending(user as int) is Some {
            r == Err::<(), ErrorCode>(ErrorCode::BUSY) && *self == *before
        } else {
            match before.inflight {
                None => if operation == Operation::Stop {
                    r is Ok && *self == *before
                } else {
                    self.devices == before.devices && self.inflight == (if r is Ok {
                        Some(user)
                    } else {
                        None
                    }) && self.asked(before, user, operation, r)
                },
                Some(o) => if o == user {
                    if operation == Operation::Stop {
                        r is Ok && self.inflight != Some(user) && self.dispatched(before.devices@)
                            && exists|
                            halted: P,
                            a: Result<(), ErrorCode>,
                            trail: Seq<P>,
                            answers: Seq<Result<(), ErrorCode>>,
                        | #[trigger] self.released(before, user, halted, a, trail, answers)
                    } else {
                        self.inflight == Some(user) && self.devices == before.devices
                            && self.asked(before, user, operation, r)
                    }
                } else {
                    &&& r is Ok
                    &&& self.pwm == before.pwm
                    &&& self.inflight == before.inflight
                    &&& self.pending(user as int) == Some(operation)
                    &&& forall|j: int|
                        0 <= j < self.devices@.len() && j != user ==> self.devices@[j]
                            == before.devices@[j]
                },
            }
        }
    }

    /// A request of user `user` to drive its pin.
    ///
    /// A user whose slot is occupied is refused with `BUSY` and its waiting
    /// request stays as it was. On a free generator the request goes to the
    /// hardware at once: accepted, it makes the user the owner; refused, the
    /// hardware's reason is returned and the generator stays free. The
    /// owner's request goes to the hardware at once too, as new parameters.
    /// Anyone else's request waits in the user's slot, and the hardware is
    /// not touched.
    pub fn start(&mut self, user: usize, frequency_hz: usize, duty_cycle: usize) -> (r: Result<
        (),
        ErrorCode,
    >)
        requires
            old(self).settled(),
            user < old(self).devices@.len(),
        ensures
            final(self).requested(
                old(self),
                user,
                Operation::Simple { frequency_hz, duty_cycle },
                r,
            ),
    {
        if self.devices[user].operation.is_some() {
            return Err(ErrorCode::BUSY);
        }
        match self.inflight {
            None => {
                let answer = self.pwm.start(&self.devices[user].pin, frequency_hz, duty_cycle);
                self.start_answered(user, answer);
                answer
            },
            Some(o) => {
                if o == user {
                    self.pwm.start(&self.devices[user].pin, frequency_hz, duty_cycle)
                } else {
                    self.devices[user].operation = Some(
                        Operation::Simple { frequency_hz, duty_cycle },
                    );
                    Ok(())
                }
            },
        }
    }

    /// A request of user `user` to stop driving its pin.
    ///
    /// A user whose slot is occupied is refused with `BUSY`. The owner's
    /// stop goes to the hardware at once and frees the generator, which is
    /// then given to the next waiting user. A stop while the generator is
    /// free has nothing to stop. Anyone else's stop waits in the user's
    /// slot, and the hardware is not touched.
    pub fn stop(&mut self, user: usize) -> (r: Result<(), ErrorCode>)
        requires
            old(self).settled(),
            user < old(self).devices@.len(),
        ensures
            final(self).requested(old(self), user, Operation::Stop, r),
    {
        if self.devices[user].operation.is_some() {
            return Err(ErrorCode::BUSY);
        }
        match self.inflight {
            None => Ok(()),
            Some(o) => {
                if o == user {
                    let a = self.pwm.stop(&self.devices[user].pin);
                    let ghost halted = self.pwm;
                    self.inflight = None;
                    let ghost ready = *self;
                    self.dispatch();
                    proof {
                        let (trail, answers) = choose|
                            trail: Seq<P>,
                            answers: Seq<Result<(), ErrorCode>>,
                        | #[trigger] self.scanned(ready.devices@, ready.pwm, trail, answers);
                        assert(ready.devices@ =~= Self::without(old(self), user));
                        assert(self.released(old(self), user, halted, a, trail, answers));
                    }
                    Ok(())
                } else {
                    self.devices[user].operation = Some(Operation::Stop);
                    Ok(())
                }
            },
        }
    }

    /// The highest frequency the generator supports.
    pub fn get_maximum_frequency_hz(&self) -> (r: usize)
        ensures
            r == self.pwm.maximum_frequency_hz(),
    {
        self.pwm.get_maximum_frequency_hz()
    }

    /// The value of the duty cycle that stands for always on.
    pub fn get_maximum_duty_cycle(&self) -> (r: usize)
        ensures
            r == self.pwm.maximum_duty_cycle(),
    {
        self.pwm.get_maximum_duty_cycle()
    }
}

/// While one user owns the generator, the request of any other user does
/// not reach the hardware: the generator is as it was, and so is its
/// owner.
pub proof fn lemma_one_in_flight<P: Pwm>(
    before: MuxPwm<P>,
    after: MuxPwm<P>,
    user: usize,
    operation: Operation,
    r: Result<(), ErrorCode>,
)
    requires
        before.settled(),
        user < before.devices@.len(),
        after.requested(&before, user, operation, r),
        before.inflight is Some,
        before.inflight != Some(user),
    ensures
        after.pwm == before.pwm,
        after.inflight == before.inflight,
{
}

/// A second request of a user whose request waits is refused with `BUSY`,
/// and the waiting request is as it was.
pub proof fn lemma_no_overwrite<P: Pwm>(
    before: MuxPwm<P>,
    after: MuxPwm<P>,
    user: usize,
    operation: Operation,
    r: Result<(), ErrorCode>,
)
    requires
        before.settled(),
        user < before.devices@.len(),
        after.requested(&before, user, operation, r),
        before.pending(user as int) is Some,
    ensures
        r == Err::<(), ErrorCode>(ErrorCode::BUSY),
        after.pending(user as int) == before.pending(user as int),
        after == before,
{
}

/// Up to the first slot with a request to drive a pin that the scan
/// reached, the scan has not touched the generator.
pub proof fn lemma_untouched_before<P: Pwm>(
    trail: Seq<P>,
    answers: Seq<Result<(), ErrorCode>>,
    devices: Seq<PwmPinUser<P>>,
    owner: Option<usize>,
    k: int,
)
    requires
        0 <= k <= devices.len(),
        trail.len() == devices.len() + 1,
        forall|j: int| 0 <= j < k ==> #[trigger] MuxPwm::<P>::step(
            trail,
            answers,
            devices,
            owner,
            j,
        ),
        forall|j: int|
            0 <= j < k ==> !((#[trigger] devices[j]).operation matches Some(
                Operation::Simple { .. },
            )),
    ensures
        trail[k] == trail[0],
    decreases k,
{
    if k > 0 {
        lemma_untouched_before(trail, answers, devices, owner, k - 1);
        assert(MuxPwm::<P>::step(trail, answers, devices, owner, k - 1));
        assert(!(devices[k - 1].operation matches Some(Operation::Simple { .. })));
    }
}

/// Behind the slot of the owner the scan has not touched the generator.
pub proof fn lemma_untouched_behind<P: Pwm>(
    trail: Seq<P>,
    answers: Seq<Result<(), ErrorCode>>,
    devices: Seq<PwmPinUser<P>>,
    owner: usize,
    k: int,
)
    requires
        owner < k <= devices.len(),
        trail.len() == devices.len() + 1,
        forall|j: int|
            0 <= j < devices.len() ==> #[trigger] MuxPwm::<P>::step(
                trail,
                answers,
                devices,
                Some(owner),
                j,
            ),
    ensures
        trail[k] == trail[owner + 1],
    decreases k,
{
    if k > owner + 1 {
        lemma_untouched_behind(trail, answers, devices, owner, k - 1);
        assert(MuxPwm::<P>::step(trail, answers, devices, Some(owner), k - 1));
    }
}

/// The generator of `before` was told to stop the pin of `user`, which it
/// answered with `a` and which made it `halted`; then it was asked to
/// drive the pin of `next` with the given frequency and duty cycle, which
/// it answered with `answer` and which made it `driven`. If it accepted,
/// `next` owns the generator of `after`, which is `driven`.
pub open spec fn handed_over<P: Pwm>(
    before: MuxPwm<P>,
    after: MuxPwm<P>,
    user: usize,
    next: usize,
    frequency_hz: usize,
    duty_cycle: usize,
    halted: P,
    a: Result<(), ErrorCode>,
    driven: P,
    answer: Result<(), ErrorCode>,
) -> bool {
    &&& halted.stopped(&before.pwm, before.devices@[user as int].pin, a)
    &&& driven.started(&halted, before.devices@[next as int].pin, frequency_hz, duty_cycle, answer)
    &&& (answer is Ok <==> after.inflight == Some(next))
    &&& (answer is Ok ==> after.pwm == driven)
}

/// When the owner stops and the first request to drive a pin that waits
/// is that of `next`, the generator is told to stop the owner's pin and is
/// then asked to drive the pin of `next` as that request says. If it
/// accepts, `next` owns the generator, and nothing more was asked of it.
pub proof fn lemma_stop_starts_next<P: Pwm>(
    before: MuxPwm<P>,
    after: MuxPwm<P>,
    user: usize,
    next: usize,
    frequency_hz: usize,
    duty_cycle: usize,
    r: Result<(), ErrorCode>,
)
    requires
        before.settled(),
        user < before.devices@.len(),
        next < before.devices@.len(),
        before.inflight == Some(user),
        after.requested(&before, user, Operation::Stop, r),
        before.pending(next as int) == Some(Operation::Simple { frequency_hz, duty_cycle }),
        forall|j: int|
            0 <= j < next ==> !((#[trigger] before.devices@[j]).operation matches Some(
                Operation::Simple { .. },
            )),
    ensures
        exists|halted: P, a: Result<(), ErrorCode>, driven: P, answer: Result<(), ErrorCode>|
            #[trigger] handed_over(
                before,
                after,
                user,
                next,
                frequency_hz,
                duty_cycle,
                halted,
                a,
                driven,
                answer,
            ),
{
    let (halted, a, trail, answers) = choose|
        halted: P,
        a: Result<(), ErrorCode>,
        trail: Seq<P>,
        answers: Seq<Result<(), ErrorCode>>,
    | #[trigger] after.released(&before, user, halted, a, trail, answers);
    let devices = MuxPwm::<P>::without(&before, user);
    assert(user != next);
    assert(devices[next as int] == before.devices@[next as int]);
    assert forall|j: int| 0 <= j < next implies !((#[trigger] devices[j]).operation matches Some(
        Operation::Simple { .. },
    )) by {
        if j != user {
            assert(devices[j] == before.devices@[j]);
        }
    }
    // An owner in front of `next` would have had a request to drive its pin.
    if after.inflight is Some && after.inflight->Some_0 < next {
        let o = after.inflight->Some_0;
        assert(after.dispatched(before.devices@));
        assert(before.devices@[o as int].operation matches Some(Operation::Simple { .. }));
        assert(false);
    }
    lemma_untouched_before(trail, answers, devices, after.inflight, next as int);
    assert(MuxPwm::<P>::step(trail, answers, devices, after.inflight, next as int));
    let driven = trail[next + 1];
    let answer = answers[next as int];
    if answer is Ok {
        lemma_untouched_behind(trail, answers, devices, next, devices.len() as int);
    }
    assert(handed_over(
        before,
        after,
        user,
        next,
        frequency_hz,
        duty_cycle,
        halted,
        a,
        driven,
        answer,
    ));
}

/// Between two requests the generator is never free while a request
/// waits: whoever waits, waits for an owner.
pub proof fn lemma_waiting_means_owned<P: Pwm>(mux: MuxPwm<P>, user: int)
    requires
        mux.settled(),
        0 <= user < mux.devices@.len(),
        mux.pending(user) is Some,
    ensures
        mux.inflight is Some,
        mux.inflight matches Some(o) && o != user,
{
}

} // verus!
