//! Random numbers for processes, and adapters between sources of entropy
//! and generators of random numbers.
//!
//! `RngDriver` fills the buffers that processes share with random bytes,
//! for one process after the other as randomness arrives. The adapters
//! repackage what a source of one width delivers for a receiver of
//! another.

use vstd::prelude::*;
use crate::kernel::errorcode::ErrorCode;
use crate::kernel::grant::{Grant, GrantData, ProcessRecord};
use crate::kernel::hil::entropy;
use crate::kernel::hil::entropy::{Available, Entropy32, Entropy8};
use crate::kernel::hil::rng;
use crate::kernel::hil::rng::Rng;
use crate::kernel::process::ProcessId;
use crate::kernel::syscall::CommandReturn;

verus! {

/// The read-write buffer that a process shares to be filled.
pub const RW_ALLOW_BUFFER: usize = 0;

/// The record of a process: how many bytes it still waits for, and where
/// in its buffer the next one goes.
#[derive(Clone, Copy, Debug, PartialEq, Eq, Structural)]
pub struct App {
    pub remaining: usize,
    pub idx: usize,
}

impl GrantData for App {
    open spec fn initial() -> App {
        App { remaining: 0, idx: 0 }
    }

    fn fresh() -> App {
        App { remaining: 0, idx: 0 }
    }
}

/// The byte `k` of a word, the lowest first.
pub open spec fn word_byte(word: u32, k: int) -> u8 {
    if k == 0 {
        (word & 0xff) as u8
    } else if k == 1 {
        ((word >> 8) & 0xff) as u8
    } else if k == 2 {
        ((word >> 16) & 0xff) as u8
    } else {
        ((word >> 24) & 0xff) as u8
    }
}

/// Extracts the byte `k` of a word, the lowest first.
pub fn byte_of(word: u32, k: usize) -> (r: u8)
    requires
        k < 4,
    ensures
        r == word_byte(word, k as int),
{
    if k == 0 {
        (word & 0xff) as u8
    } else if k == 1 {
        ((word >> 8) & 0xff) as u8
    } else if k == 2 {
        ((word >> 16) & 0xff) as u8
    } else {
        ((word >> 24) & 0xff) as u8
    }
}

/// The part of a request that a buffer of `len` bytes can take: nothing
/// if the request starts behind the buffer's end, else as much of it as
/// lies within the buffer.
pub open spec fn within(len: int, idx: int, remaining: int) -> int {
    if len < idx {
        0
    } else if len - idx < remaining {
        len - idx
    } else {
        remaining
    }
}

/// The number of bytes that `words` words can fill of `wanted` bytes.
pub open spec fn fillable(wanted: int, words: int) -> int {
    if 4 * words < wanted {
        4 * words
    } else {
        wanted
    }
}

/// The number of words that `bytes` bytes take.
pub open spec fn words_for(bytes: int) -> int {
    (bytes + 3) / 4
}

/// The bytes of a buffer after `count` bytes from `idx` on were filled
/// from `words`, four bytes from each word, the lowest first.
pub open spec fn filled(bytes: Seq<u8>, idx: int, words: Seq<u32>, count: int) -> Seq<u8> {
    Seq::new(
        bytes.len(),
        |j: int|
            if idx <= j < idx + count {
                word_byte(words[(j - idx) / 4], (j - idx) % 4)
            } else {
                bytes[j]
            },
    )
}

/// The driver of one generator for the processes.
pub struct RngDriver<R: Rng> {
    pub rng: R,
    pub apps: Grant<App>,
    pub getting_randomness: bool,
}

impl<R: Rng> RngDriver<R> {
    /// The records fit the driver: one subscription and one buffer.
    pub open spec fn wf(&self) -> bool {
        self.apps.wf() && self.apps.upcall_count >= 1 && self.apps.rw_count >= 1
    }

    /// Creates the driver of `rng`.
    pub fn new(rng: R, grant: Grant<App>) -> (r: RngDriver<R>)
        ensures
            r.rng == rng,
            r.apps == grant,
            !r.getting_randomness,
    {
        RngDriver { rng, apps: grant, getting_randomness: false }
    }

    /// Fills the buffer of the process in slot `i` with the randomness at
    /// hand, as far as the process waits for bytes, its buffer reaches and
    /// the randomness lasts. A word gives four bytes, the lowest first; of
    /// the last word taken, the bytes that the process does not need are
    /// discarded. The process's account is brought up to date; if the
    /// request lies behind the end of the buffer, it is over.
    pub fn fill(apps: &mut Grant<App>, i: usize, randomness: &mut Available<u32>)
        requires
            old(apps).wf(),
            old(apps).rw_count >= 1,
            old(apps).allocated(i as int),
            old(randomness).wf(),
        ensures
            final(apps).wf(),
            final(randomness).wf(),
            final(randomness).items == old(randomness).items,
            final(apps).same_but(old(apps), i as int),
            ({
                let app = old(apps).data(i as int);
                let was = old(apps).records@[i as int];
                let rec = final(apps).records@[i as int];
                let len = old(apps).rw_size(i as int, RW_ALLOW_BUFFER as int);
                let wanted = within(len, app.idx as int, app.remaining as int);
                let count = fillable(wanted, old(randomness).rest().len() as int);
                &&& rec.same_identity(&was)
                &&& rec.same_pending(&was)
                &&& rec.ro == was.ro
                &&& rec.rw_changed_at(&was, RW_ALLOW_BUFFER as int)
                &&& rec.rw@[RW_ALLOW_BUFFER as int].ptr == was.rw@[RW_ALLOW_BUFFER as int].ptr
                &&& rec.rw@[RW_ALLOW_BUFFER as int].data@ == filled(
                    was.rw@[RW_ALLOW_BUFFER as int].data@,
                    app.idx as int,
                    old(randomness).rest(),
                    count,
                )
                &&& rec.region == Some(
                    if len < app.idx {
                        App { idx: 0, remaining: 0 }
                    } else {
                        App { idx: (app.idx + count) as usize,
                            remaining: (wanted - count) as usize }
                    },
                )
                &&& final(randomness).position == old(randomness).position + words_for(count)
            }),
    {
        let app = apps.get(i);
        let len = apps.rw_len(i, RW_ALLOW_BUFFER);
        if len < app.idx {
            apps.set(i, App { idx: 0, remaining: 0 });
            assert(apps.records@[i as int].rw@[RW_ALLOW_BUFFER as int].data@ =~= filled(
                old(apps).records@[i as int].rw@[RW_ALLOW_BUFFER as int].data@,
                app.idx as int,
                old(randomness).rest(),
                0,
            ));
            return ;
        }
        let wanted = if len - app.idx < app.remaining {
            len - app.idx
        } else {
            app.remaining
        };
        let start = app.idx;
        let ghost words = randomness.rest();
        let ghost bytes0 = apps.records@[i as int].rw@[RW_ALLOW_BUFFER as int].data@;
        let mut done: usize = 0;
        let mut exhausted = false;
        while done < wanted && !exhausted
            invariant
                apps.wf(),
                apps.rw_count >= 1,
                apps.allocated(i as int),
                apps.same_but(old(apps), i as int),
                apps.records@[i as int].same_but_rw(&old(apps).records@[i as int],
                    RW_ALLOW_BUFFER as int),
                apps.records@[i as int].rw@[RW_ALLOW_BUFFER as int].ptr == old(apps).records@[i
                    as int].rw@[RW_ALLOW_BUFFER as int].ptr,
                randomness.wf(),
                randomness.items == old(randomness).items,
                words == old(randomness).rest(),
                bytes0 == old(apps).records@[i as int].rw@[RW_ALLOW_BUFFER as int].data@,
                len == bytes0.len(),
                start + wanted <= len,
                done <= wanted,
                start == app.idx,
                app == old(apps).data(i as int),
                wanted == within(len as int, app.idx as int, app.remaining as int),
                exhausted ==> randomness.rest().len() == 0 && done == 4 * words.len(),
                !exhausted && done < wanted ==> done % 4 == 0,
                randomness.position == old(randomness).position + words_for(done as int),
                words_for(done as int) <= words.len(),
                done <= 4 * words.len(),
                apps.records@[i as int].rw@[RW_ALLOW_BUFFER as int].data@ =~= filled(
                    bytes0,
                    start as int,
                    words,
                    done as int,
                ),
            decreases wanted - done + (if exhausted { 0int } else { 1int }),
        {
            match randomness.next() {
                None => {
                    exhausted = true;
                },
                Some(word) => {
                    let ghost w = (done / 4) as int;
                    assert(words[w] == word) by {
                        assert(randomness.position == old(randomness).position + w + 1);
                    }
                    let mut k: usize = 0;
                    let ghost base = done;
                    while k < 4 && done < wanted
                        invariant
                            apps.wf(),
                            apps.rw_count >= 1,
                            apps.allocated(i as int),
                            apps.same_but(old(apps), i as int),
                            apps.records@[i as int].same_but_rw(
                                &old(apps).records@[i as int],
                                RW_ALLOW_BUFFER as int,
                            ),
                            apps.records@[i as int].rw@[RW_ALLOW_BUFFER as int].ptr
                                == old(apps).records@[i as int].rw@[RW_ALLOW_BUFFER as int].ptr,
                            bytes0 == old(apps).records@[i as int].rw@[RW_ALLOW_BUFFER
                                as int].data@,
                            len == bytes0.len(),
                            start + wanted <= len,
                            done <= wanted,
                            k <= 4,
                            base % 4 == 0,
                            done == base + k,
                            w == base / 4,
                            0 <= w < words.len(),
                            words[w] == word,
                            apps.records@[i as int].rw@[RW_ALLOW_BUFFER as int].data@ =~= filled(
                                bytes0,
                                start as int,
                                words,
                                done as int,
                            ),
                        decreases 4 - k,
                    {
                        apps.rw_set(i, RW_ALLOW_BUFFER, start + done, byte_of(word, k));
                        k += 1;
                        done += 1;
                    }
                },
            }
        }
        apps.set(i, App { idx: start + done, remaining: wanted - done });
    }
}

impl<R: Rng> RngDriver<R> {
    /// The process in slot `i` waits for random bytes.
    pub open spec fn needy(&self, i: int) -> bool {
        self.apps.allocated(i) && self.apps.records@[i].region->Some_0.remaining > 0
    }

    /// The number of bytes that the process in slot `i` gets of `available`
    /// words.
    pub open spec fn gets(&self, i: int, available: int) -> int {
        let app = self.apps.data(i);
        let len = self.apps.rw_size(i, RW_ALLOW_BUFFER as int);
        fillable(within(len, app.idx as int, app.remaining as int), available)
    }

    /// The account of the process in slot `i` after it was served from
    /// `available` words.
    pub open spec fn account_after(&self, i: int, available: int) -> App {
        let app = self.apps.data(i);
        let len = self.apps.rw_size(i, RW_ALLOW_BUFFER as int);
        let wanted = within(len, app.idx as int, app.remaining as int);
        let count = fillable(wanted, available);
        if len < app.idx {
            App { idx: 0, remaining: 0 }
        } else {
            App { idx: (app.idx + count) as usize, remaining: (wanted - count) as usize }
        }
    }

    /// How far a round of serving has come behind the slots below `n`, with
    /// `words` words at its start: the number of words taken, and whether
    /// every process that waited was served completely. The processes are
    /// served in the order of their slots, and the first that cannot be
    /// served completely ends the round.
    pub open spec fn round(&self, words: int, n: int) -> (int, bool)
        decreases n,
    {
        if n <= 0 {
            (0, true)
        } else {
            let (taken, done) = self.round(words, n - 1);
            if !done || !self.needy(n - 1) {
                (taken, done)
            } else {
                (
                    taken + words_for(self.gets(n - 1, words - taken)),
                    self.account_after(n - 1, words - taken).remaining == 0,
                )
            }
        }
    }

    /// This record is that of slot `i` of `before` after a round of serving
    /// from the words `words`. A process that waited, and that the round
    /// reached, has its buffer filled from the words that the processes
    /// before it left, and its account brought up to date; if its request is
    /// complete, it is notified with the number of bytes it got. Every other
    /// record is as it was.
    pub open spec fn served(before: &RngDriver<R>, words: Seq<u32>, i: int, rec: ProcessRecord<
        App,
    >) -> bool {
        let was = before.apps.records@[i];
        let (taken, done) = before.round(words.len() as int, i);
        if done && before.needy(i) {
            let app = before.apps.data(i);
            let available = words.len() - taken;
            let after = before.account_after(i, available);
            &&& rec.same_identity(&was)
            &&& rec.ro == was.ro
            &&& rec.rw_changed_at(&was, RW_ALLOW_BUFFER as int)
            &&& rec.rw@[RW_ALLOW_BUFFER as int].ptr == was.rw@[RW_ALLOW_BUFFER as int].ptr
            &&& rec.rw@[RW_ALLOW_BUFFER as int].data@ == filled(
                was.rw@[RW_ALLOW_BUFFER as int].data@,
                app.idx as int,
                words.skip(taken),
                before.gets(i, available),
            )
            &&& rec.region == Some(after)
            &&& if after.remaining == 0 {
                rec.pending_after(&was, 0, (0, after.idx, 0))
            } else {
                rec.same_pending(&was)
            }
        } else {
            rec == was
        }
    }

    /// The words taken in a round are never fewer than none, and never
    /// more than there are.
    pub proof fn lemma_round_bounds(&self, words: int, n: int)
        requires
            words >= 0,
        ensures
            0 <= self.round(words, n).0 <= words,
        decreases n,
    {
        if n > 0 {
            self.lemma_round_bounds(words, n - 1);
        }
    }

    /// Randomness has arrived from the generator.
    ///
    /// The processes that wait for random bytes are served in the order of
    /// their slots, each from what the ones before it left of the
    /// randomness: see `round` and `served`. The first process that could
    /// not be served completely ends the round: the answer is `More`. If
    /// none is left waiting the answer is `Done` and the driver is no longer
    /// getting randomness. Records of processes that are gone, or that do
    /// not wait, are untouched.
    pub fn randomness_available(&mut self, randomness: &mut Available<u32>, _error: Result<
        (),
        ErrorCode,
    >) -> (r: rng::Continue)
        requires
            old(self).wf(),
            old(randomness).wf(),
        ensures
            final(self).wf(),
            final(randomness).wf(),
            final(randomness).items == old(randomness).items,
            final(self).rng == old(self).rng,
            final(self).apps.slots() == old(self).apps.slots(),
            final(self).apps.upcall_count == old(self).apps.upcall_count,
            final(self).apps.rw_count == old(self).apps.rw_count,
            final(self).apps.ro_count == old(self).apps.ro_count,
            final(self).getting_randomness == (old(self).getting_randomness && r
                == rng::Continue::More),
            ({
                let words = old(randomness).rest();
                let end = old(self).round(words.len() as int, old(self).apps.slots());
                &&& final(randomness).position == old(randomness).position + end.0
                &&& r == (if end.1 {
                    rng::Continue::Done
                } else {
                    rng::Continue::More
                })
                &&& forall|i: int|
                    0 <= i < old(self).apps.slots() ==> Self::served(
                        old(self),
                        words,
                        i,
                        #[trigger] final(self).apps.records@[i],
                    )
            }),
    {
        let mut done = true;
        let n = self.apps.len();
        let mut i: usize = 0;
        let ghost words = randomness.rest();
        while i < n && done
            invariant
                n == old(self).apps.slots(),
                i <= n,
                old(self).wf(),
                self.wf(),
                randomness.wf(),
                randomness.items == old(randomness).items,
                words == old(randomness).rest(),
                self.rng == old(self).rng,
                self.getting_randomness == old(self).getting_randomness,
                self.apps.slots() == old(self).apps.slots(),
                self.apps.upcall_count == old(self).apps.upcall_count,
                self.apps.rw_count == old(self).apps.rw_count,
                self.apps.ro_count == old(self).apps.ro_count,
                randomness.position == old(randomness).position + old(self).round(
                    words.len() as int,
                    i as int,
                ).0,
                done == old(self).round(words.len() as int, i as int).1,
                forall|j: int|
                    i <= j < n ==> (#[trigger] self.apps.records@[j]) == old(self).apps.records@[j],
                forall|j: int|
                    0 <= j < i ==> Self::served(
                        old(self),
                        words,
                        j,
                        #[trigger] self.apps.records@[j],
                    ),
            decreases n - i,
        {
            assert(self.apps.records@[i as int] == old(self).apps.records@[i as int]);
            let ghost taken = old(self).round(words.len() as int, i as int).0;
            proof {
                old(self).lemma_round_bounds(words.len() as int, i as int);
                assert(randomness.rest() =~= words.skip(taken));
            }
            if self.apps.is_allocated(i) {
                let app = self.apps.get(i);
                if app.remaining > 0 {
                    Self::fill(&mut self.apps, i, randomness);
                    let after = self.apps.get(i);
                    if after.remaining > 0 {
                        done = false;
                    } else {
                        let _ = self.apps.schedule_upcall(i, 0, (0, after.idx, 0));
                    }
                }
            }
            i += 1;
        }
        proof {
            if !done {
                Self::lemma_round_ended(old(self), words.len() as int, i as int, n as int);
            }
            assert forall|j: int| 0 <= j < n implies Self::served(
                old(self),
                words,
                j,
                #[trigger] self.apps.records@[j],
            ) by {
                if j >= i && !done {
                    Self::lemma_round_ended(old(self), words.len() as int, i as int, j);
                }
            }
        }
        if done {
            self.getting_randomness = false;
            rng::Continue::Done
        } else {
            rng::Continue::More
        }
    }

    /// A round that has ended behind slot `i` stays as it is behind every
    /// later slot.
    pub proof fn lemma_round_ended(before: &RngDriver<R>, words: int, i: int, n: int)
        requires
            0 <= i <= n,
            !before.round(words, i).1,
        ensures
            before.round(words, n) == before.round(words, i),
        decreases n - i,
    {
        if i < n {
            Self::lemma_round_ended(before, words, i, n - 1);
        }
    }

    /// A command of the process `processid`: 0 asks whether the driver is
    /// there; 1 asks for `data` random bytes in the buffer that the process
    /// shared. The request replaces an earlier one of the process; if the
    /// driver is not getting randomness already, the generator is asked for
    /// it. A process that does not resolve is refused with the error of the
    /// lookup. Every other command is refused with `NOSUPPORT`.
    pub fn command(
        &mut self,
        command_num: usize,
        data: usize,
        _arg2: usize,
        processid: ProcessId,
    ) -> (r: CommandReturn)
        requires
            old(self).wf(),
        ensures
            final(self).wf(),
            command_num == 0 ==> r == CommandReturn::Success && *final(self) == *old(self),
            command_num > 1 ==> r == CommandReturn::Failure(ErrorCode::NOSUPPORT) && *final(self)
                == *old(self),
            command_num == 1 ==> match old(self).apps.lookup(processid) {
                Err(e) => r == CommandReturn::Failure(e.as_errorcode()) && *final(self)
                    == *old(self),
                Ok(()) => {
                    let i = processid.index as int;
                    &&& r == CommandReturn::Success
                    &&& final(self).getting_randomness
                    &&& old(self).getting_randomness ==> final(self).rng == old(self).rng
                    &&& !old(self).getting_randomness ==> exists|a: Result<(), ErrorCode>|
                     #[trigger] final(self).rng.asked(&old(self).rng, true, a)
                    &&& final(self).apps.same_but(&old(self).apps, i)
                    &&& final(self).apps.records@[i] == (ProcessRecord {
                        region: Some(App { remaining: data, idx: 0 }),
                        ..old(self).apps.records@[i]
                    })
                },
            },
    {
        if command_num == 0 {
            CommandReturn::success()
        } else if command_num == 1 {
            match self.apps.enter(processid) {
                Err(e) => CommandReturn::failure(e.into_errorcode()),
                Ok(i) => {
                    self.apps.set(i, App { remaining: data, idx: 0 });
                    if !self.getting_randomness {
                        self.getting_randomness = true;
                        let a = self.rng.get();
                        assert(self.rng.asked(&old(self).rng, true, a));
                    }
                    CommandReturn::success()
                },
            }
        } else {
            CommandReturn::failure(ErrorCode::NOSUPPORT)
        }
    }

    /// Creates the record of `processid` if the process resolves.
    pub fn allocate_grant(&mut self, processid: ProcessId) -> (r: Result<
        (),
        crate::kernel::process::Error,
    >)
        requires
            old(self).wf(),
        ensures
            final(self).wf(),
            r == old(self).apps.lookup(processid),
            final(self).rng == old(self).rng,
            final(self).getting_randomness == old(self).getting_randomness,
    {
        match self.apps.enter(processid) {
            Ok(_) => Ok(()),
            Err(e) => Err(e),
        }
    }
}

/// What the receiver of random numbers asks for, said to a source of
/// entropy.
pub open spec fn as_entropy(c: rng::Continue) -> entropy::Continue {
    match c {
        rng::Continue::More => entropy::Continue::More,
        rng::Continue::Done => entropy::Continue::Done,
    }
}

/// Presents a source of entropy in words as a generator of random words:
/// requests and words pass through unchanged.
pub struct Entropy32ToRandom<E: Entropy32> {
    pub egen: E,
    /// Whether a receiver of the random words is registered.
    pub client: bool,
}

impl<E: Entropy32> Entropy32ToRandom<E> {
    /// Everything but the source is as in `other`.
    pub open spec fn same_but_source(&self, other: &Entropy32ToRandom<E>) -> bool {
        self.client == other.client
    }

    /// Creates the adapter of `egen`, without a receiver.
    pub fn new(egen: E) -> (r: Entropy32ToRandom<E>)
        ensures
            r.egen == egen,
            !r.client,
    {
        Entropy32ToRandom { egen, client: false }
    }

    /// Registers the receiver of the random words.
    pub fn set_client(&mut self)
        ensures
            final(self).client,
            final(self).egen == old(self).egen,
    {
        self.client = true;
    }

    /// Tells whether the entropy that arrived is to be handed to the
    /// receiver: it is if there is one, with the error as it came.
    pub fn entropy_available(
        &self,
        error: Result<(), ErrorCode>,
    ) -> (r: Option<Result<(), ErrorCode>>)
        ensures
            r == (if self.client {
                Some(error)
            } else {
                None
            }),
    {
        if self.client {
            Some(error)
        } else {
            None
        }
    }

    /// What the source is told after the entropy was offered: what the
    /// receiver asked for, or `Done` without a receiver.
    pub fn answer(&self, client: Option<rng::Continue>) -> (r: entropy::Continue)
        ensures
            r == (match client {
                Some(c) if self.client => as_entropy(c),
                _ => entropy::Continue::Done,
            }),
    {
        if !self.client {
            return entropy::Continue::Done;
        }
        match client {
            Some(rng::Continue::More) => entropy::Continue::More,
            Some(rng::Continue::Done) => entropy::Continue::Done,
            None => entropy::Continue::Done,
        }
    }
}

impl<E: Entropy32> Rng for Entropy32ToRandom<E> {
    /// The request goes to the source as it is, and nothing else of the
    /// adapter changes.
    open spec fn asked(&self, before: &Self, start: bool, r: Result<(), ErrorCode>) -> bool {
        self.egen.asked(&before.egen, start, r) && self.same_but_source(before)
    }

    /// Asks the source to start delivering.
    fn get(&mut self) -> (r: Result<(), ErrorCode>) {
        self.egen.get()
    }

    /// Asks the source to stop.
    fn cancel(&mut self) -> (r: Result<(), ErrorCode>) {
        self.egen.cancel()
    }
}

/// The word that four bytes make, the first byte lowest.
pub open spec fn word_of(b0: u8, b1: u8, b2: u8, b3: u8) -> u32 {
    (b0 as u32) | ((b1 as u32) << 8) | ((b2 as u32) << 16) | ((b3 as u32) << 24)
}

/// The word collected so far with one more byte put in at place `count`.
pub open spec fn with_byte(bytes: u32, count: usize, val: u8) -> u32 {
    bytes | ((val as u32) << ((8 * count) as u32))
}

/// Presents a source of entropy in bytes as a source of words: four
/// bytes make a word, the first byte lowest.
pub struct Entropy8To32<E: Entropy8> {
    pub egen: E,
    /// Whether a receiver of the words is registered.
    pub client: bool,
    /// The number of bytes collected for the next word.
    pub count: usize,
    /// The bytes collected for the next word.
    pub bytes: u32,
}

impl<E: Entropy8> Entropy8To32<E> {
    /// Everything but the source is as in `other`.
    pub open spec fn same_but_source(&self, other: &Entropy8To32<E>) -> bool {
        self.client == other.client && self.count == other.count && self.bytes == other.bytes
    }

    /// No more than four bytes are collected.
    pub open spec fn wf(&self) -> bool {
        self.count <= 4
    }

    /// Creates the adapter of `egen`, without a receiver and with nothing
    /// collected.
    pub fn new(egen: E) -> (r: Entropy8To32<E>)
        ensures
            r.wf(),
            r.egen == egen,
            !r.client,
            r.count == 0,
            r.bytes == 0,
    {
        Entropy8To32 { egen, client: false, count: 0, bytes: 0 }
    }

    /// Registers the receiver of the words.
    pub fn set_client(&mut self)
        ensures
            final(self).client,
            final(self).egen == old(self).egen,
            final(self).count == old(self).count,
            final(self).bytes == old(self).bytes,
    {
        self.client = true;
    }

    /// The state of collecting after the bytes `input` were taken in, as
    /// long as the word was not complete: the count and the word.
    pub open spec fn collected(count: usize, bytes: u32, input: Seq<u8>) -> (usize, u32)
        decreases input.len(),
    {
        if count >= 4 || input.len() == 0 {
            (count, bytes)
        } else {
            Self::collected((count + 1) as usize, with_byte(bytes, count, input[0]), input.skip(1))
        }
    }

    /// The number of bytes that collecting takes of `available` bytes when
    /// `count` bytes are collected already.
    pub open spec fn taken(count: usize, available: int) -> int {
        if count >= 4 {
            0
        } else if available < 4 - count {
            available
        } else {
            4 - count
        }
    }

    /// Entropy has arrived from the source.
    ///
    /// Without a receiver the source is told `Done` and nothing is taken.
    /// An error is for the receiver to hear: the answer is to deliver.
    /// Otherwise bytes are taken until four are collected. If the bytes run
    /// out before, the source is told `More`; else the answer is to
    /// deliver, and the receiver can take the word with `next`.
    pub fn entropy_available(
        &mut self,
        entropy: &mut Available<u8>,
        error: Result<(), ErrorCode>,
    ) -> (r: Delivery)
        requires
            old(self).wf(),
            old(entropy).wf(),
        ensures
            final(self).wf(),
            final(entropy).wf(),
            final(entropy).items == old(entropy).items,
            final(self).egen == old(self).egen,
            final(self).client == old(self).client,
            !old(self).client ==> r == Delivery::Answer(entropy::Continue::Done) && *final(self)
                == *old(self) && *final(entropy) == *old(entropy),
            old(self).client && error is Err ==> r == Delivery::Deliver(error) && *final(self)
                == *old(self) && *final(entropy) == *old(entropy),
            old(self).client && error is Ok ==> {
                let state = Self::collected(old(self).count, old(self).bytes, old(entropy).rest());
                &&& final(self).count == state.0
                &&& final(self).bytes == state.1
                &&& final(entropy).position == old(entropy).position + Self::taken(
                    old(self).count,
                    old(entropy).rest().len() as int,
                )
                &&& r == (if state.0 == 4 {
                    Delivery::Deliver(error)
                } else {
                    Delivery::Answer(entropy::Continue::More)
                })
            },
    {
        if !self.client {
            return Delivery::Answer(entropy::Continue::Done);
        }
        if error.is_err() {
            return Delivery::Deliver(error);
        }
        while self.count < 4
            invariant
                self.wf(),
                entropy.wf(),
                entropy.items == old(entropy).items,
                self.egen == old(self).egen,
                self.client == old(self).client,
                old(self).client,
                error is Ok,
                entropy.position >= old(entropy).position,
                Self::collected(self.count, self.bytes, entropy.rest()) == Self::collected(
                    old(self).count,
                    old(self).bytes,
                    old(entropy).rest(),
                ),
                entropy.position + Self::taken(self.count, entropy.rest().len() as int)
                    == old(entropy).position
                        + Self::taken(old(self).count, old(entropy).rest().len() as int),
            decreases 4 - self.count,
        {
            match entropy.next() {
                None => {
                    return Delivery::Answer(entropy::Continue::More);
                },
                Some(val) => {
                    let bits = val as u32;
                    let shift: u32 = (8 * self.count) as u32;
                    let result = self.bytes | (bits << shift);
                    self.bytes = result;
                    self.count = self.count + 1;
                },
            }
        }
        Delivery::Deliver(error)
    }

    /// Hands out the word once four bytes are collected, and starts
    /// counting anew; yields nothing before.
    pub fn next(&mut self) -> (r: Option<u32>)
        ensures
            final(self).egen == old(self).egen,
            final(self).client == old(self).client,
            final(self).bytes == old(self).bytes,
            old(self).count == 4 ==> r == Some(old(self).bytes) && final(self).count == 0,
            old(self).count != 4 ==> r is None && final(self).count == old(self).count,
    {
        if self.count == 4 {
            self.count = 0;
            Some(self.bytes)
        } else {
            None
        }
    }

    /// The receiver has answered a delivery: what was collected is
    /// forgotten, unless the delivery was that of an error, and the
    /// receiver's answer is for the source.
    pub fn delivered(&mut self, error: Result<(), ErrorCode>, rval: entropy::Continue) -> (r:
        entropy::Continue)
        ensures
            r == rval,
            final(self).egen == old(self).egen,
            final(self).client == old(self).client,
            final(self).count == old(self).count,
            final(self).bytes == (if error is Ok {
                0
            } else {
                old(self).bytes
            }),
    {
        if error.is_ok() {
            self.bytes = 0;
        }
        rval
    }
}

impl<E: Entropy8> Entropy32 for Entropy8To32<E> {
    /// The request goes to the source as it is, and nothing else of the
    /// adapter changes.
    open spec fn asked(&self, before: &Self, start: bool, r: Result<(), ErrorCode>) -> bool {
        self.egen.asked(&before.egen, start, r) && self.same_but_source(before)
    }

    /// Asks the source to start delivering.
    fn get(&mut self) -> (r: Result<(), ErrorCode>) {
        self.egen.get()
    }

    /// Asks the source to stop.
    fn cancel(&mut self) -> (r: Result<(), ErrorCode>) {
        self.egen.cancel()
    }
}

/// What an adapter does with entropy that arrived: it answers the source
/// at once, or it has something for its receiver, whose answer decides.
#[derive(Clone, Copy, Debug)]
pub enum Delivery {
    Answer(entropy::Continue),
    Deliver(Result<(), ErrorCode>),
}

/// Presents a source of entropy in words as a source of bytes: a word
/// gives four bytes, the lowest first.
pub struct Entropy32To8<E: Entropy32> {
    pub egen: E,
    /// Whether a receiver of the bytes is registered.
    pub client: bool,
    /// What is left of the word being handed out.
    pub entropy: u32,
    /// The number of bytes handed out of the word.
    pub bytes_consumed: usize,
}

impl<E: Entropy32> Entropy32To8<E> {
    /// Everything but the source is as in `other`.
    pub open spec fn same_but_source(&self, other: &Entropy32To8<E>) -> bool {
        self.client == other.client && self.entropy == other.entropy && self.bytes_consumed
            == other.bytes_consumed
    }

    /// Creates the adapter of `egen`, without a receiver.
    pub fn new(egen: E) -> (r: Entropy32To8<E>)
        ensures
            r.egen == egen,
            !r.client,
            r.entropy == 0,
            r.bytes_consumed == 0,
    {
        Entropy32To8 { egen, client: false, entropy: 0, bytes_consumed: 0 }
    }

    /// Registers the receiver of the bytes.
    pub fn set_client(&mut self)
        ensures
            final(self).client,
            final(self).egen == old(self).egen,
            final(self).entropy == old(self).entropy,
            final(self).bytes_consumed == old(self).bytes_consumed,
    {
        self.client = true;
    }

    /// Entropy has arrived from the source.
    ///
    /// Without a receiver the source is told `Done` and nothing is taken.
    /// An error is for the receiver to hear: the answer is to deliver.
    /// Otherwise one word is taken: without one the source is told `More`;
    /// with one the answer is to deliver, and the receiver can take its four
    /// bytes with `next`.
    pub fn entropy_available(
        &mut self,
        entropy: &mut Available<u32>,
        error: Result<(), ErrorCode>,
    ) -> (r: Delivery)
        requires
            old(entropy).wf(),
        ensures
            final(entropy).wf(),
            final(entropy).items == old(entropy).items,
            final(self).egen == old(self).egen,
            final(self).client == old(self).client,
            !old(self).client ==> r == Delivery::Answer(entropy::Continue::Done) && *final(self)
                == *old(self) && *final(entropy) == *old(entropy),
            old(self).client && error is Err ==> r == Delivery::Deliver(error) && *final(self)
                == *old(self) && *final(entropy) == *old(entropy),
            old(self).client && error is Ok && old(entropy).rest().len() == 0 ==> r
                == Delivery::Answer(entropy::Continue::More) && *final(self) == *old(self)
                && *final(entropy) == *old(entropy),
            old(self).client && error is Ok && old(entropy).rest().len() > 0 ==> {
                &&& r == Delivery::Deliver(error)
                &&& final(self).entropy == old(entropy).rest()[0]
                &&& final(self).bytes_consumed == 0
                &&& final(entropy).position == old(entropy).position + 1
            },
    {
        if !self.client {
            return Delivery::Answer(entropy::Continue::Done);
        }
        if error.is_err() {
            return Delivery::Deliver(error);
        }
        match entropy.next() {
            None => Delivery::Answer(entropy::Continue::More),
            Some(val) => {
                self.entropy = val;
                self.bytes_consumed = 0;
                Delivery::Deliver(error)
            },
        }
    }

    /// Hands out the next byte of the word, the lowest first; yields
    /// nothing once four were handed out.
    pub fn next(&mut self) -> (r: Option<u8>)
        ensures
            final(self).egen == old(self).egen,
            final(self).client == old(self).client,
            old(self).bytes_consumed < 4 ==> {
                &&& r == Some((old(self).entropy & 0xff) as u8)
                &&& final(self).entropy == old(self).entropy >> 8
                &&& final(self).bytes_consumed == old(self).bytes_consumed + 1
            },
            old(self).bytes_consumed >= 4 ==> r is None && *final(self) == *old(self),
    {
        let bytes_consumed = self.bytes_consumed;
        if bytes_consumed < 4 {
            let entropy = self.entropy;
            let byte = (entropy & 0xff) as u8;
            self.entropy = entropy >> 8;
            self.bytes_consumed = bytes_consumed + 1;
            Some(byte)
        } else {
            None
        }
    }
}

impl<E: Entropy32> Entropy8 for Entropy32To8<E> {
    /// The request goes to the source as it is, and nothing else of the
    /// adapter changes.
    open spec fn asked(&self, before: &Self, start: bool, r: Result<(), ErrorCode>) -> bool {
        self.egen.asked(&before.egen, start, r) && self.same_but_source(before)
    }

    /// Asks the source to start delivering.
    fn get(&mut self) -> (r: Result<(), ErrorCode>) {
        self.egen.get()
    }

    /// Asks the source to stop.
    fn cancel(&mut self) -> (r: Result<(), ErrorCode>) {
        self.egen.cancel()
    }
}

/// The multiplier of the pseudo-random sequence.
pub const LCG_MULTIPLIER: u32 = 1_644_525;

/// The increment of the pseudo-random sequence.
pub const LCG_INCREMENT: u32 = 1_013_904_223;

/// The number that follows `seed` in the pseudo-random sequence: the seed
/// times the multiplier plus the increment, in arithmetic modulo two to
/// the power of 32.
pub open spec fn lcg(seed: u32) -> u32 {
    ((seed as int * LCG_MULTIPLIER as int + LCG_INCREMENT as int) % 0x1_0000_0000) as u32
}

/// A pseudo-random sequence that is available at any time, seeded from a
/// generator of random words.
pub struct SynchronousRandom<R: Rng> {
    pub rgen: R,
    pub seed: u32,
}

impl<R: Rng> SynchronousRandom<R> {
    /// Creates the sequence with the seed zero.
    pub fn new(rgen: R) -> (r: SynchronousRandom<R>)
        ensures
            r.rgen == rgen,
            r.seed == 0,
    {
        SynchronousRandom { rgen, seed: 0 }
    }

    /// Asks the generator for a seed: the generator is asked to start
    /// delivering, whatever it answers.
    pub fn initialize(&mut self)
        ensures
            final(self).seed == old(self).seed,
            exists|a: Result<(), ErrorCode>| #[trigger]
                final(self).rgen.asked(&old(self).rgen, true, a),
    {
        let a = self.rgen.get();
        assert(self.rgen.asked(&old(self).rgen, true, a));
    }

    /// Restarts the sequence from `seed`.
    pub fn reseed(&mut self, seed: u32)
        ensures
            final(self).seed == seed,
            final(self).rgen == old(self).rgen,
    {
        self.seed = seed;
    }

    /// The next number of the sequence, which is the seed of the one after
    /// it.
    pub fn random(&mut self) -> (r: u32)
        ensures
            r == lcg(old(self).seed),
            final(self).seed == r,
            final(self).rgen == old(self).rgen,
    {
        let val = self.seed;
        let val = val.wrapping_mul(LCG_MULTIPLIER);
        let val = val.wrapping_add(LCG_INCREMENT);
        assert(val == lcg(self.seed)) by (nonlinear_arith)
            requires
                val as int == ((self.seed as int * LCG_MULTIPLIER as int) % 0x1_0000_0000
                    + LCG_INCREMENT as int) % 0x1_0000_0000,
                LCG_MULTIPLIER == 1_644_525,
                LCG_INCREMENT == 1_013_904_223,
        ;
        self.seed = val;
        val
    }

    /// Randomness has arrived from the generator: the first word becomes
    /// the seed, and the generator is told `Done`; without a word it is
    /// told `More`.
    pub fn randomness_available(&mut self, randomness: &mut Available<u32>, _error: Result<
        (),
        ErrorCode,
    >) -> (r: rng::Continue)
        requires
            old(randomness).wf(),
        ensures
            final(randomness).wf(),
            final(randomness).items == old(randomness).items,
            final(self).rgen == old(self).rgen,
            old(randomness).rest().len() == 0 ==> r == rng::Continue::More && final(self).seed
                == old(self).seed && *final(randomness) == *old(randomness),
            old(randomness).rest().len() > 0 ==> r == rng::Continue::Done && final(self).seed
                == old(randomness).rest()[0] && final(randomness).position
                    == old(randomness).position + 1,
    {
        match randomness.next() {
            None => rng::Continue::More,
            Some(val) => {
                self.seed = val;
                rng::Continue::Done
            },
        }
    }
}

} // verus!
