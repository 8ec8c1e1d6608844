//! The shared capture state machine: a time-boxed window that accumulates
//! repeated key taps and is finalized lazily, by polling.

use vstd::prelude::*;

verus! {

/// Outcome of draining the capture window.
pub enum Outcome {
    /// No finished capture is available yet; the window, if any, is untouched.
    Incomplete,
    /// The gesture was cancelled: the buffer held two different characters, or
    /// a finalized buffer contained the escape control character.
    Escaped,
    /// The finished capture: the appended characters, in order.
    Sequence(Vec<char>),
}

/// Reported when a request to arm a window is rejected; the prior state is
/// left untouched and the caller may retry with corrected arguments.
#[derive(Debug, PartialEq, Eq)]
pub enum ValidationError {
    /// The requested duration lies outside [500, 10000] milliseconds.
    DurationOutOfRange,
    /// The requested tap count lies outside [1, 255].
    TargetCountOutOfRange,
}

/// The escape control character; its presence in a finalized buffer cancels
/// the gesture.
pub open spec fn escape_char() -> char {
    '\u{1b}'
}

/// Every character of `keys` equals the first one. Holds vacuously of an
/// empty or single-character buffer.
pub open spec fn all_same(keys: Seq<char>) -> bool {
    forall|i: int| 0 <= i < keys.len() ==> #[trigger] keys[i] == keys[0]
}

/// Some character of `keys` is the escape control character.
pub open spec fn has_escape(keys: Seq<char>) -> bool {
    exists|i: int| 0 <= i < keys.len() && keys[i] == escape_char()
}

/// The shared record of an idle or in-progress capture window. All times are
/// milliseconds read from one monotonic clock owned by the embedder and
/// passed in as `now` on every operation.
pub struct Action {
    /// Characters appended so far, in insertion order.
    pub keys: Vec<char>,
    /// Required tap count for an exact completion.
    pub keys_len: u8,
    /// Arming time of the current window; `None` while idle.
    pub begin: Option<u64>,
    /// Time of the most recent append; `None` until the first append of the
    /// current window.
    pub last_key_time: Option<u64>,
    /// Maximum lifetime of the window, in milliseconds.
    pub interval: u64,
}

impl Action {
    /// A window is armed: taps are being accumulated.
    pub open spec fn armed(self) -> bool {
        self.begin is Some
    }

    /// Structural invariant: an armed window carries parameters inside their
    /// validated ranges, and an idle record holds no characters.
    pub open spec fn wf(self) -> bool {
        &&& (self.armed() ==> 500 <= self.interval <= 10000 && 1 <= self.keys_len)
        &&& (!self.armed() ==> self.keys@.len() == 0)
    }

    /// Every recorded time lies at or before `now`: what a monotonic clock
    /// guarantees of a reading taken after the ones already stored.
    pub open spec fn times_le(self, now: u64) -> bool {
        &&& (self.begin is Some ==> self.begin.unwrap() <= now)
        &&& (self.last_key_time is Some ==> self.last_key_time.unwrap() <= now)
    }

    /// The armed window's full lifetime has elapsed at `now`.
    pub open spec fn expired(self, now: u64) -> bool
        recommends
            self.armed(),
    {
        now - self.begin.unwrap() > self.interval
    }

    /// The completion test of the drain step: the armed window may be
    /// finalized at `now`. It asks for an unexpired window holding at least
    /// one tap, either exactly the target count of them, or fewer with at
    /// least 400 ms of inactivity since the last tap.
    pub open spec fn ready(self, now: u64) -> bool
        recommends
            self.armed(),
    {
        &&& !self.expired(now)
        &&& self.keys@.len() > 0
        &&& self.last_key_time is Some
        &&& self.keys@.len() <= self.keys_len as int
        &&& (self.keys@.len() == self.keys_len as int || now - self.last_key_time.unwrap()
            >= 400)
    }

    /// `self` is `pre` with its window cleared: disarmed, buffer emptied, and
    /// every other field untouched.
    pub open spec fn cleared_from(self, pre: Action) -> bool {
        &&& !self.armed()
        &&& self.keys@.len() == 0
        &&& self.keys_len == pre.keys_len
        &&& self.last_key_time == pre.last_key_time
        &&& self.interval == pre.interval
    }

    /// The idle record a process starts with: nothing armed, nothing captured.
    pub fn new() -> (a: Action)
        ensures
            a.keys@.len() == 0,
            a.keys_len == 0,
            a.begin is None,
            a.last_key_time is None,
            a.interval == 0,
            a.wf(),
    {
        Action {
            keys: Vec::new(),
            keys_len: 0,
            begin: None,
            last_key_time: None,
            interval: 0,
        }
    }

    /// Arms a new capture window at time `now`, discarding any previous one:
    /// the newest arming always wins, there is no busy state. A duration or
    /// target count outside its range is rejected and leaves the record,
    /// armed or not, exactly as it was.
    pub fn init_action(&mut self, dur: i32, keys_len: i32, now: u64) -> (r: Result<
        (),
        ValidationError,
    >)
        ensures
            old(self).wf() ==> final(self).wf(),
            (dur < 500 || dur > 10000) ==> (
                r == Result::<(), ValidationError>::Err(ValidationError::DurationOutOfRange)
                && *final(self) == *old(self)
            ),
            (500 <= dur <= 10000 && (keys_len < 1 || keys_len > 255)) ==> (
                r == Result::<(), ValidationError>::Err(ValidationError::TargetCountOutOfRange)
                && *final(self) == *old(self)
            ),
            (500 <= dur <= 10000 && 1 <= keys_len <= 255) ==> (
                r == Result::<(), ValidationError>::Ok(())
                && final(self).keys@.len() == 0
                && final(self).keys_len == keys_len as u8
                && final(self).begin == Some(now)
                && final(self).last_key_time is None
                && final(self).interval == dur as u64
                && final(self).times_le(now)
            ),
    {
        if dur < 500 || dur > 10000 {
            return Err(ValidationError::DurationOutOfRange);
        }
        if keys_len < 1 || keys_len > 255 {
            return Err(ValidationError::TargetCountOutOfRange);
        }
        self.keys.clear();
        self.keys_len = keys_len as u8;
        self.begin = Some(now);
        self.last_key_time = None;
        self.interval = dur as u64;
        Ok(())
    }

    /// Records the characters of one key event at time `now`. With no window
    /// armed, or with the armed window past its full lifetime, the event is
    /// silently dropped; clearing an expired window is left to the next
    /// drain. Otherwise the characters go to the end of the buffer, in
    /// order, and `now` becomes the time of the last tap.
    pub fn append(&mut self, chars: &Vec<char>, now: u64)
        requires
            old(self).times_le(now),
            old(self).keys@.len() + chars@.len() <= usize::MAX,
        ensures
            old(self).wf() ==> final(self).wf(),
            final(self).times_le(now),
            !old(self).armed() ==> *final(self) == *old(self),
            old(self).armed() && old(self).expired(now) ==> *final(self) == *old(self),
            old(self).armed() && !old(self).expired(now) ==> (
                final(self).keys@ == old(self).keys@ + chars@
                && final(self).last_key_time == Some(now)
                && final(self).begin == old(self).begin
                && final(self).keys_len == old(self).keys_len
                && final(self).interval == old(self).interval
            ),
    {
        let b = match self.begin {
            Some(b) => b,
            None => {
                return;
            },
        };
        if now - b > self.interval {
            return;
        }
        let mut i: usize = 0;
        while i < chars.len()
            invariant
                0 <= i <= chars.len(),
                old(self).keys@.len() + chars@.len() <= usize::MAX,
                self.keys@ == old(self).keys@ + chars@.subrange(0, i as int),
                self.keys_len == old(self).keys_len,
                self.begin == old(self).begin,
                self.last_key_time == old(self).last_key_time,
                self.interval == old(self).interval,
            decreases chars.len() - i,
        {
            self.keys.push(chars[i]);
            i = i + 1;
        }
        proof {
            assert(chars@.subrange(0, chars@.len() as int) =~= chars@);
        }
        self.last_key_time = Some(now);
    }

    /// Drains the capture window at time `now`: the poll a consumer repeats
    /// until a window finishes. An idle record answers `Incomplete`. A buffer
    /// holding two different characters cancels the gesture on the spot:
    /// `Escaped`, window cleared. A window that is not yet ready — expired,
    /// empty, over the target count, or still actively receiving taps — is
    /// left exactly as it was, for a later poll. A ready window is finalized:
    /// cleared, and its characters returned as `Sequence`, unless one of them
    /// is the escape control character, which turns the finished capture into
    /// `Escaped` instead.
    pub fn get_key_seq(&mut self, now: u64) -> (r: Outcome)
        requires
            old(self).times_le(now),
        ensures
            old(self).wf() ==> final(self).wf(),
            final(self).times_le(now),
            !old(self).armed() ==> (r is Incomplete && *final(self) == *old(self)),
            old(self).armed() && !all_same(old(self).keys@) ==> (
                r is Escaped && final(self).cleared_from(*old(self))
            ),
            old(self).armed() && all_same(old(self).keys@) && !old(self).ready(now) ==> (
                r is Incomplete && *final(self) == *old(self)
            ),
            old(self).armed() && all_same(old(self).keys@) && old(self).ready(now) && has_escape(
                old(self).keys@) ==> (r is Escaped && final(self).cleared_from(*old(self))),
            old(self).armed() && all_same(old(self).keys@) && old(self).ready(now) && !has_escape(
                old(self).keys@) ==> (
                r matches Outcome::Sequence(keys)
                && keys@ == old(self).keys@
                && final(self).cleared_from(*old(self))
            ),
    {
        let b = match self.begin {
            Some(b) => b,
            None => {
                return Outcome::Incomplete;
            },
        };
        let n = self.keys.len();
        if n > 0 {
            let first = self.keys[0];
            let mut i: usize = 1;
            while i < n
                invariant
                    1 <= i <= n,
                    *self == *old(self),
                    old(self).armed(),
                    old(self).times_le(now),
                    n == self.keys@.len(),
                    first == self.keys@[0],
                    forall|j: int| 0 <= j < i ==> #[trigger] self.keys@[j] == self.keys@[0],
                decreases n - i,
            {
                if self.keys[i] != first {
                    proof {
                        assert(old(self).keys@[i as int] != old(self).keys@[0]);
                        assert(!all_same(old(self).keys@));
                    }
                    self.begin = None;
                    self.keys.clear();
                    return Outcome::Escaped;
                }
                i = i + 1;
            }
        }
        let target = self.keys_len as usize;
        let still_active = n < target && (match self.last_key_time {
            Some(t) => now - t < 400,
            None => false,
        });
        if now - b > self.interval || n == 0 || self.last_key_time.is_none() || n > target
            || still_active {
            return Outcome::Incomplete;
        }
        self.begin = None;
        let mut taken: Vec<char> = Vec::new();
        let mut i: usize = 0;
        while i < n
            invariant
                0 <= i <= n,
                n == self.keys@.len(),
                self.keys@ == old(self).keys@,
                self.begin is None,
                self.keys_len == old(self).keys_len,
                self.last_key_time == old(self).last_key_time,
                self.interval == old(self).interval,
                taken@ == self.keys@.subrange(0, i as int),
            decreases n - i,
        {
            taken.push(self.keys[i]);
            i = i + 1;
        }
        proof {
            assert(taken@ =~= old(self).keys@);
        }
        self.keys.clear();
        let mut j: usize = 0;
        while j < taken.len()
            invariant
                0 <= j <= taken@.len(),
                taken@ == old(self).keys@,
                old(self).armed(),
                all_same(old(self).keys@),
                old(self).ready(now),
                old(self).times_le(now),
                self.begin is None,
                self.keys@.len() == 0,
                self.keys_len == old(self).keys_len,
                self.last_key_time == old(self).last_key_time,
                self.interval == old(self).interval,
                forall|k: int| 0 <= k < j ==> #[trigger] taken@[k] != escape_char(),
            decreases taken@.len() - j,
        {
            if taken[j] == '\u{1b}' {
                proof {
                    assert(old(self).keys@[j as int] == escape_char());
                    assert(has_escape(old(self).keys@));
                }
                return Outcome::Escaped;
            }
            j = j + 1;
        }
        proof {
            assert(!has_escape(old(self).keys@)) by {
                assert(forall|k: int| 0 <= k < old(self).keys@.len()
                    ==> #[trigger] old(self).keys@[k] != escape_char());
            };
        }
        Outcome::Sequence(taken)
    }
}

} // verus!
