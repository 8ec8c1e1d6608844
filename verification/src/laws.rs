//! Laws of the capture state machine, stated and proved over the same spec
//! functions that the operations' contracts use. Each law names the drain
//! hypotheses it settles, so that together with the `ensures` of
//! `Action::get_key_seq` it pins the outcome of a whole scenario.

use vstd::prelude::*;
use crate::capture::{Action, all_same, escape_char, has_escape};

verus! {

/// Arming a window and draining it before any tap arrives yields
/// `Incomplete`, at every polling time and for every valid duration and
/// target count: a freshly armed record (empty buffer, no last tap) is never
/// ready, so `get_key_seq` answers `Incomplete` and leaves it untouched.
pub proof fn lemma_begin_then_drain_incomplete(s: Action, later: u64)
    requires
        s.armed(),
        s.keys@.len() == 0,
    ensures
        all_same(s.keys@),
        !s.ready(later),
{
}

/// A buffer holding exactly the target count of one repeated, non-escape
/// character is ready whenever the window has not expired, and passes both
/// the consistency scan and the escape scan: `get_key_seq` finalizes it as
/// `Sequence` of exactly those characters.
pub proof fn lemma_exact_count_yields_sequence(s: Action, c: char, now: u64)
    requires
        s.armed(),
        !s.expired(now),
        s.last_key_time is Some,
        s.keys@.len() == s.keys_len as int,
        s.keys_len >= 1,
        forall|i: int| 0 <= i < s.keys@.len() ==> #[trigger] s.keys@[i] == c,
        c != escape_char(),
    ensures
        all_same(s.keys@),
        !has_escape(s.keys@),
        s.ready(now),
{
}

/// Two different characters anywhere in the buffer fail the consistency
/// scan: `get_key_seq` answers `Escaped` and clears the window, and the
/// cleared record, being disarmed, answers `Incomplete` to every later poll
/// until a fresh arming.
pub proof fn lemma_divergent_keys_escape(s: Action, i: int, j: int, post: Action)
    requires
        s.armed(),
        0 <= i < s.keys@.len(),
        0 <= j < s.keys@.len(),
        s.keys@[i] != s.keys@[j],
        post.cleared_from(s),
    ensures
        !all_same(s.keys@),
        !post.armed(),
{
}

/// Fewer taps than the target, all one non-escape character, with at least
/// 400 ms of inactivity since the last tap: the unexpired window is ready —
/// the early finalize — and `get_key_seq` returns `Sequence` of exactly the
/// appended characters.
pub proof fn lemma_inactivity_finalizes_early(s: Action, c: char, t: u64, now: u64)
    requires
        s.armed(),
        !s.expired(now),
        s.last_key_time == Some(t),
        t <= now,
        now - t >= 400,
        0 < s.keys@.len() < s.keys_len as int,
        forall|i: int| 0 <= i < s.keys@.len() ==> #[trigger] s.keys@[i] == c,
        c != escape_char(),
    ensures
        all_same(s.keys@),
        !has_escape(s.keys@),
        s.ready(now),
{
}

/// A poll within 400 ms of the last tap, while fewer taps than the target
/// have arrived, finds the window not ready: `get_key_seq` answers
/// `Incomplete` and leaves the buffer intact for further taps.
pub proof fn lemma_active_window_not_ready(s: Action, t: u64, now: u64)
    requires
        s.armed(),
        s.last_key_time == Some(t),
        t <= now,
        now - t < 400,
        s.keys@.len() < s.keys_len as int,
    ensures
        !s.ready(now),
{
}

/// A buffer consisting solely of the escape control character passes the
/// consistency scan but fails the escape scan: when it is ready, the
/// finished capture is `Escaped`, never `Sequence`, even when the tap count
/// matches the target exactly.
pub proof fn lemma_escape_only_buffer_escapes(s: Action)
    requires
        s.keys@.len() > 0,
        forall|i: int| 0 <= i < s.keys@.len() ==> #[trigger] s.keys@[i] == escape_char(),
    ensures
        all_same(s.keys@),
        has_escape(s.keys@),
{
    assert(s.keys@[0] == escape_char());
}

} // verus!
