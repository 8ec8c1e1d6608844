//! Collapsing a drain outcome to the bare string carried over the call
//! interface: empty while incomplete, the sentinel `"#escape"` for a
//! cancelled gesture, and the captured characters themselves otherwise.

use vstd::prelude::*;
use crate::capture::Outcome;

verus! {

/// Relies on alloc's `String::push`: appends the given character to the end
/// of the string.
pub assume_specification[ String::push ](s: &mut String, ch: char)
    ensures
        final(s)@ == old(s)@.push(ch),
;

/// The string a drain outcome puts on the wire: `Incomplete` is the empty
/// string, `Escaped` is the literal sentinel `"#escape"`, and a finished
/// `Sequence` is its characters, in order.
pub fn outcome_text(o: &Outcome) -> (s: String)
    ensures
        o is Incomplete ==> s@ == Seq::<char>::empty(),
        o is Escaped ==> s@ == "#escape"@,
        o matches Outcome::Sequence(keys) ==> s@ == keys@,
{
    match o {
        Outcome::Incomplete => String::new(),
        Outcome::Escaped => "#escape".to_owned(),
        Outcome::Sequence(keys) => {
            let mut s = String::new();
            let mut i: usize = 0;
            while i < keys.len()
                invariant
                    0 <= i <= keys@.len(),
                    s@ == keys@.subrange(0, i as int),
                decreases keys@.len() - i,
            {
                s.push(keys[i]);
                i = i + 1;
            }
            proof {
                assert(s@ =~= keys@);
            }
            s
        },
    }
}

} // verus!
