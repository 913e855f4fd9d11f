//! Errors: values that may be missing, and what to do when a file is.

use vstd::prelude::*;
use vstd::std_specs::iter::IteratorSpec;

use crate::text::lemma_run_len;
use crate::text::run_len;

verus! {

/// How many characters stand before the first line feed of a text; its
/// length if it has none.
pub open spec fn line_len(text: Seq<char>) -> nat {
    run_len(text, |c: char| c == '\n')
}

/// The first line of a text. An empty text has no line. A line ends before
/// the first line feed, and before the carriage return in front of it if
/// there is one; a last line that no line feed ends keeps whatever it holds.
pub open spec fn first_line(text: Seq<char>) -> Option<Seq<char>> {
    let n = line_len(text) as int;
    if text.len() == 0 {
        None
    } else if 0 < n < text.len() && text[n - 1] == '\r' {
        Some(text.take(n - 1))
    } else {
        Some(text.take(n))
    }
}

/// The last character of a text, if it has any.
pub open spec fn last_char(text: Seq<char>) -> Option<char> {
    if text.len() == 0 {
        None
    } else {
        Some(text.last())
    }
}

/// The last character of the first line of a text. There is none if the text
/// is empty or its first line is.
pub fn last_char_of_first_line(text: &str) -> (last: Option<char>)
    ensures
        last == match first_line(text@) {
            Some(line) => last_char(line),
            None => None,
        },
{
    let mut it = text.chars();
    let mut last: Option<char> = None;
    let mut before_last: Option<char> = None;
    let ghost mut seen: int = 0;
    proof {
        lemma_run_len(text@, |c: char| c == '\n');
    }
    loop
        invariant
            it.obeys_prophetic_iter_laws(),
            it.decrease() is Some,
            0 <= seen <= line_len(text@) <= text@.len(),
            it.remaining() == text@.skip(seen),
            forall|i: int| 0 <= i < line_len(text@) ==> text@[i] != '\n',
            line_len(text@) < text@.len() ==> text@[line_len(text@) as int] == '\n',
            last == last_char(text@.take(seen)),
            seen > 0 ==> before_last == last_char(text@.take(seen - 1)),
        decreases it.decrease()->0,
    {
        match it.next() {
            None => {
                return last;
            },
            Some(c) => {
                if c == '\n' {
                    if last == Some('\r') {
                        return before_last;
                    }
                    return last;
                }
                proof {
                    seen = seen + 1;
                }
                before_last = last;
                last = Some(c);
            },
        }
    }
}

/// What to do when a file could not be opened.
#[derive(Clone, Copy, Debug, PartialEq, Eq, Structural)]
pub enum Recovery {
    /// The file is not there: create it.
    Create,
    /// Anything else went wrong: give up.
    GiveUp,
}

/// Decides what to do about a file that could not be opened, from whether
/// the reason was that no such file was found.
pub fn recovery(not_found: bool) -> (decided: Recovery)
    ensures
        decided == if not_found {
            Recovery::Create
        } else {
            Recovery::GiveUp
        },
{
    if not_found {
        Recovery::Create
    } else {
        Recovery::GiveUp
    }
}

} // verus!
