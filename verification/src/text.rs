//! Texts as sequences of characters: whitespace, trimming and words.

use vstd::prelude::*;
use vstd::std_specs::iter::IteratorSpec;
use vstd::utf8::*;

verus! {

/// Whether `char::is_whitespace` holds of a character: whether it has the
/// Unicode property White_Space.
pub uninterp spec fn whitespace(c: char) -> bool;

/// Calls `char::is_whitespace`. The result depends on the character alone;
/// the contract gives it its name and says nothing of which characters
/// these are.
#[verifier::external_body]
pub(crate) fn is_whitespace(c: char) -> (white: bool)
    ensures
        white == whitespace(c),
{
    c.is_whitespace()
}

/// `String::push` appends one character.
pub assume_specification[ String::push ](s: &mut String, ch: char)
    ensures
        final(s)@ == old(s)@.push(ch),
;

/// A text without the whitespace it starts with.
pub open spec fn trim_start(s: Seq<char>) -> Seq<char>
    decreases s.len(),
{
    if s.len() > 0 && whitespace(s[0]) {
        trim_start(s.drop_first())
    } else {
        s
    }
}

/// A text without the whitespace it ends with.
pub open spec fn trim_end(s: Seq<char>) -> Seq<char>
    decreases s.len(),
{
    if s.len() > 0 && whitespace(s.last()) {
        trim_end(s.drop_last())
    } else {
        s
    }
}

/// A text without the whitespace at either end.
pub open spec fn trim(s: Seq<char>) -> Seq<char> {
    trim_end(trim_start(s))
}

/// If the first `k` characters are whitespace, trimming the start begins
/// with dropping them.
pub proof fn lemma_trim_start_skips(s: Seq<char>, k: int)
    requires
        0 <= k <= s.len(),
        forall|i: int| 0 <= i < k ==> whitespace(s[i]),
    ensures
        trim_start(s) == trim_start(s.skip(k)),
    decreases k,
{
    if k == 0 {
        assert(s.skip(0) =~= s);
    } else {
        let rest = s.drop_first();
        assert forall|i: int| 0 <= i < k - 1 implies whitespace(rest[i]) by {
        }
        lemma_trim_start_skips(rest, k - 1);
        assert(rest.skip(k - 1) =~= s.skip(k));
    }
}

/// If the last characters, from position `k` on, are whitespace, trimming the
/// end begins with dropping them.
pub proof fn lemma_trim_end_takes(s: Seq<char>, k: int)
    requires
        0 <= k <= s.len(),
        forall|i: int| k <= i < s.len() ==> whitespace(s[i]),
    ensures
        trim_end(s) == trim_end(s.take(k)),
    decreases s.len() - k,
{
    if k == s.len() {
        assert(s.take(k) =~= s);
    } else {
        let rest = s.drop_last();
        lemma_trim_end_takes(rest, k);
        assert(rest.take(k) =~= s.take(k));
    }
}

/// The characters of a text, one by one.
pub fn to_chars(text: &str) -> (chars: Vec<char>)
    ensures
        chars@ == text@,
{
    let mut chars: Vec<char> = Vec::new();
    let mut it = text.chars();
    loop
        invariant
            it.obeys_prophetic_iter_laws(),
            it.decrease() is Some,
            chars@.len() <= text@.len(),
            it.remaining() == text@.skip(chars@.len() as int),
            chars@ == text@.take(chars@.len() as int),
        decreases it.decrease()->0,
    {
        match it.next() {
            None => {
                return chars;
            },
            Some(c) => {
                chars.push(c);
            },
        }
    }
}

/// Where a text starts and ends once the whitespace at either end is left
/// out: the start lies behind the whitespace in front, and the end lies as
/// far behind the start as the trimmed text is long.
pub fn trim_bounds(chars: &[char]) -> (bounds: (usize, usize))
    ensures
        bounds.0 <= bounds.1 <= chars@.len(),
        bounds.0 == chars@.len() - trim_start(chars@).len(),
        chars@.subrange(bounds.0 as int, bounds.1 as int) == trim(chars@),
{
    let mut start: usize = 0;
    while start < chars.len() && is_whitespace(chars[start])
        invariant
            start <= chars@.len(),
            forall|i: int| 0 <= i < start ==> whitespace(chars@[i]),
        decreases chars@.len() - start,
    {
        start += 1;
    }
    let mut end: usize = chars.len();
    while start < end && is_whitespace(chars[end - 1])
        invariant
            start <= end <= chars@.len(),
            forall|i: int| end <= i < chars@.len() ==> whitespace(chars@[i]),
        decreases end - start,
    {
        end -= 1;
    }
    proof {
        let s = chars@;
        let from_start = s.skip(start as int);
        lemma_trim_start_skips(s, start as int);
        lemma_trim_end_takes(from_start, end - start);
    }
    (start, end)
}

/// How many characters of a text stand before the first one that `stops`
/// holds of; the length of the text if it holds of none.
pub open spec fn run_len(s: Seq<char>, stops: spec_fn(char) -> bool) -> nat
    decreases s.len(),
{
    if s.len() == 0 || stops(s[0]) {
        0
    } else {
        1 + run_len(s.drop_first(), stops)
    }
}

/// A run ends within its text, `stops` holds of none of its characters, and
/// it is followed by a character that `stops` holds of or by nothing.
pub proof fn lemma_run_len(s: Seq<char>, stops: spec_fn(char) -> bool)
    ensures
        run_len(s, stops) <= s.len(),
        forall|i: int| 0 <= i < run_len(s, stops) ==> !stops(s[i]),
        run_len(s, stops) < s.len() ==> stops(s[run_len(s, stops) as int]),
    decreases s.len(),
{
    if s.len() == 0 || stops(s[0]) {
    } else {
        let rest = s.drop_first();
        lemma_run_len(rest, stops);
        assert forall|i: int| 0 <= i < run_len(s, stops) implies !stops(s[i]) by {
            if i > 0 {
                assert(s[i] == rest[i - 1]);
            }
        }
        assert(run_len(s, stops) < s.len() ==> s[run_len(s, stops) as int] == rest[run_len(
            rest,
            stops,
        ) as int]);
    }
}

/// The first `k` characters are the run if `stops` holds of none of them and
/// holds of what follows them, or nothing follows.
pub proof fn lemma_run_len_is(s: Seq<char>, stops: spec_fn(char) -> bool, k: int)
    requires
        0 <= k <= s.len(),
        forall|i: int| 0 <= i < k ==> !stops(s[i]),
        k < s.len() ==> stops(s[k]),
    ensures
        run_len(s, stops) == k,
{
    lemma_run_len(s, stops);
}

/// How many characters stand before the first whitespace of a text: the
/// length of the word it starts with.
pub open spec fn word_len(s: Seq<char>) -> nat {
    run_len(s, |c: char| whitespace(c))
}

/// The words of a text: its runs of characters that are no whitespace, from
/// left to right.
pub open spec fn words(s: Seq<char>) -> Seq<Seq<char>>
    decreases s.len(),
{
    if s.len() == 0 {
        Seq::empty()
    } else if whitespace(s[0]) {
        words(s.drop_first())
    } else {
        proof {
            lemma_run_len(s, |c: char| whitespace(c));
        }
        seq![s.take(word_len(s) as int)] + words(s.skip(word_len(s) as int))
    }
}

/// The texts that a sequence of strings holds.
pub open spec fn texts(strings: Seq<String>) -> Seq<Seq<char>> {
    strings.map_values(|text: String| text@)
}

/// Splits a text into its words.
pub fn split_whitespace(text: &str) -> (found: Vec<String>)
    ensures
        texts(found@) == words(text@),
{
    let chars = to_chars(text);
    let mut found: Vec<String> = Vec::new();
    let mut i: usize = 0;
    assert(chars@.skip(0) =~= chars@);
    while i < chars.len()
        invariant
            i <= chars@.len(),
            words(chars@) == texts(found@) + words(chars@.skip(i as int)),
        decreases chars@.len() - i,
    {
        let ghost rest = chars@.skip(i as int);
        if is_whitespace(chars[i]) {
            i += 1;
            assert(rest.drop_first() =~= chars@.skip(i as int));
        } else {
            let ghost start = i;
            let mut word = String::new();
            while i < chars.len() && !is_whitespace(chars[i])
                invariant
                    start <= i <= chars@.len(),
                    word@ == chars@.subrange(start as int, i as int),
                    forall|j: int| start <= j < i ==> !whitespace(chars@[j]),
                decreases chars@.len() - i,
            {
                word.push(chars[i]);
                i += 1;
            }
            proof {
                lemma_run_len_is(rest, |c: char| whitespace(c), i - start);
                assert(rest.take(i - start) =~= word@);
                assert(rest.skip(i - start) =~= chars@.skip(i as int));
            }
            found.push(word);
        }
    }
    found
}

/// Two texts with the same bytes are the same text.
pub proof fn lemma_same_bytes_same_text(a: Seq<char>, b: Seq<char>)
    requires
        encode_utf8(a) == encode_utf8(b),
    ensures
        a == b,
{
    encode_utf8_decode_utf8(a);
    encode_utf8_decode_utf8(b);
}

/// The bytes of two texts put together are the bytes of the first and then
/// those of the second, and a character starts where the second begins.
pub proof fn lemma_bytes_of_concat(a: Seq<char>, b: Seq<char>)
    ensures
        encode_utf8(a + b) == encode_utf8(a) + encode_utf8(b),
        is_char_boundary(encode_utf8(a + b), encode_utf8(a).len() as int),
    decreases a.len(),
{
    let whole = a + b;
    let bytes = encode_utf8(whole);
    encode_utf8_valid_utf8(whole);
    if a.len() > 0 {
        let rest = a.drop_first();
        lemma_bytes_of_concat(rest, b);
        assert(whole.drop_first() =~= rest + b);
        encode_utf8_first_scalar(whole);
        assert(pop_first_scalar(bytes) =~= encode_utf8(rest + b));
    }
}

/// A text has no more words than characters.
pub proof fn lemma_words_len(s: Seq<char>)
    ensures
        words(s).len() <= s.len(),
    decreases s.len(),
{
    if s.len() == 0 {
    } else if whitespace(s[0]) {
        lemma_words_len(s.drop_first());
    } else {
        lemma_run_len(s, |c: char| whitespace(c));
        lemma_words_len(s.skip(word_len(s) as int));
    }
}

} // verus!
