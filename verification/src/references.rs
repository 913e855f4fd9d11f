//! Borrowing: shared and mutable references, and slices.

use vstd::prelude::*;
use vstd::utf8::*;

use crate::text::lemma_run_len;
use crate::text::lemma_run_len_is;
use crate::text::lemma_same_bytes_same_text;
use crate::text::run_len;

verus! {

/// The byte that encodes a space.
pub const SPACE: u8 = 0x20;

/// Where the first space stands in `s`, counted in characters; the length of
/// `s` if it has none.
pub open spec fn first_space(s: Seq<char>) -> int {
    run_len(s, |c: char| c == ' ') as int
}

/// The first word of `s`: what stands before its first space, or all of it.
pub open spec fn first_word_of(s: Seq<char>) -> Seq<char> {
    s.take(first_space(s))
}

/// Whether none of the bytes is 0x20.
pub open spec fn has_no_space(bytes: Seq<u8>) -> bool {
    forall|j: int| 0 <= j < bytes.len() ==> bytes[j] != 0x20
}

/// A space is encoded as the one byte 0x20.
proof fn lemma_space_is_one_byte()
    ensures
        encode_scalar(' ' as u32) == seq![0x20u8],
{
    assert(leading_byte_width_1(0x20) == 0x20u8) by (bit_vector);
}

/// No byte in the encoding of any other character is 0x20.
proof fn lemma_other_is_no_space(c: char)
    requires
        c != ' ',
    ensures
        1 <= encode_scalar(c as u32).len() <= 4,
        has_no_space(encode_scalar(c as u32)),
{
    let v = c as u32;
    char_is_scalar(c);
    assert(v != 0x20) by {
        char_u32_cast(c, v);
        char_u32_cast(' ', 0x20u32);
    }
    if has_width_1_encoding(v) {
        assert((v & 0x7F) as u8 != 0x20u8) by (bit_vector)
            requires
                v <= 0x7F,
                v != 0x20,
        ;
    } else {
        assert((0xC0u8 | ((v >> 6) & 0x1F) as u8) != 0x20u8) by (bit_vector);
        assert((0xE0u8 | ((v >> 12) & 0x0F) as u8) != 0x20u8) by (bit_vector);
        assert((0xF0u8 | ((v >> 18) & 0x7) as u8) != 0x20u8) by (bit_vector);
        assert((0x80u8 | (v & 0x3F) as u8) != 0x20u8) by (bit_vector);
        assert((0x80u8 | ((v >> 6) & 0x3F) as u8) != 0x20u8) by (bit_vector);
        assert((0x80u8 | ((v >> 12) & 0x3F) as u8) != 0x20u8) by (bit_vector);
    }
}

/// Among the bytes of a text, the first 0x20 stands where the first word
/// ends: the bytes before it are the first word's, none of them is 0x20, and
/// if the text has no space there is no such byte.
pub proof fn lemma_first_space_in_bytes(s: Seq<char>)
    ensures
        ({
            let bytes = encode_utf8(s);
            let n = encode_utf8(first_word_of(s)).len() as int;
            &&& n <= bytes.len()
            &&& bytes.subrange(0, n) == encode_utf8(first_word_of(s))
            &&& forall|j: int| 0 <= j < n ==> bytes[j] != 0x20
            &&& n < bytes.len() ==> bytes[n] == 0x20
        }),
    decreases s.len(),
{
    let bytes = encode_utf8(s);
    let word = first_word_of(s);
    let n = encode_utf8(word).len() as int;
    if s.len() == 0 {
    } else if s[0] == ' ' {
        assert(word =~= Seq::<char>::empty());
        assert(bytes.subrange(0, 0) =~= encode_utf8(word));
        lemma_space_is_one_byte();
    } else {
        let rest = s.drop_first();
        let head = encode_scalar(s[0] as u32);
        let rest_word = first_word_of(rest);
        let m = encode_utf8(rest_word).len() as int;
        lemma_run_len(s, |c: char| c == ' ');
        lemma_run_len(rest, |c: char| c == ' ');
        lemma_first_space_in_bytes(rest);
        lemma_other_is_no_space(s[0]);
        assert(word.drop_first() =~= rest_word);
        assert(n == head.len() + m);
        assert(bytes.subrange(0, n) =~= head + encode_utf8(rest).subrange(0, m));
        assert forall|j: int| 0 <= j < n implies bytes[j] != 0x20 by {
            if j >= head.len() {
                assert(bytes[j] == encode_utf8(rest)[j - head.len()]);
            }
        }
    }
}

/// The length of a text in bytes.
pub fn calculate_length(s: &String) -> (length: usize)
    ensures
        length == encode_utf8(s@).len(),
{
    s.as_str().as_bytes().len()
}

/// Appends ", world!" to the text.
pub fn change_string(s: &mut String)
    ensures
        final(s)@ == old(s)@ + ", world!"@,
{
    s.append(", world!");
}

/// Returns a text of its own making. The text is moved out to the caller, so
/// no reference is left pointing at nothing.
pub fn no_dangle() -> (s: String)
    ensures
        s@ == "hello"@,
{
    let s = String::from_str("hello");
    s
}

/// The length in bytes of the first word of the text: the index of its first
/// space, or its whole length if it has none.
pub fn first_word_len(s: &String) -> (length: usize)
    ensures
        length == encode_utf8(first_word_of(s@)).len(),
        is_char_boundary(encode_utf8(s@), length as int),
{
    let bytes = s.as_str().as_bytes();
    let mut i: usize = 0;
    proof {
        lemma_first_space_in_bytes(s@);
    }
    while i < bytes.len()
        invariant
            i <= bytes.len(),
            bytes@ == encode_utf8(s@),
            forall|j: int| 0 <= j < i ==> bytes@[j] != 0x20,
            encode_utf8(first_word_of(s@)).len() <= bytes@.len(),
            forall|j: int| 0 <= j < encode_utf8(first_word_of(s@)).len() ==> bytes@[j] != 0x20,
            encode_utf8(first_word_of(s@)).len() < bytes@.len() ==> bytes@[encode_utf8(
                first_word_of(s@),
            ).len() as int] == 0x20,
        decreases bytes.len() - i,
    {
        if bytes[i] == SPACE {
            proof {
                encode_utf8_valid_utf8(s@);
                is_char_boundary_iff_not_is_continuation_byte(bytes@, i as int);
            }
            return i;
        }
        i += 1;
    }
    proof {
        encode_utf8_valid_utf8(s@);
        is_char_boundary_start_end_of_seq(bytes@);
    }
    s.as_str().len()
}

/// The first word of the text: what stands before its first space, or all of
/// it if it has none.
pub fn first_word(s: &str) -> (word: &str)
    ensures
        word@ == first_word_of(s@),
{
    let bytes = s.as_bytes();
    let mut i: usize = 0;
    proof {
        lemma_first_space_in_bytes(s@);
        lemma_run_len(s@, |c: char| c == ' ');
    }
    while i < bytes.len()
        invariant
            i <= bytes.len(),
            bytes@ == encode_utf8(s@),
            forall|j: int| 0 <= j < i ==> bytes@[j] != 0x20,
            encode_utf8(first_word_of(s@)).len() <= bytes@.len(),
            bytes@.subrange(0, encode_utf8(first_word_of(s@)).len() as int) == encode_utf8(
                first_word_of(s@),
            ),
            forall|j: int| 0 <= j < encode_utf8(first_word_of(s@)).len() ==> bytes@[j] != 0x20,
            encode_utf8(first_word_of(s@)).len() < bytes@.len() ==> bytes@[encode_utf8(
                first_word_of(s@),
            ).len() as int] == 0x20,
        decreases bytes.len() - i,
    {
        if bytes[i] == SPACE {
            proof {
                encode_utf8_valid_utf8(s@);
                is_char_boundary_iff_not_is_continuation_byte(bytes@, i as int);
            }
            let (word, _) = s.split_at(i);
            proof {
                lemma_same_bytes_same_text(word@, first_word_of(s@));
            }
            return word;
        }
        i += 1;
    }
    proof {
        assert(bytes@.subrange(0, bytes@.len() as int) =~= bytes@);
        lemma_same_bytes_same_text(s@, first_word_of(s@));
    }
    s
}

/// What the walk through references finds.
pub struct References {
    /// A text, before anything borrows it.
    pub before: String,
    /// Its length, measured through a shared reference.
    pub length: usize,
    /// The text after a function changed it through a mutable reference.
    pub after: String,
    /// Its length then.
    pub length_after: usize,
    /// What a mutable reference in a scope of its own sees.
    pub scoped: String,
    /// What a mutable reference made after that scope sees.
    pub later: String,
    /// What two shared references see at the same time.
    pub shared: (String, String),
    /// A text that a function made and moved out.
    pub moved_out: String,
}

/// Borrows one text in every way the rules allow: shared, mutably, mutably
/// again once the first borrow has ended, and shared twice at once.
pub fn references() -> (found: References)
    ensures
        found.before@ == "hello"@,
        found.length == 5,
        found.after@ == "hello, world!"@,
        found.length_after == 13,
        found.scoped@ == "hello, world!"@,
        found.later@ == "hello, world!"@,
        found.shared.0@ == "hello, world!"@,
        found.shared.1@ == "hello, world!"@,
        found.moved_out@ == "hello"@,
{
    proof {
        reveal_strlit("hello");
        reveal_strlit(", world!");
        reveal_strlit("hello, world!");
        is_ascii_chars_encode_utf8("hello"@);
        is_ascii_chars_encode_utf8("hello, world!"@);
    }
    let s1 = String::from_str("hello");
    let before = s1.clone();
    let length = calculate_length(&s1);

    let mut s1: String = s1;
    change_string(&mut s1);
    let after = s1.clone();
    let length_after = calculate_length(&s1);

    let scoped = {
        let r1 = &mut s1;
        r1.clone()
    };

    let r2 = &mut s1;
    let later = r2.clone();

    let r1 = &s1;
    let r2 = &s1;
    let shared = (r1.clone(), r2.clone());

    let moved_out = no_dangle();

    References { before, length, after, length_after, scoped, later, shared, moved_out }
}

/// What the walk through slices finds.
pub struct Slices {
    /// The length of the first word of "This is a test string".
    pub first: usize,
    /// The text up to that length.
    pub shown: String,
    /// The text once it is cleared: the length found before says nothing of
    /// it any more.
    pub cleared: String,
    /// The first word of a slice of the whole text.
    pub of_whole: String,
    /// The first word of the text, borrowed as it is.
    pub of_text: String,
    /// The first word of the text's first six bytes.
    pub of_part: String,
    /// The second and third of the numbers one to five.
    pub middle: Vec<i32>,
}

/// Finds the first word of a text, first as a length and then as a slice, and
/// slices an array.
pub fn slices() -> (found: Slices)
    ensures
        found.first == 4,
        found.shown@ == "This"@,
        found.cleared@ == Seq::<char>::empty(),
        found.of_whole@ == "This"@,
        found.of_text@ == "This"@,
        found.of_part@ == "This"@,
        found.middle@ == seq![2i32, 3],
{
    proof {
        reveal_strlit("This is a test string");
        reveal_strlit("This");
        let text = "This is a test string"@;
        lemma_run_len_is(text, |c: char| c == ' ', 4);
        assert(first_word_of(text) =~= "This"@);
        lemma_run_len_is(text.subrange(0, 6), |c: char| c == ' ', 4);
        is_ascii_chars_encode_utf8("This"@);
    }
    let mut input: String = String::from_str("This is a test string");
    let first = first_word_len(&input);

    let (shown, _) = input.as_str().split_at(first);
    let shown = String::from_str(shown);
    proof {
        lemma_first_space_in_bytes("This is a test string"@);
        lemma_same_bytes_same_text(shown@, "This"@);
    }
    input.clear();
    let cleared = input;

    let input: String = String::from_str("This is a test string");

    let of_whole = String::from_str(first_word(input.as_str()));
    let of_text = String::from_str(first_word(&input));
    let of_part = String::from_str(first_word(input.as_str().substring_ascii(0, 6)));

    let a: [i32; 5] = [1, 2, 3, 4, 5];
    let slice = &a[1..3];
    let middle = vstd::slice::slice_to_vec(slice);

    Slices { first, shown, cleared, of_whole, of_text, of_part, middle }
}

/// `String::clear` empties the text.
pub assume_specification[ String::clear ](s: &mut String)
    ensures
        final(s)@ == Seq::<char>::empty(),
;

} // verus!
