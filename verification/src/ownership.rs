//! Ownership: scopes, moves, clones and copies.

use vstd::prelude::*;
use vstd::utf8::*;

verus! {

/// Makes a text and moves it out to the caller.
pub fn gives_ownership() -> (some_string: String)
    ensures
        some_string@ == "yours"@,
{
    let some_string = String::from_str("yours");
    some_string
}

/// Takes a text and moves the same text back out.
pub fn takes_and_gives_back(a_string: String) -> (back: String)
    ensures
        back == a_string,
{
    a_string
}

/// Measures a text in bytes and hands the text back with its length, since
/// taking it by value would otherwise be the end of it.
pub fn calculate_length(s: String) -> (out: (String, usize))
    ensures
        out.0 == s,
        out.1 == encode_utf8(s@).len(),
{
    let length = s.as_str().as_bytes().len();
    (s, length)
}

/// Does nothing: borrowing has a module of its own.
pub fn references() {
}

/// What the walk through ownership finds.
pub struct Ownership {
    /// A literal that is valid for one scope only.
    pub scoped: String,
    /// A text on the heap, as it starts out.
    pub started: String,
    /// The same text after more was pushed onto it.
    pub grown: String,
    /// A text after it moved from one binding to another.
    pub moved: String,
    /// A binding after a new text replaced the one it had.
    pub replaced: String,
    /// A text and its deep copy.
    pub cloned: (String, String),
    /// A number and its copy.
    pub copied: (i32, i32),
    /// A text that is about to move into a function for good.
    pub taken: String,
    /// A number that a function got a copy of; the binding is still good.
    pub kept: i32,
    /// A text that a function gave.
    pub given: String,
    /// A text that a function took and gave back.
    pub returned: String,
    /// A text that came back from being measured, and its length.
    pub measured: (String, usize),
}

/// Follows values through scopes, moves, clones, copies and calls.
pub fn ownership() -> (found: Ownership)
    ensures
        found.scoped@ == "hello"@,
        found.started@ == "hello"@,
        found.grown@ == "hello, world!"@,
        found.moved@ == "hello"@,
        found.replaced@ == "ahoy"@,
        found.cloned.0@ == "hello"@,
        found.cloned.1@ == "hello"@,
        found.copied == (5i32, 5i32),
        found.taken@ == "hello"@,
        found.kept == 5,
        found.given@ == "yours"@,
        found.returned@ == "hello"@,
        found.measured.0@ == "hello"@,
        found.measured.1 == 5,
{
    proof {
        reveal_strlit("hello");
        reveal_strlit(", world!");
        reveal_strlit("hello, world!");
        is_ascii_chars_encode_utf8("hello"@);
    }
    let scoped = {
        let s = "hello";
        String::from_str(s)
    };

    let mut s = String::from_str("hello");
    let started = s.clone();
    s.append(", world!");
    let grown = s;

    let s1 = String::from_str("hello");
    let s2 = s1;
    let moved = s2;

    let mut s = String::from_str("hello");
    s = String::from_str("ahoy");
    let replaced = s;

    let s1 = String::from_str("hello");
    let s2 = s1.clone();
    let cloned = (s1, s2);

    let x: i32 = 5;
    let y: i32 = x;
    let copied = (x, y);

    let s = String::from_str("hello");
    let taken = s;

    let x: i32 = 5;
    let kept = x;

    let s1 = gives_ownership();
    let given = s1;

    let s2 = String::from_str("hello");
    let s3 = takes_and_gives_back(s2);
    let returned = s3;

    let s1 = String::from_str("hello");
    let (s2, len) = calculate_length(s1);
    let measured = (s2, len);

    Ownership {
        scoped,
        started,
        grown,
        moved,
        replaced,
        cloned,
        copied,
        taken,
        kept,
        given,
        returned,
        measured,
    }
}

} // verus!
