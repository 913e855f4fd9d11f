//! A game: guess the secret number between 1 and 100.

use rand::Rng;
use vstd::prelude::*;
use vstd::slice::slice_subrange;

use crate::text::to_chars;
use crate::text::trim;
use crate::text::trim_bounds;

verus! {

/// Whether a character is one of the ten digits.
pub open spec fn is_digit(c: char) -> bool {
    '0' <= c <= '9'
}

/// The number that a digit stands for.
pub open spec fn digit_value(c: char) -> int {
    c as int - '0' as int
}

/// The number that a run of digits spells, read in base ten.
pub open spec fn number(digits: Seq<char>) -> int
    decreases digits.len(),
{
    if digits.len() == 0 {
        0
    } else {
        10 * number(digits.drop_last()) + digit_value(digits.last())
    }
}

/// The digits of a numeral: all of it but a sign in front.
pub open spec fn digits_of(numeral: Seq<char>) -> Seq<char> {
    if numeral.len() > 0 && (numeral[0] == '-' || numeral[0] == '+') {
        numeral.drop_first()
    } else {
        numeral
    }
}

/// Whether every character of a text is a digit.
pub open spec fn all_digits(digits: Seq<char>) -> bool {
    forall|i: int| 0 <= i < digits.len() ==> is_digit(#[trigger] digits[i])
}

/// Whether a text is a numeral: a `+` or `-` or neither, and then one digit
/// or more, with nothing else before, between or after.
pub open spec fn is_numeral(numeral: Seq<char>) -> bool {
    digits_of(numeral).len() > 0 && all_digits(digits_of(numeral))
}

/// The number that a numeral spells.
pub open spec fn numeral_value(numeral: Seq<char>) -> int {
    if numeral.len() > 0 && numeral[0] == '-' {
        -number(digits_of(numeral))
    } else {
        number(digits_of(numeral))
    }
}

/// What a text spells as an `i32`: the value of a numeral that fits the
/// type, and nothing for any other text.
pub open spec fn parsed_i32(numeral: Seq<char>) -> Option<i32> {
    if is_numeral(numeral) && i32::MIN <= numeral_value(numeral) <= i32::MAX {
        Some(numeral_value(numeral) as i32)
    } else {
        None
    }
}

/// Digits spell a number that is not negative, and more digits after them
/// never spell a smaller one.
pub proof fn lemma_number_grows(digits: Seq<char>, k: int)
    requires
        0 <= k <= digits.len(),
        all_digits(digits),
    ensures
        0 <= number(digits.take(k)) <= number(digits),
    decreases digits.len() - k,
{
    if k == digits.len() {
        assert(digits.take(k) =~= digits);
        lemma_number_not_negative(digits);
    } else {
        lemma_number_grows(digits.drop_last(), k);
        assert(digits.drop_last().take(k) =~= digits.take(k));
    }
}

/// Digits spell a number that is not negative.
pub proof fn lemma_number_not_negative(digits: Seq<char>)
    requires
        all_digits(digits),
    ensures
        0 <= number(digits),
    decreases digits.len(),
{
    if digits.len() > 0 {
        lemma_number_not_negative(digits.drop_last());
    }
}

/// Reads a numeral as an `i32`.
pub fn parse_i32(numeral: &[char]) -> (parsed: Option<i32>)
    ensures
        parsed == parsed_i32(numeral@),
{
    let n = numeral.len();
    if n == 0 {
        return None;
    }
    let negative = numeral[0] == '-';
    let start: usize = if numeral[0] == '-' || numeral[0] == '+' { 1 } else { 0 };
    if start == n {
        return None;
    }
    let ghost digits = digits_of(numeral@);
    let mut magnitude: i64 = 0;
    let mut i: usize = start;
    while i < n
        invariant
            start <= i <= n,
            n == numeral@.len(),
            digits == numeral@.skip(start as int),
            digits == digits_of(numeral@),
            forall|j: int| 0 <= j < i - start ==> is_digit(digits[j]),
            magnitude == number(digits.take(i - start)),
            0 <= magnitude <= 0x8000_0000,
        decreases n - i,
    {
        let c = numeral[i];
        if c < '0' || c > '9' {
            assert(!is_digit(digits[i - start]));
            return None;
        }
        let d: i64 = (c as u32 - '0' as u32) as i64;
        let ghost before = digits.take(i - start);
        let ghost after = digits.take(i - start + 1);
        assert(after.drop_last() =~= before);
        magnitude = magnitude * 10 + d;
        i += 1;
        if magnitude > 0x8000_0000 {
            proof {
                if all_digits(digits) {
                    lemma_number_grows(digits, i - start);
                }
            }
            return None;
        }
    }
    assert(digits.take(i - start) =~= digits);
    if negative {
        Some((-magnitude) as i32)
    } else if magnitude <= 0x7fff_ffff {
        Some(magnitude as i32)
    } else {
        None
    }
}

/// Reads what a player typed as a guess: the line's whitespace at both ends
/// is left out, and the rest must be a numeral that fits an `i32`.
pub fn parse_guess(line: &str) -> (guess: Option<i32>)
    ensures
        guess == parsed_i32(trim(line@)),
{
    let chars = to_chars(line);
    let (start, end) = trim_bounds(chars.as_slice());
    parse_i32(slice_subrange(chars.as_slice(), start, end))
}

/// A guess at the secret number.
pub struct Guess {
    value: i32,
}

impl View for Guess {
    type V = i32;

    closed spec fn view(&self) -> i32 {
        self.value
    }
}

impl Guess {
    /// A guess of `value`.
    pub fn new(value: i32) -> (guess: Guess)
        ensures
            guess@ == value,
    {
        Guess { value }
    }

    /// The number guessed.
    pub fn value(&self) -> (value: i32)
        ensures
            value == self@,
    {
        self.value
    }
}

/// Calls `rand::rng()` for this thread's generator and `Rng::random_range`
/// on it with the range from `low` to `high`, both included. The range must
/// not be empty, or the call panics. Whatever the generator yields, the
/// result lies in the range.
#[verifier::external_body]
fn random_between(low: i32, high: i32) -> (drawn: i32)
    requires
        low <= high,
    ensures
        low <= drawn <= high,
{
    rand::rng().random_range(low..=high)
}

/// Draws the secret number of a new game: some number from 1 to 100.
pub fn initiatize_game() -> (secret_number: i32)
    ensures
        1 <= secret_number <= 100,
{
    return random_between(1, 100);
}

/// What the game answers to a line that a player typed.
#[derive(Clone, Copy, Debug, PartialEq, Eq, Structural)]
pub enum Answer {
    /// The line was no number: it does not count, and the player is asked
    /// again.
    Ignored,
    /// The guess was below the secret number.
    TooSmall,
    /// The guess was above the secret number.
    TooBig,
    /// The guess was right, after this many guesses in all. The game is over.
    Win(u32),
}

/// A game in progress: the secret number and the guesses made so far.
pub struct Game {
    pub secret_number: i32,
    pub guesses: u32,
}

impl Game {
    /// A game about `secret_number` in which no guess was made yet.
    pub fn new(secret_number: i32) -> (game: Game)
        ensures
            game.secret_number == secret_number,
            game.guesses == 0,
    {
        Game { secret_number, guesses: 0 }
    }

    /// Judges a guess: counts it, and compares it with the secret number.
    pub fn judge(&mut self, guess: &Guess) -> (answer: Answer)
        requires
            old(self).guesses < u32::MAX,
        ensures
            final(self).secret_number == old(self).secret_number,
            final(self).guesses == old(self).guesses + 1,
            answer == if guess@ < old(self).secret_number {
                Answer::TooSmall
            } else if guess@ > old(self).secret_number {
                Answer::TooBig
            } else {
                Answer::Win((old(self).guesses + 1) as u32)
            },
    {
        self.guesses += 1;
        if guess.value() < self.secret_number {
            Answer::TooSmall
        } else if guess.value() > self.secret_number {
            Answer::TooBig
        } else {
            Answer::Win(self.guesses)
        }
    }

    /// Takes one line from the player. A line that is no number changes
    /// nothing; any other is judged as a guess.
    pub fn turn(&mut self, line: &str) -> (answer: Answer)
        requires
            old(self).guesses < u32::MAX,
        ensures
            final(self).secret_number == old(self).secret_number,
            match parsed_i32(trim(line@)) {
                None => answer == Answer::Ignored && final(self).guesses == old(self).guesses,
                Some(value) => {
                    &&& final(self).guesses == old(self).guesses + 1
                    &&& answer == if value < old(self).secret_number {
                        Answer::TooSmall
                    } else if value > old(self).secret_number {
                        Answer::TooBig
                    } else {
                        Answer::Win((old(self).guesses + 1) as u32)
                    }
                },
            },
    {
        let guess = match parse_guess(line) {
            Some(guess) => Guess::new(guess),
            None => {
                return Answer::Ignored;
            },
        };
        self.judge(&guess)
    }
}

} // verus!
