//! The standard collections: vectors, strings and hash maps.

use vstd::hash_map::StringHashMap;
use vstd::prelude::*;
use vstd::slice::slice_to_vec;
use vstd::utf8::*;

use crate::text::lemma_bytes_of_concat;
use crate::text::lemma_same_bytes_same_text;
use crate::text::lemma_words_len;
use crate::text::split_whitespace;
use crate::text::texts;
use crate::text::to_chars;
use crate::text::words;

verus! {

/// Copies the elements of a vector out one by one.
pub fn elements(v: &Vec<i32>) -> (seen: Vec<i32>)
    ensures
        seen@ == v@,
{
    let mut seen: Vec<i32> = Vec::new();
    for i in iter: v.iter()
        invariant
            iter.seq().len() == v@.len(),
            forall|k: int| 0 <= k < v@.len() ==> *iter.seq()[k] == v@[k],
            seen@ == v@.take(iter.index()),
    {
        seen.push(*i);
    }
    seen
}

/// Adds `amount` to every element of a vector, in place.
pub fn raise_each(v: &mut Vec<i32>, amount: i32)
    requires
        forall|k: int| 0 <= k < old(v)@.len() ==> i32::MIN <= #[trigger] old(v)@[k] + amount <= i32::MAX,
    ensures
        final(v)@.len() == old(v)@.len(),
        forall|k: int| 0 <= k < old(v)@.len() ==> #[trigger] final(v)@[k] == old(v)@[k] + amount,
{
    let mut index: usize = 0;
    while index < v.len()
        invariant
            index <= v@.len(),
            v@.len() == old(v)@.len(),
            forall|k: int| 0 <= k < old(v)@.len() ==> i32::MIN <= #[trigger] old(v)@[k] + amount <= i32::MAX,
            forall|k: int| 0 <= k < index ==> #[trigger] v@[k] == old(v)@[k] + amount,
            forall|k: int| index <= k < v@.len() ==> #[trigger] v@[k] == old(v)@[k],
        decreases v@.len() - index,
    {
        let raised: i32 = v[index] + amount;
        v.set(index, raised);
        index += 1;
    }
}

/// What the walk through vectors finds.
pub struct Vectors {
    /// A vector after five to eight were pushed onto it.
    pub pushed: Vec<i32>,
    /// Its third element, by index.
    pub third: i32,
    /// Its third element, if it has one.
    pub third_if_any: Option<i32>,
    /// A vector written out as a list.
    pub listed: Vec<i32>,
    /// A vector with room set aside and nothing in it.
    pub reserved: Vec<i32>,
    /// The first element of the numbers one to five.
    pub first: i32,
    /// The elements of a vector, as a loop meets them.
    pub walked: Vec<i32>,
    /// The same elements after a loop added fifty to each.
    pub raised: Vec<i32>,
    /// A vector that lives in a scope of its own.
    pub scoped: Vec<i32>,
}

/// Builds vectors, reads them, walks them and changes them in place.
pub fn vectors() -> (found: Vectors)
    ensures
        found.pushed@ == seq![5i32, 6, 7, 8],
        found.third == 7,
        found.third_if_any == Some(7i32),
        found.listed@ == seq![1i32, 2, 3],
        found.reserved@ == Seq::<i32>::empty(),
        found.first == 1,
        found.walked@ == seq![100i32, 32, 57],
        found.raised@ == seq![150i32, 82, 107],
        found.scoped@ == seq![1i32, 2, 3, 4],
{
    let mut v: Vec<i32> = Vec::new();
    v.push(5);
    v.push(6);
    v.push(7);
    v.push(8);

    let third: i32 = v[2];
    let third_if_any: Option<i32> = match v.as_slice().get(2) {
        Some(third) => Some(*third),
        None => None,
    };
    let pushed = v;

    let listed: Vec<i32> = vec![1, 2, 3];

    let reserved: Vec<i32> = Vec::with_capacity(10);

    let v: Vec<i32> = vec![1, 2, 3, 4, 5];
    let first: i32 = v[0];

    let v: Vec<i32> = vec![100, 32, 57];
    let walked = elements(&v);

    let mut v: Vec<i32> = vec![100, 32, 57];
    raise_each(&mut v, 50);
    let raised = elements(&v);

    let scoped = {
        let v: Vec<i32> = vec![1, 2, 3, 4];
        v
    };

    Vectors { pushed, third, third_if_any, listed, reserved, first, walked, raised, scoped }
}

/// Joins three texts with a hyphen between each two.
pub fn hyphenate(first: &str, second: &str, third: &str) -> (joined: String)
    ensures
        joined@ == first@ + "-"@ + second@ + "-"@ + third@,
{
    let mut joined = String::from_str(first);
    joined.append("-");
    joined.append(second);
    joined.append("-");
    joined.append(third);
    joined
}

/// What the walk through strings finds.
pub struct Strings {
    /// A new, empty string.
    pub empty: String,
    /// A string made from a literal that was bound to a name first.
    pub from_binding: String,
    /// A string made from a literal directly.
    pub from_literal: String,
    /// A string made by `from_str`.
    pub from_str: String,
    /// A greeting in each of eleven scripts.
    pub hellos: Vec<String>,
    /// "foo" with "bar" pushed onto it.
    pub appended: String,
    /// The text that was pushed, which is still there to use.
    pub pushed: String,
    /// "lo" with one more character.
    pub with_char: String,
    /// Two strings added up.
    pub added: String,
    /// Three strings added up with hyphens between them.
    pub joined: String,
    /// The same three, joined without giving any of them up.
    pub formatted: String,
    /// A short string.
    pub short: String,
    /// The first four bytes of a greeting in Cyrillic: two letters.
    pub prefix: String,
    /// The characters of "Hola".
    pub chars: Vec<char>,
    /// The bytes of "Hola".
    pub bytes: Vec<u8>,
}

/// Makes strings, appends to them, joins them and takes them apart.
pub fn strings() -> (found: Strings)
    ensures
        found.empty@ == Seq::<char>::empty(),
        found.from_binding@ == "initial contents"@,
        found.from_literal@ == "initial contents"@,
        found.from_str@ == "initial contents"@,
        found.hellos@.len() == 11,
        found.hellos@[0]@ == "السلام عليكم"@,
        found.hellos@[1]@ == "Dobrý den"@,
        found.hellos@[2]@ == "_"@,
        found.hellos@[3]@ == "שלום"@,
        found.hellos@[4]@ == "नमस्ते"@,
        found.hellos@[5]@ == "こんにちは"@,
        found.hellos@[6]@ == "안녕하세요"@,
        found.hellos@[7]@ == "你好"@,
        found.hellos@[8]@ == "Olá"@,
        found.hellos@[9]@ == "Здравствуйте"@,
        found.hellos@[10]@ == "Hola"@,
        found.appended@ == "foobar"@,
        found.pushed@ == "bar"@,
        found.with_char@ == "lol"@,
        found.added@ == "Hello, world!"@,
        found.joined@ == "tic-tac-toe"@,
        found.formatted@ == "tic-tac-toe"@,
        found.short@ == "hi"@,
        found.prefix@ == "Зд"@,
        found.chars@ == seq!['H', 'o', 'l', 'a'],
        found.bytes@ == seq![72u8, 111, 108, 97],
{
    let empty = String::new();

    let data = "initial contents";
    let from_binding = data.to_string();
    let from_literal = "initial contents".to_string();
    let from_str = String::from_str("initial contents");

    let hellos: Vec<String> = vec![
        String::from_str("السلام عليكم"),
        String::from_str("Dobrý den"),
        String::from_str("_"),
        String::from_str("שלום"),
        String::from_str("नमस्ते"),
        String::from_str("こんにちは"),
        String::from_str("안녕하세요"),
        String::from_str("你好"),
        String::from_str("Olá"),
        String::from_str("Здравствуйте"),
        String::from_str("Hola"),
    ];

    let mut s = String::from_str("foo");
    s.append("bar");
    let appended = s;

    let mut s1 = String::from_str("foo");
    let s2 = "bar";
    s1.append(s2);
    let pushed = String::from_str(s2);

    let mut s = String::from_str("lo");
    s.push('l');
    let with_char = s;

    let s1 = String::from_str("Hello, ");
    let s2 = String::from_str("world!");
    let s3 = s1.concat(s2.as_str());
    let added = s3;

    let s1 = String::from_str("tic");
    let s2 = String::from_str("tac");
    let s3 = String::from_str("toe");
    let s = s1.concat("-").concat(s2.as_str()).concat("-").concat(s3.as_str());
    let joined = s;

    let s1 = String::from_str("tic");
    let formatted = hyphenate(s1.as_str(), s2.as_str(), s3.as_str());

    let s1 = String::from_str("hi");
    let short = s1;

    let hello = "Здравствуйте";
    proof {
        reveal_strlit("Здравствуйте");
        reveal_strlit("Зд");
        lemma_two_cyrillic_letters();
    }
    let (prefix, _) = hello.split_at(4);
    let prefix = String::from_str(prefix);
    proof {
        lemma_same_bytes_same_text(prefix@, "Зд"@);
    }

    let hello = String::from_str("Hola");
    let chars = to_chars(hello.as_str());
    let bytes = slice_to_vec("Hola".as_bytes());

    proof {
        reveal_strlit("foo");
        reveal_strlit("bar");
        reveal_strlit("foobar");
        reveal_strlit("lo");
        reveal_strlit("lol");
        reveal_strlit("Hello, ");
        reveal_strlit("world!");
        reveal_strlit("Hello, world!");
        reveal_strlit("tic");
        reveal_strlit("tac");
        reveal_strlit("toe");
        reveal_strlit("-");
        reveal_strlit("tic-tac-toe");
        reveal_strlit("Hola");
        is_ascii_chars_encode_utf8("Hola"@);
    }

    Strings {
        empty,
        from_binding,
        from_literal,
        from_str,
        hellos,
        appended,
        pushed,
        with_char,
        added,
        joined,
        formatted,
        short,
        prefix,
        chars,
        bytes,
    }
}

/// The first four bytes of the Cyrillic greeting are its first two letters.
proof fn lemma_two_cyrillic_letters()
    ensures
        is_char_boundary(encode_utf8("Здравствуйте"@), 4),
        encode_utf8("Здравствуйте"@).subrange(0, 4) == encode_utf8("Зд"@),
{
    reveal_strlit("Здравствуйте");
    reveal_strlit("Зд");
    reveal_strlit("равствуйте");
    let whole = "Здравствуйте"@;
    let two = "Зд"@;
    assert(whole =~= two + "равствуйте"@);
    lemma_bytes_of_concat(two, "равствуйте"@);
    reveal_with_fuel(encode_utf8, 3);
}

/// A table from names to numbers: a hash map, and beside it the names in the
/// order in which they first came, so that the table can be listed.
pub struct Tally {
    names: Vec<String>,
    numbers: StringHashMap<i32>,
}

impl Tally {
    /// The names in the table, in the order in which they first came.
    pub closed spec fn names(&self) -> Seq<Seq<char>> {
        texts(self.names@)
    }

    /// The number that goes with each name.
    pub closed spec fn numbers(&self) -> Map<Seq<char>, i32> {
        self.numbers@
    }

    /// The table is well formed: no name is listed twice, and the names
    /// listed are those that have a number.
    pub closed spec fn wf(&self) -> bool {
        &&& self.names().no_duplicates()
        &&& forall|name: Seq<char>| self.names().contains(name) <==> self.numbers().contains_key(name)
    }

    /// An empty table.
    pub fn new() -> (tally: Tally)
        ensures
            tally.wf(),
            tally.names() == Seq::<Seq<char>>::empty(),
            tally.numbers() == Map::<Seq<char>, i32>::empty(),
    {
        let tally = Tally { names: Vec::new(), numbers: StringHashMap::new() };
        tally
    }

    /// Gives `name` the number `number`, whether or not it had one.
    pub fn insert(&mut self, name: String, number: i32)
        requires
            old(self).wf(),
        ensures
            final(self).wf(),
            final(self).numbers() == old(self).numbers().insert(name@, number),
            final(self).names() == if old(self).numbers().contains_key(name@) {
                old(self).names()
            } else {
                old(self).names().push(name@)
            },
    {
        if !self.numbers.contains_key(name.as_str()) {
            let ghost before = self.names@;
            self.names.push(name.clone());
            assert(texts(self.names@) =~= texts(before).push(name@));
        }
        self.numbers.insert(name, number);
        proof {
            let listed = self.names();
            let then = old(self).names();
            assert forall|other: Seq<char>| listed.contains(other) <==> self.numbers().contains_key(
                other,
            ) by {
                if then.contains(other) {
                    let i = choose|i: int| 0 <= i < then.len() && then[i] == other;
                    assert(listed[i] == other);
                }
                if other == name@ && !old(self).numbers().contains_key(name@) {
                    assert(listed[then.len() as int] == other);
                }
            }
            assert forall|i: int, j: int|
                0 <= i < listed.len() && 0 <= j < listed.len() && i != j implies listed[i]
                != listed[j] by {
                if i < then.len() {
                    assert(then.contains(then[i]));
                }
                if j < then.len() {
                    assert(then.contains(then[j]));
                }
            }
        }
    }

    /// The number that goes with `name`, if it has one.
    pub fn get(&self, name: &str) -> (number: Option<i32>)
        ensures
            number == if self.numbers().contains_key(name@) {
                Some(self.numbers()[name@])
            } else {
                None
            },
    {
        match self.numbers.get(name) {
            Some(number) => Some(*number),
            None => None,
        }
    }

    /// Gives `name` the number `number` unless it has one already, and
    /// returns the number it has then.
    pub fn or_insert(&mut self, name: String, number: i32) -> (now: i32)
        requires
            old(self).wf(),
        ensures
            final(self).wf(),
            final(self).numbers() == if old(self).numbers().contains_key(name@) {
                old(self).numbers()
            } else {
                old(self).numbers().insert(name@, number)
            },
            final(self).names() == if old(self).numbers().contains_key(name@) {
                old(self).names()
            } else {
                old(self).names().push(name@)
            },
            now == final(self).numbers()[name@],
    {
        match self.get(name.as_str()) {
            Some(now) => now,
            None => {
                self.insert(name, number);
                number
            },
        }
    }

    /// The table as a list: each name, in the order in which the names first
    /// came, with its number.
    pub open spec fn listing(&self) -> Seq<(Seq<char>, i32)> {
        Seq::new(self.names().len(), |i: int| (self.names()[i], self.numbers()[self.names()[i]]))
    }

    /// Lists the table: each name, in the order in which the names first
    /// came, with its number.
    pub fn entries(&self) -> (listed: Vec<(String, i32)>)
        requires
            self.wf(),
        ensures
            entry_texts(listed@) == self.listing(),
    {
        let mut listed: Vec<(String, i32)> = Vec::new();
        let mut index: usize = 0;
        while index < self.names.len()
            invariant
                self.wf(),
                index <= self.names@.len(),
                listed@.len() == index,
                forall|i: int|
                    0 <= i < index ==> (#[trigger] listed@[i]).0@ == self.names()[i]
                        && listed@[i].1 == self.numbers()[self.names()[i]],
            decreases self.names@.len() - index,
        {
            let name = self.names[index].clone();
            assert(self.names()[index as int] == name@);
            assert(self.names().contains(name@));
            let number: i32 = match self.numbers.get(name.as_str()) {
                Some(number) => *number,
                None => 0,
            };
            listed.push((name, number));
            index += 1;
        }
        listed
    }
}

/// The entries of a list with each name as a text.
pub open spec fn entry_texts(listed: Seq<(String, i32)>) -> Seq<(Seq<char>, i32)> {
    listed.map_values(|entry: (String, i32)| (entry.0@, entry.1))
}

/// How often `word` occurs among `words`.
pub open spec fn occurrences(words: Seq<Seq<char>>, word: Seq<char>) -> nat
    decreases words.len(),
{
    if words.len() == 0 {
        0
    } else if words.last() == word {
        occurrences(words.drop_last(), word) + 1
    } else {
        occurrences(words.drop_last(), word)
    }
}

/// The different words among `words`, each where it first occurs.
pub open spec fn first_occurrences(words: Seq<Seq<char>>) -> Seq<Seq<char>>
    decreases words.len(),
{
    if words.len() == 0 {
        Seq::empty()
    } else if first_occurrences(words.drop_last()).contains(words.last()) {
        first_occurrences(words.drop_last())
    } else {
        first_occurrences(words.drop_last()).push(words.last())
    }
}

/// A word occurs no more often than there are words, and a word that is not
/// among them occurs no times; the different words are the words.
pub proof fn lemma_occurrences(words: Seq<Seq<char>>, word: Seq<char>)
    ensures
        occurrences(words, word) <= words.len(),
        words.contains(word) <==> occurrences(words, word) > 0,
        words.contains(word) <==> first_occurrences(words).contains(word),
    decreases words.len(),
{
    if words.len() > 0 {
        let before = words.drop_last();
        lemma_occurrences(before, word);
        if before.contains(word) {
            let i = choose|i: int| 0 <= i < before.len() && before[i] == word;
        }
        if words.contains(word) && words.last() != word {
            let i = choose|i: int| 0 <= i < words.len() && words[i] == word;
            assert(before[i] == word);
        }
        if words.last() == word {
        }
        let firsts = first_occurrences(before);
        if firsts.contains(words.last()) {
        } else {
            let pushed = firsts.push(words.last());
            assert(pushed[firsts.len() as int] == words.last());
            if firsts.contains(word) {
                let i = choose|i: int| 0 <= i < firsts.len() && firsts[i] == word;
                assert(pushed[i] == word);
            }
        }
    }
}

/// Counts how often each word of a text occurs. The words are listed in the
/// order in which they first occur.
pub fn count_words(text: &str) -> (tally: Tally)
    requires
        text@.len() <= i32::MAX,
    ensures
        tally.wf(),
        tally.names() == first_occurrences(words(text@)),
        forall|word: Seq<char>| tally.numbers().contains_key(word) <==> words(text@).contains(word),
        forall|word: Seq<char>|
            words(text@).contains(word) ==> #[trigger] tally.numbers()[word] == occurrences(
                words(text@),
                word,
            ),
{
    let found = split_whitespace(text);
    proof {
        lemma_words_len(text@);
    }
    let mut tally = Tally::new();
    let mut index: usize = 0;
    let ghost all = words(text@);
    while index < found.len()
        invariant
            index <= found@.len() <= i32::MAX,
            all == texts(found@),
            tally.wf(),
            tally.names() == first_occurrences(all.take(index as int)),
            forall|word: Seq<char>|
                tally.numbers().contains_key(word) <==> all.take(index as int).contains(word),
            forall|word: Seq<char>|
                all.take(index as int).contains(word) ==> #[trigger] tally.numbers()[word]
                    == occurrences(all.take(index as int), word),
        decreases found@.len() - index,
    {
        let word = found[index].clone();
        let ghost before = all.take(index as int);
        let ghost after = all.take(index + 1);
        proof {
            assert(after.drop_last() =~= before);
            lemma_occurrences(before, word@);
            assert forall|other: Seq<char>| after.contains(other) <==> (before.contains(other)
                || other == word@) by {
                lemma_occurrences(before, other);
                lemma_occurrences(after, other);
            }
        }
        let count = tally.or_insert(word.clone(), 0);
        tally.insert(word, count + 1);
        index += 1;
        proof {
            assert forall|other: Seq<char>| after.contains(other) implies #[trigger] tally.numbers()[other]
                == occurrences(after, other) by {
                lemma_occurrences(before, other);
            }
        }
    }
    assert(all.take(index as int) =~= all);
    tally
}

/// What the walk through hash maps finds. Every table is listed in the
/// order in which its names first came.
pub struct HashMaps {
    /// The score of team Blue, looked up with zero to fall back on.
    pub blue: i32,
    /// The scores of two teams.
    pub scores: Vec<(String, i32)>,
    /// A map that took over the name and the value put into it.
    pub fields: StringHashMap<String>,
    /// A table in which one name was given a number twice.
    pub overwritten: Vec<(String, i32)>,
    /// A table in which numbers were given only to names that had none.
    pub defaulted: Vec<(String, i32)>,
    /// How often each word of "hello world wonderful world" occurs.
    pub word_counts: Vec<(String, i32)>,
}

/// Fills hash maps: by plain inserts, by inserting over a value, by inserting
/// only where nothing is, and by counting words.
pub fn hash_maps() -> (found: HashMaps)
    ensures
        found.blue == 10,
        entry_texts(found.scores@) == seq![("Blue"@, 10i32), ("Yellow"@, 50i32)],
        found.fields@.dom() == set!["Favorite color"@],
        found.fields@["Favorite color"@]@ == "Blue"@,
        entry_texts(found.overwritten@) == seq![("Blue"@, 25i32)],
        entry_texts(found.defaulted@) == seq![("Blue"@, 10i32), ("Yellow"@, 50i32)],
        entry_texts(found.word_counts@) == ({
            let all = words("hello world wonderful world"@);
            first_occurrences(all).map_values(
                |word: Seq<char>| (word, occurrences(all, word) as i32),
            )
        }),
{
    proof {
        reveal_strlit("Blue");
        reveal_strlit("Yellow");
        reveal_strlit("hello world wonderful world");
        assert("Blue"@.len() != "Yellow"@.len());
    }
    let mut scores = Tally::new();
    scores.insert(String::from_str("Blue"), 10);
    scores.insert(String::from_str("Yellow"), 50);

    let team_name = String::from_str("Blue");
    let blue: i32 = match scores.get(team_name.as_str()) {
        Some(score) => score,
        None => 0,
    };
    let listed = scores.entries();

    let field_name = String::from_str("Favorite color");
    let field_value = String::from_str("Blue");
    let mut fields: StringHashMap<String> = StringHashMap::new();
    fields.insert(field_name, field_value);

    let mut scores = Tally::new();
    scores.insert(String::from_str("Blue"), 10);
    scores.insert(String::from_str("Blue"), 25);
    let overwritten = scores.entries();

    let mut scores = Tally::new();
    scores.insert(String::from_str("Blue"), 10);
    scores.or_insert(String::from_str("Yellow"), 50);
    scores.or_insert(String::from_str("Blue"), 50);
    let defaulted = scores.entries();

    let text = "hello world wonderful world";
    let counts = count_words(text);
    let word_counts = counts.entries();
    proof {
        let all = words(text@);
        let firsts = first_occurrences(all);
        assert forall|i: int| 0 <= i < firsts.len() implies counts.numbers()[firsts[i]]
            == occurrences(all, firsts[i]) as i32 by {
            lemma_occurrences(all, firsts[i]);
        }
        assert(counts.listing() =~= firsts.map_values(
            |word: Seq<char>| (word, occurrences(all, word) as i32),
        ));
    }

    HashMaps { blue, scores: listed, fields, overwritten, defaulted, word_counts }
}

} // verus!
