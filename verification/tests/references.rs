use language_tour::references::calculate_length;
use language_tour::references::change_string;
use language_tour::references::first_word;
use language_tour::references::first_word_len;
use language_tour::references::no_dangle;
use language_tour::references::references;
use language_tour::references::slices;
use language_tour::references::SPACE;

#[test]
fn borrowed_length_is_counted_in_bytes() {
    assert_eq!(calculate_length(&String::from("hello")), 5);
    assert_eq!(calculate_length(&String::new()), 0);
    assert_eq!(calculate_length(&String::from("hello, world!")), 13);
    assert_eq!(calculate_length(&String::from("Dobrý den")), 10);
    assert_eq!(calculate_length(&String::from("你好")), 6);
}

#[test]
fn change_string_appends_world() {
    let mut s = String::from("hello");
    change_string(&mut s);
    assert_eq!(s, "hello, world!");
    change_string(&mut s);
    assert_eq!(s, "hello, world!, world!");
    let mut empty = String::new();
    change_string(&mut empty);
    assert_eq!(empty, ", world!");
}

#[test]
fn no_dangle_returns_hello() {
    assert_eq!(no_dangle(), "hello");
}

#[test]
fn space_is_byte_32() {
    assert_eq!(SPACE, b' ');
}

#[test]
fn first_word_len_is_the_index_of_the_first_space() {
    assert_eq!(first_word_len(&String::from("This is a test string")), 4);
    assert_eq!(first_word_len(&String::from("hello world")), 5);
    assert_eq!(first_word_len(&String::from("a b")), 1);
}

#[test]
fn first_word_len_without_a_space_is_the_whole_length() {
    assert_eq!(first_word_len(&String::from("hello")), 5);
    assert_eq!(first_word_len(&String::new()), 0);
    assert_eq!(first_word_len(&String::from("tab\tand\nnewline")), 15);
}

#[test]
fn first_word_len_with_a_space_in_front_is_zero() {
    assert_eq!(first_word_len(&String::from(" hello")), 0);
    assert_eq!(first_word_len(&String::from(" ")), 0);
    assert_eq!(first_word_len(&String::from("  ")), 0);
}

#[test]
fn first_word_len_counts_bytes_not_chars() {
    assert_eq!(first_word_len(&String::from("Dobrý den")), 6);
    assert_eq!(first_word_len(&String::from("こんにちは 世界")), 15);
    assert_eq!(first_word_len(&String::from("😻 cat")), 4);
    assert_eq!(first_word_len(&String::from("Здравствуйте")), 24);
}

#[test]
fn first_word_is_what_stands_before_the_first_space() {
    assert_eq!(first_word("This is a test string"), "This");
    assert_eq!(first_word("This i"), "This");
    assert_eq!(first_word("hello world"), "hello");
    assert_eq!(first_word("a b c"), "a");
}

#[test]
fn first_word_without_a_space_is_the_whole_text() {
    assert_eq!(first_word("hello"), "hello");
    assert_eq!(first_word(""), "");
    assert_eq!(first_word("tab\tand\nnewline"), "tab\tand\nnewline");
    assert_eq!(first_word("no\u{a0}break"), "no\u{a0}break");
}

#[test]
fn first_word_with_a_space_in_front_is_empty() {
    assert_eq!(first_word(" hello"), "");
    assert_eq!(first_word(" "), "");
}

#[test]
fn first_word_beyond_ascii() {
    assert_eq!(first_word("Dobrý den"), "Dobrý");
    assert_eq!(first_word("السلام عليكم"), "السلام");
    assert_eq!(first_word("こんにちは 世界"), "こんにちは");
    assert_eq!(first_word("😻 cat"), "😻");
    assert_eq!(first_word("नमस्ते"), "नमस्ते");
}

#[test]
fn first_word_and_its_length_agree() {
    let texts = ["", " ", "a", "a ", " a", "one two", "Olá mundo", "안녕하세요 세계", "x  y", "ℤ ℤ"];
    for text in texts {
        let word = first_word(text);
        let expected = match text.find(' ') {
            Some(at) => &text[..at],
            None => text,
        };
        assert_eq!(word, expected);
        assert_eq!(first_word_len(&String::from(text)), word.len());
    }
}

#[test]
fn references_walk() {
    let found = references();
    assert_eq!(found.before, "hello");
    assert_eq!(found.length, 5);
    assert_eq!(found.after, "hello, world!");
    assert_eq!(found.length_after, 13);
    assert_eq!(found.scoped, "hello, world!");
    assert_eq!(found.later, "hello, world!");
    assert_eq!(found.shared, (String::from("hello, world!"), String::from("hello, world!")));
    assert_eq!(found.moved_out, "hello");
}

#[test]
fn slices_walk() {
    let found = slices();
    assert_eq!(
        found.first, 4,
        "The first word should be 'This', which has length 4.",
    );
    assert_eq!(found.shown, "This");
    assert_eq!(found.cleared, "");
    assert_eq!(found.of_whole, "This");
    assert_eq!(found.of_text, "This");
    assert_eq!(found.of_part, "This");
    assert_eq!(found.middle, vec![2, 3]);
}
