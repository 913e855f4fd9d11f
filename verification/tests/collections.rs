use language_tour::collections::count_words;
use language_tour::collections::elements;
use language_tour::collections::hash_maps;
use language_tour::collections::hyphenate;
use language_tour::collections::raise_each;
use language_tour::collections::strings;
use language_tour::collections::vectors;
use language_tour::collections::Tally;

fn entry(name: &str, number: i32) -> (String, i32) {
    (String::from(name), number)
}

#[test]
fn elements_come_out_in_order() {
    assert_eq!(elements(&vec![100, 32, 57]), vec![100, 32, 57]);
    assert_eq!(elements(&Vec::new()), Vec::<i32>::new());
    assert_eq!(elements(&vec![i32::MIN, 0, i32::MAX]), vec![i32::MIN, 0, i32::MAX]);
}

#[test]
fn raise_each_adds_to_every_element() {
    let mut v = vec![100, 32, 57];
    raise_each(&mut v, 50);
    assert_eq!(v, vec![150, 82, 107]);
    raise_each(&mut v, -150);
    assert_eq!(v, vec![0, -68, -43]);
    raise_each(&mut v, 0);
    assert_eq!(v, vec![0, -68, -43]);
}

#[test]
fn raise_each_at_the_edges() {
    let mut v: Vec<i32> = Vec::new();
    raise_each(&mut v, 50);
    assert_eq!(v, Vec::<i32>::new());
    let mut v = vec![i32::MAX - 1, i32::MIN];
    raise_each(&mut v, 1);
    assert_eq!(v, vec![i32::MAX, i32::MIN + 1]);
}

#[test]
fn vectors_walk() {
    let found = vectors();
    assert_eq!(found.pushed, vec![5, 6, 7, 8]);
    assert_eq!(found.third, 7);
    assert_eq!(found.third_if_any, Some(7));
    assert_eq!(found.listed, vec![1, 2, 3]);
    assert_eq!(found.reserved, Vec::<i32>::new());
    assert!(found.reserved.capacity() >= 10);
    assert_eq!(found.first, 1);
    assert_eq!(found.walked, vec![100, 32, 57]);
    assert_eq!(found.raised, vec![150, 82, 107]);
    assert_eq!(found.scoped, vec![1, 2, 3, 4]);
}

#[test]
fn hyphenate_joins_with_hyphens() {
    assert_eq!(hyphenate("tic", "tac", "toe"), "tic-tac-toe");
    assert_eq!(hyphenate("", "", ""), "--");
    assert_eq!(hyphenate("a", "", "c"), "a--c");
    assert_eq!(hyphenate("你", "好", "-"), "你-好--");
}

#[test]
fn strings_walk() {
    let found = strings();
    assert_eq!(found.empty, "");
    assert_eq!(found.from_binding, "initial contents");
    assert_eq!(found.from_literal, "initial contents");
    assert_eq!(found.from_str, "initial contents");
    assert_eq!(
        found.hellos,
        vec![
            "السلام عليكم",
            "Dobrý den",
            "_",
            "שלום",
            "नमस्ते",
            "こんにちは",
            "안녕하세요",
            "你好",
            "Olá",
            "Здравствуйте",
            "Hola",
        ]
    );
    assert_eq!(found.appended, "foobar");
    assert_eq!(found.pushed, "bar");
    assert_eq!(found.with_char, "lol");
    assert_eq!(found.added, "Hello, world!");
    assert_eq!(found.joined, "tic-tac-toe");
    assert_eq!(found.formatted, "tic-tac-toe");
    assert_eq!(found.formatted, format!("{}-{}-{}", "tic", "tac", "toe"));
    assert_eq!(found.short, "hi");
    assert_eq!(found.prefix, "Зд");
    assert_eq!(found.prefix, &"Здравствуйте"[0..4]);
    assert_eq!(found.chars, vec!['H', 'o', 'l', 'a']);
    assert_eq!(found.bytes, vec![72, 111, 108, 97]);
}

#[test]
fn a_new_tally_is_empty() {
    let tally = Tally::new();
    assert_eq!(tally.entries(), Vec::<(String, i32)>::new());
    assert_eq!(tally.get("Blue"), None);
    assert_eq!(tally.get(""), None);
}

#[test]
fn a_tally_lists_names_in_the_order_they_came() {
    let mut tally = Tally::new();
    tally.insert(String::from("Yellow"), 50);
    tally.insert(String::from("Blue"), 10);
    tally.insert(String::from("Green"), -3);
    assert_eq!(tally.entries(), vec![entry("Yellow", 50), entry("Blue", 10), entry("Green", -3)]);
    assert_eq!(tally.get("Blue"), Some(10));
    assert_eq!(tally.get("Yellow"), Some(50));
    assert_eq!(tally.get("Green"), Some(-3));
    assert_eq!(tally.get("Red"), None);
    assert_eq!(tally.get("blue"), None);
}

#[test]
fn inserting_again_overwrites_and_keeps_the_place() {
    let mut tally = Tally::new();
    tally.insert(String::from("Blue"), 10);
    tally.insert(String::from("Yellow"), 50);
    tally.insert(String::from("Blue"), 25);
    assert_eq!(tally.get("Blue"), Some(25));
    assert_eq!(tally.entries(), vec![entry("Blue", 25), entry("Yellow", 50)]);
}

#[test]
fn or_insert_fills_only_what_is_empty() {
    let mut tally = Tally::new();
    tally.insert(String::from("Blue"), 10);
    assert_eq!(tally.or_insert(String::from("Yellow"), 50), 50);
    assert_eq!(tally.or_insert(String::from("Blue"), 50), 10);
    assert_eq!(tally.or_insert(String::from("Yellow"), 7), 50);
    assert_eq!(tally.get("Blue"), Some(10));
    assert_eq!(tally.get("Yellow"), Some(50));
    assert_eq!(tally.entries(), vec![entry("Blue", 10), entry("Yellow", 50)]);
}

#[test]
fn words_are_counted() {
    let tally = count_words("hello world wonderful world");
    assert_eq!(tally.get("hello"), Some(1));
    assert_eq!(tally.get("world"), Some(2));
    assert_eq!(tally.get("wonderful"), Some(1));
    assert_eq!(tally.get("hell"), None);
    assert_eq!(tally.get(""), None);
    assert_eq!(tally.entries(), vec![entry("hello", 1), entry("world", 2), entry("wonderful", 1)]);
}

#[test]
fn a_text_without_words_counts_nothing() {
    assert_eq!(count_words("").entries(), Vec::<(String, i32)>::new());
    assert_eq!(count_words("  \t\n ").entries(), Vec::<(String, i32)>::new());
}

#[test]
fn words_are_split_at_any_whitespace() {
    let tally = count_words("  a\tb\na  b\u{a0}a\r\nc ");
    assert_eq!(tally.entries(), vec![entry("a", 3), entry("b", 2), entry("c", 1)]);
    let tally = count_words("a\u{200b}b a");
    assert_eq!(tally.entries(), vec![entry("a\u{200b}b", 1), entry("a", 1)]);
}

#[test]
fn word_counts_agree_with_a_hash_map() {
    let texts = [
        "the quick brown fox jumps over the lazy dog the end",
        "x x x x x x x",
        "один два один три два один",
        "a",
    ];
    for text in texts {
        let mut map = std::collections::HashMap::new();
        for word in text.split_whitespace() {
            let count = map.entry(word).or_insert(0);
            *count += 1;
        }
        let tally = count_words(text);
        let entries = tally.entries();
        assert_eq!(entries.len(), map.len());
        for (word, count) in entries {
            assert_eq!(map.get(word.as_str()), Some(&count));
        }
    }
}

#[test]
fn hash_maps_walk() {
    let found = hash_maps();
    assert_eq!(found.blue, 10);
    assert_eq!(found.scores, vec![entry("Blue", 10), entry("Yellow", 50)]);
    assert_eq!(found.fields.len(), 1);
    assert_eq!(found.fields.get("Favorite color"), Some(&String::from("Blue")));
    assert_eq!(found.overwritten, vec![entry("Blue", 25)]);
    assert_eq!(found.defaulted, vec![entry("Blue", 10), entry("Yellow", 50)]);
    assert_eq!(found.word_counts, vec![entry("hello", 1), entry("world", 2), entry("wonderful", 1)]);
}
