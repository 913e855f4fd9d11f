use language_tour::guessing_game::initiatize_game;
use language_tour::guessing_game::parse_guess;
use language_tour::guessing_game::parse_i32;
use language_tour::guessing_game::Answer;
use language_tour::guessing_game::Game;
use language_tour::guessing_game::Guess;

#[test]
fn a_guess_holds_its_value() {
    assert_eq!(Guess::new(42).value(), 42);
    assert_eq!(Guess::new(0).value(), 0);
    assert_eq!(Guess::new(-7).value(), -7);
    assert_eq!(Guess::new(i32::MAX).value(), i32::MAX);
    assert_eq!(Guess::new(i32::MIN).value(), i32::MIN);
}

#[test]
fn plain_numerals_are_read() {
    assert_eq!(parse_guess("42"), Some(42));
    assert_eq!(parse_guess("0"), Some(0));
    assert_eq!(parse_guess("100"), Some(100));
    assert_eq!(parse_guess("007"), Some(7));
}

#[test]
fn signs_are_read() {
    assert_eq!(parse_guess("+5"), Some(5));
    assert_eq!(parse_guess("-5"), Some(-5));
    assert_eq!(parse_guess("-0"), Some(0));
    assert_eq!(parse_guess("+0"), Some(0));
}

#[test]
fn whitespace_at_the_ends_is_left_out() {
    assert_eq!(parse_guess("42\n"), Some(42));
    assert_eq!(parse_guess("42\r\n"), Some(42));
    assert_eq!(parse_guess("  42  "), Some(42));
    assert_eq!(parse_guess("\t-17\n"), Some(-17));
    assert_eq!(parse_guess("\u{a0}8\u{3000}"), Some(8));
}

#[test]
fn whitespace_inside_is_an_error() {
    assert_eq!(parse_guess("4 2"), None);
    assert_eq!(parse_guess("- 5"), None);
    assert_eq!(parse_guess("1\t2\n"), None);
}

#[test]
fn what_is_no_numeral_is_not_read() {
    assert_eq!(parse_guess(""), None);
    assert_eq!(parse_guess("\n"), None);
    assert_eq!(parse_guess("   "), None);
    assert_eq!(parse_guess("abc"), None);
    assert_eq!(parse_guess("12a"), None);
    assert_eq!(parse_guess("a12"), None);
    assert_eq!(parse_guess("+"), None);
    assert_eq!(parse_guess("-"), None);
    assert_eq!(parse_guess("+-5"), None);
    assert_eq!(parse_guess("--5"), None);
    assert_eq!(parse_guess("5-"), None);
    assert_eq!(parse_guess("1.5"), None);
    assert_eq!(parse_guess("1_000"), None);
    assert_eq!(parse_guess("٣"), None);
    assert_eq!(parse_guess("\u{200b}5"), None);
}

#[test]
fn the_ends_of_the_range_are_read() {
    assert_eq!(parse_guess("2147483647"), Some(i32::MAX));
    assert_eq!(parse_guess("+2147483647"), Some(i32::MAX));
    assert_eq!(parse_guess("-2147483648"), Some(i32::MIN));
    assert_eq!(parse_guess("-2147483647"), Some(i32::MIN + 1));
    assert_eq!(parse_guess("0000000000000000000000002147483647"), Some(i32::MAX));
    assert_eq!(parse_guess("-0000000000000000000000002147483648"), Some(i32::MIN));
}

#[test]
fn numbers_out_of_range_are_not_read() {
    assert_eq!(parse_guess("2147483648"), None);
    assert_eq!(parse_guess("-2147483649"), None);
    assert_eq!(parse_guess("99999999999"), None);
    assert_eq!(parse_guess("-99999999999"), None);
    assert_eq!(parse_guess("123456789012345678901234567890123456789012345678901234567890"), None);
    assert_eq!(parse_guess("99999999999x"), None);
}

#[test]
fn parse_guess_agrees_with_trim_and_parse() {
    let lines = [
        "", " ", "\n", "5", "5\n", " 5", "5 ", "+5", "-5", "+", "-", "++5", "5+", "05", "-05", "0x10",
        "1e3", "12 34", "2147483647", "2147483648", "-2147483648", "-2147483649", "4294967296",
        "\t12\r\n", "\u{85}3\u{2003}", "\u{200b}3", "3\u{feff}", "１２", " - ", "--", "50\n\n",
        "9223372036854775807", "-9223372036854775808", "00000000000", "-", "+00",
    ];
    for line in lines {
        let expected: Option<i32> = line.trim().parse().ok();
        assert_eq!(parse_guess(line), expected, "for {:?}", line);
    }
}

#[test]
fn parse_i32_reads_a_slice_of_chars() {
    assert_eq!(parse_i32(&['1', '2', '3']), Some(123));
    assert_eq!(parse_i32(&['-', '1', '2', '3']), Some(-123));
    assert_eq!(parse_i32(&['+', '9']), Some(9));
    assert_eq!(parse_i32(&[]), None);
    assert_eq!(parse_i32(&['-']), None);
    assert_eq!(parse_i32(&[' ', '1']), None);
    assert_eq!(parse_i32(&['1', ' ']), None);
}

#[test]
fn the_secret_number_lies_between_1_and_100() {
    let mut round = 0;
    while round < 2000 {
        let secret_number = initiatize_game();
        assert!(1 <= secret_number && secret_number <= 100);
        round += 1;
    }
}

#[test]
fn the_secret_number_is_not_always_the_same() {
    let first = initiatize_game();
    let mut differs = false;
    let mut round = 0;
    while round < 400 {
        if initiatize_game() != first {
            differs = true;
        }
        round += 1;
    }
    assert!(differs);
}

#[test]
fn a_new_game_has_no_guesses() {
    let game = Game::new(37);
    assert_eq!(game.secret_number, 37);
    assert_eq!(game.guesses, 0);
}

#[test]
fn guesses_are_judged_and_counted() {
    let mut game = Game::new(37);
    assert_eq!(game.judge(&Guess::new(10)), Answer::TooSmall);
    assert_eq!(game.guesses, 1);
    assert_eq!(game.judge(&Guess::new(90)), Answer::TooBig);
    assert_eq!(game.guesses, 2);
    assert_eq!(game.judge(&Guess::new(36)), Answer::TooSmall);
    assert_eq!(game.judge(&Guess::new(38)), Answer::TooBig);
    assert_eq!(game.judge(&Guess::new(37)), Answer::Win(5));
    assert_eq!(game.guesses, 5);
    assert_eq!(game.secret_number, 37);
}

#[test]
fn a_first_guess_can_win() {
    let mut game = Game::new(1);
    assert_eq!(game.judge(&Guess::new(1)), Answer::Win(1));
}

#[test]
fn lines_that_are_no_numbers_do_not_count() {
    let mut game = Game::new(50);
    assert_eq!(game.turn("fifty\n"), Answer::Ignored);
    assert_eq!(game.guesses, 0);
    assert_eq!(game.turn("\n"), Answer::Ignored);
    assert_eq!(game.turn("25\n"), Answer::TooSmall);
    assert_eq!(game.guesses, 1);
    assert_eq!(game.turn("7 5\n"), Answer::Ignored);
    assert_eq!(game.guesses, 1);
    assert_eq!(game.turn("75\n"), Answer::TooBig);
    assert_eq!(game.turn(" 50 \n"), Answer::Win(3));
    assert_eq!(game.guesses, 3);
    assert_eq!(game.secret_number, 50);
}

#[test]
fn guesses_outside_1_to_100_are_judged_like_any_other() {
    let mut game = Game::new(100);
    assert_eq!(game.turn("0"), Answer::TooSmall);
    assert_eq!(game.turn("-5"), Answer::TooSmall);
    assert_eq!(game.turn("101"), Answer::TooBig);
    assert_eq!(game.turn("2147483647"), Answer::TooBig);
    assert_eq!(game.turn("100"), Answer::Win(5));
}
