use language_tour::enums::coin_remark;
use language_tour::enums::describe_state_quarter;
use language_tour::enums::hat_change;
use language_tour::enums::matching;
use language_tour::enums::plus_one;
use language_tour::enums::value_in_cents;
use language_tour::enums::Coin;
use language_tour::enums::HatChange;
use language_tour::enums::IpAddr;
use language_tour::enums::Message;
use language_tour::enums::UsState;

#[test]
fn alabama_existed_from_1819() {
    assert!(!UsState::Alabama.existed_in(1818));
    assert!(UsState::Alabama.existed_in(1819));
    assert!(UsState::Alabama.existed_in(1900));
    assert!(!UsState::Alabama.existed_in(0));
    assert!(UsState::Alabama.existed_in(u16::MAX));
}

#[test]
fn alaska_existed_from_1959() {
    assert!(!UsState::Alaska.existed_in(1900));
    assert!(!UsState::Alaska.existed_in(1958));
    assert!(UsState::Alaska.existed_in(1959));
    assert!(UsState::Alaska.existed_in(u16::MAX));
}

#[test]
fn state_names_are_spelled_as_the_variants() {
    assert_eq!(UsState::Alabama.name(), "Alabama");
    assert_eq!(UsState::Alaska.name(), "Alaska");
    assert_eq!(UsState::Alabama.name(), format!("{:?}", UsState::Alabama));
    assert_eq!(UsState::Alaska.name(), format!("{:?}", UsState::Alaska));
}

#[test]
fn coins_are_worth_their_cents() {
    assert_eq!(value_in_cents(&Coin::Penny), 1);
    assert_eq!(value_in_cents(&Coin::Nickel), 5);
    assert_eq!(value_in_cents(&Coin::Dime), 10);
    assert_eq!(value_in_cents(&Coin::Quarter(UsState::Alabama)), 25);
    assert_eq!(value_in_cents(&Coin::Quarter(UsState::Alaska)), 25);
}

#[test]
fn pennies_and_quarters_get_a_remark() {
    assert_eq!(coin_remark(&Coin::Penny), Some(String::from("Lucky penny!")));
    assert_eq!(coin_remark(&Coin::Nickel), None);
    assert_eq!(coin_remark(&Coin::Dime), None);
    assert_eq!(
        coin_remark(&Coin::Quarter(UsState::Alabama)),
        Some(String::from("State quarter from Alabama!"))
    );
    assert_eq!(
        coin_remark(&Coin::Quarter(UsState::Alaska)),
        Some(String::from("State quarter from Alaska!"))
    );
}

#[test]
fn quarters_are_described_by_age() {
    assert_eq!(
        describe_state_quarter(&Coin::Quarter(UsState::Alabama)),
        Some(String::from("Alabama is pretty old, for America!"))
    );
    assert_eq!(
        describe_state_quarter(&Coin::Quarter(UsState::Alaska)),
        Some(String::from("Alaska is relatively new."))
    );
}

#[test]
fn other_coins_are_not_described() {
    assert_eq!(describe_state_quarter(&Coin::Penny), None);
    assert_eq!(describe_state_quarter(&Coin::Nickel), None);
    assert_eq!(describe_state_quarter(&Coin::Dime), None);
}

#[test]
fn plus_one_adds_one_inside() {
    assert_eq!(plus_one(Some(5)), Some(6));
    assert_eq!(plus_one(Some(-1)), Some(0));
    assert_eq!(plus_one(Some(0)), Some(1));
    assert_eq!(plus_one(Some(i32::MIN)), Some(i32::MIN + 1));
    assert_eq!(plus_one(Some(i32::MAX - 1)), Some(i32::MAX));
}

#[test]
fn plus_one_of_nothing_is_nothing() {
    assert_eq!(plus_one(None), None);
}

#[test]
fn dice_rolls_change_the_hat() {
    assert_eq!(hat_change(3), HatChange::Added);
    assert_eq!(hat_change(7), HatChange::Removed);
    assert_eq!(hat_change(1), HatChange::Unchanged);
    assert_eq!(hat_change(0), HatChange::Unchanged);
    assert_eq!(hat_change(-3), HatChange::Unchanged);
    assert_eq!(hat_change(9), HatChange::Unchanged);
}

#[test]
fn matching_walk() {
    let found = matching();
    assert!(matches!(found.home, IpAddr::V4(127, 0, 0, 1)));
    match &found.loopback {
        IpAddr::V6(addr) => assert_eq!(addr, "::1"),
        IpAddr::V4(..) => panic!("the loopback address is in the new form"),
    }
    match &found.message {
        Message::Write(text) => assert_eq!(text, "hello"),
        _ => panic!("the message is one to write"),
    }
    assert_eq!(found.some_number, Some(5));
    assert_eq!(found.some_char, Some('e'));
    assert_eq!(found.absent_number, None);
    assert_eq!(found.values, [1, 5, 10, 25]);
    assert_eq!(found.alabama, Some(String::from("Alabama is pretty old, for America!")));
    assert_eq!(found.alaska, Some(String::from("Alaska is relatively new.")));
    assert_eq!(found.dime, None);
    assert_eq!(found.five, Some(5));
    assert_eq!(found.six, Some(6));
    assert_eq!(found.none, None);
    assert_eq!(found.hat, HatChange::Added);
    assert_eq!(found.config_max, Some(3));
}
