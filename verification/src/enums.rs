//! Enums, `Option`, and the ways to match on them.

use vstd::prelude::*;

verus! {

/// An internet address of either version.
#[derive(Debug)]
pub enum IpAddr {
    V4(u8, u8, u8, u8),
    V6(String),
}

/// A message whose variants carry different kinds of data.
#[derive(Debug)]
pub enum Message {
    Quit,
    Move { x: i32, y: i32 },
    Write(String),
    ChangeColor(i32, i32, i32),
}

/// A state that has a quarter of its own.
#[derive(Clone, Copy, Debug, PartialEq, Eq, Structural)]
pub enum UsState {
    Alabama,
    Alaska,
}

/// A coin; a quarter shows the state it was minted for.
#[derive(Clone, Copy, Debug, PartialEq, Eq, Structural)]
pub enum Coin {
    Penny,
    Nickel,
    Dime,
    Quarter(UsState),
}

/// What a roll of the dice does to a player's hat.
#[derive(Clone, Copy, Debug, PartialEq, Eq, Structural)]
pub enum HatChange {
    Added,
    Removed,
    Unchanged,
}

impl UsState {
    /// The year in which the state joined the union.
    pub open spec fn admitted(&self) -> int {
        match self {
            UsState::Alabama => 1819,
            UsState::Alaska => 1959,
        }
    }

    /// The state's name as a sequence of characters.
    pub open spec fn spec_name(&self) -> Seq<char> {
        match self {
            UsState::Alabama => "Alabama"@,
            UsState::Alaska => "Alaska"@,
        }
    }

    /// Whether the state was part of the union in `year`.
    pub fn existed_in(&self, year: u16) -> (existed: bool)
        ensures
            existed == (year >= self.admitted()),
    {
        match self {
            UsState::Alabama => year >= 1819,
            UsState::Alaska => year >= 1959,
        }
    }

    /// The state's name.
    pub fn name(&self) -> (name: &'static str)
        ensures
            name@ == self.spec_name(),
    {
        match self {
            UsState::Alabama => "Alabama",
            UsState::Alaska => "Alaska",
        }
    }
}

/// What a coin is worth in cents.
pub open spec fn cents(coin: Coin) -> int {
    match coin {
        Coin::Penny => 1,
        Coin::Nickel => 5,
        Coin::Dime => 10,
        Coin::Quarter(_) => 25,
    }
}

/// What a coin is worth in cents.
pub fn value_in_cents(coin: &Coin) -> (value: u8)
    ensures
        value == cents(*coin),
{
    match coin {
        Coin::Penny => 1,
        Coin::Nickel => 5,
        Coin::Dime => 10,
        Coin::Quarter(_) => 25,
    }
}

/// What there is to say on finding a coin: something for a penny and for a
/// quarter, nothing for the others.
pub open spec fn remark(coin: Coin) -> Option<Seq<char>> {
    match coin {
        Coin::Penny => Some("Lucky penny!"@),
        Coin::Quarter(state) => Some("State quarter from "@ + state.spec_name() + "!"@),
        _ => None,
    }
}

/// The remark that goes with counting a coin, if there is one.
pub fn coin_remark(coin: &Coin) -> (said: Option<String>)
    ensures
        match remark(*coin) {
            Some(text) => said matches Some(s) && s@ == text,
            None => said is None,
        },
{
    match coin {
        Coin::Penny => Some(String::from_str("Lucky penny!")),
        Coin::Quarter(state) => {
            let mut said = String::from_str("State quarter from ");
            said.append(state.name());
            said.append("!");
            Some(said)
        },
        _ => None,
    }
}

/// How a state's quarter is described: as old if the state was in the union
/// in 1900, as new otherwise.
pub open spec fn description(state: UsState) -> Seq<char> {
    if state.admitted() <= 1900 {
        state.spec_name() + " is pretty old, for America!"@
    } else {
        state.spec_name() + " is relatively new."@
    }
}

/// Describes a state quarter by its state's age. Other coins have no
/// description.
pub fn describe_state_quarter(coin: &Coin) -> (described: Option<String>)
    ensures
        match *coin {
            Coin::Quarter(state) => described matches Some(d) && d@ == description(state),
            _ => described is None,
        },
{
    let Coin::Quarter(state) = coin else {
        return None;
    };
    let mut described = String::from_str(state.name());
    if state.existed_in(1900) {
        described.append(" is pretty old, for America!");
    } else {
        described.append(" is relatively new.");
    }
    Some(described)
}

/// Adds one to the number inside, if there is one.
pub fn plus_one(x: Option<i32>) -> (y: Option<i32>)
    requires
        x != Some(i32::MAX),
    ensures
        match x {
            Some(i) => y == Some((i + 1) as i32),
            None => y is None,
        },
{
    match x {
        None => None,
        Some(i) => Some(i + 1),
    }
}

/// A roll of three adds a fancy hat, a roll of seven takes it away, and any
/// other roll leaves things as they are.
pub fn hat_change(dice_roll: i32) -> (change: HatChange)
    ensures
        change == if dice_roll == 3 {
            HatChange::Added
        } else if dice_roll == 7 {
            HatChange::Removed
        } else {
            HatChange::Unchanged
        },
{
    match dice_roll {
        3 => HatChange::Added,
        7 => HatChange::Removed,
        _ => HatChange::Unchanged,
    }
}

/// What the walk through enums and matching finds.
pub struct Matching {
    /// The address of this machine, in the old form.
    pub home: IpAddr,
    /// The same, in the new form.
    pub loopback: IpAddr,
    /// A message to write.
    pub message: Message,
    /// An `Option` that holds a number.
    pub some_number: Option<i32>,
    /// An `Option` that holds a character.
    pub some_char: Option<char>,
    /// An `Option` that holds nothing.
    pub absent_number: Option<i32>,
    /// The worth of a penny, a nickel, a dime and a quarter.
    pub values: [u8; 4],
    /// How Alabama's quarter is described.
    pub alabama: Option<String>,
    /// How Alaska's quarter is described.
    pub alaska: Option<String>,
    /// How a dime is described: not at all.
    pub dime: Option<String>,
    /// Five, inside an `Option`.
    pub five: Option<i32>,
    /// One more than that.
    pub six: Option<i32>,
    /// One more than nothing.
    pub none: Option<i32>,
    /// What a roll of three does to the hat.
    pub hat: HatChange,
    /// A configured maximum.
    pub config_max: Option<u8>,
}

/// Makes values of each enum and matches on them.
pub fn matching() -> (found: Matching)
    ensures
        found.home matches IpAddr::V4(a, b, c, d) && a == 127 && b == 0 && c == 0 && d == 1,
        found.loopback matches IpAddr::V6(addr) && addr@ == "::1"@,
        found.message matches Message::Write(text) && text@ == "hello"@,
        found.some_number == Some(5i32),
        found.some_char == Some('e'),
        found.absent_number is None,
        found.values@ == seq![1u8, 5, 10, 25],
        found.alabama matches Some(d) && d@ == "Alabama is pretty old, for America!"@,
        found.alaska matches Some(d) && d@ == "Alaska is relatively new."@,
        found.dime is None,
        found.five == Some(5i32),
        found.six == Some(6i32),
        found.none is None,
        found.hat == HatChange::Added,
        found.config_max == Some(3u8),
{
    let home = IpAddr::V4(127, 0, 0, 1);
    let loopback = IpAddr::V6(String::from_str("::1"));
    let message = Message::Write(String::from_str("hello"));

    let some_number: Option<i32> = Some(5);
    let some_char = Some('e');
    let absent_number: Option<i32> = None;

    let penny = Coin::Penny;
    let nickel = Coin::Nickel;
    let dime = Coin::Dime;
    let ala_quarter = Coin::Quarter(UsState::Alabama);
    let ak_quarter = Coin::Quarter(UsState::Alaska);

    let values: [u8; 4] = [
        value_in_cents(&penny),
        value_in_cents(&nickel),
        value_in_cents(&dime),
        value_in_cents(&ala_quarter),
    ];

    let alabama = describe_state_quarter(&ala_quarter);
    let alaska = describe_state_quarter(&ak_quarter);
    let dime = describe_state_quarter(&dime);

    let five: Option<i32> = Some(5);
    let six = plus_one(five);
    let none = plus_one(None);

    let dice_roll: i32 = 3;
    let hat = hat_change(dice_roll);

    let config_max: Option<u8> = Some(3u8);

    proof {
        reveal_strlit("Alabama");
        reveal_strlit("Alaska");
        reveal_strlit(" is pretty old, for America!");
        reveal_strlit(" is relatively new.");
        reveal_strlit("Alabama is pretty old, for America!");
        reveal_strlit("Alaska is relatively new.");
    }
    Matching {
        home,
        loopback,
        message,
        some_number,
        some_char,
        absent_number,
        values,
        alabama,
        alaska,
        dime,
        five,
        six,
        none,
        hat,
        config_max,
    }
}

} // verus!
