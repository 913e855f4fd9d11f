//! Bindings, primitive types, functions and control flow.

use vstd::prelude::*;

verus! {

/// The number of seconds in three hours.
pub const THREE_HOURS_IN_SECONDS: u32 = 60 * 60 * 3;

/// The largest of 4, 3 and 2 that divides a number, tried in that order.
#[derive(Clone, Copy, Debug, PartialEq, Eq, Structural)]
pub enum Divisor {
    Four,
    Three,
    Two,
    Neither,
}

/// The first of 4, 3 and 2 that divides `number`, or `Neither`.
pub open spec fn divisor_of(number: int) -> Divisor {
    if number % 4 == 0 {
        Divisor::Four
    } else if number % 3 == 0 {
        Divisor::Three
    } else if number % 2 == 0 {
        Divisor::Two
    } else {
        Divisor::Neither
    }
}

/// Tries 4, then 3, then 2 as a divisor of `number` and names the first that
/// leaves no remainder.
pub fn first_divisor(number: i32) -> (divisor: Divisor)
    ensures
        divisor == divisor_of(number as int),
{
    if number % 4 == 0 {
        Divisor::Four
    } else if number % 3 == 0 {
        Divisor::Three
    } else if number % 2 == 0 {
        Divisor::Two
    } else {
        Divisor::Neither
    }
}

/// Returns five.
pub fn five() -> (n: i32)
    ensures
        n == 5,
{
    5
}

/// Counts up from zero to `limit` and returns twice the count.
pub fn count_then_double(limit: i32) -> (doubled: i32)
    requires
        0 < limit,
        2 * limit <= i32::MAX,
    ensures
        doubled == 2 * limit,
{
    let mut counter: i32 = 0;
    let mut doubled: i32 = 0;
    loop
        invariant_except_break
            0 <= counter < limit,
            2 * limit <= i32::MAX,
        ensures
            doubled == 2 * limit,
        decreases limit - counter,
    {
        counter += 1;
        if counter == limit {
            doubled = counter * 2;
            break;
        }
    }
    doubled
}

/// One line of what the nested counting loops report.
#[derive(Clone, Copy, Debug, PartialEq, Eq, Structural)]
pub enum Step {
    /// The outer loop starts a round with this count.
    Count(i32),
    /// The inner loop looks at this many remaining.
    Remaining(i32),
}

/// The steps of `rounds` full rounds of the nested counting loops: each round
/// reports its count, then ten and nine remaining.
pub open spec fn full_rounds(rounds: nat) -> Seq<Step>
    decreases rounds,
{
    if rounds == 0 {
        seq![]
    } else {
        full_rounds((rounds - 1) as nat) + seq![
            Step::Count((rounds - 1) as i32),
            Step::Remaining(10),
            Step::Remaining(9),
        ]
    }
}

/// Runs an outer loop that counts up from zero around an inner loop that
/// counts down from ten. The inner loop ends its round at nine remaining, and
/// ends both loops once the count is two. Returns every step taken and the
/// count at the end.
pub fn counting_up() -> (out: (Vec<Step>, i32))
    ensures
        out.0@ == seq![
            Step::Count(0),
            Step::Remaining(10),
            Step::Remaining(9),
            Step::Count(1),
            Step::Remaining(10),
            Step::Remaining(9),
            Step::Count(2),
            Step::Remaining(10),
        ],
        out.1 == 2,
{
    let mut steps: Vec<Step> = Vec::new();
    let mut count: i32 = 0;
    'counting_up: loop
        invariant_except_break
            0 <= count <= 2,
            steps@ == full_rounds(count as nat),
        ensures
            count == 2,
            steps@ == full_rounds(2) + seq![Step::Count(2), Step::Remaining(10)],
        decreases 2 - count,
    {
        steps.push(Step::Count(count));
        let mut remaining: i32 = 10;
        let ghost before = steps@;
        loop
            invariant_except_break
                0 <= count <= 2,
                9 <= remaining <= 10,
                before == full_rounds(count as nat).push(Step::Count(count)),
                remaining == 10 ==> steps@ == before,
                remaining == 9 ==> steps@ == before.push(Step::Remaining(10)) && count < 2,
            ensures
                0 <= count < 2,
                steps@ == full_rounds((count + 1) as nat),
            decreases remaining,
        {
            steps.push(Step::Remaining(remaining));
            if remaining == 9 {
                break;
            }
            if count == 2 {
                break 'counting_up;
            }
            remaining -= 1;
        }
        count += 1;
    }
    proof {
        reveal_with_fuel(full_rounds, 3);
    }
    assert(steps@ =~= seq![
        Step::Count(0),
        Step::Remaining(10),
        Step::Remaining(9),
        Step::Count(1),
        Step::Remaining(10),
        Step::Remaining(9),
        Step::Count(2),
        Step::Remaining(10),
    ]);
    (steps, count)
}

/// The numbers from `from` down to one.
pub open spec fn countdown(from: int) -> Seq<i32> {
    Seq::new(from as nat, |i: int| (from - i) as i32)
}

/// Counts down from `from` to one in a `loop` that tests for zero itself.
pub fn countdown_with_loop(from: i32) -> (called: Vec<i32>)
    requires
        0 <= from,
    ensures
        called@ == countdown(from as int),
{
    let mut called: Vec<i32> = Vec::new();
    let mut number: i32 = from;
    loop
        invariant_except_break
            0 <= number <= from,
            called@ == countdown(from as int).take(from - number),
        ensures
            called@ == countdown(from as int),
        decreases number,
    {
        if number == 0 {
            break;
        }
        called.push(number);
        number -= 1;
    }
    called
}

/// Counts down from `from` to one in a `while` loop.
pub fn countdown_with_while(from: i32) -> (called: Vec<i32>)
    requires
        0 <= from,
    ensures
        called@ == countdown(from as int),
{
    let mut called: Vec<i32> = Vec::new();
    let mut number: i32 = from;
    while number != 0
        invariant
            0 <= number <= from,
            called@ == countdown(from as int).take(from - number),
        decreases number,
    {
        called.push(number);
        number -= 1;
    }
    called
}

/// Counts down from `from` to one by walking a range backwards.
pub fn countdown_with_range(from: i32) -> (called: Vec<i32>)
    requires
        0 <= from < i32::MAX,
    ensures
        called@ == countdown(from as int),
{
    let mut called: Vec<i32> = Vec::new();
    for number in iter: (1..from + 1).rev()
        invariant
            iter.seq() == countdown(from as int),
            called@ == countdown(from as int).take(iter.index()),
    {
        called.push(number);
    }
    called
}

/// Copies the elements of an array out one by one, by index.
pub fn elements_by_index(a: &[i32; 5]) -> (seen: Vec<i32>)
    ensures
        seen@ == a@,
{
    let mut seen: Vec<i32> = Vec::new();
    let mut index: usize = 0;
    while index < 5
        invariant
            index <= 5,
            seen@ == a@.take(index as int),
        decreases 5 - index,
    {
        seen.push(a[index]);
        index += 1;
    }
    seen
}

/// Copies the elements of an array out one by one, without an index.
pub fn elements_in_turn(a: &[i32; 5]) -> (seen: Vec<i32>)
    ensures
        seen@ == a@,
{
    let mut seen: Vec<i32> = Vec::new();
    for element in iter: a.iter()
        invariant
            iter.seq().len() == 5,
            forall|i: int| 0 <= i < 5 ==> *iter.seq()[i] == a@[i],
            seen@ == a@.take(iter.index()),
    {
        seen.push(*element);
    }
    seen
}

/// What the walk through control flow finds.
pub struct ControlFlow {
    /// Whether seven is below five.
    pub below_five: bool,
    /// The first of 4, 3 and 2 that divides seven.
    pub divisor: Divisor,
    /// The number an `if` expression picks when its condition holds.
    pub number: i32,
    /// The value a loop hands back once its counter reaches ten.
    pub result: i32,
    /// The steps of the nested counting loops.
    pub steps: Vec<Step>,
    /// The count at which the nested counting loops end.
    pub end_count: i32,
    /// The countdown from three, by a `loop`.
    pub liftoff_by_loop: Vec<i32>,
    /// The countdown from three, by a `while`.
    pub liftoff_by_while: Vec<i32>,
    /// The elements of an array, read by index.
    pub by_index: Vec<i32>,
    /// The elements of the same array, read by a `for`.
    pub in_turn: Vec<i32>,
    /// The countdown from three, by a reversed range.
    pub liftoff_by_range: Vec<i32>,
}

/// Walks through branches and the three kinds of loop.
pub fn control_flow() -> (found: ControlFlow)
    ensures
        !found.below_five,
        found.divisor == Divisor::Neither,
        found.number == 5,
        found.result == 20,
        found.steps@ == seq![
            Step::Count(0),
            Step::Remaining(10),
            Step::Remaining(9),
            Step::Count(1),
            Step::Remaining(10),
            Step::Remaining(9),
            Step::Count(2),
            Step::Remaining(10),
        ],
        found.end_count == 2,
        found.liftoff_by_loop@ == seq![3i32, 2, 1],
        found.liftoff_by_while@ == seq![3i32, 2, 1],
        found.by_index@ == seq![10i32, 20, 30, 40, 50],
        found.in_turn@ == seq![10i32, 20, 30, 40, 50],
        found.liftoff_by_range@ == seq![3i32, 2, 1],
{
    let number: i32 = 7;
    let below_five = number < 5;

    let number: i32 = 7;
    let divisor = first_divisor(number);

    let condition = true;
    let number: i32 = if condition { 5 } else { 6 };

    let result = count_then_double(10);
    let (steps, end_count) = counting_up();

    let liftoff_by_loop = countdown_with_loop(3);
    let liftoff_by_while = countdown_with_while(3);

    let a: [i32; 5] = [10, 20, 30, 40, 50];
    let by_index = elements_by_index(&a);
    let in_turn = elements_in_turn(&a);

    let liftoff_by_range = countdown_with_range(3);

    ControlFlow {
        below_five,
        divisor,
        number,
        result,
        steps,
        end_count,
        liftoff_by_loop,
        liftoff_by_while,
        by_index,
        in_turn,
        liftoff_by_range,
    }
}

/// What the walk through bindings finds.
pub struct Variables {
    /// The value a mutable binding gets first.
    pub assigned: i32,
    /// The value it holds after it is assigned again.
    pub reassigned: i32,
    /// The constant `THREE_HOURS_IN_SECONDS`.
    pub three_hours: u32,
    /// A shadowing binding in an inner scope: twice the outer one.
    pub inner: i32,
    /// The outer binding, which the inner scope left alone.
    pub outer: i32,
    /// The length of three spaces, bound to the name the text had.
    pub spaces: usize,
    /// Five plus ten.
    pub sum: i32,
    /// Four times thirty.
    pub product: i32,
    /// Minus five divided by three, rounded toward zero.
    pub truncated: i32,
    /// What is left of forty-three after division by five.
    pub remainder: i32,
}

/// Walks through mutable bindings, a constant, shadowing and integer
/// arithmetic.
pub fn variables() -> (found: Variables)
    ensures
        found.assigned == 5,
        found.reassigned == 6,
        found.three_hours == 10800,
        found.inner == 12,
        found.outer == 6,
        found.spaces == 3,
        found.sum == 15,
        found.product == 120,
        found.truncated == -1,
        found.remainder == 3,
{
    let mut x: i32;
    x = 5;
    let assigned = x;
    x = 6;
    let reassigned = x;

    let x: i32 = 5;
    let x: i32 = x + 1;
    let inner: i32 = {
        let x: i32 = x * 2;
        x
    };
    let outer = x;

    let spaces = "   ";
    let spaces = spaces.len();
    proof {
        reveal_strlit("   ");
        vstd::string::is_ascii_spec_bytes("   ");
    }

    let sum: i32 = 5 + 10;
    let product: i32 = 4 * 30;
    let truncated: i32 = -5 / 3;
    let remainder: i32 = 43 % 5;

    Variables {
        assigned,
        reassigned,
        three_hours: THREE_HOURS_IN_SECONDS,
        inner,
        outer,
        spaces,
        sum,
        product,
        truncated,
        remainder,
    }
}

/// What the walk through the primitive types finds.
pub struct DataTypes {
    /// A `bool` whose type was inferred.
    pub t: bool,
    /// A `bool` whose type was written out.
    pub f: bool,
    /// A letter.
    pub c: char,
    /// A letter from beyond ASCII.
    pub z: char,
    /// A character that is no letter at all.
    pub heart_eyed_cat: char,
    /// The first field of a tuple, reached by a pattern.
    pub x: i32,
    /// The last field of the tuple, reached by a pattern.
    pub z_of_tuple: u8,
    /// The first field of the tuple, reached by its position.
    pub five_hundred: i32,
    /// The last field of the tuple, reached by its position.
    pub one: u8,
    /// An array with its elements listed.
    pub listed: [i32; 5],
    /// An array of one value repeated.
    pub repeated: [i32; 5],
    /// The first element of the repeated array.
    pub first: i32,
    /// Its second element.
    pub second: i32,
}

/// Walks through booleans, characters, a tuple and two arrays.
pub fn data_types() -> (found: DataTypes)
    ensures
        found.t,
        !found.f,
        found.c == 'z',
        found.z == 'ℤ',
        found.heart_eyed_cat == '😻',
        found.x == 500,
        found.z_of_tuple == 1,
        found.five_hundred == 500,
        found.one == 1,
        found.listed@ == seq![1i32, 2, 3, 4, 5],
        found.repeated@ == seq![3i32, 3, 3, 3, 3],
        found.first == 3,
        found.second == 3,
{
    let t = true;
    let f: bool = false;

    let c = 'z';
    let z: char = 'ℤ';
    let heart_eyed_cat = '😻';

    let tup: (i32, u8) = (500, 1);
    let (x, z_of_tuple) = tup;

    let x_tuple = tup;
    let five_hundred = x_tuple.0;
    let one = x_tuple.1;

    let listed: [i32; 5] = [1, 2, 3, 4, 5];
    let repeated: [i32; 5] = [3; 5];
    let first = repeated[0];
    let second = repeated[1];

    DataTypes {
        t,
        f,
        c,
        z,
        heart_eyed_cat,
        x,
        z_of_tuple,
        five_hundred,
        one,
        listed,
        repeated,
        first,
        second,
    }
}

/// What the walk through functions finds.
pub struct Functions {
    /// A value bound by a statement.
    pub x: i32,
    /// The value of a block that ends in an expression.
    pub y: i32,
    /// What `five` returns.
    pub five: i32,
}

/// Walks through statements, block expressions and a call.
pub fn functions() -> (found: Functions)
    ensures
        found.x == 5,
        found.y == 4,
        found.five == 5,
{
    let x: i32 = 5;
    let y: i32 = {
        let x: i32 = 3;
        x + 1
    };
    Functions { x, y, five: five() }
}

} // verus!
