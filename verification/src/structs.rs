//! Structs: named fields, tuple structs, unit structs and methods.

use vstd::prelude::*;

verus! {

/// An account. A binding to a `User` is mutable as a whole or not at all.
#[derive(Debug)]
pub struct User {
    pub active: bool,
    pub username: String,
    pub email: String,
    pub sign_in_count: u64,
}

/// A colour as a tuple struct: three fields without names.
#[derive(Clone, Copy, Debug, PartialEq, Eq, Structural)]
pub struct Color(pub i32, pub i32, pub i32);

/// A point in space. Its fields have the types of `Color`'s, yet the two are
/// different types.
#[derive(Clone, Copy, Debug, PartialEq, Eq, Structural)]
pub struct Point(pub i32, pub i32, pub i32);

/// A unit-like struct: a type with no data at all.
#[derive(Clone, Copy, Debug, PartialEq, Eq, Structural)]
pub struct AlwaysEqual;

/// A rectangle with sides in pixels.
#[derive(Clone, Copy, Debug, PartialEq, Eq, Structural)]
pub struct Rectangle {
    pub width: u32,
    pub height: u32,
}

/// Makes an active user who has signed in once.
pub fn build_user(email: String, username: String) -> (user: User)
    ensures
        user.active,
        user.username == username,
        user.email == email,
        user.sign_in_count == 1,
{
    User { active: true, username, email, sign_in_count: 1 }
}

impl Rectangle {
    /// The area in square pixels, as a spec value.
    pub open spec fn spec_area(&self) -> int {
        self.width * self.height
    }

    /// The area in square pixels.
    pub fn area(&self) -> (a: u32)
        requires
            self.spec_area() <= u32::MAX,
        ensures
            a == self.spec_area(),
    {
        self.width * self.height
    }

    /// Whether the rectangle has any width. A method may share its name with
    /// a field.
    pub fn width(&self) -> (wide: bool)
        ensures
            wide == (self.width > 0),
    {
        self.width > 0
    }

    /// Whether `other` fits inside with room on both sides.
    pub fn can_hold(&self, other: &Rectangle) -> (holds: bool)
        ensures
            holds == (self.width > other.width && self.height > other.height),
    {
        self.width > other.width && self.height > other.height
    }

    /// A rectangle whose sides are both `size`.
    pub fn square(size: u32) -> (square: Self)
        ensures
            square.width == size,
            square.height == size,
    {
        Self { width: size, height: size }
    }
}

/// The area of a rectangle given as two numbers.
pub fn area(width: u32, height: u32) -> (a: u32)
    requires
        width * height <= u32::MAX,
    ensures
        a == width * height,
{
    width * height
}

/// The area of a rectangle given as a pair of width and height.
pub fn rect_area(rectangle: (u32, u32)) -> (a: u32)
    requires
        rectangle.0 * rectangle.1 <= u32::MAX,
    ensures
        a == rectangle.0 * rectangle.1,
{
    rectangle.0 * rectangle.1
}

/// The area of a rectangle given as a struct.
pub fn rect_struct_area(rectangle: &Rectangle) -> (a: u32)
    requires
        rectangle.spec_area() <= u32::MAX,
    ensures
        a == rectangle.spec_area(),
{
    rectangle.width * rectangle.height
}

/// What the walk through struct values finds.
pub struct Users {
    /// The first user, as built.
    pub first: User,
    /// A second user, who takes every field but the address from the first.
    pub second: User,
    /// Black, as a `Color`.
    pub black: Color,
    /// The origin, as a `Point`.
    pub origin: Point,
    /// A value of the unit-like struct.
    pub subject: AlwaysEqual,
}

/// Builds a user, makes a second one from it by struct update, and makes one
/// value of each of the other kinds of struct.
pub fn users() -> (found: Users)
    ensures
        found.first.active,
        found.first.username@ == "someusername123"@,
        found.first.email@ == "someone@example.com"@,
        found.first.sign_in_count == 1,
        found.second.active,
        found.second.username@ == "someusername123"@,
        found.second.email@ == "another@example.com"@,
        found.second.sign_in_count == 1,
        found.black == Color(0, 0, 0),
        found.origin == Point(0, 0, 0),
{
    let user1 = build_user(
        String::from_str("someone@example.com"),
        String::from_str("someusername123"),
    );
    let first = User {
        active: user1.active,
        username: user1.username.clone(),
        email: user1.email.clone(),
        sign_in_count: user1.sign_in_count,
    };
    let user2 = User { email: String::from_str("another@example.com"), ..user1 };

    let black = Color(0, 0, 0);
    let origin = Point(0, 0, 0);
    let subject = AlwaysEqual;

    Users { first, second: user2, black, origin, subject }
}

/// What the walk through rectangles finds.
pub struct Rectangles {
    /// The area of 30 by 50, from two numbers.
    pub area_of_numbers: u32,
    /// The same area, from a pair.
    pub area_of_pair: u32,
    /// The rectangle of 30 by 50.
    pub rect: Rectangle,
    /// Its area, from a function that borrows it.
    pub area_of_struct: u32,
    /// Its area, from its own method.
    pub area_by_method: u32,
    /// Whether it has any width: the method.
    pub has_width: bool,
    /// Its width: the field.
    pub width: u32,
    /// Whether it holds a rectangle of 10 by 40.
    pub holds_smaller: bool,
    /// Whether it holds a rectangle of 60 by 45.
    pub holds_wider: bool,
    /// A square of side 10.
    pub square: Rectangle,
    /// The square's area.
    pub square_area: u32,
    /// Whether the first rectangle holds the square.
    pub holds_square: bool,
}

/// Measures one rectangle in four ways and tests what fits inside it.
pub fn example() -> (found: Rectangles)
    ensures
        found.area_of_numbers == 1500,
        found.area_of_pair == 1500,
        found.rect == (Rectangle { width: 30, height: 50 }),
        found.area_of_struct == 1500,
        found.area_by_method == 1500,
        found.has_width,
        found.width == 30,
        found.holds_smaller,
        !found.holds_wider,
        found.square == (Rectangle { width: 10, height: 10 }),
        found.square_area == 100,
        found.holds_square,
{
    let rect = Rectangle { width: 30, height: 50 };

    let width1: u32 = 30;
    let height1: u32 = 50;

    let area_of_numbers = area(width1, height1);
    let area_of_pair = rect_area((width1, height1));
    let area_of_struct = rect_struct_area(&rect);
    let area_by_method = rect.area();

    let has_width = rect.width();
    let width = rect.width;

    let rect1 = Rectangle { width: 30, height: 50 };
    let rect2 = Rectangle { width: 10, height: 40 };
    let rect3 = Rectangle { width: 60, height: 45 };

    let holds_smaller = rect1.can_hold(&rect2);
    let holds_wider = rect1.can_hold(&rect3);

    let square = Rectangle::square(10);
    let square_area = square.area();
    let holds_square = rect1.can_hold(&square);

    Rectangles {
        area_of_numbers,
        area_of_pair,
        rect,
        area_of_struct,
        area_by_method,
        has_width,
        width,
        holds_smaller,
        holds_wider,
        square,
        square_area,
        holds_square,
    }
}

} // verus!
