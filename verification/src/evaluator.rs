//! Exhaustive dispatch over closed variant sets: review states,
//! messages, points and tuples, weekday lookup, age brackets, and
//! guarded numeric classification with inclusive range boundaries.

use vstd::prelude::*;
use vstd::string::StringExecFns;
use crate::text::i32_to_string;
use crate::text::int_rep;

verus! {

/// The review state of an item.
#[derive(Clone, Copy, PartialEq, Eq, Structural, Debug)]
pub enum Status {
    Pending,
    Approved,
    Rejected,
}

/// A message with per-variant payload.
pub enum Message {
    Quit,
    Move { x: i32, y: i32 },
    Write(String),
    ChangeColor(i32, i32, i32),
}

/// A point in the plane.
#[derive(Clone, Copy, PartialEq, Eq, Structural, Debug)]
pub struct Point {
    pub x: i32,
    pub y: i32,
}

/// Names a handful of small numbers and lumps the rest together.
pub fn process_number(value: i32) -> (r: &'static str)
    ensures
        value == 0 ==> r@ == "zero"@,
        value == 1 ==> r@ == "one"@,
        value == 2 ==> r@ == "two"@,
        value == 3 ==> r@ == "three"@,
        !(0 <= value <= 3) ==> r@ == "something else"@,
{
    match value {
        0 => "zero",
        1 => "one",
        2 => "two",
        3 => "three",
        _ => "something else",
    }
}

/// Gives each review state its short label.
pub fn process_status(status: Status) -> (r: &'static str)
    ensures
        status is Pending ==> r@ == "pending"@,
        status is Approved ==> r@ == "approved"@,
        status is Rejected ==> r@ == "rejected"@,
{
    match status {
        Status::Pending => "pending",
        Status::Approved => "approved",
        Status::Rejected => "rejected",
    }
}

/// Gives each review state its capitalised display name.
pub fn match_status(status: &Status) -> (r: &'static str)
    ensures
        status is Pending ==> r@ == "Pending"@,
        status is Approved ==> r@ == "Approved"@,
        status is Rejected ==> r@ == "Rejected"@,
{
    match status {
        Status::Pending => "Pending",
        Status::Approved => "Approved",
        Status::Rejected => "Rejected",
    }
}

/// Reports an optional number, rendering the value only when one is
/// present.
pub fn process_option(opt: Option<i32>) -> (r: String)
    ensures
        opt matches Some(n) ==> r@ == "value: "@ + int_rep(n as int),
        opt is None ==> r@ == "no value"@,
{
    match opt {
        Some(n) => {
            let mut s = String::from_str("value: ");
            let digits = i32_to_string(n);
            s.append(digits.as_str());
            s
        },
        None => String::from_str("no value"),
    }
}

/// Reports a fallible number, rendering the value on success and
/// passing the error text through on failure.
pub fn process_result(result: Result<i32, String>) -> (r: String)
    ensures
        result matches Ok(n) ==> r@ == "success: "@ + int_rep(n as int),
        result matches Err(e) ==> r@ == "error: "@ + e@,
{
    match result {
        Ok(n) => {
            let mut s = String::from_str("success: ");
            let digits = i32_to_string(n);
            s.append(digits.as_str());
            s
        },
        Err(e) => {
            let mut s = String::from_str("error: ");
            s.append(e.as_str());
            s
        },
    }
}

/// Places a point relative to the axes: the origin first, then either
/// axis, then everywhere else.
pub fn process_point(point: Point) -> (r: String)
    ensures
        point.x == 0 && point.y == 0 ==> r@ == "origin"@,
        point.x != 0 && point.y == 0 ==> r@ == "on the x axis"@,
        point.x == 0 && point.y != 0 ==> r@ == "on the y axis"@,
        point.x != 0 && point.y != 0 ==> r@ == "off the axes"@,
{
    if point.x == 0 && point.y == 0 {
        String::from_str("origin")
    } else if point.y == 0 {
        String::from_str("on the x axis")
    } else if point.x == 0 {
        String::from_str("on the y axis")
    } else {
        String::from_str("off the axes")
    }
}

/// Destructures a pair of numbers into a labelled rendering of both
/// components.
pub fn process_tuple(tuple: (i32, i32)) -> (r: String)
    ensures
        r@ == "first: "@ + int_rep(tuple.0 as int) + ", second: "@ + int_rep(tuple.1 as int),
{
    let (a, b) = tuple;
    let mut s = String::from_str("first: ");
    let first_digits = i32_to_string(a);
    s.append(first_digits.as_str());
    s.append(", second: ");
    let second_digits = i32_to_string(b);
    s.append(second_digits.as_str());
    s
}

/// Buckets a number with inclusive guard boundaries: negative, zero,
/// single digit up to 9, double digit up to 99, large from 100 on.
pub fn categorize_number(num: i32) -> (r: &'static str)
    ensures
        num < 0 ==> r@ == "negative"@,
        num == 0 ==> r@ == "zero"@,
        1 <= num <= 9 ==> r@ == "single digit"@,
        10 <= num <= 99 ==> r@ == "double digit"@,
        num >= 100 ==> r@ == "large"@,
{
    if num < 0 {
        "negative"
    } else if num == 0 {
        "zero"
    } else if num <= 9 {
        "single digit"
    } else if num <= 99 {
        "double digit"
    } else {
        "large"
    }
}

/// Buckets a number by coarse inclusive ranges, keeping negatives
/// apart rather than folding them into the largest bucket.
pub fn match_range(num: i32) -> (r: &'static str)
    ensures
        num < 0 ==> r@ == "negative"@,
        num == 0 ==> r@ == "zero"@,
        1 <= num <= 10 ==> r@ == "small"@,
        11 <= num <= 100 ==> r@ == "medium"@,
        num > 100 ==> r@ == "big"@,
{
    if num < 0 {
        "negative"
    } else {
        match num {
            0 => "zero",
            1..=10 => "small",
            11..=100 => "medium",
            _ => "big",
        }
    }
}

/// The line that `process_message` builds for each message variant.
pub open spec fn message_line(msg: Message) -> Seq<char> {
    match msg {
        Message::Quit => "quit"@,
        Message::Move { x, y } => "move to ("@ + int_rep(x as int) + ", "@ + int_rep(y as int)
            + ")"@,
        Message::Write(text) => "write: "@ + text@,
        Message::ChangeColor(red, green, blue) => "color ("@ + int_rep(red as int) + ", "@
            + int_rep(green as int) + ", "@ + int_rep(blue as int) + ")"@,
    }
}

/// Renders a message, including whatever payload its variant carries.
pub fn process_message(msg: Message) -> (r: String)
    ensures
        r@ == message_line(msg),
{
    match msg {
        Message::Quit => String::from_str("quit"),
        Message::Move { x, y } => {
            let mut s = String::from_str("move to (");
            let x_digits = i32_to_string(x);
            s.append(x_digits.as_str());
            s.append(", ");
            let y_digits = i32_to_string(y);
            s.append(y_digits.as_str());
            s.append(")");
            s
        },
        Message::Write(text) => {
            let mut s = String::from_str("write: ");
            s.append(text.as_str());
            s
        },
        Message::ChangeColor(red, green, blue) => {
            let mut s = String::from_str("color (");
            let red_digits = i32_to_string(red);
            s.append(red_digits.as_str());
            s.append(", ");
            let green_digits = i32_to_string(green);
            s.append(green_digits.as_str());
            s.append(", ");
            let blue_digits = i32_to_string(blue);
            s.append(blue_digits.as_str());
            s.append(")");
            s
        },
    }
}

/// Maps 1 through 7 to Monday through Sunday in that fixed order; any
/// other day number yields a distinct invalid marker, never a weekday.
pub fn get_weekday(day: u32) -> (r: &'static str)
    ensures
        day == 1 ==> r@ == "Monday"@,
        day == 2 ==> r@ == "Tuesday"@,
        day == 3 ==> r@ == "Wednesday"@,
        day == 4 ==> r@ == "Thursday"@,
        day == 5 ==> r@ == "Friday"@,
        day == 6 ==> r@ == "Saturday"@,
        day == 7 ==> r@ == "Sunday"@,
        !(1 <= day <= 7) ==> r@ == "invalid day"@,
{
    match day {
        1 => "Monday",
        2 => "Tuesday",
        3 => "Wednesday",
        4 => "Thursday",
        5 => "Friday",
        6 => "Saturday",
        7 => "Sunday",
        _ => "invalid day",
    }
}

/// Sorts an age into its bracket: child up to 12, teenager up to 17,
/// adult up to 64, senior from 65 on.
pub fn check_age(age: u32) -> (r: &'static str)
    ensures
        age <= 12 ==> r@ == "child"@,
        13 <= age <= 17 ==> r@ == "teenager"@,
        18 <= age <= 64 ==> r@ == "adult"@,
        age >= 65 ==> r@ == "senior"@,
{
    if age <= 12 {
        "child"
    } else if age <= 17 {
        "teenager"
    } else if age <= 64 {
        "adult"
    } else {
        "senior"
    }
}

/// Tells an even number from an odd one, for negatives as well.
pub fn is_even(num: i32) -> (r: &'static str)
    ensures
        num % 2 == 0 ==> r@ == "even"@,
        num % 2 != 0 ==> r@ == "odd"@,
{
    let m: u32 = if num >= 0 {
        num as u32
    } else {
        (-(num as i64)) as u32
    };
    proof {
        assert(num % 2 == 0 <==> m % 2 == 0) by {
            assert(num as int == if num >= 0 {
                m as int
            } else {
                -(m as int)
            });
        }
    }
    if m % 2 == 0 {
        "even"
    } else {
        "odd"
    }
}

/// Returns the inner number, which the caller must know is present.
pub fn unwrap_example(value: Option<i32>) -> (r: i32)
    requires
        value is Some,
    ensures
        value matches Some(v) ==> r == v,
{
    value.unwrap()
}

/// Resolves an optional number to the value it holds, or to zero when
/// it holds none.
pub fn option_methods(value: Option<i32>) -> (r: i32)
    ensures
        value matches Some(v) ==> r == v,
        value is None ==> r == 0,
{
    value.unwrap_or(0)
}

/// Resolves a fallible number to the value on success, or to -1 on any
/// failure.
pub fn result_methods(value: Result<i32, String>) -> (r: i32)
    ensures
        value matches Ok(v) ==> r == v,
        value is Err ==> r == -1,
{
    match value {
        Ok(v) => v,
        Err(_) => -1,
    }
}

} // verus!
