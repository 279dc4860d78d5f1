//! Text helpers: decimal rendering of integers, greeting and label
//! construction, and small utilities over string slices. Every function
//! states its result exactly, as a sequence of characters.

use vstd::prelude::*;
use vstd::string::StrSliceExecFns;
use vstd::string::StringExecFns;

verus! {

/// The character for a single decimal digit.
pub open spec fn digit_char(d: nat) -> char {
    if d == 0 {
        '0'
    } else if d == 1 {
        '1'
    } else if d == 2 {
        '2'
    } else if d == 3 {
        '3'
    } else if d == 4 {
        '4'
    } else if d == 5 {
        '5'
    } else if d == 6 {
        '6'
    } else if d == 7 {
        '7'
    } else if d == 8 {
        '8'
    } else {
        '9'
    }
}

/// Decimal representation of a natural number, most significant digit
/// first, with no leading zeros (a lone zero for 0).
pub open spec fn dec_rep(n: nat) -> Seq<char>
    decreases n,
{
    if n < 10 {
        seq![digit_char(n)]
    } else {
        dec_rep(n / 10) + seq![digit_char(n % 10)]
    }
}

/// Decimal representation of an integer: a minus sign before the
/// magnitude for negative values.
pub open spec fn int_rep(i: int) -> Seq<char> {
    if i < 0 {
        seq!['-'] + dec_rep((-i) as nat)
    } else {
        dec_rep(i as nat)
    }
}

fn digit_str(d: u32) -> (r: &'static str)
    requires
        d < 10,
    ensures
        r@ == seq![digit_char(d as nat)],
{
    proof {
        reveal_strlit("0");
        reveal_strlit("1");
        reveal_strlit("2");
        reveal_strlit("3");
        reveal_strlit("4");
        reveal_strlit("5");
        reveal_strlit("6");
        reveal_strlit("7");
        reveal_strlit("8");
        reveal_strlit("9");
    }
    let r = match d {
        0 => "0",
        1 => "1",
        2 => "2",
        3 => "3",
        4 => "4",
        5 => "5",
        6 => "6",
        7 => "7",
        8 => "8",
        _ => "9",
    };
    proof {
        assert(r@ =~= seq![digit_char(d as nat)]);
    }
    r
}

/// Renders an unsigned number in decimal.
pub fn u32_to_string(n: u32) -> (r: String)
    ensures
        r@ == dec_rep(n as nat),
    decreases n,
{
    if n < 10 {
        String::from_str(digit_str(n))
    } else {
        let mut s = u32_to_string(n / 10);
        s.append(digit_str(n % 10));
        s
    }
}

/// Renders a signed number in decimal, with a leading minus sign when
/// it is negative.
pub fn i32_to_string(n: i32) -> (r: String)
    ensures
        r@ == int_rep(n as int),
{
    if n >= 0 {
        u32_to_string(n as u32)
    } else {
        let m: u32 = (-(n as i64)) as u32;
        proof {
            reveal_strlit("-");
            assert("-"@ =~= seq!['-']);
        }
        let mut s = String::from_str("-");
        let digits = u32_to_string(m);
        s.append(digits.as_str());
        s
    }
}

/// Builds the greeting for a name.
pub fn greet(name: &str) -> (r: String)
    ensures
        r@ == "Hello, "@ + name@ + "!"@,
{
    let mut s = String::from_str("Hello, ");
    s.append(name);
    s.append("!");
    s
}

/// The label that `create_user` builds: the name, then the age when one
/// is given, or a fixed note when none is.
pub open spec fn user_label(name: Seq<char>, age: Option<u32>) -> Seq<char> {
    match age {
        Some(a) => name + ", age "@ + dec_rep(a as nat),
        None => name + ", age unknown"@,
    }
}

/// Builds a one-line description of a user from a name and an optional
/// age; an absent age is reported as unknown, never as a number.
pub fn create_user(name: String, age: Option<u32>) -> (r: String)
    ensures
        r@ == user_label(name@, age),
{
    match age {
        Some(a) => {
            let mut s = name;
            s.append(", age ");
            let digits = u32_to_string(a);
            s.append(digits.as_str());
            s
        },
        None => {
            let mut s = name;
            s.append(", age unknown");
            s
        },
    }
}

/// Consumes the string and reports its length in characters.
pub fn take_ownership(s: String) -> (r: usize)
    ensures
        r == s@.len(),
{
    s.as_str().unicode_len()
}

/// Borrows the string and reports its length in characters.
pub fn borrow_string(s: &String) -> (r: usize)
    ensures
        r == s@.len(),
{
    s.as_str().unicode_len()
}

/// Appends a fixed marker to the borrowed string.
pub fn borrow_and_modify(s: &mut String)
    ensures
        final(s)@ == old(s)@ + " (modified)"@,
{
    s.append(" (modified)");
}

/// Returns the prefix of `s` before the first space: every character of
/// the result precedes any space, and the result either is all of `s`
/// or stops exactly at a space.
pub fn first_word<'a>(s: &'a str) -> (r: &'a str)
    ensures
        r@ == s@.subrange(0, r@.len() as int),
        forall|i: int| 0 <= i < r@.len() ==> s@[i] != ' ',
        r@.len() == s@.len() || s@[r@.len() as int] == ' ',
{
    let n = s.unicode_len();
    let mut i: usize = 0;
    while i < n && s.get_char(i) != ' '
        invariant
            0 <= i <= n,
            n == s@.len(),
            forall|j: int| 0 <= j < i ==> s@[j] != ' ',
        decreases n - i,
    {
        i = i + 1;
    }
    s.substring_char(0, i)
}

/// Returns the longer of the two string slices; on a tie, the first.
pub fn longest<'a>(x: &'a str, y: &'a str) -> (r: &'a str)
    ensures
        r@ == if x@.len() >= y@.len() {
            x@
        } else {
            y@
        },
{
    if x.unicode_len() >= y.unicode_len() {
        x
    } else {
        y
    }
}

} // verus!
