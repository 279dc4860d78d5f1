//! Fallible and bounded integer arithmetic: multiplication, absolute value,
//! sums over slices, and small recursive functions, each proved free of
//! overflow under its stated precondition.

use vstd::prelude::*;

verus! {

/// Mathematical factorial, the reference for `factorial`.
pub open spec fn fact(n: nat) -> nat
    decreases n,
{
    if n == 0 {
        1
    } else {
        n * fact((n - 1) as nat)
    }
}

/// Mathematical Fibonacci sequence, the reference for `fibonacci`.
pub open spec fn fib(n: nat) -> nat
    decreases n,
{
    if n == 0 {
        0
    } else if n == 1 {
        1
    } else {
        fib((n - 1) as nat) + fib((n - 2) as nat)
    }
}

/// Sum of a sequence of 32-bit integers, as an unbounded integer.
pub open spec fn seq_sum(s: Seq<i32>) -> int
    decreases s.len(),
{
    if s.len() == 0 {
        0
    } else {
        seq_sum(s.drop_last()) + s.last()
    }
}

/// Whether the character is a decimal digit.
pub open spec fn is_digit(c: char) -> bool {
    '0' <= c <= '9'
}

/// The numeric value of a decimal digit character.
pub open spec fn digit_val(c: char) -> int {
    c as int - '0' as int
}

/// The number denoted by a sequence of decimal digits, most significant
/// digit first.
pub open spec fn digits_val(s: Seq<char>) -> int
    decreases s.len(),
{
    if s.len() == 0 {
        0
    } else {
        digits_val(s.drop_last()) * 10 + digit_val(s.last())
    }
}

/// Whether every character of the sequence is a decimal digit.
pub open spec fn all_digits(s: Seq<char>) -> bool {
    forall|i: int| 0 <= i < s.len() ==> is_digit(s[i])
}

/// Whether the sequence starts with an explicit sign.
pub open spec fn has_sign(s: Seq<char>) -> bool {
    s.len() > 0 && (s[0] == '+' || s[0] == '-')
}

/// The digit portion of an integer literal: everything after the sign,
/// when there is one.
pub open spec fn lit_digits(s: Seq<char>) -> Seq<char> {
    if has_sign(s) {
        s.subrange(1, s.len() as int)
    } else {
        s
    }
}

/// Whether the sequence is a base-10 integer literal: an optional single
/// leading sign, then one or more digits, and nothing else. No
/// whitespace is accepted anywhere.
pub open spec fn valid_literal(s: Seq<char>) -> bool {
    lit_digits(s).len() > 0 && all_digits(lit_digits(s))
}

/// The number denoted by a base-10 integer literal.
pub open spec fn lit_val(s: Seq<char>) -> int {
    if s.len() > 0 && s[0] == '-' {
        -digits_val(lit_digits(s))
    } else {
        digits_val(lit_digits(s))
    }
}

/// Whether the sequence parses as an `i32`: a literal whose value is in
/// range of the type.
pub open spec fn parses(s: Seq<char>) -> bool {
    valid_literal(s) && i32::MIN <= lit_val(s) <= i32::MAX
}

/// The error text that `parse_number` reports for a sequence it
/// rejects: one message for a malformed literal, another for a
/// well-formed one whose value does not fit.
pub open spec fn parse_failure(s: Seq<char>) -> Seq<char> {
    if !valid_literal(s) {
        "invalid number literal"@
    } else {
        "number out of range"@
    }
}

/// Returns the product of the two operands.
pub fn multiply(a: i32, b: i32) -> (r: i32)
    requires
        i32::MIN <= a * b <= i32::MAX,
    ensures
        r == a * b,
{
    a * b
}

/// Returns the absolute value of `num`. The minimum value is excluded,
/// since its magnitude does not fit in the type.
pub fn get_absolute_value(num: i32) -> (r: i32)
    requires
        num != i32::MIN,
    ensures
        r == if num < 0 { -(num as int) } else { num as int },
{
    if num < 0 {
        -num
    } else {
        num
    }
}

proof fn lemma_fact_is_monotonic(i: nat, j: nat)
    ensures
        i <= j ==> fact(i) <= fact(j),
    decreases j,
{
    if j > 0 {
        lemma_fact_is_monotonic(i, (j - 1) as nat);
        assert(fact(j) == j * fact((j - 1) as nat));
        assert(fact((j - 1) as nat) <= j * fact((j - 1) as nat)) by (nonlinear_arith)
            requires
                j >= 1,
                fact((j - 1) as nat) >= 0,
        ;
    }
}

/// Computes the factorial of `n` recursively.
pub fn factorial(n: u32) -> (r: u32)
    requires
        fact(n as nat) <= u32::MAX,
    ensures
        r == fact(n as nat),
    decreases n,
{
    if n == 0 {
        1
    } else {
        proof {
            lemma_fact_is_monotonic((n - 1) as nat, n as nat);
        }
        let rest = factorial(n - 1);
        proof {
            assert(n * fact((n - 1) as nat) == fact(n as nat));
        }
        n * rest
    }
}

proof fn lemma_fib_is_monotonic(i: nat, j: nat)
    ensures
        i <= j ==> fib(i) <= fib(j),
    decreases j,
{
    if i < j && j >= 2 {
        lemma_fib_is_monotonic(i, (j - 1) as nat);
        lemma_fib_is_monotonic(i, (j - 2) as nat);
    }
}

/// Computes the `n`-th Fibonacci number recursively.
pub fn fibonacci(n: u32) -> (r: u32)
    requires
        fib(n as nat) <= u32::MAX,
    ensures
        r == fib(n as nat),
    decreases n,
{
    if n == 0 {
        0
    } else if n == 1 {
        1
    } else {
        proof {
            lemma_fib_is_monotonic((n - 1) as nat, n as nat);
            lemma_fib_is_monotonic((n - 2) as nat, n as nat);
        }
        let a = fibonacci(n - 1);
        let b = fibonacci(n - 2);
        a + b
    }
}

/// Sums the elements of a slice. The caller guarantees that the total
/// fits in the result type; partial sums are tracked in a wider
/// accumulator, so no intermediate overflow can occur.
pub fn sum(numbers: &[i32]) -> (r: i32)
    requires
        numbers@.len() <= 0xffff_ffff,
        i32::MIN <= seq_sum(numbers@) <= i32::MAX,
    ensures
        r == seq_sum(numbers@),
{
    let mut acc: i64 = 0;
    let mut i: usize = 0;
    let n = numbers.len();
    while i < n
        invariant
            0 <= i <= n,
            n == numbers@.len() <= 0xffff_ffff,
            acc == seq_sum(numbers@.subrange(0, i as int)),
            -(i as int * 0x8000_0000) <= acc <= i as int * 0x7fff_ffff,
        decreases n - i,
    {
        let x = numbers[i];
        proof {
            assert(numbers@.subrange(0, i + 1 as int).drop_last() =~= numbers@.subrange(
                0,
                i as int,
            ));
            assert(numbers@.subrange(0, i + 1 as int).last() == numbers@[i as int]);
        }
        acc = acc + x as i64;
        i = i + 1;
    }
    proof {
        assert(numbers@.subrange(0, n as int) =~= numbers@);
    }
    acc as i32
}

/// Parses a base-10 integer literal: an optional single leading `+` or
/// `-`, then one or more digits. Anything else is rejected, including
/// leading or trailing whitespace, and so is a well-formed literal
/// whose value does not fit in the result type; the two rejections
/// carry distinct messages.
pub fn parse_number(s: &str) -> (r: Result<i32, String>)
    ensures
        parses(s@) ==> (r matches Ok(v) && v == lit_val(s@)),
        !parses(s@) ==> (r matches Err(m) && m@ == parse_failure(s@)),
{
    let n = s.unicode_len();
    if n == 0 {
        return Err(String::from_str("invalid number literal"));
    }
    let first = s.get_char(0);
    let neg = first == '-';
    let off: usize = if first == '-' || first == '+' {
        1
    } else {
        0
    };
    if n == off {
        proof {
            assert(lit_digits(s@).len() == 0);
        }
        return Err(String::from_str("invalid number literal"));
    }
    let mut mag: u64 = 0;
    let mut overflow = false;
    let mut i: usize = off;
    while i < n
        invariant
            off <= i <= n,
            n == s@.len(),
            off == if has_sign(s@) {
                1int
            } else {
                0int
            },
            all_digits(s@.subrange(off as int, i as int)),
            !overflow ==> mag == digits_val(s@.subrange(off as int, i as int)) && mag
                <= 0xffff_ffffu64,
            overflow ==> digits_val(s@.subrange(off as int, i as int)) > 0xffff_ffff,
        decreases n - i,
    {
        let c = s.get_char(i);
        let cv = c as u32;
        if cv < 48 || cv > 57 {
            proof {
                assert('0' as u32 == 48 && '9' as u32 == 57);
                assert(!is_digit(s@[i as int]));
                assert(lit_digits(s@)[i - off] == s@[i as int]);
                assert(!all_digits(lit_digits(s@)));
            }
            return Err(String::from_str("invalid number literal"));
        }
        let d = (cv - 48) as u64;
        proof {
            assert('0' as u32 == 48);
            assert(d == digit_val(s@[i as int]));
            assert(s@.subrange(off as int, i + 1).drop_last() =~= s@.subrange(
                off as int,
                i as int,
            ));
            assert(s@.subrange(off as int, i + 1).last() == s@[i as int]);
        }
        if !overflow {
            mag = mag * 10 + d;
            if mag > 0xffff_ffff {
                overflow = true;
            }
        } else {
            proof {
                let prev = digits_val(s@.subrange(off as int, i as int));
                assert(digits_val(s@.subrange(off as int, i + 1)) == prev * 10 + d);
                assert(prev * 10 == prev + 9 * prev);
            }
        }
        i = i + 1;
    }
    proof {
        assert(lit_digits(s@) =~= s@.subrange(off as int, n as int));
        assert(valid_literal(s@));
        assert(s@[0] == first || !has_sign(s@));
    }
    let ghost dv = digits_val(lit_digits(s@));
    if overflow {
        proof {
            assert(dv > 0xffff_ffff);
        }
        return Err(String::from_str("number out of range"));
    }
    if neg {
        if mag > 2147483648u64 {
            Err(String::from_str("number out of range"))
        } else {
            Ok((-(mag as i64)) as i32)
        }
    } else {
        if mag > 2147483647u64 {
            Err(String::from_str("number out of range"))
        } else {
            Ok(mag as i32)
        }
    }
}

/// Parsing is a pure function of its input: the contract of
/// `parse_number` admits exactly one outcome for a given character
/// sequence, so re-running it on an identical input can yield nothing
/// but an identical result. The two results here are given as the
/// value or the message view that any two calls returned.
pub proof fn lemma_parse_number_deterministic(
    s: Seq<char>,
    r1: Result<i32, Seq<char>>,
    r2: Result<i32, Seq<char>>,
)
    requires
        parses(s) ==> (r1 matches Ok(v) && v == lit_val(s)),
        !parses(s) ==> (r1 matches Err(m) && m == parse_failure(s)),
        parses(s) ==> (r2 matches Ok(v) && v == lit_val(s)),
        !parses(s) ==> (r2 matches Err(m) && m == parse_failure(s)),
    ensures
        r1 == r2,
{
}

/// Parses the two operands of a division and rejects a zero divisor.
/// The first operand's parse failure is reported first, untouched; a
/// divisor of zero is reported only after both operands parse.
pub fn parse_division_operands(a: &str, b: &str) -> (r: Result<(i32, i32), String>)
    ensures
        !parses(a@) ==> (r matches Err(m) && m@ == parse_failure(a@)),
        parses(a@) && !parses(b@) ==> (r matches Err(m) && m@ == parse_failure(b@)),
        parses(a@) && parses(b@) && lit_val(b@) == 0 ==> (r matches Err(m) && m@
            == "division by zero"@),
        parses(a@) && parses(b@) && lit_val(b@) != 0 ==> (r matches Ok(p) && p.0 == lit_val(a@)
            && p.1 == lit_val(b@)),
{
    match parse_number(a) {
        Err(e) => Err(e),
        Ok(x) => match parse_number(b) {
            Err(e) => Err(e),
            Ok(y) => {
                if y == 0 {
                    Err(String::from_str("division by zero"))
                } else {
                    Ok((x, y))
                }
            },
        },
    }
}

/// Applies a binary operation, handed in as a closure, to the two
/// operands, and passes the closure's own contract through.
pub fn apply_operation<F: Fn(i32, i32) -> i32>(x: i32, y: i32, op: F) -> (r: i32)
    requires
        op.requires((x, y)),
    ensures
        op.ensures((x, y), r),
{
    op(x, y)
}

} // verus!
