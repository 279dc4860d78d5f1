//! The tagged value type at the core of the library: a closed sum over
//! text, numbers and booleans, classification over it, handling of
//! optional values, and two small containers.

use vstd::prelude::*;
use vstd::string::StrSliceExecFns;
use vstd::string::StringExecFns;

verus! {

/// A tagged value: exactly one of a fixed set of variants, immutable
/// once constructed, with no identity beyond structural equality.
pub enum Value {
    Text(String),
    Number(i32),
    Boolean(bool),
}

/// The label `process_value` gives a value. Text is judged by length,
/// short up to ten characters; a number gets its sign and, when it is
/// not zero, its parity; a boolean maps to its literal spelling.
pub open spec fn value_label(v: Value) -> Seq<char> {
    match v {
        Value::Text(s) => {
            if s@.len() == 0 {
                "empty"@
            } else if s@.len() <= 10 {
                "short"@
            } else {
                "long"@
            }
        },
        Value::Number(n) => {
            if n == 0 {
                "zero"@
            } else if n > 0 {
                if n % 2 == 0 {
                    "positive even"@
                } else {
                    "positive odd"@
                }
            } else {
                if (-(n as int)) % 2 == 0 {
                    "negative even"@
                } else {
                    "negative odd"@
                }
            }
        },
        Value::Boolean(b) => {
            if b {
                "true"@
            } else {
                "false"@
            }
        },
    }
}

/// Classifies a value by its variant: a length label for text, a sign
/// and parity label for a number, the literal spelling for a boolean.
pub fn process_value(value: Value) -> (r: String)
    ensures
        r@ == value_label(value),
{
    match value {
        Value::Text(s) => {
            let n = s.as_str().unicode_len();
            if n == 0 {
                String::from_str("empty")
            } else if n <= 10 {
                String::from_str("short")
            } else {
                String::from_str("long")
            }
        },
        Value::Number(n) => {
            if n == 0 {
                String::from_str("zero")
            } else if n > 0 {
                if n % 2 == 0 {
                    String::from_str("positive even")
                } else {
                    String::from_str("positive odd")
                }
            } else {
                let m: u32 = (-(n as i64)) as u32;
                if m % 2 == 0 {
                    String::from_str("negative even")
                } else {
                    String::from_str("negative odd")
                }
            }
        },
        Value::Boolean(b) => {
            if b {
                String::from_str("true")
            } else {
                String::from_str("false")
            }
        },
    }
}

/// Tells an absent value, an empty one, and a present one apart,
/// without ever treating the empty string as absence.
pub fn process_optional_value(value: Option<&str>) -> (r: &'static str)
    ensures
        value is None ==> r@ == "no value"@,
        (value matches Some(s) && s@.len() == 0) ==> r@ == "empty value"@,
        (value matches Some(s) && s@.len() > 0) ==> r@ == "has value"@,
{
    match value {
        None => "no value",
        Some(s) => {
            if s.is_empty() {
                "empty value"
            } else {
                "has value"
            }
        },
    }
}

/// Describes a slice by its length: empty, then small up to three
/// elements, medium up to ten, large beyond that.
pub fn analyze_data(data: &[i32]) -> (r: &'static str)
    ensures
        data@.len() == 0 ==> r@ == "empty"@,
        0 < data@.len() <= 3 ==> r@ == "small"@,
        3 < data@.len() <= 10 ==> r@ == "medium"@,
        data@.len() > 10 ==> r@ == "large"@,
{
    let n = data.len();
    if n == 0 {
        "empty"
    } else if n <= 3 {
        "small"
    } else if n <= 10 {
        "medium"
    } else {
        "large"
    }
}

/// The display name that the three optional parts resolve to: full name
/// first, then first name alone, then the username, then a fixed
/// fallback.
pub open spec fn display_name_of(
    first_name: Option<&str>,
    last_name: Option<&str>,
    username: Option<&str>,
) -> Seq<char> {
    if first_name is Some && last_name is Some {
        first_name->0@ + " "@ + last_name->0@
    } else if first_name is Some {
        first_name->0@
    } else if username is Some {
        username->0@
    } else {
        "Anonymous"@
    }
}

/// Resolves a display name from whatever parts are known, preferring
/// the fullest form and never inventing a part that is absent.
pub fn get_display_name(
    first_name: Option<&str>,
    last_name: Option<&str>,
    username: Option<&str>,
) -> (r: String)
    ensures
        r@ == display_name_of(first_name, last_name, username),
{
    match (first_name, last_name) {
        (Some(f), Some(l)) => {
            let mut s = String::from_str(f);
            s.append(" ");
            s.append(l);
            s
        },
        (Some(f), None) => String::from_str(f),
        (None, _) => {
            match username {
                Some(u) => String::from_str(u),
                None => String::from_str("Anonymous"),
            }
        },
    }
}

/// A container holding one value of any type.
pub struct Container<T> {
    value: T,
}

impl<T> Container<T> {
    /// The value the container holds.
    pub closed spec fn spec_value(&self) -> T {
        self.value
    }

    /// Wraps a value.
    pub fn new(value: T) -> (r: Container<T>)
        ensures
            r.spec_value() == value,
    {
        Container { value }
    }

    /// Borrows the held value.
    pub fn get_value(&self) -> (r: &T)
        ensures
            *r == self.spec_value(),
    {
        &self.value
    }
}

/// A bounded counter that steps from zero up to a fixed maximum.
pub struct Counter {
    count: usize,
    max: usize,
}

impl Counter {
    /// The counter's current position.
    pub closed spec fn spec_count(&self) -> usize {
        self.count
    }

    /// The bound the counter was created with.
    pub closed spec fn spec_max(&self) -> usize {
        self.max
    }

    /// Creates a counter at zero with the given bound.
    pub fn new(max: usize) -> (r: Counter)
        ensures
            r.spec_count() == 0,
            r.spec_max() == max,
    {
        Counter { count: 0, max }
    }

    /// Advances the counter and yields its new position, or nothing
    /// once the bound is reached; the bound never changes.
    pub fn advance(&mut self) -> (r: Option<usize>)
        ensures
            final(self).spec_max() == old(self).spec_max(),
            old(self).spec_count() < old(self).spec_max() ==> final(self).spec_count() == old(
                self,
            ).spec_count() + 1 && r == Some(final(self).spec_count()),
            old(self).spec_count() >= old(self).spec_max() ==> final(self).spec_count() == old(
                self,
            ).spec_count() && r is None,
    {
        if self.count < self.max {
            self.count = self.count + 1;
            Some(self.count)
        } else {
            None
        }
    }
}

} // verus!
