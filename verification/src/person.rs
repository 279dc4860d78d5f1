//! A small person record, constructed and updated through functions
//! whose contracts state every field of the result.

use vstd::prelude::*;
use vstd::string::StringExecFns;
use crate::text::dec_rep;
use crate::text::u32_to_string;

verus! {

/// A person: a name and an age.
#[derive(Clone, Debug)]
pub struct Person {
    pub name: String,
    pub age: u32,
}

/// Builds a person from its parts, handing ownership of the record to
/// the caller.
pub fn create_person(name: String, age: u32) -> (r: Person)
    ensures
        r.name@ == name@,
        r.age == age,
{
    Person { name, age }
}

/// Formats a borrowed person as the name followed by the age in
/// parentheses.
pub fn process_person(person: &Person) -> (r: String)
    ensures
        r@ == person.name@ + " ("@ + dec_rep(person.age as nat) + ")"@,
{
    let mut s = person.name.clone();
    s.append(" (");
    let digits = u32_to_string(person.age);
    s.append(digits.as_str());
    s.append(")");
    s
}

/// Replaces the person's age in place, leaving the name untouched.
pub fn update_person_age(person: &mut Person, new_age: u32)
    ensures
        final(person).age == new_age,
        final(person).name@ == old(person).name@,
{
    person.age = new_age;
}

} // verus!
