//! Validated construction of user records: domain checks on age and
//! email shape, short-circuiting record construction, access control,
//! and role-based permissions. A rejected input always comes back as a
//! classified error carrying a reason; nothing is swallowed.

use vstd::prelude::*;
use vstd::string::StrSliceExecFns;
use vstd::string::StringExecFns;
use crate::text::dec_rep;
use crate::text::u32_to_string;

verus! {

/// The role an account holds.
#[derive(Clone, Copy, PartialEq, Eq, Structural, Debug)]
pub enum Role {
    Admin,
    User,
    Guest,
}

/// A user record. An absent `age` or `email` means unknown, which is
/// distinct from a value that failed validation; the sentinel values 0
/// and the empty string are never used for absence.
pub struct User {
    pub name: String,
    pub age: Option<u32>,
    pub email: Option<String>,
    pub role: Role,
    pub active: bool,
}

/// A classified, recoverable rejection of an input against a domain
/// rule, carrying a human-readable reason.
pub enum ValidationError {
    InvalidAge(String),
    InvalidEmail(String),
}

/// The inclusive age range that validation accepts.
pub open spec fn age_in_range(age: int) -> bool {
    0 <= age <= 150
}

/// Checks that an age lies between 0 and 150 inclusive and returns it
/// as an unsigned quantity; anything outside comes back as
/// `InvalidAge`.
pub fn validate_age(age: i32) -> (r: Result<u32, ValidationError>)
    ensures
        age_in_range(age as int) ==> (r matches Ok(a) && a == age),
        !age_in_range(age as int) ==> (r matches Err(e) && e matches ValidationError::InvalidAge(m)
            && m@ == "age must be between 0 and 150"@),
{
    if 0 <= age && age <= 150 {
        Ok(age as u32)
    } else {
        Err(ValidationError::InvalidAge(String::from_str("age must be between 0 and 150")))
    }
}

/// The number of `@` characters in the sequence.
pub open spec fn at_count(s: Seq<char>) -> nat
    decreases s.len(),
{
    if s.len() == 0 {
        0
    } else {
        at_count(s.drop_last()) + if s.last() == '@' {
            1nat
        } else {
            0nat
        }
    }
}

/// The accepted email shape: exactly one `@`, neither first nor last,
/// so that both segments around it are non-empty.
pub open spec fn valid_email(s: Seq<char>) -> bool {
    s.len() > 0 && at_count(s) == 1 && s[0] != '@' && s[s.len() - 1] != '@'
}

/// Checks that a string has exactly one `@` with a non-empty segment on
/// each side, and returns the input unchanged; anything else comes back
/// as `InvalidEmail`.
pub fn validate_email(email: &str) -> (r: Result<String, ValidationError>)
    ensures
        valid_email(email@) ==> (r matches Ok(out) && out@ == email@),
        !valid_email(email@) ==> (r matches Err(e) && e matches ValidationError::InvalidEmail(m)
            && m@ == "email must have one @ with text on both sides"@),
{
    let n = email.unicode_len();
    let mut count: usize = 0;
    let mut i: usize = 0;
    while i < n
        invariant
            0 <= i <= n,
            n == email@.len(),
            count == at_count(email@.subrange(0, i as int)),
            count <= i,
        decreases n - i,
    {
        let c = email.get_char(i);
        proof {
            assert(email@.subrange(0, i + 1).drop_last() =~= email@.subrange(0, i as int));
            assert(email@.subrange(0, i + 1).last() == email@[i as int]);
        }
        if c == '@' {
            count = count + 1;
        }
        i = i + 1;
    }
    proof {
        assert(email@.subrange(0, n as int) =~= email@);
    }
    if n > 0 && count == 1 && email.get_char(0) != '@' && email.get_char(n - 1) != '@' {
        Ok(email.to_owned())
    } else {
        Err(
            ValidationError::InvalidEmail(
                String::from_str("email must have one @ with text on both sides"),
            ),
        )
    }
}

/// Builds a user record after validating its fields. The age is checked
/// before the email, and the first failure is returned unmodified; a
/// record is built only when both checks pass. A new record starts
/// active, with the ordinary role.
pub fn create_user_safe(name: &str, age: i32, email: &str) -> (r: Result<User, ValidationError>)
    ensures
        !age_in_range(age as int) ==> (r matches Err(e) && e matches ValidationError::InvalidAge(m)
            && m@ == "age must be between 0 and 150"@),
        age_in_range(age as int) && !valid_email(email@) ==> (r matches Err(e) && e matches
            ValidationError::InvalidEmail(m) && m@
            == "email must have one @ with text on both sides"@),
        age_in_range(age as int) && valid_email(email@) ==> (r matches Ok(u) && u.name@ == name@
            && u.age == Some(age as u32) && (u.email matches Some(e) && e@ == email@) && u.role
            is User && u.active),
{
    let checked_age = match validate_age(age) {
        Ok(a) => a,
        Err(e) => {
            return Err(e);
        },
    };
    let checked_email = match validate_email(email) {
        Ok(m) => m,
        Err(e) => {
            return Err(e);
        },
    };
    Ok(
        User {
            name: name.to_owned(),
            age: Some(checked_age),
            email: Some(checked_email),
            role: Role::User,
            active: true,
        },
    )
}

/// Looks a user up in the small fixed directory: id 1 is Alice, an
/// active administrator, and id 2 is Bob, an inactive guest; every
/// other id is unknown.
pub fn find_user(id: u32) -> (r: Option<User>)
    ensures
        id == 1 ==> (r matches Some(u) && u.name@ == "Alice"@ && u.age == Some(30u32) && (u.email
            matches Some(e) && e@ == "alice@example.com"@) && u.role is Admin && u.active),
        id == 2 ==> (r matches Some(u) && u.name@ == "Bob"@ && u.age == Some(41u32) && (u.email
            matches Some(e) && e@ == "bob@example.com"@) && u.role is Guest && !u.active),
        id != 1 && id != 2 ==> r is None,
{
    if id == 1 {
        Some(
            User {
                name: String::from_str("Alice"),
                age: Some(30),
                email: Some(String::from_str("alice@example.com")),
                role: Role::Admin,
                active: true,
            },
        )
    } else if id == 2 {
        Some(
            User {
                name: String::from_str("Bob"),
                age: Some(41),
                email: Some(String::from_str("bob@example.com")),
                role: Role::Guest,
                active: false,
            },
        )
    } else {
        None
    }
}

/// Decides whether a login may proceed: both credential fields must be
/// non-empty and the account must be active. The checks are ordered, so
/// missing credentials are reported before an inactive account.
pub fn check_access(username: &str, password: &str, is_active: bool) -> (r: &'static str)
    ensures
        username@.len() == 0 || password@.len() == 0 ==> r@ == "denied: missing credentials"@,
        username@.len() > 0 && password@.len() > 0 && !is_active ==> r@
            == "denied: account inactive"@,
        username@.len() > 0 && password@.len() > 0 && is_active ==> r@ == "access granted"@,
{
    if username.is_empty() || password.is_empty() {
        "denied: missing credentials"
    } else if !is_active {
        "denied: account inactive"
    } else {
        "access granted"
    }
}

/// Lists what a user may do. An inactive user may do nothing, whatever
/// the role; an active one gets read access, plus write access from the
/// ordinary role up, plus delete access as an administrator.
pub fn get_user_permissions(user: &User) -> (r: Vec<&'static str>)
    ensures
        !user.active ==> r@.len() == 0,
        user.active && user.role is Guest ==> r@.len() == 1 && r@[0]@ == "read"@,
        user.active && user.role is User ==> r@.len() == 2 && r@[0]@ == "read"@ && r@[1]@
            == "write"@,
        user.active && user.role is Admin ==> r@.len() == 3 && r@[0]@ == "read"@ && r@[1]@
            == "write"@ && r@[2]@ == "delete"@,
{
    let mut perms: Vec<&'static str> = Vec::new();
    if !user.active {
        return perms;
    }
    perms.push("read");
    match user.role {
        Role::Guest => {},
        Role::User => {
            perms.push("write");
        },
        Role::Admin => {
            perms.push("write");
            perms.push("delete");
        },
    }
    perms
}

/// The line that `process_user` builds: the name, a separator, and an
/// age note only when the age is known.
pub open spec fn user_line(u: User) -> Seq<char> {
    u.name@ + " - "@ + match u.age {
        Some(a) => " (age: "@ + dec_rep(a as nat) + ")"@,
        None => Seq::<char>::empty(),
    }
}

/// Formats a user as a single line: the name, then the age in
/// parentheses when it is known and nothing when it is not.
pub fn process_user(user: &User) -> (r: String)
    ensures
        r@ == user_line(*user),
{
    let mut s = user.name.clone();
    s.append(" - ");
    match &user.age {
        Some(a) => {
            s.append(" (age: ");
            let digits = u32_to_string(*a);
            s.append(digits.as_str());
            s.append(")");
        },
        None => {},
    }
    s
}

/// Whether the sequence ends in the `.txt` suffix.
pub open spec fn is_txt_name(s: Seq<char>) -> bool {
    s.len() >= 4 && s[s.len() - 4] == '.' && s[s.len() - 3] == 't' && s[s.len() - 2] == 'x' && s[
        s.len() - 1] == 't'
}

/// A stand-in for a file-processing step, kept deliberately free of any
/// real input or output: an empty name and a name without the `.txt`
/// suffix are rejected with distinct messages, and an accepted name
/// comes back wrapped in a fixed report line.
pub fn process_file(filename: &str) -> (r: Result<String, String>)
    ensures
        filename@.len() == 0 ==> (r matches Err(m) && m@ == "no file name given"@),
        filename@.len() > 0 && !is_txt_name(filename@) ==> (r matches Err(m) && m@
            == "unsupported file type"@),
        is_txt_name(filename@) ==> (r matches Ok(out) && out@ == "processed "@ + filename@),
{
    let n = filename.unicode_len();
    if n == 0 {
        return Err(String::from_str("no file name given"));
    }
    if n < 4 || filename.get_char(n - 4) != '.' || filename.get_char(n - 3) != 't'
        || filename.get_char(n - 2) != 'x' || filename.get_char(n - 1) != 't' {
        return Err(String::from_str("unsupported file type"));
    }
    let mut s = String::from_str("processed ");
    s.append(filename);
    Ok(s)
}

} // verus!
