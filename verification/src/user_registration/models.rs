//! Sign-up requests, their validation, and registered users.

use std::borrow::Cow;
use validator::{ValidateEmail, ValidateLength, ValidateRange, ValidationError, ValidationErrors};
use vstd::prelude::*;

verus! {

/// A sign-up request.
#[derive(Debug, Clone)]
pub struct RegisterUser {
    pub name: String,
    pub email: String,
    pub age: u8,
}

/// A registered user.
#[derive(Debug, Clone)]
pub struct User {
    pub id: u64,
    pub name: String,
    pub email: String,
    pub age: u8,
}

impl User {
    /// A copy of this user.
    pub fn duplicate(&self) -> (r: User)
        ensures
            r == *self,
    {
        User { id: self.id, name: self.name.clone(), email: self.email.clone(), age: self.age }
    }
}

/// Whether the email validator accepts `email` (the HTML form rule for the
/// part before the last `@`, a host name, an internationalised host name or
/// a bracketed IP address after it, and length limits on both parts).
pub uninterp spec fn email_accepted(email: Seq<char>) -> bool;

/// `ValidateLength::validate_length` with the minimum `min` and no maximum.
/// Claimed (the crate counts a string's `chars`): the result is whether the
/// string has at least `min` characters.
#[verifier::external_body]
fn length_at_least(s: &String, min: u64) -> (r: bool)
    ensures
        r == (s@.len() >= min),
{
    s.validate_length(Some(min), None, None)
}

/// `ValidateEmail::validate_email`. Claimed: the result is `email_accepted`.
#[verifier::external_body]
fn email_is_valid(s: &String) -> (r: bool)
    ensures
        r == email_accepted(s@),
{
    s.validate_email()
}

/// `ValidateRange::validate_range` with the minimum `min` only. Claimed: the
/// result is whether `v` is at least `min`.
#[verifier::external_body]
fn at_least(v: u8, min: u8) -> (r: bool)
    ensures
        r == (v >= min),
{
    v.validate_range(Some(min), None, None, None)
}

/// The line that reports a failed rule of a field: the field, a colon and a
/// space, the rule's message.
pub open spec fn failure_line(field: Seq<char>, message: Seq<char>) -> Seq<char> {
    field + ": "@ + message
}

/// The report of a name that is too short.
pub open spec fn name_failure() -> Seq<char> {
    failure_line("name"@, "Name must be atleast three characters length"@)
}

/// The report of an email address that is refused.
pub open spec fn email_failure() -> Seq<char> {
    failure_line("email"@, "Invalid email address"@)
}

/// The report of an age under 18.
pub open spec fn age_failure() -> Seq<char> {
    failure_line("age"@, "Age must be at least 18"@)
}

/// `report` lists `lines`, one per line, in some order.
pub open spec fn report_lists(report: Seq<char>, lines: Seq<Seq<char>>) -> bool {
    exists|order: Seq<Seq<char>>| order.to_multiset() == lines.to_multiset() && report == join_lines(order)
}

/// A failed rule: the field, the rule's code, its message.
pub type Failure = (&'static str, &'static str, &'static str);

pub open spec fn failure_lines(failures: Seq<Failure>) -> Seq<Seq<char>> {
    failures.map_values(|f: Failure| failure_line(f.0@, f.2@))
}

/// The validator's report of failed rules: a `ValidationErrors` that holds,
/// for each failure, a `ValidationError` with its code and message under its
/// field, rendered by its `Display`. Claimed: with one failure per field,
/// the report is the lines `field: message`, joined by line breaks, in the
/// order in which the errors' hash map yields the fields, which is not
/// claimed.
#[verifier::external_body]
fn validation_report(failures: &Vec<Failure>) -> (r: String)
    requires
        forall|i: int, j: int| 0 <= i < j < failures@.len() ==> failures@[i].0@ != failures@[j].0@,
    ensures
        report_lists(r@, failure_lines(failures@)),
{
    let mut errors = ValidationErrors::new();
    for (field, code, message) in failures.iter() {
        errors.add(field, ValidationError::new(code).with_message(Cow::Borrowed(*message)));
    }
    errors.to_string()
}

/// Lines joined by line breaks.
pub open spec fn join_lines(lines: Seq<Seq<char>>) -> Seq<char>
    decreases lines.len(),
{
    if lines.len() == 0 {
        Seq::empty()
    } else if lines.len() == 1 {
        lines[0]
    } else {
        join_lines(lines.drop_last()) + "\n"@ + lines.last()
    }
}

impl RegisterUser {
    /// The name has at least three characters.
    pub open spec fn name_valid(&self) -> bool {
        self.name@.len() >= 3
    }

    pub open spec fn email_valid(&self) -> bool {
        email_accepted(self.email@)
    }

    /// The age is at least 18.
    pub open spec fn age_valid(&self) -> bool {
        self.age >= 18
    }

    pub open spec fn is_valid(&self) -> bool {
        self.name_valid() && self.email_valid() && self.age_valid()
    }

    /// The reports of the failed rules, in the order of the fields.
    pub open spec fn failures(&self) -> Seq<Seq<char>> {
        (if self.name_valid() {
            Seq::empty()
        } else {
            seq![name_failure()]
        }) + (if self.email_valid() {
            Seq::empty()
        } else {
            seq![email_failure()]
        }) + (if self.age_valid() {
            Seq::empty()
        } else {
            seq![age_failure()]
        })
    }

    /// Checks the request's rules: a name of at least three characters, an
    /// email address that the validator accepts, an age of at least 18. The
    /// error is the validator's report of each failed rule as
    /// `field: message`, one per line.
    pub fn validate(&self) -> (r: Result<(), String>)
        ensures
            r is Ok <==> self.is_valid(),
            r is Ok <==> (self.name@.len() >= 3 && email_accepted(self.email@) && self.age >= 18),
            r matches Err(m) ==> report_lists(m@, self.failures()),
    {
        let mut failures: Vec<Failure> = Vec::new();
        if !length_at_least(&self.name, 3) {
            failures.push(("name", "length", "Name must be atleast three characters length"));
        }
        if !email_is_valid(&self.email) {
            failures.push(("email", "email", "Invalid email address"));
        }
        if !at_least(self.age, 18) {
            failures.push(("age", "range", "Age must be at least 18"));
        }
        assert(failure_lines(failures@) =~= self.failures());
        if failures.len() == 0 {
            return Ok(());
        }
        proof {
            reveal_strlit("name");
            reveal_strlit("email");
            reveal_strlit("age");
        }
        Err(validation_report(&failures))
    }
}

} // verus!
