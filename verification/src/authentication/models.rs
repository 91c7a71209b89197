//! The records that the authentication service reads and writes.

use uuid::Uuid;
use vstd::prelude::*;

verus! {

/// The body of a registration request.
#[derive(Debug)]
pub struct RegisterPayload {
    pub name: String,
    pub email: String,
    pub password: String,
}

/// A stored account, as the handlers see it (the id as the 128-bit value of
/// its UUID).
#[derive(Debug)]
pub struct User {
    pub id: u128,
    pub name: String,
    pub email: String,
    pub password_hash: String,
    pub role: String,
    pub refresh_token_hash: Option<String>,
}

/// An account about to be stored.
#[derive(Debug)]
pub struct NewUser {
    pub name: String,
    pub email: String,
    pub password_hash: String,
    pub role: String,
}

/// The tokens handed to a client that has logged in or refreshed.
#[derive(Debug)]
pub struct AuthResponse {
    pub access_token: String,
    pub refresh_token: String,
}

/// The lower-case hexadecimal digit of `d` (0 to 15).
pub open spec fn hex_digit(d: int) -> char {
    if d < 10 {
        (48 + d) as char
    } else {
        (87 + d) as char
    }
}

/// Which of the 32 hexadecimal digits stands at position `i` of the
/// hyphenated text (positions 8, 13, 18 and 23 hold hyphens).
pub open spec fn digit_index(i: int) -> int {
    if i < 8 {
        i
    } else if i < 13 {
        i - 1
    } else if i < 18 {
        i - 2
    } else if i < 23 {
        i - 3
    } else {
        i - 4
    }
}

/// The `k`-th hexadecimal digit of `id`, most significant first.
pub open spec fn nibble(id: u128, k: int) -> int {
    (id as int / vstd::arithmetic::power::pow(16, (31 - k) as nat)) % 16
}

/// The hyphenated lower-case text of the UUID with value `id` (`Uuid`'s
/// `Display`): 32 hexadecimal digits, most significant first, in groups of
/// 8, 4, 4, 4 and 12 separated by hyphens.
pub open spec fn uuid_text(id: u128) -> Seq<char> {
    Seq::new(
        36,
        |i: int|
            if i == 8 || i == 13 || i == 18 || i == 23 {
                '-'
            } else {
                hex_digit(nibble(id, digit_index(i)))
            },
    )
}

/// The value of the UUID that `Uuid::parse_str` reads from `s`, if it reads one.
pub uninterp spec fn uuid_parse(s: Seq<char>) -> Option<u128>;

/// `Uuid::from_u128(id).to_string()`. Claimed: the result is `uuid_text`
/// of `id`, and `Uuid::parse_str` reads it back as `id` (the hyphenated form
/// is one that the parser accepts).
#[verifier::external_body]
pub(crate) fn uuid_to_string(id: u128) -> (r: String)
    ensures
        r@ == uuid_text(id),
        uuid_parse(r@) == Some(id),
{
    Uuid::from_u128(id).to_string()
}

/// `Uuid::parse_str(s)`, as the UUID's 128-bit value. Claimed: the result is
/// `uuid_parse` of `s`.
#[verifier::external_body]
pub(crate) fn parse_uuid(s: &str) -> (r: Option<u128>)
    ensures
        r == uuid_parse(s@),
{
    match Uuid::parse_str(s) {
        Ok(u) => Some(u.as_u128()),
        Err(_) => None,
    }
}

impl User {
    /// A copy of this account.
    pub fn duplicate(&self) -> (r: User)
        ensures
            r == *self,
    {
        User {
            id: self.id,
            name: self.name.clone(),
            email: self.email.clone(),
            password_hash: self.password_hash.clone(),
            role: self.role.clone(),
            refresh_token_hash: crate::text::copy_opt(&self.refresh_token_hash),
        }
    }
}

} // verus!
