//! Password hashing (argon2, PHC strings), refresh tokens, and HS256 access
//! tokens carrying the user id, the role and an expiry time.

use argon2::password_hash::rand_core::OsRng;
use argon2::password_hash::SaltString;
use argon2::{Argon2, PasswordHash, PasswordHasher, PasswordVerifier};
use base64::engine::general_purpose::URL_SAFE_NO_PAD;
use base64::Engine;
use jsonwebtoken::{decode, encode, DecodingKey, EncodingKey, Header, Validation};
use rand::RngCore;
use serde_json::Value;
use time::OffsetDateTime;
use vstd::prelude::*;

use crate::text::{join2, starts_with, utf8_len};

verus! {

/// The claims that an access token carries.
#[derive(Debug, Clone)]
pub struct Claims {
    /// The user id, as text.
    pub sub: String,
    pub role: String,
    /// Expiry, in seconds since the Unix epoch.
    pub exp: i64,
}

impl Claims {
    pub open spec fn spec_eq(self, sub: Seq<char>, role: Seq<char>, exp: i64) -> bool {
        self.sub@ == sub && self.role@ == role && self.exp == exp
    }
}

/// Earliest Unix time that a date-time value can take (year -9999).
pub const MIN_UNIX_TIMESTAMP: i64 = -377705203200i64;

/// Latest Unix time that a date-time value can take (end of year 9999).
pub const MAX_UNIX_TIMESTAMP: i64 = 253402300799i64;

pub open spec fn timestamp_in_range(t: int) -> bool {
    MIN_UNIX_TIMESTAMP <= t <= MAX_UNIX_TIMESTAMP
}

/// `minutes` can be turned into a duration in seconds without overflow.
pub open spec fn minutes_representable(minutes: i64) -> bool {
    i64::MIN <= minutes * 60 <= i64::MAX
}

// ---------------------------------------------------------------------------
// Names for what the outside functions compute.

/// Whether argon2 (default parameters) accepts `password` against the PHC
/// string `hash`: the string parses as a password hash, and hashing the
/// password with the parameters and salt it records gives the output it
/// records.
pub uninterp spec fn argon2_accepts(hash: Seq<char>, password: Seq<char>) -> bool;

/// The HS256 token that `jsonwebtoken::encode` makes, under the default
/// header, from the claims `sub`, `role` and `exp` and the secret `secret`.
pub uninterp spec fn jwt_hs256(secret: Seq<char>, sub: Seq<char>, role: Seq<char>, exp: i64) -> Seq<char>;

/// The URL-safe base64 character for the six-bit value `v`.
pub open spec fn base64_url_char(v: int) -> char {
    if v < 26 {
        (65 + v) as char
    } else if v < 52 {
        (71 + v) as char
    } else if v < 62 {
        (v - 4) as char
    } else if v == 62 {
        '-'
    } else {
        '_'
    }
}

/// URL-safe base64 text, without padding, of `bytes`: each group of three
/// bytes becomes four characters of six bits each; a last group of one or
/// two bytes becomes two or three characters, its missing bits zero.
pub open spec fn base64_url_no_pad(b: Seq<u8>) -> Seq<char>
    decreases b.len(),
{
    if b.len() == 0 {
        Seq::empty()
    } else if b.len() == 1 {
        seq![base64_url_char((b[0] / 4) as int), base64_url_char((b[0] % 4) * 16)]
    } else if b.len() == 2 {
        seq![
            base64_url_char((b[0] / 4) as int),
            base64_url_char((b[0] % 4) * 16 + b[1] / 16),
            base64_url_char((b[1] % 16) * 4),
        ]
    } else {
        seq![
            base64_url_char((b[0] / 4) as int),
            base64_url_char((b[0] % 4) * 16 + b[1] / 16),
            base64_url_char((b[1] % 16) * 4 + b[2] / 64),
            base64_url_char((b[2] % 64) as int),
        ] + base64_url_no_pad(b.subrange(3, b.len() as int))
    }
}

/// The encoding has one character per six bits, rounded up, each of the
/// URL-safe alphabet.
pub proof fn lemma_base64_url_no_pad_shape(b: Seq<u8>)
    ensures
        base64_url_no_pad(b).len() == (4 * b.len() + 2) / 3,
        forall|i: int|
            0 <= i < base64_url_no_pad(b).len() ==> url_safe_base64_char(
                #[trigger] base64_url_no_pad(b)[i],
            ),
    decreases b.len(),
{
    if b.len() >= 3 {
        let rest = b.subrange(3, b.len() as int);
        lemma_base64_url_no_pad_shape(rest);
        let head = seq![
            base64_url_char((b[0] / 4) as int),
            base64_url_char((b[0] % 4) * 16 + b[1] / 16),
            base64_url_char((b[1] % 16) * 4 + b[2] / 64),
            base64_url_char((b[2] % 64) as int),
        ];
        assert(base64_url_no_pad(b) == head + base64_url_no_pad(rest));
        assert forall|i: int| 0 <= i < base64_url_no_pad(b).len() implies url_safe_base64_char(
            #[trigger] base64_url_no_pad(b)[i],
        ) by {
            if i >= 4 {
                assert(base64_url_no_pad(b)[i] == base64_url_no_pad(rest)[i - 4]);
            }
        }
    }
}

/// A character of the URL-safe base64 alphabet.
pub open spec fn url_safe_base64_char(c: char) -> bool {
    ('A' <= c && c <= 'Z') || ('a' <= c && c <= 'z') || ('0' <= c && c <= '9') || c == '-' || c
        == '_'
}

// ---------------------------------------------------------------------------
// Trusted items.

/// The longest secret, in bytes, that argon2 hashes.
pub const MAX_SECRET_BYTES: u64 = 0xFFFF_FFFFu64;

/// The start of every PHC string that argon2's defaults produce: the
/// Argon2id algorithm at version 19.
pub open spec fn argon2id_v19_prefix() -> Seq<char> {
    "$argon2id$v=19$"@
}

/// `SaltString::generate` on the operating system's generator, then
/// `Argon2::default().hash_password` on the UTF-8 bytes of `secret` and that
/// salt, the result rendered as its PHC string (`PasswordHash`'s `Display`),
/// an error as its message. Claimed:
/// - it succeeds exactly when the secret has at most `0xFFFF_FFFF` bytes
///   (the only check that can fail with a generated 16-byte salt and the
///   default parameters is the password-length check);
/// - the PHC string names Argon2id at version 19;
/// - the verification that `argon2_accepts` names accepts the string for
///   `secret` (the crate's `PasswordVerifier` re-hashes with the recorded
///   algorithm, version, parameters and salt, and compares the outputs).
/// The salt is random: which string comes back is not claimed.
#[verifier::external_body]
fn argon2_hash_with_fresh_salt(secret: &str) -> (r: Result<String, String>)
    ensures
        r is Ok <==> utf8_len(secret@) <= MAX_SECRET_BYTES,
        r matches Ok(h) ==> argon2_accepts(h@, secret@),
        r matches Ok(h) ==> starts_with(h@, argon2id_v19_prefix()),
{
    let salt = SaltString::generate(&mut OsRng);
    match Argon2::default().hash_password(secret.as_bytes(), &salt) {
        Ok(h) => Ok(h.to_string()),
        Err(e) => Err(e.to_string()),
    }
}

/// `PasswordHash::new` on `hash`, then, if it parsed,
/// `Argon2::default().verify_password` on the UTF-8 bytes of `secret`.
/// Claimed: the result is `argon2_accepts` of the two strings.
#[verifier::external_body]
fn argon2_verify_phc(hash: &str, secret: &str) -> (r: bool)
    ensures
        r == argon2_accepts(hash@, secret@),
{
    match PasswordHash::new(hash) {
        Ok(parsed) => Argon2::default().verify_password(secret.as_bytes(), &parsed).is_ok(),
        Err(_) => false,
    }
}

/// `OffsetDateTime::now_utc().unix_timestamp()`: the clock, in whole
/// seconds. Claimed: it lies in the years that a date-time can hold
/// (-9999 to 9999; the conversion from the system time panics rather than
/// return anything else, and no crate here turns on `large-dates`). Which
/// moment it is, is not claimed.
#[verifier::external_body]
fn clock_unix_timestamp() -> (r: i64)
    ensures
        timestamp_in_range(r as int),
{
    OffsetDateTime::now_utc().unix_timestamp()
}

/// `jsonwebtoken::encode` with `Header::default()` (HS256), the key
/// `EncodingKey::from_secret` of the secret's bytes, and a JSON object with
/// the members `sub`, `role` and `exp`. Claimed: it succeeds and gives
/// `jwt_hs256` of its arguments (the key family matches HS256, the JSON of
/// the header and of a string-keyed object always serialises, and HMAC
/// signing takes a key of any length).
#[verifier::external_body]
fn jwt_encode_hs256(secret: &str, sub: &str, role: &str, exp: i64) -> (r: Result<String, String>)
    ensures
        r is Ok,
        r->Ok_0@ == jwt_hs256(secret@, sub@, role@, exp),
{
    let mut claims = serde_json::Map::new();
    claims.insert("sub".to_string(), Value::from(sub));
    claims.insert("role".to_string(), Value::from(role));
    claims.insert("exp".to_string(), Value::from(exp));
    let key = EncodingKey::from_secret(secret.as_bytes());
    match encode(&Header::default(), &Value::Object(claims), &key) {
        Ok(t) => Ok(t),
        Err(e) => Err(e.to_string()),
    }
}

#[verifier::external_type_specification]
#[verifier::external_body]
pub struct ExHeader(Header);

/// A signature-checked token: its header, and its `sub`, `role` and `exp`
/// members where they are a string, a string and an `i64`.
#[derive(Debug)]
pub struct DecodedToken {
    pub header: Header,
    pub sub: Option<String>,
    pub role: Option<String>,
    pub exp: Option<i64>,
}

/// The members `sub`, `role` and `exp` of the payload of `token` (each where
/// it is a string, a string and an `i64`), if `token` is a well-formed HS256
/// token whose signature verifies under `secret` and whose payload is JSON;
/// otherwise the decoder's message.
pub uninterp spec fn jwt_signed_claims(secret: Seq<char>, token: Seq<char>) -> Result<
    (Option<Seq<char>>, Option<Seq<char>>, Option<i64>),
    Seq<char>,
>;

/// A passed signature check whose payload has these members.
pub open spec fn signed_ok(sub: Option<Seq<char>>, role: Option<Seq<char>>, exp: Option<i64>) -> Result<
    (Option<Seq<char>>, Option<Seq<char>>, Option<i64>),
    Seq<char>,
> {
    Ok((sub, role, exp))
}

/// A refused signature check, with the decoder's message.
pub open spec fn signed_err(message: Seq<char>) -> Result<
    (Option<Seq<char>>, Option<Seq<char>>, Option<i64>),
    Seq<char>,
> {
    Err(message)
}

pub open spec fn view_opt(s: Option<String>) -> Option<Seq<char>> {
    match s {
        Some(x) => Some(x@),
        None => None,
    }
}

/// `jsonwebtoken::decode` into a JSON value under `Validation::default()`
/// with the claim checks switched off (no required claims, no `exp` and no
/// `aud` check), so that only the token's form, its HS256 header and its
/// signature under `DecodingKey::from_secret` are checked; then the members
/// `sub`, `role` (`Value::as_str`) and `exp` (`Value::as_i64`), with the
/// header. This does not read the clock. Claimed: the members, or the
/// error's message, are `jwt_signed_claims` of the arguments; a token that
/// `jwt_hs256` made with the same secret passes, with the members it was
/// made from.
#[verifier::external_body]
fn jwt_decode_signed(secret: &str, token: &str) -> (r: Result<DecodedToken, String>)
    ensures
        r matches Ok(d) ==> jwt_signed_claims(secret@, token@) == signed_ok(
            view_opt(d.sub),
            view_opt(d.role),
            d.exp,
        ),
        r matches Err(m) ==> jwt_signed_claims(secret@, token@) == signed_err(m@),
        forall|sub: Seq<char>, role: Seq<char>, exp: i64|
            #[trigger] jwt_hs256(secret@, sub, role, exp) == token@ ==> {
                &&& r is Ok
                &&& (r matches Ok(d) ==> view_opt(d.sub) == Some(sub) && view_opt(d.role) == Some(role) && d.exp == Some(exp))
            },
{
    let mut checks = Validation::default();
    checks.required_spec_claims.clear();
    checks.validate_exp = false;
    checks.validate_aud = false;
    match decode::<Value>(token, &DecodingKey::from_secret(secret.as_bytes()), &checks) {
        Err(e) => Err(e.to_string()),
        Ok(d) => Ok(DecodedToken {
            sub: d.claims["sub"].as_str().map(|v| v.to_string()),
            role: d.claims["role"].as_str().map(|v| v.to_string()),
            exp: d.claims["exp"].as_i64(),
            header: d.header,
        }),
    }
}

/// Why the decoder refused a token, with its message.
#[derive(Debug)]
pub enum JwtRejection {
    /// The signature and claims were sound, but `exp` has passed (with a
    /// leeway of a minute).
    Expired(String),
    Rejected(String),
}

/// A payload whose `exp`, where it is an `i64`, is not negative.
pub open spec fn exp_not_negative(
    signed: Result<(Option<Seq<char>>, Option<Seq<char>>, Option<i64>), Seq<char>>,
) -> bool {
    match signed {
        Ok((_, _, Some(e))) => e >= 0,
        _ => true,
    }
}

/// `jsonwebtoken::decode` into a JSON value under `Validation::default()`
/// with its expiry check switched off (HS256 only, `exp` required, `aud`
/// refused) and the key `DecodingKey::from_secret`; only whether it accepts.
/// With the expiry check off the decoder does not read the clock: the
/// expiry is checked by `expiry_check_at`. Claimed: a token that
/// `jwt_hs256` made with the same secret, with an `exp` that is not
/// negative, is accepted (its header, signature and claims pass every
/// check of the decoder but the expiry, which is off); the decoder's
/// refusals are all `Rejected`; an accepted token's `exp`, where it is an
/// `i64`, is not negative (the decoder requires `exp` as an unsigned
/// number).
#[verifier::external_body]
fn jwt_check_claims(secret: &str, token: &str) -> (r: Result<(), JwtRejection>)
    ensures
        forall|sub: Seq<char>, role: Seq<char>, exp: i64|
            #[trigger] jwt_hs256(secret@, sub, role, exp) == token@ ==> (exp >= 0 ==> r is Ok),
        forall|sub: Seq<char>, role: Seq<char>, exp: i64|
            #[trigger] jwt_hs256(secret@, sub, role, exp) == token@ ==> (r is Err && exp >= 0
                ==> r->Err_0 is Expired),
        r matches Err(JwtRejection::Expired(m)) ==> m@ == "ExpiredSignature"@,
        r matches Err(e) ==> e is Rejected,
        r is Ok ==> exp_not_negative(jwt_signed_claims(secret@, token@)),
{
    let mut checks = Validation::default();
    checks.validate_exp = false;
    match decode::<Value>(token, &DecodingKey::from_secret(secret.as_bytes()), &checks) {
        Ok(_) => Ok(()),
        Err(e) => Err(JwtRejection::Rejected(e.to_string())),
    }
}

/// The decoder's leeway, in seconds, for a token's expiry.
pub const EXPIRY_LEEWAY: i64 = 60i64;

/// A token whose `exp` is not negative has expired at Unix time `now`:
/// `exp` lies more than the leeway before `now`.
pub open spec fn expired_at(exp: int, now: int) -> bool {
    0 <= exp && exp < now - EXPIRY_LEEWAY
}

/// The claim checks at Unix time `now`: a token whose `exp` (not negative)
/// has passed, with a minute of leeway, is refused as expired, with the
/// decoder's message for that error kind; otherwise the decoder's other
/// checks decide. The expiry is checked after the presence of `exp` (a
/// negative `exp` is missing to the decoder) and before the audience, as
/// the decoder orders its checks.
pub fn expiry_check_at(checked: Result<(), JwtRejection>, exp: i64, now: i64) -> (r: Result<
    (),
    JwtRejection,
>)
    ensures
        expired_at(exp as int, now as int) ==> (r matches Err(JwtRejection::Expired(m)) && m@
            == "ExpiredSignature"@),
        !expired_at(exp as int, now as int) ==> r == checked,
{
    if exp >= 0 && (exp as i128) < (now as i128) - (EXPIRY_LEEWAY as i128) {
        Err(JwtRejection::Expired("ExpiredSignature".to_owned()))
    } else {
        checked
    }
}

/// `OsRng.fill_bytes` on a buffer of 32 bytes: random bytes. Claimed: there
/// are 32 of them.
#[verifier::external_body]
fn os_random_32_bytes() -> (r: Vec<u8>)
    ensures
        r@.len() == 32,
{
    let mut buf = [0u8;32];
    rand::rngs::OsRng.fill_bytes(&mut buf);
    buf.to_vec()
}

/// `URL_SAFE_NO_PAD.encode`: URL-safe base64 without padding. Claimed: the
/// result is `base64_url_no_pad` of the bytes.
#[verifier::external_body]
fn encode_base64_url_no_pad(bytes: &[u8]) -> (r: String)
    ensures
        r@ == base64_url_no_pad(bytes@),
{
    URL_SAFE_NO_PAD.encode(bytes)
}

// ---------------------------------------------------------------------------
// Passwords and refresh tokens.

/// `password` matches the stored hash `hash`.
pub open spec fn password_matches(hash: Seq<char>, password: Seq<char>) -> bool {
    argon2_accepts(hash, password)
}

/// A message that begins with `prefix`.
pub open spec fn message_with_prefix(m: Seq<char>, prefix: Seq<char>) -> bool {
    exists|detail: Seq<char>| m == prefix + detail
}

/// `h` is a hash that argon2 made for `secret`: an Argon2id PHC string that
/// `secret` matches.
pub open spec fn hash_of(h: Seq<char>, secret: Seq<char>) -> bool {
    password_matches(h, secret) && starts_with(h, argon2id_v19_prefix())
}

/// The outcome of hashing `secret`, with `failure` as the start of an error
/// message: a hash of it when it has at most `0xFFFF_FFFF` bytes, and an
/// error otherwise.
pub open spec fn hashing_outcome(secret: Seq<char>, failure: Seq<char>, r: Result<String, String>) -> bool {
    &&& (r is Ok <==> utf8_len(secret) <= MAX_SECRET_BYTES)
    &&& (r matches Ok(h) ==> hash_of(h@, secret))
    &&& (r matches Err(m) ==> message_with_prefix(m@, failure))
}

fn hash_with_fresh_salt(secret: &str, failure: &str) -> (r: Result<String, String>)
    ensures
        hashing_outcome(secret@, failure@, r),
{
    match argon2_hash_with_fresh_salt(secret) {
        Ok(h) => Ok(h),
        Err(e) => {
            let m = join2(failure, e.as_str());
            assert(m@ == failure@ + e@);
            Err(m)
        },
    }
}

/// Hashes a password under a fresh random salt into an Argon2id PHC string;
/// this succeeds for every password of at most `0xFFFF_FFFF` bytes. A hash
/// that comes back verifies against the same password.
pub fn hash_password(password: &str) -> (r: Result<String, String>)
    ensures
        hashing_outcome(password@, "Failed to hash password: "@, r),
{
    hash_with_fresh_salt(password, "Failed to hash password: ")
}

/// Whether `password` matches `hash` under argon2's verification.
pub fn verify_password(hash: &str, password: &str) -> (r: bool)
    ensures
        r == password_matches(hash@, password@),
{
    argon2_verify_phc(hash, password)
}

/// Hashes a refresh token under a fresh random salt, as passwords are.
pub fn hash_refresh_token(token: &str) -> (r: Result<String, String>)
    ensures
        hashing_outcome(token@, "Failed to hash refresh token: "@, r),
{
    hash_with_fresh_salt(token, "Failed to hash refresh token: ")
}

/// Whether `token` matches the stored refresh-token hash `hash`.
pub fn verify_refresh_token_hash(hash: &str, token: &str) -> (r: bool)
    ensures
        r == password_matches(hash@, token@),
{
    argon2_verify_phc(hash, token)
}

/// The text of a refresh token made from 32 random bytes.
pub open spec fn is_refresh_token(t: Seq<char>) -> bool {
    exists|bytes: Seq<u8>| bytes.len() == 32 && t == base64_url_no_pad(bytes)
}

proof fn url_safe_text_is_ascii(t: Seq<char>)
    requires
        forall|i: int| 0 <= i < t.len() ==> url_safe_base64_char(#[trigger] t[i]),
    ensures
        utf8_len(t) == t.len(),
{
    assert(vstd::utf8::is_ascii_chars(t));
    vstd::utf8::is_ascii_chars_encode_utf8(t);
}

/// A new refresh token: 32 random bytes in URL-safe base64 without padding,
/// which is 43 characters (and 43 bytes).
pub fn generate_refresh_token() -> (r: String)
    ensures
        is_refresh_token(r@),
        r@.len() == 43,
        utf8_len(r@) == 43,
        forall|i: int| 0 <= i < r@.len() ==> url_safe_base64_char(#[trigger] r@[i]),
{
    let bytes = os_random_32_bytes();
    let t = encode_base64_url_no_pad(bytes.as_slice());
    assert(t@ == base64_url_no_pad(bytes@));
    proof {
        lemma_base64_url_no_pad_shape(bytes@);
        url_safe_text_is_ascii(t@);
    }
    t
}

// ---------------------------------------------------------------------------
// Access tokens.

/// The expiry `minutes` after `now`.
pub open spec fn expiry_after(now: int, minutes: int) -> int {
    now + 60 * minutes
}

/// A date-time at `now` can be moved on by `minutes`: both instants lie in
/// the years that a date-time can hold.
pub open spec fn expiry_representable(now: int, minutes: int) -> bool {
    timestamp_in_range(now) && timestamp_in_range(expiry_after(now, minutes))
}

/// The error of a token whose expiry no date-time can hold.
pub open spec fn expiry_error() -> Seq<char> {
    "Failed to generate JWT: "@ + "expiry out of range"@
}

/// `t` is an access token for `sub` and `role` under `secret`, expiring
/// `minutes` after some moment that a date-time can hold.
pub open spec fn access_token_for(
    t: Seq<char>,
    secret: Seq<char>,
    sub: Seq<char>,
    role: Seq<char>,
    minutes: i64,
) -> bool {
    exists|now: int|
        #![trigger expiry_after(now, minutes as int)]
        expiry_representable(now, minutes as int) && t == jwt_hs256(
            secret,
            sub,
            role,
            expiry_after(now, minutes as int) as i64,
        )
}

/// The access token issued at Unix time `now` for `user_id` and `role`,
/// valid for `minutes`; where `now` or the expiry falls outside the years
/// that a date-time can hold, the expiry error.
pub fn generate_jwt_at(secret: &str, user_id: &str, role: &str, minutes: i64, now: i64) -> (r:
    Result<String, String>)
    requires
        minutes_representable(minutes),
    ensures
        r is Err <==> !expiry_representable(now as int, minutes as int),
        r matches Ok(t) ==> t@ == jwt_hs256(
            secret@,
            user_id@,
            role@,
            expiry_after(now as int, minutes as int) as i64,
        ),
        r matches Err(m) ==> m@ == expiry_error(),
{
    let seconds: i64 = minutes * 60;
    if now < MIN_UNIX_TIMESTAMP || now > MAX_UNIX_TIMESTAMP || (seconds > 0 && now
        > MAX_UNIX_TIMESTAMP - seconds) || (seconds < 0 && now < MIN_UNIX_TIMESTAMP - seconds) {
        return Err(join2("Failed to generate JWT: ", "expiry out of range"));
    }
    let exp: i64 = now + seconds;
    match jwt_encode_hs256(secret, user_id, role, exp) {
        Ok(t) => Ok(t),
        Err(e) => Err(join2("Failed to generate JWT: ", e.as_str())),
    }
}

/// The access token for `user_id` and `role`, valid for `minutes` from now:
/// what `generate_jwt_at` gives for the clock's reading.
pub fn generate_jwt(secret: &str, user_id: &str, role: &str, minutes: i64) -> (r: Result<
    String,
    String,
>)
    requires
        minutes_representable(minutes),
    ensures
        r matches Ok(t) ==> access_token_for(t@, secret@, user_id@, role@, minutes),
        r matches Err(m) ==> m@ == expiry_error(),
        minutes == 0 ==> r is Ok,
{
    let now: i64 = clock_unix_timestamp();
    let r = generate_jwt_at(secret, user_id, role, minutes, now);
    proof {
        if r is Ok {
            assert(expiry_representable(now as int, minutes as int));
        }
    }
    r
}

/// A verified token: its header and its claims.
#[derive(Debug)]
pub struct TokenData {
    pub header: Header,
    pub claims: Claims,
}

/// The message of a token whose claims are not a string `sub`, a string
/// `role` and an `i64` `exp`.
pub open spec fn claims_shape_error() -> Seq<char> {
    "Invalid JWT: "@ + "claims of the wrong shape"@
}

/// The first step of `verify_jwt`, from the signature check's answer: a
/// token whose payload holds all three claims goes on to the claim checks;
/// one that lacks any is refused; a refusal keeps the decoder's message
/// after `Invalid JWT: `.
pub fn claims_from_signed(signed: Result<DecodedToken, String>) -> (r: Result<TokenData, String>)
    ensures
        match signed {
            Ok(d) => match (d.sub, d.role, d.exp) {
                (Some(s), Some(x), Some(e)) => r matches Ok(t) && t.claims.spec_eq(s@, x@, e) && t.header
                    == d.header,
                _ => r matches Err(m) && m@ == claims_shape_error(),
            },
            Err(m) => r matches Err(e) && e@ == "Invalid JWT: "@ + m@,
        },
{
    match signed {
        Ok(d) => match (d.sub, d.role, d.exp) {
            (Some(sub), Some(role), Some(exp)) => Ok(
                TokenData { header: d.header, claims: Claims { sub, role, exp } },
            ),
            _ => Err(join2("Invalid JWT: ", "claims of the wrong shape")),
        },
        Err(m) => Err(join2("Invalid JWT: ", m.as_str())),
    }
}

/// The last step of `verify_jwt`, from the claim checks' answer: the token
/// is accepted, or refused with the decoder's message after `Invalid JWT: `.
pub fn token_after_checks(token: TokenData, checked: Result<(), JwtRejection>) -> (r: Result<
    TokenData,
    String,
>)
    ensures
        match checked {
            Ok(()) => r == Ok::<_, String>(token),
            Err(JwtRejection::Expired(m)) => r matches Err(e) && e@ == "Invalid JWT: "@ + m@,
            Err(JwtRejection::Rejected(m)) => r matches Err(e) && e@ == "Invalid JWT: "@ + m@,
        },
{
    match checked {
        Ok(()) => Ok(token),
        Err(JwtRejection::Expired(m)) => Err(join2("Invalid JWT: ", m.as_str())),
        Err(JwtRejection::Rejected(m)) => Err(join2("Invalid JWT: ", m.as_str())),
    }
}

/// What verifying `token` under `secret` gave is faithful to how the token
/// was issued: if it was issued under `secret` for `sub`, `role` and `exp`,
/// an accepted token yields exactly those claims, and a refused one with a
/// non-negative `exp` was refused as expired.
pub open spec fn faithful_to_issued(secret: Seq<char>, token: Seq<char>, r: Result<TokenData, String>) -> bool {
    forall|sub: Seq<char>, role: Seq<char>, exp: i64|
        #[trigger] jwt_hs256(secret, sub, role, exp) == token ==> {
            &&& (r matches Ok(d) ==> d.claims.spec_eq(sub, role, exp))
            &&& (r is Err && exp >= 0 ==> r->Err_0@ == "Invalid JWT: ExpiredSignature"@)
        }
}

/// The signature check passed, but the payload lacks one of the three claims.
pub open spec fn lacks_a_claim(
    signed: Result<(Option<Seq<char>>, Option<Seq<char>>, Option<i64>), Seq<char>>,
) -> bool {
    match signed {
        Ok((s, x, e)) => s is None || x is None || e is None,
        Err(_) => false,
    }
}

/// What verifying `token` under `secret` at Unix time `now` gave, as far
/// as the time decides it: an accepted token has not expired at `now`; a
/// token whose signature verifies and whose payload holds the three claims
/// is refused as expired if its `exp` has passed at `now`; and a token
/// issued under `secret` (with an `exp` that is not negative) is accepted
/// with exactly its claims unless it has expired at `now`. Its role plays
/// no part.
pub open spec fn verdict_at(secret: Seq<char>, token: Seq<char>, now: int, r: Result<TokenData, String>) -> bool {
    &&& (r matches Ok(d) ==> !expired_at(d.claims.exp as int, now))
    &&& (jwt_signed_claims(secret, token) matches Ok((Some(_), Some(_), Some(e))) && expired_at(
        e as int,
        now,
    ) ==> (r matches Err(m) && m@ == "Invalid JWT: ExpiredSignature"@))
    &&& forall|sub: Seq<char>, role: Seq<char>, exp: i64|
        #[trigger] jwt_hs256(secret, sub, role, exp) == token && exp >= 0 ==> {
            &&& (expired_at(exp as int, now) ==> (r matches Err(m) && m@ == "Invalid JWT: ExpiredSignature"@))
            &&& (!expired_at(exp as int, now) ==> (r matches Ok(d) && d.claims.spec_eq(sub, role, exp)))
        }
}

/// The header and claims of `token` at Unix time `now`, if it is an HS256
/// token signed with `secret` whose claims hold a string `sub`, a string
/// `role` and an `exp` that has not passed at `now` (with a minute of
/// leeway). The signature and the claims' shape are checked first, then
/// the claims themselves. An accepted token yields its payload's members;
/// a token made by `generate_jwt` with the same secret gives back the
/// claims it was made from unless it has expired at `now`.
pub fn verify_jwt_at(secret: &str, token: &str, now: i64) -> (r: Result<TokenData, String>)
    ensures
        verdict_at(secret@, token@, now as int, r),
        faithful_to_issued(secret@, token@, r),
        r matches Ok(d) ==> jwt_signed_claims(secret@, token@) == signed_ok(
            Some(d.claims.sub@),
            Some(d.claims.role@),
            Some(d.claims.exp),
        ),
        r matches Ok(d) ==> d.claims.exp >= 0,
        r matches Err(m) ==> message_with_prefix(m@, "Invalid JWT: "@),
        jwt_signed_claims(secret@, token@) matches Err(m) ==> (r matches Err(e) && e@ == "Invalid JWT: "@
            + m),
        lacks_a_claim(jwt_signed_claims(secret@, token@)) ==> (r matches Err(m) && m@
            == claims_shape_error()),
{
    let signed = jwt_decode_signed(secret, token);
    let ghost gs = signed;
    let data = match claims_from_signed(signed) {
        Err(m) => {
            proof {
                match gs {
                    Ok(_) => assert(m@ == "Invalid JWT: "@ + "claims of the wrong shape"@),
                    Err(x) => assert(m@ == "Invalid JWT: "@ + x@),
                }
            }
            return Err(m);
        },
        Ok(d) => d,
    };
    let exp: i64 = data.claims.exp;
    let checked = jwt_check_claims(secret, token);
    let ghost gc = checked;
    let checked_now = expiry_check_at(checked, exp, now);
    let ghost gn = checked_now;
    let r = token_after_checks(data, checked_now);
    let ghost gr = r;
    proof {
        reveal_strlit("Invalid JWT: ");
        reveal_strlit("ExpiredSignature");
        reveal_strlit("Invalid JWT: ExpiredSignature");
        assert("Invalid JWT: "@ + "ExpiredSignature"@ =~= "Invalid JWT: ExpiredSignature"@);
        match gr {
            Err(m) => {
                match gn {
                    Ok(_) => {},
                    Err(JwtRejection::Expired(x)) => assert(m@ == "Invalid JWT: "@ + x@),
                    Err(JwtRejection::Rejected(x)) => assert(m@ == "Invalid JWT: "@ + x@),
                }
            },
            Ok(_) => {},
        }
    }
    r
}

/// The header and claims of `token` if it is an HS256 token signed with
/// `secret` whose claims hold a string `sub`, a string `role` and an
/// unexpired `exp`: what `verify_jwt_at` gives at the clock's reading. An
/// accepted token yields its payload's members; a token made by
/// `generate_jwt` with the same secret gives back the claims it was made
/// from, or is refused only because it has expired.
pub fn verify_jwt(secret: &str, token: &str) -> (r: Result<TokenData, String>)
    ensures
        exists|now: int| #[trigger] verdict_at(secret@, token@, now, r) && timestamp_in_range(now),
        faithful_to_issued(secret@, token@, r),
        r matches Ok(d) ==> jwt_signed_claims(secret@, token@) == signed_ok(
            Some(d.claims.sub@),
            Some(d.claims.role@),
            Some(d.claims.exp),
        ),
        r matches Ok(d) ==> d.claims.exp >= 0,
        r matches Err(m) ==> message_with_prefix(m@, "Invalid JWT: "@),
        jwt_signed_claims(secret@, token@) matches Err(m) ==> (r matches Err(e) && e@ == "Invalid JWT: "@
            + m),
        lacks_a_claim(jwt_signed_claims(secret@, token@)) ==> (r matches Err(m) && m@
            == claims_shape_error()),
{
    let now: i64 = clock_unix_timestamp();
    let r = verify_jwt_at(secret, token, now);
    assert(verdict_at(secret@, token@, now as int, r));
    r
}

/// A token issued at Unix time `issued` for `minutes` (a lifetime that is
/// not negative) is accepted by `verify_jwt_at` under the same secret at
/// every moment up to its expiry plus the leeway, with exactly the claims
/// it was issued with, and refused as expired at every later moment.
pub proof fn token_verifies_until_it_expires(
    secret: Seq<char>,
    sub: Seq<char>,
    role: Seq<char>,
    minutes: i64,
    issued: int,
    now: int,
    verified: Result<TokenData, String>,
)
    requires
        expiry_representable(issued, minutes as int),
        minutes >= 0,
        issued >= 0,
        verdict_at(secret, jwt_hs256(secret, sub, role, expiry_after(issued, minutes as int) as i64), now, verified),
    ensures
        now <= expiry_after(issued, minutes as int) + EXPIRY_LEEWAY ==> (verified matches Ok(d)
            && d.claims.spec_eq(sub, role, expiry_after(issued, minutes as int) as i64)),
        now > expiry_after(issued, minutes as int) + EXPIRY_LEEWAY ==> (verified matches Err(m) && m@
            == "Invalid JWT: ExpiredSignature"@),
{
    let exp: i64 = expiry_after(issued, minutes as int) as i64;
    assert(jwt_hs256(secret, sub, role, exp) == jwt_hs256(secret, sub, role, exp));
}

/// A token issued under `secret` whose expiry lies beyond every moment the
/// clock can read (plus the leeway) is accepted by `verify_jwt` with
/// exactly the claims it was issued with, whatever its role.
pub proof fn lasting_token_verifies_to_its_claims(
    secret: Seq<char>,
    token: Seq<char>,
    sub: Seq<char>,
    role: Seq<char>,
    exp: i64,
    verified: Result<TokenData, String>,
)
    requires
        token == jwt_hs256(secret, sub, role, exp),
        exp > MAX_UNIX_TIMESTAMP + EXPIRY_LEEWAY,
        exists|now: int| #[trigger] verdict_at(secret, token, now, verified) && timestamp_in_range(now),
    ensures
        verified matches Ok(d) && d.claims.spec_eq(sub, role, exp),
{
    let now = choose|now: int| #[trigger] verdict_at(secret, token, now, verified) && timestamp_in_range(now);
    assert(jwt_hs256(secret, sub, role, exp) == token);
    assert(!expired_at(exp as int, now));
}

/// An access token that `generate_jwt` issued for `sub` and `role` and
/// that `verify_jwt` then accepts under the same secret yields `sub`, `role`
/// and an expiry `minutes` after a moment that a date-time can hold.
pub proof fn issued_token_verifies_to_its_claims(
    token: Seq<char>,
    secret: Seq<char>,
    sub: Seq<char>,
    role: Seq<char>,
    minutes: i64,
    verified: Result<TokenData, String>,
)
    requires
        access_token_for(token, secret, sub, role, minutes),
        faithful_to_issued(secret, token, verified),
    ensures
        verified matches Ok(d) ==> {
            &&& d.claims.sub@ == sub
            &&& d.claims.role@ == role
            &&& exists|now: int|
                #![trigger expiry_after(now, minutes as int)]
                timestamp_in_range(now) && d.claims.exp == expiry_after(now, minutes as int)
        },
{
    let now: int = choose|now: int|
        #![trigger expiry_after(now, minutes as int)]
        expiry_representable(now, minutes as int) && token == jwt_hs256(
            secret,
            sub,
            role,
            expiry_after(now, minutes as int) as i64,
        );
    let exp: i64 = expiry_after(now, minutes as int) as i64;
    assert(jwt_hs256(secret, sub, role, exp) == token);
    if verified is Ok {
        assert(expiry_after(now, minutes as int) == exp);
    }
}

/// An access token issued for an expiry that is not before the Unix epoch
/// is refused by `verify_jwt` under the same secret only as expired.
pub proof fn issued_token_refused_only_as_expired(
    token: Seq<char>,
    secret: Seq<char>,
    sub: Seq<char>,
    role: Seq<char>,
    exp: i64,
    verified: Result<TokenData, String>,
)
    requires
        token == jwt_hs256(secret, sub, role, exp),
        exp >= 0,
        faithful_to_issued(secret, token, verified),
    ensures
        verified matches Err(m) ==> m@ == "Invalid JWT: ExpiredSignature"@,
{
    assert(jwt_hs256(secret, sub, role, exp) == token);
}

} // verus!
