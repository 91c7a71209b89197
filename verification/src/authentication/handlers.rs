//! What the authentication handlers decide. Each request handler reads from
//! and writes to the database; the steps between those reads and writes are
//! here, in the order the handler takes them.

use vstd::prelude::*;

use crate::authentication::auth::{
    access_token_for, expiry_after, expiry_error, expiry_representable, generate_jwt, hash_of,
    hash_password, hash_refresh_token, is_refresh_token, jwt_hs256, message_with_prefix,
    minutes_representable, password_matches, verify_password, verify_refresh_token_hash, Claims,
    MAX_SECRET_BYTES,
};
use crate::authentication::errors::AppError;
use crate::authentication::middleware::claims_as_issued;
use crate::authentication::models::{
    parse_uuid, uuid_parse, uuid_text, uuid_to_string, AuthResponse, NewUser, RegisterPayload,
    User,
};
use crate::text::{
    all_ascii, ascii_lowercase, contains_str, has_substring, occurs_at, to_lowercase, unicode_lowercase,
    utf8_len,
};

verus! {

/// The shortest password, in bytes, that registration takes.
pub const MIN_PASSWORD_BYTES: usize = 8;

/// The role of an account made by registration.
pub open spec fn registered_role() -> Seq<char> {
    "user"@
}

/// Registration, up to the insert: a password shorter than eight bytes is
/// refused; otherwise the password is hashed and the account to insert, with
/// the role `user`, is returned (hashing fails only for a password of more
/// than `0xFFFF_FFFF` bytes).
pub fn register_prepare(payload: &RegisterPayload) -> (r: Result<NewUser, AppError>)
    ensures
        utf8_len(payload.password@) < 8 ==> (r matches Err(AppError::BadRequest(m))
            && m@ == "Password too short (min 8)"@),
        8 <= utf8_len(payload.password@) <= MAX_SECRET_BYTES ==> r is Ok,
        utf8_len(payload.password@) >= 8 ==> match r {
            Ok(n) => {
                &&& n.name@ == payload.name@
                &&& n.email@ == payload.email@
                &&& n.role@ == registered_role()
                &&& hash_of(n.password_hash@, payload.password@)
            },
            Err(AppError::Internal(m)) => message_with_prefix(m@, "Failed to hash password: "@),
            Err(_) => false,
        },
{
    if payload.password.as_str().as_bytes().len() < MIN_PASSWORD_BYTES {
        return Err(AppError::BadRequest("Password too short (min 8)".to_owned()));
    }
    match hash_password(payload.password.as_str()) {
        Ok(h) => {
            let role = "user".to_owned();
            Ok(NewUser { name: payload.name.clone(), email: payload.email.clone(), password_hash: h, role })
        },
        Err(m) => Err(AppError::Internal(m)),
    }
}

/// A failed insert is a unique-key violation when the database's message,
/// in lower case, holds `unique`.
pub open spec fn is_unique_violation(database_message: Option<Seq<char>>) -> bool {
    match database_message {
        Some(m) => has_substring(unicode_lowercase(m), "unique"@),
        None => false,
    }
}

/// The email conflict that a failed insert becomes.
pub open spec fn is_conflict(r: AppError) -> bool {
    r matches AppError::Conflict(m) && m@ == "Email already exists"@
}

/// What `register_insert_failure` answers for a database message and a
/// failure's description.
pub open spec fn insert_failure_outcome(database_message: Option<Seq<char>>, description: Seq<char>, r: AppError) -> bool {
    &&& is_unique_violation(database_message) ==> is_conflict(r)
    &&& !is_unique_violation(database_message) ==> (r matches AppError::Internal(m) && m@ == description)
    &&& match database_message {
        Some(m) => all_ascii(m) ==> (is_conflict(r) == has_substring(ascii_lowercase(m), "unique"@)),
        None => true,
    }
}

/// The error that a failed insert of a new account becomes: a unique-key
/// violation reported by the database is a conflict on the email; any other
/// failure is internal, with the failure's description.
/// `database_message` is the database's own message, where the failure came
/// from the database.
pub fn register_insert_failure(database_message: Option<&str>, description: &str) -> (r: AppError)
    ensures
        is_unique_violation(
            match database_message {
                Some(m) => Some(m@),
                None => None,
            },
        ) ==> (r matches AppError::Conflict(m) && m@ == "Email already exists"@),
        !is_unique_violation(
            match database_message {
                Some(m) => Some(m@),
                None => None,
            },
        ) ==> (r matches AppError::Internal(m) && m@ == description@),
        insert_failure_outcome(
            match database_message {
                Some(m) => Some(m@),
                None => None,
            },
            description@,
            r,
        ),
{
    if let Some(m) = database_message {
        let lower = to_lowercase(m);
        if contains_str(lower.as_str(), "unique") {
            return AppError::Conflict("Email already exists".to_owned());
        }
    }
    AppError::Internal(description.to_owned())
}

/// A database message that holds `unique` in lower case makes the failed
/// insert an email conflict.
pub proof fn lower_case_unique_is_a_conflict(message: Seq<char>, description: Seq<char>, r: AppError)
    requires
        insert_failure_outcome(Some(message), description, r),
        all_ascii(message),
        has_substring(message, "unique"@),
    ensures
        is_conflict(r),
{
    reveal_strlit("unique");
    let i = choose|i: int| occurs_at(message, "unique"@, i);
    let lower = ascii_lowercase(message);
    assert(lower.subrange(i, i + 6) =~= "unique"@);
    assert(occurs_at(lower, "unique"@, i));
}

/// Whether a failed insert is an email conflict depends only on the
/// database message in lower case: two messages that lower-case alike are
/// both conflicts or neither.
pub proof fn conflict_depends_on_the_lower_case_text(
    first: Seq<char>,
    second: Seq<char>,
    first_description: Seq<char>,
    second_description: Seq<char>,
    first_r: AppError,
    second_r: AppError,
)
    requires
        insert_failure_outcome(Some(first), first_description, first_r),
        insert_failure_outcome(Some(second), second_description, second_r),
        unicode_lowercase(first) == unicode_lowercase(second),
    ensures
        is_conflict(first_r) <==> is_conflict(second_r),
{
}

/// What a successful login hands out, and the refresh-token hash to store
/// for the account.
#[derive(Debug)]
pub struct LoginGrant {
    pub user_id: u128,
    pub refresh_token_hash: String,
    pub response: AuthResponse,
}

/// Login refuses: no account has the email, or the password does not
/// match the account's hash.
pub open spec fn login_refused(user: Option<&User>, password: Seq<char>) -> bool {
    match user {
        None => true,
        Some(u) => !password_matches(u.password_hash@, password),
    }
}

/// Login's check of the account looked up by email: no account, or a
/// password that does not match, is unauthorized; otherwise the account.
pub fn login_authenticate<'a>(user: Option<&'a User>, password: &str) -> (r: Result<&'a User, AppError>)
    ensures
        login_refused(user, password@) ==> r matches Err(AppError::Unauthorized),
        !login_refused(user, password@) ==> (r matches Ok(u) && user == Some(u)),
{
    let u = match user {
        None => return Err(AppError::Unauthorized),
        Some(u) => u,
    };
    if !verify_password(u.password_hash.as_str(), password) {
        return Err(AppError::Unauthorized);
    }
    Ok(u)
}

/// What login hands the account `u`: an access token for its id and role
/// under `secret`, valid for `minutes`, and a fresh refresh token whose hash
/// is to be stored.
pub open spec fn grant_for(g: LoginGrant, u: User, secret: Seq<char>, minutes: i64) -> bool {
    &&& g.user_id == u.id
    &&& access_token_for(g.response.access_token@, secret, uuid_text(u.id), u.role@, minutes)
    &&& uuid_parse(uuid_text(u.id)) == Some(u.id)
    &&& is_refresh_token(g.response.refresh_token@)
    &&& hash_of(g.refresh_token_hash@, g.response.refresh_token@)
}

/// Login's tokens for an account whose password matched. It fails only
/// where the access token's expiry falls outside what a date-time can hold.
pub fn login_issue(user: &User, jwt_secret: &str, jwt_exp_minutes: i64) -> (r: Result<LoginGrant, AppError>)
    requires
        minutes_representable(jwt_exp_minutes),
    ensures
        match r {
            Ok(g) => grant_for(g, *user, jwt_secret@, jwt_exp_minutes),
            Err(AppError::Internal(m)) => m@ == expiry_error(),
            Err(_) => false,
        },
{
    let sub = uuid_to_string(user.id);
    let access_token = match generate_jwt(jwt_secret, sub.as_str(), user.role.as_str(), jwt_exp_minutes) {
        Ok(t) => t,
        Err(m) => return Err(AppError::Internal(m)),
    };
    let refresh_raw = crate::authentication::auth::generate_refresh_token();
    let refresh_hash = match hash_refresh_token(refresh_raw.as_str()) {
        Ok(h) => h,
        Err(m) => return Err(AppError::Internal(m)),
    };
    Ok(LoginGrant {
        user_id: user.id,
        refresh_token_hash: refresh_hash,
        response: AuthResponse { access_token, refresh_token: refresh_raw },
    })
}

/// Login, between looking up the account by email and storing the new
/// refresh-token hash: `login_authenticate`, then `login_issue`. The token
/// lifetime matters only once the password has matched.
pub fn login_decide(user: Option<&User>, password: &str, jwt_secret: &str, jwt_exp_minutes: i64) -> (r:
    Result<LoginGrant, AppError>)
    requires
        !login_refused(user, password@) ==> minutes_representable(jwt_exp_minutes),
    ensures
        (r matches Err(AppError::Unauthorized)) <==> login_refused(user, password@),
        !login_refused(user, password@) ==> match r {
            Ok(g) => grant_for(g, *user->Some_0, jwt_secret@, jwt_exp_minutes),
            Err(AppError::Internal(m)) => m@ == expiry_error(),
            Err(_) => false,
        },
{
    match login_authenticate(user, password) {
        Err(e) => Err(e),
        Ok(u) => login_issue(u, jwt_secret, jwt_exp_minutes),
    }
}

/// The refresh token of a refresh request: the request's `refresh_token`
/// member, where it is a string.
pub fn refresh_request_token(refresh_token_member: Option<&str>) -> (r: Result<String, AppError>)
    ensures
        match refresh_token_member {
            None => r matches Err(AppError::BadRequest(m)) && m@ == "Missing refresh_token"@,
            Some(t) => r matches Ok(s) && s@ == t@,
        },
{
    match refresh_token_member {
        None => Err(AppError::BadRequest("Missing refresh_token".to_owned())),
        Some(t) => Ok(t.to_owned()),
    }
}

/// The account holds a refresh-token hash that `token` matches.
pub open spec fn holds_refresh_token(u: User, token: Seq<char>) -> bool {
    match u.refresh_token_hash {
        Some(h) => password_matches(h@, token),
        None => false,
    }
}

/// The first account, in the given order, whose stored refresh-token hash
/// `token` matches.
pub fn first_refresh_token_owner(users: &Vec<User>, token: &str) -> (r: Option<usize>)
    ensures
        match r {
            Some(i) => {
                &&& i < users@.len()
                &&& holds_refresh_token(users@[i as int], token@)
                &&& forall|j: int| 0 <= j < i ==> !holds_refresh_token(#[trigger] users@[j], token@)
            },
            None => forall|j: int|
                0 <= j < users@.len() ==> !holds_refresh_token(#[trigger] users@[j], token@),
        },
{
    let mut i: usize = 0;
    while i < users.len()
        invariant
            i <= users@.len(),
            forall|j: int| 0 <= j < i ==> !holds_refresh_token(#[trigger] users@[j], token@),
        decreases users@.len() - i,
    {
        if let Some(h) = &users[i].refresh_token_hash {
            if verify_refresh_token_hash(h.as_str(), token) {
                return Some(i);
            }
        }
        i = i + 1;
    }
    None
}

/// Refresh refuses: no account holds a hash that the token matches.
pub open spec fn refresh_refused(users: Seq<User>, token: Seq<char>) -> bool {
    forall|j: int| 0 <= j < users.len() ==> !holds_refresh_token(#[trigger] users[j], token)
}

/// A refresh that found its account: which account, and the new refresh
/// token with the hash to store in place of the old one.
#[derive(Debug)]
pub struct RefreshRotation {
    pub user_index: usize,
    pub user_id: u128,
    pub refresh_token: String,
    pub refresh_token_hash: String,
}

/// Refresh, between reading the accounts that hold a refresh-token hash and
/// storing the new hash: the first account whose hash `token` matches gets a
/// fresh refresh token; if none matches, the request is unauthorized.
pub fn refresh_rotate(users: &Vec<User>, token: &str) -> (r: Result<RefreshRotation, AppError>)
    ensures
        (r matches Err(AppError::Unauthorized)) <==> refresh_refused(users@, token@),
        !refresh_refused(users@, token@) ==> r is Ok,
        r matches Ok(g) ==> {
            &&& g.user_index < users@.len()
            &&& g.user_id == users@[g.user_index as int].id
            &&& holds_refresh_token(users@[g.user_index as int], token@)
            &&& forall|j: int|
                0 <= j < g.user_index ==> !holds_refresh_token(#[trigger] users@[j], token@)
            &&& is_refresh_token(g.refresh_token@)
            &&& hash_of(g.refresh_token_hash@, g.refresh_token@)
        },
{
    let i: usize = match first_refresh_token_owner(users, token) {
        None => return Err(AppError::Unauthorized),
        Some(i) => i,
    };
    let new_refresh = crate::authentication::auth::generate_refresh_token();
    let new_hash = match hash_refresh_token(new_refresh.as_str()) {
        Ok(h) => h,
        Err(m) => return Err(AppError::Internal(m)),
    };
    Ok(RefreshRotation {
        user_index: i,
        user_id: users[i].id,
        refresh_token: new_refresh,
        refresh_token_hash: new_hash,
    })
}

/// Refresh, after the new hash is stored: an access token for the account,
/// handed out with the new refresh token.
pub fn refresh_finish(jwt_secret: &str, user: &User, jwt_exp_minutes: i64, rotation: RefreshRotation) -> (r:
    Result<AuthResponse, AppError>)
    requires
        minutes_representable(jwt_exp_minutes),
    ensures
        match r {
            Ok(a) => {
                &&& access_token_for(
                    a.access_token@,
                    jwt_secret@,
                    uuid_text(user.id),
                    user.role@,
                    jwt_exp_minutes,
                )
                &&& a.refresh_token@ == rotation.refresh_token@
            },
            Err(AppError::Internal(m)) => m@ == expiry_error(),
            Err(_) => false,
        },
{
    let sub = uuid_to_string(user.id);
    match generate_jwt(jwt_secret, sub.as_str(), user.role.as_str(), jwt_exp_minutes) {
        Ok(t) => Ok(AuthResponse { access_token: t, refresh_token: rotation.refresh_token }),
        Err(m) => Err(AppError::Internal(m)),
    }
}

/// The account id named by an access token's subject; a subject that is no
/// UUID is unauthorized.
pub fn me_user_id(claims: &Claims) -> (r: Result<u128, AppError>)
    ensures
        match uuid_parse(claims.sub@) {
            Some(id) => r matches Ok(x) && x == id,
            None => r matches Err(AppError::Unauthorized),
        },
{
    match parse_uuid(claims.sub.as_str()) {
        Some(id) => Ok(id),
        None => Err(AppError::Unauthorized),
    }
}

/// The account that `me` answers with; a missing one is not found.
pub fn me_found(user: Option<User>) -> (r: Result<User, AppError>)
    ensures
        match user {
            Some(u) => r matches Ok(x) && x == u,
            None => r matches Err(AppError::NotFound(m)) && m@ == "User not found"@,
        },
{
    match user {
        Some(u) => Ok(u),
        None => Err(AppError::NotFound("User not found".to_owned())),
    }
}

/// The members of `me`'s answer that come from the account (the answer also
/// carries the account's creation time, which the database keeps).
#[derive(Debug)]
pub struct MeProfile {
    pub id: u128,
    pub name: String,
    pub email: String,
    pub role: String,
}

/// `me`'s answer for an account: its id, name, email and role; never its
/// password or refresh-token hash.
pub fn me_profile(user: User) -> (r: MeProfile)
    ensures
        r.id == user.id,
        r.name == user.name,
        r.email == user.email,
        r.role == user.role,
{
    MeProfile { id: user.id, name: user.name, email: user.email, role: user.role }
}

/// Only an administrator may list the accounts.
pub fn require_admin(claims: &Claims) -> (r: Result<(), AppError>)
    ensures
        claims.role@ == "admin"@ ==> r is Ok,
        claims.role@ != "admin"@ ==> r matches Err(AppError::Unauthorized),
{
    let admin = "admin".to_owned();
    if claims.role == admin {
        Ok(())
    } else {
        Err(AppError::Unauthorized)
    }
}

/// A request that bears the access token of a login, and that is
/// authenticated under the same secret, names the account that logged in:
/// `me` looks up that account's id.
pub proof fn login_token_names_its_account(
    token: Seq<char>,
    secret: Seq<char>,
    id: u128,
    role: Seq<char>,
    minutes: i64,
    claims: Claims,
)
    requires
        access_token_for(token, secret, uuid_text(id), role, minutes),
        uuid_parse(uuid_text(id)) == Some(id),
        claims_as_issued(secret, token, claims),
    ensures
        uuid_parse(claims.sub@) == Some(id),
        claims.role@ == role,
{
    let now: int = choose|now: int|
        #![trigger expiry_after(now, minutes as int)]
        expiry_representable(now, minutes as int) && token
            == jwt_hs256(secret, uuid_text(id), role, expiry_after(now, minutes as int) as i64);
    let exp: i64 = expiry_after(now, minutes as int) as i64;
    assert(jwt_hs256(secret, uuid_text(id), role, exp) == token);
}

/// An account stored as registration prepared it logs in with the password
/// it registered with: login does not refuse it.
pub proof fn registered_password_logs_in(payload: RegisterPayload, prepared: NewUser, stored: User)
    requires
        password_matches(prepared.password_hash@, payload.password@),
        stored.password_hash@ == prepared.password_hash@,
    ensures
        !login_refused(Some(&stored), payload.password@),
{
}

/// Once the hash that a login or a refresh handed out is stored for an
/// account, a refresh with the refresh token handed out with it is not
/// refused.
pub proof fn issued_refresh_token_is_recognised(
    users: Seq<User>,
    i: int,
    refresh_token: Seq<char>,
    refresh_token_hash: Seq<char>,
)
    requires
        0 <= i < users.len(),
        password_matches(refresh_token_hash, refresh_token),
        users[i].refresh_token_hash matches Some(h) && h@ == refresh_token_hash,
    ensures
        !refresh_refused(users, refresh_token),
{
    assert(holds_refresh_token(users[i], refresh_token));
}

} // verus!
