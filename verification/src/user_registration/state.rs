//! The registered users, the counter that numbers new ones, and what the
//! registration handlers do to them.

use vstd::prelude::*;
use vstd::string::StringSliceAdditionalSpecFns;

use crate::text::{
    bytes_eq_ignore_ascii_case, bytes_match_ignoring_case, eq_ignore_ascii_case,
    ignoring_ascii_case_folds_only_letters,
};
use crate::user_registration::errors::AppError;
use crate::user_registration::models::{email_accepted, report_lists, RegisterUser, User};
use crate::user_registration::responses::ApiResponse;

verus! {

/// The service's users, in the order they registered, and the id that the
/// next one gets.
pub struct UserRegistry {
    pub(crate) next_id: u64,
    pub(crate) users: Vec<User>,
}

/// Two email addresses are the same once ASCII letters are folded to lower
/// case.
pub open spec fn same_email(a: Seq<char>, b: Seq<char>) -> bool {
    bytes_eq_ignore_ascii_case(vstd::utf8::encode_utf8(a), vstd::utf8::encode_utf8(b))
}

/// A user that passed the sign-up rules.
pub open spec fn user_valid(u: User) -> bool {
    u.name@.len() >= 3 && email_accepted(u.email@) && u.age >= 18
}

impl UserRegistry {
    pub closed spec fn spec_users(&self) -> Seq<User> {
        self.users@
    }

    pub closed spec fn spec_next_id(&self) -> u64 {
        self.next_id
    }

    /// Users are numbered 1, 2, 3, ... in the order they registered, and the
    /// next one gets the number after the last.
    pub open spec fn ids_sequential(&self) -> bool {
        &&& self.spec_next_id() == self.spec_users().len() + 1
        &&& forall|i: int|
            0 <= i < self.spec_users().len() ==> (#[trigger] self.spec_users()[i]).id == i + 1
    }

    /// No two users have the same email address, ignoring ASCII case.
    pub open spec fn emails_distinct(&self) -> bool {
        forall|i: int, j: int|
            0 <= i < j < self.spec_users().len() ==> !same_email(
                #[trigger] self.spec_users()[i].email@,
                #[trigger] self.spec_users()[j].email@,
            )
    }

    /// Every user passed the sign-up rules.
    pub open spec fn all_valid(&self) -> bool {
        forall|i: int| 0 <= i < self.spec_users().len() ==> user_valid(#[trigger] self.spec_users()[i])
    }

    /// No users yet; the first one gets id 1.
    pub fn new() -> (r: UserRegistry)
        ensures
            r.spec_users() == Seq::<User>::empty(),
            r.spec_next_id() == 1,
            r.ids_sequential(),
            r.emails_distinct(),
            r.all_valid(),
    {
        UserRegistry { next_id: 1, users: Vec::new() }
    }
}



/// The id after `id`, wrapping around at the top of `u64`.
pub open spec fn id_after(id: u64) -> u64 {
    if id == u64::MAX {
        0
    } else {
        (id + 1) as u64
    }
}

/// The user that a valid request becomes under `id`.
pub open spec fn user_from(payload: RegisterUser, id: u64) -> User {
    User { id, name: payload.name, email: payload.email, age: payload.age }
}

impl UserRegistry {
    /// The registry after adding the user made from `payload`.
    pub open spec fn spec_added(before: UserRegistry, after: UserRegistry, payload: RegisterUser) -> bool {
        &&& after.spec_users() == before.spec_users().push(user_from(payload, before.spec_next_id()))
        &&& after.spec_next_id() == id_after(before.spec_next_id())
    }

    fn add(&mut self, payload: RegisterUser) -> (r: ApiResponse<User>)
        ensures
            UserRegistry::spec_added(*old(self), *final(self), payload),
            r.state@ == "success"@,
            r.data == Some(user_from(payload, old(self).spec_next_id())),
    {
        let id: u64 = self.next_id;
        self.next_id = if self.next_id == u64::MAX {
            0
        } else {
            self.next_id + 1
        };
        let user = User { id, name: payload.name, email: payload.email, age: payload.age };
        self.users.push(user.duplicate());
        ApiResponse { state: "success".to_owned(), data: Some(user) }
    }

    /// One registration call: a refused one changes nothing and hands out no
    /// id; an accepted one hands out the counter's id, appends a user with
    /// that id, and moves the counter on by one (wrapping at the top of
    /// `u64`).
    pub open spec fn registry_step(before: UserRegistry, after: UserRegistry, handed: Option<u64>) -> bool {
        match handed {
            None => after == before,
            Some(id) => {
                &&& id == before.spec_next_id()
                &&& after.spec_next_id() == id_after(before.spec_next_id())
                &&& after.spec_users().len() == before.spec_users().len() + 1
                &&& after.spec_users().last().id == id
            },
        }
    }

    /// The answer to an accepted registration: the state `success` and the
    /// user made from `payload` under the id that was next.
    pub open spec fn accepted(before: UserRegistry, payload: RegisterUser, a: ApiResponse<User>) -> bool {
        a.state@ == "success"@ && a.data == Some(user_from(payload, before.spec_next_id()))
    }

    /// A refused request changes nothing and is answered with the
    /// validator's report of its failed rules.
    pub open spec fn refused_as_invalid(
        before: UserRegistry,
        after: UserRegistry,
        payload: RegisterUser,
        r: Result<ApiResponse<User>, AppError>,
    ) -> bool {
        after == before && (r matches Err(AppError::Validation(m)) && report_lists(m@, payload.failures()))
    }

    /// What every registration keeps: sequential ids (until the counter
    /// reaches the top of `u64`) and valid users.
    pub open spec fn keeps_invariants(before: UserRegistry, after: UserRegistry) -> bool {
        &&& before.ids_sequential() && before.spec_next_id() < u64::MAX ==> after.ids_sequential()
        &&& before.all_valid() ==> after.all_valid()
    }

    /// The id that a registration call handed out, if it accepted.
    pub open spec fn handed_out(r: Result<ApiResponse<User>, AppError>) -> Option<u64> {
        match r {
            Ok(a) => match a.data {
                Some(u) => Some(u.id),
                None => None,
            },
            Err(_) => None,
        }
    }

    /// The outcome of a plain registration: a valid request is added and
    /// accepted; an invalid one is refused.
    pub open spec fn registration_outcome(
        before: UserRegistry,
        after: UserRegistry,
        payload: RegisterUser,
        r: Result<ApiResponse<User>, AppError>,
    ) -> bool {
        &&& payload.is_valid() ==> (r matches Ok(a) && UserRegistry::spec_added(before, after, payload)
            && UserRegistry::accepted(before, payload, a))
        &&& !payload.is_valid() ==> UserRegistry::refused_as_invalid(before, after, payload, r)
        &&& UserRegistry::keeps_invariants(before, after)
        &&& UserRegistry::registry_step(before, after, UserRegistry::handed_out(r))
    }

    fn register_validated(&mut self, payload: RegisterUser) -> (r: Result<ApiResponse<User>, AppError>)
        ensures
            UserRegistry::registration_outcome(*old(self), *final(self), payload, r),
    {
        match payload.validate() {
            Err(m) => Err(AppError::Validation(m)),
            Ok(()) => {
                let a = self.add(payload);
                proof {
                    assert(user_valid(user_from(payload, old(self).spec_next_id())));
                    assert(forall|i: int| 0 <= i < old(self).spec_users().len() ==> #[trigger] self.spec_users()[i] == old(self).spec_users()[i]);
                }
                Ok(a)
            },
        }
    }

    /// Registers a valid request as a new user under the next id (JSON
    /// sign-up). An invalid request is refused with the validation report
    /// and changes nothing.
    pub fn register_json(&mut self, payload: RegisterUser) -> (r: Result<ApiResponse<User>, AppError>)
        ensures
            UserRegistry::registration_outcome(*old(self), *final(self), payload, r),
    {
        self.register_validated(payload)
    }

    /// Registers a request as the form route does; it takes the same JSON
    /// body and behaves as `register_json`.
    pub fn register_form(&mut self, payload: RegisterUser) -> (r: Result<ApiResponse<User>, AppError>)
        ensures
            UserRegistry::registration_outcome(*old(self), *final(self), payload, r),
    {
        self.register_validated(payload)
    }

    /// Some user already has `email`, ignoring ASCII case.
    pub open spec fn email_taken(&self, email: Seq<char>) -> bool {
        exists|i: int| 0 <= i < self.spec_users().len() && same_email(#[trigger] self.spec_users()[i].email@, email)
    }

    /// The outcome of a strict registration: an invalid request is refused;
    /// a valid one whose address is taken is refused as already registered
    /// and changes nothing; any other valid one is added and accepted.
    pub open spec fn unique_registration_outcome(
        before: UserRegistry,
        after: UserRegistry,
        payload: RegisterUser,
        r: Result<ApiResponse<User>, AppError>,
    ) -> bool {
        &&& !payload.is_valid() ==> UserRegistry::refused_as_invalid(before, after, payload, r)
        &&& payload.is_valid() && before.email_taken(payload.email@) ==> after == before
            && (r matches Err(AppError::Internal(m)) && m@ == "Email already registered"@)
        &&& payload.is_valid() && !before.email_taken(payload.email@) ==> (r matches Ok(a)
            && UserRegistry::spec_added(before, after, payload) && UserRegistry::accepted(before, payload, a))
    }

    /// Registers a valid request unless its email address is already taken,
    /// ignoring ASCII case; a taken address is an internal error that
    /// changes nothing and uses no id.
    pub fn register_json_unique(&mut self, payload: RegisterUser) -> (r: Result<ApiResponse<User>, AppError>)
        ensures
            !payload.is_valid() ==> UserRegistry::refused_as_invalid(*old(self), *final(self), payload, r),
            payload.is_valid() && old(self).email_taken(payload.email@) ==> *final(self) == *old(self)
                && (r matches Err(AppError::Internal(m)) && m@ == "Email already registered"@),
            payload.is_valid() && !old(self).email_taken(payload.email@) ==> (r matches Ok(a)
                && UserRegistry::spec_added(*old(self), *final(self), payload)
                && UserRegistry::accepted(*old(self), payload, a)),
            UserRegistry::keeps_invariants(*old(self), *final(self)),
            UserRegistry::registry_step(*old(self), *final(self), UserRegistry::handed_out(r)),
            old(self).emails_distinct() ==> final(self).emails_distinct(),
            UserRegistry::unique_registration_outcome(*old(self), *final(self), payload, r),
    {
        if let Err(m) = payload.validate() {
            return Err(AppError::Validation(m));
        }
        let mut i: usize = 0;
        while i < self.users.len()
            invariant
                i <= self.users@.len(),
                payload.is_valid(),
                *self == *old(self),
                forall|j: int| 0 <= j < i ==> !same_email(#[trigger] self.users@[j].email@, payload.email@),
            decreases self.users@.len() - i,
        {
            if eq_ignore_ascii_case(self.users[i].email.as_str(), payload.email.as_str()) {
                assert(same_email(self.spec_users()[i as int].email@, payload.email@));
                assert(old(self).email_taken(payload.email@));
                return Err(AppError::Internal("Email already registered".to_owned()));
            }
            i = i + 1;
        }
        assert(!old(self).email_taken(payload.email@));
        let a = self.add(payload);
        proof {
            assert(user_valid(user_from(payload, old(self).spec_next_id())));
            assert(forall|i: int| 0 <= i < old(self).spec_users().len() ==> #[trigger] self.spec_users()[i] == old(self).spec_users()[i]);
            if old(self).emails_distinct() {
                assert forall|i: int, j: int| 0 <= i < j < self.spec_users().len() implies !same_email(
                    #[trigger] self.spec_users()[i].email@,
                    #[trigger] self.spec_users()[j].email@,
                ) by {
                    if j == old(self).spec_users().len() {
                        assert(!same_email(old(self).spec_users()[i].email@, payload.email@));
                    }
                }
            }
        }
        Ok(a)
    }

    /// All users, in the order they registered.
    pub fn list_users(&self) -> (r: ApiResponse<Vec<User>>)
        ensures
            r.state@ == "ok"@,
            r.data matches Some(v) && v@ == self.spec_users(),
    {
        let mut v: Vec<User> = Vec::new();
        let mut i: usize = 0;
        while i < self.users.len()
            invariant
                i <= self.users@.len(),
                v@ == self.users@.subrange(0, i as int),
            decreases self.users@.len() - i,
        {
            v.push(self.users[i].duplicate());
            i = i + 1;
        }
        assert(v@ =~= self.users@);
        ApiResponse { state: "ok".to_owned(), data: Some(v) }
    }
}

proof fn counter_never_falls(regs: Seq<UserRegistry>, handed: Seq<Option<u64>>, a: int, b: int)
    requires
        regs.len() == handed.len() + 1,
        forall|m: int|
            0 <= m < handed.len() ==> UserRegistry::registry_step(regs[m], regs[m + 1], #[trigger] handed[m]),
        forall|m: int| 0 <= m < handed.len() ==> #[trigger] regs[m].spec_next_id() < u64::MAX,
        0 <= a <= b <= handed.len(),
    ensures
        regs[a].spec_next_id() <= regs[b].spec_next_id(),
    decreases b - a,
{
    if a < b {
        counter_never_falls(regs, handed, a, b - 1);
        assert(UserRegistry::registry_step(regs[b - 1], regs[b], handed[b - 1]));
        assert(regs[b - 1].spec_next_id() < u64::MAX);
    }
}

/// The ids that successive registration calls (of any of the three kinds)
/// hand out strictly increase, so no id is handed out twice, as long as the
/// counter has not reached the top of `u64`; with the counter of a new
/// registry, the first one is 1.
pub proof fn registered_ids_increase(regs: Seq<UserRegistry>, handed: Seq<Option<u64>>)
    requires
        regs.len() == handed.len() + 1,
        forall|m: int|
            0 <= m < handed.len() ==> UserRegistry::registry_step(regs[m], regs[m + 1], #[trigger] handed[m]),
        forall|m: int| 0 <= m < handed.len() ==> #[trigger] regs[m].spec_next_id() < u64::MAX,
    ensures
        forall|i: int, j: int|
            0 <= i < j < handed.len() && handed[i] is Some && handed[j] is Some ==> handed[i]->Some_0
                < handed[j]->Some_0,
        forall|i: int|
            0 <= i < handed.len() && regs[0].spec_next_id() == 1 && handed[i] is Some && (forall|m: int|
                0 <= m < i ==> handed[m] is None) ==> handed[i]->Some_0 == 1,
{
    assert forall|i: int, j: int|
        0 <= i < j < handed.len() && handed[i] is Some && handed[j] is Some implies handed[i]->Some_0
            < handed[j]->Some_0 by {
        assert(UserRegistry::registry_step(regs[i], regs[i + 1], handed[i]));
        assert(UserRegistry::registry_step(regs[j], regs[j + 1], handed[j]));
        assert(regs[i].spec_next_id() < u64::MAX);
        counter_never_falls(regs, handed, i + 1, j);
    }
    assert forall|i: int|
        0 <= i < handed.len() && regs[0].spec_next_id() == 1 && handed[i] is Some && (forall|m: int|
            0 <= m < i ==> handed[m] is None) implies handed[i]->Some_0 == 1 by {
        unchanged_while_refused(regs, handed, i);
        assert(UserRegistry::registry_step(regs[i], regs[i + 1], handed[i]));
    }
}

proof fn unchanged_while_refused(regs: Seq<UserRegistry>, handed: Seq<Option<u64>>, i: int)
    requires
        regs.len() == handed.len() + 1,
        forall|m: int|
            0 <= m < handed.len() ==> UserRegistry::registry_step(regs[m], regs[m + 1], #[trigger] handed[m]),
        0 <= i < handed.len(),
        forall|m: int| 0 <= m < i ==> handed[m] is None,
    ensures
        regs[i] == regs[0],
    decreases i,
{
    if i > 0 {
        unchanged_while_refused(regs, handed, i - 1);
        assert(handed[i - 1] is None);
        assert(UserRegistry::registry_step(regs[i - 1], regs[i], handed[i - 1]));
    }
}

/// Sign-up asks for a name of at least three characters, an email address
/// that the validator accepts and an age of at least 18, and nothing more:
/// such a request is registered as the next user, with the next id; a
/// younger applicant is refused and changes nothing.
pub proof fn adults_with_a_name_and_an_email_are_registered(
    before: UserRegistry,
    after: UserRegistry,
    payload: RegisterUser,
    r: Result<ApiResponse<User>, AppError>,
)
    requires
        UserRegistry::registration_outcome(before, after, payload, r),
    ensures
        payload.name@.len() >= 3 && email_accepted(payload.email@) && payload.age >= 18 ==> {
            &&& r matches Ok(a)
            &&& a.state@ == "success"@
            &&& a.data == Some(
                User {
                    id: before.spec_next_id(),
                    name: payload.name,
                    email: payload.email,
                    age: payload.age,
                },
            )
            &&& after.spec_users() == before.spec_users().push(
                User {
                    id: before.spec_next_id(),
                    name: payload.name,
                    email: payload.email,
                    age: payload.age,
                },
            )
        },
        payload.age < 18 ==> r is Err && after == before,
{
}

/// Strict sign-up tells addresses apart byte by byte, folding only ASCII
/// letters: a valid request whose address differs from every stored one
/// in its length or at some byte where the two are not the same letter is
/// registered as the next user.
pub proof fn addresses_that_differ_beyond_letter_case_are_free(
    before: UserRegistry,
    after: UserRegistry,
    payload: RegisterUser,
    r: Result<ApiResponse<User>, AppError>,
)
    requires
        UserRegistry::unique_registration_outcome(before, after, payload, r),
        payload.is_valid(),
        forall|j: int|
            0 <= j < before.spec_users().len() ==> {
                let stored = vstd::utf8::encode_utf8(#[trigger] before.spec_users()[j].email@);
                let asked = vstd::utf8::encode_utf8(payload.email@);
                stored.len() != asked.len() || exists|i: int|
                    0 <= i < stored.len() && !bytes_match_ignoring_case(stored[i], asked[i])
            },
    ensures
        r matches Ok(a) && UserRegistry::accepted(before, payload, a),
        UserRegistry::spec_added(before, after, payload),
{
    assert forall|j: int| 0 <= j < before.spec_users().len() implies !same_email(
        #[trigger] before.spec_users()[j].email@,
        payload.email@,
    ) by {
        ignoring_ascii_case_folds_only_letters(
            vstd::utf8::encode_utf8(before.spec_users()[j].email@),
            vstd::utf8::encode_utf8(payload.email@),
        );
    }
}

/// The form route registers as the JSON route does: from the same registry
/// and request, both leave the same users and counter behind, and both
/// accept with the same answer, or both refuse with a report of the same
/// failed rules (whose lines may come in another order).
pub proof fn form_registration_matches_json(
    before: UserRegistry,
    payload: RegisterUser,
    after_json: UserRegistry,
    r_json: Result<ApiResponse<User>, AppError>,
    after_form: UserRegistry,
    r_form: Result<ApiResponse<User>, AppError>,
)
    requires
        UserRegistry::registration_outcome(before, after_json, payload, r_json),
        UserRegistry::registration_outcome(before, after_form, payload, r_form),
    ensures
        after_json.spec_users() == after_form.spec_users(),
        after_json.spec_next_id() == after_form.spec_next_id(),
        r_json is Ok <==> r_form is Ok,
        r_json matches Ok(a) ==> (r_form matches Ok(b) && a.state@ == b.state@ && a.data == b.data),
        r_json matches Err(AppError::Validation(m)) ==> (r_form matches Err(AppError::Validation(n))
            && report_lists(m@, payload.failures()) && report_lists(n@, payload.failures())),
{
}

} // verus!
