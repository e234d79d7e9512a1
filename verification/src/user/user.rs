//! The request handlers that change one column of the caller's own row.

use vstd::prelude::*;
use vstd::utf8::encode_utf8;
use crate::auth::hashing::{check_password, new_password_hash, password_check, PasswordCheck};
use crate::auth::registration::{
    check_email,
    email_is_valid,
    find_password_flaw,
    hashes,
    password_flaw,
    MIN_USERNAME_BYTES,
};
use crate::flow::{run, Flow};
use crate::http::{HttpError, HttpReply};
use crate::model::User;
use crate::store::protocol::{Answer, Statement, UserField};
use crate::store::semantics::StoreState;

verus! {

/// The body of a request to change the password.
#[derive(Debug)]
pub struct ChangePassword {
    pub new_password: String,
    pub old_password: String,
}

/// The body of a request to change the e-mail address.
#[derive(Debug)]
pub struct ChangeEmail {
    pub new_email: String,
}

/// The body of a request to change the user name.
#[derive(Debug)]
pub struct ChangeUsername {
    pub new_username: String,
}

/// What a change of a column is answered with when the value is taken.
pub open spec fn refusal_when_taken(field: UserField) -> HttpError {
    match field {
        UserField::Username => HttpError::UsernameTaken,
        UserField::Email => HttpError::EmailTaken,
        UserField::Password => HttpError::UpdatePasswordFailed,
    }
}

/// What a change of a column is answered with when the store fails.
pub open spec fn refusal_when_failed(field: UserField) -> HttpError {
    match field {
        UserField::Username => HttpError::ChangeUsernameFailed,
        UserField::Email => HttpError::ChangeEmailFailed,
        UserField::Password => HttpError::UpdatePasswordFailed,
    }
}

/// What the store's answer to the change of a column comes to.
pub open spec fn profile_verdict(field: UserField, answer: Answer) -> HttpReply {
    match answer {
        Answer::Done => HttpReply::NoContent,
        Answer::UniqueViolation => HttpReply::Refused(refusal_when_taken(field)),
        _ => HttpReply::Refused(refusal_when_failed(field)),
    }
}

fn profile_reply(field: UserField, answer: &Answer) -> (reply: HttpReply)
    ensures
        reply == profile_verdict(field, *answer),
{
    match answer {
        Answer::Done => HttpReply::NoContent,
        Answer::UniqueViolation => HttpReply::Refused(
            match field {
                UserField::Username => HttpError::UsernameTaken,
                UserField::Email => HttpError::EmailTaken,
                UserField::Password => HttpError::UpdatePasswordFailed,
            },
        ),
        _ => HttpReply::Refused(
            match field {
                UserField::Username => HttpError::ChangeUsernameFailed,
                UserField::Email => HttpError::ChangeEmailFailed,
                UserField::Password => HttpError::UpdatePasswordFailed,
            },
        ),
    }
}

/// The one statement of a change to a profile.
#[derive(Debug)]
pub enum ProfileFlow {
    Update { id: u128, field: UserField, value: String },
    Finished(HttpReply),
}

impl Flow for ProfileFlow {
    type Outcome = HttpReply;

    open spec fn pending(&self) -> Option<Statement> {
        match *self {
            ProfileFlow::Update { id, field, value } => Some(
                Statement::UpdateUser { id, field, value },
            ),
            ProfileFlow::Finished(_) => None,
        }
    }

    open spec fn after(self, answer: Answer) -> Self {
        match self {
            ProfileFlow::Update { field, .. } => ProfileFlow::Finished(
                profile_verdict(field, answer),
            ),
            ProfileFlow::Finished(reply) => ProfileFlow::Finished(reply),
        }
    }

    open spec fn outcome(self) -> HttpReply {
        match self {
            ProfileFlow::Finished(reply) => reply,
            ProfileFlow::Update { field, .. } => HttpReply::Refused(refusal_when_failed(field)),
        }
    }

    open spec fn steps_left(&self) -> nat {
        match *self {
            ProfileFlow::Update { .. } => 1,
            ProfileFlow::Finished(_) => 0,
        }
    }

    proof fn lemma_progress(self, answer: Answer) {
    }

    fn request(&self) -> (statement: Option<Statement>) {
        match self {
            ProfileFlow::Update { id, field, value } => Some(
                Statement::UpdateUser { id: *id, field: *field, value: value.clone() },
            ),
            ProfileFlow::Finished(_) => None,
        }
    }

    fn resume(self, answer: Answer) -> (next: Self) {
        match self {
            ProfileFlow::Update { field, .. } => ProfileFlow::Finished(
                profile_reply(field, &answer),
            ),
            ProfileFlow::Finished(reply) => ProfileFlow::Finished(reply),
        }
    }

    fn finish(self) -> (outcome: HttpReply) {
        match self {
            ProfileFlow::Finished(reply) => reply,
            ProfileFlow::Update { field, .. } => HttpReply::Refused(
                match field {
                    UserField::Username => HttpError::ChangeUsernameFailed,
                    UserField::Email => HttpError::ChangeEmailFailed,
                    UserField::Password => HttpError::UpdatePasswordFailed,
                },
            ),
        }
    }
}

/// Against a store with no outage ahead, a column of an existing user is
/// rewritten unless another user holds the value in a unique column; then
/// the change is refused and nothing changes.
pub proof fn law_profile_update(store: StoreState, id: u128, field: UserField, value: String)
    requires
        store.budget is None,
    ensures
        ({
            let (end, flow) = run(store, ProfileFlow::Update { id, field, value });
            let t = store.tables;
            if t.has_user(id) && t.clashes(id, field, value@) {
                &&& end == store
                &&& flow.outcome() == HttpReply::Refused(refusal_when_taken(field))
            } else {
                &&& end == store.with_tables(t.with_user_field(id, field, value))
                &&& flow.outcome() == HttpReply::NoContent
            }
        }),
{
    reveal_with_fuel(run, 2);
}

/// Whatever the store does, a change to a profile rewrites at most the
/// one column, and rewrites it exactly when it answers `NoContent`.
pub proof fn law_profile_update_all_or_nothing(
    store: StoreState,
    id: u128,
    field: UserField,
    value: String,
)
    ensures
        ({
            let (end, flow) = run(store, ProfileFlow::Update { id, field, value });
            &&& end.saved == store.saved
            &&& end.next_id == store.next_id
            &&& if flow.outcome() == HttpReply::NoContent {
                end.tables == store.tables.with_user_field(id, field, value)
            } else {
                end.tables == store.tables
            }
        }),
{
    reveal_with_fuel(run, 2);
}

// ---- password ---------------------------------------------------------------

/// The first thing that is wrong with a request to change the password:
/// a weak new password, then an old password that does not match the
/// stored hash, then a new password that is the old one.
pub open spec fn password_change_flaw(user: User, payload: ChangePassword) -> Option<HttpError> {
    match password_flaw(payload.new_password@) {
        Some(flaw) => Some(HttpError::WeakNewPassword(flaw)),
        None => match password_check(payload.old_password@, user.password@) {
            PasswordCheck::Differs => Some(HttpError::WrongOldPassword),
            PasswordCheck::Unreadable => Some(HttpError::ChangePasswordFailed),
            PasswordCheck::Matches => if payload.old_password@ == payload.new_password@ {
                Some(HttpError::SamePassword)
            } else {
                None
            },
        },
    }
}

/// Finds the first thing that is wrong with a request to change the
/// password.
pub fn check_password_change(user: &User, payload: &ChangePassword) -> (flaw: Option<HttpError>)
    ensures
        flaw == password_change_flaw(*user, *payload),
{
    match find_password_flaw(payload.new_password.as_str()) {
        Some(flaw) => Some(HttpError::WeakNewPassword(flaw)),
        None => match check_password(payload.old_password.as_str(), user.password.as_str()) {
            PasswordCheck::Differs => Some(HttpError::WrongOldPassword),
            PasswordCheck::Unreadable => Some(HttpError::ChangePasswordFailed),
            PasswordCheck::Matches => if payload.old_password == payload.new_password {
                Some(HttpError::SamePassword)
            } else {
                None
            },
        },
    }
}

/// Where a change of password stands once the request has passed its
/// checks and the new password has been sent to be hashed.
pub open spec fn password_change_start(id: u128, password_hash: Option<String>) -> ProfileFlow {
    match password_hash {
        Some(value) => ProfileFlow::Update { id, field: UserField::Password, value },
        None => ProfileFlow::Finished(HttpReply::Refused(HttpError::ChangePasswordFailed)),
    }
}

/// Goes on with a change of password whose request has passed its checks.
pub fn password_change(id: u128, password_hash: Option<String>) -> (flow: ProfileFlow)
    ensures
        flow == password_change_start(id, password_hash),
{
    match password_hash {
        Some(value) => ProfileFlow::Update { id, field: UserField::Password, value },
        None => ProfileFlow::Finished(HttpReply::Refused(HttpError::ChangePasswordFailed)),
    }
}

/// Starts the handling of a request to change the password: a request
/// with a flaw is refused for its first flaw; otherwise the new password
/// is hashed and the change goes on with whatever the hashing gave.
pub fn change_password(user: &User, payload: ChangePassword) -> (flow: ProfileFlow)
    ensures
        match password_change_flaw(*user, payload) {
            Some(flaw) => flow == ProfileFlow::Finished(HttpReply::Refused(flaw)),
            None => exists|password_hash: Option<String>| #[trigger]
                hashes(password_hash, payload.new_password@) && flow == password_change_start(
                    user.id,
                    password_hash,
                ),
        },
{
    match check_password_change(user, &payload) {
        Some(flaw) => ProfileFlow::Finished(HttpReply::Refused(flaw)),
        None => {
            let password_hash = new_password_hash(payload.new_password.as_str());
            assert(hashes(password_hash, payload.new_password@));
            password_change(user.id, password_hash)
        },
    }
}

// ---- e-mail address ---------------------------------------------------------

/// Where a change of e-mail address starts: the address must differ from
/// the present one and have the form of one.
pub open spec fn change_email_start(user: User, payload: ChangeEmail) -> ProfileFlow {
    if user.email@ == payload.new_email@ {
        ProfileFlow::Finished(HttpReply::Refused(HttpError::SameEmail))
    } else if !email_is_valid(payload.new_email@) {
        ProfileFlow::Finished(HttpReply::Refused(HttpError::InvalidNewEmail))
    } else {
        ProfileFlow::Update { id: user.id, field: UserField::Email, value: payload.new_email }
    }
}

/// Starts the handling of a request to change the e-mail address.
pub fn change_email(user: &User, payload: ChangeEmail) -> (flow: ProfileFlow)
    ensures
        flow == change_email_start(*user, payload),
{
    if user.email == payload.new_email {
        ProfileFlow::Finished(HttpReply::Refused(HttpError::SameEmail))
    } else if !check_email(payload.new_email.as_str()) {
        ProfileFlow::Finished(HttpReply::Refused(HttpError::InvalidNewEmail))
    } else {
        ProfileFlow::Update { id: user.id, field: UserField::Email, value: payload.new_email }
    }
}

// ---- user name --------------------------------------------------------------

/// Where a change of user name starts: the name must differ from the
/// present one and be long enough.
pub open spec fn change_username_start(user: User, payload: ChangeUsername) -> ProfileFlow {
    if user.username@ == payload.new_username@ {
        ProfileFlow::Finished(HttpReply::Refused(HttpError::SameUsername))
    } else if encode_utf8(payload.new_username@).len() < MIN_USERNAME_BYTES {
        ProfileFlow::Finished(HttpReply::Refused(HttpError::NewUsernameTooShort))
    } else {
        ProfileFlow::Update { id: user.id, field: UserField::Username, value: payload.new_username }
    }
}

/// Starts the handling of a request to change the user name.
pub fn change_username(user: &User, payload: ChangeUsername) -> (flow: ProfileFlow)
    ensures
        flow == change_username_start(*user, payload),
{
    if user.username == payload.new_username {
        ProfileFlow::Finished(HttpReply::Refused(HttpError::SameUsername))
    } else if payload.new_username.as_str().as_bytes().len() < MIN_USERNAME_BYTES {
        ProfileFlow::Finished(HttpReply::Refused(HttpError::NewUsernameTooShort))
    } else {
        ProfileFlow::Update { id: user.id, field: UserField::Username, value: payload.new_username }
    }
}

} // verus!
