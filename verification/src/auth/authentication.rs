//! Login, and what a user is shown of its own account.

use vstd::prelude::*;
use vstd::string::StringExecFns;
use crate::auth::hashing::{check_password, password_check, PasswordCheck};
use crate::auth::jwt::{
    create_jwt_token,
    CredentialCodec,
    TokenError,
    TokenOrder,
    ACCESS_TOKEN_SECS,
    MIN_KEY_BYTES,
    REFRESH_TOKEN_SECS,
};
use crate::flow::{run, Flow};
use crate::http::{HttpError, HttpReply, NormalizedUser};
use crate::model::User;
use crate::store::protocol::{Answer, Statement};
use crate::store::semantics::StoreState;

verus! {

/// What the cookie that carries the refresh token starts with.
pub const REFRESH_COOKIE_PREFIX: &'static str = "Chat-Refresh=";

/// The body of a request to log in.
#[derive(Debug)]
pub struct LoginDto {
    pub email: String,
    pub password: String,
}

/// The user that a login was granted to.
#[derive(Debug)]
pub struct LoginGrant {
    pub user_id: u128,
    pub username: String,
}

/// What the row found for an e-mail address, and the password offered,
/// come to.
pub open spec fn login_verdict(password: Seq<char>, answer: Answer) -> Result<LoginGrant, HttpError> {
    match answer {
        Answer::User(user) => match password_check(password, user.password@) {
            PasswordCheck::Matches => Ok(LoginGrant { user_id: user.id, username: user.username }),
            PasswordCheck::Differs => Err(HttpError::BadCredentials),
            PasswordCheck::Unreadable => Err(HttpError::Internal),
        },
        Answer::NoRow => Err(HttpError::BadCredentials),
        _ => Err(HttpError::Internal),
    }
}

/// The stages of a login, up to the point where tokens are issued.
#[derive(Debug)]
pub enum LoginFlow {
    FindUser { email: String, password: String },
    Finished(Result<LoginGrant, HttpError>),
}

impl Flow for LoginFlow {
    type Outcome = Result<LoginGrant, HttpError>;

    open spec fn pending(&self) -> Option<Statement> {
        match *self {
            LoginFlow::FindUser { email, .. } => Some(Statement::UserByEmail { email }),
            LoginFlow::Finished(_) => None,
        }
    }

    open spec fn after(self, answer: Answer) -> Self {
        match self {
            LoginFlow::FindUser { password, .. } => LoginFlow::Finished(
                login_verdict(password@, answer),
            ),
            LoginFlow::Finished(verdict) => LoginFlow::Finished(verdict),
        }
    }

    open spec fn outcome(self) -> Result<LoginGrant, HttpError> {
        match self {
            LoginFlow::Finished(verdict) => verdict,
            _ => Err(HttpError::Internal),
        }
    }

    open spec fn steps_left(&self) -> nat {
        match *self {
            LoginFlow::FindUser { .. } => 1,
            LoginFlow::Finished(_) => 0,
        }
    }

    proof fn lemma_progress(self, answer: Answer) {
    }

    fn request(&self) -> (statement: Option<Statement>) {
        match self {
            LoginFlow::FindUser { email, .. } => Some(
                Statement::UserByEmail { email: email.clone() },
            ),
            LoginFlow::Finished(_) => None,
        }
    }

    fn resume(self, answer: Answer) -> (next: Self) {
        match self {
            LoginFlow::FindUser { password, .. } => {
                let verdict = match answer {
                    Answer::User(user) => match check_password(
                        password.as_str(),
                        user.password.as_str(),
                    ) {
                        PasswordCheck::Matches => Ok(
                            LoginGrant { user_id: user.id, username: user.username },
                        ),
                        PasswordCheck::Differs => Err(HttpError::BadCredentials),
                        PasswordCheck::Unreadable => Err(HttpError::Internal),
                    },
                    Answer::NoRow => Err(HttpError::BadCredentials),
                    _ => Err(HttpError::Internal),
                };
                LoginFlow::Finished(verdict)
            },
            LoginFlow::Finished(verdict) => LoginFlow::Finished(verdict),
        }
    }

    fn finish(self) -> (outcome: Result<LoginGrant, HttpError>) {
        match self {
            LoginFlow::Finished(verdict) => verdict,
            _ => Err(HttpError::Internal),
        }
    }
}

/// Starts the handling of a request to log in.
pub fn login(payload: LoginDto) -> (flow: LoginFlow)
    ensures
        flow == (LoginFlow::FindUser { email: payload.email, password: payload.password }),
{
    LoginFlow::FindUser { email: payload.email, password: payload.password }
}

/// Against a store with no outage ahead, a login is granted exactly to
/// the user with the e-mail address whose stored hash the password
/// matches; an unknown address and a wrong password are refused alike.
pub proof fn law_login(store: StoreState, email: String, password: String)
    requires
        store.budget is None,
    ensures
        ({
            let (end, flow) = run(store, LoginFlow::FindUser { email, password });
            let t = store.tables;
            &&& end == store
            &&& flow.outcome() == if !t.has_email(email@) {
                Err::<LoginGrant, HttpError>(HttpError::BadCredentials)
            } else {
                login_verdict(password@, Answer::User(t.user_by_email(email@)))
            }
        }),
{
    reveal_with_fuel(run, 2);
}

/// The answer to a login once the two tokens have been asked for: both
/// must have been issued, or the answer is a bare 500.
pub open spec fn tokens_reply_fits(
    access: Result<String, TokenError>,
    refresh: Result<String, TokenError>,
    reply: HttpReply,
) -> bool {
    match (access, refresh) {
        (Ok(access), Ok(refresh)) => {
            &&& reply matches HttpReply::LoggedIn { access_token, refresh_cookie }
            &&& access_token == access
            &&& refresh_cookie@ == REFRESH_COOKIE_PREFIX@ + refresh@
        },
        _ => reply == HttpReply::Refused(HttpError::Internal),
    }
}

/// Makes the answer to a login of the two tokens that were asked for.
pub fn tokens_reply(access: Result<String, TokenError>, refresh: Result<String, TokenError>) -> (reply:
    HttpReply)
    ensures
        tokens_reply_fits(access, refresh, reply),
{
    match (access, refresh) {
        (Ok(access), Ok(refresh)) => {
            let cookie = String::from_str(REFRESH_COOKIE_PREFIX).concat(refresh.as_str());
            HttpReply::LoggedIn { access_token: access, refresh_cookie: cookie }
        },
        _ => HttpReply::Refused(HttpError::Internal),
    }
}

/// The two tokens that a granted login asks for: an access token of ten
/// minutes and a refresh token of three days, both for the user of the
/// grant.
pub fn login_orders(grant: LoginGrant) -> (orders: (TokenOrder, TokenOrder))
    ensures
        orders.0 == (TokenOrder {
            user_id: grant.user_id,
            username: grant.username,
            lifetime_secs: ACCESS_TOKEN_SECS,
        }),
        orders.1 == (TokenOrder {
            user_id: grant.user_id,
            username: grant.username,
            lifetime_secs: REFRESH_TOKEN_SECS,
        }),
{
    let access = TokenOrder {
        user_id: grant.user_id,
        username: grant.username.clone(),
        lifetime_secs: ACCESS_TOKEN_SECS,
    };
    let refresh = TokenOrder {
        user_id: grant.user_id,
        username: grant.username,
        lifetime_secs: REFRESH_TOKEN_SECS,
    };
    (access, refresh)
}

/// Answers a login: a refusal is passed on; for a grant the two tokens of
/// `login_orders` are asked for, and the answer is made of what came back:
/// both tokens, or a bare 500 where one of them was not issued.
pub fn login_reply(codec: &CredentialCodec, verdict: Result<LoginGrant, HttpError>) -> (reply:
    HttpReply)
    ensures
        match verdict {
            Err(error) => reply == HttpReply::Refused(error),
            Ok(_) => {
                &&& reply is LoggedIn || reply == HttpReply::Refused(HttpError::Internal)
                &&& codec.key_bytes().len() < MIN_KEY_BYTES ==> reply == HttpReply::Refused(
                    HttpError::Internal,
                )
            },
        },
{
    match verdict {
        Err(error) => HttpReply::Refused(error),
        Ok(grant) => {
            let (access, refresh) = login_orders(grant);
            tokens_reply(create_jwt_token(codec, access), create_jwt_token(codec, refresh))
        },
    }
}

/// What a user is shown of its own account.
pub fn get_me(user: User) -> (me: NormalizedUser)
    ensures
        me == (NormalizedUser { id: user.id, username: user.username, email: user.email }),
{
    NormalizedUser { id: user.id, username: user.username, email: user.email }
}

} // verus!
