//! The identity resolver of requests: from the value of an authorization
//! header to the user that the request is made for.

use vstd::prelude::*;
use vstd::string::StrSliceExecFns;
use crate::auth::jwt::{decode_jwt_payload, CredentialCodec, JwtPayload, TokenError, MIN_KEY_BYTES};
use crate::flow::{run, Flow};
use crate::http::HttpError;
use crate::model::User;
use crate::store::protocol::{Answer, Statement};
use crate::store::semantics::StoreState;
use crate::text::{lemma_position, occurrences, position, scan};

verus! {

/// The token in the value of an authorization header. The value has the
/// form `<scheme> <token>`: split at every space it must fall into exactly
/// two parts, so it must hold exactly one space, and the token is what
/// follows it.
pub open spec fn bearer_token_of(header: Seq<char>) -> Option<Seq<char>> {
    if occurrences(header, ' ') == 1 {
        Some(header.subrange(position(header, ' ')->0 + 1, header.len() as int))
    } else {
        None
    }
}

/// Takes the token out of the value of an authorization header.
pub fn bearer_token(header: &str) -> (token: Option<&str>)
    ensures
        match token {
            Some(token) => bearer_token_of(header@) == Some(token@),
            None => bearer_token_of(header@) is None,
        },
{
    let len = header.unicode_len();
    let (spaces, first) = scan(header, ' ');
    proof {
        lemma_position(header@, ' ');
    }
    if spaces != 1 {
        return None;
    }
    match first {
        Some(at) => Some(header.substring_char(at + 1, len)),
        None => None,
    }
}

/// What the outcome of checking a token leaves of the caller: the payload
/// of a token that was accepted, and nobody otherwise.
pub open spec fn caller_of(decoded: Result<JwtPayload, TokenError>) -> Option<JwtPayload> {
    match decoded {
        Ok(payload) => Some(payload),
        Err(_) => None,
    }
}

/// Keeps the payload of a token that was accepted.
pub fn caller_from(decoded: Result<JwtPayload, TokenError>) -> (caller: Option<JwtPayload>)
    ensures
        caller == caller_of(decoded),
{
    match decoded {
        Ok(payload) => Some(payload),
        Err(_) => None,
    }
}

/// Resolves the credential of a request or of a connection's handshake:
/// the payload of the token in the header, if there is a header, if it has
/// the form of one, and if the token is accepted at this moment.
pub fn resolve(codec: &CredentialCodec, header: Option<&str>) -> (caller: Option<JwtPayload>)
    ensures
        header is None ==> caller is None,
        header matches Some(value) && bearer_token_of(value@) is None ==> caller is None,
        codec.key_bytes().len() < MIN_KEY_BYTES ==> caller is None,
{
    match header {
        None => None,
        Some(value) => match bearer_token(value) {
            None => None,
            Some(token) => caller_from(decode_jwt_payload(codec, token)),
        },
    }
}

/// The lookup that stands before every request handler: the row of the
/// user that the credential names, or the refusal of the request.
#[derive(Debug)]
pub enum AuthorizationFlow {
    Ask { caller_id: u128 },
    Finished(Result<User, HttpError>),
}

impl Flow for AuthorizationFlow {
    type Outcome = Result<User, HttpError>;

    open spec fn pending(&self) -> Option<Statement> {
        match *self {
            AuthorizationFlow::Ask { caller_id } => Some(Statement::UserById { id: caller_id }),
            AuthorizationFlow::Finished(_) => None,
        }
    }

    open spec fn after(self, answer: Answer) -> Self {
        match self {
            AuthorizationFlow::Ask { .. } => match answer {
                Answer::User(user) => AuthorizationFlow::Finished(Ok(user)),
                _ => AuthorizationFlow::Finished(Err(HttpError::Unauthorized)),
            },
            AuthorizationFlow::Finished(verdict) => AuthorizationFlow::Finished(verdict),
        }
    }

    open spec fn outcome(self) -> Result<User, HttpError> {
        match self {
            AuthorizationFlow::Finished(verdict) => verdict,
            _ => Err(HttpError::Unauthorized),
        }
    }

    open spec fn steps_left(&self) -> nat {
        match *self {
            AuthorizationFlow::Ask { .. } => 1,
            AuthorizationFlow::Finished(_) => 0,
        }
    }

    proof fn lemma_progress(self, answer: Answer) {
    }

    fn request(&self) -> (statement: Option<Statement>) {
        match self {
            AuthorizationFlow::Ask { caller_id } => Some(Statement::UserById { id: *caller_id }),
            AuthorizationFlow::Finished(_) => None,
        }
    }

    fn resume(self, answer: Answer) -> (next: Self) {
        match self {
            AuthorizationFlow::Ask { .. } => match answer {
                Answer::User(user) => AuthorizationFlow::Finished(Ok(user)),
                _ => AuthorizationFlow::Finished(Err(HttpError::Unauthorized)),
            },
            AuthorizationFlow::Finished(verdict) => AuthorizationFlow::Finished(verdict),
        }
    }

    fn finish(self) -> (outcome: Result<User, HttpError>) {
        match self {
            AuthorizationFlow::Finished(verdict) => verdict,
            _ => Err(HttpError::Unauthorized),
        }
    }
}

/// Where the authorization of a request starts: without a credential the
/// request is refused at once.
pub open spec fn jwt_authorization_start(caller: Option<JwtPayload>) -> AuthorizationFlow {
    match caller {
        Some(claims) => AuthorizationFlow::Ask { caller_id: claims.id },
        None => AuthorizationFlow::Finished(Err(HttpError::Unauthorized)),
    }
}

/// Starts the authorization of a request.
pub fn jwt_authorization(caller: &Option<JwtPayload>) -> (flow: AuthorizationFlow)
    ensures
        flow == jwt_authorization_start(*caller),
{
    match caller {
        Some(claims) => AuthorizationFlow::Ask { caller_id: claims.id },
        None => AuthorizationFlow::Finished(Err(HttpError::Unauthorized)),
    }
}

/// Against a store with no outage ahead, a request goes through for the
/// user row with the id that the credential names, and is refused where
/// there is no credential or no such row.
pub proof fn law_jwt_authorization(store: StoreState, caller: Option<JwtPayload>)
    requires
        store.budget is None,
    ensures
        ({
            let (end, flow) = run(store, jwt_authorization_start(caller));
            &&& end == store
            &&& flow.outcome() == match caller {
                Some(claims) => if store.tables.has_user(claims.id) {
                    Ok::<User, HttpError>(store.tables.user(claims.id))
                } else {
                    Err(HttpError::Unauthorized)
                },
                None => Err(HttpError::Unauthorized),
            }
        }),
{
    reveal_with_fuel(run, 2);
}

} // verus!
