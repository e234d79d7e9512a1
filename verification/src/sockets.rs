//! The realtime handlers: what each inbound event of a connection leads to.

use vstd::prelude::*;
use crate::auth::jwt::JwtPayload;
use crate::flow::{run, Flow};
use crate::model::{NormalizedMessage, User};
use crate::notice::Notice;
use crate::store::protocol::{Answer, Statement};
use crate::store::semantics::StoreState;
use crate::store::tables::Tables;

pub mod member;
pub mod message;

verus! {

/// What the connections of a room are sent.
#[derive(Debug)]
pub enum RoomEvent {
    NewMessage(NormalizedMessage),
    UpdatedMessage(NormalizedMessage),
    DeletedMessage { message_id: u128 },
}

/// What a realtime handler asks of the transport once it is done.
#[derive(Debug)]
pub enum SocketReply {
    /// Send the notice to the calling connection.
    Tell(Notice),
    /// Move the calling connection, which speaks for `user_id`, into the
    /// room of the chat, and tell it that it joined.
    Join { chat_id: u128, user_id: u128 },
    /// The user stopped being a member of the chat: take the connections
    /// that speak for the user out of the chat's room, then send the notice
    /// to the calling connection.
    Evict { user_id: u128, chat_id: u128, notice: Notice },
    /// Send the event to every connection in the room of the chat.
    Broadcast { chat_id: u128, event: RoomEvent },
}

// ---- who is calling ---------------------------------------------------------

/// The lookup of the user that a connection's credential names. Every
/// inbound event does it anew: the row may have changed since the token
/// was issued, and only the row is believed.
#[derive(Debug)]
pub enum GetUserFlow {
    Ask { caller_id: u128 },
    Finished(Option<User>),
}

impl Flow for GetUserFlow {
    type Outcome = Option<User>;

    open spec fn pending(&self) -> Option<Statement> {
        match *self {
            GetUserFlow::Ask { caller_id } => Some(Statement::UserById { id: caller_id }),
            GetUserFlow::Finished(_) => None,
        }
    }

    open spec fn after(self, answer: Answer) -> Self {
        match self {
            GetUserFlow::Ask { .. } => match answer {
                Answer::User(user) => GetUserFlow::Finished(Some(user)),
                _ => GetUserFlow::Finished(None),
            },
            GetUserFlow::Finished(user) => GetUserFlow::Finished(user),
        }
    }

    open spec fn outcome(self) -> Option<User> {
        match self {
            GetUserFlow::Finished(user) => user,
            _ => None,
        }
    }

    open spec fn steps_left(&self) -> nat {
        match *self {
            GetUserFlow::Ask { .. } => 1,
            GetUserFlow::Finished(_) => 0,
        }
    }

    proof fn lemma_progress(self, answer: Answer) {
    }

    fn request(&self) -> (statement: Option<Statement>) {
        match self {
            GetUserFlow::Ask { caller_id } => Some(Statement::UserById { id: *caller_id }),
            GetUserFlow::Finished(_) => None,
        }
    }

    fn resume(self, answer: Answer) -> (next: Self) {
        match self {
            GetUserFlow::Ask { .. } => match answer {
                Answer::User(user) => GetUserFlow::Finished(Some(user)),
                _ => GetUserFlow::Finished(None),
            },
            GetUserFlow::Finished(user) => GetUserFlow::Finished(user),
        }
    }

    fn finish(self) -> (outcome: Option<User>) {
        match self {
            GetUserFlow::Finished(user) => user,
            _ => None,
        }
    }
}

/// Where the lookup of the caller starts: without a credential there is
/// nobody to look up.
pub open spec fn get_user_start(caller: Option<JwtPayload>) -> GetUserFlow {
    match caller {
        Some(claims) => GetUserFlow::Ask { caller_id: claims.id },
        None => GetUserFlow::Finished(None),
    }
}

/// Starts the lookup of the user that a connection speaks for.
pub fn get_user(caller: &Option<JwtPayload>) -> (flow: GetUserFlow)
    ensures
        flow == get_user_start(*caller),
{
    match caller {
        Some(claims) => GetUserFlow::Ask { caller_id: claims.id },
        None => GetUserFlow::Finished(None),
    }
}

/// Against a store with no outage ahead, the caller is the user row with
/// the id that the credential names, if there is one.
pub proof fn law_get_user(store: StoreState, caller: Option<JwtPayload>)
    requires
        store.budget is None,
    ensures
        ({
            let (end, flow) = run(store, get_user_start(caller));
            &&& end == store
            &&& flow.outcome() == match caller {
                Some(claims) => if store.tables.has_user(claims.id) {
                    Some(store.tables.user(claims.id))
                } else {
                    None
                },
                None => None,
            }
        }),
{
    reveal_with_fuel(run, 2);
}

// ---- join -------------------------------------------------------------------

/// The body of `join`.
#[derive(Debug, Clone, Copy, PartialEq, Eq, Structural)]
pub struct JoinRoom {
    pub chat_id: u128,
}

/// The stages of joining the room of a chat.
#[derive(Debug)]
pub enum JoinFlow {
    /// Waiting for the row of the user that the credential names.
    Identify { caller_id: u128, chat_id: u128 },
    /// Waiting to hear whether the caller belongs to the chat.
    CheckMembership { user_id: u128, chat_id: u128 },
    Finished(SocketReply),
}

impl Flow for JoinFlow {
    type Outcome = SocketReply;

    open spec fn pending(&self) -> Option<Statement> {
        match *self {
            JoinFlow::Identify { caller_id, .. } => Some(Statement::UserById { id: caller_id }),
            JoinFlow::CheckMembership { user_id, chat_id } => Some(
                Statement::MembershipExists { user_id, chat_id },
            ),
            JoinFlow::Finished(_) => None,
        }
    }

    open spec fn after(self, answer: Answer) -> Self {
        match self {
            JoinFlow::Identify { caller_id, chat_id } => match answer {
                Answer::User(user) => JoinFlow::CheckMembership { user_id: user.id, chat_id },
                _ => JoinFlow::Finished(SocketReply::Tell(Notice::Unauthenticated)),
            },
            JoinFlow::CheckMembership { user_id, chat_id } => match answer {
                Answer::Flag(true) => JoinFlow::Finished(SocketReply::Join { chat_id, user_id }),
                Answer::Flag(false) => JoinFlow::Finished(SocketReply::Tell(Notice::JoinRefused)),
                _ => JoinFlow::Finished(SocketReply::Tell(Notice::JoinFailed)),
            },
            JoinFlow::Finished(reply) => JoinFlow::Finished(reply),
        }
    }

    open spec fn outcome(self) -> SocketReply {
        match self {
            JoinFlow::Finished(reply) => reply,
            _ => SocketReply::Tell(Notice::JoinFailed),
        }
    }

    open spec fn steps_left(&self) -> nat {
        match *self {
            JoinFlow::Identify { .. } => 2,
            JoinFlow::CheckMembership { .. } => 1,
            JoinFlow::Finished(_) => 0,
        }
    }

    proof fn lemma_progress(self, answer: Answer) {
    }

    fn request(&self) -> (statement: Option<Statement>) {
        match *self {
            JoinFlow::Identify { caller_id, .. } => Some(Statement::UserById { id: caller_id }),
            JoinFlow::CheckMembership { user_id, chat_id } => Some(
                Statement::MembershipExists { user_id, chat_id },
            ),
            JoinFlow::Finished(_) => None,
        }
    }

    fn resume(self, answer: Answer) -> (next: Self) {
        match self {
            JoinFlow::Identify { caller_id, chat_id } => match answer {
                Answer::User(user) => JoinFlow::CheckMembership { user_id: user.id, chat_id },
                _ => JoinFlow::Finished(SocketReply::Tell(Notice::Unauthenticated)),
            },
            JoinFlow::CheckMembership { user_id, chat_id } => match answer {
                Answer::Flag(true) => JoinFlow::Finished(SocketReply::Join { chat_id, user_id }),
                Answer::Flag(false) => JoinFlow::Finished(SocketReply::Tell(Notice::JoinRefused)),
                _ => JoinFlow::Finished(SocketReply::Tell(Notice::JoinFailed)),
            },
            JoinFlow::Finished(reply) => JoinFlow::Finished(reply),
        }
    }

    fn finish(self) -> (outcome: SocketReply) {
        match self {
            JoinFlow::Finished(reply) => reply,
            _ => SocketReply::Tell(Notice::JoinFailed),
        }
    }
}

/// Where `join` starts.
pub open spec fn join_chat_room_start(caller: Option<JwtPayload>, input: Option<JoinRoom>) -> JoinFlow {
    match input {
        None => JoinFlow::Finished(SocketReply::Tell(Notice::MalformedBody)),
        Some(input) => match caller {
            None => JoinFlow::Finished(SocketReply::Tell(Notice::Unauthenticated)),
            Some(claims) => JoinFlow::Identify { caller_id: claims.id, chat_id: input.chat_id },
        },
    }
}

/// Starts the handling of `join`.
pub fn join_chat_room(caller: &Option<JwtPayload>, input: Option<JoinRoom>) -> (flow: JoinFlow)
    ensures
        flow == join_chat_room_start(*caller, input),
{
    match input {
        None => JoinFlow::Finished(SocketReply::Tell(Notice::MalformedBody)),
        Some(input) => match caller {
            None => JoinFlow::Finished(SocketReply::Tell(Notice::Unauthenticated)),
            Some(claims) => JoinFlow::Identify { caller_id: claims.id, chat_id: input.chat_id },
        },
    }
}

/// What `join` asks of the transport, by the rules alone: the body must
/// parse, the credential must name a user, and only a member of the chat
/// enters its room.
pub open spec fn join_verdict(
    t: Tables,
    caller: Option<JwtPayload>,
    input: Option<JoinRoom>,
) -> SocketReply {
    match input {
        None => SocketReply::Tell(Notice::MalformedBody),
        Some(input) => match caller {
            None => SocketReply::Tell(Notice::Unauthenticated),
            Some(claims) => if !t.has_user(claims.id) {
                SocketReply::Tell(Notice::Unauthenticated)
            } else if !t.is_member(claims.id, input.chat_id) {
                SocketReply::Tell(Notice::JoinRefused)
            } else {
                SocketReply::Join { chat_id: input.chat_id, user_id: claims.id }
            },
        },
    }
}

/// Against a store with no outage ahead, `join` ends with the verdict of
/// the rules and leaves the store as it was.
pub proof fn law_join_chat_room(
    store: StoreState,
    caller: Option<JwtPayload>,
    input: Option<JoinRoom>,
)
    requires
        store.budget is None,
    ensures
        ({
            let (end, flow) = run(store, join_chat_room_start(caller, input));
            &&& end == store
            &&& flow.outcome() == join_verdict(store.tables, caller, input)
        }),
{
    reveal_with_fuel(run, 3);
}

/// Whatever the store does, `join` changes no row, and lets a connection
/// into a room only for a member of the chat.
pub proof fn law_join_only_members(
    store: StoreState,
    caller: Option<JwtPayload>,
    input: Option<JoinRoom>,
)
    ensures
        ({
            let (end, flow) = run(store, join_chat_room_start(caller, input));
            &&& end.tables == store.tables
            &&& end.saved == store.saved
            &&& end.next_id == store.next_id
            &&& flow.outcome() is Join || flow.outcome() is Tell
            &&& flow.outcome() matches SocketReply::Tell(notice) ==> !notice.is_success()
            &&& flow.outcome() matches SocketReply::Join { chat_id, user_id } ==> {
                &&& store.tables.is_member(user_id, chat_id)
                &&& input == Some(JoinRoom { chat_id })
                &&& caller is Some
                &&& caller->0.id == user_id
            }
        }),
{
    reveal_with_fuel(run, 3);
}

} // verus!
