//! Sending, editing and deleting a message.

use vstd::prelude::*;
use crate::auth::jwt::JwtPayload;
use crate::flow::{run, Flow};
use crate::model::MessageRow;
use crate::notice::Notice;
use crate::sockets::{RoomEvent, SocketReply};
use crate::store::protocol::{Answer, Statement};
use crate::store::semantics::StoreState;
use crate::text::{blank, is_blank, trim, trimmed};

verus! {

/// The body of `send-message`.
#[derive(Debug)]
pub struct SendMessageInput {
    pub content: String,
    pub chat_id: u128,
}

/// The body of `update-message`.
#[derive(Debug)]
pub struct UpdateMessageInput {
    pub new_content: String,
    pub message_id: u128,
}

/// The body of `delete-message`.
#[derive(Debug, Clone, Copy, PartialEq, Eq, Structural)]
pub struct DeleteMessage {
    pub message_id: u128,
}

// ---- send-message ---------------------------------------------------------

/// The stages of sending a message to a chat.
#[derive(Debug)]
pub enum SendMessageFlow {
    /// Waiting for the row of the user that the credential names.
    Identify { caller_id: u128, content: String, chat_id: u128 },
    /// Waiting to hear whether the caller belongs to the chat.
    CheckMembership { user_id: u128, content: String, chat_id: u128 },
    /// Waiting for the message to be recorded.
    Insert { user_id: u128, content: String, chat_id: u128 },
    Finished(SocketReply),
}

impl Flow for SendMessageFlow {
    type Outcome = SocketReply;

    open spec fn pending(&self) -> Option<Statement> {
        match *self {
            SendMessageFlow::Identify { caller_id, .. } => Some(
                Statement::UserById { id: caller_id },
            ),
            SendMessageFlow::CheckMembership { user_id, chat_id, .. } => Some(
                Statement::MembershipExists { user_id, chat_id },
            ),
            SendMessageFlow::Insert { user_id, content, chat_id } => Some(
                Statement::InsertMessage { content, user_id, chat_id },
            ),
            SendMessageFlow::Finished(_) => None,
        }
    }

    open spec fn after(self, answer: Answer) -> Self {
        match self {
            SendMessageFlow::Identify { caller_id, content, chat_id } => match answer {
                Answer::User(user) => SendMessageFlow::CheckMembership {
                    user_id: user.id,
                    content,
                    chat_id,
                },
                _ => SendMessageFlow::Finished(SocketReply::Tell(Notice::Unauthenticated)),
            },
            SendMessageFlow::CheckMembership { user_id, content, chat_id } => match answer {
                Answer::Flag(true) => SendMessageFlow::Insert { user_id, content, chat_id },
                Answer::Flag(false) => SendMessageFlow::Finished(
                    SocketReply::Tell(Notice::NotInChatToSend),
                ),
                _ => SendMessageFlow::Finished(SocketReply::Tell(Notice::MembershipCheckFailed)),
            },
            SendMessageFlow::Insert { user_id, content, chat_id } => match answer {
                Answer::Message(row) => SendMessageFlow::Finished(
                    SocketReply::Broadcast { chat_id, event: RoomEvent::NewMessage(row.normalized()) },
                ),
                _ => SendMessageFlow::Finished(SocketReply::Tell(Notice::SendFailed)),
            },
            SendMessageFlow::Finished(reply) => SendMessageFlow::Finished(reply),
        }
    }

    open spec fn outcome(self) -> SocketReply {
        match self {
            SendMessageFlow::Finished(reply) => reply,
            _ => SocketReply::Tell(Notice::SendFailed),
        }
    }

    open spec fn steps_left(&self) -> nat {
        match *self {
            SendMessageFlow::Identify { .. } => 3,
            SendMessageFlow::CheckMembership { .. } => 2,
            SendMessageFlow::Insert { .. } => 1,
            SendMessageFlow::Finished(_) => 0,
        }
    }

    proof fn lemma_progress(self, answer: Answer) {
    }

    fn request(&self) -> (statement: Option<Statement>) {
        match self {
            SendMessageFlow::Identify { caller_id, .. } => Some(
                Statement::UserById { id: *caller_id },
            ),
            SendMessageFlow::CheckMembership { user_id, chat_id, .. } => Some(
                Statement::MembershipExists { user_id: *user_id, chat_id: *chat_id },
            ),
            SendMessageFlow::Insert { user_id, content, chat_id } => Some(
                Statement::InsertMessage {
                    content: content.clone(),
                    user_id: *user_id,
                    chat_id: *chat_id,
                },
            ),
            SendMessageFlow::Finished(_) => None,
        }
    }

    fn resume(self, answer: Answer) -> (next: Self) {
        match self {
            SendMessageFlow::Identify { caller_id, content, chat_id } => match answer {
                Answer::User(user) => SendMessageFlow::CheckMembership {
                    user_id: user.id,
                    content,
                    chat_id,
                },
                _ => SendMessageFlow::Finished(SocketReply::Tell(Notice::Unauthenticated)),
            },
            SendMessageFlow::CheckMembership { user_id, content, chat_id } => match answer {
                Answer::Flag(true) => SendMessageFlow::Insert { user_id, content, chat_id },
                Answer::Flag(false) => SendMessageFlow::Finished(
                    SocketReply::Tell(Notice::NotInChatToSend),
                ),
                _ => SendMessageFlow::Finished(SocketReply::Tell(Notice::MembershipCheckFailed)),
            },
            SendMessageFlow::Insert { user_id, content, chat_id } => match answer {
                Answer::Message(row) => SendMessageFlow::Finished(
                    SocketReply::Broadcast { chat_id, event: RoomEvent::NewMessage(row.normalize()) },
                ),
                _ => SendMessageFlow::Finished(SocketReply::Tell(Notice::SendFailed)),
            },
            SendMessageFlow::Finished(reply) => SendMessageFlow::Finished(reply),
        }
    }

    fn finish(self) -> (outcome: SocketReply) {
        match self {
            SendMessageFlow::Finished(reply) => reply,
            _ => SocketReply::Tell(Notice::SendFailed),
        }
    }
}

/// Starts the handling of `send-message`. A body that did not parse, a
/// content that is blank and a missing credential end it at once, in this
/// order; otherwise the flow carries the trimmed content.
pub fn send_message(caller: &Option<JwtPayload>, input: Option<SendMessageInput>) -> (flow:
    SendMessageFlow)
    ensures
        match input {
            None => flow == SendMessageFlow::Finished(SocketReply::Tell(Notice::MalformedBody)),
            Some(input) => if is_blank(input.content@) {
                flow == SendMessageFlow::Finished(SocketReply::Tell(Notice::EmptyMessage))
            } else {
                match *caller {
                    None => flow == SendMessageFlow::Finished(
                        SocketReply::Tell(Notice::Unauthenticated),
                    ),
                    Some(claims) => {
                        &&& flow matches SendMessageFlow::Identify { caller_id, content, chat_id }
                        &&& caller_id == claims.id
                        &&& content@ == trimmed(input.content@)
                        &&& chat_id == input.chat_id
                    },
                }
            },
        },
{
    match input {
        None => SendMessageFlow::Finished(SocketReply::Tell(Notice::MalformedBody)),
        Some(input) => {
            let content = trim(input.content.as_str());
            if content.is_empty() {
                return SendMessageFlow::Finished(SocketReply::Tell(Notice::EmptyMessage));
            }
            match caller {
                None => SendMessageFlow::Finished(SocketReply::Tell(Notice::Unauthenticated)),
                Some(claims) => SendMessageFlow::Identify {
                    caller_id: claims.id,
                    content: content.to_owned(),
                    chat_id: input.chat_id,
                },
            }
        },
    }
}

/// The row that the store writes for a message.
pub open spec fn new_message(store: StoreState, user_id: u128, content: String, chat_id: u128) -> MessageRow {
    MessageRow { id: store.next_id, chat_id, user_id, content, created_at: Some(store.now) }
}

/// Against a store with no outage ahead, a message with content goes out
/// to the room of the chat exactly when the credential names a user who is
/// a member of the chat, the chat exists and an id is left, and is then
/// the one row added; otherwise the store is left exactly as it was.
pub proof fn law_send_message(store: StoreState, caller_id: u128, content: String, chat_id: u128)
    requires
        store.budget is None,
    ensures
        ({
            let start = SendMessageFlow::Identify { caller_id, content, chat_id };
            let (end, flow) = run(store, start);
            let t = store.tables;
            if !t.has_user(caller_id) {
                end == store && flow.outcome() == SocketReply::Tell(Notice::Unauthenticated)
            } else if !t.is_member(caller_id, chat_id) {
                end == store && flow.outcome() == SocketReply::Tell(Notice::NotInChatToSend)
            } else if !t.has_chat(chat_id) || store.next_id == u128::MAX {
                end == store && flow.outcome() == SocketReply::Tell(Notice::SendFailed)
            } else {
                let row = new_message(store, caller_id, content, chat_id);
                &&& end == store.with_new_row(t.with_message(row))
                &&& flow.outcome() == SocketReply::Broadcast {
                    chat_id,
                    event: RoomEvent::NewMessage(row.normalized()),
                }
            }
        }),
{
    reveal_with_fuel(run, 4);
}

/// Whatever the store does, `send-message` adds at most the one message,
/// and adds it exactly when it broadcasts.
pub proof fn law_send_message_all_or_nothing(
    store: StoreState,
    caller_id: u128,
    content: String,
    chat_id: u128,
)
    ensures
        ({
            let start = SendMessageFlow::Identify { caller_id, content, chat_id };
            let (end, flow) = run(store, start);
            let row = new_message(store, caller_id, content, chat_id);
            &&& end.saved == store.saved
            &&& flow.outcome() is Broadcast || flow.outcome() is Tell
            &&& flow.outcome() matches SocketReply::Tell(notice) ==> !notice.is_success()
            &&& if flow.outcome() is Broadcast {
                &&& store.tables.is_member(caller_id, chat_id)
                &&& end.next_id == store.next_id + 1
                &&& end.tables == store.tables.with_message(row)
                &&& flow.outcome() == SocketReply::Broadcast {
                    chat_id,
                    event: RoomEvent::NewMessage(row.normalized()),
                }
            } else {
                end.tables == store.tables && end.next_id == store.next_id
            }
        }),
{
    reveal_with_fuel(run, 4);
}

// ---- update-message -------------------------------------------------------

/// The stages of editing a message.
#[derive(Debug)]
pub enum UpdateMessageFlow {
    /// Waiting for the row of the user that the credential names.
    Identify { caller_id: u128, content: String, message_id: u128 },
    /// Waiting for the message to be rewritten, if the caller wrote it.
    Update { user_id: u128, content: String, message_id: u128 },
    Finished(SocketReply),
}

impl Flow for UpdateMessageFlow {
    type Outcome = SocketReply;

    open spec fn pending(&self) -> Option<Statement> {
        match *self {
            UpdateMessageFlow::Identify { caller_id, .. } => Some(
                Statement::UserById { id: caller_id },
            ),
            UpdateMessageFlow::Update { user_id, content, message_id } => Some(
                Statement::UpdateMessage { content, message_id, user_id },
            ),
            UpdateMessageFlow::Finished(_) => None,
        }
    }

    open spec fn after(self, answer: Answer) -> Self {
        match self {
            UpdateMessageFlow::Identify { caller_id, content, message_id } => match answer {
                Answer::User(user) => UpdateMessageFlow::Update {
                    user_id: user.id,
                    content,
                    message_id,
                },
                _ => UpdateMessageFlow::Finished(SocketReply::Tell(Notice::Unauthenticated)),
            },
            UpdateMessageFlow::Update { user_id, content, message_id } => match answer {
                Answer::Message(row) => UpdateMessageFlow::Finished(
                    SocketReply::Broadcast {
                        chat_id: row.chat_id,
                        event: RoomEvent::UpdatedMessage(row.normalized()),
                    },
                ),
                Answer::NoRow => UpdateMessageFlow::Finished(
                    SocketReply::Tell(Notice::UpdateRefused),
                ),
                _ => UpdateMessageFlow::Finished(SocketReply::Tell(Notice::UpdateFailed)),
            },
            UpdateMessageFlow::Finished(reply) => UpdateMessageFlow::Finished(reply),
        }
    }

    open spec fn outcome(self) -> SocketReply {
        match self {
            UpdateMessageFlow::Finished(reply) => reply,
            _ => SocketReply::Tell(Notice::UpdateFailed),
        }
    }

    open spec fn steps_left(&self) -> nat {
        match *self {
            UpdateMessageFlow::Identify { .. } => 2,
            UpdateMessageFlow::Update { .. } => 1,
            UpdateMessageFlow::Finished(_) => 0,
        }
    }

    proof fn lemma_progress(self, answer: Answer) {
    }

    fn request(&self) -> (statement: Option<Statement>) {
        match self {
            UpdateMessageFlow::Identify { caller_id, .. } => Some(
                Statement::UserById { id: *caller_id },
            ),
            UpdateMessageFlow::Update { user_id, content, message_id } => Some(
                Statement::UpdateMessage {
                    content: content.clone(),
                    message_id: *message_id,
                    user_id: *user_id,
                },
            ),
            UpdateMessageFlow::Finished(_) => None,
        }
    }

    fn resume(self, answer: Answer) -> (next: Self) {
        match self {
            UpdateMessageFlow::Identify { caller_id, content, message_id } => match answer {
                Answer::User(user) => UpdateMessageFlow::Update {
                    user_id: user.id,
                    content,
                    message_id,
                },
                _ => UpdateMessageFlow::Finished(SocketReply::Tell(Notice::Unauthenticated)),
            },
            UpdateMessageFlow::Update { user_id, content, message_id } => match answer {
                Answer::Message(row) => {
                    let chat_id = row.chat_id;
                    UpdateMessageFlow::Finished(
                        SocketReply::Broadcast {
                            chat_id,
                            event: RoomEvent::UpdatedMessage(row.normalize()),
                        },
                    )
                },
                Answer::NoRow => UpdateMessageFlow::Finished(
                    SocketReply::Tell(Notice::UpdateRefused),
                ),
                _ => UpdateMessageFlow::Finished(SocketReply::Tell(Notice::UpdateFailed)),
            },
            UpdateMessageFlow::Finished(reply) => UpdateMessageFlow::Finished(reply),
        }
    }

    fn finish(self) -> (outcome: SocketReply) {
        match self {
            UpdateMessageFlow::Finished(reply) => reply,
            _ => SocketReply::Tell(Notice::UpdateFailed),
        }
    }
}

/// Where `update-message` starts. The content is tested for being blank
/// but stored as it came.
pub open spec fn update_message_start(
    caller: Option<JwtPayload>,
    input: Option<UpdateMessageInput>,
) -> UpdateMessageFlow {
    match input {
        None => UpdateMessageFlow::Finished(SocketReply::Tell(Notice::MalformedBody)),
        Some(input) => if is_blank(input.new_content@) {
            UpdateMessageFlow::Finished(SocketReply::Tell(Notice::EmptyNewContent))
        } else {
            match caller {
                None => UpdateMessageFlow::Finished(SocketReply::Tell(Notice::Unauthenticated)),
                Some(claims) => UpdateMessageFlow::Identify {
                    caller_id: claims.id,
                    content: input.new_content,
                    message_id: input.message_id,
                },
            }
        },
    }
}

/// Starts the handling of `update-message`.
pub fn update_message(caller: &Option<JwtPayload>, input: Option<UpdateMessageInput>) -> (flow:
    UpdateMessageFlow)
    ensures
        flow == update_message_start(*caller, input),
{
    match input {
        None => UpdateMessageFlow::Finished(SocketReply::Tell(Notice::MalformedBody)),
        Some(input) => if blank(input.new_content.as_str()) {
            UpdateMessageFlow::Finished(SocketReply::Tell(Notice::EmptyNewContent))
        } else {
            match caller {
                None => UpdateMessageFlow::Finished(SocketReply::Tell(Notice::Unauthenticated)),
                Some(claims) => UpdateMessageFlow::Identify {
                    caller_id: claims.id,
                    content: input.new_content,
                    message_id: input.message_id,
                },
            }
        },
    }
}

/// Against a store with no outage ahead, an edit goes through exactly when
/// the credential names the user who wrote the message; every other caller
/// is told the same thing whether or not the message exists. The room that
/// hears of the edit is the one of the chat that the row names.
pub proof fn law_update_message(
    store: StoreState,
    caller_id: u128,
    content: String,
    message_id: u128,
)
    requires
        store.budget is None,
    ensures
        ({
            let start = UpdateMessageFlow::Identify { caller_id, content, message_id };
            let (end, flow) = run(store, start);
            let t = store.tables;
            if !t.has_user(caller_id) {
                end == store && flow.outcome() == SocketReply::Tell(Notice::Unauthenticated)
            } else if !t.wrote(caller_id, message_id) {
                end == store && flow.outcome() == SocketReply::Tell(Notice::UpdateRefused)
            } else {
                let row = MessageRow { content, ..t.message(message_id) };
                &&& end == store.with_tables(t.with_message_content(message_id, content))
                &&& flow.outcome() == SocketReply::Broadcast {
                    chat_id: row.chat_id,
                    event: RoomEvent::UpdatedMessage(row.normalized()),
                }
            }
        }),
{
    reveal_with_fuel(run, 3);
}

/// Whatever the store does, `update-message` rewrites at most the one
/// message, and only for its author.
pub proof fn law_update_message_all_or_nothing(
    store: StoreState,
    caller_id: u128,
    content: String,
    message_id: u128,
)
    ensures
        ({
            let start = UpdateMessageFlow::Identify { caller_id, content, message_id };
            let (end, flow) = run(store, start);
            &&& end.saved == store.saved
            &&& end.next_id == store.next_id
            &&& flow.outcome() is Broadcast || flow.outcome() is Tell
            &&& flow.outcome() matches SocketReply::Tell(notice) ==> !notice.is_success()
            &&& if flow.outcome() is Broadcast {
                &&& store.tables.wrote(caller_id, message_id)
                &&& end.tables == store.tables.with_message_content(message_id, content)
            } else {
                end.tables == store.tables
            }
        }),
{
    reveal_with_fuel(run, 3);
}

// ---- delete-message -------------------------------------------------------

/// The stages of deleting a message.
#[derive(Debug)]
pub enum DeleteMessageFlow {
    /// Waiting for the row of the user that the credential names.
    Identify { caller_id: u128, message_id: u128 },
    /// Waiting for the message to be deleted, if the caller wrote it.
    Delete { user_id: u128, message_id: u128 },
    Finished(SocketReply),
}

impl Flow for DeleteMessageFlow {
    type Outcome = SocketReply;

    open spec fn pending(&self) -> Option<Statement> {
        match *self {
            DeleteMessageFlow::Identify { caller_id, .. } => Some(
                Statement::UserById { id: caller_id },
            ),
            DeleteMessageFlow::Delete { user_id, message_id } => Some(
                Statement::DeleteMessage { message_id, user_id },
            ),
            DeleteMessageFlow::Finished(_) => None,
        }
    }

    open spec fn after(self, answer: Answer) -> Self {
        match self {
            DeleteMessageFlow::Identify { caller_id, message_id } => match answer {
                Answer::User(user) => DeleteMessageFlow::Delete { user_id: user.id, message_id },
                _ => DeleteMessageFlow::Finished(SocketReply::Tell(Notice::Unauthenticated)),
            },
            DeleteMessageFlow::Delete { user_id, message_id } => match answer {
                Answer::Id(chat_id) => DeleteMessageFlow::Finished(
                    SocketReply::Broadcast {
                        chat_id,
                        event: RoomEvent::DeletedMessage { message_id },
                    },
                ),
                Answer::NoRow => DeleteMessageFlow::Finished(
                    SocketReply::Tell(Notice::DeleteRefused),
                ),
                _ => DeleteMessageFlow::Finished(SocketReply::Tell(Notice::DeleteFailed)),
            },
            DeleteMessageFlow::Finished(reply) => DeleteMessageFlow::Finished(reply),
        }
    }

    open spec fn outcome(self) -> SocketReply {
        match self {
            DeleteMessageFlow::Finished(reply) => reply,
            _ => SocketReply::Tell(Notice::DeleteFailed),
        }
    }

    open spec fn steps_left(&self) -> nat {
        match *self {
            DeleteMessageFlow::Identify { .. } => 2,
            DeleteMessageFlow::Delete { .. } => 1,
            DeleteMessageFlow::Finished(_) => 0,
        }
    }

    proof fn lemma_progress(self, answer: Answer) {
    }

    fn request(&self) -> (statement: Option<Statement>) {
        match *self {
            DeleteMessageFlow::Identify { caller_id, .. } => Some(
                Statement::UserById { id: caller_id },
            ),
            DeleteMessageFlow::Delete { user_id, message_id } => Some(
                Statement::DeleteMessage { message_id, user_id },
            ),
            DeleteMessageFlow::Finished(_) => None,
        }
    }

    fn resume(self, answer: Answer) -> (next: Self) {
        match self {
            DeleteMessageFlow::Identify { caller_id, message_id } => match answer {
                Answer::User(user) => DeleteMessageFlow::Delete { user_id: user.id, message_id },
                _ => DeleteMessageFlow::Finished(SocketReply::Tell(Notice::Unauthenticated)),
            },
            DeleteMessageFlow::Delete { user_id, message_id } => match answer {
                Answer::Id(chat_id) => DeleteMessageFlow::Finished(
                    SocketReply::Broadcast {
                        chat_id,
                        event: RoomEvent::DeletedMessage { message_id },
                    },
                ),
                Answer::NoRow => DeleteMessageFlow::Finished(
                    SocketReply::Tell(Notice::DeleteRefused),
                ),
                _ => DeleteMessageFlow::Finished(SocketReply::Tell(Notice::DeleteFailed)),
            },
            DeleteMessageFlow::Finished(reply) => DeleteMessageFlow::Finished(reply),
        }
    }

    fn finish(self) -> (outcome: SocketReply) {
        match self {
            DeleteMessageFlow::Finished(reply) => reply,
            _ => SocketReply::Tell(Notice::DeleteFailed),
        }
    }
}

/// Where `delete-message` starts.
pub open spec fn delete_message_start(
    caller: Option<JwtPayload>,
    input: Option<DeleteMessage>,
) -> DeleteMessageFlow {
    match input {
        None => DeleteMessageFlow::Finished(SocketReply::Tell(Notice::MalformedBody)),
        Some(input) => match caller {
            None => DeleteMessageFlow::Finished(SocketReply::Tell(Notice::Unauthenticated)),
            Some(claims) => DeleteMessageFlow::Identify {
                caller_id: claims.id,
                message_id: input.message_id,
            },
        },
    }
}

/// Starts the handling of `delete-message`.
pub fn delete_message(caller: &Option<JwtPayload>, input: Option<DeleteMessage>) -> (flow:
    DeleteMessageFlow)
    ensures
        flow == delete_message_start(*caller, input),
{
    match input {
        None => DeleteMessageFlow::Finished(SocketReply::Tell(Notice::MalformedBody)),
        Some(input) => match caller {
            None => DeleteMessageFlow::Finished(SocketReply::Tell(Notice::Unauthenticated)),
            Some(claims) => DeleteMessageFlow::Identify {
                caller_id: claims.id,
                message_id: input.message_id,
            },
        },
    }
}

/// Against a store with no outage ahead, a deletion goes through exactly
/// when the credential names the user who wrote the message; every other
/// caller is told the same thing whether or not the message exists. The
/// room that hears of it is the one of the chat that the deleted row named.
pub proof fn law_delete_message(store: StoreState, caller_id: u128, message_id: u128)
    requires
        store.budget is None,
    ensures
        ({
            let start = DeleteMessageFlow::Identify { caller_id, message_id };
            let (end, flow) = run(store, start);
            let t = store.tables;
            if !t.has_user(caller_id) {
                end == store && flow.outcome() == SocketReply::Tell(Notice::Unauthenticated)
            } else if !t.wrote(caller_id, message_id) {
                end == store && flow.outcome() == SocketReply::Tell(Notice::DeleteRefused)
            } else {
                &&& end == store.with_tables(t.without_message(message_id))
                &&& flow.outcome() == SocketReply::Broadcast {
                    chat_id: t.message(message_id).chat_id,
                    event: RoomEvent::DeletedMessage { message_id },
                }
            }
        }),
{
    reveal_with_fuel(run, 3);
}

/// Whatever the store does, `delete-message` deletes at most the one
/// message, and only for its author.
pub proof fn law_delete_message_all_or_nothing(
    store: StoreState,
    caller_id: u128,
    message_id: u128,
)
    ensures
        ({
            let start = DeleteMessageFlow::Identify { caller_id, message_id };
            let (end, flow) = run(store, start);
            &&& end.saved == store.saved
            &&& end.next_id == store.next_id
            &&& flow.outcome() is Broadcast || flow.outcome() is Tell
            &&& flow.outcome() matches SocketReply::Tell(notice) ==> !notice.is_success()
            &&& if flow.outcome() is Broadcast {
                &&& store.tables.wrote(caller_id, message_id)
                &&& end.tables == store.tables.without_message(message_id)
            } else {
                end.tables == store.tables
            }
        }),
{
    reveal_with_fuel(run, 3);
}

} // verus!
