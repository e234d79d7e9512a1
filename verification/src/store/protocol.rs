//! Statements and answers: the whole conversation between the coordinator
//! and its store.

use vstd::prelude::*;
use crate::model::{MessageRow, User};

verus! {

/// The column of a user row that a profile change rewrites.
#[derive(Debug, Clone, Copy, PartialEq, Eq, Structural)]
pub enum UserField {
    Username,
    Email,
    Password,
}

/// One request to the store. Each is a single SQL statement; `Begin`,
/// `Commit` and `Rollback` bracket the statements of a transaction.
#[derive(Debug)]
pub enum Statement {
    /// The user row with this id.
    UserById { id: u128 },
    /// The user row with this e-mail address.
    UserByEmail { email: String },
    /// A new user row; the store picks its id.
    InsertUser { username: String, email: String, password: String },
    /// Rewrite one column of the user row with this id.
    UpdateUser { id: u128, field: UserField, value: String },
    /// The id of the chat's administrator.
    ChatAdmin { chat_id: u128 },
    /// Whether the user belongs to the chat.
    MembershipExists { user_id: u128, chat_id: u128 },
    Begin,
    Commit,
    Rollback,
    /// A new chat row; the store picks its id and returns it.
    InsertChat { name: String, admin_id: u128 },
    InsertMembership { user_id: u128, chat_id: u128 },
    /// Delete one membership row and say whether it was there.
    DeleteMembership { user_id: u128, chat_id: u128 },
    DeleteMembershipsOfChat { chat_id: u128 },
    DeleteMessagesOfChat { chat_id: u128 },
    /// Delete the chat row if this user administers it.
    DeleteChat { chat_id: u128, admin_id: u128 },
    RenameChat { chat_id: u128, name: String },
    /// A new message row; the store picks its id and time and returns the row.
    InsertMessage { content: String, user_id: u128, chat_id: u128 },
    /// Rewrite the content of the message if this user wrote it; returns the row.
    UpdateMessage { content: String, message_id: u128, user_id: u128 },
    /// Delete the message if this user wrote it; returns the id of its chat.
    DeleteMessage { message_id: u128, user_id: u128 },
}

/// What the store says to one statement.
#[derive(Debug)]
pub enum Answer {
    /// The statement ran; there is nothing to return.
    Done,
    /// The statement ran and matched no row where one was asked for.
    NoRow,
    /// A uniqueness constraint refused the statement.
    UniqueViolation,
    /// A foreign-key constraint refused the statement.
    ForeignKeyViolation,
    /// The store could not run the statement.
    Failed,
    User(User),
    Id(u128),
    Flag(bool),
    Message(MessageRow),
}

/// Why a lookup in the store gave no row.
#[derive(Debug, Clone, Copy, PartialEq, Eq, Structural)]
pub enum LookupFailure {
    /// The store ran the query and found nothing.
    NoRow,
    /// The store could not run the query.
    Failed,
}

} // verus!
