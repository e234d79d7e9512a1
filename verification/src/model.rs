//! The rows of the relational store and the plain values that name them.
//!
//! Identifiers are 128-bit values; on the wire they are UUIDs.

use vstd::prelude::*;

verus! {

/// A registered account.
#[derive(Debug)]
pub struct User {
    pub id: u128,
    pub username: String,
    /// The stored one-way hash of the password, never the password itself.
    pub password: String,
    pub email: String,
}

impl Clone for User {
    fn clone(&self) -> (copy: Self)
        ensures
            copy == *self,
    {
        User {
            id: self.id,
            username: self.username.clone(),
            password: self.password.clone(),
            email: self.email.clone(),
        }
    }
}

/// A chat as the store keeps it: a name and the one user who administers it.
#[derive(Debug)]
pub struct ChatRow {
    pub id: u128,
    pub name: String,
    pub admin_id: u128,
}

impl Clone for ChatRow {
    fn clone(&self) -> (copy: Self)
        ensures
            copy == *self,
    {
        ChatRow { id: self.id, name: self.name.clone(), admin_id: self.admin_id }
    }
}

/// The fact that a user belongs to a chat.
#[derive(Debug, Clone, Copy, PartialEq, Eq, Structural)]
pub struct Membership {
    pub user_id: u128,
    pub chat_id: u128,
}

/// A message as the store keeps it.
#[derive(Debug)]
pub struct MessageRow {
    pub id: u128,
    pub chat_id: u128,
    pub user_id: u128,
    pub content: String,
    /// Microseconds since the Unix epoch, where the store recorded a time.
    pub created_at: Option<i64>,
}

impl Clone for MessageRow {
    fn clone(&self) -> (copy: Self)
        ensures
            copy == *self,
    {
        MessageRow {
            id: self.id,
            chat_id: self.chat_id,
            user_id: self.user_id,
            content: self.content.clone(),
            created_at: self.created_at,
        }
    }
}

/// A message as it is sent to the connections of a room.
#[derive(Debug)]
pub struct NormalizedMessage {
    pub id: u128,
    pub content: String,
    pub user_id: u128,
    pub created_at: Option<i64>,
}

impl MessageRow {
    /// What a room is told of this message: everything but the chat it is in.
    pub open spec fn normalized(self) -> NormalizedMessage {
        NormalizedMessage {
            id: self.id,
            content: self.content,
            user_id: self.user_id,
            created_at: self.created_at,
        }
    }

    /// Makes of the row what a room is told of it.
    pub fn normalize(self) -> (message: NormalizedMessage)
        ensures
            message == self.normalized(),
    {
        NormalizedMessage {
            id: self.id,
            content: self.content,
            user_id: self.user_id,
            created_at: self.created_at,
        }
    }
}

} // verus!
