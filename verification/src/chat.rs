//! Chats: creating, listing, renaming and deleting them.

pub mod chat;
