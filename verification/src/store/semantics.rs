//! What each statement does: the state of a store and the function from a
//! state and a statement to the next state and the answer.

use vstd::prelude::*;
use crate::model::{ChatRow, MessageRow, User};
use crate::store::protocol::{Answer, Statement};
use crate::store::tables::Tables;

verus! {

/// The state of a store between two statements.
pub struct StoreState {
    /// The rows that statements read and change.
    pub tables: Tables,
    /// While a transaction is open, the rows as they were when it began.
    pub saved: Option<Tables>,
    /// The id that the next inserted row gets.
    pub next_id: u128,
    /// The time that the next inserted message gets.
    pub now: i64,
    /// How many more statements the store answers before it becomes
    /// unreachable; `None` where no outage lies ahead.
    pub budget: Option<nat>,
}

impl StoreState {
    /// The rows that every other client of the store sees: those of the
    /// last commit.
    pub open spec fn committed(self) -> Tables {
        match self.saved {
            Some(before) => before,
            None => self.tables,
        }
    }

    /// Whether a transaction is open.
    pub open spec fn in_transaction(self) -> bool {
        self.saved is Some
    }

    /// No outage lies ahead and an id is left for a new row.
    pub open spec fn healthy(self) -> bool {
        self.budget is None && self.next_id < u128::MAX
    }

    /// What holds of every store: its rows obey the schema, those that a
    /// rollback would bring back too, and every id is below the next one.
    pub open spec fn well_formed(self) -> bool {
        &&& self.tables.well_formed()
        &&& self.tables.ids_below(self.next_id)
        &&& match self.saved {
            Some(before) => before.well_formed() && before.ids_below(self.next_id),
            None => true,
        }
    }

    /// The state after an open transaction is abandoned.
    pub open spec fn rolled_back(self) -> StoreState {
        match self.saved {
            Some(before) => StoreState { tables: before, saved: None, ..self },
            None => self,
        }
    }

    /// One statement fewer until the outage.
    pub open spec fn spent(self) -> StoreState {
        match self.budget {
            Some(n) => StoreState { budget: Some((n - 1) as nat), ..self },
            None => self,
        }
    }

    /// The state with other rows.
    pub open spec fn with_tables(self, tables: Tables) -> StoreState {
        StoreState { tables, ..self }
    }

    /// The state after a row took the next id.
    pub open spec fn with_new_row(self, tables: Tables) -> StoreState {
        StoreState { tables, next_id: (self.next_id + 1) as u128, ..self }
    }

    /// The next state and the answer, for a store that is reachable.
    pub open spec fn run(self, statement: Statement) -> (StoreState, Answer) {
        let t = self.tables;
        match statement {
            Statement::UserById { id } => if t.has_user(id) {
                (self, Answer::User(t.user(id)))
            } else {
                (self, Answer::NoRow)
            },
            Statement::UserByEmail { email } => if t.has_email(email@) {
                (self, Answer::User(t.user_by_email(email@)))
            } else {
                (self, Answer::NoRow)
            },
            Statement::InsertUser { username, email, password } => if t.has_username(username@)
                || t.has_email(email@) {
                (self, Answer::UniqueViolation)
            } else if self.next_id == u128::MAX {
                (self, Answer::Failed)
            } else {
                let user = User { id: self.next_id, username, password, email };
                (self.with_new_row(t.with_user(user)), Answer::Done)
            },
            Statement::UpdateUser { id, field, value } => if t.has_user(id) && t.clashes(
                id,
                field,
                value@,
            ) {
                (self, Answer::UniqueViolation)
            } else {
                (self.with_tables(t.with_user_field(id, field, value)), Answer::Done)
            },
            Statement::ChatAdmin { chat_id } => if t.has_chat(chat_id) {
                (self, Answer::Id(t.chat(chat_id).admin_id))
            } else {
                (self, Answer::NoRow)
            },
            Statement::MembershipExists { user_id, chat_id } => (
                self,
                Answer::Flag(t.is_member(user_id, chat_id)),
            ),
            Statement::Begin => if self.saved is Some {
                (self, Answer::Failed)
            } else {
                (StoreState { saved: Some(t), ..self }, Answer::Done)
            },
            Statement::Commit => if self.saved is Some {
                (StoreState { saved: None, ..self }, Answer::Done)
            } else {
                (self, Answer::Failed)
            },
            Statement::Rollback => (self.rolled_back(), Answer::Done),
            Statement::InsertChat { name, admin_id } => if !t.has_user(admin_id) {
                (self, Answer::ForeignKeyViolation)
            } else if self.next_id == u128::MAX {
                (self, Answer::Failed)
            } else {
                let chat = ChatRow { id: self.next_id, name, admin_id };
                (self.with_new_row(t.with_chat(chat)), Answer::Id(self.next_id))
            },
            Statement::InsertMembership { user_id, chat_id } => if t.is_member(user_id, chat_id) {
                (self, Answer::UniqueViolation)
            } else if !t.has_user(user_id) || !t.has_chat(chat_id) {
                (self, Answer::ForeignKeyViolation)
            } else {
                (self.with_tables(t.with_member(user_id, chat_id)), Answer::Done)
            },
            Statement::DeleteMembership { user_id, chat_id } => if t.is_member(user_id, chat_id) {
                (self.with_tables(t.without_member(user_id, chat_id)), Answer::Done)
            } else {
                (self, Answer::NoRow)
            },
            Statement::DeleteMembershipsOfChat { chat_id } => (
                self.with_tables(t.without_members_of(chat_id)),
                Answer::Done,
            ),
            Statement::DeleteMessagesOfChat { chat_id } => (
                self.with_tables(t.without_messages_of(chat_id)),
                Answer::Done,
            ),
            Statement::DeleteChat { chat_id, admin_id } => if !t.administers(admin_id, chat_id) {
                (self, Answer::Done)
            } else if t.chat_has_members(chat_id) || t.chat_has_messages(chat_id) {
                (self, Answer::ForeignKeyViolation)
            } else {
                (self.with_tables(t.without_chat(chat_id)), Answer::Done)
            },
            Statement::RenameChat { chat_id, name } => (
                self.with_tables(t.with_chat_name(chat_id, name)),
                Answer::Done,
            ),
            Statement::InsertMessage { content, user_id, chat_id } => if !t.has_user(user_id)
                || !t.has_chat(chat_id) {
                (self, Answer::ForeignKeyViolation)
            } else if self.next_id == u128::MAX {
                (self, Answer::Failed)
            } else {
                let message = MessageRow {
                    id: self.next_id,
                    chat_id,
                    user_id,
                    content,
                    created_at: Some(self.now),
                };
                (self.with_new_row(t.with_message(message)), Answer::Message(message))
            },
            Statement::UpdateMessage { content, message_id, user_id } => if t.wrote(
                user_id,
                message_id,
            ) {
                (
                    self.with_tables(t.with_message_content(message_id, content)),
                    Answer::Message(MessageRow { content, ..t.message(message_id) }),
                )
            } else {
                (self, Answer::NoRow)
            },
            Statement::DeleteMessage { message_id, user_id } => if t.wrote(user_id, message_id) {
                (
                    self.with_tables(t.without_message(message_id)),
                    Answer::Id(t.message(message_id).chat_id),
                )
            } else {
                (self, Answer::NoRow)
            },
        }
    }

    /// The next state and the answer. A rollback always goes through: a
    /// store that cannot be reached abandons the transaction by itself.
    /// Every other statement fails, and changes nothing, once the outage
    /// has begun.
    pub open spec fn execute(self, statement: Statement) -> (StoreState, Answer) {
        if statement is Rollback {
            (self.rolled_back(), Answer::Done)
        } else if self.budget == Some(0nat) {
            (self, Answer::Failed)
        } else {
            self.spent().run(statement)
        }
    }
}

} // verus!
