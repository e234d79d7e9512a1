//! A store held in memory that answers every statement as the semantics
//! say. It stands in where no database is at hand, and it can be told to
//! become unreachable after a number of statements.

use vstd::prelude::*;
use crate::model::{ChatRow, Membership, MessageRow, User};
use crate::http::Chat;
use crate::store::protocol::{Answer, LookupFailure, Statement};
use crate::store::rows::{
    lemma_chat_found,
    lemma_email_found,
    lemma_member_found,
    lemma_message_found,
    lemma_user_found,
    Rows,
};
use crate::store::semantics::StoreState;
use crate::store::tables::Tables;
use crate::store::validity::lemma_execute_keeps_well_formed;

verus! {

/// The in-memory store.
pub struct MemoryStore {
    rows: Rows,
    saved: Option<Rows>,
    next_id: u128,
    now: i64,
    budget: Option<u64>,
}

impl View for MemoryStore {
    type V = StoreState;

    closed spec fn view(&self) -> StoreState {
        StoreState {
            tables: self.rows@,
            saved: match self.saved {
                Some(before) => Some(before@),
                None => None,
            },
            next_id: self.next_id,
            now: self.now,
            budget: match self.budget {
                Some(n) => Some(n as nat),
                None => None,
            },
        }
    }
}

impl MemoryStore {
    /// The state of a store that was just opened: no rows, no transaction,
    /// no outage ahead, and 1 as the first id.
    pub open spec fn initial() -> StoreState {
        StoreState { tables: Tables::empty(), saved: None, next_id: 1, now: 0, budget: None }
    }

    /// Opens an empty store.
    pub fn new() -> (store: MemoryStore)
        ensures
            store@ == Self::initial(),
            store@.well_formed(),
    {
        MemoryStore { rows: Rows::new(), saved: None, next_id: 1, now: 0, budget: None }
    }

    /// Sets the time that new messages are stamped with.
    pub fn set_clock(&mut self, now: i64)
        ensures
            final(self)@ == (StoreState { now, ..old(self)@ }),
    {
        self.now = now;
    }

    /// Schedules an outage: the store answers `statements` more statements
    /// and fails every one after them.
    pub fn fail_after(&mut self, statements: u64)
        ensures
            final(self)@ == (StoreState { budget: Some(statements as nat), ..old(self)@ }),
    {
        self.budget = Some(statements);
    }

    /// Ends an outage, or cancels the one that lies ahead.
    pub fn recover(&mut self)
        ensures
            final(self)@ == (StoreState { budget: None, ..old(self)@ }),
    {
        self.budget = None;
    }

    fn rollback(&mut self)
        ensures
            final(self)@ == old(self)@.rolled_back(),
    {
        match self.saved.take() {
            Some(before) => {
                self.rows = before;
            },
            None => {},
        }
    }

    /// Runs one statement.
    pub fn perform(&mut self, statement: Statement) -> (answer: Answer)
        requires
            old(self)@.well_formed(),
        ensures
            (final(self)@, answer) == old(self)@.execute(statement),
            final(self)@.well_formed(),
    {
        proof {
            lemma_execute_keeps_well_formed(self@, statement);
        }
        if let Statement::Rollback = statement {
            self.rollback();
            return Answer::Done;
        }
        match self.budget {
            Some(n) => {
                if n == 0 {
                    return Answer::Failed;
                }
                self.budget = Some(n - 1);
            },
            None => {},
        }
        assert(self@ == old(self)@.spent());
        let ghost t = self.rows@;
        match statement {
            Statement::UserById { id } => match self.rows.find_user(id) {
                Some(i) => {
                    proof {
                        lemma_user_found(t, i as int, id);
                    }
                    Answer::User(self.rows.users[i].clone())
                },
                None => Answer::NoRow,
            },
            Statement::UserByEmail { email } => match self.rows.find_email(&email) {
                Some(i) => {
                    proof {
                        lemma_email_found(t, i as int, email@);
                    }
                    Answer::User(self.rows.users[i].clone())
                },
                None => Answer::NoRow,
            },
            Statement::InsertUser { username, email, password } => {
                if self.rows.has_username(&username) {
                    return Answer::UniqueViolation;
                }
                if self.rows.find_email(&email).is_some() {
                    return Answer::UniqueViolation;
                }
                if self.next_id == u128::MAX {
                    return Answer::Failed;
                }
                self.rows.users.push(User { id: self.next_id, username, password, email });
                self.next_id = self.next_id + 1;
                Answer::Done
            },
            Statement::UpdateUser { id, field, value } => match self.rows.find_user(id) {
                Some(i) => {
                    proof {
                        lemma_user_found(t, i as int, id);
                    }
                    if self.rows.clashes(id, field, &value) {
                        return Answer::UniqueViolation;
                    }
                    self.rows.set_user_field(i, field, value);
                    Answer::Done
                },
                None => Answer::Done,
            },
            Statement::ChatAdmin { chat_id } => match self.rows.find_chat(chat_id) {
                Some(i) => {
                    proof {
                        lemma_chat_found(t, i as int, chat_id);
                    }
                    Answer::Id(self.rows.chats[i].admin_id)
                },
                None => Answer::NoRow,
            },
            Statement::MembershipExists { user_id, chat_id } => {
                match self.rows.find_member(user_id, chat_id) {
                    Some(i) => {
                        proof {
                            lemma_member_found(t, i as int, user_id, chat_id);
                        }
                        Answer::Flag(true)
                    },
                    None => Answer::Flag(false),
                }
            },
            Statement::Begin => {
                if self.saved.is_some() {
                    return Answer::Failed;
                }
                self.saved = Some(self.rows.snapshot());
                Answer::Done
            },
            Statement::Commit => {
                if self.saved.is_none() {
                    return Answer::Failed;
                }
                self.saved = None;
                Answer::Done
            },
            Statement::Rollback => {
                self.rollback();
                Answer::Done
            },
            Statement::InsertChat { name, admin_id } => {
                if self.rows.find_user(admin_id).is_none() {
                    return Answer::ForeignKeyViolation;
                }
                if self.next_id == u128::MAX {
                    return Answer::Failed;
                }
                let id = self.next_id;
                self.rows.chats.push(ChatRow { id, name, admin_id });
                self.next_id = id + 1;
                Answer::Id(id)
            },
            Statement::InsertMembership { user_id, chat_id } => {
                match self.rows.find_member(user_id, chat_id) {
                    Some(i) => {
                        proof {
                            lemma_member_found(t, i as int, user_id, chat_id);
                        }
                        return Answer::UniqueViolation;
                    },
                    None => {},
                }
                if self.rows.find_user(user_id).is_none() || self.rows.find_chat(chat_id).is_none() {
                    return Answer::ForeignKeyViolation;
                }
                self.rows.members.push(Membership { user_id, chat_id });
                Answer::Done
            },
            Statement::DeleteMembership { user_id, chat_id } => {
                match self.rows.find_member(user_id, chat_id) {
                    Some(i) => {
                        proof {
                            lemma_member_found(t, i as int, user_id, chat_id);
                        }
                        self.rows.members.remove(i);
                        Answer::Done
                    },
                    None => Answer::NoRow,
                }
            },
            Statement::DeleteMembershipsOfChat { chat_id } => {
                self.rows.drop_members_of(chat_id);
                Answer::Done
            },
            Statement::DeleteMessagesOfChat { chat_id } => {
                self.rows.drop_messages_of(chat_id);
                Answer::Done
            },
            Statement::DeleteChat { chat_id, admin_id } => match self.rows.find_chat(chat_id) {
                Some(i) => {
                    proof {
                        lemma_chat_found(t, i as int, chat_id);
                    }
                    if self.rows.chats[i].admin_id != admin_id {
                        return Answer::Done;
                    }
                    if self.rows.chat_has_members(chat_id) || self.rows.chat_has_messages(chat_id) {
                        return Answer::ForeignKeyViolation;
                    }
                    self.rows.chats.remove(i);
                    Answer::Done
                },
                None => Answer::Done,
            },
            Statement::RenameChat { chat_id, name } => match self.rows.find_chat(chat_id) {
                Some(i) => {
                    proof {
                        lemma_chat_found(t, i as int, chat_id);
                    }
                    let row = ChatRow { id: self.rows.chats[i].id, name, admin_id: self.rows.chats[i].admin_id };
                    self.rows.chats[i] = row;
                    Answer::Done
                },
                None => Answer::Done,
            },
            Statement::InsertMessage { content, user_id, chat_id } => {
                if self.rows.find_user(user_id).is_none() || self.rows.find_chat(chat_id).is_none() {
                    return Answer::ForeignKeyViolation;
                }
                if self.next_id == u128::MAX {
                    return Answer::Failed;
                }
                let message = MessageRow {
                    id: self.next_id,
                    chat_id,
                    user_id,
                    content,
                    created_at: Some(self.now),
                };
                self.rows.messages.push(message.clone());
                self.next_id = self.next_id + 1;
                Answer::Message(message)
            },
            Statement::UpdateMessage { content, message_id, user_id } => {
                match self.rows.find_message(message_id) {
                    Some(i) => {
                        proof {
                            lemma_message_found(t, i as int, message_id);
                        }
                        if self.rows.messages[i].user_id != user_id {
                            return Answer::NoRow;
                        }
                        let row = MessageRow {
                            id: self.rows.messages[i].id,
                            chat_id: self.rows.messages[i].chat_id,
                            user_id: self.rows.messages[i].user_id,
                            content,
                            created_at: self.rows.messages[i].created_at,
                        };
                        self.rows.messages[i] = row.clone();
                        Answer::Message(row)
                    },
                    None => Answer::NoRow,
                }
            },
            Statement::DeleteMessage { message_id, user_id } => {
                match self.rows.find_message(message_id) {
                    Some(i) => {
                        proof {
                            lemma_message_found(t, i as int, message_id);
                        }
                        if self.rows.messages[i].user_id != user_id {
                            return Answer::NoRow;
                        }
                        let gone = self.rows.messages.remove(i);
                        Answer::Id(gone.chat_id)
                    },
                    None => Answer::NoRow,
                }
            },
        }
    }

    /// The rows of the last commit: what every client of the store sees.
    pub fn rows(&self) -> (rows: &Rows)
        ensures
            rows@ == self@.committed(),
    {
        match &self.saved {
            Some(before) => before,
            None => &self.rows,
        }
    }

    /// What the query for a user's chats gives: the list, or a failure
    /// once the outage has begun.
    pub open spec fn listing(state: StoreState, user_id: u128) -> Result<Seq<Chat>, LookupFailure> {
        if state.budget == Some(0nat) {
            Err(LookupFailure::Failed)
        } else {
            Ok(state.tables.chats_of(user_id))
        }
    }

    /// Runs the query for the chats that a user belongs to. Like every
    /// statement it uses up one of the statements left before an outage.
    pub fn list_chats(&mut self, user_id: u128) -> (chats: Result<Vec<Chat>, LookupFailure>)
        requires
            old(self)@.well_formed(),
        ensures
            final(self)@ == if old(self)@.budget == Some(0nat) {
                old(self)@
            } else {
                old(self)@.spent()
            },
            match chats {
                Ok(chats) => Self::listing(old(self)@, user_id) == Ok::<Seq<Chat>, LookupFailure>(
                    chats@,
                ),
                Err(failure) => Self::listing(old(self)@, user_id) == Err::<
                    Seq<Chat>,
                    LookupFailure,
                >(failure),
            },
    {
        match self.budget {
            Some(n) => {
                if n == 0 {
                    return Err(LookupFailure::Failed);
                }
                self.budget = Some(n - 1);
            },
            None => {},
        }
        Ok(self.rows.list_chats(user_id))
    }
}

} // verus!
