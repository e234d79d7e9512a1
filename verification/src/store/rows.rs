//! The tables held in memory, with the searches and bulk deletions that
//! the in-memory store is built from.

use vstd::prelude::*;
use crate::http::Chat;
use crate::model::{ChatRow, Membership, MessageRow, User};
use crate::store::protocol::UserField;
use crate::store::tables::{membership_outside, message_outside, user_with_field, Tables};

verus! {

/// The four tables as vectors of rows.
pub struct Rows {
    pub users: Vec<User>,
    pub chats: Vec<ChatRow>,
    pub members: Vec<Membership>,
    pub messages: Vec<MessageRow>,
}

impl View for Rows {
    type V = Tables;

    open spec fn view(&self) -> Tables {
        Tables {
            users: self.users@,
            chats: self.chats@,
            members: self.members@,
            messages: self.messages@,
        }
    }
}

/// With unique ids, the row that holds an id is the one the model names.
pub proof fn lemma_user_found(t: Tables, i: int, id: u128)
    requires
        t.well_formed(),
        t.user_at(i, id),
    ensures
        t.has_user(id),
        t.user(id) == t.users[i],
        (choose|k: int| t.user_at(k, id)) == i,
{
    let k = choose|k: int| t.user_at(k, id);
    assert(t.users[k].id == t.users[i].id);
}

/// With unique addresses, the row that holds an address is the one the
/// model names.
pub proof fn lemma_email_found(t: Tables, i: int, email: Seq<char>)
    requires
        t.well_formed(),
        t.email_at(i, email),
    ensures
        t.has_email(email),
        t.user_by_email(email) == t.users[i],
{
    let k = choose|k: int| t.email_at(k, email);
    assert(t.users[k].email@ == t.users[i].email@);
}

/// With unique ids, the chat row that holds an id is the one the model
/// names.
pub proof fn lemma_chat_found(t: Tables, i: int, id: u128)
    requires
        t.well_formed(),
        t.chat_at(i, id),
    ensures
        t.has_chat(id),
        t.chat_index(id) == i,
        t.chat(id) == t.chats[i],
{
    let k = t.chat_index(id);
    assert(t.chats[k].id == t.chats[i].id);
}

/// With no membership twice, the place of a membership is the one the
/// model names.
pub proof fn lemma_member_found(t: Tables, i: int, user_id: u128, chat_id: u128)
    requires
        t.well_formed(),
        0 <= i < t.members.len(),
        t.members[i] == (Membership { user_id, chat_id }),
    ensures
        t.is_member(user_id, chat_id),
        t.members.index_of(Membership { user_id, chat_id }) == i,
{
    let m = Membership { user_id, chat_id };
    let k = t.members.index_of(m);
    assert(t.members[k] == t.members[i]);
}

/// With unique ids, the message row that holds an id is the one the model
/// names.
pub proof fn lemma_message_found(t: Tables, i: int, id: u128)
    requires
        t.well_formed(),
        t.message_at(i, id),
    ensures
        t.has_message(id),
        t.message_index(id) == i,
        t.message(id) == t.messages[i],
{
    let k = t.message_index(id);
    assert(t.messages[k].id == t.messages[i].id);
}

impl Rows {
    /// Tables without a row.
    pub fn new() -> (rows: Rows)
        ensures
            rows@ == Tables::empty(),
    {
        Rows { users: Vec::new(), chats: Vec::new(), members: Vec::new(), messages: Vec::new() }
    }

    /// A copy of every row.
    pub fn snapshot(&self) -> (copy: Rows)
        ensures
            copy@ == self@,
    {
        let copy = Rows {
            users: self.users.clone(),
            chats: self.chats.clone(),
            members: self.members.clone(),
            messages: self.messages.clone(),
        };
        assert(copy.users@ =~= self.users@);
        assert(copy.chats@ =~= self.chats@);
        assert(copy.members@ =~= self.members@);
        assert(copy.messages@ =~= self.messages@);
        copy
    }

    /// Where the user row with this id is.
    pub fn find_user(&self, id: u128) -> (found: Option<usize>)
        ensures
            match found {
                Some(i) => self@.user_at(i as int, id),
                None => !self@.has_user(id),
            },
    {
        let mut i: usize = 0;
        while i < self.users.len()
            invariant
                i <= self.users.len(),
                forall|k: int| 0 <= k < i ==> !self@.user_at(k, id),
            decreases self.users.len() - i,
        {
            if self.users[i].id == id {
                return Some(i);
            }
            i += 1;
        }
        None
    }

    /// Where the user row with this e-mail address is.
    pub fn find_email(&self, email: &String) -> (found: Option<usize>)
        ensures
            match found {
                Some(i) => self@.email_at(i as int, email@),
                None => !self@.has_email(email@),
            },
    {
        let mut i: usize = 0;
        while i < self.users.len()
            invariant
                i <= self.users.len(),
                forall|k: int| 0 <= k < i ==> !self@.email_at(k, email@),
            decreases self.users.len() - i,
        {
            if self.users[i].email == *email {
                return Some(i);
            }
            i += 1;
        }
        None
    }

    /// Whether a user row has this name.
    pub fn has_username(&self, username: &String) -> (found: bool)
        ensures
            found == self@.has_username(username@),
    {
        let mut i: usize = 0;
        while i < self.users.len()
            invariant
                i <= self.users.len(),
                forall|k: int| 0 <= k < i ==> !self@.username_at(k, username@),
            decreases self.users.len() - i,
        {
            if self.users[i].username == *username {
                assert(self@.username_at(i as int, username@));
                return true;
            }
            i += 1;
        }
        false
    }

    /// Whether another user holds this value in this column.
    pub fn clashes(&self, id: u128, field: UserField, value: &String) -> (clash: bool)
        ensures
            clash == self@.clashes(id, field, value@),
    {
        let mut i: usize = 0;
        while i < self.users.len()
            invariant
                i <= self.users.len(),
                forall|k: int| 0 <= k < i ==> !self@.clash_at(k, id, field, value@),
            decreases self.users.len() - i,
        {
            let taken = match field {
                UserField::Username => self.users[i].username == *value,
                UserField::Email => self.users[i].email == *value,
                UserField::Password => false,
            };
            if self.users[i].id != id && taken {
                assert(self@.clash_at(i as int, id, field, value@));
                return true;
            }
            i += 1;
        }
        false
    }

    /// Where the chat row with this id is.
    pub fn find_chat(&self, id: u128) -> (found: Option<usize>)
        ensures
            match found {
                Some(i) => self@.chat_at(i as int, id),
                None => !self@.has_chat(id),
            },
    {
        let mut i: usize = 0;
        while i < self.chats.len()
            invariant
                i <= self.chats.len(),
                forall|k: int| 0 <= k < i ==> !self@.chat_at(k, id),
            decreases self.chats.len() - i,
        {
            if self.chats[i].id == id {
                return Some(i);
            }
            i += 1;
        }
        None
    }

    /// Where the membership row of this user in this chat is.
    pub fn find_member(&self, user_id: u128, chat_id: u128) -> (found: Option<usize>)
        ensures
            match found {
                Some(i) => i < self.members.len() && self.members[i as int] == (Membership {
                    user_id,
                    chat_id,
                }),
                None => !self@.is_member(user_id, chat_id),
            },
    {
        let mut i: usize = 0;
        while i < self.members.len()
            invariant
                i <= self.members.len(),
                forall|k: int| 0 <= k < i ==> self.members[k] != (Membership { user_id, chat_id }),
            decreases self.members.len() - i,
        {
            if self.members[i].user_id == user_id && self.members[i].chat_id == chat_id {
                return Some(i);
            }
            i += 1;
        }
        None
    }

    /// Where the message row with this id is.
    pub fn find_message(&self, id: u128) -> (found: Option<usize>)
        ensures
            match found {
                Some(i) => self@.message_at(i as int, id),
                None => !self@.has_message(id),
            },
    {
        let mut i: usize = 0;
        while i < self.messages.len()
            invariant
                i <= self.messages.len(),
                forall|k: int| 0 <= k < i ==> !self@.message_at(k, id),
            decreases self.messages.len() - i,
        {
            if self.messages[i].id == id {
                return Some(i);
            }
            i += 1;
        }
        None
    }

    /// Whether any membership row is of this chat.
    pub fn chat_has_members(&self, chat_id: u128) -> (any: bool)
        ensures
            any == self@.chat_has_members(chat_id),
    {
        let mut i: usize = 0;
        while i < self.members.len()
            invariant
                i <= self.members.len(),
                forall|k: int| 0 <= k < i ==> (#[trigger] self@.members[k]).chat_id != chat_id,
            decreases self.members.len() - i,
        {
            if self.members[i].chat_id == chat_id {
                assert(self@.members[i as int].chat_id == chat_id);
                return true;
            }
            i += 1;
        }
        false
    }

    /// Whether any message row is of this chat.
    pub fn chat_has_messages(&self, chat_id: u128) -> (any: bool)
        ensures
            any == self@.chat_has_messages(chat_id),
    {
        let mut i: usize = 0;
        while i < self.messages.len()
            invariant
                i <= self.messages.len(),
                forall|k: int| 0 <= k < i ==> (#[trigger] self@.messages[k]).chat_id != chat_id,
            decreases self.messages.len() - i,
        {
            if self.messages[i].chat_id == chat_id {
                assert(self@.messages[i as int].chat_id == chat_id);
                return true;
            }
            i += 1;
        }
        false
    }

    /// Rewrites one column of the user row at `i`.
    pub fn set_user_field(&mut self, i: usize, field: UserField, value: String)
        requires
            i < old(self).users.len(),
        ensures
            final(self)@ == (Tables {
                users: old(self)@.users.update(
                    i as int,
                    user_with_field(old(self)@.users[i as int], field, value),
                ),
                ..old(self)@
            }),
    {
        let old_row = self.users[i].clone();
        let new_row = match field {
            UserField::Username => User { username: value, ..old_row },
            UserField::Email => User { email: value, ..old_row },
            UserField::Password => User { password: value, ..old_row },
        };
        self.users[i] = new_row;
    }

    /// Deletes the membership rows of a chat.
    pub fn drop_members_of(&mut self, chat_id: u128)
        ensures
            final(self)@ == old(self)@.without_members_of(chat_id),
    {
        let ghost keep = membership_outside(chat_id);
        let mut kept: Vec<Membership> = Vec::new();
        let mut i: usize = 0;
        assert(self.members@.subrange(0, 0) =~= Seq::<Membership>::empty());
        proof {
            reveal(Seq::filter);
        }
        while i < self.members.len()
            invariant
                i <= self.members.len(),
                keep == membership_outside(chat_id),
                kept@ == self.members@.subrange(0, i as int).filter(keep),
            decreases self.members.len() - i,
        {
            let m = self.members[i];
            proof {
                let prefix = self.members@.subrange(0, i as int);
                prefix.lemma_filter_push(m, keep);
                assert(prefix.push(m) =~= self.members@.subrange(0, i + 1));
            }
            if m.chat_id != chat_id {
                kept.push(m);
            }
            i += 1;
        }
        assert(self.members@.subrange(0, i as int) =~= self.members@);
        self.members = kept;
    }

    /// Deletes the message rows of a chat.
    pub fn drop_messages_of(&mut self, chat_id: u128)
        ensures
            final(self)@ == old(self)@.without_messages_of(chat_id),
    {
        let ghost keep = message_outside(chat_id);
        let mut kept: Vec<MessageRow> = Vec::new();
        let mut i: usize = 0;
        assert(self.messages@.subrange(0, 0) =~= Seq::<MessageRow>::empty());
        proof {
            reveal(Seq::filter);
        }
        while i < self.messages.len()
            invariant
                i <= self.messages.len(),
                keep == message_outside(chat_id),
                kept@ == self.messages@.subrange(0, i as int).filter(keep),
            decreases self.messages.len() - i,
        {
            let m = self.messages[i].clone();
            proof {
                let prefix = self.messages@.subrange(0, i as int);
                prefix.lemma_filter_push(m, keep);
                assert(prefix.push(m) =~= self.messages@.subrange(0, i + 1));
            }
            if m.chat_id != chat_id {
                kept.push(m);
            }
            i += 1;
        }
        assert(self.messages@.subrange(0, i as int) =~= self.messages@);
        self.messages = kept;
    }

    /// The chats that a user belongs to, each with its name and the name of
    /// its administrator.
    pub fn list_chats(&self, user_id: u128) -> (chats: Vec<Chat>)
        requires
            self@.well_formed(),
        ensures
            chats@ == self@.chats_of(user_id),
    {
        let mut chats: Vec<Chat> = Vec::new();
        let mut i: usize = 0;
        while i < self.members.len()
            invariant
                i <= self.members.len(),
                self@.well_formed(),
                chats@ == self@.chats_listed(user_id, i as int),
            decreases self.members.len() - i,
        {
            let m = self.members[i];
            if m.user_id == user_id {
                match self.find_chat(m.chat_id) {
                    Some(c) => {
                        proof {
                            lemma_chat_found(self@, c as int, m.chat_id);
                        }
                        match self.find_user(self.chats[c].admin_id) {
                            Some(u) => {
                                proof {
                                    lemma_user_found(self@, u as int, self.chats[c as int].admin_id);
                                }
                                chats.push(
                                    Chat {
                                        name: self.chats[c].name.clone(),
                                        chat_id: m.chat_id,
                                        admin_username: self.users[u].username.clone(),
                                    },
                                );
                            },
                            None => {},
                        }
                    },
                    None => {},
                }
            }
            i += 1;
        }
        chats
    }
}

} // verus!
