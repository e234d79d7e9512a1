//! The four tables, as sequences of rows in storage order, and the
//! elementary changes that statements make to them.

use vstd::prelude::*;
use crate::http::Chat;
use crate::model::{ChatRow, Membership, MessageRow, User};
use crate::store::protocol::UserField;

verus! {

/// The contents of the store: every row of every table.
pub struct Tables {
    pub users: Seq<User>,
    pub chats: Seq<ChatRow>,
    pub members: Seq<Membership>,
    pub messages: Seq<MessageRow>,
}

/// Keeps the memberships that are not of the chat.
pub open spec fn membership_outside(chat_id: u128) -> spec_fn(Membership) -> bool {
    |m: Membership| m.chat_id != chat_id
}

/// Keeps the messages that are not of the chat.
pub open spec fn message_outside(chat_id: u128) -> spec_fn(MessageRow) -> bool {
    |m: MessageRow| m.chat_id != chat_id
}

/// The user row with one column rewritten.
pub open spec fn user_with_field(user: User, field: UserField, value: String) -> User {
    match field {
        UserField::Username => User { username: value, ..user },
        UserField::Email => User { email: value, ..user },
        UserField::Password => User { password: value, ..user },
    }
}

impl Tables {
    /// Tables without a row.
    pub open spec fn empty() -> Tables {
        Tables {
            users: Seq::empty(),
            chats: Seq::empty(),
            members: Seq::empty(),
            messages: Seq::empty(),
        }
    }

    // ---- users ----------------------------------------------------------

    /// Whether the user row at `i` has this id.
    pub open spec fn user_at(self, i: int, id: u128) -> bool {
        0 <= i < self.users.len() && self.users[i].id == id
    }

    /// Whether a user row has this id.
    pub open spec fn has_user(self, id: u128) -> bool {
        exists|i: int| self.user_at(i, id)
    }

    /// The user row with this id, where there is one.
    pub open spec fn user(self, id: u128) -> User {
        self.users[choose|i: int| self.user_at(i, id)]
    }

    /// Whether the user row at `i` has this e-mail address.
    pub open spec fn email_at(self, i: int, email: Seq<char>) -> bool {
        0 <= i < self.users.len() && self.users[i].email@ == email
    }

    /// Whether a user row has this e-mail address.
    pub open spec fn has_email(self, email: Seq<char>) -> bool {
        exists|i: int| self.email_at(i, email)
    }

    /// The user row with this e-mail address, where there is one.
    pub open spec fn user_by_email(self, email: Seq<char>) -> User {
        self.users[choose|i: int| self.email_at(i, email)]
    }

    /// Whether the user row at `i` has this name.
    pub open spec fn username_at(self, i: int, username: Seq<char>) -> bool {
        0 <= i < self.users.len() && self.users[i].username@ == username
    }

    /// Whether a user row has this name.
    pub open spec fn has_username(self, username: Seq<char>) -> bool {
        exists|i: int| self.username_at(i, username)
    }

    /// Whether a user other than `id` holds this value in this column. The
    /// password column is not unique, so nothing ever clashes there.
    pub open spec fn clashes(self, id: u128, field: UserField, value: Seq<char>) -> bool {
        exists|i: int| self.clash_at(i, id, field, value)
    }

    /// Whether the user row at `i` is another user's and holds this value in
    /// this column.
    pub open spec fn clash_at(self, i: int, id: u128, field: UserField, value: Seq<char>) -> bool {
        &&& 0 <= i < self.users.len()
        &&& self.users[i].id != id
        &&& match field {
            UserField::Username => self.users[i].username@ == value,
            UserField::Email => self.users[i].email@ == value,
            UserField::Password => false,
        }
    }

    // ---- chats ----------------------------------------------------------

    /// Whether the chat row at `i` has this id.
    pub open spec fn chat_at(self, i: int, id: u128) -> bool {
        0 <= i < self.chats.len() && self.chats[i].id == id
    }

    /// Whether a chat row has this id.
    pub open spec fn has_chat(self, id: u128) -> bool {
        exists|i: int| self.chat_at(i, id)
    }

    /// Where the chat row with this id is, where there is one.
    pub open spec fn chat_index(self, id: u128) -> int {
        choose|i: int| self.chat_at(i, id)
    }

    /// The chat row with this id, where there is one.
    pub open spec fn chat(self, id: u128) -> ChatRow {
        self.chats[self.chat_index(id)]
    }

    /// Whether the chat exists and this user administers it.
    pub open spec fn administers(self, user_id: u128, chat_id: u128) -> bool {
        self.has_chat(chat_id) && self.chat(chat_id).admin_id == user_id
    }

    // ---- memberships ----------------------------------------------------

    /// Whether the user belongs to the chat.
    pub open spec fn is_member(self, user_id: u128, chat_id: u128) -> bool {
        self.members.contains(Membership { user_id, chat_id })
    }

    /// Whether any membership row is of this chat.
    pub open spec fn chat_has_members(self, chat_id: u128) -> bool {
        exists|i: int| 0 <= i < self.members.len() && (#[trigger] self.members[i]).chat_id == chat_id
    }

    /// The users that belong to the chat.
    pub open spec fn members_of(self, chat_id: u128) -> Set<u128> {
        Set::new(|user_id: u128| self.is_member(user_id, chat_id))
    }

    // ---- messages -------------------------------------------------------

    /// Whether the message row at `i` has this id.
    pub open spec fn message_at(self, i: int, id: u128) -> bool {
        0 <= i < self.messages.len() && self.messages[i].id == id
    }

    /// Whether a message row has this id.
    pub open spec fn has_message(self, id: u128) -> bool {
        exists|i: int| self.message_at(i, id)
    }

    /// Where the message row with this id is, where there is one.
    pub open spec fn message_index(self, id: u128) -> int {
        choose|i: int| self.message_at(i, id)
    }

    /// The message row with this id, where there is one.
    pub open spec fn message(self, id: u128) -> MessageRow {
        self.messages[self.message_index(id)]
    }

    /// Whether the message exists and this user wrote it.
    pub open spec fn wrote(self, user_id: u128, message_id: u128) -> bool {
        self.has_message(message_id) && self.message(message_id).user_id == user_id
    }

    /// Whether any message row is of this chat.
    pub open spec fn chat_has_messages(self, chat_id: u128) -> bool {
        exists|i: int|
            0 <= i < self.messages.len() && (#[trigger] self.messages[i]).chat_id == chat_id
    }

    // ---- validity -------------------------------------------------------

    /// The keys of the schema: ids are unique within each table, user names
    /// and e-mail addresses are unique, and no membership is recorded twice.
    pub open spec fn keys_unique(self) -> bool {
        &&& forall|i: int, j: int|
            0 <= i < j < self.users.len() ==> (#[trigger] self.users[i]).id != (
            #[trigger] self.users[j]).id
        &&& forall|i: int, j: int|
            0 <= i < j < self.users.len() ==> (#[trigger] self.users[i]).username@ != (
            #[trigger] self.users[j]).username@
        &&& forall|i: int, j: int|
            0 <= i < j < self.users.len() ==> (#[trigger] self.users[i]).email@ != (
            #[trigger] self.users[j]).email@
        &&& forall|i: int, j: int|
            0 <= i < j < self.chats.len() ==> (#[trigger] self.chats[i]).id != (
            #[trigger] self.chats[j]).id
        &&& forall|i: int, j: int|
            0 <= i < j < self.members.len() ==> #[trigger] self.members[i]
                != #[trigger] self.members[j]
        &&& forall|i: int, j: int|
            0 <= i < j < self.messages.len() ==> (#[trigger] self.messages[i]).id != (
            #[trigger] self.messages[j]).id
    }

    /// The references of the schema: the administrator of a chat is a user,
    /// a membership joins a user and a chat, and a message has a user as
    /// its author and a chat to be in.
    pub open spec fn references_hold(self) -> bool {
        &&& forall|i: int|
            0 <= i < self.chats.len() ==> self.has_user((#[trigger] self.chats[i]).admin_id)
        &&& forall|i: int|
            0 <= i < self.members.len() ==> self.has_user((#[trigger] self.members[i]).user_id)
                && self.has_chat(self.members[i].chat_id)
        &&& forall|i: int|
            0 <= i < self.messages.len() ==> self.has_user((#[trigger] self.messages[i]).user_id)
                && self.has_chat(self.messages[i].chat_id)
    }

    /// What the schema demands of the rows.
    pub open spec fn well_formed(self) -> bool {
        self.keys_unique() && self.references_hold()
    }

    /// Every id in the tables is below `bound`.
    pub open spec fn ids_below(self, bound: u128) -> bool {
        &&& forall|i: int| 0 <= i < self.users.len() ==> (#[trigger] self.users[i]).id < bound
        &&& forall|i: int| 0 <= i < self.chats.len() ==> (#[trigger] self.chats[i]).id < bound
        &&& forall|i: int|
            0 <= i < self.messages.len() ==> (#[trigger] self.messages[i]).id < bound
    }

    // ---- elementary changes ---------------------------------------------

    /// The tables with one more user row.
    pub open spec fn with_user(self, user: User) -> Tables {
        Tables { users: self.users.push(user), ..self }
    }

    /// The user row with this id has one column rewritten; without such a
    /// row nothing changes.
    pub open spec fn with_user_field(self, id: u128, field: UserField, value: String) -> Tables {
        if self.has_user(id) {
            let i = choose|i: int| self.user_at(i, id);
            Tables { users: self.users.update(i, user_with_field(self.users[i], field, value)), ..self }
        } else {
            self
        }
    }

    /// The tables with one more chat row.
    pub open spec fn with_chat(self, chat: ChatRow) -> Tables {
        Tables { chats: self.chats.push(chat), ..self }
    }

    /// The chat row with this id is gone; without such a row nothing changes.
    pub open spec fn without_chat(self, id: u128) -> Tables {
        if self.has_chat(id) {
            Tables { chats: self.chats.remove(self.chat_index(id)), ..self }
        } else {
            self
        }
    }

    /// The chat row with this id has a new name; without such a row nothing
    /// changes.
    pub open spec fn with_chat_name(self, id: u128, name: String) -> Tables {
        if self.has_chat(id) {
            let i = self.chat_index(id);
            Tables { chats: self.chats.update(i, ChatRow { name, ..self.chats[i] }), ..self }
        } else {
            self
        }
    }

    /// The tables with one more membership row.
    pub open spec fn with_member(self, user_id: u128, chat_id: u128) -> Tables {
        Tables { members: self.members.push(Membership { user_id, chat_id }), ..self }
    }

    /// This one membership row is gone; without such a row nothing changes.
    pub open spec fn without_member(self, user_id: u128, chat_id: u128) -> Tables {
        let m = Membership { user_id, chat_id };
        if self.members.contains(m) {
            Tables { members: self.members.remove(self.members.index_of(m)), ..self }
        } else {
            self
        }
    }

    /// The tables without the membership rows of a chat.
    pub open spec fn without_members_of(self, chat_id: u128) -> Tables {
        Tables { members: self.members.filter(membership_outside(chat_id)), ..self }
    }

    /// The tables with one more message row.
    pub open spec fn with_message(self, message: MessageRow) -> Tables {
        Tables { messages: self.messages.push(message), ..self }
    }

    /// The message row with this id has new content; without such a row
    /// nothing changes.
    pub open spec fn with_message_content(self, id: u128, content: String) -> Tables {
        if self.has_message(id) {
            let i = self.message_index(id);
            Tables {
                messages: self.messages.update(i, MessageRow { content, ..self.messages[i] }),
                ..self
            }
        } else {
            self
        }
    }

    /// The message row with this id is gone; without such a row nothing
    /// changes.
    pub open spec fn without_message(self, id: u128) -> Tables {
        if self.has_message(id) {
            Tables { messages: self.messages.remove(self.message_index(id)), ..self }
        } else {
            self
        }
    }

    /// The tables without the message rows of a chat.
    pub open spec fn without_messages_of(self, chat_id: u128) -> Tables {
        Tables { messages: self.messages.filter(message_outside(chat_id)), ..self }
    }

    // ---- the list of a user's chats --------------------------------------

    /// What the list of a user's chats shows of the chat of one membership.
    pub open spec fn listed(self, m: Membership) -> Chat {
        let chat = self.chat(m.chat_id);
        Chat { name: chat.name, chat_id: m.chat_id, admin_username: self.user(chat.admin_id).username }
    }

    /// Whether a membership row shows in the list of a user's chats: it
    /// must be the user's, and the chat and its administrator must exist.
    pub open spec fn lists(self, user_id: u128, m: Membership) -> bool {
        &&& m.user_id == user_id
        &&& self.has_chat(m.chat_id)
        &&& self.has_user(self.chat(m.chat_id).admin_id)
    }

    /// The chats of a user, as the first `n` membership rows give them, in
    /// the order of those rows.
    pub open spec fn chats_listed(self, user_id: u128, n: int) -> Seq<Chat>
        decreases n,
    {
        if n <= 0 || n > self.members.len() {
            Seq::empty()
        } else {
            let before = self.chats_listed(user_id, n - 1);
            if self.lists(user_id, self.members[n - 1]) {
                before.push(self.listed(self.members[n - 1]))
            } else {
                before
            }
        }
    }

    /// The chats that a user belongs to.
    pub open spec fn chats_of(self, user_id: u128) -> Seq<Chat> {
        self.chats_listed(user_id, self.members.len() as int)
    }
}

} // verus!
