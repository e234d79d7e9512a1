//! What holds of the handlers taken together, proved once and for all
//! stores and all callers.

use vstd::prelude::*;
use crate::auth::authentication::{law_login, LoginFlow, LoginGrant};
use crate::auth::hashing::{password_check, PasswordCheck};
use crate::auth::jwt::JwtPayload;
use crate::auth::registration::RegisterFlow;
use crate::chat::chat::{
    create_chat_start,
    law_create_chat,
    law_create_chat_all_or_nothing,
    law_delete_chat_all_or_nothing,
    lemma_whole_chat_gone,
    CreateChat,
    DeleteChatFlow,
    MIN_CHAT_NAME_CHARS,
};
use crate::coherence::{backed, lemma_member_added_keeps};
use crate::flow::{law_run_keeps_well_formed, run, Flow};
use crate::http::{HttpError, HttpReply};
use crate::model::{Membership, User};
use crate::notice::{ErrorKind, Notice};
use crate::registry::{lemma_listeners, lemma_removed, listeners, spared_by, Removal, Subscription};
use crate::sockets::member::{
    add_member_start,
    law_add_member,
    law_leave_chat,
    leave_chat_start,
    AddMemberFlow,
    ChatMembershipInput,
    LeaveChatInput,
};
use crate::sockets::message::{
    law_delete_message,
    law_delete_message_all_or_nothing,
    law_update_message,
    law_update_message_all_or_nothing,
    DeleteMessageFlow,
    UpdateMessageFlow,
};
use crate::sockets::SocketReply;
use crate::store::protocol::Statement;
use crate::store::rows::lemma_email_found;
use crate::store::semantics::StoreState;
use crate::store::tables::Tables;
use crate::store::validity::lemma_execute_keeps_well_formed;

verus! {

/// Whenever a chat is created, the store holds the chat with its creator
/// as administrator, and exactly one membership of the chat: the
/// creator's. Against a healthy store every creation by a known user with
/// a name of three characters or more succeeds.
pub proof fn law_new_chat_has_its_creator_alone(store: StoreState, user: User, payload: CreateChat)
    requires
        store.well_formed(),
        !store.in_transaction(),
    ensures
        ({
            let (end, flow) = run(store, create_chat_start(user, payload));
            let chat_id = store.next_id;
            &&& flow.outcome() == HttpReply::Created ==> {
                &&& !store.tables.has_chat(chat_id)
                &&& !store.tables.chat_has_members(chat_id)
                &&& end.tables.has_chat(chat_id)
                &&& end.tables.chat(chat_id).admin_id == user.id
                &&& end.tables.members == store.tables.members.push(
                    Membership { user_id: user.id, chat_id },
                )
                &&& end.tables.members_of(chat_id) =~= set![user.id]
            }
            &&& store.healthy() && store.tables.has_user(user.id) && payload.name@.len()
                >= MIN_CHAT_NAME_CHARS ==> flow.outcome() == HttpReply::Created
        }),
{
    let t = store.tables;
    let chat_id = store.next_id;
    let (end, flow) = run(store, create_chat_start(user, payload));
    if payload.name@.len() < MIN_CHAT_NAME_CHARS {
        reveal_with_fuel(run, 1);
    } else {
        law_create_chat_all_or_nothing(store, user.id, payload.name);
        if store.healthy() {
            law_create_chat(store, user.id, payload.name);
        }
        if flow.outcome() == HttpReply::Created {
            assert(!t.has_chat(chat_id)) by {
                if t.has_chat(chat_id) {
                    let k = choose|k: int| t.chat_at(k, chat_id);
                    assert(t.chats[k].id < store.next_id);
                }
            }
            assert(!t.chat_has_members(chat_id)) by {
                if t.chat_has_members(chat_id) {
                    let k = choose|k: int|
                        0 <= k < t.members.len() && (#[trigger] t.members[k]).chat_id == chat_id;
                    assert(t.has_chat(t.members[k].chat_id));
                }
            }
            let n = end.tables;
            assert(n.chat_at(t.chats.len() as int, chat_id));
            let k = n.chat_index(chat_id);
            if k < t.chats.len() {
                assert(t.chat_at(k, chat_id));
            }
            let m = Membership { user_id: user.id, chat_id };
            assert(n.members[t.members.len() as int] == m);
            assert forall|other: u128| n.is_member(other, chat_id) implies other == user.id by {
                let row = Membership { user_id: other, chat_id };
                let j = choose|j: int| 0 <= j < n.members.len() && n.members[j] == row;
                if j < t.members.len() {
                    assert(t.members[j].chat_id == chat_id);
                }
            }
        }
    }
}

/// The deletion of a chat is all or nothing: after a deletion that
/// succeeded, no membership and no message is of the chat and the chat is
/// gone; after one that did not, every row is as it was.
pub proof fn law_deleted_chat_leaves_nothing(store: StoreState, user: User, chat_id: u128)
    requires
        store.well_formed(),
        !store.in_transaction(),
    ensures
        ({
            let (end, flow) = run(store, DeleteChatFlow::CheckAdmin { user_id: user.id, chat_id });
            if flow.outcome() == HttpReply::NoContent {
                &&& store.tables.administers(user.id, chat_id)
                &&& !end.tables.has_chat(chat_id)
                &&& !end.tables.chat_has_members(chat_id)
                &&& !end.tables.chat_has_messages(chat_id)
                &&& end.tables.users == store.tables.users
            } else {
                end.tables == store.tables
            }
        }),
{
    law_delete_chat_all_or_nothing(store, user.id, chat_id);
    if store.tables.has_chat(chat_id) {
        lemma_whole_chat_gone(store.tables, chat_id);
    }
}

/// Where every subscription is backed by a membership, whatever is sent
/// to the room of a chat reaches only connections that speak for members
/// of the chat.
pub proof fn law_only_members_hear(
    rooms: Seq<Subscription>,
    t: Tables,
    chat_id: u128,
    connection: u128,
)
    requires
        backed(rooms, t),
        listeners(rooms, chat_id).contains(connection),
    ensures
        exists|i: int|
            0 <= i < rooms.len() && (#[trigger] rooms[i]).connection == connection
                && rooms[i].chat_id == chat_id && t.is_member(rooms[i].user_id, chat_id),
{
    lemma_listeners(rooms, chat_id);
    let i = choose|i: int|
        0 <= i < rooms.len() && (#[trigger] rooms[i]).connection == connection
            && rooms[i].chat_id == chat_id;
    assert(t.is_member(rooms[i].user_id, rooms[i].chat_id));
}

/// Once a user's membership of a chat has ended and the rooms have been
/// told, no connection that speaks for the user is left in the room of
/// the chat, however it came to be there.
pub proof fn law_former_members_hear_nothing(
    rooms: Seq<Subscription>,
    user_id: u128,
    chat_id: u128,
    connection: u128,
)
    requires
        listeners(rooms.filter(spared_by(Removal::UserInChat { user_id, chat_id })), chat_id).contains(
            connection,
        ),
    ensures
        exists|i: int|
            0 <= i < rooms.len() && (#[trigger] rooms[i]).connection == connection
                && rooms[i].chat_id == chat_id && rooms[i].user_id != user_id,
{
    let removal = Removal::UserInChat { user_id, chat_id };
    let left = rooms.filter(spared_by(removal));
    lemma_listeners(left, chat_id);
    lemma_removed(rooms, removal);
    let i = choose|i: int|
        0 <= i < left.len() && (#[trigger] left[i]).connection == connection && left[i].chat_id
            == chat_id;
    assert(rooms.contains(left[i]));
    let k = choose|k: int| 0 <= k < rooms.len() && rooms[k] == left[i];
    assert(rooms[k].connection == connection);
}

/// Nobody adds themselves to a chat, whatever their role in it: the
/// attempt never succeeds and never changes a row, and a caller whom the
/// store knows is told that the input is invalid.
pub proof fn law_nobody_adds_themselves(store: StoreState, caller: JwtPayload, chat_id: u128)
    ensures
        ({
            let input = ChatMembershipInput { user_id: caller.id, chat_id };
            let (end, flow) = run(store, add_member_start(Some(caller), Some(input)));
            &&& end.tables == store.tables
            &&& flow.outcome() matches SocketReply::Tell(notice)
            &&& !notice.is_success()
            &&& store.budget is None && store.tables.has_user(caller.id) ==> notice
                == Notice::SelfAdd
        }),
        Notice::SelfAdd.kind_of() == Some(ErrorKind::InvalidInput),
{
    reveal_with_fuel(run, 4);
}

/// The administrator of a chat cannot leave it: the attempt never
/// succeeds and never changes a row.
pub proof fn law_admin_cannot_leave(store: StoreState, caller: JwtPayload, chat_id: u128)
    requires
        store.tables.administers(caller.id, chat_id),
    ensures
        ({
            let (end, flow) = run(
                store,
                leave_chat_start(Some(caller), Some(LeaveChatInput { chat_id })),
            );
            &&& end.tables == store.tables
            &&& flow.outcome() matches SocketReply::Tell(notice)
            &&& !notice.is_success()
            &&& store.budget is None && store.tables.has_user(caller.id) ==> notice
                == Notice::AdminCannotLeave
        }),
        Notice::AdminCannotLeave.kind_of() == Some(ErrorKind::Forbidden),
{
    reveal_with_fuel(run, 4);
}

/// A member of a chat who is not its administrator leaves it whenever the
/// store can be reached, and leaving removes exactly one membership row:
/// the leaver's.
pub proof fn law_member_leaves(store: StoreState, caller: JwtPayload, chat_id: u128)
    requires
        store.well_formed(),
        store.budget is None,
        store.tables.is_member(caller.id, chat_id),
        !store.tables.administers(caller.id, chat_id),
    ensures
        ({
            let (end, flow) = run(
                store,
                leave_chat_start(Some(caller), Some(LeaveChatInput { chat_id })),
            );
            let row = Membership { user_id: caller.id, chat_id };
            &&& flow.outcome() == SocketReply::Evict {
                user_id: caller.id,
                chat_id,
                notice: Notice::Left,
            }
            &&& end.tables.members == store.tables.members.remove(
                store.tables.members.index_of(row),
            )
            &&& end.tables.members.len() == store.tables.members.len() - 1
            &&& !end.tables.is_member(caller.id, chat_id)
            &&& end.tables.users == store.tables.users
            &&& end.tables.chats == store.tables.chats
            &&& end.tables.messages == store.tables.messages
        }),
{
    let t = store.tables;
    let row = Membership { user_id: caller.id, chat_id };
    let input = Some(LeaveChatInput { chat_id });
    law_leave_chat(store, Some(caller), input);
    let k = t.members.index_of(row);
    assert(t.has_user(t.members[k].user_id));
    assert(t.has_chat(t.members[k].chat_id));
    let n = t.without_member(caller.id, chat_id);
    if n.is_member(caller.id, chat_id) {
        let j = choose|j: int| 0 <= j < n.members.len() && n.members[j] == row;
        if j < k {
            assert(t.members[j] == t.members[k]);
        } else {
            assert(t.members[j + 1] == t.members[k]);
        }
    }
}

/// Only its author edits a message: for anyone else the attempt changes
/// no row, and a caller whom the store knows is told the same thing
/// whether the message exists or not, member of the chat or not.
pub proof fn law_only_authors_edit(
    store: StoreState,
    caller_id: u128,
    content: String,
    message_id: u128,
)
    requires
        !store.tables.wrote(caller_id, message_id),
    ensures
        ({
            let start = UpdateMessageFlow::Identify { caller_id, content, message_id };
            let (end, flow) = run(store, start);
            &&& end.tables == store.tables
            &&& flow.outcome() matches SocketReply::Tell(notice)
            &&& !notice.is_success()
            &&& store.budget is None && store.tables.has_user(caller_id) ==> notice
                == Notice::UpdateRefused
        }),
        Notice::UpdateRefused.kind_of() == Some(ErrorKind::NotFoundOrForbidden),
{
    law_update_message_all_or_nothing(store, caller_id, content, message_id);
    if store.budget is None {
        law_update_message(store, caller_id, content, message_id);
    }
}

/// Only its author deletes a message: for anyone else the attempt changes
/// no row, and a caller whom the store knows is told the same thing
/// whether the message exists or not, member of the chat or not.
pub proof fn law_only_authors_delete(store: StoreState, caller_id: u128, message_id: u128)
    requires
        !store.tables.wrote(caller_id, message_id),
    ensures
        ({
            let start = DeleteMessageFlow::Identify { caller_id, message_id };
            let (end, flow) = run(store, start);
            &&& end.tables == store.tables
            &&& flow.outcome() matches SocketReply::Tell(notice)
            &&& !notice.is_success()
            &&& store.budget is None && store.tables.has_user(caller_id) ==> notice
                == Notice::DeleteRefused
        }),
        Notice::DeleteRefused.kind_of() == Some(ErrorKind::NotFoundOrForbidden),
{
    law_delete_message_all_or_nothing(store, caller_id, message_id);
    if store.budget is None {
        law_delete_message(store, caller_id, message_id);
    }
}

/// Whoever has registered logs in with the password that was hashed at
/// registration: the login that follows a registration is granted to the
/// new user.
pub proof fn law_registered_user_logs_in(
    store: StoreState,
    username: String,
    email: String,
    password: String,
    password_hash: String,
)
    requires
        store.well_formed(),
        store.budget is None,
        password_check(password@, password_hash@) == PasswordCheck::Matches,
    ensures
        ({
            let (registered, registration) = run(
                store,
                RegisterFlow::Insert { username, email, password_hash },
            );
            let (end, login) = run(registered, LoginFlow::FindUser { email, password });
            registration.outcome() == HttpReply::Created ==> {
                &&& end == registered
                &&& login.outcome() == Ok::<LoginGrant, HttpError>(
                    LoginGrant { user_id: store.next_id, username },
                )
            }
        }),
{
    let insert = Statement::InsertUser { username, email, password: password_hash };
    let (registered, registration) = run(
        store,
        RegisterFlow::Insert { username, email, password_hash },
    );
    reveal_with_fuel(run, 2);
    if registration.outcome() == HttpReply::Created {
        lemma_execute_keeps_well_formed(store, insert);
        law_login(registered, email, password);
        lemma_email_found(registered.tables, store.tables.users.len() as int, email@);
    }
}

/// Of two invitations of the same user into the same chat, one after the
/// other, the second is told that the user is a member already: the
/// uniqueness of the pair in the store decides, and nothing else has to.
pub proof fn law_second_invitation_conflicts(
    store: StoreState,
    first: JwtPayload,
    second: JwtPayload,
    input: ChatMembershipInput,
)
    requires
        store.budget is None,
        second.id != input.user_id,
        store.tables.has_user(second.id),
        store.tables.is_member(second.id, input.chat_id),
    ensures
        ({
            let (between, one) = run(store, add_member_start(Some(first), Some(input)));
            let (end, two) = run(between, add_member_start(Some(second), Some(input)));
            one == AddMemberFlow::Finished(SocketReply::Tell(Notice::MemberAdded)) ==> {
                &&& two == AddMemberFlow::Finished(SocketReply::Tell(Notice::AlreadyMember))
                &&& end == between
            }
        }),
        Notice::AlreadyMember.kind_of() == Some(ErrorKind::Conflict),
{
    let (between, one) = run(store, add_member_start(Some(first), Some(input)));
    law_add_member(store, Some(first), Some(input));
    law_add_member(between, Some(second), Some(input));
    if one == AddMemberFlow::Finished(SocketReply::Tell(Notice::MemberAdded)) {
        lemma_member_added_keeps(store.tables, input.user_id, input.chat_id);
        let m = Membership { user_id: second.id, chat_id: input.chat_id };
        assert(store.tables.members.contains(m));
        let k = choose|k: int| store.tables.user_at(k, second.id);
        assert(between.tables.user_at(k, second.id));
    }
}

/// Creations do not mix: of two chats created one after the other, by the
/// same user or by different ones, each has its own id, its own creator
/// as administrator, and that creator as its only member.
pub proof fn law_creations_do_not_mix(
    store: StoreState,
    first: User,
    one: CreateChat,
    second: User,
    two: CreateChat,
)
    requires
        store.well_formed(),
        !store.in_transaction(),
    ensures
        ({
            let (between, earlier) = run(store, create_chat_start(first, one));
            let (end, later) = run(between, create_chat_start(second, two));
            let x = store.next_id;
            let y = between.next_id;
            earlier.outcome() == HttpReply::Created && later.outcome() == HttpReply::Created ==> {
                &&& x != y
                &&& end.tables.has_chat(x)
                &&& end.tables.has_chat(y)
                &&& end.tables.chat(x).admin_id == first.id
                &&& end.tables.chat(y).admin_id == second.id
                &&& end.tables.members_of(x) =~= set![first.id]
                &&& end.tables.members_of(y) =~= set![second.id]
            }
        }),
{
    let (between, earlier) = run(store, create_chat_start(first, one));
    let (end, later) = run(between, create_chat_start(second, two));
    let x = store.next_id;
    let y = between.next_id;
    law_new_chat_has_its_creator_alone(store, first, one);
    law_run_keeps_well_formed(store, create_chat_start(first, one));
    if one.name@.len() < MIN_CHAT_NAME_CHARS {
        reveal_with_fuel(run, 1);
    } else {
        law_create_chat_all_or_nothing(store, first.id, one.name);
    }
    law_new_chat_has_its_creator_alone(between, second, two);
    if earlier.outcome() == HttpReply::Created && later.outcome() == HttpReply::Created {
        let b = between.tables;
        let n = end.tables;
        if two.name@.len() < MIN_CHAT_NAME_CHARS {
            reveal_with_fuel(run, 1);
        } else {
            law_create_chat_all_or_nothing(between, second.id, two.name);
        }
        assert(b.has_chat(x));
        assert(x != y);
        let k = b.chat_index(x);
        assert(n.chat_at(k, x));
        let j = n.chat_index(x);
        assert(n.chats[j].id == n.chats[k].id);
        assert forall|user_id: u128| n.is_member(user_id, x) <==> b.is_member(user_id, x) by {
            let row = Membership { user_id, chat_id: x };
            if n.is_member(user_id, x) {
                let i = choose|i: int| 0 <= i < n.members.len() && n.members[i] == row;
                assert(b.members[i] == row);
            }
            if b.is_member(user_id, x) {
                let i = choose|i: int| 0 <= i < b.members.len() && b.members[i] == row;
                assert(n.members[i] == row);
            }
        }
    }
}

} // verus!
