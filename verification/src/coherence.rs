//! What ties the rooms to the store, and the chats to their
//! administrators: two conditions that every handler keeps, and why.

use vstd::prelude::*;
use crate::chat::chat::{lemma_whole_chat_gone, new_chat, with_new_chat, without_whole_chat};
use crate::model::Membership;
use crate::registry::{joined, lemma_removed, spared_by, Removal, Subscription};
use crate::store::semantics::StoreState;
use crate::store::tables::Tables;
use crate::store::validity::lemma_members_filtered;

verus! {

/// Every subscription is backed by a membership: whoever listens to the
/// room of a chat speaks for a user who belongs to the chat.
pub open spec fn backed(rooms: Seq<Subscription>, t: Tables) -> bool {
    forall|i: int|
        0 <= i < rooms.len() ==> t.is_member((#[trigger] rooms[i]).user_id, rooms[i].chat_id)
}

/// Every membership of `before` is one of `after`.
pub open spec fn members_kept(before: Tables, after: Tables) -> bool {
    forall|m: Membership| #[trigger] before.members.contains(m) ==> after.members.contains(m)
}

/// A new membership takes none away.
pub proof fn lemma_member_added_keeps(t: Tables, user_id: u128, chat_id: u128)
    ensures
        members_kept(t, t.with_member(user_id, chat_id)),
        t.with_member(user_id, chat_id).is_member(user_id, chat_id),
{
    let n = t.with_member(user_id, chat_id);
    assert forall|m: Membership| #[trigger] t.members.contains(m) implies n.members.contains(m) by {
        let k = choose|k: int| 0 <= k < t.members.len() && t.members[k] == m;
        assert(n.members[k] == m);
    }
    assert(n.members[t.members.len() as int] == (Membership { user_id, chat_id }));
}

/// Subscriptions stay backed while no membership goes away.
pub proof fn lemma_backed_while_kept(rooms: Seq<Subscription>, before: Tables, after: Tables)
    requires
        backed(rooms, before),
        members_kept(before, after),
    ensures
        backed(rooms, after),
{
    assert forall|i: int| 0 <= i < rooms.len() implies after.is_member(
        (#[trigger] rooms[i]).user_id,
        rooms[i].chat_id,
    ) by {
        let m = Membership { user_id: rooms[i].user_id, chat_id: rooms[i].chat_id };
        assert(before.members.contains(m));
    }
}

/// When a membership ends and the subscriptions that rest on it are taken
/// away, the subscriptions that are left are backed as before.
pub proof fn lemma_backed_after_eviction(
    rooms: Seq<Subscription>,
    t: Tables,
    user_id: u128,
    chat_id: u128,
)
    requires
        backed(rooms, t),
    ensures
        backed(
            rooms.filter(spared_by(Removal::UserInChat { user_id, chat_id })),
            t.without_member(user_id, chat_id),
        ),
{
    let removal = Removal::UserInChat { user_id, chat_id };
    let left = rooms.filter(spared_by(removal));
    let n = t.without_member(user_id, chat_id);
    let gone = Membership { user_id, chat_id };
    lemma_removed(rooms, removal);
    assert forall|i: int| 0 <= i < left.len() implies n.is_member(
        (#[trigger] left[i]).user_id,
        left[i].chat_id,
    ) by {
        let m = Membership { user_id: left[i].user_id, chat_id: left[i].chat_id };
        assert(rooms.contains(left[i]));
        let r = choose|r: int| 0 <= r < rooms.len() && rooms[r] == left[i];
        assert(t.is_member(rooms[r].user_id, rooms[r].chat_id));
        assert(m != gone);
        let k = choose|k: int| 0 <= k < t.members.len() && t.members[k] == m;
        if t.members.contains(gone) {
            let g = t.members.index_of(gone);
            if k < g {
                assert(n.members[k] == m);
            } else {
                assert(n.members[k - 1] == m);
            }
        }
    }
}

/// When a connection joins the room of a chat for a member of the chat,
/// the subscriptions are backed as before.
pub proof fn lemma_backed_after_join(
    rooms: Seq<Subscription>,
    t: Tables,
    connection: u128,
    chat_id: u128,
    user_id: u128,
)
    requires
        backed(rooms, t),
        t.is_member(user_id, chat_id),
    ensures
        backed(joined(rooms, connection, chat_id, user_id), t),
{
    let removal = Removal::Connection { connection };
    let left = rooms.filter(spared_by(removal));
    lemma_removed(rooms, removal);
    let all = joined(rooms, connection, chat_id, user_id);
    assert forall|i: int| 0 <= i < all.len() implies t.is_member(
        (#[trigger] all[i]).user_id,
        all[i].chat_id,
    ) by {
        if i < left.len() {
            assert(rooms.contains(left[i]));
            let r = choose|r: int| 0 <= r < rooms.len() && rooms[r] == left[i];
            assert(t.is_member(rooms[r].user_id, rooms[r].chat_id));
        }
    }
}

/// When a chat is deleted whole and its room is closed, the subscriptions
/// that are left are backed as before.
pub proof fn lemma_backed_after_chat_gone(rooms: Seq<Subscription>, t: Tables, chat_id: u128)
    requires
        backed(rooms, t),
        t.well_formed(),
    ensures
        backed(rooms.filter(spared_by(Removal::Room { chat_id })), without_whole_chat(t, chat_id)),
{
    let removal = Removal::Room { chat_id };
    let left = rooms.filter(spared_by(removal));
    let n = without_whole_chat(t, chat_id);
    lemma_removed(rooms, removal);
    lemma_members_filtered(t.members, chat_id);
    assert(n.members == t.without_members_of(chat_id).members);
    assert forall|i: int| 0 <= i < left.len() implies n.is_member(
        (#[trigger] left[i]).user_id,
        left[i].chat_id,
    ) by {
        let m = Membership { user_id: left[i].user_id, chat_id: left[i].chat_id };
        assert(rooms.contains(left[i]));
        let r = choose|r: int| 0 <= r < rooms.len() && rooms[r] == left[i];
        assert(t.is_member(rooms[r].user_id, rooms[r].chat_id));
        let k = choose|k: int| 0 <= k < t.members.len() && t.members[k] == m;
        assert(t.members[k].chat_id != chat_id);
    }
}

/// Subscriptions stay backed while the memberships stay as they are.
pub proof fn lemma_backed_same_members(rooms: Seq<Subscription>, before: Tables, after: Tables)
    requires
        backed(rooms, before),
        after.members == before.members,
    ensures
        backed(rooms, after),
{
    lemma_backed_while_kept(rooms, before, after);
}

/// The administrator of every chat is a member of it.
pub open spec fn admins_belong(t: Tables) -> bool {
    forall|i: int|
        0 <= i < t.chats.len() ==> t.is_member((#[trigger] t.chats[i]).admin_id, t.chats[i].id)
}

/// A new chat comes with its administrator as a member.
pub proof fn lemma_admins_belong_to_new_chat(store: StoreState, user_id: u128, name: String)
    requires
        admins_belong(store.tables),
    ensures
        admins_belong(with_new_chat(store, user_id, name)),
{
    let t = store.tables;
    let mid = t.with_chat(new_chat(store, user_id, name));
    let n = with_new_chat(store, user_id, name);
    lemma_member_added_keeps(mid, user_id, store.next_id);
    assert forall|i: int| 0 <= i < n.chats.len() implies n.is_member(
        (#[trigger] n.chats[i]).admin_id,
        n.chats[i].id,
    ) by {
        if i < t.chats.len() {
            let m = Membership { user_id: t.chats[i].admin_id, chat_id: t.chats[i].id };
            assert(t.members.contains(m));
            assert(mid.members.contains(m));
        }
    }
}

/// Administrators stay members when a membership ends that is not an
/// administrator's.
pub proof fn lemma_admins_belong_after_leaving(t: Tables, user_id: u128, chat_id: u128)
    requires
        admins_belong(t),
        t.keys_unique(),
        !t.administers(user_id, chat_id),
    ensures
        admins_belong(t.without_member(user_id, chat_id)),
{
    let n = t.without_member(user_id, chat_id);
    let gone = Membership { user_id, chat_id };
    assert forall|i: int| 0 <= i < n.chats.len() implies n.is_member(
        (#[trigger] n.chats[i]).admin_id,
        n.chats[i].id,
    ) by {
        let m = Membership { user_id: t.chats[i].admin_id, chat_id: t.chats[i].id };
        assert(t.members.contains(m));
        if m == gone {
            assert(t.chat_at(i, chat_id));
            let k = t.chat_index(chat_id);
            assert(t.chats[k].id == t.chats[i].id);
        } else {
            let k = choose|k: int| 0 <= k < t.members.len() && t.members[k] == m;
            if t.members.contains(gone) {
                let g = t.members.index_of(gone);
                if k < g {
                    assert(n.members[k] == m);
                } else {
                    assert(n.members[k - 1] == m);
                }
            }
        }
    }
}

/// Administrators stay members when a chat is deleted whole.
pub proof fn lemma_admins_belong_after_chat_gone(t: Tables, chat_id: u128)
    requires
        admins_belong(t),
        t.well_formed(),
    ensures
        admins_belong(without_whole_chat(t, chat_id)),
{
    let n = without_whole_chat(t, chat_id);
    lemma_members_filtered(t.members, chat_id);
    assert(n.members == t.without_members_of(chat_id).members);
    assert forall|i: int| 0 <= i < n.chats.len() implies n.is_member(
        (#[trigger] n.chats[i]).admin_id,
        n.chats[i].id,
    ) by {
        if t.has_chat(chat_id) {
            lemma_whole_chat_gone(t, chat_id);
            let g = t.chat_index(chat_id);
            let j = if i < g {
                i
            } else {
                i + 1
            };
            assert(n.chats[i] == t.chats[j]);
            assert(t.chats[j].id != t.chats[g].id);
            let m = Membership { user_id: t.chats[j].admin_id, chat_id: t.chats[j].id };
            assert(t.members.contains(m));
            let k = choose|k: int| 0 <= k < t.members.len() && t.members[k] == m;
            assert(t.members[k].chat_id != chat_id);
        } else {
            let m = Membership { user_id: t.chats[i].admin_id, chat_id: t.chats[i].id };
            assert(t.members.contains(m));
            assert(t.chat_at(i, t.chats[i].id));
            let k = choose|k: int| 0 <= k < t.members.len() && t.members[k] == m;
            assert(t.members[k].chat_id != chat_id);
        }
    }
}

} // verus!
