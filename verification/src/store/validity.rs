//! Every statement keeps the keys of the schema unique.

use vstd::prelude::*;
use crate::model::{Membership, MessageRow};
use crate::store::protocol::Statement;
use crate::store::semantics::StoreState;
use crate::store::tables::{membership_outside, message_outside, Tables};

verus! {

/// A bulk deletion of memberships leaves no membership twice, and leaves
/// only memberships that were there.
pub proof fn lemma_members_filtered(s: Seq<Membership>, chat_id: u128)
    requires
        forall|i: int, j: int| 0 <= i < j < s.len() ==> #[trigger] s[i] != #[trigger] s[j],
    ensures
        forall|i: int, j: int|
            0 <= i < j < s.filter(membership_outside(chat_id)).len() ==> #[trigger] s.filter(
                membership_outside(chat_id),
            )[i] != #[trigger] s.filter(membership_outside(chat_id))[j],
        forall|i: int|
            0 <= i < s.filter(membership_outside(chat_id)).len() ==> s.contains(
                #[trigger] s.filter(membership_outside(chat_id))[i],
            ) && s.filter(membership_outside(chat_id))[i].chat_id != chat_id,
        forall|i: int|
            0 <= i < s.len() && s[i].chat_id != chat_id ==> s.filter(
                membership_outside(chat_id),
            ).contains(#[trigger] s[i]),
    decreases s.len(),
{
    reveal(Seq::filter);
    let keep = membership_outside(chat_id);
    let f = s.filter(keep);
    if s.len() > 0 {
        let rest = s.drop_last();
        lemma_members_filtered(rest, chat_id);
        let g = rest.filter(keep);
        assert forall|i: int| 0 <= i < g.len() implies g[i] != s.last() by {
            assert(rest.contains(g[i]));
            let k = choose|k: int| 0 <= k < rest.len() && rest[k] == g[i];
            assert(s[k] == g[i]);
        }
        assert forall|i: int| 0 <= i < f.len() implies s.contains(#[trigger] f[i]) && f[i].chat_id
            != chat_id by {
            if i < g.len() {
                assert(rest.contains(g[i]));
                let k = choose|k: int| 0 <= k < rest.len() && rest[k] == g[i];
                assert(s[k] == f[i]);
            } else {
                assert(s[s.len() - 1] == f[i]);
            }
        }
        assert forall|i: int| 0 <= i < s.len() && s[i].chat_id != chat_id implies f.contains(
            #[trigger] s[i],
        ) by {
            if i < rest.len() {
                assert(rest[i] == s[i]);
                assert(g.contains(rest[i]));
                let k = choose|k: int| 0 <= k < g.len() && g[k] == rest[i];
                assert(f[k] == s[i]);
            } else {
                assert(f[f.len() - 1] == s[i]);
            }
        }
    }
}

/// A bulk deletion of messages leaves no id twice, and leaves only messages
/// that were there.
pub proof fn lemma_messages_filtered(s: Seq<MessageRow>, chat_id: u128)
    requires
        forall|i: int, j: int|
            0 <= i < j < s.len() ==> (#[trigger] s[i]).id != (#[trigger] s[j]).id,
    ensures
        forall|i: int, j: int|
            0 <= i < j < s.filter(message_outside(chat_id)).len() ==> (#[trigger] s.filter(
                message_outside(chat_id),
            )[i]).id != (#[trigger] s.filter(message_outside(chat_id))[j]).id,
        forall|i: int|
            0 <= i < s.filter(message_outside(chat_id)).len() ==> s.contains(
                #[trigger] s.filter(message_outside(chat_id))[i],
            ) && s.filter(message_outside(chat_id))[i].chat_id != chat_id,
        forall|i: int|
            0 <= i < s.len() && s[i].chat_id != chat_id ==> s.filter(
                message_outside(chat_id),
            ).contains(#[trigger] s[i]),
    decreases s.len(),
{
    reveal(Seq::filter);
    let keep = message_outside(chat_id);
    let f = s.filter(keep);
    if s.len() > 0 {
        let rest = s.drop_last();
        lemma_messages_filtered(rest, chat_id);
        let g = rest.filter(keep);
        assert forall|i: int| 0 <= i < g.len() implies g[i].id != s.last().id by {
            assert(rest.contains(g[i]));
            let k = choose|k: int| 0 <= k < rest.len() && rest[k] == g[i];
            assert(s[k] == g[i]);
        }
        assert forall|i: int| 0 <= i < f.len() implies s.contains(#[trigger] f[i]) && f[i].chat_id
            != chat_id by {
            if i < g.len() {
                assert(rest.contains(g[i]));
                let k = choose|k: int| 0 <= k < rest.len() && rest[k] == g[i];
                assert(s[k] == f[i]);
            } else {
                assert(s[s.len() - 1] == f[i]);
            }
        }
        assert forall|i: int| 0 <= i < s.len() && s[i].chat_id != chat_id implies f.contains(
            #[trigger] s[i],
        ) by {
            if i < rest.len() {
                assert(rest[i] == s[i]);
                assert(g.contains(rest[i]));
                let k = choose|k: int| 0 <= k < g.len() && g[k] == rest[i];
                assert(f[k] == s[i]);
            } else {
                assert(f[f.len() - 1] == s[i]);
            }
        }
    }
}

/// Tables whose ids lie below a bound keep them below any larger bound.
pub proof fn lemma_ids_below_grows(t: Tables, bound: u128, larger: u128)
    requires
        t.ids_below(bound),
        bound <= larger,
    ensures
        t.ids_below(larger),
{
}

/// Every user row of `before` is still in `after`, at its place and with
/// its id.
pub open spec fn users_kept(before: Tables, after: Tables) -> bool {
    &&& before.users.len() <= after.users.len()
    &&& forall|i: int|
        0 <= i < before.users.len() ==> (#[trigger] after.users[i]).id == before.users[i].id
}

/// Every chat row of `before` is still in `after`, at its place and with
/// its id.
pub open spec fn chats_kept(before: Tables, after: Tables) -> bool {
    &&& before.chats.len() <= after.chats.len()
    &&& forall|i: int|
        0 <= i < before.chats.len() ==> (#[trigger] after.chats[i]).id == before.chats[i].id
}

/// Every row of `after` refers to users and chats that `before` holds.
pub open spec fn refers_into(after: Tables, before: Tables) -> bool {
    &&& forall|i: int|
        0 <= i < after.chats.len() ==> before.has_user((#[trigger] after.chats[i]).admin_id)
    &&& forall|i: int|
        0 <= i < after.members.len() ==> before.has_user((#[trigger] after.members[i]).user_id)
            && before.has_chat(after.members[i].chat_id)
    &&& forall|i: int|
        0 <= i < after.messages.len() ==> before.has_user((#[trigger] after.messages[i]).user_id)
            && before.has_chat(after.messages[i].chat_id)
}

/// Users that are kept are still there.
pub proof fn lemma_users_kept(before: Tables, after: Tables)
    requires
        users_kept(before, after),
    ensures
        forall|id: u128| #[trigger] before.has_user(id) ==> after.has_user(id),
{
    assert forall|id: u128| #[trigger] before.has_user(id) implies after.has_user(id) by {
        let k = choose|k: int| before.user_at(k, id);
        assert(after.user_at(k, id));
    }
}

/// Chats that are kept are still there.
pub proof fn lemma_chats_kept(before: Tables, after: Tables)
    requires
        chats_kept(before, after),
    ensures
        forall|id: u128| #[trigger] before.has_chat(id) ==> after.has_chat(id),
{
    assert forall|id: u128| #[trigger] before.has_chat(id) implies after.has_chat(id) by {
        let k = choose|k: int| before.chat_at(k, id);
        assert(after.chat_at(k, id));
    }
}

/// Where no user and no chat goes away, rows that referred to something
/// still do.
pub proof fn lemma_references_carry(before: Tables, after: Tables)
    requires
        users_kept(before, after),
        chats_kept(before, after),
        refers_into(after, before),
    ensures
        after.references_hold(),
{
    lemma_users_kept(before, after);
    lemma_chats_kept(before, after);
}

/// The references still hold after a statement.
proof fn lemma_run_keeps_references(s: StoreState, statement: Statement)
    requires
        s.well_formed(),
    ensures
        s.run(statement).0.tables.references_hold(),
{
    let t = s.tables;
    let n = s.run(statement).0.tables;
    match statement {
        Statement::InsertUser { username, email, password } => {
            lemma_references_carry(t, n);
        },
        Statement::UpdateUser { id, field, value } => {
            lemma_references_carry(t, n);
        },
        Statement::InsertChat { name, admin_id } => {
            lemma_references_carry(t, n);
        },
        Statement::InsertMembership { user_id, chat_id } => {
            lemma_references_carry(t, n);
        },
        Statement::DeleteMembership { user_id, chat_id } => {
            lemma_references_carry(t, n);
        },
        Statement::DeleteMembershipsOfChat { chat_id } => {
            lemma_members_filtered(t.members, chat_id);
            assert forall|i: int| 0 <= i < n.members.len() implies t.has_user(
                (#[trigger] n.members[i]).user_id,
            ) && t.has_chat(n.members[i].chat_id) by {
                assert(t.members.contains(n.members[i]));
                let k = choose|k: int| 0 <= k < t.members.len() && t.members[k] == n.members[i];
                assert(t.has_user(t.members[k].user_id));
            }
            lemma_references_carry(t, n);
        },
        Statement::DeleteMessagesOfChat { chat_id } => {
            lemma_messages_filtered(t.messages, chat_id);
            assert forall|i: int| 0 <= i < n.messages.len() implies t.has_user(
                (#[trigger] n.messages[i]).user_id,
            ) && t.has_chat(n.messages[i].chat_id) by {
                assert(t.messages.contains(n.messages[i]));
                let k = choose|k: int| 0 <= k < t.messages.len() && t.messages[k] == n.messages[i];
                assert(t.has_user(t.messages[k].user_id));
            }
            lemma_references_carry(t, n);
        },
        Statement::DeleteChat { chat_id, admin_id } => {
            if t.administers(admin_id, chat_id) && !t.chat_has_members(chat_id)
                && !t.chat_has_messages(chat_id) {
                let gone = t.chat_index(chat_id);
                lemma_users_kept(t, n);
                assert forall|id: u128| id != chat_id && #[trigger] t.has_chat(id) implies n.has_chat(
                    id,
                ) by {
                    let k = choose|k: int| t.chat_at(k, id);
                    if k < gone {
                        assert(n.chat_at(k, id));
                    } else {
                        assert(n.chat_at(k - 1, id));
                    }
                }
                assert forall|i: int| 0 <= i < n.chats.len() implies n.has_user(
                    (#[trigger] n.chats[i]).admin_id,
                ) by {
                    if i < gone {
                        assert(t.has_user(t.chats[i].admin_id));
                    } else {
                        assert(t.has_user(t.chats[i + 1].admin_id));
                    }
                }
                assert forall|i: int| 0 <= i < n.members.len() implies n.has_user(
                    (#[trigger] n.members[i]).user_id,
                ) && n.has_chat(n.members[i].chat_id) by {
                    assert(t.has_user(t.members[i].user_id));
                    assert(t.members[i].chat_id != chat_id);
                }
                assert forall|i: int| 0 <= i < n.messages.len() implies n.has_user(
                    (#[trigger] n.messages[i]).user_id,
                ) && n.has_chat(n.messages[i].chat_id) by {
                    assert(t.has_user(t.messages[i].user_id));
                    assert(t.messages[i].chat_id != chat_id);
                }
            }
        },
        Statement::RenameChat { chat_id, name } => {
            lemma_references_carry(t, n);
        },
        Statement::InsertMessage { content, user_id, chat_id } => {
            lemma_references_carry(t, n);
        },
        Statement::UpdateMessage { content, message_id, user_id } => {
            lemma_references_carry(t, n);
        },
        Statement::DeleteMessage { message_id, user_id } => {
            lemma_references_carry(t, n);
        },
        _ => {},
    }
}

/// The keys are still unique, and every id still below the next one, after
/// a statement.
proof fn lemma_run_keeps_keys(s: StoreState, statement: Statement)
    requires
        s.well_formed(),
    ensures
        s.run(statement).0.tables.keys_unique(),
        s.run(statement).0.tables.ids_below(s.run(statement).0.next_id),
        s.next_id <= s.run(statement).0.next_id,
{
    let r = s.run(statement).0;
    let t = s.tables;
    match statement {
        Statement::InsertUser { username, email, password } => {
            if !(t.has_username(username@) || t.has_email(email@)) && s.next_id != u128::MAX {
                assert forall|i: int| 0 <= i < t.users.len() implies (#[trigger] t.users[i]).username@
                    != username@ && t.users[i].email@ != email@ by {
                    assert(!t.username_at(i, username@));
                    assert(!t.email_at(i, email@));
                }
            }
        },
        Statement::UpdateUser { id, field, value } => {
            if t.has_user(id) && !t.clashes(id, field, value@) {
                let k = choose|k: int| t.user_at(k, id);
                assert forall|i: int| 0 <= i < t.users.len() && i != k implies (
                #[trigger] t.users[i]).id != id by {
                    assert(t.users[i].id != t.users[k].id);
                }
                let u = r.tables.users;
                assert forall|i: int, j: int| 0 <= i < j < u.len() implies (#[trigger] u[i]).username@
                    != (#[trigger] u[j]).username@ && u[i].email@ != u[j].email@ && u[i].id
                    != u[j].id by {
                    assert(t.users[i].id != t.users[j].id);
                    assert(t.users[i].username@ != t.users[j].username@);
                    assert(t.users[i].email@ != t.users[j].email@);
                    if i == k {
                        assert(!t.clash_at(j, id, field, value@));
                    } else if j == k {
                        assert(!t.clash_at(i, id, field, value@));
                    }
                }
            }
        },
        Statement::DeleteMembershipsOfChat { chat_id } => {
            lemma_members_filtered(t.members, chat_id);
        },
        Statement::DeleteMessagesOfChat { chat_id } => {
            lemma_messages_filtered(t.messages, chat_id);
            let f = t.messages.filter(message_outside(chat_id));
            assert forall|i: int| 0 <= i < f.len() implies (#[trigger] f[i]).id < s.next_id by {
                assert(t.messages.contains(f[i]));
            }
        },
        _ => {},
    }
}

/// Every statement takes a valid store to a valid store.
pub proof fn lemma_execute_keeps_well_formed(s: StoreState, statement: Statement)
    requires
        s.well_formed(),
    ensures
        s.execute(statement).0.well_formed(),
{
    if statement is Rollback || s.budget == Some(0nat) {
    } else {
        let spent = s.spent();
        lemma_run_keeps_keys(spent, statement);
        lemma_run_keeps_references(spent, statement);
        let r = spent.run(statement).0;
        match spent.saved {
            Some(before) => {
                lemma_ids_below_grows(before, s.next_id, r.next_id);
            },
            None => {},
        }
    }
}

/// No statement moves the clock, uses an id up without need, or brings an
/// outage nearer than it was promised: the time stays, the next id does
/// not go down, and where no outage lies ahead none comes.
pub proof fn lemma_execute_keeps_clock(s: StoreState, statement: Statement)
    ensures
        s.execute(statement).0.now == s.now,
        s.execute(statement).0.next_id >= s.next_id,
        s.budget is None ==> s.execute(statement).0.budget is None,
{
}

} // verus!
