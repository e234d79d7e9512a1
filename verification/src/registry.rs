//! The room subscription registry: which live connection listens to the
//! room of which chat. It lives in the memory of one process and is lost
//! with it; connections join again when they come back.

use vstd::prelude::*;
use crate::notice::Notice;
use crate::sockets::{RoomEvent, SocketReply};

verus! {

/// One connection in one room, with the user it speaks for.
#[derive(Debug, Clone, Copy, PartialEq, Eq, Structural)]
pub struct Subscription {
    pub connection: u128,
    pub user_id: u128,
    pub chat_id: u128,
}

/// Which subscriptions a change to the registry takes away.
#[derive(Debug, Clone, Copy, PartialEq, Eq, Structural)]
pub enum Removal {
    /// The one subscription of a connection.
    Connection { connection: u128 },
    /// Every subscription to the room of a chat that speaks for a user.
    UserInChat { user_id: u128, chat_id: u128 },
    /// Every subscription to the room of a chat.
    Room { chat_id: u128 },
}

impl Removal {
    /// Whether the removal leaves a subscription in place.
    pub open spec fn spares(self, s: Subscription) -> bool {
        match self {
            Removal::Connection { connection } => s.connection != connection,
            Removal::UserInChat { user_id, chat_id } => !(s.user_id == user_id && s.chat_id
                == chat_id),
            Removal::Room { chat_id } => s.chat_id != chat_id,
        }
    }

    fn keeps(&self, s: &Subscription) -> (kept: bool)
        ensures
            kept == self.spares(*s),
    {
        match self {
            Removal::Connection { connection } => s.connection != *connection,
            Removal::UserInChat { user_id, chat_id } => !(s.user_id == *user_id && s.chat_id
                == *chat_id),
            Removal::Room { chat_id } => s.chat_id != *chat_id,
        }
    }
}

/// The subscriptions that a removal leaves.
pub open spec fn spared_by(removal: Removal) -> spec_fn(Subscription) -> bool {
    |s: Subscription| removal.spares(s)
}

/// No connection is subscribed twice: a connection is in at most one room.
pub open spec fn one_room_each(subs: Seq<Subscription>) -> bool {
    forall|i: int, j: int|
        0 <= i < j < subs.len() ==> (#[trigger] subs[i]).connection != (
        #[trigger] subs[j]).connection
}

/// The room that a connection is in, if it is in one.
pub open spec fn room_of(subs: Seq<Subscription>, connection: u128) -> Option<u128>
    decreases subs.len(),
{
    if subs.len() == 0 {
        None
    } else if subs.last().connection == connection {
        Some(subs.last().chat_id)
    } else {
        room_of(subs.drop_last(), connection)
    }
}

/// The connections in the room of a chat, in the order in which they
/// joined.
pub open spec fn listeners(subs: Seq<Subscription>, chat_id: u128) -> Seq<u128>
    decreases subs.len(),
{
    if subs.len() == 0 {
        Seq::empty()
    } else {
        let before = listeners(subs.drop_last(), chat_id);
        if subs.last().chat_id == chat_id {
            before.push(subs.last().connection)
        } else {
            before
        }
    }
}

/// The subscriptions once a connection has joined the room of a chat: it
/// has left the room it was in, if any, and is the newest in this one.
pub open spec fn joined(
    subs: Seq<Subscription>,
    connection: u128,
    chat_id: u128,
    user_id: u128,
) -> Seq<Subscription> {
    subs.filter(spared_by(Removal::Connection { connection })).push(
        Subscription { connection, user_id, chat_id },
    )
}

/// A removal leaves only subscriptions that were there and that it
/// spares, leaves all of those, and leaves no connection twice.
pub proof fn lemma_removed(subs: Seq<Subscription>, removal: Removal)
    ensures
        forall|i: int|
            0 <= i < subs.filter(spared_by(removal)).len() ==> subs.contains(
                #[trigger] subs.filter(spared_by(removal))[i],
            ) && removal.spares(subs.filter(spared_by(removal))[i]),
        forall|i: int|
            0 <= i < subs.len() && removal.spares(subs[i]) ==> subs.filter(
                spared_by(removal),
            ).contains(#[trigger] subs[i]),
        one_room_each(subs) ==> one_room_each(subs.filter(spared_by(removal))),
    decreases subs.len(),
{
    reveal(Seq::filter);
    let keep = spared_by(removal);
    let f = subs.filter(keep);
    if subs.len() > 0 {
        let rest = subs.drop_last();
        lemma_removed(rest, removal);
        let g = rest.filter(keep);
        assert forall|i: int| 0 <= i < f.len() implies subs.contains(#[trigger] f[i])
            && removal.spares(f[i]) by {
            if i < g.len() {
                assert(rest.contains(g[i]));
                let k = choose|k: int| 0 <= k < rest.len() && rest[k] == g[i];
                assert(subs[k] == f[i]);
            } else {
                assert(subs[subs.len() - 1] == f[i]);
            }
        }
        assert forall|i: int| 0 <= i < subs.len() && removal.spares(subs[i]) implies f.contains(
            #[trigger] subs[i],
        ) by {
            if i < rest.len() {
                assert(rest[i] == subs[i]);
                assert(g.contains(rest[i]));
                let k = choose|k: int| 0 <= k < g.len() && g[k] == rest[i];
                assert(f[k] == subs[i]);
            } else {
                assert(f[f.len() - 1] == subs[i]);
            }
        }
        if one_room_each(subs) {
            assert(one_room_each(rest)) by {
                assert forall|i: int, j: int| 0 <= i < j < rest.len() implies (
                #[trigger] rest[i]).connection != (#[trigger] rest[j]).connection by {
                    assert(subs[i].connection != subs[j].connection);
                }
            }
            assert forall|i: int| 0 <= i < g.len() implies (#[trigger] g[i]).connection
                != subs.last().connection by {
                assert(rest.contains(g[i]));
                let k = choose|k: int| 0 <= k < rest.len() && rest[k] == g[i];
                assert(subs[k].connection != subs[subs.len() - 1].connection);
            }
        }
    }
}

/// A connection is among the listeners of a room exactly when it is
/// subscribed to it.
pub proof fn lemma_listeners(subs: Seq<Subscription>, chat_id: u128)
    ensures
        forall|connection: u128| #[trigger]
            listeners(subs, chat_id).contains(connection) <==> exists|i: int|
                0 <= i < subs.len() && (#[trigger] subs[i]).connection == connection
                    && subs[i].chat_id == chat_id,
    decreases subs.len(),
{
    let all = listeners(subs, chat_id);
    if subs.len() > 0 {
        let rest = subs.drop_last();
        lemma_listeners(rest, chat_id);
        let before = listeners(rest, chat_id);
        assert forall|connection: u128| #[trigger]
            all.contains(connection) <==> exists|i: int|
                0 <= i < subs.len() && (#[trigger] subs[i]).connection == connection
                    && subs[i].chat_id == chat_id by {
            if all.contains(connection) {
                let k = choose|k: int| 0 <= k < all.len() && all[k] == connection;
                if k < before.len() {
                    assert(before.contains(connection));
                    let i = choose|i: int|
                        0 <= i < rest.len() && (#[trigger] rest[i]).connection == connection
                            && rest[i].chat_id == chat_id;
                    assert(subs[i].connection == connection);
                } else {
                    assert(subs[subs.len() - 1].connection == connection);
                }
            }
            if exists|i: int|
                0 <= i < subs.len() && (#[trigger] subs[i]).connection == connection
                    && subs[i].chat_id == chat_id {
                let i = choose|i: int|
                    0 <= i < subs.len() && (#[trigger] subs[i]).connection == connection
                        && subs[i].chat_id == chat_id;
                if i < rest.len() {
                    assert(rest[i].connection == connection);
                    assert(before.contains(connection));
                    let k = choose|k: int| 0 <= k < before.len() && before[k] == connection;
                    assert(all[k] == connection);
                } else {
                    assert(all[all.len() - 1] == connection);
                }
            }
        }
    }
}

/// What the transport is to send once a handler is done.
#[derive(Debug)]
pub struct Delivery {
    /// What the calling connection is told.
    pub notice: Option<Notice>,
    /// What every connection in `recipients` is sent.
    pub event: Option<RoomEvent>,
    /// The connections that get the event.
    pub recipients: Vec<u128>,
}

/// The registry.
pub struct Registry {
    subscriptions: Vec<Subscription>,
}

impl View for Registry {
    type V = Seq<Subscription>;

    closed spec fn view(&self) -> Seq<Subscription> {
        self.subscriptions@
    }
}

impl Registry {
    /// A registry without a subscription.
    pub fn new() -> (registry: Registry)
        ensures
            registry@ == Seq::<Subscription>::empty(),
    {
        Registry { subscriptions: Vec::new() }
    }

    /// Takes subscriptions away.
    pub fn remove(&mut self, removal: Removal)
        ensures
            final(self)@ == old(self)@.filter(spared_by(removal)),
            one_room_each(old(self)@) ==> one_room_each(final(self)@),
    {
        let ghost keep = spared_by(removal);
        let mut kept: Vec<Subscription> = Vec::new();
        let mut i: usize = 0;
        assert(self.subscriptions@.subrange(0, 0) =~= Seq::<Subscription>::empty());
        proof {
            reveal(Seq::filter);
            lemma_removed(self@, removal);
        }
        while i < self.subscriptions.len()
            invariant
                i <= self.subscriptions.len(),
                keep == spared_by(removal),
                kept@ == self.subscriptions@.subrange(0, i as int).filter(keep),
            decreases self.subscriptions.len() - i,
        {
            let s = self.subscriptions[i];
            proof {
                let prefix = self.subscriptions@.subrange(0, i as int);
                prefix.lemma_filter_push(s, keep);
                assert(prefix.push(s) =~= self.subscriptions@.subrange(0, i + 1));
            }
            if removal.keeps(&s) {
                kept.push(s);
            }
            i += 1;
        }
        assert(self.subscriptions@.subrange(0, i as int) =~= self.subscriptions@);
        self.subscriptions = kept;
    }

    /// Moves a connection into the room of a chat. The rules that allow it
    /// are the caller's to check: this only keeps the books.
    pub fn join(&mut self, connection: u128, chat_id: u128, user_id: u128)
        ensures
            final(self)@ == joined(old(self)@, connection, chat_id, user_id),
            one_room_each(old(self)@) ==> one_room_each(final(self)@),
    {
        proof {
            lemma_removed(self@, Removal::Connection { connection });
        }
        self.remove(Removal::Connection { connection });
        self.subscriptions.push(Subscription { connection, user_id, chat_id });
    }

    /// Takes a connection out of the room it is in, if it is in one. This
    /// is also what a disconnect does.
    pub fn leave_current(&mut self, connection: u128)
        ensures
            final(self)@ == old(self)@.filter(spared_by(Removal::Connection { connection })),
            one_room_each(old(self)@) ==> one_room_each(final(self)@),
    {
        self.remove(Removal::Connection { connection });
    }

    /// The connections in the room of a chat.
    pub fn members_of(&self, chat_id: u128) -> (connections: Vec<u128>)
        ensures
            connections@ == listeners(self@, chat_id),
    {
        let mut found: Vec<u128> = Vec::new();
        let mut i: usize = 0;
        assert(self.subscriptions@.subrange(0, 0) =~= Seq::<Subscription>::empty());
        while i < self.subscriptions.len()
            invariant
                i <= self.subscriptions.len(),
                found@ == listeners(self.subscriptions@.subrange(0, i as int), chat_id),
            decreases self.subscriptions.len() - i,
        {
            let s = self.subscriptions[i];
            proof {
                let next = self.subscriptions@.subrange(0, i + 1);
                assert(next.drop_last() =~= self.subscriptions@.subrange(0, i as int));
                assert(next.last() == s);
            }
            if s.chat_id == chat_id {
                found.push(s.connection);
            }
            i += 1;
        }
        assert(self.subscriptions@.subrange(0, i as int) =~= self.subscriptions@);
        found
    }

    /// The room that a connection is in, if it is in one.
    pub fn current_room(&self, connection: u128) -> (room: Option<u128>)
        ensures
            room == room_of(self@, connection),
    {
        let mut i: usize = self.subscriptions.len();
        assert(self.subscriptions@.subrange(0, i as int) =~= self.subscriptions@);
        while i > 0
            invariant
                i <= self.subscriptions.len(),
                room_of(self@, connection) == room_of(
                    self.subscriptions@.subrange(0, i as int),
                    connection,
                ),
            decreases i,
        {
            let s = self.subscriptions[i - 1];
            proof {
                let here = self.subscriptions@.subrange(0, i as int);
                assert(here.drop_last() =~= self.subscriptions@.subrange(0, i - 1));
                assert(here.last() == s);
            }
            if s.connection == connection {
                return Some(s.chat_id);
            }
            i -= 1;
        }
        None
    }

    /// The subscriptions after a handler's reply has been carried out.
    pub open spec fn applied(subs: Seq<Subscription>, connection: u128, reply: SocketReply) -> Seq<
        Subscription,
    > {
        match reply {
            SocketReply::Join { chat_id, user_id } => joined(subs, connection, chat_id, user_id),
            SocketReply::Evict { user_id, chat_id, .. } => subs.filter(
                spared_by(Removal::UserInChat { user_id, chat_id }),
            ),
            _ => subs,
        }
    }

    /// What is sent once a handler's reply has been carried out: a notice
    /// to the caller, or an event to the connections that are in the room
    /// at that moment, and to no other.
    pub open spec fn delivers(subs: Seq<Subscription>, reply: SocketReply, delivery: Delivery) -> bool {
        match reply {
            SocketReply::Tell(notice) => {
                &&& delivery.notice == Some(notice)
                &&& delivery.event is None
                &&& delivery.recipients@.len() == 0
            },
            SocketReply::Join { .. } => {
                &&& delivery.notice == Some(Notice::Joined)
                &&& delivery.event is None
                &&& delivery.recipients@.len() == 0
            },
            SocketReply::Evict { notice, .. } => {
                &&& delivery.notice == Some(notice)
                &&& delivery.event is None
                &&& delivery.recipients@.len() == 0
            },
            SocketReply::Broadcast { chat_id, event } => {
                &&& delivery.notice is None
                &&& delivery.event == Some(event)
                &&& delivery.recipients@ == listeners(subs, chat_id)
            },
        }
    }

    /// Carries out what a realtime handler asked for: updates the rooms,
    /// and says what is to be sent to whom.
    pub fn apply(&mut self, connection: u128, reply: SocketReply) -> (delivery: Delivery)
        ensures
            final(self)@ == Self::applied(old(self)@, connection, reply),
            one_room_each(old(self)@) ==> one_room_each(final(self)@),
            Self::delivers(old(self)@, reply, delivery),
    {
        match reply {
            SocketReply::Tell(notice) => Delivery {
                notice: Some(notice),
                event: None,
                recipients: Vec::new(),
            },
            SocketReply::Join { chat_id, user_id } => {
                self.join(connection, chat_id, user_id);
                Delivery { notice: Some(Notice::Joined), event: None, recipients: Vec::new() }
            },
            SocketReply::Evict { user_id, chat_id, notice } => {
                self.remove(Removal::UserInChat { user_id, chat_id });
                Delivery { notice: Some(notice), event: None, recipients: Vec::new() }
            },
            SocketReply::Broadcast { chat_id, event } => {
                let recipients = self.members_of(chat_id);
                Delivery { notice: None, event: Some(event), recipients }
            },
        }
    }
}

} // verus!
