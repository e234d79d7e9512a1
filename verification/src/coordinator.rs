//! The coordinator as one value: a store, the rooms, and every handler
//! run to its end against them. It is the whole service without a network
//! and without a database, and the place where the rules that span the
//! store and the rooms are kept.

use vstd::prelude::*;
use crate::auth::authentication::{login, login_reply, login_verdict, LoginDto};
use crate::auth::jwt::{CredentialCodec, JwtPayload};
use crate::auth::registration::{
    hashes,
    law_register_all_or_nothing,
    new_user,
    register,
    registration_flaw,
    RegisterFlow,
    RegisterUser,
};
use crate::chat::chat::{
    create_chat,
    delete_chat,
    get_chats,
    law_create_chat,
    law_create_chat_all_or_nothing,
    law_delete_chat,
    law_delete_chat_all_or_nothing,
    law_rename_chat,
    law_rename_chat_all_or_nothing,
    new_chat,
    rename_chat,
    with_new_chat,
    without_whole_chat,
    CreateChat,
    RenameChat,
    MIN_CHAT_NAME_CHARS,
};
use crate::coherence::{
    admins_belong,
    backed,
    lemma_admins_belong_after_chat_gone,
    lemma_admins_belong_after_leaving,
    lemma_admins_belong_to_new_chat,
    lemma_backed_after_chat_gone,
    lemma_backed_after_eviction,
    lemma_backed_after_join,
    lemma_backed_same_members,
    lemma_backed_while_kept,
    lemma_member_added_keeps,
};
use crate::flow::{drive, law_run_keeps_clock, run, Flow};
use crate::http::{HttpError, HttpReply};
use crate::middlewares::jwt_authorization;
use crate::model::{Membership, MessageRow, User};
use crate::notice::Notice;
use crate::registry::{
    joined,
    lemma_removed,
    listeners,
    one_room_each,
    spared_by,
    Delivery,
    Registry,
    Removal,
    Subscription,
};
use crate::sockets::member::{
    add_member,
    add_member_verdict,
    leave_chat,
    leave_chat_verdict,
    law_add_member,
    law_add_member_all_or_nothing,
    law_leave_chat,
    law_leave_chat_all_or_nothing,
    law_remove_member,
    law_remove_member_all_or_nothing,
    remove_member,
    remove_member_verdict,
    ChatMembershipInput,
    LeaveChatInput,
};
use crate::sockets::message::{
    delete_message,
    law_delete_message_all_or_nothing,
    law_send_message,
    law_send_message_all_or_nothing,
    law_update_message_all_or_nothing,
    new_message,
    send_message,
    update_message,
    DeleteMessage,
    DeleteMessageFlow,
    SendMessageFlow,
    SendMessageInput,
    UpdateMessageFlow,
    UpdateMessageInput,
};
use crate::sockets::{
    get_user,
    join_chat_room,
    join_chat_room_start,
    join_verdict,
    law_join_chat_room,
    law_join_only_members,
    JoinRoom,
    RoomEvent,
    SocketReply,
};
use crate::store::protocol::{Answer, LookupFailure, UserField};
use crate::text::{is_blank, trimmed};
use crate::user::user::{
    change_email,
    change_email_start,
    change_password,
    change_username,
    change_username_start,
    law_profile_update_all_or_nothing,
    password_change_flaw,
    ChangeEmail,
    ChangePassword,
    ChangeUsername,
    ProfileFlow,
};
use crate::store::memory::MemoryStore;
use crate::store::rows::Rows;
use crate::store::semantics::StoreState;
use crate::store::tables::Tables;

verus! {

/// The store and the rooms of one process.
pub struct Coordinator {
    store: MemoryStore,
    rooms: Registry,
}

impl Coordinator {
    /// The state of the store.
    pub closed spec fn state(&self) -> StoreState {
        self.store@
    }

    /// The subscriptions.
    pub closed spec fn rooms(&self) -> Seq<Subscription> {
        self.rooms@
    }

    /// The rows of the store.
    pub open spec fn tables(&self) -> Tables {
        self.state().tables
    }

    /// What holds between any two handlers: the store is valid and has no
    /// transaction open, the administrator of every chat is a member of
    /// it, no connection is in two rooms, and every subscription is backed
    /// by a membership.
    pub open spec fn well_formed(&self) -> bool {
        &&& self.state().well_formed()
        &&& !self.state().in_transaction()
        &&& admins_belong(self.tables())
        &&& one_room_each(self.rooms())
        &&& backed(self.rooms(), self.tables())
    }

    /// A coordinator with an empty store and empty rooms.
    pub fn new() -> (coordinator: Coordinator)
        ensures
            coordinator.well_formed(),
            coordinator.state() == MemoryStore::initial(),
            coordinator.rooms() == Seq::<Subscription>::empty(),
    {
        Coordinator { store: MemoryStore::new(), rooms: Registry::new() }
    }

    /// The rows of the store, to look at.
    pub fn rows(&self) -> (rows: &Rows)
        ensures
            rows@ == self.state().committed(),
    {
        self.store.rows()
    }

    /// Sets the time that new messages are stamped with.
    pub fn set_clock(&mut self, now: i64)
        ensures
            final(self).state() == (StoreState { now, ..old(self).state() }),
            final(self).rooms() == old(self).rooms(),
    {
        self.store.set_clock(now);
    }

    /// Schedules an outage of the store after `statements` more statements.
    pub fn fail_after(&mut self, statements: u64)
        ensures
            final(self).state() == (StoreState {
                budget: Some(statements as nat),
                ..old(self).state()
            }),
            final(self).rooms() == old(self).rooms(),
    {
        self.store.fail_after(statements);
    }

    /// Ends an outage of the store, or cancels the one that lies ahead.
    pub fn recover(&mut self)
        ensures
            final(self).state() == (StoreState { budget: None, ..old(self).state() }),
            final(self).rooms() == old(self).rooms(),
    {
        self.store.recover();
    }

    /// The connections in the room of a chat.
    pub fn connections_in(&self, chat_id: u128) -> (connections: Vec<u128>)
        ensures
            connections@ == listeners(self.rooms(), chat_id),
    {
        self.rooms.members_of(chat_id)
    }

    /// A connection went away: it leaves the room it was in.
    pub fn disconnect(&mut self, connection: u128)
        requires
            old(self).well_formed(),
        ensures
            final(self).well_formed(),
            final(self).state() == old(self).state(),
            final(self).rooms() == old(self).rooms().filter(
                spared_by(Removal::Connection { connection }),
            ),
    {
        proof {
            let removal = Removal::Connection { connection };
            lemma_removed(self.rooms(), removal);
            let left = self.rooms().filter(spared_by(removal));
            assert forall|i: int| 0 <= i < left.len() implies self.tables().is_member(
                (#[trigger] left[i]).user_id,
                left[i].chat_id,
            ) by {
                assert(self.rooms().contains(left[i]));
                let r = choose|r: int| 0 <= r < self.rooms().len() && self.rooms()[r] == left[i];
                assert(self.tables().is_member(self.rooms()[r].user_id, self.rooms()[r].chat_id));
            }
        }
        self.rooms.leave_current(connection);
    }

    /// Runs a realtime handler to its end and carries out its reply.
    fn handle<F: Flow<Outcome = SocketReply>>(&mut self, connection: u128, flow: F) -> (delivery:
        Delivery)
        requires
            old(self).state().well_formed(),
            one_room_each(old(self).rooms()),
        ensures
            final(self).state().well_formed(),
            one_room_each(final(self).rooms()),
            final(self).state().now == old(self).state().now,
            old(self).state().budget is None ==> final(self).state().budget is None,
            ({
                let (end, done) = run(old(self).state(), flow);
                &&& final(self).state() == end
                &&& final(self).rooms() == Registry::applied(
                    old(self).rooms(),
                    connection,
                    done.outcome(),
                )
                &&& Registry::delivers(old(self).rooms(), done.outcome(), delivery)
            }),
    {
        proof {
            law_run_keeps_clock(self.state(), flow);
        }
        let done = drive(&mut self.store, flow);
        let reply = done.finish();
        self.rooms.apply(connection, reply)
    }

    /// Handles `join` for a connection.
    pub fn join(&mut self, connection: u128, caller: &Option<JwtPayload>, input: Option<JoinRoom>) -> (delivery:
        Delivery)
        requires
            old(self).well_formed(),
        ensures
            final(self).well_formed(),
            old(self).state().budget is None ==> final(self).state() == old(self).state(),
            delivery.notice matches Some(notice) && (notice == Notice::Joined || !notice.is_success()),
            input is None ==> delivery.notice == Some(Notice::MalformedBody),
            input is Some && caller is None ==> delivery.notice == Some(Notice::Unauthenticated),
            final(self).tables() == old(self).tables(),
            delivery.event is None,
            delivery.notice == Some(Notice::Joined) ==> {
                &&& caller is Some
                &&& input is Some
                &&& old(self).tables().is_member(caller->0.id, input->0.chat_id)
                &&& final(self).rooms() == joined(
                    old(self).rooms(),
                    connection,
                    input->0.chat_id,
                    caller->0.id,
                )
            },
            delivery.notice != Some(Notice::Joined) ==> final(self).rooms() == old(self).rooms(),
            old(self).state().budget is None ==> Registry::delivers(
                old(self).rooms(),
                join_verdict(old(self).tables(), *caller, input),
                delivery,
            ),
    {
        proof {
            let store = self.state();
            law_join_only_members(store, *caller, input);
            if store.budget is None {
                law_join_chat_room(store, *caller, input);
            }
            let reply = run(store, join_chat_room_start(*caller, input)).1.outcome();
            match reply {
                SocketReply::Join { chat_id, user_id } => {
                    lemma_backed_after_join(self.rooms(), store.tables, connection, chat_id, user_id);
                },
                _ => {},
            }
        }
        self.handle(connection, join_chat_room(caller, input))
    }

    /// Handles `add-user` for a connection.
    pub fn add_member(
        &mut self,
        connection: u128,
        caller: &Option<JwtPayload>,
        input: Option<ChatMembershipInput>,
    ) -> (delivery: Delivery)
        requires
            old(self).well_formed(),
        ensures
            final(self).well_formed(),
            old(self).state().budget is None ==> final(self).state() == old(self).state().with_tables(
                final(self).tables(),
            ),
            delivery.notice matches Some(notice) && (notice == Notice::MemberAdded
                || !notice.is_success()),
            input is None ==> delivery.notice == Some(Notice::MalformedBody),
            input is Some && caller is None ==> delivery.notice == Some(Notice::Unauthenticated),
            final(self).rooms() == old(self).rooms(),
            delivery.event is None,
            delivery.notice is Some,
            final(self).tables() == if delivery.notice == Some(Notice::MemberAdded) {
                old(self).tables().with_member(input->0.user_id, input->0.chat_id)
            } else {
                old(self).tables()
            },
            old(self).state().budget is None ==> delivery.notice == Some(
                add_member_verdict(old(self).tables(), *caller, input),
            ),
    {
        proof {
            let store = self.state();
            law_add_member_all_or_nothing(store, *caller, input);
            if store.budget is None {
                law_add_member(store, *caller, input);
            }
            if input is Some {
                lemma_member_added_keeps(store.tables, input->0.user_id, input->0.chat_id);
                lemma_backed_while_kept(
                    self.rooms(),
                    store.tables,
                    store.tables.with_member(input->0.user_id, input->0.chat_id),
                );
            }
        }
        self.handle(connection, add_member(caller, input))
    }

    /// Handles `remove-user` for a connection. When the membership ends,
    /// the connections that spoke for the removed user leave the room.
    pub fn remove_member(
        &mut self,
        connection: u128,
        caller: &Option<JwtPayload>,
        input: Option<ChatMembershipInput>,
    ) -> (delivery: Delivery)
        requires
            old(self).well_formed(),
        ensures
            final(self).well_formed(),
            old(self).state().budget is None ==> final(self).state() == old(self).state().with_tables(
                final(self).tables(),
            ),
            delivery.notice matches Some(notice) && (notice == Notice::MemberRemoved
                || !notice.is_success()),
            delivery.notice == Some(Notice::MemberRemoved) ==> {
                &&& caller is Some
                &&& input is Some
                &&& caller->0.id != input->0.user_id
                &&& old(self).tables().administers(caller->0.id, input->0.chat_id)
            },
            input is None ==> delivery.notice == Some(Notice::MalformedBody),
            input is Some && caller is None ==> delivery.notice == Some(Notice::Unauthenticated),
            delivery.event is None,
            delivery.notice is Some,
            if delivery.notice == Some(Notice::MemberRemoved) {
                &&& old(self).tables().is_member(input->0.user_id, input->0.chat_id)
                &&& final(self).tables() == old(self).tables().without_member(
                    input->0.user_id,
                    input->0.chat_id,
                )
                &&& final(self).rooms() == old(self).rooms().filter(
                    spared_by(
                        Removal::UserInChat { user_id: input->0.user_id, chat_id: input->0.chat_id },
                    ),
                )
            } else {
                &&& final(self).tables() == old(self).tables()
                &&& final(self).rooms() == old(self).rooms()
            },
            old(self).state().budget is None ==> delivery.notice == Some(
                remove_member_verdict(old(self).tables(), *caller, input),
            ),
    {
        proof {
            let store = self.state();
            law_remove_member_all_or_nothing(store, *caller, input);
            if store.budget is None {
                law_remove_member(store, *caller, input);
            }
            if input is Some {
                lemma_backed_after_eviction(
                    self.rooms(),
                    store.tables,
                    input->0.user_id,
                    input->0.chat_id,
                );
                if !store.tables.administers(input->0.user_id, input->0.chat_id) {
                    lemma_admins_belong_after_leaving(
                        store.tables,
                        input->0.user_id,
                        input->0.chat_id,
                    );
                }
            }
        }
        self.handle(connection, remove_member(caller, input))
    }

    /// Handles `leave-chat` for a connection. When the membership ends,
    /// the connections that spoke for the leaving user leave the room.
    pub fn leave_chat(
        &mut self,
        connection: u128,
        caller: &Option<JwtPayload>,
        input: Option<LeaveChatInput>,
    ) -> (delivery: Delivery)
        requires
            old(self).well_formed(),
        ensures
            final(self).well_formed(),
            old(self).state().budget is None ==> final(self).state() == old(self).state().with_tables(
                final(self).tables(),
            ),
            delivery.notice matches Some(notice) && (notice == Notice::Left
                || !notice.is_success()),
            delivery.notice == Some(Notice::Left) ==> {
                &&& caller is Some
                &&& input is Some
                &&& old(self).tables().has_chat(input->0.chat_id)
                &&& !old(self).tables().administers(caller->0.id, input->0.chat_id)
            },
            input is None ==> delivery.notice == Some(Notice::MalformedBody),
            input is Some && caller is None ==> delivery.notice == Some(Notice::Unauthenticated),
            delivery.event is None,
            delivery.notice is Some,
            if delivery.notice == Some(Notice::Left) {
                &&& old(self).tables().is_member(caller->0.id, input->0.chat_id)
                &&& final(self).tables() == old(self).tables().without_member(
                    caller->0.id,
                    input->0.chat_id,
                )
                &&& final(self).rooms() == old(self).rooms().filter(
                    spared_by(
                        Removal::UserInChat { user_id: caller->0.id, chat_id: input->0.chat_id },
                    ),
                )
            } else {
                &&& final(self).tables() == old(self).tables()
                &&& final(self).rooms() == old(self).rooms()
            },
            old(self).state().budget is None ==> delivery.notice == Some(
                leave_chat_verdict(old(self).tables(), *caller, input),
            ),
    {
        proof {
            let store = self.state();
            law_leave_chat_all_or_nothing(store, *caller, input);
            if store.budget is None {
                law_leave_chat(store, *caller, input);
            }
            if input is Some && caller is Some {
                lemma_backed_after_eviction(
                    self.rooms(),
                    store.tables,
                    caller->0.id,
                    input->0.chat_id,
                );
                if !store.tables.administers(caller->0.id, input->0.chat_id) {
                    lemma_admins_belong_after_leaving(store.tables, caller->0.id, input->0.chat_id);
                }
            }
        }
        self.handle(connection, leave_chat(caller, input))
    }

    /// Handles `send-message` for a connection. The message goes to the
    /// connections that are in the room of the chat, the sender's among
    /// them if it has joined, and to no other.
    pub fn send_message(
        &mut self,
        connection: u128,
        caller: &Option<JwtPayload>,
        input: Option<SendMessageInput>,
    ) -> (delivery: Delivery)
        requires
            old(self).well_formed(),
        ensures
            final(self).well_formed(),
            old(self).state().budget is None ==> final(self).state() == if delivery.event is Some {
                old(self).state().with_new_row(final(self).tables())
            } else {
                old(self).state()
            },
            input is None ==> delivery.notice == Some(Notice::MalformedBody),
            input matches Some(body) && is_blank(body.content@) ==> delivery.notice == Some(
                Notice::EmptyMessage,
            ),
            input matches Some(body) && !is_blank(body.content@) && caller is None
                ==> delivery.notice == Some(Notice::Unauthenticated),
            final(self).rooms() == old(self).rooms(),
            match delivery.event {
                Some(event) => {
                    &&& delivery.notice is None
                    &&& event matches RoomEvent::NewMessage(message)
                    &&& caller is Some
                    &&& input is Some
                    &&& old(self).tables().is_member(caller->0.id, input->0.chat_id)
                    &&& message.id == old(self).state().next_id
                    &&& message.user_id == caller->0.id
                    &&& message.content@ == trimmed(input->0.content@)
                    &&& message.created_at == Some(old(self).state().now)
                    &&& delivery.recipients@ == listeners(old(self).rooms(), input->0.chat_id)
                    &&& final(self).tables() == old(self).tables().with_message(
                        new_message(
                            old(self).state(),
                            caller->0.id,
                            message.content,
                            input->0.chat_id,
                        ),
                    )
                },
                None => {
                    &&& delivery.notice matches Some(notice)
                    &&& !notice.is_success()
                    &&& delivery.recipients@.len() == 0
                    &&& final(self).tables() == old(self).tables()
                },
            },
            old(self).state().budget is None ==> match input {
                None => delivery.notice == Some(Notice::MalformedBody),
                Some(input) => if is_blank(input.content@) {
                    delivery.notice == Some(Notice::EmptyMessage)
                } else {
                    match *caller {
                        None => delivery.notice == Some(Notice::Unauthenticated),
                        Some(claims) => if !old(self).tables().has_user(claims.id) {
                            delivery.notice == Some(Notice::Unauthenticated)
                        } else if !old(self).tables().is_member(claims.id, input.chat_id) {
                            delivery.notice == Some(Notice::NotInChatToSend)
                        } else if old(self).state().next_id == u128::MAX {
                            delivery.notice == Some(Notice::SendFailed)
                        } else {
                            delivery.event is Some
                        },
                    }
                },
            },
    {
        let ghost store = self.state();
        let ghost rooms = self.rooms();
        let flow = send_message(caller, input);
        let ghost start = flow;
        proof {
            match start {
                SendMessageFlow::Identify { caller_id, content, chat_id } => {
                    law_send_message_all_or_nothing(store, caller_id, content, chat_id);
                    if store.budget is None {
                        law_send_message(store, caller_id, content, chat_id);
                        if store.tables.is_member(caller_id, chat_id) {
                            let m = Membership { user_id: caller_id, chat_id };
                            let k = choose|k: int|
                                0 <= k < store.tables.members.len() && store.tables.members[k] == m;
                            assert(store.tables.has_chat(store.tables.members[k].chat_id));
                        }
                    }
                    let row = new_message(store, caller_id, content, chat_id);
                    lemma_backed_same_members(rooms, store.tables, store.tables.with_message(row));
                },
                _ => {
                    reveal_with_fuel(run, 1);
                },
            }
        }
        self.handle(connection, flow)
    }

    /// Handles `update-message` for a connection. Only the author's edit
    /// goes through; the room that hears of it is the one of the chat that
    /// the message is in.
    pub fn update_message(
        &mut self,
        connection: u128,
        caller: &Option<JwtPayload>,
        input: Option<UpdateMessageInput>,
    ) -> (delivery: Delivery)
        requires
            old(self).well_formed(),
        ensures
            final(self).well_formed(),
            old(self).state().budget is None ==> final(self).state() == old(self).state().with_tables(
                final(self).tables(),
            ),
            input is None ==> delivery.notice == Some(Notice::MalformedBody),
            input matches Some(body) && is_blank(body.new_content@) ==> delivery.notice == Some(
                Notice::EmptyNewContent,
            ),
            input matches Some(body) && !is_blank(body.new_content@) && caller is None
                ==> delivery.notice == Some(Notice::Unauthenticated),
            final(self).rooms() == old(self).rooms(),
            match delivery.event {
                Some(event) => {
                    &&& delivery.notice is None
                    &&& caller is Some
                    &&& input is Some
                    &&& old(self).tables().wrote(caller->0.id, input->0.message_id)
                    &&& event == RoomEvent::UpdatedMessage(
                        (MessageRow {
                            content: input->0.new_content,
                            ..old(self).tables().message(input->0.message_id)
                        }).normalized(),
                    )
                    &&& delivery.recipients@ == listeners(
                        old(self).rooms(),
                        old(self).tables().message(input->0.message_id).chat_id,
                    )
                    &&& final(self).tables() == old(self).tables().with_message_content(
                        input->0.message_id,
                        input->0.new_content,
                    )
                },
                None => {
                    &&& delivery.notice matches Some(notice)
                    &&& !notice.is_success()
                    &&& delivery.recipients@.len() == 0
                    &&& final(self).tables() == old(self).tables()
                },
            },
            old(self).state().budget is None ==> match input {
                None => delivery.notice == Some(Notice::MalformedBody),
                Some(input) => if is_blank(input.new_content@) {
                    delivery.notice == Some(Notice::EmptyNewContent)
                } else {
                    match *caller {
                        None => delivery.notice == Some(Notice::Unauthenticated),
                        Some(claims) => if !old(self).tables().has_user(claims.id) {
                            delivery.notice == Some(Notice::Unauthenticated)
                        } else if !old(self).tables().wrote(claims.id, input.message_id) {
                            delivery.notice == Some(Notice::UpdateRefused)
                        } else {
                            delivery.event is Some
                        },
                    }
                },
            },
    {
        let ghost store = self.state();
        let ghost rooms = self.rooms();
        let flow = update_message(caller, input);
        let ghost start = flow;
        proof {
            match start {
                UpdateMessageFlow::Identify { caller_id, content, message_id } => {
                    law_update_message_all_or_nothing(store, caller_id, content, message_id);
                    reveal_with_fuel(run, 3);
                    lemma_backed_same_members(
                        rooms,
                        store.tables,
                        store.tables.with_message_content(message_id, content),
                    );
                },
                _ => {
                    reveal_with_fuel(run, 1);
                },
            }
        }
        self.handle(connection, flow)
    }

    /// Handles `delete-message` for a connection. Only the author's
    /// deletion goes through; the room that hears of it is the one of the
    /// chat that the message was in.
    pub fn delete_message(
        &mut self,
        connection: u128,
        caller: &Option<JwtPayload>,
        input: Option<DeleteMessage>,
    ) -> (delivery: Delivery)
        requires
            old(self).well_formed(),
        ensures
            final(self).well_formed(),
            old(self).state().budget is None ==> final(self).state() == old(self).state().with_tables(
                final(self).tables(),
            ),
            input is None ==> delivery.notice == Some(Notice::MalformedBody),
            input is Some && caller is None ==> delivery.notice == Some(Notice::Unauthenticated),
            final(self).rooms() == old(self).rooms(),
            match delivery.event {
                Some(event) => {
                    &&& delivery.notice is None
                    &&& caller is Some
                    &&& input is Some
                    &&& old(self).tables().wrote(caller->0.id, input->0.message_id)
                    &&& event == RoomEvent::DeletedMessage { message_id: input->0.message_id }
                    &&& delivery.recipients@ == listeners(
                        old(self).rooms(),
                        old(self).tables().message(input->0.message_id).chat_id,
                    )
                    &&& final(self).tables() == old(self).tables().without_message(
                        input->0.message_id,
                    )
                },
                None => {
                    &&& delivery.notice matches Some(notice)
                    &&& !notice.is_success()
                    &&& delivery.recipients@.len() == 0
                    &&& final(self).tables() == old(self).tables()
                },
            },
            old(self).state().budget is None ==> match input {
                None => delivery.notice == Some(Notice::MalformedBody),
                Some(input) => match *caller {
                    None => delivery.notice == Some(Notice::Unauthenticated),
                    Some(claims) => if !old(self).tables().has_user(claims.id) {
                        delivery.notice == Some(Notice::Unauthenticated)
                    } else if !old(self).tables().wrote(claims.id, input.message_id) {
                        delivery.notice == Some(Notice::DeleteRefused)
                    } else {
                        delivery.event is Some
                    },
                },
            },
    {
        let ghost store = self.state();
        let ghost rooms = self.rooms();
        let flow = delete_message(caller, input);
        let ghost start = flow;
        proof {
            match start {
                DeleteMessageFlow::Identify { caller_id, message_id } => {
                    law_delete_message_all_or_nothing(store, caller_id, message_id);
                    reveal_with_fuel(run, 3);
                    lemma_backed_same_members(
                        rooms,
                        store.tables,
                        store.tables.without_message(message_id),
                    );
                },
                _ => {
                    reveal_with_fuel(run, 1);
                },
            }
        }
        self.handle(connection, flow)
    }

    /// Runs a handler to its end against the store.
    fn settle<F: Flow>(&mut self, flow: F) -> (outcome: F::Outcome)
        requires
            old(self).state().well_formed(),
        ensures
            final(self).state().well_formed(),
            final(self).rooms() == old(self).rooms(),
            final(self).state() == run(old(self).state(), flow).0,
            final(self).state().now == old(self).state().now,
            old(self).state().budget is None ==> final(self).state().budget is None,
            outcome == run(old(self).state(), flow).1.outcome(),
    {
        proof {
            law_run_keeps_clock(self.state(), flow);
        }
        let done = drive(&mut self.store, flow);
        done.finish()
    }

    /// Authorizes a request: the row of the user that the credential
    /// names, or the refusal.
    pub fn authorize(&mut self, caller: &Option<JwtPayload>) -> (verdict: Result<User, HttpError>)
        requires
            old(self).well_formed(),
        ensures
            final(self).well_formed(),
            old(self).state().budget is None ==> final(self).state() == old(self).state(),
            final(self).tables() == old(self).tables(),
            final(self).rooms() == old(self).rooms(),
            verdict matches Err(error) ==> error == HttpError::Unauthorized,
            verdict matches Ok(user) ==> caller is Some && user.id == caller->0.id && old(
                self,
            ).tables().has_user(user.id),
            old(self).state().budget is None ==> verdict == match *caller {
                Some(claims) => if old(self).tables().has_user(claims.id) {
                    Ok::<User, HttpError>(old(self).tables().user(claims.id))
                } else {
                    Err(HttpError::Unauthorized)
                },
                None => Err(HttpError::Unauthorized),
            },
    {
        proof {
            reveal_with_fuel(run, 2);
        }
        self.settle(jwt_authorization(caller))
    }

    /// Looks up the user that a connection speaks for.
    pub fn get_user(&mut self, caller: &Option<JwtPayload>) -> (user: Option<User>)
        requires
            old(self).well_formed(),
        ensures
            final(self).well_formed(),
            old(self).state().budget is None ==> final(self).state() == old(self).state(),
            final(self).tables() == old(self).tables(),
            final(self).rooms() == old(self).rooms(),
            user matches Some(user) ==> caller is Some && user.id == caller->0.id && old(
                self,
            ).tables().has_user(user.id),
            old(self).state().budget is None ==> user == match *caller {
                Some(claims) => if old(self).tables().has_user(claims.id) {
                    Some(old(self).tables().user(claims.id))
                } else {
                    None
                },
                None => None,
            },
    {
        proof {
            reveal_with_fuel(run, 2);
        }
        self.settle(get_user(caller))
    }

    /// Answers whether a user administers a chat.
    pub fn is_admin(&mut self, user: &User, chat_id: u128) -> (verdict: Result<bool, LookupFailure>)
        requires
            old(self).well_formed(),
        ensures
            final(self).well_formed(),
            old(self).state().budget is None ==> final(self).state() == old(self).state(),
            final(self).tables() == old(self).tables(),
            final(self).rooms() == old(self).rooms(),
            verdict matches Ok(yes) ==> old(self).tables().has_chat(chat_id) && yes == old(
                self,
            ).tables().administers(user.id, chat_id),
            verdict == Err::<bool, LookupFailure>(LookupFailure::NoRow) ==> !old(
                self,
            ).tables().has_chat(chat_id),
            old(self).state().budget is None ==> !(verdict == Err::<bool, LookupFailure>(
                LookupFailure::Failed,
            )),
    {
        proof {
            reveal_with_fuel(run, 2);
        }
        self.settle(user.is_admin(chat_id))
    }

    /// Handles a request to create a chat.
    pub fn create_chat(&mut self, user: &User, payload: CreateChat) -> (reply: HttpReply)
        requires
            old(self).well_formed(),
        ensures
            final(self).well_formed(),
            old(self).state().budget is None ==> final(self).state() == if reply
                == HttpReply::Created {
                old(self).state().with_new_row(final(self).tables())
            } else {
                old(self).state()
            },
            final(self).rooms() == old(self).rooms(),
            final(self).tables() == if reply == HttpReply::Created {
                with_new_chat(old(self).state(), user.id, payload.name)
            } else {
                old(self).tables()
            },
            reply == HttpReply::Created ==> payload.name@.len() >= MIN_CHAT_NAME_CHARS,
            payload.name@.len() < MIN_CHAT_NAME_CHARS ==> reply == HttpReply::Refused(
                HttpError::ChatNameTooShort,
            ),
            old(self).state().budget is None ==> reply == if payload.name@.len()
                < MIN_CHAT_NAME_CHARS {
                HttpReply::Refused(HttpError::ChatNameTooShort)
            } else if !old(self).tables().has_user(user.id) || old(self).state().next_id
                == u128::MAX {
                HttpReply::Refused(HttpError::CreateChatFailed)
            } else {
                HttpReply::Created
            },
    {
        proof {
            let store = self.state();
            if payload.name@.len() < MIN_CHAT_NAME_CHARS {
                reveal_with_fuel(run, 1);
            } else {
                law_create_chat_all_or_nothing(store, user.id, payload.name);
                if store.budget is None {
                    law_create_chat(store, user.id, payload.name);
                }
                let chat = new_chat(store, user.id, payload.name);
                let mid = store.tables.with_chat(chat);
                lemma_member_added_keeps(mid, user.id, store.next_id);
                lemma_backed_same_members(self.rooms(), store.tables, mid);
                lemma_backed_while_kept(
                    self.rooms(),
                    mid,
                    with_new_chat(store, user.id, payload.name),
                );
                lemma_admins_belong_to_new_chat(store, user.id, payload.name);
            }
        }
        self.settle(create_chat(user, payload))
    }

    /// Handles a request for the chats that the user belongs to.
    pub fn get_chats(&mut self, user: &User) -> (reply: HttpReply)
        requires
            old(self).well_formed(),
        ensures
            final(self).well_formed(),
            old(self).state().budget is None ==> final(self).state() == old(self).state(),
            final(self).tables() == old(self).tables(),
            final(self).rooms() == old(self).rooms(),
            if old(self).state().budget == Some(0nat) {
                reply == HttpReply::Refused(HttpError::ChatsFailed)
            } else {
                reply matches HttpReply::Chats(chats) && chats@ == old(self).tables().chats_of(
                    user.id,
                )
            },
    {
        get_chats(self.store.list_chats(user.id))
    }

    /// Handles a request to delete a chat. When the chat goes, its room is
    /// closed.
    pub fn delete_chat(&mut self, user: &User, chat_id: u128) -> (reply: HttpReply)
        requires
            old(self).well_formed(),
        ensures
            final(self).well_formed(),
            old(self).state().budget is None ==> final(self).state() == old(self).state().with_tables(
                final(self).tables(),
            ),
            if reply == HttpReply::NoContent {
                &&& old(self).tables().administers(user.id, chat_id)
                &&& final(self).tables() == without_whole_chat(old(self).tables(), chat_id)
                &&& final(self).rooms() == old(self).rooms().filter(
                    spared_by(Removal::Room { chat_id }),
                )
            } else {
                &&& final(self).tables() == old(self).tables()
                &&& final(self).rooms() == old(self).rooms()
            },
            old(self).state().budget is None ==> reply == if !old(self).tables().has_chat(chat_id) {
                HttpReply::Refused(HttpError::ChatNotFound)
            } else if !old(self).tables().administers(user.id, chat_id) {
                HttpReply::Refused(HttpError::NotAdminToDelete)
            } else {
                HttpReply::NoContent
            },
    {
        proof {
            let store = self.state();
            law_delete_chat_all_or_nothing(store, user.id, chat_id);
            if store.budget is None {
                law_delete_chat(store, user.id, chat_id);
            }
            lemma_backed_after_chat_gone(self.rooms(), store.tables, chat_id);
            lemma_admins_belong_after_chat_gone(store.tables, chat_id);
            lemma_removed(self.rooms(), Removal::Room { chat_id });
        }
        let reply = self.settle(delete_chat(user, chat_id));
        if let HttpReply::NoContent = reply {
            self.rooms.remove(Removal::Room { chat_id });
        }
        reply
    }

    /// Handles a request to rename a chat.
    pub fn rename_chat(&mut self, user: &User, chat_id: u128, payload: RenameChat) -> (reply:
        HttpReply)
        requires
            old(self).well_formed(),
        ensures
            final(self).well_formed(),
            old(self).state().budget is None ==> final(self).state() == old(self).state().with_tables(
                final(self).tables(),
            ),
            final(self).rooms() == old(self).rooms(),
            if reply == HttpReply::NoContent {
                &&& payload.new_name@.len() >= MIN_CHAT_NAME_CHARS
                &&& old(self).tables().administers(user.id, chat_id)
                &&& final(self).tables() == old(self).tables().with_chat_name(
                    chat_id,
                    payload.new_name,
                )
            } else {
                final(self).tables() == old(self).tables()
            },
            old(self).state().budget is None ==> reply == if payload.new_name@.len()
                < MIN_CHAT_NAME_CHARS {
                HttpReply::Refused(HttpError::ChatNameTooShort)
            } else if !old(self).tables().has_chat(chat_id) {
                HttpReply::Refused(HttpError::ChatNotFound)
            } else if !old(self).tables().administers(user.id, chat_id) {
                HttpReply::Refused(HttpError::NotAdminToRename)
            } else {
                HttpReply::NoContent
            },
    {
        proof {
            let store = self.state();
            if payload.new_name@.len() < MIN_CHAT_NAME_CHARS {
                reveal_with_fuel(run, 1);
            } else {
                law_rename_chat_all_or_nothing(store, user.id, chat_id, payload.new_name);
                if store.budget is None {
                    law_rename_chat(store, user.id, chat_id, payload.new_name);
                }
                lemma_backed_same_members(
                    self.rooms(),
                    store.tables,
                    store.tables.with_chat_name(chat_id, payload.new_name),
                );
            }
        }
        self.settle(rename_chat(user, chat_id, payload))
    }

    /// Handles a request to register.
    pub fn register(&mut self, payload: RegisterUser) -> (reply: HttpReply)
        requires
            old(self).well_formed(),
        ensures
            final(self).well_formed(),
            old(self).state().budget is None ==> final(self).state() == if reply
                == HttpReply::Created {
                old(self).state().with_new_row(final(self).tables())
            } else {
                old(self).state()
            },
            final(self).rooms() == old(self).rooms(),
            registration_flaw(payload) matches Some(flaw) ==> reply == HttpReply::Refused(flaw),
            if reply == HttpReply::Created {
                &&& registration_flaw(payload) is None
                &&& !old(self).tables().has_username(payload.username@)
                &&& !old(self).tables().has_email(payload.email@)
                &&& exists|password_hash: String| #[trigger]
                    hashes(Some(password_hash), payload.password@) && final(self).tables() == old(
                        self,
                    ).tables().with_user(
                        new_user(old(self).state(), payload.username, payload.email, password_hash),
                    )
            } else {
                final(self).tables() == old(self).tables()
            },
            old(self).state().budget is None && registration_flaw(payload) is None && (old(
                self,
            ).tables().has_username(payload.username@) || old(self).tables().has_email(
                payload.email@,
            )) ==> reply == HttpReply::Refused(HttpError::UserExists) || reply
                == HttpReply::Refused(HttpError::Internal),
    {
        let ghost store = self.state();
        let ghost rooms = self.rooms();
        let flow = register(payload);
        let ghost start = flow;
        proof {
            match start {
                RegisterFlow::Insert { username, email, password_hash } => {
                    law_register_all_or_nothing(store, username, email, password_hash);
                    reveal_with_fuel(run, 2);
                    lemma_backed_same_members(
                        rooms,
                        store.tables,
                        store.tables.with_user(new_user(store, username, email, password_hash)),
                    );
                },
                _ => {
                    reveal_with_fuel(run, 1);
                },
            }
        }
        self.settle(flow)
    }

    /// Handles a request to log in.
    pub fn login(&mut self, codec: &CredentialCodec, payload: LoginDto) -> (reply: HttpReply)
        requires
            old(self).well_formed(),
        ensures
            final(self).well_formed(),
            old(self).state().budget is None ==> final(self).state() == old(self).state(),
            final(self).tables() == old(self).tables(),
            final(self).rooms() == old(self).rooms(),
            reply is LoggedIn || reply is Refused,
            reply is LoggedIn ==> {
                &&& old(self).tables().has_email(payload.email@)
                &&& login_verdict(
                    payload.password@,
                    Answer::User(
                        old(self).tables().user_by_email(payload.email@),
                    ),
                ) is Ok
            },
            old(self).state().budget is None && !old(self).tables().has_email(payload.email@)
                ==> reply == HttpReply::Refused(HttpError::BadCredentials),
            old(self).state().budget is None && old(self).tables().has_email(payload.email@)
                ==> match login_verdict(
                payload.password@,
                Answer::User(
                    old(self).tables().user_by_email(payload.email@),
                ),
            ) {
                Err(error) => reply == HttpReply::Refused(error),
                Ok(_) => reply is LoggedIn || reply == HttpReply::Refused(HttpError::Internal),
            },
    {
        proof {
            reveal_with_fuel(run, 2);
        }
        let verdict = self.settle(login(payload));
        login_reply(codec, verdict)
    }

    /// Handles a request to change the password.
    pub fn change_password(&mut self, user: &User, payload: ChangePassword) -> (reply: HttpReply)
        requires
            old(self).well_formed(),
        ensures
            final(self).well_formed(),
            old(self).state().budget is None ==> final(self).state() == old(self).state().with_tables(
                final(self).tables(),
            ),
            final(self).rooms() == old(self).rooms(),
            password_change_flaw(*user, payload) matches Some(flaw) ==> reply == HttpReply::Refused(
                flaw,
            ),
            if reply == HttpReply::NoContent {
                &&& password_change_flaw(*user, payload) is None
                &&& exists|password_hash: String| #[trigger]
                    hashes(Some(password_hash), payload.new_password@) && final(self).tables()
                        == old(self).tables().with_user_field(
                        user.id,
                        UserField::Password,
                        password_hash,
                    )
            } else {
                final(self).tables() == old(self).tables()
            },
    {
        let ghost store = self.state();
        let ghost rooms = self.rooms();
        let flow = change_password(user, payload);
        let ghost start = flow;
        proof {
            match start {
                ProfileFlow::Update { id, field, value } => {
                    law_profile_update_all_or_nothing(store, id, field, value);
                    reveal_with_fuel(run, 2);
                    lemma_backed_same_members(
                        rooms,
                        store.tables,
                        store.tables.with_user_field(id, field, value),
                    );
                },
                _ => {
                    reveal_with_fuel(run, 1);
                },
            }
        }
        self.settle(flow)
    }

    /// Handles a request to change the e-mail address.
    pub fn change_email(&mut self, user: &User, payload: ChangeEmail) -> (reply: HttpReply)
        requires
            old(self).well_formed(),
        ensures
            final(self).well_formed(),
            old(self).state().budget is None ==> final(self).state() == old(self).state().with_tables(
                final(self).tables(),
            ),
            final(self).rooms() == old(self).rooms(),
            final(self).state() == run(old(self).state(), change_email_start(*user, payload)).0,
            reply == run(old(self).state(), change_email_start(*user, payload)).1.outcome(),
            final(self).tables() == if reply == HttpReply::NoContent {
                old(self).tables().with_user_field(user.id, UserField::Email, payload.new_email)
            } else {
                old(self).tables()
            },
    {
        let ghost store = self.state();
        let ghost rooms = self.rooms();
        let flow = change_email(user, payload);
        let ghost start = flow;
        proof {
            match start {
                ProfileFlow::Update { id, field, value } => {
                    law_profile_update_all_or_nothing(store, id, field, value);
                    reveal_with_fuel(run, 2);
                    lemma_backed_same_members(
                        rooms,
                        store.tables,
                        store.tables.with_user_field(id, field, value),
                    );
                },
                _ => {
                    reveal_with_fuel(run, 1);
                },
            }
        }
        self.settle(flow)
    }

    /// Handles a request to change the user name.
    pub fn change_username(&mut self, user: &User, payload: ChangeUsername) -> (reply: HttpReply)
        requires
            old(self).well_formed(),
        ensures
            final(self).well_formed(),
            old(self).state().budget is None ==> final(self).state() == old(self).state().with_tables(
                final(self).tables(),
            ),
            final(self).rooms() == old(self).rooms(),
            final(self).state() == run(old(self).state(), change_username_start(*user, payload)).0,
            reply == run(old(self).state(), change_username_start(*user, payload)).1.outcome(),
            final(self).tables() == if reply == HttpReply::NoContent {
                old(self).tables().with_user_field(
                    user.id,
                    UserField::Username,
                    payload.new_username,
                )
            } else {
                old(self).tables()
            },
    {
        let ghost store = self.state();
        let ghost rooms = self.rooms();
        let flow = change_username(user, payload);
        let ghost start = flow;
        proof {
            match start {
                ProfileFlow::Update { id, field, value } => {
                    law_profile_update_all_or_nothing(store, id, field, value);
                    reveal_with_fuel(run, 2);
                    lemma_backed_same_members(
                        rooms,
                        store.tables,
                        store.tables.with_user_field(id, field, value),
                    );
                },
                _ => {
                    reveal_with_fuel(run, 1);
                },
            }
        }
        self.settle(flow)
    }
}

} // verus!
