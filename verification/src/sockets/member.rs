//! Adding a member, removing a member, leaving a chat.

use vstd::prelude::*;
use crate::auth::jwt::JwtPayload;
use crate::flow::{run, Flow};
use crate::notice::Notice;
use crate::sockets::SocketReply;
use crate::store::protocol::{Answer, Statement};
use crate::store::semantics::StoreState;
use crate::store::tables::Tables;

verus! {

/// The body of `add-user` and of `remove-user`.
#[derive(Debug, Clone, Copy, PartialEq, Eq, Structural)]
pub struct ChatMembershipInput {
    pub user_id: u128,
    pub chat_id: u128,
}

/// The body of `leave-chat`.
#[derive(Debug, Clone, Copy, PartialEq, Eq, Structural)]
pub struct LeaveChatInput {
    pub chat_id: u128,
}

// ---- add-user -------------------------------------------------------------

/// The stages of adding a user to a chat.
#[derive(Debug)]
pub enum AddMemberFlow {
    /// Waiting for the row of the user that the credential names.
    Identify { caller_id: u128, target_id: u128, chat_id: u128 },
    /// Waiting to hear whether the caller belongs to the chat.
    CheckMembership { user_id: u128, target_id: u128, chat_id: u128 },
    /// Waiting for the new membership to be recorded.
    Insert { target_id: u128, chat_id: u128 },
    Finished(SocketReply),
}

impl Flow for AddMemberFlow {
    type Outcome = SocketReply;

    open spec fn pending(&self) -> Option<Statement> {
        match *self {
            AddMemberFlow::Identify { caller_id, .. } => Some(Statement::UserById { id: caller_id }),
            AddMemberFlow::CheckMembership { user_id, chat_id, .. } => Some(
                Statement::MembershipExists { user_id, chat_id },
            ),
            AddMemberFlow::Insert { target_id, chat_id } => Some(
                Statement::InsertMembership { user_id: target_id, chat_id },
            ),
            AddMemberFlow::Finished(_) => None,
        }
    }

    open spec fn after(self, answer: Answer) -> Self {
        match self {
            AddMemberFlow::Identify { caller_id, target_id, chat_id } => match answer {
                Answer::User(user) => if user.id != target_id {
                    AddMemberFlow::CheckMembership { user_id: user.id, target_id, chat_id }
                } else {
                    AddMemberFlow::Finished(SocketReply::Tell(Notice::SelfAdd))
                },
                _ => AddMemberFlow::Finished(SocketReply::Tell(Notice::Unauthenticated)),
            },
            AddMemberFlow::CheckMembership { user_id, target_id, chat_id } => match answer {
                Answer::Flag(true) => AddMemberFlow::Insert { target_id, chat_id },
                Answer::Flag(false) => AddMemberFlow::Finished(SocketReply::Tell(Notice::NotInChat)),
                _ => AddMemberFlow::Finished(SocketReply::Tell(Notice::MembershipCheckFailed)),
            },
            AddMemberFlow::Insert { target_id, chat_id } => match answer {
                Answer::Done => AddMemberFlow::Finished(SocketReply::Tell(Notice::MemberAdded)),
                Answer::UniqueViolation => AddMemberFlow::Finished(
                    SocketReply::Tell(Notice::AlreadyMember),
                ),
                Answer::ForeignKeyViolation => AddMemberFlow::Finished(
                    SocketReply::Tell(Notice::UnknownUser),
                ),
                _ => AddMemberFlow::Finished(SocketReply::Tell(Notice::AddFailed)),
            },
            AddMemberFlow::Finished(reply) => AddMemberFlow::Finished(reply),
        }
    }

    open spec fn outcome(self) -> SocketReply {
        match self {
            AddMemberFlow::Finished(reply) => reply,
            _ => SocketReply::Tell(Notice::AddFailed),
        }
    }

    open spec fn steps_left(&self) -> nat {
        match *self {
            AddMemberFlow::Identify { .. } => 3,
            AddMemberFlow::CheckMembership { .. } => 2,
            AddMemberFlow::Insert { .. } => 1,
            AddMemberFlow::Finished(_) => 0,
        }
    }

    proof fn lemma_progress(self, answer: Answer) {
    }

    fn request(&self) -> (statement: Option<Statement>) {
        match *self {
            AddMemberFlow::Identify { caller_id, .. } => Some(Statement::UserById { id: caller_id }),
            AddMemberFlow::CheckMembership { user_id, chat_id, .. } => Some(
                Statement::MembershipExists { user_id, chat_id },
            ),
            AddMemberFlow::Insert { target_id, chat_id } => Some(
                Statement::InsertMembership { user_id: target_id, chat_id },
            ),
            AddMemberFlow::Finished(_) => None,
        }
    }

    fn resume(self, answer: Answer) -> (next: Self) {
        match self {
            AddMemberFlow::Identify { caller_id, target_id, chat_id } => match answer {
                Answer::User(user) => if user.id != target_id {
                    AddMemberFlow::CheckMembership { user_id: user.id, target_id, chat_id }
                } else {
                    AddMemberFlow::Finished(SocketReply::Tell(Notice::SelfAdd))
                },
                _ => AddMemberFlow::Finished(SocketReply::Tell(Notice::Unauthenticated)),
            },
            AddMemberFlow::CheckMembership { user_id, target_id, chat_id } => match answer {
                Answer::Flag(true) => AddMemberFlow::Insert { target_id, chat_id },
                Answer::Flag(false) => AddMemberFlow::Finished(SocketReply::Tell(Notice::NotInChat)),
                _ => AddMemberFlow::Finished(SocketReply::Tell(Notice::MembershipCheckFailed)),
            },
            AddMemberFlow::Insert { target_id, chat_id } => match answer {
                Answer::Done => AddMemberFlow::Finished(SocketReply::Tell(Notice::MemberAdded)),
                Answer::UniqueViolation => AddMemberFlow::Finished(
                    SocketReply::Tell(Notice::AlreadyMember),
                ),
                Answer::ForeignKeyViolation => AddMemberFlow::Finished(
                    SocketReply::Tell(Notice::UnknownUser),
                ),
                _ => AddMemberFlow::Finished(SocketReply::Tell(Notice::AddFailed)),
            },
            AddMemberFlow::Finished(reply) => AddMemberFlow::Finished(reply),
        }
    }

    fn finish(self) -> (outcome: SocketReply) {
        match self {
            AddMemberFlow::Finished(reply) => reply,
            _ => SocketReply::Tell(Notice::AddFailed),
        }
    }
}

/// Where `add-user` starts: a body that did not parse and a missing
/// credential end it at once.
pub open spec fn add_member_start(
    caller: Option<JwtPayload>,
    input: Option<ChatMembershipInput>,
) -> AddMemberFlow {
    match input {
        None => AddMemberFlow::Finished(SocketReply::Tell(Notice::MalformedBody)),
        Some(input) => match caller {
            None => AddMemberFlow::Finished(SocketReply::Tell(Notice::Unauthenticated)),
            Some(claims) => AddMemberFlow::Identify {
                caller_id: claims.id,
                target_id: input.user_id,
                chat_id: input.chat_id,
            },
        },
    }
}

/// Starts the handling of `add-user`.
pub fn add_member(caller: &Option<JwtPayload>, input: Option<ChatMembershipInput>) -> (flow:
    AddMemberFlow)
    ensures
        flow == add_member_start(*caller, input),
{
    match input {
        None => AddMemberFlow::Finished(SocketReply::Tell(Notice::MalformedBody)),
        Some(input) => match caller {
            None => AddMemberFlow::Finished(SocketReply::Tell(Notice::Unauthenticated)),
            Some(claims) => AddMemberFlow::Identify {
                caller_id: claims.id,
                target_id: input.user_id,
                chat_id: input.chat_id,
            },
        },
    }
}

/// What `add-user` tells its caller, by the rules alone: the body must
/// parse; the credential must name a user; nobody adds themselves; only a
/// member may invite; nobody is a member twice; the invited user and the
/// chat must exist.
pub open spec fn add_member_verdict(
    t: Tables,
    caller: Option<JwtPayload>,
    input: Option<ChatMembershipInput>,
) -> Notice {
    match input {
        None => Notice::MalformedBody,
        Some(input) => match caller {
            None => Notice::Unauthenticated,
            Some(claims) => if !t.has_user(claims.id) {
                Notice::Unauthenticated
            } else if input.user_id == claims.id {
                Notice::SelfAdd
            } else if !t.is_member(claims.id, input.chat_id) {
                Notice::NotInChat
            } else if t.is_member(input.user_id, input.chat_id) {
                Notice::AlreadyMember
            } else if !t.has_user(input.user_id) || !t.has_chat(input.chat_id) {
                Notice::UnknownUser
            } else {
                Notice::MemberAdded
            },
        },
    }
}

/// Against a store with no outage ahead, `add-user` ends with the verdict
/// of the rules, and records the one new membership exactly when the
/// verdict is `MemberAdded`.
pub proof fn law_add_member(
    store: StoreState,
    caller: Option<JwtPayload>,
    input: Option<ChatMembershipInput>,
)
    requires
        store.budget is None,
    ensures
        ({
            let (end, flow) = run(store, add_member_start(caller, input));
            let verdict = add_member_verdict(store.tables, caller, input);
            &&& flow == AddMemberFlow::Finished(SocketReply::Tell(verdict))
            &&& end == if verdict == Notice::MemberAdded {
                store.with_tables(
                    store.tables.with_member(input->0.user_id, input->0.chat_id),
                )
            } else {
                store
            }
        }),
{
    reveal_with_fuel(run, 4);
}

/// Whatever the store does, `add-user` changes nothing unless it reports
/// success, and then it has added the one membership.
pub proof fn law_add_member_all_or_nothing(
    store: StoreState,
    caller: Option<JwtPayload>,
    input: Option<ChatMembershipInput>,
)
    ensures
        ({
            let (end, flow) = run(store, add_member_start(caller, input));
            &&& end.saved == store.saved
            &&& end.next_id == store.next_id
            &&& flow.outcome() matches SocketReply::Tell(notice)
            &&& notice == Notice::MemberAdded || !notice.is_success()
            &&& if flow == AddMemberFlow::Finished(SocketReply::Tell(Notice::MemberAdded)) {
                end.tables == store.tables.with_member(input->0.user_id, input->0.chat_id)
            } else {
                end.tables == store.tables
            }
        }),
{
    reveal_with_fuel(run, 4);
}

// ---- remove-user ----------------------------------------------------------

/// The stages of removing another user from a chat.
#[derive(Debug)]
pub enum RemoveMemberFlow {
    /// Waiting for the row of the user that the credential names.
    Identify { caller_id: u128, target_id: u128, chat_id: u128 },
    /// Waiting for the id of the chat's administrator.
    CheckAdmin { user_id: u128, target_id: u128, chat_id: u128 },
    /// Waiting for the membership to be deleted.
    Delete { target_id: u128, chat_id: u128 },
    Finished(SocketReply),
}

impl Flow for RemoveMemberFlow {
    type Outcome = SocketReply;

    open spec fn pending(&self) -> Option<Statement> {
        match *self {
            RemoveMemberFlow::Identify { caller_id, .. } => Some(Statement::UserById { id: caller_id }),
            RemoveMemberFlow::CheckAdmin { chat_id, .. } => Some(Statement::ChatAdmin { chat_id }),
            RemoveMemberFlow::Delete { target_id, chat_id } => Some(
                Statement::DeleteMembership { user_id: target_id, chat_id },
            ),
            RemoveMemberFlow::Finished(_) => None,
        }
    }

    open spec fn after(self, answer: Answer) -> Self {
        match self {
            RemoveMemberFlow::Identify { caller_id, target_id, chat_id } => match answer {
                Answer::User(user) => if user.id != target_id {
                    RemoveMemberFlow::CheckAdmin { user_id: user.id, target_id, chat_id }
                } else {
                    RemoveMemberFlow::Finished(SocketReply::Tell(Notice::SelfRemoval))
                },
                _ => RemoveMemberFlow::Finished(SocketReply::Tell(Notice::Unauthenticated)),
            },
            RemoveMemberFlow::CheckAdmin { user_id, target_id, chat_id } => match answer {
                Answer::Id(admin_id) => if admin_id == user_id {
                    RemoveMemberFlow::Delete { target_id, chat_id }
                } else {
                    RemoveMemberFlow::Finished(SocketReply::Tell(Notice::NotAdmin))
                },
                Answer::NoRow => RemoveMemberFlow::Finished(
                    SocketReply::Tell(Notice::AdminCheckNoChat),
                ),
                _ => RemoveMemberFlow::Finished(SocketReply::Tell(Notice::AdminCheckFailed)),
            },
            RemoveMemberFlow::Delete { target_id, chat_id } => match answer {
                Answer::Done => RemoveMemberFlow::Finished(
                    SocketReply::Evict {
                        user_id: target_id,
                        chat_id,
                        notice: Notice::MemberRemoved,
                    },
                ),
                Answer::NoRow => RemoveMemberFlow::Finished(SocketReply::Tell(Notice::MemberNotFound)),
                _ => RemoveMemberFlow::Finished(SocketReply::Tell(Notice::RemoveFailed)),
            },
            RemoveMemberFlow::Finished(reply) => RemoveMemberFlow::Finished(reply),
        }
    }

    open spec fn outcome(self) -> SocketReply {
        match self {
            RemoveMemberFlow::Finished(reply) => reply,
            _ => SocketReply::Tell(Notice::RemoveFailed),
        }
    }

    open spec fn steps_left(&self) -> nat {
        match *self {
            RemoveMemberFlow::Identify { .. } => 3,
            RemoveMemberFlow::CheckAdmin { .. } => 2,
            RemoveMemberFlow::Delete { .. } => 1,
            RemoveMemberFlow::Finished(_) => 0,
        }
    }

    proof fn lemma_progress(self, answer: Answer) {
    }

    fn request(&self) -> (statement: Option<Statement>) {
        match *self {
            RemoveMemberFlow::Identify { caller_id, .. } => Some(Statement::UserById { id: caller_id }),
            RemoveMemberFlow::CheckAdmin { chat_id, .. } => Some(Statement::ChatAdmin { chat_id }),
            RemoveMemberFlow::Delete { target_id, chat_id } => Some(
                Statement::DeleteMembership { user_id: target_id, chat_id },
            ),
            RemoveMemberFlow::Finished(_) => None,
        }
    }

    fn resume(self, answer: Answer) -> (next: Self) {
        match self {
            RemoveMemberFlow::Identify { caller_id, target_id, chat_id } => match answer {
                Answer::User(user) => if user.id != target_id {
                    RemoveMemberFlow::CheckAdmin { user_id: user.id, target_id, chat_id }
                } else {
                    RemoveMemberFlow::Finished(SocketReply::Tell(Notice::SelfRemoval))
                },
                _ => RemoveMemberFlow::Finished(SocketReply::Tell(Notice::Unauthenticated)),
            },
            RemoveMemberFlow::CheckAdmin { user_id, target_id, chat_id } => match answer {
                Answer::Id(admin_id) => if admin_id == user_id {
                    RemoveMemberFlow::Delete { target_id, chat_id }
                } else {
                    RemoveMemberFlow::Finished(SocketReply::Tell(Notice::NotAdmin))
                },
                Answer::NoRow => RemoveMemberFlow::Finished(
                    SocketReply::Tell(Notice::AdminCheckNoChat),
                ),
                _ => RemoveMemberFlow::Finished(SocketReply::Tell(Notice::AdminCheckFailed)),
            },
            RemoveMemberFlow::Delete { target_id, chat_id } => match answer {
                Answer::Done => RemoveMemberFlow::Finished(
                    SocketReply::Evict {
                        user_id: target_id,
                        chat_id,
                        notice: Notice::MemberRemoved,
                    },
                ),
                Answer::NoRow => RemoveMemberFlow::Finished(SocketReply::Tell(Notice::MemberNotFound)),
                _ => RemoveMemberFlow::Finished(SocketReply::Tell(Notice::RemoveFailed)),
            },
            RemoveMemberFlow::Finished(reply) => RemoveMemberFlow::Finished(reply),
        }
    }

    fn finish(self) -> (outcome: SocketReply) {
        match self {
            RemoveMemberFlow::Finished(reply) => reply,
            _ => SocketReply::Tell(Notice::RemoveFailed),
        }
    }
}

/// Where `remove-user` starts.
pub open spec fn remove_member_start(
    caller: Option<JwtPayload>,
    input: Option<ChatMembershipInput>,
) -> RemoveMemberFlow {
    match input {
        None => RemoveMemberFlow::Finished(SocketReply::Tell(Notice::MalformedBody)),
        Some(input) => match caller {
            None => RemoveMemberFlow::Finished(SocketReply::Tell(Notice::Unauthenticated)),
            Some(claims) => RemoveMemberFlow::Identify {
                caller_id: claims.id,
                target_id: input.user_id,
                chat_id: input.chat_id,
            },
        },
    }
}

/// Starts the handling of `remove-user`.
pub fn remove_member(caller: &Option<JwtPayload>, input: Option<ChatMembershipInput>) -> (flow:
    RemoveMemberFlow)
    ensures
        flow == remove_member_start(*caller, input),
{
    match input {
        None => RemoveMemberFlow::Finished(SocketReply::Tell(Notice::MalformedBody)),
        Some(input) => match caller {
            None => RemoveMemberFlow::Finished(SocketReply::Tell(Notice::Unauthenticated)),
            Some(claims) => RemoveMemberFlow::Identify {
                caller_id: claims.id,
                target_id: input.user_id,
                chat_id: input.chat_id,
            },
        },
    }
}

/// What `remove-user` tells its caller, by the rules alone: the body must
/// parse; the credential must name a user; nobody removes themselves this
/// way; the chat must exist and the caller must administer it; the user to
/// remove must be a member.
pub open spec fn remove_member_verdict(
    t: Tables,
    caller: Option<JwtPayload>,
    input: Option<ChatMembershipInput>,
) -> Notice {
    match input {
        None => Notice::MalformedBody,
        Some(input) => match caller {
            None => Notice::Unauthenticated,
            Some(claims) => if !t.has_user(claims.id) {
                Notice::Unauthenticated
            } else if input.user_id == claims.id {
                Notice::SelfRemoval
            } else if !t.has_chat(input.chat_id) {
                Notice::AdminCheckNoChat
            } else if !t.administers(claims.id, input.chat_id) {
                Notice::NotAdmin
            } else if !t.is_member(input.user_id, input.chat_id) {
                Notice::MemberNotFound
            } else {
                Notice::MemberRemoved
            },
        },
    }
}

/// The reply that carries a verdict of `remove-user`.
pub open spec fn remove_member_reply(verdict: Notice, input: Option<ChatMembershipInput>) -> SocketReply {
    if verdict == Notice::MemberRemoved {
        SocketReply::Evict {
            user_id: input->0.user_id,
            chat_id: input->0.chat_id,
            notice: Notice::MemberRemoved,
        }
    } else {
        SocketReply::Tell(verdict)
    }
}

/// Against a store with no outage ahead, `remove-user` ends with the
/// verdict of the rules, and deletes the one membership exactly when the
/// verdict is `MemberRemoved`.
pub proof fn law_remove_member(
    store: StoreState,
    caller: Option<JwtPayload>,
    input: Option<ChatMembershipInput>,
)
    requires
        store.budget is None,
    ensures
        ({
            let (end, flow) = run(store, remove_member_start(caller, input));
            let verdict = remove_member_verdict(store.tables, caller, input);
            &&& flow == RemoveMemberFlow::Finished(remove_member_reply(verdict, input))
            &&& end == if verdict == Notice::MemberRemoved {
                store.with_tables(
                    store.tables.without_member(input->0.user_id, input->0.chat_id),
                )
            } else {
                store
            }
        }),
{
    reveal_with_fuel(run, 4);
}

/// Whatever the store does, `remove-user` changes nothing unless it
/// reports success, and then it has deleted the one membership.
pub proof fn law_remove_member_all_or_nothing(
    store: StoreState,
    caller: Option<JwtPayload>,
    input: Option<ChatMembershipInput>,
)
    ensures
        ({
            let (end, flow) = run(store, remove_member_start(caller, input));
            &&& end.saved == store.saved
            &&& end.next_id == store.next_id
            &&& flow.outcome() is Evict || flow.outcome() is Tell
            &&& flow.outcome() matches SocketReply::Tell(notice) ==> !notice.is_success()
            &&& if flow.outcome() is Evict {
                &&& flow == RemoveMemberFlow::Finished(
                    remove_member_reply(Notice::MemberRemoved, input),
                )
                &&& caller is Some
                &&& caller->0.id != input->0.user_id
                &&& store.tables.administers(caller->0.id, input->0.chat_id)
                &&& store.tables.is_member(input->0.user_id, input->0.chat_id)
                &&& end.tables == store.tables.without_member(input->0.user_id, input->0.chat_id)
            } else {
                end.tables == store.tables
            }
        }),
{
    reveal_with_fuel(run, 4);
}

// ---- leave-chat -----------------------------------------------------------

/// The stages of leaving a chat.
#[derive(Debug)]
pub enum LeaveChatFlow {
    /// Waiting for the row of the user that the credential names.
    Identify { caller_id: u128, chat_id: u128 },
    /// Waiting for the id of the chat's administrator.
    CheckAdmin { user_id: u128, chat_id: u128 },
    /// Waiting for the caller's own membership to be deleted.
    Delete { user_id: u128, chat_id: u128 },
    Finished(SocketReply),
}

impl Flow for LeaveChatFlow {
    type Outcome = SocketReply;

    open spec fn pending(&self) -> Option<Statement> {
        match *self {
            LeaveChatFlow::Identify { caller_id, .. } => Some(Statement::UserById { id: caller_id }),
            LeaveChatFlow::CheckAdmin { chat_id, .. } => Some(Statement::ChatAdmin { chat_id }),
            LeaveChatFlow::Delete { user_id, chat_id } => Some(
                Statement::DeleteMembership { user_id, chat_id },
            ),
            LeaveChatFlow::Finished(_) => None,
        }
    }

    open spec fn after(self, answer: Answer) -> Self {
        match self {
            LeaveChatFlow::Identify { caller_id, chat_id } => match answer {
                Answer::User(user) => LeaveChatFlow::CheckAdmin { user_id: user.id, chat_id },
                _ => LeaveChatFlow::Finished(SocketReply::Tell(Notice::Unauthenticated)),
            },
            LeaveChatFlow::CheckAdmin { user_id, chat_id } => match answer {
                Answer::Id(admin_id) => if admin_id != user_id {
                    LeaveChatFlow::Delete { user_id, chat_id }
                } else {
                    LeaveChatFlow::Finished(SocketReply::Tell(Notice::AdminCannotLeave))
                },
                Answer::NoRow => LeaveChatFlow::Finished(SocketReply::Tell(Notice::NotFoundInChat)),
                _ => LeaveChatFlow::Finished(SocketReply::Tell(Notice::LeaveCheckFailed)),
            },
            LeaveChatFlow::Delete { user_id, chat_id } => match answer {
                Answer::Done => LeaveChatFlow::Finished(
                    SocketReply::Evict { user_id, chat_id, notice: Notice::Left },
                ),
                Answer::NoRow => LeaveChatFlow::Finished(SocketReply::Tell(Notice::NotFoundInChat)),
                _ => LeaveChatFlow::Finished(SocketReply::Tell(Notice::LeaveFailed)),
            },
            LeaveChatFlow::Finished(reply) => LeaveChatFlow::Finished(reply),
        }
    }

    open spec fn outcome(self) -> SocketReply {
        match self {
            LeaveChatFlow::Finished(reply) => reply,
            _ => SocketReply::Tell(Notice::LeaveFailed),
        }
    }

    open spec fn steps_left(&self) -> nat {
        match *self {
            LeaveChatFlow::Identify { .. } => 3,
            LeaveChatFlow::CheckAdmin { .. } => 2,
            LeaveChatFlow::Delete { .. } => 1,
            LeaveChatFlow::Finished(_) => 0,
        }
    }

    proof fn lemma_progress(self, answer: Answer) {
    }

    fn request(&self) -> (statement: Option<Statement>) {
        match *self {
            LeaveChatFlow::Identify { caller_id, .. } => Some(Statement::UserById { id: caller_id }),
            LeaveChatFlow::CheckAdmin { chat_id, .. } => Some(Statement::ChatAdmin { chat_id }),
            LeaveChatFlow::Delete { user_id, chat_id } => Some(
                Statement::DeleteMembership { user_id, chat_id },
            ),
            LeaveChatFlow::Finished(_) => None,
        }
    }

    fn resume(self, answer: Answer) -> (next: Self) {
        match self {
            LeaveChatFlow::Identify { caller_id, chat_id } => match answer {
                Answer::User(user) => LeaveChatFlow::CheckAdmin { user_id: user.id, chat_id },
                _ => LeaveChatFlow::Finished(SocketReply::Tell(Notice::Unauthenticated)),
            },
            LeaveChatFlow::CheckAdmin { user_id, chat_id } => match answer {
                Answer::Id(admin_id) => if admin_id != user_id {
                    LeaveChatFlow::Delete { user_id, chat_id }
                } else {
                    LeaveChatFlow::Finished(SocketReply::Tell(Notice::AdminCannotLeave))
                },
                Answer::NoRow => LeaveChatFlow::Finished(SocketReply::Tell(Notice::NotFoundInChat)),
                _ => LeaveChatFlow::Finished(SocketReply::Tell(Notice::LeaveCheckFailed)),
            },
            LeaveChatFlow::Delete { user_id, chat_id } => match answer {
                Answer::Done => LeaveChatFlow::Finished(
                    SocketReply::Evict { user_id, chat_id, notice: Notice::Left },
                ),
                Answer::NoRow => LeaveChatFlow::Finished(SocketReply::Tell(Notice::NotFoundInChat)),
                _ => LeaveChatFlow::Finished(SocketReply::Tell(Notice::LeaveFailed)),
            },
            LeaveChatFlow::Finished(reply) => LeaveChatFlow::Finished(reply),
        }
    }

    fn finish(self) -> (outcome: SocketReply) {
        match self {
            LeaveChatFlow::Finished(reply) => reply,
            _ => SocketReply::Tell(Notice::LeaveFailed),
        }
    }
}

/// Where `leave-chat` starts.
pub open spec fn leave_chat_start(caller: Option<JwtPayload>, input: Option<LeaveChatInput>) -> LeaveChatFlow {
    match input {
        None => LeaveChatFlow::Finished(SocketReply::Tell(Notice::MalformedBody)),
        Some(input) => match caller {
            None => LeaveChatFlow::Finished(SocketReply::Tell(Notice::Unauthenticated)),
            Some(claims) => LeaveChatFlow::Identify { caller_id: claims.id, chat_id: input.chat_id },
        },
    }
}

/// Starts the handling of `leave-chat`.
pub fn leave_chat(caller: &Option<JwtPayload>, input: Option<LeaveChatInput>) -> (flow: LeaveChatFlow)
    ensures
        flow == leave_chat_start(*caller, input),
{
    match input {
        None => LeaveChatFlow::Finished(SocketReply::Tell(Notice::MalformedBody)),
        Some(input) => match caller {
            None => LeaveChatFlow::Finished(SocketReply::Tell(Notice::Unauthenticated)),
            Some(claims) => LeaveChatFlow::Identify { caller_id: claims.id, chat_id: input.chat_id },
        },
    }
}

/// What `leave-chat` tells its caller, by the rules alone: the body must
/// parse; the credential must name a user; the chat must exist; its
/// administrator cannot leave; the caller must be a member.
pub open spec fn leave_chat_verdict(
    t: Tables,
    caller: Option<JwtPayload>,
    input: Option<LeaveChatInput>,
) -> Notice {
    match input {
        None => Notice::MalformedBody,
        Some(input) => match caller {
            None => Notice::Unauthenticated,
            Some(claims) => if !t.has_user(claims.id) {
                Notice::Unauthenticated
            } else if !t.has_chat(input.chat_id) {
                Notice::NotFoundInChat
            } else if t.administers(claims.id, input.chat_id) {
                Notice::AdminCannotLeave
            } else if !t.is_member(claims.id, input.chat_id) {
                Notice::NotFoundInChat
            } else {
                Notice::Left
            },
        },
    }
}

/// The reply that carries a verdict of `leave-chat`.
pub open spec fn leave_chat_reply(
    verdict: Notice,
    caller: Option<JwtPayload>,
    input: Option<LeaveChatInput>,
) -> SocketReply {
    if verdict == Notice::Left {
        SocketReply::Evict { user_id: caller->0.id, chat_id: input->0.chat_id, notice: Notice::Left }
    } else {
        SocketReply::Tell(verdict)
    }
}

/// Against a store with no outage ahead, `leave-chat` ends with the
/// verdict of the rules, and deletes the caller's membership exactly when
/// the verdict is `Left`.
pub proof fn law_leave_chat(
    store: StoreState,
    caller: Option<JwtPayload>,
    input: Option<LeaveChatInput>,
)
    requires
        store.budget is None,
    ensures
        ({
            let (end, flow) = run(store, leave_chat_start(caller, input));
            let verdict = leave_chat_verdict(store.tables, caller, input);
            &&& flow == LeaveChatFlow::Finished(leave_chat_reply(verdict, caller, input))
            &&& end == if verdict == Notice::Left {
                store.with_tables(store.tables.without_member(caller->0.id, input->0.chat_id))
            } else {
                store
            }
        }),
{
    reveal_with_fuel(run, 4);
}

/// Whatever the store does, `leave-chat` changes nothing unless it reports
/// success, and then it has deleted the caller's membership.
pub proof fn law_leave_chat_all_or_nothing(
    store: StoreState,
    caller: Option<JwtPayload>,
    input: Option<LeaveChatInput>,
)
    ensures
        ({
            let (end, flow) = run(store, leave_chat_start(caller, input));
            &&& end.saved == store.saved
            &&& end.next_id == store.next_id
            &&& flow.outcome() is Evict || flow.outcome() is Tell
            &&& flow.outcome() matches SocketReply::Tell(notice) ==> !notice.is_success()
            &&& if flow.outcome() is Evict {
                &&& caller is Some
                &&& flow == LeaveChatFlow::Finished(leave_chat_reply(Notice::Left, caller, input))
                &&& store.tables.has_chat(input->0.chat_id)
                &&& !store.tables.administers(caller->0.id, input->0.chat_id)
                &&& store.tables.is_member(caller->0.id, input->0.chat_id)
                &&& end.tables == store.tables.without_member(caller->0.id, input->0.chat_id)
            } else {
                end.tables == store.tables
            }
        }),
{
    reveal_with_fuel(run, 4);
}

} // verus!
