//! The request handlers for chats, and the check that a user administers
//! a chat.

use vstd::prelude::*;
use vstd::string::StrSliceExecFns;
use crate::flow::{run, Flow};
use crate::http::{Chat, HttpError, HttpReply};
use crate::model::{ChatRow, Membership, User};
use crate::store::protocol::{Answer, LookupFailure, Statement};
use crate::store::semantics::StoreState;
use crate::store::tables::Tables;
use crate::store::validity::{lemma_members_filtered, lemma_messages_filtered};

verus! {

/// The least number of characters in the name of a chat.
pub const MIN_CHAT_NAME_CHARS: usize = 3;

/// The body of the request to create a chat.
#[derive(Debug)]
pub struct CreateChat {
    pub name: String,
}

/// The body of the request to rename a chat.
#[derive(Debug)]
pub struct RenameChat {
    pub new_name: String,
}

// ---- is the user the administrator? ---------------------------------------

/// What the answer to "who administers this chat" says of one user.
pub open spec fn admin_verdict(user_id: u128, answer: Answer) -> Result<bool, LookupFailure> {
    match answer {
        Answer::Id(admin_id) => Ok(admin_id == user_id),
        Answer::NoRow => Err(LookupFailure::NoRow),
        _ => Err(LookupFailure::Failed),
    }
}

/// Reads the answer to "who administers this chat" for one user.
pub fn check_admin(user_id: u128, answer: &Answer) -> (verdict: Result<bool, LookupFailure>)
    ensures
        verdict == admin_verdict(user_id, *answer),
{
    match answer {
        Answer::Id(admin_id) => Ok(*admin_id == user_id),
        Answer::NoRow => Err(LookupFailure::NoRow),
        _ => Err(LookupFailure::Failed),
    }
}

/// The one question of whether a user administers a chat.
#[derive(Debug)]
pub enum IsAdminFlow {
    Ask { user_id: u128, chat_id: u128 },
    Finished(Result<bool, LookupFailure>),
}

impl Flow for IsAdminFlow {
    type Outcome = Result<bool, LookupFailure>;

    open spec fn pending(&self) -> Option<Statement> {
        match *self {
            IsAdminFlow::Ask { chat_id, .. } => Some(Statement::ChatAdmin { chat_id }),
            IsAdminFlow::Finished(_) => None,
        }
    }

    open spec fn after(self, answer: Answer) -> Self {
        match self {
            IsAdminFlow::Ask { user_id, .. } => IsAdminFlow::Finished(
                admin_verdict(user_id, answer),
            ),
            IsAdminFlow::Finished(verdict) => IsAdminFlow::Finished(verdict),
        }
    }

    open spec fn outcome(self) -> Result<bool, LookupFailure> {
        match self {
            IsAdminFlow::Finished(verdict) => verdict,
            _ => Err(LookupFailure::Failed),
        }
    }

    open spec fn steps_left(&self) -> nat {
        match *self {
            IsAdminFlow::Ask { .. } => 1,
            IsAdminFlow::Finished(_) => 0,
        }
    }

    proof fn lemma_progress(self, answer: Answer) {
    }

    fn request(&self) -> (statement: Option<Statement>) {
        match *self {
            IsAdminFlow::Ask { chat_id, .. } => Some(Statement::ChatAdmin { chat_id }),
            IsAdminFlow::Finished(_) => None,
        }
    }

    fn resume(self, answer: Answer) -> (next: Self) {
        match self {
            IsAdminFlow::Ask { user_id, .. } => IsAdminFlow::Finished(
                check_admin(user_id, &answer),
            ),
            IsAdminFlow::Finished(verdict) => IsAdminFlow::Finished(verdict),
        }
    }

    fn finish(self) -> (outcome: Result<bool, LookupFailure>) {
        match self {
            IsAdminFlow::Finished(verdict) => verdict,
            _ => Err(LookupFailure::Failed),
        }
    }
}

impl User {
    /// Starts the question of whether this user administers the chat.
    pub fn is_admin(&self, chat_id: u128) -> (flow: IsAdminFlow)
        ensures
            flow == (IsAdminFlow::Ask { user_id: self.id, chat_id }),
    {
        IsAdminFlow::Ask { user_id: self.id, chat_id }
    }
}

/// Against a store with no outage ahead, the question is answered by the
/// chat's row: no row, no answer.
pub proof fn law_is_admin(store: StoreState, user_id: u128, chat_id: u128)
    requires
        store.budget is None,
    ensures
        ({
            let (end, flow) = run(store, IsAdminFlow::Ask { user_id, chat_id });
            &&& end == store
            &&& flow.outcome() == if store.tables.has_chat(chat_id) {
                Ok::<bool, LookupFailure>(store.tables.administers(user_id, chat_id))
            } else {
                Err(LookupFailure::NoRow)
            }
        }),
{
    reveal_with_fuel(run, 2);
}

// ---- create ---------------------------------------------------------------

/// The stages of creating a chat: one transaction that writes the chat and
/// the membership of its creator.
#[derive(Debug)]
pub enum CreateChatFlow {
    Begin { user_id: u128, name: String },
    InsertChat { user_id: u128, name: String },
    InsertMembership { user_id: u128, chat_id: u128 },
    Commit,
    /// Waiting for the transaction to be rolled back, with the refusal to
    /// answer afterwards.
    Abort(HttpError),
    Finished(HttpReply),
}

impl Flow for CreateChatFlow {
    type Outcome = HttpReply;

    open spec fn pending(&self) -> Option<Statement> {
        match *self {
            CreateChatFlow::Begin { .. } => Some(Statement::Begin),
            CreateChatFlow::InsertChat { user_id, name } => Some(
                Statement::InsertChat { name, admin_id: user_id },
            ),
            CreateChatFlow::InsertMembership { user_id, chat_id } => Some(
                Statement::InsertMembership { user_id, chat_id },
            ),
            CreateChatFlow::Commit => Some(Statement::Commit),
            CreateChatFlow::Abort(_) => Some(Statement::Rollback),
            CreateChatFlow::Finished(_) => None,
        }
    }

    open spec fn after(self, answer: Answer) -> Self {
        match self {
            CreateChatFlow::Begin { user_id, name } => match answer {
                Answer::Done => CreateChatFlow::InsertChat { user_id, name },
                _ => CreateChatFlow::Finished(HttpReply::Refused(HttpError::CreateChatFailed)),
            },
            CreateChatFlow::InsertChat { user_id, name } => match answer {
                Answer::Id(chat_id) => CreateChatFlow::InsertMembership { user_id, chat_id },
                _ => CreateChatFlow::Abort(HttpError::CreateChatFailed),
            },
            CreateChatFlow::InsertMembership { user_id, chat_id } => match answer {
                Answer::Done => CreateChatFlow::Commit,
                _ => CreateChatFlow::Abort(HttpError::CreatorNotAdded),
            },
            CreateChatFlow::Commit => match answer {
                Answer::Done => CreateChatFlow::Finished(HttpReply::Created),
                _ => CreateChatFlow::Abort(HttpError::CreateChatFailed),
            },
            CreateChatFlow::Abort(error) => CreateChatFlow::Finished(HttpReply::Refused(error)),
            CreateChatFlow::Finished(reply) => CreateChatFlow::Finished(reply),
        }
    }

    open spec fn outcome(self) -> HttpReply {
        match self {
            CreateChatFlow::Finished(reply) => reply,
            _ => HttpReply::Refused(HttpError::CreateChatFailed),
        }
    }

    open spec fn steps_left(&self) -> nat {
        match *self {
            CreateChatFlow::Begin { .. } => 6,
            CreateChatFlow::InsertChat { .. } => 5,
            CreateChatFlow::InsertMembership { .. } => 4,
            CreateChatFlow::Commit => 3,
            CreateChatFlow::Abort(_) => 1,
            CreateChatFlow::Finished(_) => 0,
        }
    }

    proof fn lemma_progress(self, answer: Answer) {
    }

    fn request(&self) -> (statement: Option<Statement>) {
        match self {
            CreateChatFlow::Begin { .. } => Some(Statement::Begin),
            CreateChatFlow::InsertChat { user_id, name } => Some(
                Statement::InsertChat { name: name.clone(), admin_id: *user_id },
            ),
            CreateChatFlow::InsertMembership { user_id, chat_id } => Some(
                Statement::InsertMembership { user_id: *user_id, chat_id: *chat_id },
            ),
            CreateChatFlow::Commit => Some(Statement::Commit),
            CreateChatFlow::Abort(_) => Some(Statement::Rollback),
            CreateChatFlow::Finished(_) => None,
        }
    }

    fn resume(self, answer: Answer) -> (next: Self) {
        match self {
            CreateChatFlow::Begin { user_id, name } => match answer {
                Answer::Done => CreateChatFlow::InsertChat { user_id, name },
                _ => CreateChatFlow::Finished(HttpReply::Refused(HttpError::CreateChatFailed)),
            },
            CreateChatFlow::InsertChat { user_id, name } => match answer {
                Answer::Id(chat_id) => CreateChatFlow::InsertMembership { user_id, chat_id },
                _ => CreateChatFlow::Abort(HttpError::CreateChatFailed),
            },
            CreateChatFlow::InsertMembership { user_id, chat_id } => match answer {
                Answer::Done => CreateChatFlow::Commit,
                _ => CreateChatFlow::Abort(HttpError::CreatorNotAdded),
            },
            CreateChatFlow::Commit => match answer {
                Answer::Done => CreateChatFlow::Finished(HttpReply::Created),
                _ => CreateChatFlow::Abort(HttpError::CreateChatFailed),
            },
            CreateChatFlow::Abort(error) => CreateChatFlow::Finished(HttpReply::Refused(error)),
            CreateChatFlow::Finished(reply) => CreateChatFlow::Finished(reply),
        }
    }

    fn finish(self) -> (outcome: HttpReply) {
        match self {
            CreateChatFlow::Finished(reply) => reply,
            _ => HttpReply::Refused(HttpError::CreateChatFailed),
        }
    }
}

/// Where the creation of a chat starts: a name of fewer than three
/// characters ends it at once.
pub open spec fn create_chat_start(user: User, payload: CreateChat) -> CreateChatFlow {
    if payload.name@.len() < MIN_CHAT_NAME_CHARS {
        CreateChatFlow::Finished(HttpReply::Refused(HttpError::ChatNameTooShort))
    } else {
        CreateChatFlow::Begin { user_id: user.id, name: payload.name }
    }
}

/// Starts the handling of a request to create a chat.
pub fn create_chat(user: &User, payload: CreateChat) -> (flow: CreateChatFlow)
    ensures
        flow == create_chat_start(*user, payload),
{
    if payload.name.as_str().unicode_len() < MIN_CHAT_NAME_CHARS {
        CreateChatFlow::Finished(HttpReply::Refused(HttpError::ChatNameTooShort))
    } else {
        CreateChatFlow::Begin { user_id: user.id, name: payload.name }
    }
}

/// The chat row that a creation writes.
pub open spec fn new_chat(store: StoreState, user_id: u128, name: String) -> ChatRow {
    ChatRow { id: store.next_id, name, admin_id: user_id }
}

/// The tables after a chat was created: the chat and, as its only member,
/// its creator.
pub open spec fn with_new_chat(store: StoreState, user_id: u128, name: String) -> Tables {
    store.tables.with_chat(new_chat(store, user_id, name)).with_member(user_id, store.next_id)
}

/// Against a valid store outside a transaction and with no outage ahead,
/// a chat with a name of three characters or more is created for every
/// user that the store knows, as long as an id is left: the chat row, with
/// the creator as administrator, and the creator's membership are both
/// written, under an id that nothing had. Otherwise the store is left
/// exactly as it was.
pub proof fn law_create_chat(store: StoreState, user_id: u128, name: String)
    requires
        store.well_formed(),
        store.budget is None,
        !store.in_transaction(),
    ensures
        ({
            let (end, flow) = run(store, CreateChatFlow::Begin { user_id, name });
            if store.tables.has_user(user_id) && store.next_id < u128::MAX {
                &&& flow.outcome() == HttpReply::Created
                &&& end == store.with_new_row(with_new_chat(store, user_id, name))
                &&& !store.tables.has_chat(store.next_id)
                &&& !store.tables.chat_has_members(store.next_id)
            } else {
                &&& flow.outcome() == HttpReply::Refused(HttpError::CreateChatFailed)
                &&& end == store
            }
        }),
{
    reveal_with_fuel(run, 6);
    let t = store.tables;
    assert(!t.has_chat(store.next_id)) by {
        if t.has_chat(store.next_id) {
            let k = choose|k: int| t.chat_at(k, store.next_id);
            assert(t.chats[k].id < store.next_id);
        }
    }
    assert(!t.chat_has_members(store.next_id)) by {
        if t.chat_has_members(store.next_id) {
            let k = choose|k: int|
                0 <= k < t.members.len() && (#[trigger] t.members[k]).chat_id == store.next_id;
            assert(t.has_chat(t.members[k].chat_id));
        }
    }
    if t.has_user(user_id) {
        let chat = new_chat(store, user_id, name);
        let mid = t.with_chat(chat);
        assert(mid.chat_at(t.chats.len() as int, store.next_id));
        assert(mid.has_chat(store.next_id));
        let k = choose|k: int| t.user_at(k, user_id);
        assert(mid.user_at(k, user_id));
        assert(!mid.is_member(user_id, store.next_id)) by {
            if mid.is_member(user_id, store.next_id) {
                let m = Membership { user_id, chat_id: store.next_id };
                let j = choose|j: int| 0 <= j < mid.members.len() && mid.members[j] == m;
                assert(t.members[j].chat_id == store.next_id);
            }
        }
    }
}

/// Whatever the store does, the creation of a chat is all or nothing:
/// unless the answer is `Created`, the committed rows are what they were.
pub proof fn law_create_chat_all_or_nothing(store: StoreState, user_id: u128, name: String)
    requires
        !store.in_transaction(),
    ensures
        ({
            let (end, flow) = run(store, CreateChatFlow::Begin { user_id, name });
            &&& !end.in_transaction()
            &&& if flow.outcome() == HttpReply::Created {
                end.tables == with_new_chat(store, user_id, name)
            } else {
                end.tables == store.tables
            }
        }),
{
    reveal_with_fuel(run, 6);
}

// ---- delete ---------------------------------------------------------------

/// The stages of deleting a chat: the check that the caller administers
/// it, then one transaction that deletes its memberships, its messages and
/// the chat itself, in this order.
#[derive(Debug)]
pub enum DeleteChatFlow {
    CheckAdmin { user_id: u128, chat_id: u128 },
    Begin { user_id: u128, chat_id: u128 },
    DropMembers { user_id: u128, chat_id: u128 },
    DropMessages { user_id: u128, chat_id: u128 },
    DropChat { user_id: u128, chat_id: u128 },
    Commit,
    /// Waiting for the transaction to be rolled back, with the refusal to
    /// answer afterwards.
    Abort(HttpError),
    Finished(HttpReply),
}

impl Flow for DeleteChatFlow {
    type Outcome = HttpReply;

    open spec fn pending(&self) -> Option<Statement> {
        match *self {
            DeleteChatFlow::CheckAdmin { chat_id, .. } => Some(Statement::ChatAdmin { chat_id }),
            DeleteChatFlow::Begin { .. } => Some(Statement::Begin),
            DeleteChatFlow::DropMembers { chat_id, .. } => Some(
                Statement::DeleteMembershipsOfChat { chat_id },
            ),
            DeleteChatFlow::DropMessages { chat_id, .. } => Some(
                Statement::DeleteMessagesOfChat { chat_id },
            ),
            DeleteChatFlow::DropChat { user_id, chat_id } => Some(
                Statement::DeleteChat { chat_id, admin_id: user_id },
            ),
            DeleteChatFlow::Commit => Some(Statement::Commit),
            DeleteChatFlow::Abort(_) => Some(Statement::Rollback),
            DeleteChatFlow::Finished(_) => None,
        }
    }

    open spec fn after(self, answer: Answer) -> Self {
        match self {
            DeleteChatFlow::CheckAdmin { user_id, chat_id } => match admin_verdict(user_id, answer) {
                Ok(true) => DeleteChatFlow::Begin { user_id, chat_id },
                Ok(false) => DeleteChatFlow::Finished(
                    HttpReply::Refused(HttpError::NotAdminToDelete),
                ),
                Err(LookupFailure::NoRow) => DeleteChatFlow::Finished(
                    HttpReply::Refused(HttpError::ChatNotFound),
                ),
                Err(LookupFailure::Failed) => DeleteChatFlow::Finished(
                    HttpReply::Refused(HttpError::ChatLookupFailed),
                ),
            },
            DeleteChatFlow::Begin { user_id, chat_id } => match answer {
                Answer::Done => DeleteChatFlow::DropMembers { user_id, chat_id },
                _ => DeleteChatFlow::Finished(HttpReply::Refused(HttpError::DeleteChatFailed)),
            },
            DeleteChatFlow::DropMembers { user_id, chat_id } => match answer {
                Answer::Done => DeleteChatFlow::DropMessages { user_id, chat_id },
                _ => DeleteChatFlow::Abort(HttpError::DeleteMembersFailed),
            },
            DeleteChatFlow::DropMessages { user_id, chat_id } => match answer {
                Answer::Done => DeleteChatFlow::DropChat { user_id, chat_id },
                _ => DeleteChatFlow::Abort(HttpError::DeleteMessagesFailed),
            },
            DeleteChatFlow::DropChat { user_id, chat_id } => match answer {
                Answer::Done => DeleteChatFlow::Commit,
                _ => DeleteChatFlow::Abort(HttpError::DeleteChatFailed),
            },
            DeleteChatFlow::Commit => match answer {
                Answer::Done => DeleteChatFlow::Finished(HttpReply::NoContent),
                _ => DeleteChatFlow::Abort(HttpError::DeleteCommitFailed),
            },
            DeleteChatFlow::Abort(error) => DeleteChatFlow::Finished(HttpReply::Refused(error)),
            DeleteChatFlow::Finished(reply) => DeleteChatFlow::Finished(reply),
        }
    }

    open spec fn outcome(self) -> HttpReply {
        match self {
            DeleteChatFlow::Finished(reply) => reply,
            _ => HttpReply::Refused(HttpError::DeleteChatFailed),
        }
    }

    open spec fn steps_left(&self) -> nat {
        match *self {
            DeleteChatFlow::CheckAdmin { .. } => 8,
            DeleteChatFlow::Begin { .. } => 7,
            DeleteChatFlow::DropMembers { .. } => 6,
            DeleteChatFlow::DropMessages { .. } => 5,
            DeleteChatFlow::DropChat { .. } => 4,
            DeleteChatFlow::Commit => 3,
            DeleteChatFlow::Abort(_) => 1,
            DeleteChatFlow::Finished(_) => 0,
        }
    }

    proof fn lemma_progress(self, answer: Answer) {
    }

    fn request(&self) -> (statement: Option<Statement>) {
        match *self {
            DeleteChatFlow::CheckAdmin { chat_id, .. } => Some(Statement::ChatAdmin { chat_id }),
            DeleteChatFlow::Begin { .. } => Some(Statement::Begin),
            DeleteChatFlow::DropMembers { chat_id, .. } => Some(
                Statement::DeleteMembershipsOfChat { chat_id },
            ),
            DeleteChatFlow::DropMessages { chat_id, .. } => Some(
                Statement::DeleteMessagesOfChat { chat_id },
            ),
            DeleteChatFlow::DropChat { user_id, chat_id } => Some(
                Statement::DeleteChat { chat_id, admin_id: user_id },
            ),
            DeleteChatFlow::Commit => Some(Statement::Commit),
            DeleteChatFlow::Abort(_) => Some(Statement::Rollback),
            DeleteChatFlow::Finished(_) => None,
        }
    }

    fn resume(self, answer: Answer) -> (next: Self) {
        match self {
            DeleteChatFlow::CheckAdmin { user_id, chat_id } => match check_admin(user_id, &answer) {
                Ok(true) => DeleteChatFlow::Begin { user_id, chat_id },
                Ok(false) => DeleteChatFlow::Finished(
                    HttpReply::Refused(HttpError::NotAdminToDelete),
                ),
                Err(LookupFailure::NoRow) => DeleteChatFlow::Finished(
                    HttpReply::Refused(HttpError::ChatNotFound),
                ),
                Err(LookupFailure::Failed) => DeleteChatFlow::Finished(
                    HttpReply::Refused(HttpError::ChatLookupFailed),
                ),
            },
            DeleteChatFlow::Begin { user_id, chat_id } => match answer {
                Answer::Done => DeleteChatFlow::DropMembers { user_id, chat_id },
                _ => DeleteChatFlow::Finished(HttpReply::Refused(HttpError::DeleteChatFailed)),
            },
            DeleteChatFlow::DropMembers { user_id, chat_id } => match answer {
                Answer::Done => DeleteChatFlow::DropMessages { user_id, chat_id },
                _ => DeleteChatFlow::Abort(HttpError::DeleteMembersFailed),
            },
            DeleteChatFlow::DropMessages { user_id, chat_id } => match answer {
                Answer::Done => DeleteChatFlow::DropChat { user_id, chat_id },
                _ => DeleteChatFlow::Abort(HttpError::DeleteMessagesFailed),
            },
            DeleteChatFlow::DropChat { user_id, chat_id } => match answer {
                Answer::Done => DeleteChatFlow::Commit,
                _ => DeleteChatFlow::Abort(HttpError::DeleteChatFailed),
            },
            DeleteChatFlow::Commit => match answer {
                Answer::Done => DeleteChatFlow::Finished(HttpReply::NoContent),
                _ => DeleteChatFlow::Abort(HttpError::DeleteCommitFailed),
            },
            DeleteChatFlow::Abort(error) => DeleteChatFlow::Finished(HttpReply::Refused(error)),
            DeleteChatFlow::Finished(reply) => DeleteChatFlow::Finished(reply),
        }
    }

    fn finish(self) -> (outcome: HttpReply) {
        match self {
            DeleteChatFlow::Finished(reply) => reply,
            _ => HttpReply::Refused(HttpError::DeleteChatFailed),
        }
    }
}

/// Starts the handling of a request to delete a chat.
pub fn delete_chat(user: &User, chat_id: u128) -> (flow: DeleteChatFlow)
    ensures
        flow == (DeleteChatFlow::CheckAdmin { user_id: user.id, chat_id }),
{
    DeleteChatFlow::CheckAdmin { user_id: user.id, chat_id }
}

/// The tables without a chat: without its memberships, its messages and
/// its own row.
pub open spec fn without_whole_chat(t: Tables, chat_id: u128) -> Tables {
    t.without_members_of(chat_id).without_messages_of(chat_id).without_chat(chat_id)
}

/// Nothing of a chat is left once it is deleted whole.
pub proof fn lemma_whole_chat_gone(t: Tables, chat_id: u128)
    requires
        t.well_formed(),
        t.has_chat(chat_id),
    ensures
        !without_whole_chat(t, chat_id).has_chat(chat_id),
        !without_whole_chat(t, chat_id).chat_has_members(chat_id),
        !without_whole_chat(t, chat_id).chat_has_messages(chat_id),
        t.without_members_of(chat_id).without_messages_of(chat_id).has_chat(chat_id),
        t.without_members_of(chat_id).without_messages_of(chat_id).chat_index(chat_id)
            == t.chat_index(chat_id),
        t.without_members_of(chat_id).without_messages_of(chat_id).chat(chat_id) == t.chat(
            chat_id,
        ),
        !t.without_members_of(chat_id).without_messages_of(chat_id).chat_has_members(chat_id),
        !t.without_members_of(chat_id).without_messages_of(chat_id).chat_has_messages(chat_id),
{
    lemma_members_filtered(t.members, chat_id);
    lemma_messages_filtered(t.messages, chat_id);
    let mid = t.without_members_of(chat_id).without_messages_of(chat_id);
    let end = without_whole_chat(t, chat_id);
    let k = t.chat_index(chat_id);
    assert(mid.chat_at(k, chat_id));
    assert(mid.chats[mid.chat_index(chat_id)].id == t.chats[k].id);
    assert(mid.chat_index(chat_id) == k);
    if end.has_chat(chat_id) {
        let j = choose|j: int| end.chat_at(j, chat_id);
        if j < k {
            assert(t.chats[j].id == t.chats[k].id);
        } else {
            assert(t.chats[j + 1].id == t.chats[k].id);
        }
    }
}

/// Against a valid store outside a transaction and with no outage ahead,
/// a chat is deleted exactly when it exists and the caller administers it,
/// and then nothing of it is left; otherwise nothing changes.
pub proof fn law_delete_chat(store: StoreState, user_id: u128, chat_id: u128)
    requires
        store.well_formed(),
        store.budget is None,
        !store.in_transaction(),
    ensures
        ({
            let (end, flow) = run(store, DeleteChatFlow::CheckAdmin { user_id, chat_id });
            let t = store.tables;
            if !t.has_chat(chat_id) {
                end == store && flow.outcome() == HttpReply::Refused(HttpError::ChatNotFound)
            } else if !t.administers(user_id, chat_id) {
                end == store && flow.outcome() == HttpReply::Refused(HttpError::NotAdminToDelete)
            } else {
                &&& end == store.with_tables(without_whole_chat(t, chat_id))
                &&& flow.outcome() == HttpReply::NoContent
            }
        }),
{
    reveal_with_fuel(run, 3);
    let (first, answer) = store.execute(Statement::ChatAdmin { chat_id });
    if admin_verdict(user_id, answer) == Ok::<bool, LookupFailure>(true) {
        let (second, answer) = first.execute(Statement::Begin);
        lemma_delete_in_transaction(second, user_id, chat_id);
    }
}

/// What holds at the end of a deletion that is run from one of the stages
/// inside its transaction: the transaction is closed, no id was used, and
/// the rows are those of `done` after `NoContent` and those of `before`
/// after anything else.
spec fn settles(store: StoreState, stage: DeleteChatFlow, before: Tables, done: Tables) -> bool {
    let (end, flow) = run(store, stage);
    &&& !end.in_transaction()
    &&& end.next_id == store.next_id
    &&& end.now == store.now
    &&& store.budget is None ==> end.budget is None
    &&& if flow.outcome() == HttpReply::NoContent {
        end.tables == done
    } else {
        end.tables == before
    }
    &&& store.budget is None && !(stage is Abort) ==> flow.outcome() == HttpReply::NoContent
}

proof fn lemma_delete_aborts(store: StoreState, error: HttpError, before: Tables, done: Tables)
    requires
        store.saved == Some(before),
    ensures
        settles(store, DeleteChatFlow::Abort(error), before, done),
{
    reveal_with_fuel(run, 2);
}

proof fn lemma_delete_commits(store: StoreState, before: Tables)
    requires
        store.saved == Some(before),
    ensures
        settles(store, DeleteChatFlow::Commit, before, store.tables),
{
    reveal_with_fuel(run, 2);
    let (next, answer) = store.execute(Statement::Commit);
    if !(answer is Done) {
        lemma_delete_aborts(next, HttpError::DeleteCommitFailed, before, store.tables);
    }
}

proof fn lemma_delete_drops_chat(store: StoreState, user_id: u128, chat_id: u128, before: Tables)
    requires
        store.saved == Some(before),
        store.tables.administers(user_id, chat_id),
        !store.tables.chat_has_members(chat_id),
        !store.tables.chat_has_messages(chat_id),
    ensures
        settles(
            store,
            DeleteChatFlow::DropChat { user_id, chat_id },
            before,
            store.tables.without_chat(chat_id),
        ),
{
    reveal_with_fuel(run, 2);
    let done = store.tables.without_chat(chat_id);
    let (next, answer) = store.execute(Statement::DeleteChat { chat_id, admin_id: user_id });
    if answer is Done {
        lemma_delete_commits(next, before);
    } else {
        lemma_delete_aborts(next, HttpError::DeleteChatFailed, before, done);
    }
}

proof fn lemma_delete_in_transaction(store: StoreState, user_id: u128, chat_id: u128)
    requires
        store.tables.well_formed(),
        store.tables.administers(user_id, chat_id),
        store.saved == Some(store.tables),
    ensures
        settles(
            store,
            DeleteChatFlow::DropMembers { user_id, chat_id },
            store.tables,
            without_whole_chat(store.tables, chat_id),
        ),
{
    reveal_with_fuel(run, 3);
    let before = store.tables;
    let done = without_whole_chat(before, chat_id);
    lemma_whole_chat_gone(before, chat_id);
    let (first, answer) = store.execute(Statement::DeleteMembershipsOfChat { chat_id });
    if answer is Done {
        let (second, answer) = first.execute(Statement::DeleteMessagesOfChat { chat_id });
        if answer is Done {
            lemma_delete_drops_chat(second, user_id, chat_id, before);
        } else {
            lemma_delete_aborts(second, HttpError::DeleteMessagesFailed, before, done);
        }
    } else {
        lemma_delete_aborts(first, HttpError::DeleteMembersFailed, before, done);
    }
}

/// Whatever the store does, the deletion of a chat is all or nothing:
/// unless the answer is `NoContent`, the rows are what they were, and
/// after `NoContent` nothing of the chat is left.
pub proof fn law_delete_chat_all_or_nothing(store: StoreState, user_id: u128, chat_id: u128)
    requires
        store.well_formed(),
        !store.in_transaction(),
    ensures
        ({
            let (end, flow) = run(store, DeleteChatFlow::CheckAdmin { user_id, chat_id });
            &&& !end.in_transaction()
            &&& end.next_id == store.next_id
            &&& if flow.outcome() == HttpReply::NoContent {
                &&& store.tables.administers(user_id, chat_id)
                &&& end.tables == without_whole_chat(store.tables, chat_id)
            } else {
                end.tables == store.tables
            }
        }),
{
    reveal_with_fuel(run, 3);
    let (first, answer) = store.execute(Statement::ChatAdmin { chat_id });
    if admin_verdict(user_id, answer) == Ok::<bool, LookupFailure>(true) {
        let (second, answer) = first.execute(Statement::Begin);
        if answer is Done {
            lemma_delete_in_transaction(second, user_id, chat_id);
        }
    }
}

// ---- rename ---------------------------------------------------------------

/// The stages of renaming a chat.
#[derive(Debug)]
pub enum RenameChatFlow {
    CheckAdmin { user_id: u128, chat_id: u128, name: String },
    Update { chat_id: u128, name: String },
    Finished(HttpReply),
}

impl Flow for RenameChatFlow {
    type Outcome = HttpReply;

    open spec fn pending(&self) -> Option<Statement> {
        match *self {
            RenameChatFlow::CheckAdmin { chat_id, .. } => Some(Statement::ChatAdmin { chat_id }),
            RenameChatFlow::Update { chat_id, name } => Some(
                Statement::RenameChat { chat_id, name },
            ),
            RenameChatFlow::Finished(_) => None,
        }
    }

    open spec fn after(self, answer: Answer) -> Self {
        match self {
            RenameChatFlow::CheckAdmin { user_id, chat_id, name } => match admin_verdict(
                user_id,
                answer,
            ) {
                Ok(true) => RenameChatFlow::Update { chat_id, name },
                Ok(false) => RenameChatFlow::Finished(
                    HttpReply::Refused(HttpError::NotAdminToRename),
                ),
                Err(LookupFailure::NoRow) => RenameChatFlow::Finished(
                    HttpReply::Refused(HttpError::ChatNotFound),
                ),
                Err(LookupFailure::Failed) => RenameChatFlow::Finished(
                    HttpReply::Refused(HttpError::RenameLookupFailed),
                ),
            },
            RenameChatFlow::Update { chat_id, name } => match answer {
                Answer::Done => RenameChatFlow::Finished(HttpReply::NoContent),
                Answer::NoRow => RenameChatFlow::Finished(
                    HttpReply::Refused(HttpError::ChatNotFound),
                ),
                _ => RenameChatFlow::Finished(HttpReply::Refused(HttpError::RenameFailed)),
            },
            RenameChatFlow::Finished(reply) => RenameChatFlow::Finished(reply),
        }
    }

    open spec fn outcome(self) -> HttpReply {
        match self {
            RenameChatFlow::Finished(reply) => reply,
            _ => HttpReply::Refused(HttpError::RenameFailed),
        }
    }

    open spec fn steps_left(&self) -> nat {
        match *self {
            RenameChatFlow::CheckAdmin { .. } => 2,
            RenameChatFlow::Update { .. } => 1,
            RenameChatFlow::Finished(_) => 0,
        }
    }

    proof fn lemma_progress(self, answer: Answer) {
    }

    fn request(&self) -> (statement: Option<Statement>) {
        match self {
            RenameChatFlow::CheckAdmin { chat_id, .. } => Some(
                Statement::ChatAdmin { chat_id: *chat_id },
            ),
            RenameChatFlow::Update { chat_id, name } => Some(
                Statement::RenameChat { chat_id: *chat_id, name: name.clone() },
            ),
            RenameChatFlow::Finished(_) => None,
        }
    }

    fn resume(self, answer: Answer) -> (next: Self) {
        match self {
            RenameChatFlow::CheckAdmin { user_id, chat_id, name } => match check_admin(
                user_id,
                &answer,
            ) {
                Ok(true) => RenameChatFlow::Update { chat_id, name },
                Ok(false) => RenameChatFlow::Finished(
                    HttpReply::Refused(HttpError::NotAdminToRename),
                ),
                Err(LookupFailure::NoRow) => RenameChatFlow::Finished(
                    HttpReply::Refused(HttpError::ChatNotFound),
                ),
                Err(LookupFailure::Failed) => RenameChatFlow::Finished(
                    HttpReply::Refused(HttpError::RenameLookupFailed),
                ),
            },
            RenameChatFlow::Update { chat_id, name } => match answer {
                Answer::Done => RenameChatFlow::Finished(HttpReply::NoContent),
                Answer::NoRow => RenameChatFlow::Finished(
                    HttpReply::Refused(HttpError::ChatNotFound),
                ),
                _ => RenameChatFlow::Finished(HttpReply::Refused(HttpError::RenameFailed)),
            },
            RenameChatFlow::Finished(reply) => RenameChatFlow::Finished(reply),
        }
    }

    fn finish(self) -> (outcome: HttpReply) {
        match self {
            RenameChatFlow::Finished(reply) => reply,
            _ => HttpReply::Refused(HttpError::RenameFailed),
        }
    }
}

/// Where the renaming of a chat starts: a name of fewer than three
/// characters ends it at once.
pub open spec fn rename_chat_start(user: User, chat_id: u128, payload: RenameChat) -> RenameChatFlow {
    if payload.new_name@.len() < MIN_CHAT_NAME_CHARS {
        RenameChatFlow::Finished(HttpReply::Refused(HttpError::ChatNameTooShort))
    } else {
        RenameChatFlow::CheckAdmin { user_id: user.id, chat_id, name: payload.new_name }
    }
}

/// Starts the handling of a request to rename a chat.
pub fn rename_chat(user: &User, chat_id: u128, payload: RenameChat) -> (flow: RenameChatFlow)
    ensures
        flow == rename_chat_start(*user, chat_id, payload),
{
    if payload.new_name.as_str().unicode_len() < MIN_CHAT_NAME_CHARS {
        RenameChatFlow::Finished(HttpReply::Refused(HttpError::ChatNameTooShort))
    } else {
        RenameChatFlow::CheckAdmin { user_id: user.id, chat_id, name: payload.new_name }
    }
}

/// Against a store with no outage ahead, a chat is renamed exactly when it
/// exists and the caller administers it; otherwise nothing changes.
pub proof fn law_rename_chat(store: StoreState, user_id: u128, chat_id: u128, name: String)
    requires
        store.budget is None,
    ensures
        ({
            let (end, flow) = run(store, RenameChatFlow::CheckAdmin { user_id, chat_id, name });
            let t = store.tables;
            if !t.has_chat(chat_id) {
                end == store && flow.outcome() == HttpReply::Refused(HttpError::ChatNotFound)
            } else if !t.administers(user_id, chat_id) {
                end == store && flow.outcome() == HttpReply::Refused(HttpError::NotAdminToRename)
            } else {
                &&& end == store.with_tables(t.with_chat_name(chat_id, name))
                &&& flow.outcome() == HttpReply::NoContent
            }
        }),
{
    reveal_with_fuel(run, 3);
}

/// Whatever the store does, a renaming changes at most the one name, and
/// only for the administrator.
pub proof fn law_rename_chat_all_or_nothing(
    store: StoreState,
    user_id: u128,
    chat_id: u128,
    name: String,
)
    ensures
        ({
            let (end, flow) = run(store, RenameChatFlow::CheckAdmin { user_id, chat_id, name });
            &&& end.saved == store.saved
            &&& end.next_id == store.next_id
            &&& if flow.outcome() == HttpReply::NoContent {
                &&& store.tables.administers(user_id, chat_id)
                &&& end.tables == store.tables.with_chat_name(chat_id, name)
            } else {
                end.tables == store.tables
            }
        }),
{
    reveal_with_fuel(run, 3);
}

// ---- list -----------------------------------------------------------------

/// The answer to a request for the caller's chats, from what the store
/// returned for the query.
pub fn get_chats(listing: Result<Vec<Chat>, LookupFailure>) -> (reply: HttpReply)
    ensures
        reply == match listing {
            Ok(chats) => HttpReply::Chats(chats),
            Err(LookupFailure::NoRow) => HttpReply::Refused(HttpError::NoChats),
            Err(LookupFailure::Failed) => HttpReply::Refused(HttpError::ChatsFailed),
        },
{
    match listing {
        Ok(chats) => HttpReply::Chats(chats),
        Err(LookupFailure::NoRow) => HttpReply::Refused(HttpError::NoChats),
        Err(LookupFailure::Failed) => HttpReply::Refused(HttpError::ChatsFailed),
    }
}

} // verus!
