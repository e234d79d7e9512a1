//! What a realtime handler tells the connection that called it: a named
//! event, `"success"` or `"error"`, with a sentence for a person to read.

use vstd::prelude::*;

verus! {

/// The event that carries a success.
pub const EVENT_SUCCESS: &'static str = "success";

/// The event that carries a failure.
pub const EVENT_ERROR: &'static str = "error";

// The sentences, one constant for each.

pub const TEXT_MALFORMED_BODY: &'static str =
    "Could not parse body. Please, make sure you have all the required fields with correct names";

pub const TEXT_UNAUTHENTICATED: &'static str = "Could not authenticate the user by auth header";

pub const TEXT_JOINED: &'static str = "Successfully joined the chat room";

pub const TEXT_JOIN_REFUSED: &'static str = "Could not join the chat room";

pub const TEXT_SELF_ADD: &'static str = "You cannot add yourself to the chat";

pub const TEXT_NOT_IN_CHAT: &'static str =
    "You cannot add users to chat you yourself are not the part of";

pub const TEXT_MEMBERSHIP_CHECK_FAILED: &'static str = "Failed to check if you are in the chat";

pub const TEXT_MEMBER_ADDED: &'static str = "Successfully added the user to the chat";

pub const TEXT_ALREADY_MEMBER: &'static str = "User is already in the chat";

pub const TEXT_UNKNOWN_USER: &'static str = "User with such an id does not exist";

pub const TEXT_ADD_FAILED: &'static str = "Could not add user to the chat due to internal reasons";

pub const TEXT_SELF_REMOVAL: &'static str = "User cannot remove himself from the chat";

pub const TEXT_NOT_ADMIN: &'static str = "Only admin can remove other users from the chat";

pub const TEXT_ADMIN_CHECK_FAILED: &'static str =
    "Could not validate that you are an admin of the chat";

pub const TEXT_MEMBER_REMOVED: &'static str = "Successfully removed user from the chat";

pub const TEXT_MEMBER_NOT_FOUND: &'static str = "Could not find user in chat";

pub const TEXT_REMOVE_FAILED: &'static str = "Could not remove user from the chat";

pub const TEXT_ADMIN_CANNOT_LEAVE: &'static str = "Admin cannot leave their own chat";

pub const TEXT_NOT_FOUND_IN_CHAT: &'static str = "Could not find you in this chat";

pub const TEXT_LEAVE_CHECK_FAILED: &'static str = "Could not check if you are an admin of the chat";

pub const TEXT_LEFT: &'static str = "Successfully leaved the chat";

pub const TEXT_LEAVE_FAILED: &'static str = "Could not leave the chat";

pub const TEXT_EMPTY_MESSAGE: &'static str = "Message cannot be 0 characters long";

pub const TEXT_NOT_IN_CHAT_TO_SEND: &'static str =
    "You send messages to the chat you yourself are not the part of";

pub const TEXT_SEND_FAILED: &'static str = "Could not send a message";

pub const TEXT_EMPTY_NEW_CONTENT: &'static str = "New message content cannot be 0 characters long";

pub const TEXT_UPDATE_REFUSED: &'static str =
    "The message doesn't exist or you are trying to update someone else's message";

pub const TEXT_UPDATE_FAILED: &'static str = "Could not update the message";

pub const TEXT_DELETE_REFUSED: &'static str =
    "Could not find the message to delete or you are trying to delete someone else's message";

pub const TEXT_DELETE_FAILED: &'static str = "Could not delete the message";

/// The classes of failure that callers tell apart.
#[derive(Debug, Clone, Copy, PartialEq, Eq, Structural)]
pub enum ErrorKind {
    /// The credential is missing, invalid or expired.
    Unauthenticated,
    /// The caller is known but may not do this.
    Forbidden,
    /// An id names nothing.
    NotFound,
    /// The input breaks a rule of the domain.
    InvalidInput,
    /// A uniqueness rule refused the change.
    Conflict,
    /// The message is not there, or it is someone else's: the caller is
    /// not told which.
    NotFoundOrForbidden,
    /// The store failed for reasons that have nothing to do with the rules.
    Internal,
}

/// Every sentence a realtime handler can send back to its caller.
#[derive(Debug, Clone, Copy, PartialEq, Eq, Structural)]
pub enum Notice {
    MalformedBody,
    Unauthenticated,
    Joined,
    /// The caller is not a member of the chat whose room it asked to join.
    JoinRefused,
    /// The store could not say whether the caller is a member.
    JoinFailed,
    SelfAdd,
    NotInChat,
    MembershipCheckFailed,
    MemberAdded,
    AlreadyMember,
    UnknownUser,
    AddFailed,
    SelfRemoval,
    NotAdmin,
    /// The chat whose administrator was asked for does not exist.
    AdminCheckNoChat,
    AdminCheckFailed,
    MemberRemoved,
    MemberNotFound,
    RemoveFailed,
    AdminCannotLeave,
    NotFoundInChat,
    LeaveCheckFailed,
    Left,
    LeaveFailed,
    EmptyMessage,
    NotInChatToSend,
    SendFailed,
    EmptyNewContent,
    UpdateRefused,
    UpdateFailed,
    DeleteRefused,
    DeleteFailed,
}

impl Notice {
    /// The class of the failure, or `None` for a success.
    pub open spec fn kind_of(self) -> Option<ErrorKind> {
        match self {
            Notice::Joined | Notice::MemberAdded | Notice::MemberRemoved | Notice::Left => None,
            Notice::Unauthenticated => Some(ErrorKind::Unauthenticated),
            Notice::JoinRefused
            | Notice::NotInChat
            | Notice::NotAdmin
            | Notice::AdminCannotLeave
            | Notice::NotInChatToSend => Some(ErrorKind::Forbidden),
            Notice::UnknownUser
            | Notice::AdminCheckNoChat
            | Notice::MemberNotFound
            | Notice::NotFoundInChat => Some(ErrorKind::NotFound),
            Notice::MalformedBody
            | Notice::SelfAdd
            | Notice::SelfRemoval
            | Notice::EmptyMessage
            | Notice::EmptyNewContent => Some(ErrorKind::InvalidInput),
            Notice::AlreadyMember => Some(ErrorKind::Conflict),
            Notice::UpdateRefused | Notice::DeleteRefused => Some(ErrorKind::NotFoundOrForbidden),
            Notice::JoinFailed
            | Notice::MembershipCheckFailed
            | Notice::AddFailed
            | Notice::AdminCheckFailed
            | Notice::RemoveFailed
            | Notice::LeaveCheckFailed
            | Notice::LeaveFailed
            | Notice::SendFailed
            | Notice::UpdateFailed
            | Notice::DeleteFailed => Some(ErrorKind::Internal),
        }
    }

    /// The class of the failure, or `None` for a success.
    pub fn kind(&self) -> (kind: Option<ErrorKind>)
        ensures
            kind == self.kind_of(),
    {
        match self {
            Notice::Joined | Notice::MemberAdded | Notice::MemberRemoved | Notice::Left => None,
            Notice::Unauthenticated => Some(ErrorKind::Unauthenticated),
            Notice::JoinRefused
            | Notice::NotInChat
            | Notice::NotAdmin
            | Notice::AdminCannotLeave
            | Notice::NotInChatToSend => Some(ErrorKind::Forbidden),
            Notice::UnknownUser
            | Notice::AdminCheckNoChat
            | Notice::MemberNotFound
            | Notice::NotFoundInChat => Some(ErrorKind::NotFound),
            Notice::MalformedBody
            | Notice::SelfAdd
            | Notice::SelfRemoval
            | Notice::EmptyMessage
            | Notice::EmptyNewContent => Some(ErrorKind::InvalidInput),
            Notice::AlreadyMember => Some(ErrorKind::Conflict),
            Notice::UpdateRefused | Notice::DeleteRefused => Some(ErrorKind::NotFoundOrForbidden),
            Notice::JoinFailed
            | Notice::MembershipCheckFailed
            | Notice::AddFailed
            | Notice::AdminCheckFailed
            | Notice::RemoveFailed
            | Notice::LeaveCheckFailed
            | Notice::LeaveFailed
            | Notice::SendFailed
            | Notice::UpdateFailed
            | Notice::DeleteFailed => Some(ErrorKind::Internal),
        }
    }

    /// Whether the notice reports a success.
    pub open spec fn is_success(self) -> bool {
        self.kind_of() is None
    }

    /// The name of the event that carries the notice.
    pub open spec fn event_of(self) -> &'static str {
        if self.is_success() {
            EVENT_SUCCESS
        } else {
            EVENT_ERROR
        }
    }

    /// The name of the event that carries the notice.
    pub fn event(&self) -> (name: &'static str)
        ensures
            name == self.event_of(),
    {
        match self.kind() {
            None => EVENT_SUCCESS,
            Some(_) => EVENT_ERROR,
        }
    }

    /// The sentence of the notice.
    pub open spec fn text_of(self) -> &'static str {
        match self {
            Notice::MalformedBody => TEXT_MALFORMED_BODY,
            Notice::Unauthenticated => TEXT_UNAUTHENTICATED,
            Notice::Joined => TEXT_JOINED,
            Notice::JoinRefused => TEXT_JOIN_REFUSED,
            Notice::JoinFailed => TEXT_JOIN_REFUSED,
            Notice::SelfAdd => TEXT_SELF_ADD,
            Notice::NotInChat => TEXT_NOT_IN_CHAT,
            Notice::MembershipCheckFailed => TEXT_MEMBERSHIP_CHECK_FAILED,
            Notice::MemberAdded => TEXT_MEMBER_ADDED,
            Notice::AlreadyMember => TEXT_ALREADY_MEMBER,
            Notice::UnknownUser => TEXT_UNKNOWN_USER,
            Notice::AddFailed => TEXT_ADD_FAILED,
            Notice::SelfRemoval => TEXT_SELF_REMOVAL,
            Notice::NotAdmin => TEXT_NOT_ADMIN,
            Notice::AdminCheckNoChat => TEXT_ADMIN_CHECK_FAILED,
            Notice::AdminCheckFailed => TEXT_ADMIN_CHECK_FAILED,
            Notice::MemberRemoved => TEXT_MEMBER_REMOVED,
            Notice::MemberNotFound => TEXT_MEMBER_NOT_FOUND,
            Notice::RemoveFailed => TEXT_REMOVE_FAILED,
            Notice::AdminCannotLeave => TEXT_ADMIN_CANNOT_LEAVE,
            Notice::NotFoundInChat => TEXT_NOT_FOUND_IN_CHAT,
            Notice::LeaveCheckFailed => TEXT_LEAVE_CHECK_FAILED,
            Notice::Left => TEXT_LEFT,
            Notice::LeaveFailed => TEXT_LEAVE_FAILED,
            Notice::EmptyMessage => TEXT_EMPTY_MESSAGE,
            Notice::NotInChatToSend => TEXT_NOT_IN_CHAT_TO_SEND,
            Notice::SendFailed => TEXT_SEND_FAILED,
            Notice::EmptyNewContent => TEXT_EMPTY_NEW_CONTENT,
            Notice::UpdateRefused => TEXT_UPDATE_REFUSED,
            Notice::UpdateFailed => TEXT_UPDATE_FAILED,
            Notice::DeleteRefused => TEXT_DELETE_REFUSED,
            Notice::DeleteFailed => TEXT_DELETE_FAILED,
        }
    }

    /// The sentence of the notice.
    pub fn text(&self) -> (sentence: &'static str)
        ensures
            sentence == self.text_of(),
    {
        match self {
            Notice::MalformedBody => TEXT_MALFORMED_BODY,
            Notice::Unauthenticated => TEXT_UNAUTHENTICATED,
            Notice::Joined => TEXT_JOINED,
            Notice::JoinRefused => TEXT_JOIN_REFUSED,
            Notice::JoinFailed => TEXT_JOIN_REFUSED,
            Notice::SelfAdd => TEXT_SELF_ADD,
            Notice::NotInChat => TEXT_NOT_IN_CHAT,
            Notice::MembershipCheckFailed => TEXT_MEMBERSHIP_CHECK_FAILED,
            Notice::MemberAdded => TEXT_MEMBER_ADDED,
            Notice::AlreadyMember => TEXT_ALREADY_MEMBER,
            Notice::UnknownUser => TEXT_UNKNOWN_USER,
            Notice::AddFailed => TEXT_ADD_FAILED,
            Notice::SelfRemoval => TEXT_SELF_REMOVAL,
            Notice::NotAdmin => TEXT_NOT_ADMIN,
            Notice::AdminCheckNoChat => TEXT_ADMIN_CHECK_FAILED,
            Notice::AdminCheckFailed => TEXT_ADMIN_CHECK_FAILED,
            Notice::MemberRemoved => TEXT_MEMBER_REMOVED,
            Notice::MemberNotFound => TEXT_MEMBER_NOT_FOUND,
            Notice::RemoveFailed => TEXT_REMOVE_FAILED,
            Notice::AdminCannotLeave => TEXT_ADMIN_CANNOT_LEAVE,
            Notice::NotFoundInChat => TEXT_NOT_FOUND_IN_CHAT,
            Notice::LeaveCheckFailed => TEXT_LEAVE_CHECK_FAILED,
            Notice::Left => TEXT_LEFT,
            Notice::LeaveFailed => TEXT_LEAVE_FAILED,
            Notice::EmptyMessage => TEXT_EMPTY_MESSAGE,
            Notice::NotInChatToSend => TEXT_NOT_IN_CHAT_TO_SEND,
            Notice::SendFailed => TEXT_SEND_FAILED,
            Notice::EmptyNewContent => TEXT_EMPTY_NEW_CONTENT,
            Notice::UpdateRefused => TEXT_UPDATE_REFUSED,
            Notice::UpdateFailed => TEXT_UPDATE_FAILED,
            Notice::DeleteRefused => TEXT_DELETE_REFUSED,
            Notice::DeleteFailed => TEXT_DELETE_FAILED,
        }
    }
}

} // verus!
