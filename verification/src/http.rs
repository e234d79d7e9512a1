//! What a request handler answers: a status and a body.

use vstd::prelude::*;
use crate::auth::registration::PasswordFlaw;
use crate::notice::ErrorKind;

verus! {

// The bodies of the refusals, one constant for each.

pub const TEXT_EMPTY: &'static str = "";

pub const TEXT_CHAT_NAME_TOO_SHORT: &'static str = "Chat name should be at least 3 characters long";

pub const TEXT_CREATE_CHAT_FAILED: &'static str = "Could not create chat";

pub const TEXT_CREATOR_NOT_ADDED: &'static str = "Could not add you to the chat";

pub const TEXT_NO_CHATS: &'static str = "Could not find any chats";

pub const TEXT_CHATS_FAILED: &'static str =
    "Could not find any chats due to internal reasons. Please, try once more";

pub const TEXT_NOT_ADMIN_TO_DELETE: &'static str = "Only admin can delete the chat";

pub const TEXT_CHAT_NOT_FOUND: &'static str = "Could not find chat with such an id";

pub const TEXT_CHAT_LOOKUP_FAILED: &'static str = "Could not find chat due to internal reasons";

pub const TEXT_DELETE_CHAT_FAILED: &'static str = "Could not delete chat";

pub const TEXT_DELETE_MEMBERS_FAILED: &'static str = "Could not delete users of chat";

pub const TEXT_DELETE_MESSAGES_FAILED: &'static str = "Could not delete chat messages";

pub const TEXT_DELETE_COMMIT_FAILED: &'static str =
    "Could not delete chat and other related entities";

pub const TEXT_NOT_ADMIN_TO_RENAME: &'static str = "Only admin of this chat can change its name";

pub const TEXT_RENAME_LOOKUP_FAILED: &'static str = "Could not find chat due to internal problems";

pub const TEXT_RENAME_FAILED: &'static str = "Could not update chat name";

pub const TEXT_BAD_CREDENTIALS: &'static str = "User with such email or password doesn't exist";

pub const TEXT_USERNAME_TOO_SHORT: &'static str = "Your email should be at least 3 characters long";

pub const TEXT_INVALID_EMAIL: &'static str = "Invalid email";

pub const TEXT_USER_EXISTS: &'static str = "User with such nickname or email already exists";

pub const TEXT_REGISTER_FAILED: &'static str = "Could not register you due to internal reasons";

pub const TEXT_WRONG_OLD_PASSWORD: &'static str = "Old password isn't correct.";

pub const TEXT_CHANGE_PASSWORD_FAILED: &'static str =
    "Could not change password due to internal reasons";

pub const TEXT_SAME_PASSWORD: &'static str = "New password cannot be the same as the old one.";

pub const TEXT_UPDATE_PASSWORD_FAILED: &'static str = "Could not update the password";

pub const TEXT_SAME_EMAIL: &'static str = "New email cannot be the same as the old one";

pub const TEXT_INVALID_NEW_EMAIL: &'static str = "Your new email is invalid";

pub const TEXT_EMAIL_TAKEN: &'static str = "This email is already used";

pub const TEXT_CHANGE_EMAIL_FAILED: &'static str =
    "Could not change your email due to internal reasons";

pub const TEXT_SAME_USERNAME: &'static str = "New username cannot be the same as the old one";

pub const TEXT_NEW_USERNAME_TOO_SHORT: &'static str =
    "New username has to be at least 3 characters long";

pub const TEXT_USERNAME_TAKEN: &'static str = "This username is already used";

pub const TEXT_CHANGE_USERNAME_FAILED: &'static str =
    "Could not change your username due to internal reasons";

/// Every refusal a request handler can answer with.
#[derive(Debug, Clone, Copy, PartialEq, Eq, Structural)]
pub enum HttpError {
    /// 401 with no body: the credential did not resolve to a user.
    Unauthorized,
    /// 500 with no body.
    Internal,
    ChatNameTooShort,
    CreateChatFailed,
    CreatorNotAdded,
    NoChats,
    ChatsFailed,
    NotAdminToDelete,
    ChatNotFound,
    ChatLookupFailed,
    DeleteChatFailed,
    DeleteMembersFailed,
    DeleteMessagesFailed,
    DeleteCommitFailed,
    NotAdminToRename,
    RenameLookupFailed,
    RenameFailed,
    BadCredentials,
    UsernameTooShort,
    InvalidEmail,
    /// The password offered at registration is too weak.
    WeakPassword(PasswordFlaw),
    UserExists,
    RegisterFailed,
    /// The password offered as a replacement is too weak.
    WeakNewPassword(PasswordFlaw),
    WrongOldPassword,
    ChangePasswordFailed,
    SamePassword,
    UpdatePasswordFailed,
    SameEmail,
    InvalidNewEmail,
    EmailTaken,
    ChangeEmailFailed,
    SameUsername,
    NewUsernameTooShort,
    UsernameTaken,
    ChangeUsernameFailed,
}

/// The class of failure that a status code of a refusal stands for.
pub open spec fn kind_of_status(status: u16) -> ErrorKind {
    if status == 400 {
        ErrorKind::InvalidInput
    } else if status == 401 {
        ErrorKind::Unauthenticated
    } else if status == 403 {
        ErrorKind::Forbidden
    } else if status == 404 {
        ErrorKind::NotFound
    } else if status == 409 {
        ErrorKind::Conflict
    } else {
        ErrorKind::Internal
    }
}

impl HttpError {
    /// The status code of the refusal.
    pub open spec fn status_of(self) -> u16 {
        match self {
            HttpError::Unauthorized | HttpError::BadCredentials => 401,
            HttpError::ChatNameTooShort
            | HttpError::UsernameTooShort
            | HttpError::InvalidEmail
            | HttpError::WeakPassword(_)
            | HttpError::SameEmail
            | HttpError::InvalidNewEmail
            | HttpError::EmailTaken
            | HttpError::SameUsername
            | HttpError::NewUsernameTooShort
            | HttpError::UsernameTaken => 400,
            HttpError::NotAdminToDelete
            | HttpError::NotAdminToRename
            | HttpError::WeakNewPassword(_)
            | HttpError::WrongOldPassword
            | HttpError::SamePassword => 403,
            HttpError::NoChats | HttpError::ChatNotFound => 404,
            HttpError::UserExists => 409,
            HttpError::Internal
            | HttpError::CreateChatFailed
            | HttpError::CreatorNotAdded
            | HttpError::ChatsFailed
            | HttpError::ChatLookupFailed
            | HttpError::DeleteChatFailed
            | HttpError::DeleteMembersFailed
            | HttpError::DeleteMessagesFailed
            | HttpError::DeleteCommitFailed
            | HttpError::RenameLookupFailed
            | HttpError::RenameFailed
            | HttpError::RegisterFailed
            | HttpError::ChangePasswordFailed
            | HttpError::UpdatePasswordFailed
            | HttpError::ChangeEmailFailed
            | HttpError::ChangeUsernameFailed => 500,
        }
    }

    /// The status code of the refusal.
    pub fn status(&self) -> (code: u16)
        ensures
            code == self.status_of(),
    {
        match self {
            HttpError::Unauthorized | HttpError::BadCredentials => 401,
            HttpError::ChatNameTooShort
            | HttpError::UsernameTooShort
            | HttpError::InvalidEmail
            | HttpError::WeakPassword(_)
            | HttpError::SameEmail
            | HttpError::InvalidNewEmail
            | HttpError::EmailTaken
            | HttpError::SameUsername
            | HttpError::NewUsernameTooShort
            | HttpError::UsernameTaken => 400,
            HttpError::NotAdminToDelete
            | HttpError::NotAdminToRename
            | HttpError::WeakNewPassword(_)
            | HttpError::WrongOldPassword
            | HttpError::SamePassword => 403,
            HttpError::NoChats | HttpError::ChatNotFound => 404,
            HttpError::UserExists => 409,
            HttpError::Internal
            | HttpError::CreateChatFailed
            | HttpError::CreatorNotAdded
            | HttpError::ChatsFailed
            | HttpError::ChatLookupFailed
            | HttpError::DeleteChatFailed
            | HttpError::DeleteMembersFailed
            | HttpError::DeleteMessagesFailed
            | HttpError::DeleteCommitFailed
            | HttpError::RenameLookupFailed
            | HttpError::RenameFailed
            | HttpError::RegisterFailed
            | HttpError::ChangePasswordFailed
            | HttpError::UpdatePasswordFailed
            | HttpError::ChangeEmailFailed
            | HttpError::ChangeUsernameFailed => 500,
        }
    }

    /// The class of the failure: the one that the status code stands for.
    pub fn kind(&self) -> (kind: ErrorKind)
        ensures
            kind == kind_of_status(self.status_of()),
    {
        let status = self.status();
        if status == 400 {
            ErrorKind::InvalidInput
        } else if status == 401 {
            ErrorKind::Unauthenticated
        } else if status == 403 {
            ErrorKind::Forbidden
        } else if status == 404 {
            ErrorKind::NotFound
        } else if status == 409 {
            ErrorKind::Conflict
        } else {
            ErrorKind::Internal
        }
    }

    /// The body of the refusal.
    pub open spec fn text_of(self) -> &'static str {
        match self {
            HttpError::Unauthorized => TEXT_EMPTY,
            HttpError::Internal => TEXT_EMPTY,
            HttpError::ChatNameTooShort => TEXT_CHAT_NAME_TOO_SHORT,
            HttpError::CreateChatFailed => TEXT_CREATE_CHAT_FAILED,
            HttpError::CreatorNotAdded => TEXT_CREATOR_NOT_ADDED,
            HttpError::NoChats => TEXT_NO_CHATS,
            HttpError::ChatsFailed => TEXT_CHATS_FAILED,
            HttpError::NotAdminToDelete => TEXT_NOT_ADMIN_TO_DELETE,
            HttpError::ChatNotFound => TEXT_CHAT_NOT_FOUND,
            HttpError::ChatLookupFailed => TEXT_CHAT_LOOKUP_FAILED,
            HttpError::DeleteChatFailed => TEXT_DELETE_CHAT_FAILED,
            HttpError::DeleteMembersFailed => TEXT_DELETE_MEMBERS_FAILED,
            HttpError::DeleteMessagesFailed => TEXT_DELETE_MESSAGES_FAILED,
            HttpError::DeleteCommitFailed => TEXT_DELETE_COMMIT_FAILED,
            HttpError::NotAdminToRename => TEXT_NOT_ADMIN_TO_RENAME,
            HttpError::RenameLookupFailed => TEXT_RENAME_LOOKUP_FAILED,
            HttpError::RenameFailed => TEXT_RENAME_FAILED,
            HttpError::BadCredentials => TEXT_BAD_CREDENTIALS,
            HttpError::UsernameTooShort => TEXT_USERNAME_TOO_SHORT,
            HttpError::InvalidEmail => TEXT_INVALID_EMAIL,
            HttpError::WeakPassword(flaw) => flaw.text_of(),
            HttpError::UserExists => TEXT_USER_EXISTS,
            HttpError::RegisterFailed => TEXT_REGISTER_FAILED,
            HttpError::WeakNewPassword(flaw) => flaw.text_of(),
            HttpError::WrongOldPassword => TEXT_WRONG_OLD_PASSWORD,
            HttpError::ChangePasswordFailed => TEXT_CHANGE_PASSWORD_FAILED,
            HttpError::SamePassword => TEXT_SAME_PASSWORD,
            HttpError::UpdatePasswordFailed => TEXT_UPDATE_PASSWORD_FAILED,
            HttpError::SameEmail => TEXT_SAME_EMAIL,
            HttpError::InvalidNewEmail => TEXT_INVALID_NEW_EMAIL,
            HttpError::EmailTaken => TEXT_EMAIL_TAKEN,
            HttpError::ChangeEmailFailed => TEXT_CHANGE_EMAIL_FAILED,
            HttpError::SameUsername => TEXT_SAME_USERNAME,
            HttpError::NewUsernameTooShort => TEXT_NEW_USERNAME_TOO_SHORT,
            HttpError::UsernameTaken => TEXT_USERNAME_TAKEN,
            HttpError::ChangeUsernameFailed => TEXT_CHANGE_USERNAME_FAILED,
        }
    }

    /// The body of the refusal.
    pub fn text(&self) -> (body: &'static str)
        ensures
            body == self.text_of(),
    {
        match self {
            HttpError::Unauthorized => TEXT_EMPTY,
            HttpError::Internal => TEXT_EMPTY,
            HttpError::ChatNameTooShort => TEXT_CHAT_NAME_TOO_SHORT,
            HttpError::CreateChatFailed => TEXT_CREATE_CHAT_FAILED,
            HttpError::CreatorNotAdded => TEXT_CREATOR_NOT_ADDED,
            HttpError::NoChats => TEXT_NO_CHATS,
            HttpError::ChatsFailed => TEXT_CHATS_FAILED,
            HttpError::NotAdminToDelete => TEXT_NOT_ADMIN_TO_DELETE,
            HttpError::ChatNotFound => TEXT_CHAT_NOT_FOUND,
            HttpError::ChatLookupFailed => TEXT_CHAT_LOOKUP_FAILED,
            HttpError::DeleteChatFailed => TEXT_DELETE_CHAT_FAILED,
            HttpError::DeleteMembersFailed => TEXT_DELETE_MEMBERS_FAILED,
            HttpError::DeleteMessagesFailed => TEXT_DELETE_MESSAGES_FAILED,
            HttpError::DeleteCommitFailed => TEXT_DELETE_COMMIT_FAILED,
            HttpError::NotAdminToRename => TEXT_NOT_ADMIN_TO_RENAME,
            HttpError::RenameLookupFailed => TEXT_RENAME_LOOKUP_FAILED,
            HttpError::RenameFailed => TEXT_RENAME_FAILED,
            HttpError::BadCredentials => TEXT_BAD_CREDENTIALS,
            HttpError::UsernameTooShort => TEXT_USERNAME_TOO_SHORT,
            HttpError::InvalidEmail => TEXT_INVALID_EMAIL,
            HttpError::WeakPassword(flaw) => flaw.text(),
            HttpError::UserExists => TEXT_USER_EXISTS,
            HttpError::RegisterFailed => TEXT_REGISTER_FAILED,
            HttpError::WeakNewPassword(flaw) => flaw.text(),
            HttpError::WrongOldPassword => TEXT_WRONG_OLD_PASSWORD,
            HttpError::ChangePasswordFailed => TEXT_CHANGE_PASSWORD_FAILED,
            HttpError::SamePassword => TEXT_SAME_PASSWORD,
            HttpError::UpdatePasswordFailed => TEXT_UPDATE_PASSWORD_FAILED,
            HttpError::SameEmail => TEXT_SAME_EMAIL,
            HttpError::InvalidNewEmail => TEXT_INVALID_NEW_EMAIL,
            HttpError::EmailTaken => TEXT_EMAIL_TAKEN,
            HttpError::ChangeEmailFailed => TEXT_CHANGE_EMAIL_FAILED,
            HttpError::SameUsername => TEXT_SAME_USERNAME,
            HttpError::NewUsernameTooShort => TEXT_NEW_USERNAME_TOO_SHORT,
            HttpError::UsernameTaken => TEXT_USERNAME_TAKEN,
            HttpError::ChangeUsernameFailed => TEXT_CHANGE_USERNAME_FAILED,
        }
    }
}

/// A chat as the list of a user's chats shows it.
#[derive(Debug)]
pub struct Chat {
    pub name: String,
    pub chat_id: u128,
    pub admin_username: String,
}

/// A user as others may see it: the row without the password hash.
#[derive(Debug)]
pub struct NormalizedUser {
    pub id: u128,
    pub username: String,
    pub email: String,
}

/// What a request handler answers.
#[derive(Debug)]
pub enum HttpReply {
    /// 201, no body.
    Created,
    /// 204, no body.
    NoContent,
    /// 200 with the chats as JSON.
    Chats(Vec<Chat>),
    /// 200 with the user as JSON.
    Me(NormalizedUser),
    /// 200 with the access token as the body and the refresh token in a
    /// `Set-Cookie` header.
    LoggedIn { access_token: String, refresh_cookie: String },
    /// The status and the sentence of the refusal.
    Refused(HttpError),
}

impl HttpReply {
    /// The status code of the answer.
    pub open spec fn status_of(self) -> u16 {
        match self {
            HttpReply::Created => 201,
            HttpReply::NoContent => 204,
            HttpReply::Chats(_) => 200,
            HttpReply::Me(_) => 200,
            HttpReply::LoggedIn { .. } => 200,
            HttpReply::Refused(error) => error.status_of(),
        }
    }

    /// The status code of the answer.
    pub fn status(&self) -> (code: u16)
        ensures
            code == self.status_of(),
    {
        match self {
            HttpReply::Created => 201,
            HttpReply::NoContent => 204,
            HttpReply::Chats(_) => 200,
            HttpReply::Me(_) => 200,
            HttpReply::LoggedIn { .. } => 200,
            HttpReply::Refused(error) => error.status(),
        }
    }

    /// Whether the answer is anything but a refusal.
    pub open spec fn is_success(self) -> bool {
        !(self is Refused)
    }
}

} // verus!
