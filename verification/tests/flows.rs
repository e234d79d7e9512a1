use chat_backend::auth::authentication::{get_me, login, tokens_reply, LoginDto};
use chat_backend::auth::jwt::{JwtPayload, TokenError};
use chat_backend::auth::registration::{registration, PasswordFlaw};
use chat_backend::chat::chat::{
    check_admin, create_chat, delete_chat, get_chats, rename_chat, CreateChat, RenameChat,
};
use chat_backend::flow::{drive, Flow};
use chat_backend::http::{Chat, HttpError, HttpReply};
use chat_backend::middlewares::jwt_authorization;
use chat_backend::model::{MessageRow, User};
use chat_backend::notice::Notice;
use chat_backend::sockets::member::{
    add_member, leave_chat, remove_member, ChatMembershipInput, LeaveChatInput,
};
use chat_backend::sockets::message::{
    delete_message, send_message, update_message, DeleteMessage, SendMessageInput,
    UpdateMessageInput,
};
use chat_backend::sockets::{get_user, join_chat_room, JoinRoom, RoomEvent, SocketReply};
use chat_backend::store::memory::MemoryStore;
use chat_backend::store::protocol::{Answer, LookupFailure, Statement, UserField};
use chat_backend::user::user::{
    change_email, change_username, password_change, ChangeEmail, ChangeUsername,
};

fn user(id: u128, name: &str) -> User {
    User {
        id,
        username: name.to_string(),
        password: "hash".to_string(),
        email: format!("{}@mail.org", name),
    }
}

fn claims(id: u128) -> Option<JwtPayload> {
    Some(JwtPayload { id, username: "someone".to_string() })
}

/// Runs a flow against a script of answers and returns the statements it
/// issued with its outcome.
fn script<F: Flow>(flow: F, answers: Vec<Answer>) -> (Vec<String>, F::Outcome) {
    let mut flow = flow;
    let mut issued = Vec::new();
    let mut answers = answers.into_iter();
    while let Some(statement) = flow.request() {
        issued.push(format!("{:?}", statement));
        let answer = answers.next().expect("the script has an answer for every statement");
        flow = flow.resume(answer);
    }
    assert!(answers.next().is_none(), "the flow ended before the script did");
    (issued, flow.finish())
}

fn told<F: Flow<Outcome = SocketReply>>(flow: F, answers: Vec<Answer>) -> Notice {
    match script(flow, answers).1 {
        SocketReply::Tell(notice) => notice,
        other => panic!("expected a notice, got {:?}", other),
    }
}

fn refused<F: Flow<Outcome = HttpReply>>(flow: F, answers: Vec<Answer>) -> HttpError {
    match script(flow, answers).1 {
        HttpReply::Refused(error) => error,
        other => panic!("expected a refusal, got {:?}", other),
    }
}

#[test]
fn add_member_asks_three_things() {
    let input = Some(ChatMembershipInput { user_id: 2, chat_id: 10 });
    let (issued, reply) = script(
        add_member(&claims(1), input),
        vec![Answer::User(user(1, "alice")), Answer::Flag(true), Answer::Done],
    );
    assert_eq!(
        issued,
        vec![
            "UserById { id: 1 }",
            "MembershipExists { user_id: 1, chat_id: 10 }",
            "InsertMembership { user_id: 2, chat_id: 10 }",
        ]
    );
    assert!(matches!(reply, SocketReply::Tell(Notice::MemberAdded)));
}

#[test]
fn add_member_refusals() {
    let input = Some(ChatMembershipInput { user_id: 2, chat_id: 10 });
    let alice = || Answer::User(user(1, "alice"));
    assert_eq!(told(add_member(&claims(1), None), vec![]), Notice::MalformedBody);
    assert_eq!(told(add_member(&None, None), vec![]), Notice::MalformedBody);
    assert_eq!(told(add_member(&None, input), vec![]), Notice::Unauthenticated);
    assert_eq!(told(add_member(&claims(1), input), vec![Answer::NoRow]), Notice::Unauthenticated);
    assert_eq!(told(add_member(&claims(1), input), vec![Answer::Failed]), Notice::Unauthenticated);
    assert_eq!(
        told(add_member(&claims(2), input), vec![Answer::User(user(2, "bob"))]),
        Notice::SelfAdd
    );
    assert_eq!(
        told(add_member(&claims(1), input), vec![alice(), Answer::Flag(false)]),
        Notice::NotInChat
    );
    assert_eq!(
        told(add_member(&claims(1), input), vec![alice(), Answer::Failed]),
        Notice::MembershipCheckFailed
    );
    assert_eq!(
        told(add_member(&claims(1), input), vec![alice(), Answer::Flag(true), Answer::UniqueViolation]),
        Notice::AlreadyMember
    );
    assert_eq!(
        told(
            add_member(&claims(1), input),
            vec![alice(), Answer::Flag(true), Answer::ForeignKeyViolation]
        ),
        Notice::UnknownUser
    );
    assert_eq!(
        told(add_member(&claims(1), input), vec![alice(), Answer::Flag(true), Answer::Failed]),
        Notice::AddFailed
    );
}

#[test]
fn remove_member_steps() {
    let input = Some(ChatMembershipInput { user_id: 2, chat_id: 10 });
    let alice = || Answer::User(user(1, "alice"));
    let (issued, reply) =
        script(remove_member(&claims(1), input), vec![alice(), Answer::Id(1), Answer::Done]);
    assert_eq!(
        issued,
        vec![
            "UserById { id: 1 }",
            "ChatAdmin { chat_id: 10 }",
            "DeleteMembership { user_id: 2, chat_id: 10 }",
        ]
    );
    assert!(matches!(
        reply,
        SocketReply::Evict { user_id: 2, chat_id: 10, notice: Notice::MemberRemoved }
    ));
    assert_eq!(told(remove_member(&claims(1), None), vec![]), Notice::MalformedBody);
    assert_eq!(told(remove_member(&None, input), vec![]), Notice::Unauthenticated);
    assert_eq!(
        told(remove_member(&claims(2), input), vec![Answer::User(user(2, "bob"))]),
        Notice::SelfRemoval
    );
    assert_eq!(
        told(remove_member(&claims(1), input), vec![alice(), Answer::Id(3)]),
        Notice::NotAdmin
    );
    assert_eq!(
        told(remove_member(&claims(1), input), vec![alice(), Answer::NoRow]),
        Notice::AdminCheckNoChat
    );
    assert_eq!(
        told(remove_member(&claims(1), input), vec![alice(), Answer::Failed]),
        Notice::AdminCheckFailed
    );
    assert_eq!(
        told(remove_member(&claims(1), input), vec![alice(), Answer::Id(1), Answer::NoRow]),
        Notice::MemberNotFound
    );
    assert_eq!(
        told(remove_member(&claims(1), input), vec![alice(), Answer::Id(1), Answer::Failed]),
        Notice::RemoveFailed
    );
}

#[test]
fn leave_chat_steps() {
    let input = Some(LeaveChatInput { chat_id: 10 });
    let bob = || Answer::User(user(2, "bob"));
    let (issued, reply) =
        script(leave_chat(&claims(2), input), vec![bob(), Answer::Id(1), Answer::Done]);
    assert_eq!(
        issued,
        vec![
            "UserById { id: 2 }",
            "ChatAdmin { chat_id: 10 }",
            "DeleteMembership { user_id: 2, chat_id: 10 }",
        ]
    );
    assert!(matches!(reply, SocketReply::Evict { user_id: 2, chat_id: 10, notice: Notice::Left }));
    assert_eq!(told(leave_chat(&claims(2), None), vec![]), Notice::MalformedBody);
    assert_eq!(told(leave_chat(&None, input), vec![]), Notice::Unauthenticated);
    assert_eq!(told(leave_chat(&claims(2), input), vec![Answer::NoRow]), Notice::Unauthenticated);
    assert_eq!(
        told(leave_chat(&claims(2), input), vec![bob(), Answer::Id(2)]),
        Notice::AdminCannotLeave
    );
    assert_eq!(
        told(leave_chat(&claims(2), input), vec![bob(), Answer::NoRow]),
        Notice::NotFoundInChat
    );
    assert_eq!(
        told(leave_chat(&claims(2), input), vec![bob(), Answer::Failed]),
        Notice::LeaveCheckFailed
    );
    assert_eq!(
        told(leave_chat(&claims(2), input), vec![bob(), Answer::Id(1), Answer::NoRow]),
        Notice::NotFoundInChat
    );
    assert_eq!(
        told(leave_chat(&claims(2), input), vec![bob(), Answer::Id(1), Answer::Failed]),
        Notice::LeaveFailed
    );
}

#[test]
fn send_message_trims_and_checks_first() {
    let input = |content: &str| Some(SendMessageInput { content: content.to_string(), chat_id: 10 });
    assert_eq!(told(send_message(&claims(1), None), vec![]), Notice::MalformedBody);
    // blank content is refused before the credential is looked at
    assert_eq!(told(send_message(&None, input("")), vec![]), Notice::EmptyMessage);
    assert_eq!(told(send_message(&None, input(" \t\n\u{a0}\u{3000} ")), vec![]), Notice::EmptyMessage);
    assert_eq!(told(send_message(&None, input("hi")), vec![]), Notice::Unauthenticated);

    let row = MessageRow {
        id: 7,
        chat_id: 10,
        user_id: 1,
        content: "hi there".to_string(),
        created_at: Some(5),
    };
    let (issued, reply) = script(
        send_message(&claims(1), input("  hi there \n")),
        vec![Answer::User(user(1, "alice")), Answer::Flag(true), Answer::Message(row)],
    );
    assert_eq!(
        issued,
        vec![
            "UserById { id: 1 }",
            "MembershipExists { user_id: 1, chat_id: 10 }",
            "InsertMessage { content: \"hi there\", user_id: 1, chat_id: 10 }",
        ]
    );
    match reply {
        SocketReply::Broadcast { chat_id, event: RoomEvent::NewMessage(message) } => {
            assert_eq!(chat_id, 10);
            assert_eq!(message.id, 7);
            assert_eq!(message.content, "hi there");
            assert_eq!(message.user_id, 1);
            assert_eq!(message.created_at, Some(5));
        },
        other => panic!("expected a broadcast, got {:?}", other),
    }
}

#[test]
fn send_message_refusals() {
    let input = || Some(SendMessageInput { content: "hi".to_string(), chat_id: 10 });
    let alice = || Answer::User(user(1, "alice"));
    assert_eq!(told(send_message(&claims(1), input()), vec![Answer::NoRow]), Notice::Unauthenticated);
    assert_eq!(
        told(send_message(&claims(1), input()), vec![alice(), Answer::Flag(false)]),
        Notice::NotInChatToSend
    );
    assert_eq!(
        told(send_message(&claims(1), input()), vec![alice(), Answer::Failed]),
        Notice::MembershipCheckFailed
    );
    assert_eq!(
        told(send_message(&claims(1), input()), vec![alice(), Answer::Flag(true), Answer::Failed]),
        Notice::SendFailed
    );
}

#[test]
fn update_message_keeps_content_as_it_came() {
    let input = |content: &str| {
        Some(UpdateMessageInput { new_content: content.to_string(), message_id: 7 })
    };
    assert_eq!(told(update_message(&claims(1), None), vec![]), Notice::MalformedBody);
    assert_eq!(told(update_message(&None, input("  ")), vec![]), Notice::EmptyNewContent);
    assert_eq!(told(update_message(&None, input("new")), vec![]), Notice::Unauthenticated);
    let row = MessageRow {
        id: 7,
        chat_id: 12,
        user_id: 1,
        content: " new ".to_string(),
        created_at: None,
    };
    let (issued, reply) = script(
        update_message(&claims(1), input(" new ")),
        vec![Answer::User(user(1, "alice")), Answer::Message(row)],
    );
    assert_eq!(
        issued,
        vec![
            "UserById { id: 1 }",
            "UpdateMessage { content: \" new \", message_id: 7, user_id: 1 }",
        ]
    );
    // the room is the one of the chat that the row names
    match reply {
        SocketReply::Broadcast { chat_id, event: RoomEvent::UpdatedMessage(message) } => {
            assert_eq!(chat_id, 12);
            assert_eq!(message.content, " new ");
            assert_eq!(message.created_at, None);
        },
        other => panic!("expected a broadcast, got {:?}", other),
    }
    assert_eq!(
        told(
            update_message(&claims(1), input("new")),
            vec![Answer::User(user(1, "alice")), Answer::NoRow]
        ),
        Notice::UpdateRefused
    );
    assert_eq!(
        told(
            update_message(&claims(1), input("new")),
            vec![Answer::User(user(1, "alice")), Answer::Failed]
        ),
        Notice::UpdateFailed
    );
}

#[test]
fn delete_message_steps() {
    let input = Some(DeleteMessage { message_id: 7 });
    let (issued, reply) = script(
        delete_message(&claims(1), input),
        vec![Answer::User(user(1, "alice")), Answer::Id(12)],
    );
    assert_eq!(issued, vec!["UserById { id: 1 }", "DeleteMessage { message_id: 7, user_id: 1 }"]);
    assert!(matches!(
        reply,
        SocketReply::Broadcast { chat_id: 12, event: RoomEvent::DeletedMessage { message_id: 7 } }
    ));
    assert_eq!(told(delete_message(&claims(1), None), vec![]), Notice::MalformedBody);
    assert_eq!(told(delete_message(&None, input), vec![]), Notice::Unauthenticated);
    assert_eq!(
        told(delete_message(&claims(1), input), vec![Answer::User(user(1, "alice")), Answer::NoRow]),
        Notice::DeleteRefused
    );
    assert_eq!(
        told(delete_message(&claims(1), input), vec![Answer::User(user(1, "alice")), Answer::Failed]),
        Notice::DeleteFailed
    );
}

#[test]
fn join_steps() {
    let input = Some(JoinRoom { chat_id: 10 });
    let (issued, reply) = script(
        join_chat_room(&claims(1), input),
        vec![Answer::User(user(1, "alice")), Answer::Flag(true)],
    );
    assert_eq!(issued, vec!["UserById { id: 1 }", "MembershipExists { user_id: 1, chat_id: 10 }"]);
    assert!(matches!(reply, SocketReply::Join { chat_id: 10, user_id: 1 }));
    assert_eq!(told(join_chat_room(&claims(1), None), vec![]), Notice::MalformedBody);
    assert_eq!(told(join_chat_room(&None, input), vec![]), Notice::Unauthenticated);
    assert_eq!(
        told(join_chat_room(&claims(1), input), vec![Answer::NoRow]),
        Notice::Unauthenticated
    );
    assert_eq!(
        told(join_chat_room(&claims(1), input), vec![Answer::User(user(1, "alice")), Answer::Flag(false)]),
        Notice::JoinRefused
    );
    assert_eq!(
        told(join_chat_room(&claims(1), input), vec![Answer::User(user(1, "alice")), Answer::Failed]),
        Notice::JoinFailed
    );
}

#[test]
fn caller_is_looked_up_anew() {
    let (issued, found) = script(get_user(&claims(1)), vec![Answer::User(user(1, "renamed"))]);
    assert_eq!(issued, vec!["UserById { id: 1 }"]);
    assert_eq!(found.unwrap().username, "renamed");
    assert!(script(get_user(&claims(1)), vec![Answer::NoRow]).1.is_none());
    assert!(script(get_user(&claims(1)), vec![Answer::Failed]).1.is_none());
    let (issued, found) = script(get_user(&None), vec![]);
    assert!(issued.is_empty());
    assert!(found.is_none());
}

#[test]
fn request_is_authorized_by_the_row() {
    let (issued, verdict) =
        script(jwt_authorization(&claims(1)), vec![Answer::User(user(1, "alice"))]);
    assert_eq!(issued, vec!["UserById { id: 1 }"]);
    assert_eq!(verdict.unwrap().email, "alice@mail.org");
    assert_eq!(
        script(jwt_authorization(&claims(1)), vec![Answer::NoRow]).1.unwrap_err(),
        HttpError::Unauthorized
    );
    assert_eq!(
        script(jwt_authorization(&claims(1)), vec![Answer::Failed]).1.unwrap_err(),
        HttpError::Unauthorized
    );
    assert_eq!(script(jwt_authorization(&None), vec![]).1.unwrap_err(), HttpError::Unauthorized);
    assert_eq!(HttpError::Unauthorized.status(), 401);
}

#[test]
fn admin_check_reads_the_answer() {
    assert_eq!(check_admin(1, &Answer::Id(1)), Ok(true));
    assert_eq!(check_admin(1, &Answer::Id(2)), Ok(false));
    assert_eq!(check_admin(1, &Answer::NoRow), Err(LookupFailure::NoRow));
    assert_eq!(check_admin(1, &Answer::Failed), Err(LookupFailure::Failed));
    assert_eq!(check_admin(1, &Answer::Done), Err(LookupFailure::Failed));
    let (issued, verdict) = script(user(1, "alice").is_admin(10), vec![Answer::Id(1)]);
    assert_eq!(issued, vec!["ChatAdmin { chat_id: 10 }"]);
    assert_eq!(verdict, Ok(true));
    assert_eq!(script(user(1, "alice").is_admin(10), vec![Answer::Id(2)]).1, Ok(false));
    assert_eq!(
        script(user(1, "alice").is_admin(10), vec![Answer::NoRow]).1,
        Err(LookupFailure::NoRow)
    );
}

#[test]
fn create_chat_is_one_transaction() {
    let alice = user(1, "alice");
    let payload = |name: &str| CreateChat { name: name.to_string() };
    let (issued, reply) = script(
        create_chat(&alice, payload("general")),
        vec![Answer::Done, Answer::Id(10), Answer::Done, Answer::Done],
    );
    assert_eq!(
        issued,
        vec![
            "Begin",
            "InsertChat { name: \"general\", admin_id: 1 }",
            "InsertMembership { user_id: 1, chat_id: 10 }",
            "Commit",
        ]
    );
    assert!(matches!(reply, HttpReply::Created));
    assert_eq!(reply.status(), 201);
}

#[test]
fn create_chat_counts_characters() {
    let alice = user(1, "alice");
    let payload = |name: &str| CreateChat { name: name.to_string() };
    assert_eq!(refused(create_chat(&alice, payload("ab")), vec![]), HttpError::ChatNameTooShort);
    assert_eq!(refused(create_chat(&alice, payload("")), vec![]), HttpError::ChatNameTooShort);
    // two characters of three bytes each are still two characters
    assert_eq!(refused(create_chat(&alice, payload("日本")), vec![]), HttpError::ChatNameTooShort);
    let (issued, _) = script(create_chat(&alice, payload("日本語")), vec![Answer::Failed]);
    assert_eq!(issued, vec!["Begin"]);
    assert_eq!(HttpError::ChatNameTooShort.status(), 400);
}

#[test]
fn create_chat_rolls_back_on_failure() {
    let alice = user(1, "alice");
    let payload = || CreateChat { name: "general".to_string() };
    assert_eq!(refused(create_chat(&alice, payload()), vec![Answer::Failed]), HttpError::CreateChatFailed);
    let (issued, reply) =
        script(create_chat(&alice, payload()), vec![Answer::Done, Answer::Failed, Answer::Done]);
    assert_eq!(issued.last().unwrap(), "Rollback");
    assert!(matches!(reply, HttpReply::Refused(HttpError::CreateChatFailed)));
    let (issued, reply) = script(
        create_chat(&alice, payload()),
        vec![Answer::Done, Answer::Id(10), Answer::Failed, Answer::Done],
    );
    assert_eq!(issued.last().unwrap(), "Rollback");
    assert!(matches!(reply, HttpReply::Refused(HttpError::CreatorNotAdded)));
    let (issued, reply) = script(
        create_chat(&alice, payload()),
        vec![Answer::Done, Answer::Id(10), Answer::Done, Answer::Failed, Answer::Failed],
    );
    assert_eq!(issued.last().unwrap(), "Rollback");
    assert!(matches!(reply, HttpReply::Refused(HttpError::CreateChatFailed)));
}

#[test]
fn delete_chat_deletes_dependents_first() {
    let alice = user(1, "alice");
    let (issued, reply) = script(
        delete_chat(&alice, 10),
        vec![Answer::Id(1), Answer::Done, Answer::Done, Answer::Done, Answer::Done, Answer::Done],
    );
    assert_eq!(
        issued,
        vec![
            "ChatAdmin { chat_id: 10 }",
            "Begin",
            "DeleteMembershipsOfChat { chat_id: 10 }",
            "DeleteMessagesOfChat { chat_id: 10 }",
            "DeleteChat { chat_id: 10, admin_id: 1 }",
            "Commit",
        ]
    );
    assert!(matches!(reply, HttpReply::NoContent));
    assert_eq!(reply.status(), 204);
}

#[test]
fn delete_chat_refusals() {
    let alice = user(1, "alice");
    let done = || Answer::Done;
    assert_eq!(refused(delete_chat(&alice, 10), vec![Answer::Id(2)]), HttpError::NotAdminToDelete);
    assert_eq!(refused(delete_chat(&alice, 10), vec![Answer::NoRow]), HttpError::ChatNotFound);
    assert_eq!(refused(delete_chat(&alice, 10), vec![Answer::Failed]), HttpError::ChatLookupFailed);
    assert_eq!(
        refused(delete_chat(&alice, 10), vec![Answer::Id(1), Answer::Failed]),
        HttpError::DeleteChatFailed
    );
    assert_eq!(
        refused(delete_chat(&alice, 10), vec![Answer::Id(1), done(), Answer::Failed, done()]),
        HttpError::DeleteMembersFailed
    );
    assert_eq!(
        refused(delete_chat(&alice, 10), vec![Answer::Id(1), done(), done(), Answer::Failed, done()]),
        HttpError::DeleteMessagesFailed
    );
    assert_eq!(
        refused(
            delete_chat(&alice, 10),
            vec![Answer::Id(1), done(), done(), done(), Answer::ForeignKeyViolation, done()]
        ),
        HttpError::DeleteChatFailed
    );
    assert_eq!(
        refused(
            delete_chat(&alice, 10),
            vec![Answer::Id(1), done(), done(), done(), done(), Answer::Failed, done()]
        ),
        HttpError::DeleteCommitFailed
    );
    assert_eq!(HttpError::NotAdminToDelete.status(), 403);
    assert_eq!(HttpError::ChatNotFound.status(), 404);
    assert_eq!(HttpError::DeleteCommitFailed.status(), 500);
}

#[test]
fn rename_chat_steps() {
    let alice = user(1, "alice");
    let payload = |name: &str| RenameChat { new_name: name.to_string() };
    let (issued, reply) =
        script(rename_chat(&alice, 10, payload("lounge")), vec![Answer::Id(1), Answer::Done]);
    assert_eq!(
        issued,
        vec!["ChatAdmin { chat_id: 10 }", "RenameChat { chat_id: 10, name: \"lounge\" }"]
    );
    assert!(matches!(reply, HttpReply::NoContent));
    assert_eq!(refused(rename_chat(&alice, 10, payload("ab")), vec![]), HttpError::ChatNameTooShort);
    assert_eq!(
        refused(rename_chat(&alice, 10, payload("lounge")), vec![Answer::Id(2)]),
        HttpError::NotAdminToRename
    );
    assert_eq!(
        refused(rename_chat(&alice, 10, payload("lounge")), vec![Answer::NoRow]),
        HttpError::ChatNotFound
    );
    assert_eq!(
        refused(rename_chat(&alice, 10, payload("lounge")), vec![Answer::Failed]),
        HttpError::RenameLookupFailed
    );
    assert_eq!(
        refused(rename_chat(&alice, 10, payload("lounge")), vec![Answer::Id(1), Answer::NoRow]),
        HttpError::ChatNotFound
    );
    assert_eq!(
        refused(rename_chat(&alice, 10, payload("lounge")), vec![Answer::Id(1), Answer::Failed]),
        HttpError::RenameFailed
    );
}

#[test]
fn chats_are_answered_as_listed() {
    let chats = vec![Chat {
        name: "general".to_string(),
        chat_id: 10,
        admin_username: "alice".to_string(),
    }];
    match get_chats(Ok(chats)) {
        HttpReply::Chats(chats) => {
            assert_eq!(chats.len(), 1);
            assert_eq!(chats[0].chat_id, 10);
        },
        other => panic!("expected chats, got {:?}", other),
    }
    assert!(matches!(get_chats(Ok(vec![])), HttpReply::Chats(chats) if chats.is_empty()));
    assert!(matches!(get_chats(Err(LookupFailure::NoRow)), HttpReply::Refused(HttpError::NoChats)));
    assert!(matches!(
        get_chats(Err(LookupFailure::Failed)),
        HttpReply::Refused(HttpError::ChatsFailed)
    ));
    assert_eq!(HttpError::NoChats.status(), 404);
    assert_eq!(HttpError::ChatsFailed.status(), 500);
}

#[test]
fn registration_needs_its_hash() {
    let (issued, reply) = script(
        registration("alice".to_string(), "alice@mail.org".to_string(), Some("hash".to_string())),
        vec![Answer::Done],
    );
    assert_eq!(
        issued,
        vec!["InsertUser { username: \"alice\", email: \"alice@mail.org\", password: \"hash\" }"]
    );
    assert!(matches!(reply, HttpReply::Created));
    let start = || {
        registration("alice".to_string(), "alice@mail.org".to_string(), Some("hash".to_string()))
    };
    assert_eq!(refused(start(), vec![Answer::UniqueViolation]), HttpError::UserExists);
    assert_eq!(refused(start(), vec![Answer::Failed]), HttpError::RegisterFailed);
    assert_eq!(
        refused(registration("alice".to_string(), "alice@mail.org".to_string(), None), vec![]),
        HttpError::Internal
    );
    assert_eq!(HttpError::UserExists.status(), 409);
    assert_eq!(HttpError::WeakPassword(PasswordFlaw::NoDigit).status(), 400);
}

#[test]
fn login_asks_for_the_address() {
    let payload =
        LoginDto { email: "alice@mail.org".to_string(), password: "Secret-123".to_string() };
    let (issued, verdict) = script(login(payload), vec![Answer::NoRow]);
    assert_eq!(issued, vec!["UserByEmail { email: \"alice@mail.org\" }"]);
    assert_eq!(verdict.unwrap_err(), HttpError::BadCredentials);
    let payload =
        || LoginDto { email: "alice@mail.org".to_string(), password: "Secret-123".to_string() };
    assert_eq!(script(login(payload()), vec![Answer::Failed]).1.unwrap_err(), HttpError::Internal);
    // a stored hash that cannot be read is the server's fault
    assert_eq!(
        script(login(payload()), vec![Answer::User(user(1, "alice"))]).1.unwrap_err(),
        HttpError::Internal
    );
    assert_eq!(HttpError::BadCredentials.status(), 401);
}

#[test]
fn login_answer_carries_both_tokens() {
    match tokens_reply(Ok("access".to_string()), Ok("refresh".to_string())) {
        HttpReply::LoggedIn { access_token, refresh_cookie } => {
            assert_eq!(access_token, "access");
            assert_eq!(refresh_cookie, "Chat-Refresh=refresh");
        },
        other => panic!("expected a login, got {:?}", other),
    }
    assert!(matches!(
        tokens_reply(Err(TokenError::SigningFailed), Ok("refresh".to_string())),
        HttpReply::Refused(HttpError::Internal)
    ));
    assert!(matches!(
        tokens_reply(Ok("access".to_string()), Err(TokenError::WeakKey)),
        HttpReply::Refused(HttpError::Internal)
    ));
}

#[test]
fn own_account_is_shown_without_the_hash() {
    let me = get_me(user(1, "alice"));
    assert_eq!(me.id, 1);
    assert_eq!(me.username, "alice");
    assert_eq!(me.email, "alice@mail.org");
}

#[test]
fn profile_changes() {
    let alice = user(1, "alice");
    let (issued, reply) = script(
        change_email(&alice, ChangeEmail { new_email: "new@mail.org".to_string() }),
        vec![Answer::Done],
    );
    assert_eq!(issued, vec!["UpdateUser { id: 1, field: Email, value: \"new@mail.org\" }"]);
    assert!(matches!(reply, HttpReply::NoContent));
    let email = |value: &str| change_email(&alice, ChangeEmail { new_email: value.to_string() });
    assert_eq!(refused(email("alice@mail.org"), vec![]), HttpError::SameEmail);
    assert_eq!(refused(email("nonsense"), vec![]), HttpError::InvalidNewEmail);
    assert_eq!(refused(email("new@mail.org"), vec![Answer::UniqueViolation]), HttpError::EmailTaken);
    assert_eq!(refused(email("new@mail.org"), vec![Answer::Failed]), HttpError::ChangeEmailFailed);

    let name =
        |value: &str| change_username(&alice, ChangeUsername { new_username: value.to_string() });
    let (issued, reply) = script(name("alicia"), vec![Answer::Done]);
    assert_eq!(issued, vec!["UpdateUser { id: 1, field: Username, value: \"alicia\" }"]);
    assert!(matches!(reply, HttpReply::NoContent));
    assert_eq!(refused(name("alice"), vec![]), HttpError::SameUsername);
    assert_eq!(refused(name("al"), vec![]), HttpError::NewUsernameTooShort);
    assert_eq!(refused(name("alicia"), vec![Answer::UniqueViolation]), HttpError::UsernameTaken);
    assert_eq!(refused(name("alicia"), vec![Answer::Failed]), HttpError::ChangeUsernameFailed);

    let (issued, reply) = script(password_change(1, Some("new hash".to_string())), vec![Answer::Done]);
    assert_eq!(issued, vec!["UpdateUser { id: 1, field: Password, value: \"new hash\" }"]);
    assert!(matches!(reply, HttpReply::NoContent));
    assert_eq!(
        refused(password_change(1, Some("new hash".to_string())), vec![Answer::Failed]),
        HttpError::UpdatePasswordFailed
    );
    assert_eq!(refused(password_change(1, None), vec![]), HttpError::ChangePasswordFailed);
    assert_eq!(UserField::Password, UserField::Password);
}

#[test]
fn flows_run_against_the_memory_store() {
    let mut store = MemoryStore::new();
    store.perform(Statement::InsertUser {
        username: "alice".to_string(),
        email: "alice@mail.org".to_string(),
        password: "hash".to_string(),
    });
    let alice = user(1, "alice");
    let done = drive(&mut store, create_chat(&alice, CreateChat { name: "general".to_string() }));
    assert!(done.request().is_none());
    assert!(matches!(done.finish(), HttpReply::Created));
    assert_eq!(store.rows().chats.len(), 1);
    assert_eq!(store.rows().members.len(), 1);
    let found = drive(&mut store, alice.is_admin(2)).finish();
    assert_eq!(found, Ok(true));
    assert_eq!(drive(&mut store, user(5, "eve").is_admin(2)).finish(), Ok(false));
    assert_eq!(drive(&mut store, alice.is_admin(9)).finish(), Err(LookupFailure::NoRow));
}
