use chat_backend::auth::authentication::LoginDto;
use chat_backend::auth::jwt::{decode_jwt_payload, CredentialCodec, JwtPayload};
use chat_backend::auth::registration::{PasswordFlaw, RegisterUser};
use chat_backend::chat::chat::{CreateChat, RenameChat};
use chat_backend::coordinator::Coordinator;
use chat_backend::http::{HttpError, HttpReply};
use chat_backend::model::User;
use chat_backend::notice::{ErrorKind, Notice};
use chat_backend::sockets::member::{ChatMembershipInput, LeaveChatInput};
use chat_backend::sockets::message::{DeleteMessage, SendMessageInput, UpdateMessageInput};
use chat_backend::sockets::{JoinRoom, RoomEvent};
use chat_backend::user::user::{ChangeEmail, ChangePassword, ChangeUsername};

struct World {
    service: Coordinator,
    alice: Option<JwtPayload>,
    bob: Option<JwtPayload>,
    carol: Option<JwtPayload>,
    alice_user: User,
    chat_id: u128,
}

fn sign_up(service: &mut Coordinator, name: &str) -> JwtPayload {
    let reply = service.register(RegisterUser {
        username: name.to_string(),
        password: "Secret-123".to_string(),
        email: format!("{}@mail.org", name),
    });
    assert!(matches!(reply, HttpReply::Created));
    let user = service.rows().users.iter().find(|user| user.username == name).unwrap();
    JwtPayload { id: user.id, username: user.username.clone() }
}

/// Alice administers a chat that Bob is a member of; Carol is outside.
fn world() -> World {
    let mut service = Coordinator::new();
    let alice = Some(sign_up(&mut service, "alice"));
    let bob = Some(sign_up(&mut service, "bobby"));
    let carol = Some(sign_up(&mut service, "carol"));
    let alice_user = service.authorize(&alice).unwrap();
    let reply = service.create_chat(&alice_user, CreateChat { name: "general".to_string() });
    assert!(matches!(reply, HttpReply::Created));
    let chat_id = service.rows().chats[0].id;
    let added = service.add_member(
        1,
        &alice,
        Some(ChatMembershipInput { user_id: bob.as_ref().unwrap().id, chat_id }),
    );
    assert_eq!(added.notice, Some(Notice::MemberAdded));
    World { service, alice, bob, carol, alice_user, chat_id }
}

fn id(claims: &Option<JwtPayload>) -> u128 {
    claims.as_ref().unwrap().id
}

fn say(world: &mut World, who: u128, as_whom: &Option<JwtPayload>, content: &str) -> u128 {
    let chat_id = world.chat_id;
    let sent = world.service.send_message(
        who,
        as_whom,
        Some(SendMessageInput { content: content.to_string(), chat_id }),
    );
    match sent.event {
        Some(RoomEvent::NewMessage(message)) => message.id,
        other => panic!("expected a new message, got {:?} with {:?}", other, sent.notice),
    }
}

#[test]
fn new_chat_has_its_creator_as_only_member() {
    let mut service = Coordinator::new();
    let alice = Some(sign_up(&mut service, "alice"));
    let alice_user = service.authorize(&alice).unwrap();
    service.create_chat(&alice_user, CreateChat { name: "one".to_string() });
    service.create_chat(&alice_user, CreateChat { name: "two".to_string() });
    let rows = service.rows();
    assert_eq!(rows.chats.len(), 2);
    for chat in rows.chats.iter() {
        assert_eq!(chat.admin_id, alice_user.id);
        let members: Vec<u128> =
            rows.members.iter().filter(|m| m.chat_id == chat.id).map(|m| m.user_id).collect();
        assert_eq!(members, vec![alice_user.id]);
    }
    assert_eq!(rows.chats[0].name, "one");
    assert_eq!(rows.chats[1].name, "two");
    assert_ne!(rows.chats[0].id, rows.chats[1].id);
}

#[test]
fn chat_of_an_unknown_user_is_not_created() {
    let mut service = Coordinator::new();
    let ghost = User {
        id: 77,
        username: "ghost".to_string(),
        password: "hash".to_string(),
        email: "ghost@mail.org".to_string(),
    };
    let reply = service.create_chat(&ghost, CreateChat { name: "general".to_string() });
    assert!(matches!(reply, HttpReply::Refused(HttpError::CreateChatFailed)));
    assert!(service.rows().chats.is_empty());
    assert!(service.rows().members.is_empty());
}

#[test]
fn short_chat_name_is_refused() {
    let mut w = world();
    let reply = w.service.create_chat(&w.alice_user, CreateChat { name: "ab".to_string() });
    assert!(matches!(reply, HttpReply::Refused(HttpError::ChatNameTooShort)));
    assert_eq!(reply.status(), 400);
    let reply = w.service.create_chat(&w.alice_user, CreateChat { name: "abc".to_string() });
    assert!(matches!(reply, HttpReply::Created));
    assert_eq!(w.service.rows().chats.len(), 2);
}

#[test]
fn deleting_a_chat_takes_everything_of_it() {
    let mut w = world();
    let other = {
        w.service.create_chat(&w.alice_user, CreateChat { name: "other".to_string() });
        w.service.rows().chats[1].id
    };
    let (alice, bob) = (w.alice.clone(), w.bob.clone());
    w.service.join(1, &alice, Some(JoinRoom { chat_id: w.chat_id }));
    w.service.join(2, &bob, Some(JoinRoom { chat_id: w.chat_id }));
    w.service.join(3, &alice, Some(JoinRoom { chat_id: other }));
    say(&mut w, 1, &alice, "one");
    say(&mut w, 2, &bob, "two");
    w.service.send_message(
        3,
        &alice,
        Some(SendMessageInput { content: "elsewhere".to_string(), chat_id: other }),
    );
    assert_eq!(w.service.rows().messages.len(), 3);

    let reply = w.service.delete_chat(&w.alice_user, w.chat_id);
    assert!(matches!(reply, HttpReply::NoContent));
    let rows = w.service.rows();
    assert!(rows.chats.iter().all(|chat| chat.id != w.chat_id));
    assert!(rows.members.iter().all(|m| m.chat_id != w.chat_id));
    assert!(rows.messages.iter().all(|m| m.chat_id != w.chat_id));
    assert_eq!(rows.chats.len(), 1);
    assert_eq!(rows.members.len(), 1);
    assert_eq!(rows.messages.len(), 1);
    assert_eq!(rows.users.len(), 3);
    // the room is closed, the other room is as it was
    assert!(w.service.connections_in(w.chat_id).is_empty());
    assert_eq!(w.service.connections_in(other), vec![3]);
}

#[test]
fn only_the_administrator_deletes_a_chat() {
    let mut w = world();
    let bob_user = w.service.authorize(&w.bob).unwrap();
    let reply = w.service.delete_chat(&bob_user, w.chat_id);
    assert!(matches!(reply, HttpReply::Refused(HttpError::NotAdminToDelete)));
    assert_eq!(reply.status(), 403);
    let reply = w.service.delete_chat(&w.alice_user, 999);
    assert!(matches!(reply, HttpReply::Refused(HttpError::ChatNotFound)));
    assert_eq!(reply.status(), 404);
    assert_eq!(w.service.rows().chats.len(), 1);
    assert_eq!(w.service.rows().members.len(), 2);
}

#[test]
fn failed_deletion_changes_nothing() {
    // the lookup, the begin, the three deletions and the commit make six
    // statements: an outage before any of them leaves every row in place
    for answered in 0..6 {
        let mut w = world();
        let alice = w.alice.clone();
        w.service.join(1, &alice, Some(JoinRoom { chat_id: w.chat_id }));
        say(&mut w, 1, &alice, "hello");
        w.service.fail_after(answered);
        let reply = w.service.delete_chat(&w.alice_user, w.chat_id);
        assert_eq!(reply.status(), 500, "after {} statements", answered);
        w.service.recover();
        let rows = w.service.rows();
        assert_eq!(rows.chats.len(), 1);
        assert_eq!(rows.members.len(), 2);
        assert_eq!(rows.messages.len(), 1);
        assert_eq!(w.service.connections_in(w.chat_id), vec![1]);
        // and the store is ready for the next transaction
        let reply = w.service.delete_chat(&w.alice_user, w.chat_id);
        assert!(matches!(reply, HttpReply::NoContent));
    }
    let mut w = world();
    w.service.fail_after(6);
    assert!(matches!(w.service.delete_chat(&w.alice_user, w.chat_id), HttpReply::NoContent));
}

#[test]
fn failed_deletion_says_what_failed() {
    let refusal = |answered: u64| {
        let mut w = world();
        w.service.fail_after(answered);
        match w.service.delete_chat(&w.alice_user, w.chat_id) {
            HttpReply::Refused(error) => error,
            other => panic!("expected a refusal, got {:?}", other),
        }
    };
    assert_eq!(refusal(0), HttpError::ChatLookupFailed);
    assert_eq!(refusal(1), HttpError::DeleteChatFailed);
    assert_eq!(refusal(2), HttpError::DeleteMembersFailed);
    assert_eq!(refusal(3), HttpError::DeleteMessagesFailed);
    assert_eq!(refusal(4), HttpError::DeleteChatFailed);
    assert_eq!(refusal(5), HttpError::DeleteCommitFailed);
}

#[test]
fn failed_creation_changes_nothing() {
    for answered in 0..4 {
        let mut w = world();
        w.service.fail_after(answered);
        let reply = w.service.create_chat(&w.alice_user, CreateChat { name: "more".to_string() });
        assert_eq!(reply.status(), 500, "after {} statements", answered);
        w.service.recover();
        assert_eq!(w.service.rows().chats.len(), 1);
        assert_eq!(w.service.rows().members.len(), 2);
    }
    let mut w = world();
    w.service.fail_after(2);
    let reply = w.service.create_chat(&w.alice_user, CreateChat { name: "more".to_string() });
    assert!(matches!(reply, HttpReply::Refused(HttpError::CreatorNotAdded)));
}

#[test]
fn former_member_hears_nothing() {
    let mut w = world();
    let (alice, bob) = (w.alice.clone(), w.bob.clone());
    w.service.join(1, &alice, Some(JoinRoom { chat_id: w.chat_id }));
    w.service.join(2, &bob, Some(JoinRoom { chat_id: w.chat_id }));
    w.service.join(3, &bob, Some(JoinRoom { chat_id: w.chat_id }));
    assert_eq!(w.service.connections_in(w.chat_id), vec![1, 2, 3]);

    let left = w.service.leave_chat(2, &bob, Some(LeaveChatInput { chat_id: w.chat_id }));
    assert_eq!(left.notice, Some(Notice::Left));
    assert_eq!(w.service.connections_in(w.chat_id), vec![1]);
    let chat_id = w.chat_id;
    let sent = w.service.send_message(
        1,
        &alice,
        Some(SendMessageInput { content: "still there?".to_string(), chat_id }),
    );
    assert_eq!(sent.recipients, vec![1]);
    // and cannot come back into the room
    let joined = w.service.join(2, &bob, Some(JoinRoom { chat_id }));
    assert_eq!(joined.notice, Some(Notice::JoinRefused));
    assert_eq!(w.service.connections_in(chat_id), vec![1]);
}

#[test]
fn removed_member_hears_nothing() {
    let mut w = world();
    let (alice, bob) = (w.alice.clone(), w.bob.clone());
    w.service.join(1, &alice, Some(JoinRoom { chat_id: w.chat_id }));
    w.service.join(2, &bob, Some(JoinRoom { chat_id: w.chat_id }));
    let removed = w.service.remove_member(
        1,
        &alice,
        Some(ChatMembershipInput { user_id: id(&bob), chat_id: w.chat_id }),
    );
    assert_eq!(removed.notice, Some(Notice::MemberRemoved));
    assert_eq!(w.service.connections_in(w.chat_id), vec![1]);
    assert_eq!(w.service.rows().members.len(), 1);
}

#[test]
fn outsider_never_enters_a_room() {
    let mut w = world();
    let carol = w.carol.clone();
    let joined = w.service.join(3, &carol, Some(JoinRoom { chat_id: w.chat_id }));
    assert_eq!(joined.notice, Some(Notice::JoinRefused));
    assert_eq!(joined.notice.unwrap().kind(), Some(ErrorKind::Forbidden));
    assert!(w.service.connections_in(w.chat_id).is_empty());
    let joined = w.service.join(3, &None, Some(JoinRoom { chat_id: w.chat_id }));
    assert_eq!(joined.notice, Some(Notice::Unauthenticated));
    let joined = w.service.join(3, &carol, None);
    assert_eq!(joined.notice, Some(Notice::MalformedBody));
    let stranger = Some(JwtPayload { id: 999, username: "nobody".to_string() });
    let joined = w.service.join(3, &stranger, Some(JoinRoom { chat_id: w.chat_id }));
    assert_eq!(joined.notice, Some(Notice::Unauthenticated));
}

#[test]
fn disconnect_leaves_the_room() {
    let mut w = world();
    let (alice, bob) = (w.alice.clone(), w.bob.clone());
    w.service.join(1, &alice, Some(JoinRoom { chat_id: w.chat_id }));
    w.service.join(2, &bob, Some(JoinRoom { chat_id: w.chat_id }));
    w.service.disconnect(1);
    assert_eq!(w.service.connections_in(w.chat_id), vec![2]);
    w.service.disconnect(1);
    w.service.disconnect(7);
    assert_eq!(w.service.connections_in(w.chat_id), vec![2]);
}

#[test]
fn sender_who_has_not_joined_hears_nothing() {
    let mut w = world();
    let (alice, bob) = (w.alice.clone(), w.bob.clone());
    w.service.join(2, &bob, Some(JoinRoom { chat_id: w.chat_id }));
    let chat_id = w.chat_id;
    let sent = w.service.send_message(
        1,
        &alice,
        Some(SendMessageInput { content: "hello".to_string(), chat_id }),
    );
    assert_eq!(sent.recipients, vec![2]);
}

#[test]
fn nobody_adds_themselves() {
    let mut w = world();
    for caller in [w.alice.clone(), w.bob.clone(), w.carol.clone()] {
        let before = w.service.rows().members.len();
        let added = w.service.add_member(
            1,
            &caller,
            Some(ChatMembershipInput { user_id: id(&caller), chat_id: w.chat_id }),
        );
        assert_eq!(added.notice, Some(Notice::SelfAdd));
        assert_eq!(added.notice.unwrap().kind(), Some(ErrorKind::InvalidInput));
        assert_eq!(w.service.rows().members.len(), before);
    }
}

#[test]
fn only_members_invite() {
    let mut w = world();
    let (bob, carol) = (w.bob.clone(), w.carol.clone());
    let input = Some(ChatMembershipInput { user_id: id(&bob), chat_id: w.chat_id });
    assert_eq!(w.service.add_member(3, &carol, input).notice, Some(Notice::NotInChat));
    // a member who is not the administrator may invite
    let input = Some(ChatMembershipInput { user_id: id(&carol), chat_id: w.chat_id });
    assert_eq!(w.service.add_member(2, &bob, input).notice, Some(Notice::MemberAdded));
    assert_eq!(w.service.add_member(2, &bob, input).notice, Some(Notice::AlreadyMember));
    assert_eq!(Notice::AlreadyMember.kind(), Some(ErrorKind::Conflict));
    let input = Some(ChatMembershipInput { user_id: 999, chat_id: w.chat_id });
    assert_eq!(w.service.add_member(2, &bob, input).notice, Some(Notice::UnknownUser));
    assert_eq!(Notice::UnknownUser.kind(), Some(ErrorKind::NotFound));
    assert_eq!(w.service.rows().members.len(), 3);
}

#[test]
fn administrator_cannot_leave() {
    let mut w = world();
    let alice = w.alice.clone();
    let left = w.service.leave_chat(1, &alice, Some(LeaveChatInput { chat_id: w.chat_id }));
    assert_eq!(left.notice, Some(Notice::AdminCannotLeave));
    assert_eq!(left.notice.unwrap().kind(), Some(ErrorKind::Forbidden));
    assert_eq!(w.service.rows().members.len(), 2);
}

#[test]
fn member_leaves_and_one_row_goes() {
    let mut w = world();
    let (alice, bob, carol) = (w.alice.clone(), w.bob.clone(), w.carol.clone());
    let input = Some(ChatMembershipInput { user_id: id(&carol), chat_id: w.chat_id });
    w.service.add_member(1, &alice, input);
    assert_eq!(w.service.rows().members.len(), 3);
    let left = w.service.leave_chat(2, &bob, Some(LeaveChatInput { chat_id: w.chat_id }));
    assert_eq!(left.notice, Some(Notice::Left));
    let members: Vec<u128> = w.service.rows().members.iter().map(|m| m.user_id).collect();
    assert_eq!(members, vec![id(&alice), id(&carol)]);
    // there is nothing to leave twice
    let left = w.service.leave_chat(2, &bob, Some(LeaveChatInput { chat_id: w.chat_id }));
    assert_eq!(left.notice, Some(Notice::NotFoundInChat));
    let left = w.service.leave_chat(2, &bob, Some(LeaveChatInput { chat_id: 999 }));
    assert_eq!(left.notice, Some(Notice::NotFoundInChat));
    assert_eq!(w.service.rows().members.len(), 2);
}

#[test]
fn only_the_administrator_removes() {
    let mut w = world();
    let (alice, bob, carol) = (w.alice.clone(), w.bob.clone(), w.carol.clone());
    let input = Some(ChatMembershipInput { user_id: id(&alice), chat_id: w.chat_id });
    assert_eq!(w.service.remove_member(2, &bob, input).notice, Some(Notice::NotAdmin));
    let input = Some(ChatMembershipInput { user_id: id(&alice), chat_id: w.chat_id });
    assert_eq!(w.service.remove_member(1, &alice, input).notice, Some(Notice::SelfRemoval));
    let input = Some(ChatMembershipInput { user_id: id(&carol), chat_id: w.chat_id });
    assert_eq!(w.service.remove_member(1, &alice, input).notice, Some(Notice::MemberNotFound));
    let input = Some(ChatMembershipInput { user_id: id(&bob), chat_id: 999 });
    assert_eq!(w.service.remove_member(1, &alice, input).notice, Some(Notice::AdminCheckNoChat));
    assert_eq!(w.service.rows().members.len(), 2);
}

#[test]
fn only_authors_edit_and_delete() {
    let mut w = world();
    let (alice, bob, carol) = (w.alice.clone(), w.bob.clone(), w.carol.clone());
    w.service.join(1, &alice, Some(JoinRoom { chat_id: w.chat_id }));
    w.service.join(2, &bob, Some(JoinRoom { chat_id: w.chat_id }));
    let message_id = say(&mut w, 1, &alice, "hello");

    for other in [bob.clone(), carol.clone()] {
        let edit = Some(UpdateMessageInput { new_content: "hacked".to_string(), message_id });
        let refused = w.service.update_message(2, &other, edit);
        assert_eq!(refused.notice, Some(Notice::UpdateRefused));
        assert_eq!(refused.notice.unwrap().kind(), Some(ErrorKind::NotFoundOrForbidden));
        assert!(refused.recipients.is_empty());
        let refused = w.service.delete_message(2, &other, Some(DeleteMessage { message_id }));
        assert_eq!(refused.notice, Some(Notice::DeleteRefused));
        assert!(refused.recipients.is_empty());
    }
    // a message that does not exist gives the same answers
    let edit = Some(UpdateMessageInput { new_content: "x".to_string(), message_id: 999 });
    assert_eq!(w.service.update_message(1, &alice, edit).notice, Some(Notice::UpdateRefused));
    let gone = Some(DeleteMessage { message_id: 999 });
    assert_eq!(w.service.delete_message(1, &alice, gone).notice, Some(Notice::DeleteRefused));
    assert_eq!(w.service.rows().messages.len(), 1);
    assert_eq!(w.service.rows().messages[0].content, "hello");

    let edit = Some(UpdateMessageInput { new_content: "hello, all".to_string(), message_id });
    let updated = w.service.update_message(1, &alice, edit);
    assert_eq!(updated.recipients, vec![1, 2]);
    match updated.event {
        Some(RoomEvent::UpdatedMessage(message)) => {
            assert_eq!(message.id, message_id);
            assert_eq!(message.content, "hello, all");
            assert_eq!(message.user_id, id(&alice));
        },
        other => panic!("expected an update, got {:?}", other),
    }
    let deleted = w.service.delete_message(1, &alice, Some(DeleteMessage { message_id }));
    assert_eq!(deleted.recipients, vec![1, 2]);
    assert!(matches!(
        deleted.event,
        Some(RoomEvent::DeletedMessage { message_id: gone }) if gone == message_id
    ));
    assert!(w.service.rows().messages.is_empty());
}

#[test]
fn author_who_left_still_owns_the_message() {
    let mut w = world();
    let (alice, bob) = (w.alice.clone(), w.bob.clone());
    w.service.join(1, &alice, Some(JoinRoom { chat_id: w.chat_id }));
    w.service.join(2, &bob, Some(JoinRoom { chat_id: w.chat_id }));
    let message_id = say(&mut w, 2, &bob, "bye");
    w.service.leave_chat(2, &bob, Some(LeaveChatInput { chat_id: w.chat_id }));
    let edit = Some(UpdateMessageInput { new_content: "bye, all".to_string(), message_id });
    let updated = w.service.update_message(2, &bob, edit);
    // ownership gates the edit; the room no longer holds the author
    assert!(updated.event.is_some());
    assert_eq!(updated.recipients, vec![1]);
}

#[test]
fn messages_are_stamped_with_the_clock() {
    let mut w = world();
    let alice = w.alice.clone();
    w.service.set_clock(1_234_567);
    let chat_id = w.chat_id;
    let sent = w.service.send_message(
        1,
        &alice,
        Some(SendMessageInput { content: "  padded\t".to_string(), chat_id }),
    );
    match sent.event {
        Some(RoomEvent::NewMessage(message)) => {
            assert_eq!(message.content, "padded");
            assert_eq!(message.created_at, Some(1_234_567));
        },
        other => panic!("expected a new message, got {:?}", other),
    }
    assert_eq!(w.service.rows().messages[0].content, "padded");
    assert_eq!(w.service.rows().messages[0].chat_id, chat_id);
}

#[test]
fn blank_messages_are_refused() {
    let mut w = world();
    let alice = w.alice.clone();
    let chat_id = w.chat_id;
    for content in ["", " ", "\n\t ", "\u{2003}\u{2028}"] {
        let sent = w.service.send_message(
            1,
            &alice,
            Some(SendMessageInput { content: content.to_string(), chat_id }),
        );
        assert_eq!(sent.notice, Some(Notice::EmptyMessage));
        let edit = Some(UpdateMessageInput { new_content: content.to_string(), message_id: 1 });
        assert_eq!(w.service.update_message(1, &alice, edit).notice, Some(Notice::EmptyNewContent));
    }
    assert_eq!(Notice::EmptyMessage.kind(), Some(ErrorKind::InvalidInput));
    assert!(w.service.rows().messages.is_empty());
}

#[test]
fn store_outage_is_an_internal_failure() {
    let mut w = world();
    let alice = w.alice.clone();
    let chat_id = w.chat_id;
    w.service.fail_after(2);
    let sent = w.service.send_message(
        1,
        &alice,
        Some(SendMessageInput { content: "hello".to_string(), chat_id }),
    );
    assert_eq!(sent.notice, Some(Notice::SendFailed));
    assert_eq!(sent.notice.unwrap().kind(), Some(ErrorKind::Internal));
    assert!(w.service.rows().messages.is_empty());
    // with the store down nobody can be told from a stranger
    let sent = w.service.send_message(
        1,
        &alice,
        Some(SendMessageInput { content: "hello".to_string(), chat_id }),
    );
    assert_eq!(sent.notice, Some(Notice::Unauthenticated));
    assert!(matches!(
        w.service.get_chats(&w.alice_user),
        HttpReply::Refused(HttpError::ChatsFailed)
    ));
    assert!(matches!(w.service.authorize(&alice), Err(HttpError::Unauthorized)));
}

#[test]
fn chats_are_listed_for_their_members() {
    let mut w = world();
    let carol_user = w.service.authorize(&w.carol).unwrap();
    w.service.create_chat(&carol_user, CreateChat { name: "private".to_string() });
    match w.service.get_chats(&w.alice_user) {
        HttpReply::Chats(chats) => {
            assert_eq!(chats.len(), 1);
            assert_eq!(chats[0].name, "general");
            assert_eq!(chats[0].chat_id, w.chat_id);
            assert_eq!(chats[0].admin_username, "alice");
        },
        other => panic!("expected chats, got {:?}", other),
    }
    let bob_user = w.service.authorize(&w.bob).unwrap();
    assert!(matches!(w.service.get_chats(&bob_user), HttpReply::Chats(chats) if chats.len() == 1));
    match w.service.get_chats(&carol_user) {
        HttpReply::Chats(chats) => {
            assert_eq!(chats.len(), 1);
            assert_eq!(chats[0].name, "private");
            assert_eq!(chats[0].admin_username, "carol");
        },
        other => panic!("expected chats, got {:?}", other),
    }
}

#[test]
fn only_the_administrator_renames() {
    let mut w = world();
    let bob_user = w.service.authorize(&w.bob).unwrap();
    let rename = |name: &str| RenameChat { new_name: name.to_string() };
    assert!(matches!(
        w.service.rename_chat(&bob_user, w.chat_id, rename("lounge")),
        HttpReply::Refused(HttpError::NotAdminToRename)
    ));
    assert!(matches!(
        w.service.rename_chat(&w.alice_user, 999, rename("lounge")),
        HttpReply::Refused(HttpError::ChatNotFound)
    ));
    assert!(matches!(
        w.service.rename_chat(&w.alice_user, w.chat_id, rename("lo")),
        HttpReply::Refused(HttpError::ChatNameTooShort)
    ));
    assert_eq!(w.service.rows().chats[0].name, "general");
    assert!(matches!(
        w.service.rename_chat(&w.alice_user, w.chat_id, rename("lounge")),
        HttpReply::NoContent
    ));
    assert_eq!(w.service.rows().chats[0].name, "lounge");
    assert_eq!(w.service.rows().chats[0].admin_id, w.alice_user.id);
}

#[test]
fn registration_refuses_flaws_and_duplicates() {
    let mut service = Coordinator::new();
    let payload = |username: &str, email: &str, password: &str| RegisterUser {
        username: username.to_string(),
        email: email.to_string(),
        password: password.to_string(),
    };
    assert!(matches!(
        service.register(payload("al", "alice@mail.org", "Secret-123")),
        HttpReply::Refused(HttpError::UsernameTooShort)
    ));
    assert!(matches!(
        service.register(payload("alice", "alice", "Secret-123")),
        HttpReply::Refused(HttpError::InvalidEmail)
    ));
    assert!(matches!(
        service.register(payload("alice", "alice@mail.org", "secret-123")),
        HttpReply::Refused(HttpError::WeakPassword(PasswordFlaw::NoUppercase))
    ));
    assert!(service.rows().users.is_empty());
    assert!(matches!(
        service.register(payload("alice", "alice@mail.org", "Secret-123")),
        HttpReply::Created
    ));
    let reply = service.register(payload("alice", "other@mail.org", "Secret-123"));
    assert!(matches!(reply, HttpReply::Refused(HttpError::UserExists)));
    assert_eq!(reply.status(), 409);
    assert!(matches!(
        service.register(payload("other", "alice@mail.org", "Secret-123")),
        HttpReply::Refused(HttpError::UserExists)
    ));
    assert_eq!(service.rows().users.len(), 1);
    // the password is stored as a hash
    assert_ne!(service.rows().users[0].password, "Secret-123");
    assert!(service.rows().users[0].password.starts_with("$2b$10$"));
}

#[test]
fn login_issues_tokens_for_the_right_password() {
    let codec = CredentialCodec::new(b"a signing key of enough bytes".to_vec());
    let mut service = Coordinator::new();
    let alice = sign_up(&mut service, "alice");
    let login = |email: &str, password: &str| LoginDto {
        email: email.to_string(),
        password: password.to_string(),
    };
    match service.login(&codec, login("alice@mail.org", "Secret-123")) {
        HttpReply::LoggedIn { access_token, refresh_cookie } => {
            let access = decode_jwt_payload(&codec, &access_token).unwrap();
            assert_eq!(access.id, alice.id);
            assert_eq!(access.username, "alice");
            let refresh = refresh_cookie.strip_prefix("Chat-Refresh=").unwrap();
            assert_ne!(refresh, access_token);
            assert_eq!(decode_jwt_payload(&codec, refresh).unwrap().id, alice.id);
        },
        other => panic!("expected a login, got {:?}", other),
    }
    let reply = service.login(&codec, login("alice@mail.org", "Secret-124"));
    assert!(matches!(reply, HttpReply::Refused(HttpError::BadCredentials)));
    assert_eq!(reply.status(), 401);
    assert!(matches!(
        service.login(&codec, login("nobody@mail.org", "Secret-123")),
        HttpReply::Refused(HttpError::BadCredentials)
    ));
    let weak = CredentialCodec::new(b"short".to_vec());
    assert!(matches!(
        service.login(&weak, login("alice@mail.org", "Secret-123")),
        HttpReply::Refused(HttpError::Internal)
    ));
}

#[test]
fn password_is_changed_with_the_old_one() {
    let codec = CredentialCodec::new(b"a signing key of enough bytes".to_vec());
    let mut service = Coordinator::new();
    let alice = Some(sign_up(&mut service, "alice"));
    let user = service.authorize(&alice).unwrap();
    let change = |old: &str, new: &str| ChangePassword {
        old_password: old.to_string(),
        new_password: new.to_string(),
    };
    let reply = service.change_password(&user, change("Secret-123", "weak"));
    assert!(matches!(
        reply,
        HttpReply::Refused(HttpError::WeakNewPassword(PasswordFlaw::TooShort))
    ));
    assert_eq!(reply.status(), 403);
    assert!(matches!(
        service.change_password(&user, change("Wrong-123", "Better-456")),
        HttpReply::Refused(HttpError::WrongOldPassword)
    ));
    assert!(matches!(
        service.change_password(&user, change("Secret-123", "Secret-123")),
        HttpReply::Refused(HttpError::SamePassword)
    ));
    assert!(matches!(
        service.change_password(&user, change("Secret-123", "Better-456")),
        HttpReply::NoContent
    ));
    let login = |password: &str| LoginDto {
        email: "alice@mail.org".to_string(),
        password: password.to_string(),
    };
    assert!(matches!(service.login(&codec, login("Better-456")), HttpReply::LoggedIn { .. }));
    assert!(matches!(
        service.login(&codec, login("Secret-123")),
        HttpReply::Refused(HttpError::BadCredentials)
    ));
}

#[test]
fn profile_changes_respect_uniqueness() {
    let mut w = world();
    let email = |value: &str| ChangeEmail { new_email: value.to_string() };
    let name = |value: &str| ChangeUsername { new_username: value.to_string() };
    let reply = w.service.change_email(&w.alice_user, email("bobby@mail.org"));
    assert!(matches!(reply, HttpReply::Refused(HttpError::EmailTaken)));
    assert_eq!(reply.status(), 400);
    assert!(matches!(
        w.service.change_email(&w.alice_user, email("alice@mail.org")),
        HttpReply::Refused(HttpError::SameEmail)
    ));
    assert!(matches!(
        w.service.change_email(&w.alice_user, email("alice@home.org")),
        HttpReply::NoContent
    ));
    assert!(matches!(
        w.service.change_username(&w.alice_user, name("bobby")),
        HttpReply::Refused(HttpError::UsernameTaken)
    ));
    assert!(matches!(
        w.service.change_username(&w.alice_user, name("alicia")),
        HttpReply::NoContent
    ));
    // the credential still resolves, to the row as it is now
    let now = w.service.authorize(&w.alice).unwrap();
    assert_eq!(now.username, "alicia");
    assert_eq!(now.email, "alice@home.org");
    assert_eq!(now.id, w.alice_user.id);
}

#[test]
fn request_without_a_known_user_is_unauthorized() {
    let mut w = world();
    assert!(matches!(w.service.authorize(&None), Err(HttpError::Unauthorized)));
    let stranger = Some(JwtPayload { id: 999, username: "alice".to_string() });
    assert!(matches!(w.service.authorize(&stranger), Err(HttpError::Unauthorized)));
}

#[test]
fn administrator_stays_a_member() {
    let mut w = world();
    let (alice, bob) = (w.alice.clone(), w.bob.clone());
    let is_member = |w: &World, user_id: u128| {
        w.service.rows().members.iter().any(|m| m.user_id == user_id && m.chat_id == w.chat_id)
    };
    let input = Some(ChatMembershipInput { user_id: id(&alice), chat_id: w.chat_id });
    w.service.remove_member(2, &bob, input);
    w.service.remove_member(1, &alice, input);
    w.service.leave_chat(1, &alice, Some(LeaveChatInput { chat_id: w.chat_id }));
    assert!(is_member(&w, id(&alice)));
    let input = Some(ChatMembershipInput { user_id: id(&bob), chat_id: w.chat_id });
    w.service.remove_member(1, &alice, input);
    assert!(is_member(&w, id(&alice)));
    assert!(!is_member(&w, id(&bob)));
}

#[test]
fn registered_user_logs_in_and_is_authorized() {
    let codec = CredentialCodec::new(b"a signing key of enough bytes".to_vec());
    let mut service = Coordinator::new();
    let reply = service.register(RegisterUser {
        username: "alice".to_string(),
        password: "Secret-123".to_string(),
        email: "alice@mail.org".to_string(),
    });
    assert!(matches!(reply, HttpReply::Created));
    let login = LoginDto { email: "alice@mail.org".to_string(), password: "Secret-123".to_string() };
    let token = match service.login(&codec, login) {
        HttpReply::LoggedIn { access_token, .. } => access_token,
        other => panic!("expected a login, got {:?}", other),
    };
    let header = format!("Bearer {}", token);
    let caller = chat_backend::middlewares::resolve(&codec, Some(&header));
    let user = service.authorize(&caller).expect("the token names the user");
    assert_eq!(user.username, "alice");
    assert_eq!(user.email, "alice@mail.org");
    assert_eq!(user.id, service.rows().users[0].id);
}

#[test]
fn administrator_is_told_apart() {
    let mut w = world();
    let bob_user = w.service.authorize(&w.bob).unwrap();
    assert_eq!(w.service.is_admin(&w.alice_user, w.chat_id), Ok(true));
    assert_eq!(w.service.is_admin(&bob_user, w.chat_id), Ok(false));
    assert_eq!(
        w.service.is_admin(&w.alice_user, 999),
        Err(chat_backend::store::protocol::LookupFailure::NoRow)
    );
    w.service.fail_after(0);
    assert_eq!(
        w.service.is_admin(&w.alice_user, w.chat_id),
        Err(chat_backend::store::protocol::LookupFailure::Failed)
    );
}

#[test]
fn connection_speaks_for_the_row_of_its_user() {
    let mut w = world();
    let alice = w.alice.clone();
    let found = w.service.get_user(&alice).expect("alice is known");
    assert_eq!(found.id, id(&alice));
    assert_eq!(found.email, "alice@mail.org");
    assert!(w.service.get_user(&None).is_none());
    let stranger = Some(JwtPayload { id: 999, username: "alice".to_string() });
    assert!(w.service.get_user(&stranger).is_none());
}

#[test]
fn second_invitation_is_a_conflict() {
    let mut w = world();
    let (alice, bob, carol) = (w.alice.clone(), w.bob.clone(), w.carol.clone());
    let input = Some(ChatMembershipInput { user_id: id(&carol), chat_id: w.chat_id });
    assert_eq!(w.service.add_member(1, &alice, input).notice, Some(Notice::MemberAdded));
    assert_eq!(w.service.add_member(2, &bob, input).notice, Some(Notice::AlreadyMember));
    assert_eq!(w.service.rows().members.len(), 3);
}

#[test]
fn creations_do_not_mix() {
    let mut w = world();
    let bob_user = w.service.authorize(&w.bob).unwrap();
    w.service.create_chat(&bob_user, CreateChat { name: "bobs".to_string() });
    let rows = w.service.rows();
    assert_eq!(rows.chats.len(), 2);
    assert_ne!(rows.chats[0].id, rows.chats[1].id);
    assert_eq!(rows.chats[1].admin_id, bob_user.id);
    let members = |chat_id: u128| -> Vec<u128> {
        rows.members.iter().filter(|m| m.chat_id == chat_id).map(|m| m.user_id).collect()
    };
    assert_eq!(members(rows.chats[0].id), vec![w.alice_user.id, bob_user.id]);
    assert_eq!(members(rows.chats[1].id), vec![bob_user.id]);
}

#[test]
fn caller_is_always_told_something() {
    let mut w = world();
    let alice = w.alice.clone();
    let chat_id = w.chat_id;
    w.service.fail_after(0);
    // what is decided before the store is asked does not depend on the store
    assert_eq!(w.service.join(1, &alice, None).notice, Some(Notice::MalformedBody));
    assert_eq!(
        w.service.join(1, &None, Some(JoinRoom { chat_id })).notice,
        Some(Notice::Unauthenticated)
    );
    assert_eq!(w.service.add_member(1, &alice, None).notice, Some(Notice::MalformedBody));
    assert_eq!(w.service.leave_chat(1, &alice, None).notice, Some(Notice::MalformedBody));
    assert_eq!(w.service.delete_message(1, &alice, None).notice, Some(Notice::MalformedBody));
    let blank = Some(SendMessageInput { content: "  ".to_string(), chat_id });
    assert_eq!(w.service.send_message(1, &alice, blank).notice, Some(Notice::EmptyMessage));
    // and with the store down the caller is still told, and told of a failure
    let told = w.service.join(1, &alice, Some(JoinRoom { chat_id })).notice.unwrap();
    assert_eq!(told.event(), "error");
    let told = w.service.leave_chat(1, &alice, Some(LeaveChatInput { chat_id })).notice.unwrap();
    assert_eq!(told.event(), "error");
    assert!(w.service.connections_in(chat_id).is_empty());
}

#[test]
fn store_is_ready_for_the_next_call() {
    let mut w = world();
    let (alice, bob) = (w.alice.clone(), w.bob.clone());
    let chat_id = w.chat_id;
    // a refused call uses up nothing: the next chat gets the next id
    let before = w.service.rows().chats[0].id;
    w.service.create_chat(&w.alice_user, CreateChat { name: "ab".to_string() });
    w.service.join(2, &bob, Some(JoinRoom { chat_id: 999 }));
    w.service.leave_chat(1, &alice, Some(LeaveChatInput { chat_id }));
    w.service.create_chat(&w.alice_user, CreateChat { name: "next".to_string() });
    let rows = w.service.rows();
    assert_eq!(rows.chats.len(), 2);
    assert_eq!(rows.chats[1].id, before + 1);
}
