use chat_backend::auth::jwt::JwtPayload;
use chat_backend::auth::registration::RegisterUser;
use chat_backend::chat::chat::CreateChat;
use chat_backend::coordinator::Coordinator;
use chat_backend::http::HttpReply;
use chat_backend::notice::{ErrorKind, Notice};
use chat_backend::sockets::member::ChatMembershipInput;
use chat_backend::sockets::message::{DeleteMessage, SendMessageInput};
use chat_backend::sockets::{JoinRoom, RoomEvent};

fn sign_up(service: &mut Coordinator, name: &str) -> JwtPayload {
    let reply = service.register(RegisterUser {
        username: name.to_string(),
        password: "Secret-123".to_string(),
        email: format!("{}@mail.org", name),
    });
    assert!(matches!(reply, HttpReply::Created));
    let user = service
        .rows()
        .users
        .iter()
        .find(|user| user.username == name)
        .expect("the user was registered");
    JwtPayload { id: user.id, username: user.username.clone() }
}

#[test]
fn members_talk_and_only_authors_delete() {
    let mut service = Coordinator::new();
    let alice = Some(sign_up(&mut service, "alice"));
    let bob = Some(sign_up(&mut service, "bobby"));
    let alice_id = alice.as_ref().unwrap().id;
    let bob_id = bob.as_ref().unwrap().id;
    let alice_user = service.authorize(&alice).expect("alice is known");

    let reply = service.create_chat(&alice_user, CreateChat { name: "general".to_string() });
    assert!(matches!(reply, HttpReply::Created));
    assert_eq!(service.rows().chats.len(), 1);
    let chat_id = service.rows().chats[0].id;
    assert_eq!(service.rows().chats[0].admin_id, alice_id);
    assert_eq!(service.rows().members.len(), 1);

    let joined = service.join(1, &alice, Some(JoinRoom { chat_id }));
    assert_eq!(joined.notice, Some(Notice::Joined));

    let added = service.add_member(1, &alice, Some(ChatMembershipInput { user_id: bob_id, chat_id }));
    assert_eq!(added.notice, Some(Notice::MemberAdded));
    assert_eq!(added.notice.unwrap().event(), "success");
    assert_eq!(service.rows().members.len(), 2);

    let joined = service.join(2, &bob, Some(JoinRoom { chat_id }));
    assert_eq!(joined.notice, Some(Notice::Joined));

    let sent = service.send_message(
        1,
        &alice,
        Some(SendMessageInput { content: "hello".to_string(), chat_id }),
    );
    assert_eq!(sent.notice, None);
    assert_eq!(sent.recipients, vec![1, 2]);
    let message_id = match sent.event {
        Some(RoomEvent::NewMessage(message)) => {
            assert_eq!(message.content, "hello");
            assert_eq!(message.user_id, alice_id);
            message.id
        },
        other => panic!("expected a new message, got {:?}", other),
    };

    let refused = service.delete_message(2, &bob, Some(DeleteMessage { message_id }));
    assert_eq!(refused.notice, Some(Notice::DeleteRefused));
    assert_eq!(refused.notice.unwrap().kind(), Some(ErrorKind::NotFoundOrForbidden));
    assert_eq!(refused.notice.unwrap().event(), "error");
    assert!(refused.event.is_none());
    assert!(refused.recipients.is_empty());
    assert_eq!(service.rows().messages.len(), 1);
    assert_eq!(service.rows().messages[0].id, message_id);
}

#[test]
fn outsiders_send_nothing() {
    let mut service = Coordinator::new();
    let alice = Some(sign_up(&mut service, "alice"));
    let carol = Some(sign_up(&mut service, "carol"));
    let alice_user = service.authorize(&alice).expect("alice is known");
    service.create_chat(&alice_user, CreateChat { name: "general".to_string() });
    let chat_id = service.rows().chats[0].id;
    service.join(1, &alice, Some(JoinRoom { chat_id }));

    let sent = service.send_message(
        3,
        &carol,
        Some(SendMessageInput { content: "hi".to_string(), chat_id }),
    );
    assert_eq!(sent.notice, Some(Notice::NotInChatToSend));
    assert_eq!(sent.notice.unwrap().event(), "error");
    assert_eq!(sent.notice.unwrap().kind(), Some(ErrorKind::Forbidden));
    assert!(sent.event.is_none());
    assert!(sent.recipients.is_empty());
    assert_eq!(service.rows().messages.len(), 0);
}
