use forum_core::chat::Chat;
use forum_core::error::Error;
use forum_core::identifiers::ChatUuid;
use forum_core::identifiers::UserUuid;
use forum_core::requests::NewUserRequest;
use forum_core::routes::message::get_messages_for_chat;
use forum_core::routes::message::send_message;
use forum_core::store::Store;
use forum_core::user::User;
use forum_core::wire::NewMessageRequest;

fn setup_chat() -> (Store, ChatUuid, UserUuid, UserUuid) {
    let mut store = Store::new();
    let member = User::create(
        NewUserRequest {
            user_name: String::from("member"),
            display_name: String::from("Member"),
            plaintext_password: String::from("pw"),
        }
        .into(),
        &mut store,
    )
    .unwrap();
    let outsider = User::create(
        NewUserRequest {
            user_name: String::from("outsider"),
            display_name: String::from("Outsider"),
            plaintext_password: String::from("pw"),
        }
        .into(),
        &mut store,
    )
    .unwrap();
    let chat = Chat::create_chat_with_uuid(String::from("general"), 900, &mut store).unwrap();
    Chat::add_user_to_chat(&chat, UserUuid(member.uuid), &mut store).unwrap();
    (store, chat, UserUuid(member.uuid), UserUuid(outsider.uuid))
}

#[test]
fn sending_from_a_foreign_author_is_forbidden() {
    let (mut store, chat, member, outsider) = setup_chat();
    let request = NewMessageRequest {
        chat_uuid: chat,
        author_uuid: member,
        content: String::from("hi"),
    };
    assert!(matches!(
        send_message(request, outsider, &mut store),
        Err(Error::Forbidden)
    ));
}

#[test]
fn sending_from_outside_the_chat_is_forbidden() {
    let (mut store, chat, _member, outsider) = setup_chat();
    let request = NewMessageRequest {
        chat_uuid: chat,
        author_uuid: outsider,
        content: String::from("let me in"),
    };
    assert!(matches!(
        send_message(request, outsider, &mut store),
        Err(Error::Forbidden)
    ));
}

#[test]
fn members_send_and_list_messages() {
    let (mut store, chat, member, outsider) = setup_chat();
    for text in ["one", "two", "three"] {
        let sent = send_message(
            NewMessageRequest {
                chat_uuid: chat,
                author_uuid: member,
                content: String::from(text),
            },
            member,
            &mut store,
        )
        .unwrap();
        assert_eq!(sent.content, text);
        assert_eq!(sent.chat_uuid, chat);
    }

    let page = get_messages_for_chat(chat, 0, member, &store).unwrap();
    assert_eq!(page.len(), 3);
    let texts: Vec<&str> = page.iter().map(|m| m.content.as_str()).collect();
    assert_eq!(texts, vec!["one", "two", "three"]);
    assert_eq!(page[0].author.user_name, "member");

    // A non-member cannot list; a missing chat is not found.
    assert!(matches!(
        get_messages_for_chat(chat, 0, outsider, &store),
        Err(Error::Forbidden)
    ));
    assert!(matches!(
        get_messages_for_chat(ChatUuid(12345), 0, member, &store),
        Err(Error::NotFound)
    ));
    assert!(matches!(
        get_messages_for_chat(chat, -1, member, &store),
        Err(Error::BadRequest)
    ));
}

#[test]
fn membership_is_observable_and_idempotent() {
    let (mut store, chat, member, outsider) = setup_chat();
    assert_eq!(Chat::is_user_in_chat(&chat, member, &store), Ok(true));
    assert_eq!(Chat::is_user_in_chat(&chat, outsider, &store), Ok(false));
    assert!(matches!(
        Chat::is_user_in_chat(&ChatUuid(4444), member, &store),
        Err(Error::NotFound)
    ));
    // Adding the same member twice changes nothing and succeeds.
    Chat::add_user_to_chat(&chat, member, &mut store).unwrap();
    assert_eq!(store.chats[0].members.len(), 1);
}
