use chat_backend::chat_repository::ChatRepository;
use chat_backend::decimal::u64_to_dec_string;
use chat_backend::errors::ApiError;
use chat_backend::http::Backend;
use chat_backend::http::JsonHttpResponse;
use chat_backend::http::RequestPayload;
use chat_backend::http::RouteSuccess;
use chat_backend::message_repository::MessageRepository;
use chat_backend::models::Message;

fn message(source_user_id: u64, destination_user_id: u64, timestamp: u64, text: &str) -> Message {
    Message {
        source_user_id,
        destination_user_id,
        timestamp,
        message: text.to_string(),
    }
}

#[test]
fn chat_identities_are_assigned_in_order() {
    let mut repository = ChatRepository::new();
    let first = repository.insert(1, 2).unwrap();
    let second = repository.insert(2, 3).unwrap();
    let third = repository.insert(3, 1).unwrap();
    assert_eq!(1, first.id);
    assert_eq!(2, second.id);
    assert_eq!(3, third.id);
    let duplicate = repository.insert(2, 3);
    match duplicate {
        Ok(_) => assert!(false, "a chat for the pair already exists"),
        Err(e) => {
            assert_eq!("chat_already_exists".to_string(), e.code);
            assert_eq!(
                "A chat from user id '2' to user id '3' already exists, chat id: '2' ".to_string(),
                e.message
            );
        }
    }
}

#[test]
fn reversed_pair_counts_as_the_same_chat() {
    let mut repository = ChatRepository::new();
    let first = repository.insert(1, 2).unwrap();
    assert_eq!(1, first.id);
    let reversed = repository.insert(2, 1);
    match reversed {
        Ok(_) => assert!(false, "the reversed pair names the same chat"),
        Err(e) => assert_eq!("chat_already_exists".to_string(), e.code),
    }
    // The failed creation consumed no identity.
    let next = repository.insert(3, 4).unwrap();
    assert_eq!(2, next.id);
}

#[test]
fn list_chats_for_user_returns_both_memberships() {
    let mut repository = ChatRepository::new();
    let _ = repository.insert(1, 2);
    let _ = repository.insert(2, 3);
    let _ = repository.insert(3, 1);
    let chats = repository.get_chats_for_user(3);
    assert_eq!(2, chats.len());
    assert_eq!(2, chats[0].id);
    assert_eq!(3, chats[1].id);
}

#[test]
fn messages_are_returned_in_insertion_order() {
    let mut repository = MessageRepository::new();
    repository.add_message(message(1, 2, 100, "first"), 1);
    repository.add_message(message(2, 1, 200, "second"), 1);
    repository.add_message(message(1, 2, 300, "other chat"), 2);
    let messages = repository.get_messages_for_chat_id(1).unwrap();
    assert_eq!(2, messages.len());
    assert_eq!("first".to_string(), messages[0].message);
    assert_eq!("second".to_string(), messages[1].message);
    assert_eq!(100, messages[0].timestamp);
    assert_eq!(200, messages[1].timestamp);
    match repository.get_messages_for_chat_id(3) {
        Ok(_) => assert!(false, "no message was added for this identity"),
        Err(e) => {
            assert_eq!("chat_does_not_exist".to_string(), e.code);
            assert_eq!("A chat with id '3' does not exist".to_string(), e.message);
        }
    }
}

#[test]
fn fresh_store_has_no_messages_for_any_identity() {
    let repository = MessageRepository::new();
    assert!(repository.get_messages_for_chat_id(1).is_err());
}

#[test]
fn rendering_success_response() {
    let response = JsonHttpResponse {
        body: "{\"ok\":true}".to_string(),
        status: 200,
    };
    assert_eq!(
        "HTTP/1.1 200 OK\nContent-Type: application/json\n\n{\"ok\":true}".to_string(),
        response.to_raw_output()
    );
}

#[test]
fn rendering_any_other_status_is_the_server_error_line() {
    for status in [0u16, 404, 500, 65535] {
        let response = JsonHttpResponse {
            body: "{\"ok\":false}".to_string(),
            status,
        };
        assert_eq!(
            "HTTP/1.1 500 Internal Server Error\nContent-Type: application/json\n\n{\"ok\":false}"
                .to_string(),
            response.to_raw_output()
        );
    }
}

#[test]
fn response_status_reflects_the_outcome() {
    let ok = JsonHttpResponse::for_outcome(true, "{}".to_string());
    assert_eq!(200, ok.status);
    let failed = JsonHttpResponse::for_outcome(false, "{}".to_string());
    assert_eq!(500, failed.status);
}

#[test]
fn decimal_rendering_exact_values() {
    assert_eq!("0".to_string(), u64_to_dec_string(0));
    assert_eq!("7".to_string(), u64_to_dec_string(7));
    assert_eq!("10".to_string(), u64_to_dec_string(10));
    assert_eq!("123".to_string(), u64_to_dec_string(123));
    assert_eq!("9876543210".to_string(), u64_to_dec_string(9876543210));
    assert_eq!(
        "18446744073709551615".to_string(),
        u64_to_dec_string(u64::MAX)
    );
}

#[test]
fn error_constructors_interpolate_identifiers() {
    let exists = ApiError::chat_already_exists(7, 9, 4);
    assert_eq!("chat_already_exists".to_string(), exists.code);
    assert_eq!(
        "A chat from user id '7' to user id '9' already exists, chat id: '4' ".to_string(),
        exists.message
    );
    let missing = ApiError::chat_does_not_exist(42);
    assert_eq!("chat_does_not_exist".to_string(), missing.code);
    assert_eq!("A chat with id '42' does not exist".to_string(), missing.message);
}

#[test]
fn envelope_dispatches_each_route() {
    let mut backend = Backend::new();
    match backend.handle(RequestPayload::PostChats {
        source_user_id: 1,
        destination_user_id: 2,
    }) {
        Ok(RouteSuccess::ChatCreated(chat)) => {
            assert_eq!(1, chat.id);
            assert_eq!([1, 2], chat.participant_ids);
        }
        _ => assert!(false, "creation for a fresh pair succeeds"),
    }
    match backend.handle(RequestPayload::PostChats {
        source_user_id: 2,
        destination_user_id: 1,
    }) {
        Err(e) => assert_eq!("chat_already_exists".to_string(), e.code),
        Ok(_) => assert!(false, "the pair already has a chat"),
    }
    match backend.handle(RequestPayload::GetChats { user_id: 2 }) {
        Ok(RouteSuccess::ChatsForUser(chats)) => assert_eq!(1, chats.len()),
        _ => assert!(false, "listing cannot fail"),
    }
    match backend.handle(RequestPayload::PostMessage {
        message: message(1, 2, 5, "hello"),
        chat_id: 1,
    }) {
        Ok(RouteSuccess::MessageRecorded) => {}
        _ => assert!(false, "recording a message cannot fail"),
    }
    match backend.handle(RequestPayload::GetMessages { chat_id: 1 }) {
        Ok(RouteSuccess::Messages(messages)) => {
            assert_eq!(1, messages.len());
            assert_eq!("hello".to_string(), messages[0].message);
        }
        _ => assert!(false, "the identity has a recorded message"),
    }
    match backend.handle(RequestPayload::GetMessages { chat_id: 9 }) {
        Err(e) => assert_eq!("chat_does_not_exist".to_string(), e.code),
        Ok(_) => assert!(false, "the identity has no recorded message"),
    }
}
