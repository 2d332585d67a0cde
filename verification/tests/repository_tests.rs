use chat_backend::chat_repository::ChatRepository;
use chat_backend::message_repository::MessageRepository;
use chat_backend::models::Message;

#[test]
fn insert_errors_on_attempted_reinsert() {
    let mut repository = ChatRepository::new();
    let _ = repository.insert(1, 2);
    let _ = repository.insert(2, 3);
    let _ = repository.insert(3, 1);
    let actual = repository.insert(2, 3);
    assert!(actual.is_err());
    match actual {
        Ok(_) => {
            assert!(false);
        }
        Err(err) => {
            assert_eq!(err.code, "chat_already_exists".to_string());
            assert_eq!(
                err.message,
                "A chat from user id '2' to user id '3' already exists, chat id: '2' ".to_string()
            );
        }
    };
}

#[test]
fn get_chats_returns_empty_if_none_exist() {
    let mut repository = ChatRepository::new();
    let _ = repository.insert(1, 2);
    let _ = repository.insert(2, 3);
    let _ = repository.insert(3, 1);
    let actual = repository.get_chats_for_user(4);
    assert_eq!(0, actual.len());
}

#[test]
fn get_chats_returns_correctly() {
    let mut repository = ChatRepository::new();
    let _ = repository.insert(1, 2);
    let _ = repository.insert(2, 3);
    let _ = repository.insert(3, 1);
    let actual = repository.get_chats_for_user(3);
    assert_eq!(2, actual.len());
}

#[test]
fn get_messages_returns_successfully() {
    let mut repository = MessageRepository::new();
    let test_message_1 = Message {
        source_user_id: 1,
        destination_user_id: 2,
        timestamp: 123,
        message: "test".to_string(),
    };
    let test_message_2 = Message {
        source_user_id: 1,
        destination_user_id: 2,
        timestamp: 123,
        message: "test".to_string(),
    };
    let test_message_3 = Message {
        source_user_id: 1,
        destination_user_id: 2,
        timestamp: 123,
        message: "test".to_string(),
    };

    repository.add_message(test_message_1, 1);
    repository.add_message(test_message_2, 1);
    repository.add_message(test_message_3, 2);

    match repository.get_messages_for_chat_id(1) {
        Ok(messages) => assert_eq!(2, messages.len()),
        Err(e) => panic!("{}", e.message),
    };
}

#[test]
fn get_messages_returns_error_when_chat_does_not_exist() {
    let mut repository = MessageRepository::new();
    let test_message_1 = Message {
        source_user_id: 1,
        destination_user_id: 2,
        timestamp: 123,
        message: "test".to_string(),
    };
    let test_message_2 = Message {
        source_user_id: 1,
        destination_user_id: 2,
        timestamp: 123,
        message: "test".to_string(),
    };
    let test_message_3 = Message {
        source_user_id: 1,
        destination_user_id: 2,
        timestamp: 123,
        message: "test".to_string(),
    };

    repository.add_message(test_message_1, 1);
    repository.add_message(test_message_2, 1);
    repository.add_message(test_message_3, 2);

    match repository.get_messages_for_chat_id(3) {
        Ok(_) => assert!(false, "messages should not have been recorded for chat_id 3"),
        Err(e) => assert_eq!("chat_does_not_exist".to_string(), e.code),
    };
}
