use chat_app::error::AppError;
use chat_app::modules::conversation::Conversation;
use chat_app::modules::message::Message;
use chat_app::modules::user::User;
use chat_app::services::{conversation, message};
use chat_app::store::DbError;

fn alice() -> User {
    User {
        id: 1,
        name: "Alice".to_string(),
        username: "alice".to_string(),
        password: "hash".to_string(),
        email: "alice@example.com".to_string(),
        gender: false,
        create_at: "t".to_string(),
        update_at: "t".to_string(),
    }
}

fn talk(id: i32) -> Conversation {
    Conversation {
        id,
        user1_id: 1,
        user2_id: 2,
        last_message: None,
        created_at: "t".to_string(),
        updated_at: "t".to_string(),
    }
}

fn note(id: i32) -> Message {
    Message {
        id,
        sender_username: "alice".to_string(),
        receiver_username: "bob".to_string(),
        conversation_id: 1,
        body: "hello".to_string(),
        delivered: true,
        readed: false,
        created_at: "t".to_string(),
    }
}

fn refusal(code: &str) -> DbError {
    DbError::Database { code: Some(code.to_string()), constraint: None }
}

#[test]
fn conversation_with_oneself_is_a_bad_request() {
    assert_eq!(
        conversation::check_counterparty(&"alice".to_string(), &alice()),
        Err(AppError::BadRequest)
    );
    assert_eq!(conversation::check_counterparty(&"bob".to_string(), &alice()), Ok(()));
    assert_eq!(conversation::check_counterparty(&"Alice".to_string(), &alice()), Ok(()));
}

#[test]
fn missing_counterparty_is_not_found() {
    assert_eq!(conversation::create_outcome(Ok(talk(5))).unwrap().id, 5);
    assert_eq!(
        conversation::create_outcome(Err(refusal("23502"))).unwrap_err(),
        AppError::NotFoundUser
    );
    assert_eq!(
        conversation::create_outcome(Err(DbError::Database {
            code: Some("23502".to_string()),
            constraint: Some("conversations_user2_id_not_null".to_string())
        }))
        .unwrap_err(),
        AppError::NotFoundUser
    );
    assert_eq!(
        conversation::create_outcome(Err(refusal("23505"))).unwrap_err(),
        AppError::InternalServerError
    );
    assert_eq!(
        conversation::create_outcome(Err(DbError::Database { code: None, constraint: None }))
            .unwrap_err(),
        AppError::InternalServerError
    );
    assert_eq!(
        conversation::create_outcome(Err(DbError::RowNotFound)).unwrap_err(),
        AppError::InternalServerError
    );
    assert_eq!(
        conversation::create_outcome(Err(DbError::Other)).unwrap_err(),
        AppError::InternalServerError
    );
}

#[test]
fn no_conversations_is_not_found_data() {
    assert_eq!(
        conversation::get_all_outcome(Ok(Vec::new())).unwrap_err(),
        AppError::NotFoundData
    );
    let rows = conversation::get_all_outcome(Ok(vec![talk(1), talk(2)])).unwrap();
    assert_eq!(rows.len(), 2);
    assert_eq!(rows[0].id, 1);
    assert_eq!(rows[1].id, 2);
    assert_eq!(
        conversation::get_all_outcome(Err(DbError::RowNotFound)).unwrap_err(),
        AppError::InternalServerError
    );
    assert_eq!(
        conversation::get_all_outcome(Err(DbError::Other)).unwrap_err(),
        AppError::InternalServerError
    );
}

#[test]
fn no_messages_is_not_found_data() {
    assert_eq!(message::get_all_outcome(Ok(Vec::new())).unwrap_err(), AppError::NotFoundData);
    let rows = message::get_all_outcome(Ok(vec![note(7)])).unwrap();
    assert_eq!(rows.len(), 1);
    assert_eq!(rows[0].id, 7);
    assert_eq!(rows[0].body, "hello");
    assert_eq!(
        message::get_all_outcome(Err(DbError::Other)).unwrap_err(),
        AppError::InternalServerError
    );
}
