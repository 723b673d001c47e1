use chat_app::error::AppError;
use chat_app::handlers::user::{
    clear_reply, delete, get_information, login, logout, logout_reply, refresh, register,
    update_information,
};
use chat_app::middlewares::auth::auth_guard;
use chat_app::modules::user::{CreateDto, LoginDto, UpdateInfoDto, User};
use chat_app::response::{Account, Body, Response};
use chat_app::store::Store;

const WEEK: u64 = 604_800;

fn registration(username: &str, email: &str) -> CreateDto {
    CreateDto {
        name: "Somebody".to_string(),
        username: username.to_string(),
        password: "Str0ngPass".to_string(),
        email: email.to_string(),
        gender: Some(true),
    }
}

fn credentials(username: &str, password: &str) -> LoginDto {
    LoginDto { username: username.to_string(), password: password.to_string() }
}

fn cookie_for(token: &str) -> String {
    format!("session={}; HttpOnly; Path=/; Max-Age=604800", token)
}

/// The token in the cookie of a response that sets one.
fn token_of(response: &Response) -> String {
    let header = response.set_cookie.clone().unwrap();
    let rest = header.strip_prefix("session=").unwrap();
    rest.split(';').next().unwrap().to_string()
}

fn session_of(response: Response) -> (String, Account) {
    match response.body {
        Body::Session { session_id, user } => (session_id, user),
        other => panic!("no session in {:?}", other),
    }
}

/// Registers an account and has the guard resolve its token.
fn signed_up(store: &mut Store, username: &str, email: &str, now: u64) -> (String, User) {
    let (token, _) = session_of(register(store, registration(username, email), now));
    let user = auth_guard(Some(token.clone()), store, now).unwrap();
    (token, user)
}

fn message_of(response: Response) -> (u16, String) {
    assert!(response.set_cookie.is_none());
    match response.body {
        Body::Message { message, status } => {
            assert_eq!(status, response.status);
            (status, message)
        }
        other => panic!("no message in {:?}", other),
    }
}

#[test]
fn register_login_guard_refresh() {
    let mut store = Store::new();

    // register: success, account returned, cookie set
    let response = register(&mut store, registration("alice", "alice@example.com"), 1000);
    assert_eq!(response.status, 201);
    let cookie = response.set_cookie.clone().unwrap();
    let (registered_token, alice) = session_of(response);
    assert_eq!(cookie, cookie_for(&registered_token));
    assert_eq!(alice.username, "alice");
    assert_eq!(alice.id, 1);
    assert_eq!(auth_guard(Some(registered_token), &store, 1000).unwrap().id, alice.id);

    // the same username again
    let response = register(&mut store, registration("alice", "other@example.com"), 1001);
    assert_eq!(message_of(response), (302, "User found!".to_string()));

    // a wrong password, twice: the same answer, and nothing locks
    let first = login(&mut store, credentials("alice", "Wr0ngPass"), 1002);
    let second = login(&mut store, credentials("alice", "Wr0ngPass"), 1003);
    assert_eq!(first.status, 401);
    assert_eq!(format!("{:?}", first), format!("{:?}", second));
    assert_eq!(message_of(first), (401, "Unauthorized".to_string()));

    // the right password still logs in
    let response = login(&mut store, credentials("alice", "Str0ngPass"), 1004);
    assert_eq!(response.status, 200);
    assert_eq!(token_of(&response), {
        let header = response.set_cookie.clone().unwrap();
        header["session=".len()..header.find(';').unwrap()].to_string()
    });
    let (login_token, logged_in) = session_of(response);
    assert_eq!(logged_in.id, alice.id);

    // a protected route without a cookie
    assert_eq!(auth_guard(None, &store, 1005).unwrap_err(), AppError::Unauthorized);
    assert_eq!(AppError::Unauthorized.into_response().status, 401);

    // the same route with a token that has expired
    assert_eq!(
        auth_guard(Some(login_token.clone()), &store, 1004 + WEEK).unwrap_err(),
        AppError::Unauthorized
    );

    // refresh while authenticated
    let admitted = auth_guard(Some(login_token.clone()), &store, 1006).unwrap();
    let response = refresh(&mut store, admitted, 1006);
    assert_eq!(response.status, 200);
    assert!(matches!(response.body, Body::Empty));
    let fresh_token = token_of(&response);
    assert_ne!(fresh_token, login_token);
    assert_eq!(response.set_cookie.unwrap(), cookie_for(&fresh_token));
    assert_eq!(
        auth_guard(Some(login_token), &store, 1007).unwrap_err(),
        AppError::Unauthorized
    );
    assert_eq!(auth_guard(Some(fresh_token), &store, 1007).unwrap().id, alice.id);
}

#[test]
fn register_with_refused_input_answers_400_with_the_report() {
    let mut store = Store::new();
    let dto = CreateDto {
        name: "Alice".to_string(),
        username: "Alice".to_string(),
        password: "Str0ngPass".to_string(),
        email: "alice@example.com".to_string(),
        gender: None,
    };
    let response = register(&mut store, dto, 0);
    assert_eq!(
        message_of(response),
        (400, "username: Username must match ([a-z0-9_]+)".to_string())
    );
    let response = register(&mut store, registration("alice", "alice@example.com"), 0);
    assert_eq!(response.status, 201);
}

#[test]
fn register_with_a_taken_email_answers_302() {
    let mut store = Store::new();
    register(&mut store, registration("alice", "alice@example.com"), 0);
    let response = register(&mut store, registration("alice2", "alice@example.com"), 0);
    assert_eq!(message_of(response), (302, "User found!".to_string()));
}

#[test]
fn register_at_a_time_that_cannot_be_written_answers_500() {
    let mut store = Store::new();
    let response = register(&mut store, registration("alice", "alice@example.com"), u64::MAX);
    assert_eq!(message_of(response), (500, "Internal Server Error".to_string()));
}

#[test]
fn login_with_malformed_credentials_answers_400() {
    let mut store = Store::new();
    register(&mut store, registration("alice", "alice@example.com"), 0);
    let response = login(&mut store, credentials("alice", "short"), 0);
    assert_eq!(message_of(response), (400, "password: min=8 && max=512".to_string()));
    let response = login(&mut store, credentials("nobody", "x"), 0);
    assert_eq!(message_of(response), (400, "password: min=8 && max=512".to_string()));
}

#[test]
fn login_with_an_unknown_username_answers_as_a_wrong_password_does() {
    let mut store = Store::new();
    register(&mut store, registration("alice", "alice@example.com"), 0);
    let unknown = login(&mut store, credentials("nobody", "Str0ngPass"), 0);
    let wrong = login(&mut store, credentials("alice", "Wr0ngPass"), 0);
    assert_eq!(format!("{:?}", unknown), format!("{:?}", wrong));
    assert_eq!(message_of(unknown), (401, "Unauthorized".to_string()));
}

#[test]
fn login_replaces_the_session_of_the_registration() {
    let mut store = Store::new();
    let (first, alice) = signed_up(&mut store, "alice", "alice@example.com", 0);
    let (second, _) = session_of(login(&mut store, credentials("alice", "Str0ngPass"), 10));
    assert_ne!(first, second);
    assert!(auth_guard(Some(first), &store, 11).is_err());
    assert_eq!(auth_guard(Some(second), &store, 11).unwrap().id, alice.id);
}

#[test]
fn logout_revokes_the_session_and_clears_the_cookie() {
    let mut store = Store::new();
    let (token, alice) = signed_up(&mut store, "alice", "alice@example.com", 0);
    let response = logout(&mut store, alice.clone());
    assert_eq!(response.status, 200);
    assert_eq!(response.set_cookie.unwrap(), "session=; HttpOnly; Path=/; Max-Age=0");
    assert!(matches!(response.body, Body::Empty));
    assert_eq!(auth_guard(Some(token), &store, 1).unwrap_err(), AppError::Unauthorized);
    // once more, without a session
    let response = logout(&mut store, alice);
    assert_eq!(response.status, 200);
}

#[test]
fn refresh_for_an_account_that_is_gone_answers_500() {
    let mut store = Store::new();
    let (_, alice) = signed_up(&mut store, "alice", "alice@example.com", 0);
    let response = delete(alice.clone(), &mut store);
    assert_eq!(response.status, 200);
    assert_eq!(response.set_cookie.unwrap(), "session=; HttpOnly; Path=/; Max-Age=0");
    let response = refresh(&mut store, alice, 1);
    assert_eq!(message_of(response), (500, "Internal Server Error".to_string()));
}

#[test]
fn own_profile_is_the_account_and_another_is_what_others_may_see() {
    let mut store = Store::new();
    let (_, alice) = signed_up(&mut store, "alice", "alice@example.com", 0);
    let (_, bob) = signed_up(&mut store, "bob", "bob@example.com", 0);
    let response = get_information("alice".to_string(), alice.clone(), &store);
    assert_eq!(response.status, 200);
    match response.body {
        Body::Account(own) => {
            assert_eq!(own.id, alice.id);
            assert_eq!(own.create_at, "1970-01-01T00:00:00Z");
        }
        other => panic!("no account in {:?}", other),
    }
    let response = get_information("bob".to_string(), alice.clone(), &store);
    assert_eq!(response.status, 200);
    match response.body {
        Body::Profile(profile) => {
            assert_eq!(profile.id, bob.id);
            assert_eq!(profile.name, "Somebody");
            assert_eq!(profile.username, "bob");
            assert_eq!(profile.email, "bob@example.com");
            assert!(profile.gender);
        }
        other => panic!("no profile in {:?}", other),
    }
    let response = get_information("carol".to_string(), alice, &store);
    assert_eq!(message_of(response), (404, "User NOT found!".to_string()));
}

#[test]
fn profile_change_answers_with_the_account_as_it_now_is() {
    let mut store = Store::new();
    let (_, alice) = signed_up(&mut store, "alice", "alice@example.com", 0);
    register(&mut store, registration("bob", "bob@example.com"), 0);
    let dto = UpdateInfoDto {
        name: Some("Alice".to_string()),
        username: None,
        email: None,
        gender: Some(false),
    };
    let response = update_information(&mut store, alice.clone(), dto, 60);
    assert_eq!(response.status, 200);
    match response.body {
        Body::Account(changed) => {
            assert_eq!(changed.name, "Alice");
            assert!(!changed.gender);
            assert_eq!(changed.update_at, "1970-01-01T00:01:00Z");
        }
        other => panic!("no account in {:?}", other),
    }
    let dto = UpdateInfoDto { name: None, username: None, email: None, gender: None };
    let response = update_information(&mut store, alice.clone(), dto, 61);
    assert_eq!(message_of(response), (400, "Bad Request".to_string()));
    let dto = UpdateInfoDto {
        name: Some("A".to_string()),
        username: None,
        email: None,
        gender: None,
    };
    let response = update_information(&mut store, alice.clone(), dto, 62);
    assert_eq!(message_of(response), (400, "name: min=2, max=100".to_string()));
    let dto = UpdateInfoDto {
        name: None,
        username: Some("bob".to_string()),
        email: None,
        gender: None,
    };
    let response = update_information(&mut store, alice, dto, 63);
    assert_eq!(message_of(response), (302, "User found!".to_string()));
}

#[test]
fn logout_clears_the_cookie_whatever_the_revocation_gave() {
    let fine = logout_reply(Ok(()));
    assert_eq!(fine.status, 200);
    assert_eq!(fine.set_cookie.unwrap(), "session=; HttpOnly; Path=/; Max-Age=0");
    assert!(matches!(fine.body, Body::Empty));
    let failed = logout_reply(Err(AppError::InternalServerError));
    assert_eq!(failed.status, 500);
    assert_eq!(failed.set_cookie.unwrap(), "session=; HttpOnly; Path=/; Max-Age=0");
    match failed.body {
        Body::Message { message, status } => {
            assert_eq!(message, "Internal Server Error");
            assert_eq!(status, 500);
        }
        other => panic!("no message in {:?}", other),
    }
}

#[test]
fn failed_removal_of_an_account_sets_no_cookie() {
    let fine = clear_reply(Ok(()));
    assert_eq!(fine.set_cookie.unwrap(), "session=; HttpOnly; Path=/; Max-Age=0");
    let failed = clear_reply(Err(AppError::InternalServerError));
    assert_eq!(failed.status, 500);
    assert!(failed.set_cookie.is_none());
}

#[test]
fn no_answer_carries_the_password_or_its_hash() {
    let mut store = Store::new();
    let response = register(&mut store, registration("alice", "alice@example.com"), 0);
    let shown = format!("{:?}", response);
    assert!(!shown.contains("Str0ngPass"));
    assert!(!shown.contains("$argon2"));
    let token = token_of(&response);
    let alice = auth_guard(Some(token), &store, 1).unwrap();
    assert!(alice.password.starts_with("$argon2"));
    let response = login(&mut store, credentials("alice", "Str0ngPass"), 1);
    assert_eq!(response.status, 200);
    let shown = format!("{:?}", response);
    assert!(!shown.contains("Str0ngPass"));
    assert!(!shown.contains("$argon2"));
    let response = get_information("alice".to_string(), alice.clone(), &store);
    assert!(!format!("{:?}", response).contains("$argon2"));
    let dto = UpdateInfoDto {
        name: Some("Alice".to_string()),
        username: None,
        email: None,
        gender: None,
    };
    let response = update_information(&mut store, alice, dto, 2);
    assert_eq!(response.status, 200);
    assert!(!format!("{:?}", response).contains("$argon2"));
}

#[test]
fn valid_registration_without_conflict_answers_201_with_the_account() {
    let mut store = Store::new();
    let dto = CreateDto {
        name: "Alice".to_string(),
        username: "alice".to_string(),
        password: "Str0ngPass".to_string(),
        email: "alice@example.com".to_string(),
        gender: None,
    };
    let response = register(&mut store, dto, 1_546_300_800);
    assert_eq!(response.status, 201);
    let (token, shown) = session_of(response);
    assert_eq!(shown.id, 1);
    assert_eq!(shown.name, "Alice");
    assert_eq!(shown.username, "alice");
    assert_eq!(shown.email, "alice@example.com");
    assert!(!shown.gender);
    assert_eq!(shown.create_at, "2019-01-01T00:00:00Z");
    assert_eq!(shown.update_at, "2019-01-01T00:00:00Z");
    let resolved = auth_guard(Some(token), &store, 1_546_300_801).unwrap();
    assert_eq!(resolved.id, 1);
    assert_eq!(resolved.username, "alice");
}
