use chat_app::modules::user::{
    password_validate, username_validate, CreateDto, CredentialError, LoginDto, UpdateInfoDto,
};

fn text(c: char, n: usize) -> String {
    std::iter::repeat(c).take(n).collect()
}

#[test]
fn username_of_three_characters_is_accepted() {
    assert_eq!(username_validate("abc"), Ok(()));
}

#[test]
fn username_of_fifty_characters_is_accepted() {
    assert_eq!(username_validate(&text('a', 50)), Ok(()));
}

#[test]
fn username_of_two_characters_is_refused() {
    assert_eq!(username_validate("ab"), Err(CredentialError::UsernameLength));
}

#[test]
fn username_of_fifty_one_characters_is_refused() {
    assert_eq!(username_validate(&text('a', 51)), Err(CredentialError::UsernameLength));
}

#[test]
fn empty_username_is_refused() {
    assert_eq!(username_validate(""), Err(CredentialError::UsernameLength));
}

#[test]
fn username_takes_lowercase_digits_and_underscore() {
    assert_eq!(username_validate("az_09"), Ok(()));
    assert_eq!(username_validate("abcdefghijklmnopqrstuvwxyz_0123456789"), Ok(()));
}

#[test]
fn username_with_a_character_outside_the_alphabet_is_refused() {
    assert_eq!(username_validate("Alice"), Err(CredentialError::UsernamePattern));
    assert_eq!(username_validate("al ice"), Err(CredentialError::UsernamePattern));
    assert_eq!(username_validate("al-ice"), Err(CredentialError::UsernamePattern));
    assert_eq!(username_validate("-alice"), Err(CredentialError::UsernamePattern));
    assert_eq!(username_validate("alice-"), Err(CredentialError::UsernamePattern));
    assert_eq!(username_validate("ab`"), Err(CredentialError::UsernamePattern));
    assert_eq!(username_validate("ab{"), Err(CredentialError::UsernamePattern));
    assert_eq!(username_validate("ab/"), Err(CredentialError::UsernamePattern));
    assert_eq!(username_validate("ab:"), Err(CredentialError::UsernamePattern));
}

#[test]
fn username_with_a_letter_beyond_ascii_is_refused() {
    // two characters, three bytes: long enough in bytes, outside the alphabet
    assert_eq!(username_validate("a\u{e9}"), Err(CredentialError::UsernamePattern));
    assert_eq!(username_validate("alic\u{e9}"), Err(CredentialError::UsernamePattern));
}

#[test]
fn username_length_counts_bytes() {
    // 26 characters of two bytes each
    assert_eq!(username_validate(&text('\u{e9}', 26)), Err(CredentialError::UsernameLength));
}

#[test]
fn password_of_eight_characters_with_all_classes_is_accepted() {
    assert_eq!(password_validate("Abcdefg1"), Ok(()));
}

#[test]
fn password_of_512_characters_is_accepted() {
    let mut p = String::from("aA1");
    p.push_str(&text('x', 509));
    assert_eq!(p.len(), 512);
    assert_eq!(password_validate(&p), Ok(()));
}

#[test]
fn password_of_seven_characters_is_refused() {
    assert_eq!(password_validate("Abcdef1"), Err(CredentialError::PasswordLength));
}

#[test]
fn password_of_513_characters_is_refused() {
    let mut p = String::from("aA1");
    p.push_str(&text('x', 510));
    assert_eq!(password_validate(&p), Err(CredentialError::PasswordLength));
}

#[test]
fn password_without_digit_is_refused() {
    assert_eq!(password_validate("Abcdefgh"), Err(CredentialError::PasswordWeak));
}

#[test]
fn password_without_uppercase_is_refused() {
    assert_eq!(password_validate("abcdefg1"), Err(CredentialError::PasswordWeak));
}

#[test]
fn password_without_lowercase_is_refused() {
    assert_eq!(password_validate("ABCDEFG1"), Err(CredentialError::PasswordWeak));
}

#[test]
fn long_password_without_a_class_is_refused() {
    assert_eq!(password_validate(&text('a', 500)), Err(CredentialError::PasswordWeak));
    let mut p = text('a', 250);
    p.push_str(&text('B', 250));
    assert_eq!(password_validate(&p), Err(CredentialError::PasswordWeak));
}

#[test]
fn password_may_hold_any_other_character() {
    assert_eq!(password_validate("aB3 !?\u{e9}\u{4e2d}"), Ok(()));
}

#[test]
fn password_length_counts_bytes() {
    // five characters, nine bytes
    assert_eq!(password_validate("aB3\u{4e2d}\u{4e2d}"), Ok(()));
    // seven characters, seven bytes
    assert_eq!(password_validate("aB3xxxx"), Err(CredentialError::PasswordLength));
}

#[test]
fn fault_codes_are_the_messages() {
    assert_eq!(CredentialError::UsernameLength.code(), "min=3, max=50");
    assert_eq!(CredentialError::UsernamePattern.code(), "Username must match ([a-z0-9_]+)");
    assert_eq!(CredentialError::PasswordLength.code(), "min=8 && max=512");
    assert_eq!(CredentialError::PasswordWeak.code(), "password is too weak");
}

fn registration(name: &str, username: &str, password: &str, email: &str) -> CreateDto {
    CreateDto {
        name: name.to_string(),
        username: username.to_string(),
        password: password.to_string(),
        email: email.to_string(),
        gender: None,
    }
}

#[test]
fn registration_with_good_fields_is_accepted() {
    let dto = registration("Alice", "alice", "Str0ngPass", "alice@example.com");
    assert_eq!(dto.validate(), Ok(()));
}

#[test]
fn registration_reports_each_refused_field_in_order() {
    let dto = registration("A", "Al", "weak", "a@b");
    assert_eq!(
        dto.validate(),
        Err("name: min=2, max=100\nusername: min=3, max=50\npassword: min=8 && max=512\nemail: min=5, max=100"
            .to_string())
    );
}

#[test]
fn registration_reports_one_refused_field() {
    let dto = registration("Alice", "al ice", "Str0ngPass", "alice@example.com");
    assert_eq!(dto.validate(), Err("username: Username must match ([a-z0-9_]+)".to_string()));
    let dto = registration("Alice", "alice", "weakpassword", "alice@example.com");
    assert_eq!(dto.validate(), Err("password: password is too weak".to_string()));
}

#[test]
fn registration_with_a_text_that_is_no_address_is_refused() {
    let dto = registration("Alice", "alice", "Str0ngPass", "not-an-address");
    assert_eq!(dto.validate(), Err("email: Validation error: email".to_string()));
    let dto = registration("Alice", "alice", "Str0ngPass", "a@");
    assert_eq!(dto.validate(), Err("email: min=5, max=100, Validation error: email".to_string()));
}

#[test]
fn registration_name_length_counts_characters() {
    // two characters, four bytes
    let dto = registration("\u{e9}\u{e9}", "alice", "Str0ngPass", "alice@example.com");
    assert_eq!(dto.validate(), Ok(()));
    let dto = registration(&text('n', 101), "alice", "Str0ngPass", "alice@example.com");
    assert_eq!(dto.validate(), Err("name: min=2, max=100".to_string()));
}

#[test]
fn login_input_is_checked_for_shape_only() {
    let dto = LoginDto { username: "alice".to_string(), password: "Str0ngPass".to_string() };
    assert_eq!(dto.validate(), Ok(()));
    let dto = LoginDto { username: "x".to_string(), password: "short".to_string() };
    assert_eq!(
        dto.validate(),
        Err("username: min=3, max=50\npassword: min=8 && max=512".to_string())
    );
}

#[test]
fn change_without_fields_has_nothing_to_refuse() {
    let dto = UpdateInfoDto { name: None, username: None, email: None, gender: None };
    assert_eq!(dto.validate(), Ok(()));
}

#[test]
fn change_checks_the_fields_that_are_given() {
    let dto = UpdateInfoDto {
        name: Some("B".to_string()),
        username: None,
        email: Some("bob@example.com".to_string()),
        gender: Some(true),
    };
    assert_eq!(dto.validate(), Err("name: min=2, max=100".to_string()));
    let dto = UpdateInfoDto {
        name: None,
        username: Some("Bob".to_string()),
        email: Some("bob".to_string()),
        gender: None,
    };
    assert_eq!(
        dto.validate(),
        Err("username: Username must match ([a-z0-9_]+)\nemail: min=5, max=100, Validation error: email"
            .to_string())
    );
}

#[test]
fn registration_can_be_checked_with_a_given_answer_on_the_address() {
    let dto = registration("Alice", "alice", "Str0ngPass", "alice@example.com");
    assert_eq!(dto.validate_with(true), Ok(()));
    assert_eq!(dto.validate_with(false), Err("email: Validation error: email".to_string()));
    let dto = registration("Alice", "alice", "Str0ngPass", "a@b");
    assert_eq!(dto.validate_with(true), Err("email: min=5, max=100".to_string()));
    assert_eq!(
        dto.validate_with(false),
        Err("email: min=5, max=100, Validation error: email".to_string())
    );
}

#[test]
fn change_can_be_checked_with_a_given_answer_on_the_address() {
    let dto = UpdateInfoDto {
        name: None,
        username: None,
        email: Some("bob@example.com".to_string()),
        gender: None,
    };
    assert_eq!(dto.validate_with(true), Ok(()));
    assert_eq!(dto.validate_with(false), Err("email: Validation error: email".to_string()));
    let dto = UpdateInfoDto { name: None, username: None, email: None, gender: Some(true) };
    assert_eq!(dto.validate_with(false), Ok(()));
}

#[test]
fn address_is_checked_as_a_form_would() {
    let good = ["alice@example.com", "a.b+c@sub.example.org", "x@y.zz"];
    for email in good {
        assert_eq!(registration("Alice", "alice", "Str0ngPass", email).validate(), Ok(()));
    }
    let bad = ["alice.example.com", "alice@", "@example.com", "al ice@example.com"];
    for email in bad {
        assert!(registration("Alice", "alice", "Str0ngPass", email).validate().is_err());
    }
}

#[test]
fn change_is_empty_when_it_gives_no_field() {
    let dto = UpdateInfoDto { name: None, username: None, email: None, gender: None };
    assert!(dto.is_empty());
    let dto = UpdateInfoDto { name: None, username: None, email: None, gender: Some(false) };
    assert!(!dto.is_empty());
    let dto = UpdateInfoDto {
        name: Some(String::new()),
        username: None,
        email: None,
        gender: None,
    };
    assert!(!dto.is_empty());
}
