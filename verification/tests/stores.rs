use auth_service::{
    BannedTokenStore, Email, HashmapTwoFACodeStore, HashmapUserStore, HashsetBannedTokenStore,
    LoginAttemptId, Password, TwoFACode, TwoFACodeStore, TwoFACodeStoreError, User, UserStore,
    UserStoreError,
};

#[test]
fn test_add_user() {
    let mut store = HashmapUserStore::default();
    let user = User::new(
        Email::parse("test@example.com".to_owned()).unwrap(),
        Password::parse("password".to_owned()).unwrap(),
        false,
    );
    assert!(store.add_user(user.clone()).is_ok());

    let result = store.add_user(user);
    assert_eq!(result, Err(UserStoreError::UserAlreadyExists));
}

#[test]
fn test_get_user_and_found() {
    let mut store = HashmapUserStore::default();
    let email = Email::parse("test@example.com".to_owned()).unwrap();

    let user = User {
        email: email.clone(),
        password: Password::parse("password".to_owned()).unwrap(),
        requires_2fa: false,
    };
    store.add_user(user.clone()).unwrap();

    let result = store.get_user(&user.email).unwrap();
    assert_eq!(result.email, user.email);
    assert_eq!(result.requires_2fa, user.requires_2fa);
    assert!(result.password_hash.matches(&user.password));
}

#[test]
fn test_get_user_and_not_found() {
    let store = HashmapUserStore::default();
    let user = User::new(
        Email::parse("test@example.com".to_owned()).unwrap(),
        Password::parse("password".to_owned()).unwrap(),
        false,
    );
    assert!(store.get_user(&user.email).is_err());
    assert_eq!(
        store.get_user(&user.email).unwrap_err(),
        UserStoreError::UserNotFound
    );
}

#[test]
fn test_validate_user_ok() {
    let mut store = HashmapUserStore::default();
    let user = User::new(
        Email::parse("test@example.com".to_owned()).unwrap(),
        Password::parse("password".to_owned()).unwrap(),
        false,
    );

    store.add_user(user.clone()).unwrap();

    assert!(store.validate_user(&user.email, &user.password).is_ok());
}

#[test]
fn test_validate_user_credentials_error() {
    let mut store = HashmapUserStore::default();
    let wrong_password = Password::parse("wrong_password".to_owned()).unwrap();
    let user = User::new(
        Email::parse("test@example.com".to_owned()).unwrap(),
        Password::parse("password".to_owned()).unwrap(),
        false,
    );
    store.add_user(user.clone()).unwrap();

    assert!(store.validate_user(&user.email, &wrong_password).is_err());
    assert_eq!(
        store.validate_user(&user.email, &wrong_password).unwrap_err(),
        UserStoreError::InvalidCredentials
    )
}

#[test]
fn test_add_token() {
    let mut store = HashsetBannedTokenStore::default();
    let token = "test_token".to_owned();

    let result = store.add_token(token.clone());

    assert!(result.is_ok());
    assert!(store.contains_token(&token).unwrap());
}

#[test]
fn test_contains_token() {
    let mut store = HashsetBannedTokenStore::default();
    let token = "test_token".to_owned();
    store.add_token(token.clone()).unwrap();

    let result = store.contains_token(&token);

    assert!(result.unwrap());
}

#[test]
fn test_contains_token_absent() {
    let store = HashsetBannedTokenStore::default();
    assert!(!store.contains_token("test_token").unwrap());
}

#[test]
fn two_fa_store_round_trip_and_overwrite() {
    let mut store = HashmapTwoFACodeStore::default();
    let email = Email::parse("test@example.com".to_owned()).unwrap();

    assert_eq!(
        store.get_code(&email).unwrap_err(),
        TwoFACodeStoreError::CodeNotFound
    );

    let id1 = LoginAttemptId::mint();
    let code1 = TwoFACode::parse("111111".to_owned()).unwrap();
    store
        .add_code(email.clone(), id1.clone(), code1.clone())
        .unwrap();
    let (got_id, got_code) = store.get_code(&email).unwrap();
    assert_eq!(got_id, id1);
    assert_eq!(got_code, code1);

    let id2 = LoginAttemptId::mint();
    let code2 = TwoFACode::parse("222222".to_owned()).unwrap();
    store
        .add_code(email.clone(), id2.clone(), code2.clone())
        .unwrap();
    let (got_id, got_code) = store.get_code(&email).unwrap();
    assert_eq!(got_id, id2);
    assert_eq!(got_code, code2);

    store.remove_code(&email).unwrap();
    assert!(store.get_code(&email).is_err());
    store.remove_code(&email).unwrap();
}

#[test]
fn stored_hash_rejects_another_password() {
    let mut store = HashmapUserStore::default();
    let user = User::new(
        Email::parse("test@example.com".to_owned()).unwrap(),
        Password::parse("password".to_owned()).unwrap(),
        false,
    );
    store.add_user(user.clone()).unwrap();
    let stored = store.get_user(&user.email).unwrap();
    let other = Password::parse("password2".to_owned()).unwrap();
    assert!(!stored.password_hash.matches(&other));
}
