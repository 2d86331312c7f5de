use firebase_admin::authentication::{UserConfig, UserUpdate};
use firebase_admin::{AuthError, CreateUserParams, UpdateUserParams};

#[test]
fn create_params_apply_defaults() {
    let params = CreateUserParams::builder()
        .uid("user-1")
        .email("jon.snow@example.com")
        .build()
        .unwrap();
    let account = params.account();
    assert_eq!(account.local_id, "user-1");
    assert_eq!(account.email, "jon.snow@example.com");
    assert_eq!(account.display_name, None);
    assert!(!account.email_verified);
    assert_eq!(account.phone_number, None);
    assert_eq!(account.password, None);
}

#[test]
fn create_params_keep_given_fields() {
    let params = CreateUserParams::builder()
        .uid("user-2")
        .display_name("Jon Snow")
        .email("jon.snow@example.com")
        .email_verified(true)
        .phone_number("+1 (234) 567-8910")
        .password("hunter2")
        .build()
        .unwrap();
    let account = params.account();
    assert_eq!(account.display_name.as_deref(), Some("Jon Snow"));
    assert!(account.email_verified);
    assert_eq!(account.phone_number.as_deref(), Some("+1 (234) 567-8910"));
    assert_eq!(account.password.as_deref(), Some("hunter2"));
}

#[test]
fn create_params_require_uid() {
    let err = CreateUserParams::builder().email("a@example.com").build().unwrap_err();
    assert!(matches!(&err, AuthError::MissingField(name) if name == "uid"));
    assert_eq!(err.text(), "`uid` must be initialized");
}

#[test]
fn create_params_require_email() {
    let err = CreateUserParams::builder().uid("u").display_name("n").build().unwrap_err();
    assert!(matches!(&err, AuthError::MissingField(name) if name == "email"));
    assert_eq!(err.text(), "`email` must be initialized");
}

#[test]
fn user_config_requires_id() {
    let err = UserConfig::builder().email("a@example.com").build().unwrap_err();
    assert!(matches!(&err, AuthError::MissingField(name) if name == "id"));
    let config = UserConfig::builder().id("x").email("a@example.com").build().unwrap();
    assert_eq!(config.account().local_id, "x");
}

#[test]
fn set_and_remove_share_a_slot() {
    let params = UpdateUserParams::builder()
        .display_name("first")
        .remove_display_name()
        .build()
        .unwrap();
    assert_eq!(params.changes().deleted_attributes(), vec!["DISPLAY_NAME".to_string()]);
    let params = UpdateUserParams::builder()
        .remove_display_name()
        .display_name("second")
        .build()
        .unwrap();
    assert!(params.changes().deleted_attributes().is_empty());
}

#[test]
fn removals_split_between_attributes_and_providers() {
    let params = UserUpdate::builder()
        .remove_display_name()
        .remove_email()
        .remove_phone_number()
        .build()
        .unwrap();
    assert_eq!(
        params.changes().deleted_attributes(),
        vec!["DISPLAY_NAME".to_string(), "EMAIL".to_string()]
    );
    assert_eq!(params.changes().deleted_providers(), vec!["phone".to_string()]);
}
