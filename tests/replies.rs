use firebase_admin::authentication::User;
use firebase_admin::client::{CallState, Expect, Payload, Reply, Step};
use firebase_admin::reply::{parse_created_at, UserRecordData};
use firebase_admin::request::Project;
use firebase_admin::wire::{WireField, WireValue};
use firebase_admin::{handle_error_response, AuthError, CreateUserParams, UserRecord};

fn data(id: &str, created_at: &str) -> UserRecordData {
    UserRecordData {
        local_id: id.to_string(),
        created_at: created_at.to_string(),
        valid_since: "1700000000".to_string(),
        display_name: Some("Jon Snow".to_string()),
        email: "jon.snow@example.com".to_string(),
        email_verified: false,
        phone_number: None,
        disabled: false,
    }
}

fn text<'a>(body: &'a [WireField], name: &str) -> Option<&'a str> {
    body.iter().find(|f| f.key.name() == name).and_then(|f| match &f.value {
        WireValue::Text(s) => Some(s.as_str()),
        _ => None,
    })
}

#[test]
fn created_at_parses_to_timestamp() {
    let record = UserRecord::try_from_data(data("u1", "1700000000000")).unwrap();
    assert_eq!(record.created_at.millis, 1_700_000_000_000);
    assert_eq!(record.uid, "u1");
    assert_eq!(record.display_name.as_deref(), Some("Jon Snow"));
}

#[test]
fn created_at_not_numeric_is_decode_error() {
    let err = UserRecord::try_from_data(data("u1", "yesterday")).unwrap_err();
    assert!(matches!(&err, AuthError::Decode(_)));
    assert_eq!(err.text(), "failed to parse 'created_at' as i64");
}

#[test]
fn created_at_edge_forms() {
    assert_eq!(parse_created_at("-5").unwrap().millis, -5);
    assert_eq!(parse_created_at("+5").unwrap().millis, 5);
    assert_eq!(parse_created_at("-9223372036854775808").unwrap().millis, i64::MIN);
    assert!(parse_created_at("9223372036854775808").is_err());
    assert!(parse_created_at(" 5").is_err());
    assert!(parse_created_at("").is_err());
    assert!(parse_created_at("-").is_err());
}

#[test]
fn lookup_without_users_is_not_found() {
    assert!(matches!(UserRecord::from_lookup(None), Err(AuthError::NotFound)));
    assert!(matches!(UserRecord::from_lookup(Some(Vec::new())), Err(AuthError::NotFound)));
    assert_eq!(AuthError::NotFound.text(), "not found");
}

#[test]
fn lookup_takes_first_user() {
    let users = vec![data("first", "1"), data("second", "2")];
    let user = User::from_lookup(Some(users)).unwrap();
    assert_eq!(user.id, "first");
    assert_eq!(user.created_at.millis, 1);
}

#[test]
fn service_error_text_is_message() {
    let err = handle_error_response(400, Some("EMAIL_EXISTS".to_string())).unwrap_err();
    assert_eq!(err.text(), "EMAIL_EXISTS");
    assert!(matches!(err, AuthError::Service { status: 400, .. }));
}

#[test]
fn error_status_without_message_is_decode_error() {
    let err = handle_error_response(500, None).unwrap_err();
    assert!(matches!(&err, AuthError::Decode(_)));
    assert_eq!(err.text(), "failed to parse response");
}

#[test]
fn success_statuses_pass() {
    assert!(handle_error_response(200, None).is_ok());
    assert!(handle_error_response(299, Some("ignored".to_string())).is_ok());
    assert!(handle_error_response(300, None).is_err());
    assert!(handle_error_response(199, None).is_err());
}

#[test]
fn create_round_trip() {
    let params = CreateUserParams::builder()
        .uid("user-7")
        .display_name("Jon Snow")
        .email("jon.snow@example.com")
        .phone_number("+1 (234) 567-8910")
        .build()
        .unwrap();
    let body = params.account().to_body();
    let stored = UserRecordData {
        local_id: text(&body, "localId").unwrap().to_string(),
        created_at: "1700000000000".to_string(),
        valid_since: "1700000000".to_string(),
        display_name: text(&body, "displayName").map(str::to_string),
        email: text(&body, "email").unwrap().to_string(),
        email_verified: false,
        phone_number: text(&body, "phoneNumber").map(str::to_string),
        disabled: false,
    };
    let record = UserRecord::try_from_data(stored).unwrap();
    assert_eq!(record.uid, "user-7");
    assert_eq!(record.email, "jon.snow@example.com");
    assert_eq!(record.display_name.as_deref(), Some("Jon Snow"));
    assert_eq!(record.phone_number.as_deref(), Some("+1 (234) 567-8910"));
    assert!(!record.email_verified);
}

#[test]
fn create_call_looks_up_assigned_id() {
    let project = Project::new("p");
    let params = CreateUserParams::builder().uid("u").email("e@x").build().unwrap();
    let (state, request) = match project.start_create(params.account()) {
        Step::Send { state, request } => (state, request),
        _ => panic!("expected a request"),
    };
    assert_eq!(request.url, "https://identitytoolkit.googleapis.com/v1/projects/p/accounts");
    assert_eq!(state.expected(), Expect::LocalId);
    let reply = Reply::Answered {
        status: 200,
        error_message: None,
        payload: Some(Payload::LocalId("assigned".to_string())),
    };
    match project.step(state, reply) {
        Step::Send { state: CallState::Looking { id }, request } => {
            assert_eq!(id, "assigned");
            assert!(request.url.ends_with("/projects/p/accounts:lookup"));
        }
        other => panic!("unexpected step {:?}", other),
    }
}

#[test]
fn update_call_looks_up_same_id() {
    let project = Project::new("p");
    let reply = Reply::Answered { status: 200, error_message: None, payload: None };
    match project.step(CallState::Updating { id: "u9".to_string() }, reply) {
        Step::Send { state: CallState::Looking { id }, .. } => assert_eq!(id, "u9"),
        other => panic!("unexpected step {:?}", other),
    }
}

#[test]
fn lookup_call_ends_with_record() {
    let project = Project::new("p");
    let reply = Reply::Answered {
        status: 200,
        error_message: None,
        payload: Some(Payload::Users(Some(vec![data("u1", "42")]))),
    };
    match project.step(CallState::Looking { id: "u1".to_string() }, reply) {
        Step::Account(Ok(record)) => assert_eq!(record.created_at.millis, 42),
        other => panic!("unexpected step {:?}", other),
    }
}

#[test]
fn delete_call_outcomes() {
    let project = Project::new("p");
    let ok = Reply::Answered { status: 200, error_message: None, payload: Some(Payload::Empty) };
    assert!(matches!(project.step(CallState::Deleting, ok), Step::Deleted(Ok(()))));
    let failed = Reply::Answered {
        status: 400,
        error_message: Some("USER_NOT_FOUND".to_string()),
        payload: None,
    };
    match project.step(CallState::Deleting, failed) {
        Step::Deleted(Err(e)) => assert_eq!(e.text(), "USER_NOT_FOUND"),
        other => panic!("unexpected step {:?}", other),
    }
    let transport = Reply::Failed(AuthError::Transport("connection reset".to_string()));
    match project.step(CallState::Creating, transport) {
        Step::Account(Err(AuthError::Transport(m))) => assert_eq!(m, "connection reset"),
        other => panic!("unexpected step {:?}", other),
    }
}

#[test]
fn token_failure_ends_call() {
    let project = Project::new("p");
    let failed = Reply::Failed(AuthError::Authentication("no credentials".to_string()));
    match project.step(CallState::Deleting, failed) {
        Step::Deleted(Err(e)) => {
            assert!(matches!(&e, AuthError::Authentication(_)));
            assert_eq!(e.text(), "no credentials");
        }
        other => panic!("unexpected step {:?}", other),
    }
}

#[test]
fn lookup_reply_of_wrong_shape_is_decode_error() {
    let project = Project::new("p");
    let reply = Reply::Answered { status: 200, error_message: None, payload: None };
    match project.step(CallState::Looking { id: "u".to_string() }, reply) {
        Step::Account(Err(e)) => assert_eq!(e.text(), "failed to parse response"),
        other => panic!("unexpected step {:?}", other),
    }
}
