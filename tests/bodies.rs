use firebase_admin::request::Project;
use firebase_admin::wire::{WireField, WireValue};
use firebase_admin::{CreateUserParams, UpdateUserParams};

fn field<'a>(body: &'a [WireField], name: &str) -> Option<&'a WireValue> {
    body.iter().find(|f| f.key.name() == name).map(|f| &f.value)
}

fn text<'a>(body: &'a [WireField], name: &str) -> Option<&'a str> {
    match field(body, name) {
        Some(WireValue::Text(s)) => Some(s.as_str()),
        _ => None,
    }
}

fn list(body: &[WireField], name: &str) -> Option<Vec<String>> {
    match field(body, name) {
        Some(WireValue::TextList(v)) => Some(v.clone()),
        _ => None,
    }
}

fn names(body: &[WireField]) -> Vec<&'static str> {
    body.iter().map(|f| f.key.name()).collect()
}

#[test]
fn create_body_renames_fields() {
    let params = CreateUserParams::builder()
        .uid("abc")
        .display_name("Jon Snow")
        .email("jon.snow@example.com")
        .build()
        .unwrap();
    let body = params.account().to_body();
    assert_eq!(names(&body), vec!["localId", "displayName", "email", "emailVerified"]);
    assert_eq!(text(&body, "localId"), Some("abc"));
    assert_eq!(text(&body, "displayName"), Some("Jon Snow"));
    assert!(matches!(field(&body, "emailVerified"), Some(WireValue::Bool(false))));
}

#[test]
fn update_set_display_name() {
    let params = UpdateUserParams::builder().display_name("X").build().unwrap();
    let body = params.changes().to_body("uid-1");
    assert_eq!(text(&body, "displayName"), Some("X"));
    assert!(field(&body, "deleteAttribute").is_none());
    assert_eq!(names(&body), vec!["localId", "displayName"]);
}

#[test]
fn update_remove_phone_number() {
    let params = UpdateUserParams::builder().remove_phone_number().build().unwrap();
    let body = params.changes().to_body("uid-1");
    assert!(field(&body, "phoneNumber").is_none());
    assert_eq!(list(&body, "deleteProvider"), Some(vec!["phone".to_string()]));
    assert!(field(&body, "deleteAttribute").is_none());
}

#[test]
fn update_unset_fields_absent() {
    let params = UpdateUserParams::builder().email_verified(true).build().unwrap();
    let body = params.changes().to_body("uid-1");
    assert_eq!(names(&body), vec!["localId", "emailVerified"]);
    assert!(matches!(field(&body, "emailVerified"), Some(WireValue::Bool(true))));
    for name in ["disableUser", "displayName", "email", "phoneNumber", "password"] {
        assert!(field(&body, name).is_none());
    }
}

#[test]
fn update_without_removals_has_no_deletion_lists() {
    let params = UpdateUserParams::builder()
        .disable(true)
        .email("new@example.com")
        .password("pw")
        .build()
        .unwrap();
    let body = params.changes().to_body("uid-1");
    assert!(field(&body, "deleteAttribute").is_none());
    assert!(field(&body, "deleteProvider").is_none());
    assert_eq!(names(&body), vec!["localId", "disableUser", "email", "password"]);
}

#[test]
fn update_remove_attributes() {
    let params = UpdateUserParams::builder()
        .remove_email()
        .remove_display_name()
        .build()
        .unwrap();
    let body = params.changes().to_body("uid-1");
    assert_eq!(
        list(&body, "deleteAttribute"),
        Some(vec!["DISPLAY_NAME".to_string(), "EMAIL".to_string()])
    );
    assert!(field(&body, "deleteProvider").is_none());
}

#[test]
fn method_urls() {
    let project = Project::new("my-project");
    assert_eq!(project.project_id(), "my-project");
    assert_eq!(
        project.method_url("accounts:lookup"),
        "https://identitytoolkit.googleapis.com/v1/projects/my-project/accounts:lookup"
    );
    let request = project.lookup_request("u1");
    assert_eq!(list(&request.body, "localId"), Some(vec!["u1".to_string()]));
    let request = project.delete_request("u1");
    assert_eq!(
        request.url,
        "https://identitytoolkit.googleapis.com/v1/projects/my-project/accounts:delete"
    );
    assert_eq!(text(&request.body, "localId"), Some("u1"));
}
