use asana::json::parse_text;
use asana::schema::{
    AsanaNamedResource, AsanaResource, Errors, FromJson, User, UserCompact, Workspace,
};
use asana::Response;

#[test]
fn test_asana_named_resource() {
    let raw = r#"{
            "gid": "12345",
            "resource_type": "task",
            "name": "Bug Task"
        }"#;

    let v = parse_text(raw).unwrap();
    let resource = AsanaNamedResource::from_json(&v).unwrap();
    assert_eq!(resource.name, "Bug Task");
    assert_eq!(resource.resource_type, "task");
}

#[test]
fn test_asana_resource() {
    let raw = r#"{
            "gid": "12345",
            "resource_type": "task"
        }"#;

    let v = parse_text(raw).unwrap();
    let resource = AsanaResource::from_json(&v).unwrap();
    assert_eq!(resource.resource_type, "task");
    assert_eq!(resource.gid, "12345");
}

#[test]
fn test_workspace() {
    let raw = r#"{
            "gid": "12345",
            "resource_type": "workspace",
            "name": "My Company Workspace",
            "email_domains": [
              "asana.com"
            ],
            "is_organization": false
          }"#;

    let v = parse_text(raw).unwrap();
    let ws = Workspace::from_json(&v).unwrap();
    assert_eq!(ws.resource_type, "workspace");
    assert_eq!(ws.gid, "12345");
    assert_eq!(ws.email_domains.unwrap().len(), 1);
    assert!(!ws.is_organization.unwrap());
}

#[test]
fn test_user() {
    let raw = r#"{
            "gid": "12345",
            "resource_type": "user",
            "name": "Greg Sanchez",
            "email": "gsanchez@example.com",
            "photo": {
              "image_128x128": "https://...",
              "image_21x21": "https://...",
              "image_27x27": "https://...",
              "image_36x36": "https://...",
              "image_60x60": "https://..."
            },
            "workspaces": [
              {
                "gid": "12345",
                "resource_type": "workspace",
                "name": "My Company Workspace"
              }
            ]
          }"#;

    let v = parse_text(raw).unwrap();
    let user = User::from_json(&v).unwrap();
    assert_eq!(user.name, "Greg Sanchez");
    assert_eq!(user.gid, "12345");
    assert_eq!(user.photo.unwrap().image_128x128, "https://...");
    assert_eq!(user.workspaces[0].resource_type, "workspace");
}

#[test]
fn test_error() {
    let raw = r#"{
            "errors": [
              {
                "help": "For more information on API status codes and how to handle them, read the docs on errors: https://asana.github.io/developer-docs/#errors'",
                "message": "project: Missing input",
                "phrase": "6 sad squid snuggle softly"
              }
            ]
          }"#;

    let v = parse_text(raw).unwrap();
    let errors = Errors::from_json(&v).unwrap();
    assert_eq!(errors.errors.len(), 1);
    assert!(errors.errors[0].help.is_some());
    assert!(errors.errors[0].message.is_some());
    assert!(errors.errors[0].phrase.is_some());
}

#[test]
fn test_deserialize_single_payload() {
    let payload_str = r#"{
            "data": {
              "gid": "12345",
              "resource_type": "user",
              "name": "Greg Sanchez",
              "email": "gsanchez@example.com",
              "photo": {
                "image_128x128": "https://...",
                "image_21x21": "https://...",
                "image_27x27": "https://...",
                "image_36x36": "https://...",
                "image_60x60": "https://..."
              },
              "workspaces": [
                {
                  "gid": "12345",
                  "resource_type": "workspace",
                  "name": "My Company Workspace"
                }
              ]
            }
          }"#;

    let payload = Response::from_text(payload_str);
    assert!(payload.is_ok());
}

#[test]
fn test_deserialize_vector_payload() {
    let payload_str = r#"{
            "data": [
              {
                "gid": "12345",
                "resource_type": "task",
                "name": "Bug Task"
              }
            ]
          }"#;

    let payload = Response::from_text(payload_str);
    assert!(payload.is_ok());
    assert!(payload.unwrap().values::<AsanaNamedResource>().unwrap().len() == 1);
}

#[test]
fn optional_fields_read_as_absent_when_null() {
    let v = parse_text(r#"{"message": null, "help": "h"}"#).unwrap();
    let error = asana::schema::Error::from_json(&v).unwrap();
    assert!(error.message.is_none());
    assert_eq!(error.help.as_deref(), Some("h"));
    assert!(error.phrase.is_none());
}

#[test]
fn wrongly_shaped_fields_fail_the_decode() {
    let v = parse_text(r#"{"gid": 5, "resource_type": "task"}"#).unwrap();
    assert!(AsanaResource::from_json(&v).is_none());
    let v = parse_text(r#"{"message": 7}"#).unwrap();
    assert!(asana::schema::Error::from_json(&v).is_none());
    let v = parse_text(r#"{"gid": "1", "resource_type": "workspace", "name": "W", "email_domains": ["a", 3]}"#)
        .unwrap();
    assert!(Workspace::from_json(&v).is_none());
}

#[test]
fn unknown_fields_are_ignored() {
    let v = parse_text(r#"{"gid": "1", "resource_type": "task", "extra": [1, 2]}"#).unwrap();
    let resource = AsanaResource::from_json(&v).unwrap();
    assert_eq!(resource.gid, "1");
}

#[test]
fn user_without_workspaces_fails_the_decode() {
    let v = parse_text(
        r#"{"gid": "1", "resource_type": "user", "name": "N", "email": "e@example.com"}"#,
    )
    .unwrap();
    assert!(User::from_json(&v).is_none());
}
