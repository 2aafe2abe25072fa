use asana::response::{round_trip_value, ParseError};
use asana::schema::{FromJson, UserCompact};
use asana::Response;

fn test_value_resp() -> &'static str {
    return r#"{
            "data": {
                "gid": "12345",
                "resource_type": "user",
                "name": "Greg Sanchez"
            }
        }"#;
}

fn test_vector_resp() -> &'static str {
    return r#"{
            "data": [
                {
                    "gid": "12345",
                    "resource_type": "user",
                    "name": "Greg Sanchez"
                },
                {
                    "gid": "54321",
                    "resource_type": "user",
                    "name": "Luke Lastname"
                }
            ]
        }"#;
}

fn test_error_resp() -> &'static str {
    return r#"{
            "errors": [
                {
                    "help": "For more information on API status codes and how to handle them, read the docs on errors: https://asana.github.io/developer-docs/#errors'",
                    "message": "project: Missing input",
                    "phrase": "6 sad squid snuggle softly"
                }
            ]
        }"#;
}

#[test]
fn test_basic_deserialize_value() {
    let payload = test_value_resp();
    let resp = Response::from_text(payload);
    assert!(resp.is_ok());
}

#[test]
fn test_basic_deserialize_vector() {
    let payload = test_vector_resp();
    let resp = Response::from_text(payload);
    assert!(resp.is_ok());
}

#[test]
fn test_basic_deserialize_errors() {
    let payload = test_error_resp();
    let resp = Response::from_text(payload);
    assert!(resp.is_ok());
}

#[test]
fn test_deserialize_to_resource() {
    let payload = test_value_resp();
    let resp = Response::from_text(payload).unwrap();
    let resource = resp.into::<UserCompact>().unwrap();
    assert_eq!(resource.name, "Greg Sanchez");
    assert_eq!(resource.gid, "12345");
}

#[test]
fn test_deserialize_to_vector_resources() {
    let payload = test_vector_resp();
    let resp = Response::from_text(payload).unwrap();
    let resources = resp.into_vec::<UserCompact>().unwrap();
    assert_eq!(resources.len(), 2);
    assert_eq!(resources[0].name, "Greg Sanchez");
    assert_eq!(resources[0].gid, "12345");
}

#[test]
fn test_deserialize_asana_errors() {
    let payload = test_error_resp();
    let resp = Response::from_text(payload).unwrap();
    let errors = resp.into::<UserCompact>().unwrap_err();
    assert_eq!(errors.len(), 1);
    let first_error = errors[0].clone();
    assert_eq!(first_error.message.unwrap(), "project: Missing input");
}

#[test]
fn test_get_value() {
    let payload = test_value_resp();
    let resp = Response::from_text(payload).unwrap();
    if let Some(user) = resp.value::<UserCompact>() {
        assert_eq!(user.name, "Greg Sanchez");
    } else {
        assert!(false);
    }
    assert!(resp.errors().is_none());
}

#[test]
fn test_get_vector_values() {
    let payload = test_vector_resp();
    let resp = Response::from_text(payload).unwrap();
    if let Some(users) = resp.values::<UserCompact>() {
        assert_eq!(users.len(), 2);
        assert_eq!(users[0].name, "Greg Sanchez");
    } else {
        assert!(false);
    }
    assert!(resp.errors().is_none());
}

#[test]
fn test_get_errors() {
    let payload = test_error_resp();
    let resp = Response::from_text(payload).unwrap();
    assert!(resp.values::<UserCompact>().is_none());
    if let Some(errors) = resp.errors() {
        assert_eq!(errors.len(), 1);
    } else {
        assert!(false);
    }
}

#[test]
fn test_value_to_values() {
    // This returns a single value, not a vector
    let payload = test_value_resp();
    let resp = Response::from_text(payload).unwrap();
    // values() should convert it to a vector of one item
    if let Some(users) = resp.values::<UserCompact>() {
        assert_eq!(users.len(), 1);
        assert_eq!(users[0].name, "Greg Sanchez");
    } else {
        assert!(false);
    }
}

#[test]
fn test_empty_return_vector() {
    let payload = r#"{ "data": [] }"#;
    let resp = Response::from_text(payload).unwrap();
    let items = resp.values::<UserCompact>();
    assert!(items.is_some());
    assert_eq!(items.unwrap().len(), 0);
}

#[test]
fn scenario_single_user_compact() {
    let payload = r#"{"data":{"gid":"12345","resource_type":"user","name":"Greg Sanchez"}}"#;
    let resp = Response::from_text(payload).unwrap();
    let user = resp.value::<UserCompact>().unwrap();
    assert_eq!(user.gid, "12345");
    assert_eq!(user.resource_type, "user");
    assert_eq!(user.name, "Greg Sanchez");
}

#[test]
fn scenario_single_error_message() {
    let payload = r#"{"errors":[{"message":"project: Missing input"}]}"#;
    let resp = Response::from_text(payload).unwrap();
    let errors = resp.errors().unwrap();
    assert_eq!(errors.len(), 1);
    assert_eq!(errors[0].message.as_deref(), Some("project: Missing input"));
    assert!(errors[0].help.is_none());
    assert!(errors[0].phrase.is_none());
}

#[test]
fn missing_errors_key_reads_as_no_errors() {
    let resp = Response::from_text(r#"{}"#).unwrap();
    assert!(resp.errors().is_none());
}

#[test]
fn missing_data_key_reads_as_null() {
    let resp = Response::from_text(r#"{"errors":[]}"#).unwrap();
    assert!(resp.value::<UserCompact>().is_none());
    assert!(resp.values::<UserCompact>().is_none());
    assert!(resp.errors().is_none());
}

#[test]
fn errors_take_precedence_over_data() {
    let payload = r#"{
        "data": {"gid": "1", "resource_type": "user", "name": "A"},
        "errors": [{"message": "broken"}]
    }"#;
    let resp = Response::from_text(payload).unwrap();
    let errors = resp.into::<UserCompact>().unwrap_err();
    assert_eq!(errors.len(), 1);
    assert_eq!(errors[0].message.as_deref(), Some("broken"));
}

#[test]
fn shape_mismatch_reads_as_absent() {
    let resp = Response::from_text(r#"{"data": "a string"}"#).unwrap();
    assert!(resp.value::<UserCompact>().is_none());
    assert!(resp.values::<UserCompact>().is_none());
    let errors = resp.into::<UserCompact>().unwrap_err();
    assert_eq!(errors.len(), 0);
}

#[test]
fn invalid_json_is_rejected() {
    let resp = Response::from_text("not json at all {");
    assert_eq!(resp.unwrap_err(), ParseError::NotJson);
}

#[test]
fn non_object_reply_is_rejected() {
    let resp = Response::from_text("[1, 2, 3]");
    assert_eq!(resp.unwrap_err(), ParseError::BadEnvelope);
}

#[test]
fn malformed_errors_key_is_rejected() {
    let resp = Response::from_text(r#"{"errors": "nope"}"#);
    assert_eq!(resp.unwrap_err(), ParseError::BadEnvelope);
    let resp = Response::from_text(r#"{"errors": null}"#);
    assert_eq!(resp.unwrap_err(), ParseError::BadEnvelope);
    let resp = Response::from_text(r#"{"errors": ["not an object"]}"#);
    assert_eq!(resp.unwrap_err(), ParseError::BadEnvelope);
}

#[test]
fn round_trip_matches_direct_extraction() {
    let payload = r#"{"data":{"gid":"12345","resource_type":"user","name":"Greg Sanchez","rank":42}}"#;
    let resp = Response::from_text(payload).unwrap();
    let (direct, reread) = round_trip_value::<UserCompact>(&resp).unwrap();
    let direct = direct.unwrap();
    let reread = reread.unwrap();
    assert_eq!(direct.gid, reread.gid);
    assert_eq!(direct.resource_type, reread.resource_type);
    assert_eq!(direct.name, reread.name);
    assert_eq!(reread.name, "Greg Sanchez");
}

#[test]
fn round_trip_declines_non_integer_numbers() {
    let payload = r#"{"data":{"gid":"1","resource_type":"user","name":"A","score":1.5}}"#;
    let resp = Response::from_text(payload).unwrap();
    assert!(round_trip_value::<UserCompact>(&resp).is_none());
}

#[test]
fn round_trip_handles_signed_and_large_integers() {
    let payload =
        r#"{"data":{"gid":"1","resource_type":"user","name":"A","big":9999999999999999999,"low":-42}}"#;
    let resp = Response::from_text(payload).unwrap();
    assert!(round_trip_value::<UserCompact>(&resp).is_some());
    let resp = Response::from_text(r#"{"data":{"n":99999999999999999999}}"#).unwrap();
    assert!(round_trip_value::<UserCompact>(&resp).is_none());
}

#[test]
fn serializing_data_produces_json_text() {
    let resp = Response::from_text(r#"{"data": {"b": 7, "a": "x"}}"#).unwrap();
    let text = asana::json::to_text(&resp.data).unwrap();
    assert_eq!(text, r#"{"a":"x","b":7}"#);
    let reparsed = asana::json::parse_text(&text);
    assert!(reparsed.is_some());
}

#[test]
fn from_json_reads_the_given_document() {
    let v = asana::json::parse_text(r#"{"gid":"9","resource_type":"user","name":"N"}"#).unwrap();
    let user = UserCompact::from_json(&v).unwrap();
    assert_eq!(user.gid, "9");
    let missing = asana::json::parse_text(r#"{"gid":"9"}"#).unwrap();
    assert!(UserCompact::from_json(&missing).is_none());
}
