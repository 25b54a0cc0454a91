use gcm::json::{parse_json, JsonNumber, JsonValue};
use gcm::{GcmError, GcmResponse, Message, MessageResult};

#[test]
fn server_error_range() {
    assert_eq!(Message::parse_response(503, "x").err().unwrap(), GcmError::ServerError);
    assert_eq!(Message::parse_response(599, "").err().unwrap(), GcmError::ServerError);
}

#[test]
fn transport_failure_is_a_server_error() {
    assert_eq!(
        Message::parse_response(500, "Server Error").err().unwrap(),
        GcmError::ServerError
    );
}

#[test]
fn unknown_status_names_the_status() {
    assert_eq!(
        Message::parse_response(302, "moved").err().unwrap(),
        GcmError::InvalidMessage("Unknown Error (status 302)".to_string())
    );
    assert_eq!(
        Message::parse_response(600, "").err().unwrap(),
        GcmError::InvalidMessage("Unknown Error (status 600)".to_string())
    );
    assert_eq!(
        Message::parse_response(404, "").err().unwrap(),
        GcmError::InvalidMessage("Unknown Error (status 404)".to_string())
    );
}

#[test]
fn success_with_a_body_that_is_not_json() {
    assert_eq!(
        Message::parse_response(200, "not json").err().unwrap(),
        GcmError::InvalidResponseBody
    );
}

#[test]
fn success_with_a_body_that_is_no_object() {
    assert_eq!(
        Message::parse_response(200, "[1, 2]").err().unwrap(),
        GcmError::InvalidResponseBody
    );
}

#[test]
fn success_with_a_field_of_the_wrong_type() {
    assert_eq!(
        Message::parse_response(200, r#"{"message_id": "x"}"#).err().unwrap(),
        GcmError::InvalidResponseBody
    );
    assert_eq!(
        Message::parse_response(200, r#"{"results": [{"registration_id": -1}]}"#)
            .err()
            .unwrap(),
        GcmError::InvalidResponseBody
    );
}

#[test]
fn every_response_field() {
    let body = r#"{"multicast_id": -7, "success": 1, "failure": 2, "canonical_ids": 3,
        "error": "Unavailable", "message_id": null, "extra": {"nested": [1, 2]}}"#;
    let r = Message::parse_response(200, body).unwrap();
    assert_eq!(r.multicast_id, Some(-7));
    assert_eq!(r.success, Some(1));
    assert_eq!(r.failure, Some(2));
    assert_eq!(r.canonical_ids, Some(3));
    assert_eq!(r.error, Some("Unavailable".to_string()));
    assert_eq!(r.message_id, None);
    assert!(r.results.is_none());
}

#[test]
fn placeholder_message_id_is_absent() {
    let body = r#"{"multicast_id": 1, "results": [
        {"message_id": "fake_message_id", "registration_id": 5},
        {"message_id": 12, "error": "NotRegistered"},
        {"message_id": -3}
    ]}"#;
    let r = Message::parse_response(200, body).unwrap();
    let results = r.results.unwrap();
    assert_eq!(results.len(), 3);
    assert_eq!(results[0].message_id, None);
    assert_eq!(results[0].registration_id, Some(5));
    assert_eq!(results[1].message_id, Some(12));
    assert_eq!(results[1].error, Some("NotRegistered".to_string()));
    assert_eq!(results[2].message_id, None);
}

#[test]
fn results_read_from_a_model() {
    let j = JsonValue::Object(vec![
        ("message_id".to_string(), JsonValue::Str("p".to_string())),
        ("registration_id".to_string(), JsonValue::Number(JsonNumber { unsigned: Some(9), signed: Some(9) })),
    ]);
    let r = MessageResult::from_json(&j).unwrap();
    assert_eq!(r.message_id, None);
    assert_eq!(r.registration_id, Some(9));
    assert_eq!(r.error, None);
    assert!(MessageResult::from_json(&JsonValue::Null).is_none());
}

#[test]
fn response_read_from_a_model() {
    let j = JsonValue::Object(vec![(
        "multicast_id".to_string(),
        JsonValue::Number(JsonNumber { unsigned: Some(u64::MAX), signed: None }),
    )]);
    assert_eq!(GcmResponse::from_json(&j).err().unwrap(), GcmError::InvalidResponseBody);
    let j = JsonValue::Object(vec![(
        "success".to_string(),
        JsonValue::Number(JsonNumber { unsigned: None, signed: None }),
    )]);
    assert_eq!(GcmResponse::from_json(&j).err().unwrap(), GcmError::InvalidResponseBody);
}

#[test]
fn json_documents_parse_into_the_model() {
    assert_eq!(parse_json("null"), Some(JsonValue::Null));
    assert_eq!(parse_json("true"), Some(JsonValue::Bool(true)));
    assert_eq!(parse_json("-4"), Some(JsonValue::Number(JsonNumber { unsigned: None, signed: Some(-4) })));
    assert_eq!(parse_json("1.5"), Some(JsonValue::Number(JsonNumber { unsigned: None, signed: None })));
    assert_eq!(
        parse_json(r#"["a", {"b": 1}]"#),
        Some(JsonValue::Array(vec![
            JsonValue::Str("a".to_string()),
            JsonValue::Object(vec![(
                "b".to_string(),
                JsonValue::Number(JsonNumber { unsigned: Some(1), signed: Some(1) })
            )]),
        ]))
    );
    assert_eq!(parse_json("{"), None);
    assert_eq!(
        parse_json("18446744073709551615"),
        Some(JsonValue::Number(JsonNumber { unsigned: Some(u64::MAX), signed: None }))
    );
}

#[test]
fn error_texts() {
    assert_eq!(GcmError::Unauthorized.to_string(), "UnauthorizedError");
    assert_eq!(GcmError::ServerError.to_string(), "ServerError");
    assert_eq!(GcmError::InvalidResponseBody.to_string(), "InvalidJsonBody");
    assert_eq!(GcmError::InvalidResponseBody.description(), "InvalidJsonBody");
    assert_eq!(
        GcmError::InvalidMessage("bad".to_string()).to_string(),
        "InvalidMessage: bad"
    );
    assert_eq!(GcmError::InvalidMessage("bad".to_string()).description(), "InvalidMessage");
    assert_eq!(GcmError::Unauthorized.description(), "UnauthorizedError");
}

#[test]
fn classify_with_a_parsed_document() {
    let doc = JsonValue::Object(vec![
        ("message_id".to_string(), JsonValue::Number(JsonNumber { unsigned: Some(2000000), signed: Some(2000000) })),
        ("results".to_string(), JsonValue::Array(vec![JsonValue::Object(vec![])])),
    ]);
    let r = Message::classify_response(200, "ignored", Some(&doc)).unwrap();
    assert_eq!(r.message_id, Some(2000000));
    assert_eq!(r.results.unwrap().len(), 1);
    assert_eq!(
        Message::classify_response(200, "x", None).err().unwrap(),
        GcmError::InvalidResponseBody
    );
    assert_eq!(
        Message::classify_response(401, "Unauthorized", Some(&doc)).err().unwrap(),
        GcmError::Unauthorized
    );
    assert_eq!(
        Message::classify_response(400, "MissingRegistration", Some(&doc)).err().unwrap(),
        GcmError::InvalidMessage("MissingRegistration".to_string())
    );
}
