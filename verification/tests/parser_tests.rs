use prm::parser::{
    classify_transport_failure, handle_chat_response, http_status_error, parse_llm_json,
    ParseError,
};

#[test]
fn parses_a_full_reply() {
    let content = r#"{
        "personNames": ["Alice", "Bob"],
        "medium": "PhoneCall",
        "location": "Home",
        "theirLocation": "Office",
        "topics": ["gardening", "travel"],
        "note": "long call",
        "date": "2024-03-05"
    }"#;
    let p = parse_llm_json(content).unwrap();
    assert_eq!(p.person_names, vec!["Alice".to_string(), "Bob".to_string()]);
    assert_eq!(p.medium, "PhoneCall");
    assert_eq!(p.location, "Home");
    assert_eq!(p.their_location, Some("Office".to_string()));
    assert_eq!(p.topics, vec!["gardening".to_string(), "travel".to_string()]);
    assert_eq!(p.note, Some("long call".to_string()));
    assert_eq!(p.date, Some("2024-03-05".to_string()));
}

#[test]
fn empty_person_names_always_fail() {
    // Whatever the other fields hold, an empty personNames array is rejected.
    let content = r#"{"personNames": [], "medium": "Text", "location": "X", "topics": ["t"]}"#;
    assert!(matches!(
        parse_llm_json(content),
        Err(ParseError::NoPeopleExtracted)
    ));
    let bare = r#"{"personNames": []}"#;
    assert!(matches!(
        parse_llm_json(bare),
        Err(ParseError::NoPeopleExtracted)
    ));
}

#[test]
fn empty_name_strings_are_filtered_out() {
    let content = r#"{"personNames": ["", ""], "topics": ["t"]}"#;
    assert!(matches!(
        parse_llm_json(content),
        Err(ParseError::NoPeopleExtracted)
    ));
    let mixed = r#"{"personNames": ["", "Alice"], "topics": ["t"]}"#;
    assert_eq!(parse_llm_json(mixed).unwrap().person_names, vec!["Alice".to_string()]);
}

#[test]
fn missing_medium_defaults_to_in_person() {
    let content = r#"{"personNames": ["Alice"], "topics": ["coffee"]}"#;
    let p = parse_llm_json(content).unwrap();
    assert_eq!(p.medium, "InPerson");
}

#[test]
fn other_fields_get_their_defaults() {
    let content = r#"{"personNames": ["Alice"], "topics": ["coffee"]}"#;
    let p = parse_llm_json(content).unwrap();
    assert_eq!(p.location, "");
    assert_eq!(p.their_location, None);
    assert_eq!(p.note, None);
    assert_eq!(p.date, None);
}

#[test]
fn unknown_medium_passes_through_structurally() {
    let content = r#"{"personNames": ["Alice"], "medium": "Carrier", "topics": ["t"]}"#;
    assert_eq!(parse_llm_json(content).unwrap().medium, "Carrier");
}

#[test]
fn legacy_scalar_person_name_is_accepted() {
    let content = r#"{"personName": "Alice", "topics": ["coffee"]}"#;
    assert_eq!(parse_llm_json(content).unwrap().person_names, vec!["Alice".to_string()]);
    let empty = r#"{"personName": "", "topics": ["coffee"]}"#;
    assert!(matches!(
        parse_llm_json(empty),
        Err(ParseError::NoPeopleExtracted)
    ));
}

#[test]
fn empty_topics_fail() {
    let content = r#"{"personNames": ["Alice"], "topics": []}"#;
    assert!(matches!(
        parse_llm_json(content),
        Err(ParseError::NoTopicsExtracted)
    ));
    let missing = r#"{"personNames": ["Alice"]}"#;
    assert!(matches!(
        parse_llm_json(missing),
        Err(ParseError::NoTopicsExtracted)
    ));
}

#[test]
fn malformed_reply_is_rejected() {
    assert!(matches!(
        parse_llm_json("not json at all"),
        Err(ParseError::MalformedResponse)
    ));
    assert!(matches!(
        parse_llm_json("{\"personNames\": [\"A\""),
        Err(ParseError::MalformedResponse)
    ));
}

#[test]
fn chat_response_content_is_navigated() {
    let body = r#"{"message": {"content": "{\"personNames\": [\"Alice\"], \"topics\": [\"tea\"]}"}}"#;
    let p = handle_chat_response(body).unwrap();
    assert_eq!(p.person_names, vec!["Alice".to_string()]);
    assert_eq!(p.topics, vec!["tea".to_string()]);
}

#[test]
fn chat_response_without_content_is_malformed() {
    assert!(matches!(
        handle_chat_response(r#"{"message": {}}"#),
        Err(ParseError::MalformedResponse)
    ));
    assert!(matches!(
        handle_chat_response("{}"),
        Err(ParseError::MalformedResponse)
    ));
}

#[test]
fn transport_failures_distinguish_timeouts() {
    assert!(matches!(
        classify_transport_failure("the request timed out after 120s"),
        ParseError::ModelTimeout
    ));
    assert!(matches!(
        classify_transport_failure("connection refused"),
        ParseError::ModelUnreachable
    ));
}

#[test]
fn http_errors_keep_a_truncated_body() {
    let short = http_status_error(500, "boom");
    match short {
        ParseError::HttpError { code, body } => {
            assert_eq!(code, 500);
            assert_eq!(body, "boom");
        }
        _ => panic!("expected an HTTP error"),
    }
    let long_body: String = "x".repeat(500);
    match http_status_error(404, &long_body) {
        ParseError::HttpError { code, body } => {
            assert_eq!(code, 404);
            assert_eq!(body.len(), 200);
        }
        _ => panic!("expected an HTTP error"),
    }
}
