use prm::interaction::CorrectionExample;
use prm::prompt::{build_chat_request, build_system_prompt, chat_endpoint};

#[test]
fn prompt_embeds_date_names_and_rules() {
    let names = vec!["Alice".to_string(), "Bob".to_string()];
    let prompt = build_system_prompt("2024-06-15", &names, &Vec::new());
    assert!(prompt.contains("Today's date is 2024-06-15."));
    assert!(prompt.contains("Known contacts: [Alice, Bob]"));
    assert!(prompt.contains("Respond with JSON only"));
    assert!(prompt.contains("\"personNames\""));
    // Without corrections there is no corrections section.
    assert!(!prompt.contains("Past corrections"));
}

#[test]
fn corrections_are_replayed_verbatim_and_numbered() {
    let corrections = vec![
        CorrectionExample {
            original_text: "saw Bob".into(),
            ai_output: "{\"a\":1}".into(),
            user_output: "{\"a\":2}".into(),
        },
        CorrectionExample {
            original_text: "met Carol".into(),
            ai_output: "{\"b\":1}".into(),
            user_output: "{\"b\":2}".into(),
        },
    ];
    let prompt = build_system_prompt("2024-06-15", &Vec::new(), &corrections);
    assert!(prompt.contains("Past corrections to learn from (most recent first):"));
    assert!(prompt.contains("Example 1:\nInput: saw Bob\nYou parsed: {\"a\":1}\nUser corrected to: {\"a\":2}"));
    assert!(prompt.contains("Example 2:\nInput: met Carol"));
    assert!(prompt.contains("Apply these learnings when parsing the new input."));
    let first = prompt.find("Example 1").unwrap();
    let second = prompt.find("Example 2").unwrap();
    assert!(first < second);
}

#[test]
fn chat_request_is_valid_json_with_the_exact_fields() {
    let body = build_chat_request("llama3.2:3b", "be \"precise\"\nalways", "met Alice");
    let v: serde_json::Value = serde_json::from_str(&body).expect("the body must parse");
    assert_eq!(v["model"], "llama3.2:3b");
    assert_eq!(v["format"], "json");
    assert_eq!(v["stream"], false);
    assert_eq!(v["messages"][0]["role"], "system");
    assert_eq!(v["messages"][0]["content"], "be \"precise\"\nalways");
    assert_eq!(v["messages"][1]["role"], "user");
    assert_eq!(v["messages"][1]["content"], "met Alice");
}

#[test]
fn chat_endpoint_appends_the_api_path() {
    assert_eq!(chat_endpoint("http://localhost:11434"), "http://localhost:11434/api/chat");
}
