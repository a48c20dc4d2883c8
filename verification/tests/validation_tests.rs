use prm::validation::{non_blank, non_empty_set, optional_positive, positive, trim_optional};

#[test]
fn non_blank_accepts_valid_string() {
    assert_eq!(non_blank("hello", "name").unwrap(), "hello");
}

#[test]
fn non_blank_trims_whitespace() {
    assert_eq!(non_blank("  hello  ", "name").unwrap(), "hello");
}

#[test]
fn non_blank_rejects_empty() {
    assert!(non_blank("", "name").is_err());
}

#[test]
fn non_blank_rejects_whitespace_only() {
    assert!(non_blank("   ", "name").is_err());
}

#[test]
fn positive_accepts_positive() {
    assert_eq!(positive(5, "days").unwrap(), 5);
}

#[test]
fn positive_rejects_zero() {
    assert!(positive(0, "days").is_err());
}

#[test]
fn positive_rejects_negative() {
    assert!(positive(-1, "days").is_err());
}

#[test]
fn non_empty_set_accepts_non_empty() {
    assert!(non_empty_set(&vec!["a"], "topics").is_ok());
}

#[test]
fn non_empty_set_rejects_empty() {
    let empty: Vec<String> = Vec::new();
    assert!(non_empty_set(&empty, "topics").is_err());
}

#[test]
fn optional_positive_accepts_none() {
    assert_eq!(optional_positive(None, "days").unwrap(), None);
}

#[test]
fn optional_positive_accepts_positive() {
    assert_eq!(optional_positive(Some(7), "days").unwrap(), Some(7));
}

#[test]
fn optional_positive_rejects_zero() {
    assert!(optional_positive(Some(0), "days").is_err());
}

#[test]
fn trim_optional_trims() {
    assert_eq!(trim_optional(Some("  hi  ")), Some("hi".to_string()));
}

#[test]
fn trim_optional_returns_none_for_blank() {
    assert_eq!(trim_optional(Some("   ")), None);
}

#[test]
fn trim_optional_returns_none_for_none() {
    assert_eq!(trim_optional(None), None);
}
