use prm::interaction::ParsedInteraction;
use prm::parser::{http_status_error, ParseError};
use prm::person::Person;
use prm::review::render_parsed;
use prm::validation::PrmError;

fn staged() -> ParsedInteraction {
    ParsedInteraction {
        person_names: vec!["Alice".into(), "Bob".into()],
        medium: "InPerson".into(),
        location: "Starbucks".into(),
        their_location: None,
        topics: vec!["coffee".into()],
        note: None,
        date: None,
    }
}

#[test]
fn rendered_lines_show_every_field_with_placeholders() {
    let lines = render_parsed(&staged());
    assert_eq!(lines.len(), 7);
    assert_eq!(lines[0], "  1. People:         Alice, Bob");
    assert_eq!(lines[1], "  2. Medium:         In Person");
    assert_eq!(lines[2], "  3. Location:       Starbucks");
    assert_eq!(lines[3], "  4. Their location: (same as location)");
    assert_eq!(lines[4], "  5. Topics:         coffee");
    assert_eq!(lines[5], "  6. Note:           (none)");
    assert_eq!(lines[6], "  7. Date:           today");
}

#[test]
fn rendered_lines_for_a_remote_record() {
    let mut p = staged();
    p.medium = "PhoneCall".into();
    p.location = String::new();
    p.their_location = Some("Office".into());
    p.note = Some("short".into());
    p.date = Some("2024-01-02".into());
    let lines = render_parsed(&p);
    assert_eq!(lines[1], "  2. Medium:         Phone Call");
    assert_eq!(lines[2], "  3. Location:       (not set)");
    assert_eq!(lines[3], "  4. Their location: Office");
    assert_eq!(lines[5], "  6. Note:           short");
    assert_eq!(lines[6], "  7. Date:           2024-01-02");
}

#[test]
fn parse_errors_render_for_the_user() {
    assert_eq!(
        ParseError::NoPeopleExtracted.message(),
        "LLM did not extract any person names"
    );
    assert_eq!(
        ParseError::NoTopicsExtracted.message(),
        "LLM did not extract any topics"
    );
    assert_eq!(
        http_status_error(502, "bad gateway").message(),
        "Model request failed (HTTP 502): bad gateway"
    );
}

#[test]
fn validation_errors_render_with_their_field() {
    let e = PrmError::BlankField { field: "location".into() };
    assert_eq!(e.message(), "location cannot be blank");
    assert_eq!(PrmError::UseInPersonMethod.message(), "Use log_in_person for in-person interactions");
}

#[test]
fn fresh_ids_differ_between_people() {
    let a = Person::create("Alice".into());
    let b = Person::create("Alice".into());
    assert_ne!(a.id, b.id);
}
