use prm::interaction::ParsedInteraction;
use prm::review::{make_decision, ReviewDecision, ReviewSession, ReviewState};

fn staged() -> ParsedInteraction {
    ParsedInteraction {
        person_names: vec!["Alice".into()],
        medium: "InPerson".into(),
        location: "Starbucks".into(),
        their_location: None,
        topics: vec!["new job".into()],
        note: None,
        date: None,
    }
}

fn remote_staged() -> ParsedInteraction {
    let mut p = staged();
    p.medium = "PhoneCall".into();
    p
}

#[test]
fn decisions_parse_case_insensitively() {
    assert_eq!(make_decision(Some("s"), None), ReviewDecision::Save);
    assert_eq!(make_decision(Some("SAVE"), None), ReviewDecision::Save);
    assert_eq!(make_decision(Some("d"), None), ReviewDecision::Discard);
    assert_eq!(make_decision(Some("Discard"), None), ReviewDecision::Discard);
    assert_eq!(make_decision(Some("e"), Some("3")), ReviewDecision::EditField(3));
    assert_eq!(make_decision(Some("edit"), Some("7")), ReviewDecision::EditField(7));
    assert_eq!(make_decision(Some("e"), Some("9")), ReviewDecision::Invalid);
    assert_eq!(make_decision(Some("e"), None), ReviewDecision::Invalid);
    assert_eq!(make_decision(Some("x"), None), ReviewDecision::Invalid);
    // End of input on the choice prompt is a discard.
    assert_eq!(make_decision(None, None), ReviewDecision::Discard);
}

#[test]
fn saving_without_edits_records_no_correction() {
    let mut session = ReviewSession::new("had coffee with Alice".into(), staged());
    let correction = session.step(ReviewDecision::Save, "");
    assert!(correction.is_none());
    assert_eq!(session.state, ReviewState::Saved);
}

#[test]
fn an_edit_that_changes_the_record_records_a_correction() {
    let mut session = ReviewSession::new("had coffee with Alice".into(), staged());
    assert!(session.step(ReviewDecision::EditField(3), "Blue Bottle").is_none());
    assert_eq!(session.current.location, "Blue Bottle");
    let correction = session.step(ReviewDecision::Save, "").expect("a correction");
    assert_eq!(correction.original_text, "had coffee with Alice");
    assert!(correction.ai_output.contains("Starbucks"));
    assert!(correction.user_output.contains("Blue Bottle"));
}

#[test]
fn an_edit_cycle_back_to_the_original_records_nothing() {
    let mut session = ReviewSession::new("text".into(), staged());
    session.step(ReviewDecision::EditField(3), "Blue Bottle");
    session.step(ReviewDecision::EditField(3), "Starbucks");
    assert!(session.step(ReviewDecision::Save, "").is_none());
}

#[test]
fn people_edit_splits_trims_and_drops_empties() {
    let mut session = ReviewSession::new("t".into(), staged());
    session.step(ReviewDecision::EditField(1), " Bob ,, Carol ");
    assert_eq!(session.current.person_names, vec!["Bob".to_string(), "Carol".to_string()]);
    // An edit that leaves no names keeps the old list.
    session.step(ReviewDecision::EditField(1), " , ,");
    assert_eq!(session.current.person_names, vec!["Bob".to_string(), "Carol".to_string()]);
    // An empty answer keeps the old list too.
    session.step(ReviewDecision::EditField(1), "");
    assert_eq!(session.current.person_names, vec!["Bob".to_string(), "Carol".to_string()]);
}

#[test]
fn medium_edit_uses_the_menu_and_keeps_current_on_bad_input() {
    let mut session = ReviewSession::new("t".into(), staged());
    session.step(ReviewDecision::EditField(2), "4");
    assert_eq!(session.current.medium, "VideoCall");
    session.step(ReviewDecision::EditField(2), "nope");
    assert_eq!(session.current.medium, "VideoCall");
    session.step(ReviewDecision::EditField(2), "");
    assert_eq!(session.current.medium, "VideoCall");
    session.step(ReviewDecision::EditField(2), "1");
    assert_eq!(session.current.medium, "InPerson");
}

#[test]
fn their_location_edit_is_disabled_for_in_person() {
    let mut session = ReviewSession::new("t".into(), staged());
    session.step(ReviewDecision::EditField(4), "Office");
    assert_eq!(session.current.their_location, None);
    // For a remote medium the same edit takes effect.
    let mut remote = ReviewSession::new("t".into(), remote_staged());
    remote.step(ReviewDecision::EditField(4), "Office");
    assert_eq!(remote.current.their_location, Some("Office".to_string()));
}

#[test]
fn free_text_fields_replace_when_non_empty() {
    let mut session = ReviewSession::new("t".into(), staged());
    session.step(ReviewDecision::EditField(5), "skiing, hiking");
    assert_eq!(session.current.topics, vec!["skiing".to_string(), "hiking".to_string()]);
    session.step(ReviewDecision::EditField(6), "brought cookies");
    assert_eq!(session.current.note, Some("brought cookies".to_string()));
    session.step(ReviewDecision::EditField(7), "2024-01-02");
    assert_eq!(session.current.date, Some("2024-01-02".to_string()));
    // Empty answers keep current values.
    session.step(ReviewDecision::EditField(6), "");
    assert_eq!(session.current.note, Some("brought cookies".to_string()));
}

#[test]
fn discard_ends_the_session_with_nothing_to_persist() {
    let mut session = ReviewSession::new("t".into(), staged());
    session.step(ReviewDecision::EditField(3), "Elsewhere");
    let r = session.step(ReviewDecision::Discard, "");
    assert!(r.is_none());
    assert_eq!(session.state, ReviewState::Discarded);
}

#[test]
fn invalid_decisions_change_nothing() {
    let mut session = ReviewSession::new("t".into(), staged());
    let r = session.step(ReviewDecision::Invalid, "whatever");
    assert!(r.is_none());
    assert_eq!(session.state, ReviewState::Presenting);
    assert_eq!(session.current.location, "Starbucks");
}
