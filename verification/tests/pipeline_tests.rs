use prm::InteractionMedium;
use prm::interaction::{CorrectionRecord, DateParts, records_to_examples};
use prm::parser::parse_llm_json;
use prm::person::{known_names, Person};
use prm::pipeline::{
    assemble_transcript, build_interaction, choose_transcript, plan_save, prepare_in_person,
    prepare_remote, SaveError,
};
use prm::resolver::{resolve, Resolution};
use prm::review::{ReviewDecision, ReviewSession};

fn contact(name: &str) -> Person {
    Person::create(name.into())
}

fn today() -> DateParts {
    DateParts { year: 2024, month: 6, day: 15 }
}

/// The reply a well-behaved model gives for
/// "Had coffee with Alice at Starbucks, talked about her new job".
const COFFEE_REPLY: &str = r#"{
    "personNames": ["Alice"],
    "medium": "InPerson",
    "location": "Starbucks",
    "theirLocation": null,
    "topics": ["her new job"],
    "note": null,
    "date": null
}"#;

#[test]
fn coffee_with_alice_commits_one_in_person_interaction() {
    let input = "Had coffee with Alice at Starbucks, talked about her new job";
    let parsed = parse_llm_json(COFFEE_REPLY).unwrap();
    assert_eq!(parsed.person_names, vec!["Alice".to_string()]);
    assert_eq!(parsed.medium, "InPerson");
    assert_eq!(parsed.location, "Starbucks");
    assert!(parsed.topics.iter().any(|t| t.contains("job")));
    assert_eq!(parsed.their_location, None);

    // An unedited save records no correction.
    let mut session = ReviewSession::new(input.into(), parsed);
    let correction = session.step(ReviewDecision::Save, "");
    assert!(correction.is_none());

    // The one name resolves against the known contacts.
    let pool = vec![contact("Alice")];
    let mut resolved: Vec<Person> = Vec::new();
    for name in &session.current.person_names {
        if let Resolution::Resolved(p) = resolve(name, &pool) {
            resolved.push(p);
        }
    }
    assert_eq!(resolved.len(), 1);

    // The plan commits exactly one in-person interaction for Alice.
    let plan = plan_save(&session.current, resolved, today()).unwrap();
    assert!(!plan.needs_partial_confirmation);
    assert_eq!(plan.medium, InteractionMedium::InPerson);
    assert_eq!(plan.date, today());
    assert_eq!(plan.people.len(), 1);
    assert_eq!(plan.people[0].name, "Alice");
    let interaction = build_interaction(&session.current, plan.medium, plan.date).unwrap();
    assert_eq!(interaction.medium, InteractionMedium::InPerson);
    assert_eq!(interaction.my_location, "Starbucks");
    assert_eq!(interaction.their_location, Some("Starbucks".to_string()));
    assert_eq!(interaction.topics, vec!["her new job".to_string()]);
}

#[test]
fn two_alices_force_ambiguity_until_the_name_is_narrowed() {
    let input = "Had coffee with Alice at Starbucks, talked about her new job";
    let parsed = parse_llm_json(COFFEE_REPLY).unwrap();
    let mut session = ReviewSession::new(input.into(), parsed);

    let pool = vec![contact("Alice Smith"), contact("Alice Jones")];
    // Both contacts match the bare "Alice": the resolver refuses to guess.
    match resolve(&session.current.person_names[0], &pool) {
        Resolution::Ambiguous(cands) => assert_eq!(cands.len(), 2),
        _ => panic!("expected ambiguity"),
    }
    // With nothing resolved, the save cannot commit anything.
    let unresolved: Vec<Person> = Vec::new();
    assert!(matches!(
        plan_save(&session.current, unresolved, today()),
        Err(SaveError::NoPeopleResolved)
    ));
    // A narrower people edit makes resolution succeed.
    session.step(ReviewDecision::EditField(1), "Alice Smith");
    match resolve(&session.current.person_names[0], &pool) {
        Resolution::Resolved(p) => assert_eq!(p.name, "Alice Smith"),
        _ => panic!("expected the narrowed name to resolve"),
    }
}

#[test]
fn plan_save_requires_a_location() {
    let mut parsed = parse_llm_json(COFFEE_REPLY).unwrap();
    parsed.location = String::new();
    assert!(matches!(
        plan_save(&parsed, vec![contact("Alice")], today()),
        Err(SaveError::LocationRequired)
    ));
}

#[test]
fn plan_save_flags_partial_commits() {
    let reply = r#"{"personNames": ["Alice", "Zed"], "location": "Cafe", "topics": ["tea"]}"#;
    let parsed = parse_llm_json(reply).unwrap();
    let plan = plan_save(&parsed, vec![contact("Alice")], today()).unwrap();
    assert!(plan.needs_partial_confirmation);
}

#[test]
fn plan_save_takes_a_valid_date_and_falls_back_to_today() {
    let mut parsed = parse_llm_json(COFFEE_REPLY).unwrap();
    parsed.date = Some("2023-11-30".into());
    let plan = plan_save(&parsed, vec![contact("Alice")], today()).unwrap();
    assert_eq!(plan.date, DateParts { year: 2023, month: 11, day: 30 });
    parsed.date = Some("soonish".into());
    let plan2 = plan_save(&parsed, vec![contact("Alice")], today()).unwrap();
    assert_eq!(plan2.date, today());
}

#[test]
fn prepare_in_person_validates_and_mirrors_location() {
    let i = prepare_in_person(
        " Cafe ",
        &vec![" tea ".into(), "  ".into()],
        Some("  nice chat "),
        today(),
    )
    .unwrap();
    assert_eq!(i.my_location, "Cafe");
    assert_eq!(i.their_location, Some("Cafe".to_string()));
    assert_eq!(i.topics, vec!["tea".to_string()]);
    assert_eq!(i.note, Some("nice chat".to_string()));
    assert!(prepare_in_person("  ", &vec!["t".into()], None, today()).is_err());
    let no_topics: Vec<String> = vec!["   ".into()];
    assert!(prepare_in_person("Cafe", &no_topics, None, today()).is_err());
}

#[test]
fn prepare_remote_rejects_the_in_person_medium() {
    assert!(prepare_remote(
        InteractionMedium::InPerson,
        "Home",
        None,
        &vec!["t".into()],
        None,
        today(),
    )
    .is_err());
    let i = prepare_remote(
        InteractionMedium::PhoneCall,
        "Home",
        Some(" Office "),
        &vec!["news".into()],
        None,
        today(),
    )
    .unwrap();
    assert_eq!(i.medium, InteractionMedium::PhoneCall);
    assert_eq!(i.their_location, Some("Office".to_string()));
}

#[test]
fn transcripts_are_assembled_and_chosen() {
    let segments = vec![" Had coffee".to_string(), " with Alice ".to_string()];
    let transcript = assemble_transcript(&segments);
    assert_eq!(transcript, "Had coffee with Alice");
    assert_eq!(choose_transcript(transcript.clone(), None), "Had coffee with Alice");
    assert_eq!(choose_transcript(transcript.clone(), Some("   ")), "Had coffee with Alice");
    assert_eq!(choose_transcript(transcript, Some("Met Alice")), "Met Alice");
}

#[test]
fn known_names_skip_the_self_entry() {
    let mut me = Person::create_self("Petros".into());
    me.archived = false;
    let pool = vec![me, contact("Alice"), contact("Bob")];
    assert_eq!(known_names(&pool), vec!["Alice".to_string(), "Bob".to_string()]);
}

#[test]
fn correction_rows_become_examples_in_order() {
    let rows = vec![
        CorrectionRecord {
            original_text: "one".into(),
            ai_output: "a".into(),
            user_output: "b".into(),
        },
        CorrectionRecord {
            original_text: "two".into(),
            ai_output: "c".into(),
            user_output: "d".into(),
        },
    ];
    let examples = records_to_examples(&rows);
    assert_eq!(examples.len(), 2);
    assert_eq!(examples[0].original_text, "one");
    assert_eq!(examples[1].user_output, "d");
}
