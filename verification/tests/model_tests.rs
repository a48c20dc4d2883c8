use prm::InteractionMedium;
use prm::interaction::{DateParts, Interaction};
use prm::person::{Address, Person};

fn sample_date() -> DateParts {
    DateParts { year: 2024, month: 6, day: 15 }
}

#[test]
fn address_holds_structured_data() {
    let address = Address {
        street: "123 Main St".into(),
        city: "Putnam".into(),
        state: "CT".into(),
        zip: "06260".into(),
        country: "USA".into(),
    };
    assert_eq!(address.city, "Putnam");
    assert_eq!(address.state, "CT");
}

#[test]
fn interaction_medium_all_contains_all_mediums() {
    let all = InteractionMedium::all();
    assert!(all.contains(&InteractionMedium::InPerson));
    assert!(all.contains(&InteractionMedium::Text));
    assert!(all.contains(&InteractionMedium::PhoneCall));
    assert!(all.contains(&InteractionMedium::VideoCall));
    assert!(all.contains(&InteractionMedium::SocialMedia));
    assert_eq!(all.len(), 5);
}

#[test]
fn interaction_medium_display_names() {
    assert_eq!(InteractionMedium::InPerson.display_name(), "In Person");
    assert_eq!(InteractionMedium::PhoneCall.display_name(), "Phone Call");
    assert_eq!(InteractionMedium::VideoCall.display_name(), "Video Call");
    assert_eq!(InteractionMedium::SocialMedia.display_name(), "Social Media");
    assert_eq!(InteractionMedium::Text.display_name(), "Text");
}

#[test]
fn interaction_medium_db_roundtrip() {
    for medium in InteractionMedium::all() {
        let s = medium.to_db_str();
        let parsed = InteractionMedium::from_db_str(s).unwrap();
        assert_eq!(medium, parsed);
    }
}

#[test]
fn interaction_create_in_person_sets_both_locations() {
    let interaction = Interaction::create_in_person(
        "Coffee shop".into(),
        vec!["farming".into(), "weather".into()],
        None,
        sample_date(),
    );
    assert_eq!(interaction.medium, InteractionMedium::InPerson);
    assert_eq!(interaction.my_location, "Coffee shop");
    assert_eq!(interaction.their_location, Some("Coffee shop".into()));
}

#[test]
fn interaction_create_remote_allows_different_locations() {
    let interaction = Interaction::create_remote(
        InteractionMedium::VideoCall,
        "Home".into(),
        Some("Office".into()),
        vec!["project planning".into()],
        None,
        sample_date(),
    );
    assert_eq!(interaction.medium, InteractionMedium::VideoCall);
    assert_eq!(interaction.my_location, "Home");
    assert_eq!(interaction.their_location, Some("Office".into()));
}

#[test]
fn interaction_create_remote_allows_optional_their_location() {
    let interaction = Interaction::create_remote(
        InteractionMedium::Text,
        "Home".into(),
        None,
        vec!["quick chat".into()],
        None,
        sample_date(),
    );
    assert_eq!(interaction.their_location, None);
}

#[test]
fn person_create_generates_id_and_sets_defaults() {
    let person = Person::create("Alice".into());
    assert_eq!(person.name, "Alice");
    assert_eq!(person.nickname, None);
    assert_eq!(person.how_we_met, None);
    assert_eq!(person.birthday, None);
    assert_eq!(person.notes, None);
    assert_eq!(person.location, None);
    assert!(!person.is_self);
    assert!(!person.archived);
}

#[test]
fn person_create_self_sets_is_self() {
    let self_person = Person::create_self("Petros".into());
    assert_eq!(self_person.name, "Petros");
    assert!(self_person.is_self);
    assert!(!self_person.archived);
}

#[test]
fn person_can_be_archived() {
    let mut person = Person::create("Alice".into());
    person.archived = true;
    assert!(person.archived);
    assert_eq!(person.name, "Alice");
}

#[test]
fn medium_db_strings_are_stable() {
    assert_eq!(InteractionMedium::InPerson.to_db_str(), "InPerson");
    assert_eq!(InteractionMedium::Text.to_db_str(), "Text");
    assert_eq!(InteractionMedium::PhoneCall.to_db_str(), "PhoneCall");
    assert_eq!(InteractionMedium::VideoCall.to_db_str(), "VideoCall");
    assert_eq!(InteractionMedium::SocialMedia.to_db_str(), "SocialMedia");
    assert_eq!(InteractionMedium::from_db_str("Carrier Pigeon"), None);
}

#[test]
fn parse_medium_defaults_unknown_to_in_person() {
    assert_eq!(prm::medium::parse_medium("PhoneCall"), InteractionMedium::PhoneCall);
    assert_eq!(prm::medium::parse_medium("Telegraph"), InteractionMedium::InPerson);
    assert_eq!(prm::medium::parse_medium(""), InteractionMedium::InPerson);
}

#[test]
fn format_medium_renders_known_and_passes_unknown_through() {
    assert_eq!(prm::medium::format_medium("InPerson"), "In Person");
    assert_eq!(prm::medium::format_medium("SocialMedia"), "Social Media");
    assert_eq!(prm::medium::format_medium("Smoke Signals"), "Smoke Signals");
    assert_eq!(prm::medium::default_medium(), "InPerson");
}
