use prm::person::Person;
use prm::resolver::{resolve, Resolution};

fn contact(name: &str) -> Person {
    Person::create(name.into())
}

fn contact_with_nickname(name: &str, nick: &str) -> Person {
    let mut p = Person::create(name.into());
    p.nickname = Some(nick.into());
    p
}

#[test]
fn substring_query_with_two_matches_is_ambiguous() {
    let pool = vec![contact("Alice Smith"), contact("Alice Jones")];
    match resolve("alice", &pool) {
        Resolution::Ambiguous(cands) => {
            assert_eq!(cands.len(), 2);
            assert_eq!(cands[0].name, "Alice Smith");
            assert_eq!(cands[1].name, "Alice Jones");
        }
        _ => panic!("expected an ambiguous resolution"),
    }
}

#[test]
fn exact_full_name_wins_the_tie_break() {
    let pool = vec![contact("Alice Smith"), contact("Alice Jones")];
    match resolve("Alice Smith", &pool) {
        Resolution::Resolved(p) => assert_eq!(p.name, "Alice Smith"),
        _ => panic!("expected the exact name to resolve"),
    }
    // The tie-break ignores ASCII case.
    match resolve("alice jones", &pool) {
        Resolution::Resolved(p) => assert_eq!(p.name, "Alice Jones"),
        _ => panic!("expected the exact name to resolve"),
    }
}

#[test]
fn single_match_resolves() {
    let pool = vec![contact("Alice Smith"), contact("Bob Stone")];
    match resolve("bob", &pool) {
        Resolution::Resolved(p) => assert_eq!(p.name, "Bob Stone"),
        _ => panic!("expected a unique resolution"),
    }
}

#[test]
fn no_match_is_not_found() {
    let pool = vec![contact("Alice Smith")];
    assert!(matches!(resolve("zelda", &pool), Resolution::NotFound));
    let empty: Vec<Person> = Vec::new();
    assert!(matches!(resolve("anyone", &empty), Resolution::NotFound));
}

#[test]
fn nicknames_match_too() {
    let pool = vec![contact_with_nickname("Robert Stone", "Bob")];
    match resolve("bob", &pool) {
        Resolution::Resolved(p) => assert_eq!(p.name, "Robert Stone"),
        _ => panic!("expected the nickname to match"),
    }
}

#[test]
fn matching_is_case_insensitive_both_ways() {
    let pool = vec![contact("alice smith")];
    match resolve("ALICE", &pool) {
        Resolution::Resolved(p) => assert_eq!(p.name, "alice smith"),
        _ => panic!("expected a case-insensitive match"),
    }
}
