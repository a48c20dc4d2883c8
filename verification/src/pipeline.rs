//! The decisions of the ingestion flow that sit between its effects: turning
//! whisper segments into a transcript, deciding what text to parse, planning
//! what a save commits, and validating each committed interaction.

use vstd::prelude::*;

use crate::dates::iso_date_of;
use crate::dates::parse_iso_date;
use crate::interaction::DateParts;
use crate::interaction::Interaction;
use crate::interaction::ParsedInteraction;
use crate::medium::InteractionMedium;
use crate::medium::parse_medium;
use crate::medium::spec_parse_medium;
use crate::person::Person;
use crate::strutil::spec_entry_list;
use crate::strutil::spec_trim;
use crate::strutil::trim_entries;
use crate::strutil::trim_str;
use crate::validation::PrmError;
use crate::validation::non_blank;
use crate::validation::non_empty_set;
use crate::validation::trim_optional;

verus! {

/// All the parts concatenated.
pub open spec fn spec_concat_all(parts: Seq<Seq<char>>) -> Seq<char>
    decreases parts.len(),
{
    if parts.len() == 0 {
        Seq::empty()
    } else {
        spec_concat_all(parts.drop_last()) + parts.last()
    }
}

/// Joins the transcriber's segments into one transcript, trimmed.
pub fn assemble_transcript(segments: &Vec<String>) -> (r: String)
    ensures
        r@ == spec_trim(spec_concat_all(segments.deep_view())),
{
    let ghost all = segments.deep_view();
    let mut text = String::new();
    let mut i: usize = 0;
    while i < segments.len()
        invariant
            all == segments.deep_view(),
            all.len() == segments@.len(),
            0 <= i <= segments@.len(),
            text@ == spec_concat_all(all.take(i as int)),
        decreases segments@.len() - i,
    {
        proof {
            assert(all.take(i + 1).drop_last() =~= all.take(i as int));
            assert(all.take(i + 1).last() == all[i as int]);
        }
        text.append(segments[i].as_str());
        i = i + 1;
    }
    proof {
        assert(all.take(all.len() as int) =~= all);
    }
    trim_str(text.as_str())
}

/// What text goes to the parser: the user's edited line when it is not
/// blank, else the transcript as it stands.
pub fn choose_transcript(transcript: String, edited: Option<&str>) -> (r: String)
    ensures
        r@ == match edited.deep_view() {
            Some(e) => if spec_trim(e).len() > 0 {
                e
            } else {
                transcript@
            },
            None => transcript@,
        },
{
    match edited {
        Some(e) => {
            let t = trim_str(e);
            if t.as_str().is_empty() {
                transcript
            } else {
                e.to_owned()
            }
        },
        None => transcript,
    }
}

/// Validates and builds one in-person interaction: the location must not be
/// blank, the topics are trimmed with empty ones dropped and must not come
/// out empty, and the other party's location mirrors the shared one.
pub fn prepare_in_person(
    location: &str,
    topics: &Vec<String>,
    note: Option<&str>,
    date: DateParts,
) -> (r: Result<Interaction, PrmError>)
    ensures
        spec_trim(location@).len() == 0 ==> (r matches Err(e) && e matches PrmError::BlankField {
            field: f } && f@ == "location"@),
        spec_trim(location@).len() > 0 && spec_entry_list(topics.deep_view()).len() == 0 ==> (r
            matches Err(e) && e matches PrmError::EmptySet { field: f } && f@ == "topics"@),
        r is Ok <==> spec_trim(location@).len() > 0 && spec_entry_list(topics.deep_view()).len()
            > 0,
        r matches Ok(i) ==> {
            &&& i.medium == InteractionMedium::InPerson
            &&& i.my_location@ == spec_trim(location@)
            &&& i.their_location matches Some(t) && t@ == spec_trim(location@)
            &&& i.topics.deep_view() == spec_entry_list(topics.deep_view())
            &&& i.note.deep_view() == match note.deep_view() {
                Some(n) => if spec_trim(n).len() > 0 {
                    Some(spec_trim(n))
                } else {
                    None
                },
                None => None::<Seq<char>>,
            }
            &&& i.date == date
        },
{
    let valid_location = match non_blank(location, "location") {
        Ok(l) => l,
        Err(e) => {
            return Err(e);
        },
    };
    let valid_topics = trim_entries(topics);
    match non_empty_set(&valid_topics, "topics") {
        Ok(_) => {},
        Err(e) => {
            return Err(e);
        },
    }
    let trimmed_note = trim_optional(note);
    Ok(Interaction::create_in_person(valid_location, valid_topics, trimmed_note, date))
}

/// Validates and builds one remote interaction: the in-person medium is
/// rejected, the user's location must not be blank, topics as for in-person,
/// and the other party's location is kept only when it trims to something.
pub fn prepare_remote(
    medium: InteractionMedium,
    my_location: &str,
    their_location: Option<&str>,
    topics: &Vec<String>,
    note: Option<&str>,
    date: DateParts,
) -> (r: Result<Interaction, PrmError>)
    ensures
        medium == InteractionMedium::InPerson ==> (r matches Err(e) && e is UseInPersonMethod),
        medium != InteractionMedium::InPerson && spec_trim(my_location@).len() == 0 ==> (r matches
            Err(e) && e matches PrmError::BlankField { field: f } && f@ == "myLocation"@),
        medium != InteractionMedium::InPerson && spec_trim(my_location@).len() > 0
            && spec_entry_list(topics.deep_view()).len() == 0 ==> (r matches Err(e) && e matches
            PrmError::EmptySet { field: f } && f@ == "topics"@),
        r is Ok <==> medium != InteractionMedium::InPerson && spec_trim(my_location@).len() > 0
            && spec_entry_list(topics.deep_view()).len() > 0,
        r matches Ok(i) ==> {
            &&& i.medium == medium
            &&& i.my_location@ == spec_trim(my_location@)
            &&& i.their_location.deep_view() == match their_location.deep_view() {
                Some(t) => if spec_trim(t).len() > 0 {
                    Some(spec_trim(t))
                } else {
                    None
                },
                None => None::<Seq<char>>,
            }
            &&& i.topics.deep_view() == spec_entry_list(topics.deep_view())
            &&& i.note.deep_view() == match note.deep_view() {
                Some(n) => if spec_trim(n).len() > 0 {
                    Some(spec_trim(n))
                } else {
                    None
                },
                None => None::<Seq<char>>,
            }
            &&& i.date == date
        },
{
    if medium == InteractionMedium::InPerson {
        return Err(PrmError::UseInPersonMethod);
    }
    let valid_location = match non_blank(my_location, "myLocation") {
        Ok(l) => l,
        Err(e) => {
            return Err(e);
        },
    };
    let valid_topics = trim_entries(topics);
    match non_empty_set(&valid_topics, "topics") {
        Ok(_) => {},
        Err(e) => {
            return Err(e);
        },
    }
    let trimmed_their = trim_optional(their_location);
    let trimmed_note = trim_optional(note);
    Ok(
        Interaction::create_remote(
            medium,
            valid_location,
            trimmed_their,
            valid_topics,
            trimmed_note,
            date,
        ),
    )
}

/// Why a save cannot go ahead.
#[derive(Debug, Clone, Copy, PartialEq, Eq, Structural)]
pub enum SaveError {
    /// The staged record has no location yet; it must be edited first.
    LocationRequired,
    /// Not one of the record's names resolved to a contact.
    NoPeopleResolved,
}

/// What a confirmed save will commit.
pub struct SavePlan {
    /// Whether the user must confirm a partial commit: some of the record's
    /// names did not resolve, and a silent partial commit is disallowed.
    pub needs_partial_confirmation: bool,
    /// The medium the record names, with `InPerson` standing in for an
    /// unrecognized one.
    pub medium: InteractionMedium,
    /// The record's date when it carries a valid one, else today.
    pub date: DateParts,
    /// The contacts the interaction is committed for, in order.
    pub people: Vec<Person>,
}

/// The day a record is committed under: its own date when that parses as an
/// ISO date, today otherwise or when it has none.
pub open spec fn spec_commit_date(date: Option<Seq<char>>, today: DateParts) -> DateParts {
    match date {
        Some(d) => match iso_date_of(d) {
            Some(p) => p,
            None => today,
        },
        None => today,
    }
}

/// Plans a save: a record without a location cannot be saved, a save with
/// no resolved people commits nothing, and a save for fewer people than the
/// record names must be confirmed before anything is committed.
pub fn plan_save(parsed: &ParsedInteraction, resolved: Vec<Person>, today: DateParts) -> (r:
    Result<SavePlan, SaveError>)
    ensures
        r is Err <==> parsed@.location.len() == 0 || resolved@.len() == 0,
        r matches Err(e) ==> (e is LocationRequired <==> parsed@.location.len() == 0) && (e
            is NoPeopleResolved <==> parsed@.location.len() > 0 && resolved@.len() == 0),
        r matches Ok(p) ==> {
            &&& p.people@ == resolved@
            &&& p.needs_partial_confirmation <==> resolved@.len() < parsed@.person_names.len()
            &&& p.medium == spec_parse_medium(parsed@.medium)
            &&& p.date == spec_commit_date(parsed@.date, today)
        },
{
    if parsed.location.as_str().is_empty() {
        return Err(SaveError::LocationRequired);
    }
    if resolved.len() == 0 {
        return Err(SaveError::NoPeopleResolved);
    }
    let medium = parse_medium(parsed.medium.as_str());
    let date: DateParts = match &parsed.date {
        Some(d) => {
            match parse_iso_date(d.as_str()) {
                Some(p) => p,
                None => today,
            }
        },
        None => today,
    };
    let needs_partial_confirmation = resolved.len() < parsed.person_names.len();
    Ok(SavePlan { needs_partial_confirmation, medium, date, people: resolved })
}

/// Validates and builds the interaction a plan commits for one person:
/// in-person records mirror the location, remote ones keep the two locations
/// apart.
pub fn build_interaction(parsed: &ParsedInteraction, medium: InteractionMedium, date: DateParts)
    -> (r: Result<Interaction, PrmError>)
    requires
        medium == spec_parse_medium(parsed@.medium),
    ensures
        r matches Ok(i) ==> {
            &&& i.medium == medium
            &&& i.my_location@ == spec_trim(parsed@.location)
            &&& i.topics.deep_view() == spec_entry_list(parsed@.topics)
            &&& i.date == date
            &&& medium == InteractionMedium::InPerson ==> (i.their_location matches Some(t) && t@
                == spec_trim(parsed@.location))
        },
        r is Ok <==> spec_trim(parsed@.location).len() > 0 && spec_entry_list(
            parsed@.topics,
        ).len() > 0,
{
    let note: Option<&str> = match &parsed.note {
        Some(n) => Some(n.as_str()),
        None => None,
    };
    if medium == InteractionMedium::InPerson {
        prepare_in_person(parsed.location.as_str(), &parsed.topics, note, date)
    } else {
        let their: Option<&str> = match &parsed.their_location {
            Some(t) => Some(t.as_str()),
            None => None,
        };
        prepare_remote(medium, parsed.location.as_str(), their, &parsed.topics, note, date)
    }
}

} // verus!
