//! The staging record a model reply is decoded into, the correction records
//! that remember how a user amended one, and the committed interaction.

use vstd::prelude::*;

use crate::medium::InteractionMedium;
use crate::strutil::clone_opt_string;
use crate::strutil::clone_string_vec;

verus! {

/// What the parser extracted from a free-text description, staged for
/// review. Mutated field by field during review and consumed on save; never
/// itself persisted.
pub struct ParsedInteraction {
    /// Every person mentioned; non-empty on successful parse.
    pub person_names: Vec<String>,
    /// How the interaction took place, as the model wrote it; validated at
    /// save time, not at parse time.
    pub medium: String,
    /// Where it took place; may be empty pending an edit.
    pub location: String,
    /// The other party's location, for remote interactions.
    pub their_location: Option<String>,
    /// What was discussed; non-empty on successful parse.
    pub topics: Vec<String>,
    /// Free-form additional context.
    pub note: Option<String>,
    /// An ISO `YYYY-MM-DD` date; absent means today.
    pub date: Option<String>,
}

/// The mathematical content of a [`ParsedInteraction`].
pub struct ParsedView {
    pub person_names: Seq<Seq<char>>,
    pub medium: Seq<char>,
    pub location: Seq<char>,
    pub their_location: Option<Seq<char>>,
    pub topics: Seq<Seq<char>>,
    pub note: Option<Seq<char>>,
    pub date: Option<Seq<char>>,
}

impl View for ParsedInteraction {
    type V = ParsedView;

    open spec fn view(&self) -> ParsedView {
        ParsedView {
            person_names: self.person_names.deep_view(),
            medium: self.medium@,
            location: self.location@,
            their_location: self.their_location.deep_view(),
            topics: self.topics.deep_view(),
            note: self.note.deep_view(),
            date: self.date.deep_view(),
        }
    }
}

impl ParsedInteraction {
    /// A copy with the same content.
    pub fn duplicate(&self) -> (r: Self)
        ensures
            r@ == self@,
    {
        let r = ParsedInteraction {
            person_names: clone_string_vec(&self.person_names),
            medium: self.medium.clone(),
            location: self.location.clone(),
            their_location: clone_opt_string(&self.their_location),
            topics: clone_string_vec(&self.topics),
            note: clone_opt_string(&self.note),
            date: clone_opt_string(&self.date),
        };
        proof {
            assert(r@.person_names =~= self@.person_names);
            assert(r@.topics =~= self@.topics);
        }
        r
    }
}

/// A past correction, replayed to the model as few-shot context: what the
/// model parsed from a given input, and what the user actually saved.
/// Immutable once created.
pub struct CorrectionExample {
    pub original_text: String,
    pub ai_output: String,
    pub user_output: String,
}

/// A correction as the correction store hands it back.
pub struct CorrectionRecord {
    pub original_text: String,
    pub ai_output: String,
    pub user_output: String,
}

/// Turns stored correction rows into the examples the prompt builder takes,
/// in the same order.
pub fn records_to_examples(records: &Vec<CorrectionRecord>) -> (r: Vec<CorrectionExample>)
    ensures
        r@.len() == records@.len(),
        forall|i: int|
            0 <= i < r@.len() ==> {
                &&& #[trigger] r@[i].original_text@ == records@[i].original_text@
                &&& r@[i].ai_output@ == records@[i].ai_output@
                &&& r@[i].user_output@ == records@[i].user_output@
            },
{
    let mut out: Vec<CorrectionExample> = Vec::new();
    let mut i: usize = 0;
    while i < records.len()
        invariant
            0 <= i <= records@.len(),
            out@.len() == i,
            forall|k: int|
                0 <= k < out@.len() ==> {
                    &&& #[trigger] out@[k].original_text@ == records@[k].original_text@
                    &&& out@[k].ai_output@ == records@[k].ai_output@
                    &&& out@[k].user_output@ == records@[k].user_output@
                },
        decreases records@.len() - i,
    {
        out.push(CorrectionExample {
            original_text: records[i].original_text.clone(),
            ai_output: records[i].ai_output.clone(),
            user_output: records[i].user_output.clone(),
        });
        i = i + 1;
    }
    out
}

/// The day an interaction happened, held as plain calendar fields.
#[derive(Debug, Clone, Copy, PartialEq, Eq, Structural)]
pub struct DateParts {
    pub year: i32,
    pub month: u8,
    pub day: u8,
}

/// A single committed interaction between the user and another person.
pub struct Interaction {
    pub id: u128,
    pub date: DateParts,
    pub medium: InteractionMedium,
    pub my_location: String,
    pub their_location: Option<String>,
    pub topics: Vec<String>,
    pub note: Option<String>,
}

impl Interaction {
    /// Creates a new in-person interaction; the other party's location
    /// mirrors the shared one.
    pub fn create_in_person(
        location: String,
        topics: Vec<String>,
        note: Option<String>,
        date: DateParts,
    ) -> (r: Self)
        ensures
            r.date == date,
            r.medium == InteractionMedium::InPerson,
            r.my_location@ == location@,
            r.their_location matches Some(t) && t@ == location@,
            r.topics@ == topics@,
            r.note == note,
    {
        let my_location = location.clone();
        Interaction {
            id: crate::person::fresh_id(),
            date,
            medium: InteractionMedium::InPerson,
            my_location,
            their_location: Some(location),
            topics,
            note,
        }
    }

    /// Creates a new remote interaction; the two locations are independent.
    pub fn create_remote(
        medium: InteractionMedium,
        my_location: String,
        their_location: Option<String>,
        topics: Vec<String>,
        note: Option<String>,
        date: DateParts,
    ) -> (r: Self)
        requires
            medium != InteractionMedium::InPerson,
        ensures
            r.date == date,
            r.medium == medium,
            r.my_location == my_location,
            r.their_location == their_location,
            r.topics@ == topics@,
            r.note == note,
    {
        Interaction {
            id: crate::person::fresh_id(),
            date,
            medium,
            my_location,
            their_location,
            topics,
            note,
        }
    }
}

} // verus!
