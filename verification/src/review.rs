//! The interactive review of a parsed interaction, as a state machine: the
//! session presents the staged record until the user saves, edits a field,
//! or discards. Field edits replace a whole field when the input is
//! non-empty and otherwise keep the current value; saving reports whether
//! the user changed anything, so a correction can be recorded.

use vstd::prelude::*;

use crate::interaction::CorrectionExample;
use crate::interaction::ParsedInteraction;
use crate::interaction::ParsedView;
use crate::jsonwrite::interaction_to_json;
use crate::jsonwrite::spec_interaction_json;
use crate::medium::format_medium;
use crate::medium::spec_format_medium;
use crate::strutil::join_with;
use crate::strutil::lower_of;
use crate::strutil::lowercase;
use crate::strutil::spec_join;
use crate::strutil::spec_entry_list;
use crate::strutil::spec_split_commas;
use crate::strutil::split_on_comma;
use crate::strutil::str_eq;
use crate::strutil::trim_entries;

verus! {

/// What the user asked the review loop to do.
#[derive(Debug, Clone, Copy, PartialEq, Eq, Structural)]
pub enum ReviewDecision {
    /// Commit the record as it stands.
    Save,
    /// Replace the numbered field (1 through 7).
    EditField(u8),
    /// Drop the record and everything edited.
    Discard,
    /// Anything unrecognized: the session keeps presenting.
    Invalid,
}

/// Where a review session stands.
#[derive(Debug, Clone, Copy, PartialEq, Eq, Structural)]
pub enum ReviewState {
    /// Showing the record and waiting for a decision.
    Presenting,
    /// Ended by a save.
    Saved,
    /// Ended by a discard.
    Discarded,
}

/// The choice the lowered input `l` names: save, edit, discard, or nothing.
pub open spec fn spec_choice_of(l: Seq<char>) -> ReviewDecision {
    if l == "s"@ || l == "save"@ {
        ReviewDecision::Save
    } else if l == "d"@ || l == "discard"@ {
        ReviewDecision::Discard
    } else if l == "e"@ || l == "edit"@ {
        ReviewDecision::EditField(0)
    } else {
        ReviewDecision::Invalid
    }
}

/// The field number named by `s`, when it is one of `1` through `7`.
pub open spec fn spec_field_of(s: Seq<char>) -> Option<u8> {
    if s == "1"@ {
        Some(1u8)
    } else if s == "2"@ {
        Some(2u8)
    } else if s == "3"@ {
        Some(3u8)
    } else if s == "4"@ {
        Some(4u8)
    } else if s == "5"@ {
        Some(5u8)
    } else if s == "6"@ {
        Some(6u8)
    } else if s == "7"@ {
        Some(7u8)
    } else {
        None
    }
}

/// The decision a pair of prompt answers names. End of input on the choice
/// prompt is a discard; choosing to edit needs a field number, and end of
/// input or a bad number there is no decision at all.
pub open spec fn spec_decision(choice: Option<Seq<char>>, field: Option<Seq<char>>) -> ReviewDecision {
    match choice {
        None => ReviewDecision::Discard,
        Some(c) => match spec_choice_of(lower_of(c)) {
            ReviewDecision::EditField(_) => match field {
                None => ReviewDecision::Invalid,
                Some(f) => match spec_field_of(f) {
                    Some(n) => ReviewDecision::EditField(n),
                    None => ReviewDecision::Invalid,
                },
            },
            d => d,
        },
    }
}

/// Reads the user's prompt answers as a [`ReviewDecision`]: `s`/`save`,
/// `e`/`edit` (with a field number), `d`/`discard`, case-insensitively; end
/// of input discards.
pub fn make_decision(choice: Option<&str>, field: Option<&str>) -> (r: ReviewDecision)
    ensures
        r == spec_decision(choice.deep_view(), field.deep_view()),
{
    let c = match choice {
        None => {
            return ReviewDecision::Discard;
        },
        Some(c) => c,
    };
    let l = lowercase(c);
    let ls = l.as_str();
    if str_eq(ls, "s") || str_eq(ls, "save") {
        ReviewDecision::Save
    } else if str_eq(ls, "d") || str_eq(ls, "discard") {
        ReviewDecision::Discard
    } else if str_eq(ls, "e") || str_eq(ls, "edit") {
        match field {
            None => ReviewDecision::Invalid,
            Some(f) => {
                if str_eq(f, "1") {
                    ReviewDecision::EditField(1)
                } else if str_eq(f, "2") {
                    ReviewDecision::EditField(2)
                } else if str_eq(f, "3") {
                    ReviewDecision::EditField(3)
                } else if str_eq(f, "4") {
                    ReviewDecision::EditField(4)
                } else if str_eq(f, "5") {
                    ReviewDecision::EditField(5)
                } else if str_eq(f, "6") {
                    ReviewDecision::EditField(6)
                } else if str_eq(f, "7") {
                    ReviewDecision::EditField(7)
                } else {
                    ReviewDecision::Invalid
                }
            },
        }
    } else {
        ReviewDecision::Invalid
    }
}

/// Splits a comma-separated edit into trimmed, non-empty entries.
pub fn parse_entry_list(input: &str) -> (r: Vec<String>)
    ensures
        r.deep_view() == spec_entry_list(spec_split_commas(input@)),
{
    let parts = split_on_comma(input);
    trim_entries(&parts)
}

/// The medium a menu answer selects: `1` through `5` name the five media,
/// anything else (including an empty answer) keeps the current value.
pub open spec fn spec_medium_selection(cur: Seq<char>, input: Seq<char>) -> Seq<char> {
    if input == "1"@ {
        "InPerson"@
    } else if input == "2"@ {
        "Text"@
    } else if input == "3"@ {
        "PhoneCall"@
    } else if input == "4"@ {
        "VideoCall"@
    } else if input == "5"@ {
        "SocialMedia"@
    } else {
        cur
    }
}

/// What editing field `field` with the answer `input` does to the staged
/// record: a whole-field replacement when the input warrants one, otherwise
/// no change.
pub open spec fn spec_apply_edit(v: ParsedView, field: u8, input: Seq<char>) -> ParsedView {
    if field == 1 {
        let entries = spec_entry_list(spec_split_commas(input));
        if input.len() > 0 && entries.len() > 0 {
            ParsedView { person_names: entries, ..v }
        } else {
            v
        }
    } else if field == 2 {
        ParsedView { medium: spec_medium_selection(v.medium, input), ..v }
    } else if field == 3 {
        if input.len() > 0 {
            ParsedView { location: input, ..v }
        } else {
            v
        }
    } else if field == 4 {
        if v.medium == "InPerson"@ {
            v
        } else if input.len() > 0 {
            ParsedView { their_location: Some(input), ..v }
        } else {
            v
        }
    } else if field == 5 {
        let entries = spec_entry_list(spec_split_commas(input));
        if input.len() > 0 && entries.len() > 0 {
            ParsedView { topics: entries, ..v }
        } else {
            v
        }
    } else if field == 6 {
        if input.len() > 0 {
            ParsedView { note: Some(input), ..v }
        } else {
            v
        }
    } else if field == 7 {
        if input.len() > 0 {
            ParsedView { date: Some(input), ..v }
        } else {
            v
        }
    } else {
        v
    }
}

/// Field edits keep a record eligible for commit: a people or topics edit
/// only ever replaces a non-empty list with another non-empty one, so the
/// mandatory fields a successful parse established can never be emptied
/// during review.
pub proof fn lemma_edits_preserve_mandatory_fields(v: ParsedView, field: u8, input: Seq<char>)
    ensures
        v.person_names.len() > 0 ==> spec_apply_edit(v, field, input).person_names.len() > 0,
        v.topics.len() > 0 ==> spec_apply_edit(v, field, input).topics.len() > 0,
{
}

/// Whether saving `current` over the model's `original` records a
/// correction: exactly when the two serialize differently.
pub open spec fn spec_correction_needed(original: ParsedView, current: ParsedView) -> bool {
    spec_interaction_json(original) != spec_interaction_json(current)
}

/// A record saved exactly as the model produced it never needs a
/// correction.
pub proof fn lemma_unchanged_needs_no_correction(v: ParsedView)
    ensures
        !spec_correction_needed(v, v),
{
}

/// An optional string, or a fixed fallback when absent.
pub open spec fn spec_opt_or(o: Option<Seq<char>>, fallback: Seq<char>) -> Seq<char> {
    match o {
        Some(s) => s,
        None => fallback,
    }
}

/// The numbered lines a staged record is presented as: one per editable
/// field, with placeholders for what is not set. For an in-person record the
/// other party's location is display-only, mirroring the shared one.
pub open spec fn spec_render_lines(v: ParsedView) -> Seq<Seq<char>> {
    seq![
        "  1. People:         "@ + spec_join(v.person_names, ", "@),
        "  2. Medium:         "@ + spec_format_medium(v.medium),
        "  3. Location:       "@ + (if v.location.len() == 0 {
            "(not set)"@
        } else {
            v.location
        }),
        "  4. Their location: "@ + (if v.medium == "InPerson"@ {
            "(same as location)"@
        } else {
            spec_opt_or(v.their_location, "(not set)"@)
        }),
        "  5. Topics:         "@ + spec_join(v.topics, ", "@),
        "  6. Note:           "@ + spec_opt_or(v.note, "(none)"@),
        "  7. Date:           "@ + spec_opt_or(v.date, "today"@),
    ]
}

/// Renders a staged record as its seven presentation lines.
pub fn render_parsed(p: &ParsedInteraction) -> (r: Vec<String>)
    ensures
        r.deep_view() == spec_render_lines(p@),
{
    let mut lines: Vec<String> = Vec::new();

    let mut people = "  1. People:         ".to_owned();
    let names = join_with(&p.person_names, ", ");
    people.append(names.as_str());
    lines.push(people);

    let mut medium = "  2. Medium:         ".to_owned();
    let shown = format_medium(p.medium.as_str());
    medium.append(shown.as_str());
    lines.push(medium);

    let mut location = "  3. Location:       ".to_owned();
    if p.location.as_str().is_empty() {
        location.append("(not set)");
    } else {
        location.append(p.location.as_str());
    }
    lines.push(location);

    let mut their = "  4. Their location: ".to_owned();
    if str_eq(p.medium.as_str(), "InPerson") {
        their.append("(same as location)");
    } else {
        match &p.their_location {
            Some(t) => their.append(t.as_str()),
            None => their.append("(not set)"),
        }
    }
    lines.push(their);

    let mut topics = "  5. Topics:         ".to_owned();
    let topic_list = join_with(&p.topics, ", ");
    topics.append(topic_list.as_str());
    lines.push(topics);

    let mut note = "  6. Note:           ".to_owned();
    match &p.note {
        Some(n) => note.append(n.as_str()),
        None => note.append("(none)"),
    }
    lines.push(note);

    let mut date = "  7. Date:           ".to_owned();
    match &p.date {
        Some(d) => date.append(d.as_str()),
        None => date.append("today"),
    }
    lines.push(date);

    proof {
        assert(crate::strutil::views_of(p.person_names@) =~= p.person_names.deep_view());
        assert(crate::strutil::views_of(p.topics@) =~= p.topics.deep_view());
        assert(lines.deep_view() =~~= spec_render_lines(p@));
    }
    lines
}

/// One review of one parsed interaction: the model's original is kept for
/// the correction comparison while the user edits the working copy.
pub struct ReviewSession {
    /// The free-text description the parse came from.
    pub original_text: String,
    /// What the model produced; never modified.
    pub original: ParsedInteraction,
    /// The working copy the user edits.
    pub current: ParsedInteraction,
    /// Where the session stands.
    pub state: ReviewState,
}

impl ReviewSession {
    /// Opens a review of a freshly parsed interaction.
    pub fn new(original_text: String, initial: ParsedInteraction) -> (s: Self)
        ensures
            s.original_text == original_text,
            s.original@ == initial@,
            s.current@ == initial@,
            s.state is Presenting,
    {
        let original = initial.duplicate();
        ReviewSession { original_text, original, current: initial, state: ReviewState::Presenting }
    }

    /// Applies one decision. An edit replaces the working copy's field from
    /// the prompt answer `input` and keeps presenting; an invalid decision
    /// changes nothing; a discard ends the session with nothing to persist;
    /// a save ends it and hands back the correction to record — present
    /// exactly when the user's edits changed the serialized record.
    pub fn step(&mut self, decision: ReviewDecision, input: &str) -> (r: Option<CorrectionExample>)
        requires
            old(self).state is Presenting,
        ensures
            final(self).original_text == old(self).original_text,
            final(self).original@ == old(self).original@,
            match decision {
                ReviewDecision::Save => {
                    &&& final(self).state is Saved
                    &&& final(self).current@ == old(self).current@
                    &&& r is Some <==> spec_correction_needed(
                        old(self).original@,
                        old(self).current@,
                    )
                    &&& r matches Some(c) ==> {
                        &&& c.original_text@ == old(self).original_text@
                        &&& c.ai_output@ == spec_interaction_json(old(self).original@)
                        &&& c.user_output@ == spec_interaction_json(old(self).current@)
                    }
                },
                ReviewDecision::EditField(n) => {
                    &&& final(self).state is Presenting
                    &&& final(self).current@ == spec_apply_edit(old(self).current@, n, input@)
                    &&& r is None
                },
                ReviewDecision::Discard => {
                    &&& final(self).state is Discarded
                    &&& final(self).current@ == old(self).current@
                    &&& r is None
                },
                ReviewDecision::Invalid => {
                    &&& final(self).state is Presenting
                    &&& final(self).current@ == old(self).current@
                    &&& r is None
                },
            },
    {
        match decision {
            ReviewDecision::Save => {
                self.state = ReviewState::Saved;
                let ai_json = interaction_to_json(&self.original);
                let user_json = interaction_to_json(&self.current);
                if ai_json == user_json {
                    None
                } else {
                    Some(
                        CorrectionExample {
                            original_text: self.original_text.clone(),
                            ai_output: ai_json,
                            user_output: user_json,
                        },
                    )
                }
            },
            ReviewDecision::EditField(n) => {
                self.apply_edit(n, input);
                None
            },
            ReviewDecision::Discard => {
                self.state = ReviewState::Discarded;
                None
            },
            ReviewDecision::Invalid => None,
        }
    }

    /// Replaces one field of the working copy from a prompt answer.
    fn apply_edit(&mut self, field: u8, input: &str)
        ensures
            final(self).original_text == old(self).original_text,
            final(self).original@ == old(self).original@,
            final(self).state == old(self).state,
            final(self).current@ == spec_apply_edit(old(self).current@, field, input@),
    {
        if field == 1 {
            let entries = parse_entry_list(input);
            if !input.is_empty() && entries.len() > 0 {
                self.current.person_names = entries;
            }
        } else if field == 2 {
            if str_eq(input, "1") {
                self.current.medium = "InPerson".to_owned();
            } else if str_eq(input, "2") {
                self.current.medium = "Text".to_owned();
            } else if str_eq(input, "3") {
                self.current.medium = "PhoneCall".to_owned();
            } else if str_eq(input, "4") {
                self.current.medium = "VideoCall".to_owned();
            } else if str_eq(input, "5") {
                self.current.medium = "SocialMedia".to_owned();
            }
        } else if field == 3 {
            if !input.is_empty() {
                self.current.location = input.to_owned();
            }
        } else if field == 4 {
            let in_person = str_eq(self.current.medium.as_str(), "InPerson");
            if !in_person && !input.is_empty() {
                self.current.their_location = Some(input.to_owned());
            }
        } else if field == 5 {
            let entries = parse_entry_list(input);
            if !input.is_empty() && entries.len() > 0 {
                self.current.topics = entries;
            }
        } else if field == 6 {
            if !input.is_empty() {
                self.current.note = Some(input.to_owned());
            }
        } else if field == 7 {
            if !input.is_empty() {
                self.current.date = Some(input.to_owned());
            }
        }
    }
}

} // verus!
