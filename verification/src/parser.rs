//! Defensive decoding of the model's JSON reply into a [`ParsedInteraction`].
//!
//! Person names and topics are load-bearing: a reply without them fails.
//! Every other field is optional and defaulted, and the medium is passed
//! through as written — it is validated at save time, not here.

use vstd::prelude::*;

use crate::interaction::ParsedInteraction;
use crate::interaction::ParsedView;
use crate::jsonread::json_message_content;
use crate::jsonread::json_ok;
use crate::jsonread::json_parses;
use crate::jsonread::json_str_array_field;
use crate::jsonread::json_str_field;
use crate::jsonread::message_content_of;
use crate::jsonread::str_field_of;
use crate::jsonread::str_items_of;
use crate::medium::default_medium;
use crate::strutil::spec_contains;
use crate::strutil::contains_str;
use crate::strutil::spec_u64_string;
use crate::strutil::truncate_chars;
use crate::strutil::u64_to_string;

verus! {

/// Why a parse attempt failed.
#[derive(Debug)]
pub enum ParseError {
    /// The backend did not answer the reachability probe.
    ModelUnreachable,
    /// The parse request itself timed out.
    ModelTimeout,
    /// The backend answered with a non-success status; the body is kept,
    /// truncated, for diagnostics.
    HttpError { code: u16, body: String },
    /// The reply was not JSON of the expected shape.
    MalformedResponse,
    /// The reply named no people.
    NoPeopleExtracted,
    /// The reply named no topics.
    NoTopicsExtracted,
}

/// The array elements that are non-empty strings, in order: what counts as a
/// person name.
pub open spec fn spec_kept_person_names(items: Seq<Option<Seq<char>>>) -> Seq<Seq<char>>
    decreases items.len(),
{
    if items.len() == 0 {
        Seq::empty()
    } else {
        let rest = spec_kept_person_names(items.drop_last());
        match items.last() {
            Some(n) => if n.len() > 0 {
                rest.push(n)
            } else {
                rest
            },
            None => rest,
        }
    }
}

/// The array elements that are strings, in order (empty ones kept): what
/// counts as a topic.
pub open spec fn spec_kept_strings(items: Seq<Option<Seq<char>>>) -> Seq<Seq<char>>
    decreases items.len(),
{
    if items.len() == 0 {
        Seq::empty()
    } else {
        let rest = spec_kept_strings(items.drop_last());
        match items.last() {
            Some(n) => rest.push(n),
            None => rest,
        }
    }
}

/// The person names a reply carries: the `personNames` array's non-empty
/// strings when that key holds an array, else the legacy scalar `personName`
/// when present and non-empty.
pub open spec fn spec_person_names_of(s: Seq<char>) -> Seq<Seq<char>> {
    match str_items_of(s, "personNames"@) {
        Some(items) => spec_kept_person_names(items),
        None => match str_field_of(s, "personName"@) {
            Some(n) => if n.len() > 0 {
                seq![n]
            } else {
                Seq::empty()
            },
            None => Seq::empty(),
        },
    }
}

/// The medium a reply carries, defaulting to `InPerson` when absent.
pub open spec fn spec_medium_of(s: Seq<char>) -> Seq<char> {
    match str_field_of(s, "medium"@) {
        Some(m) => m,
        None => "InPerson"@,
    }
}

/// The location a reply carries, defaulting to empty when absent.
pub open spec fn spec_location_of(s: Seq<char>) -> Seq<char> {
    match str_field_of(s, "location"@) {
        Some(l) => l,
        None => Seq::empty(),
    }
}

/// The topics a reply carries: the string elements of the `topics` array.
pub open spec fn spec_topics_of(s: Seq<char>) -> Seq<Seq<char>> {
    match str_items_of(s, "topics"@) {
        Some(items) => spec_kept_strings(items),
        None => Seq::empty(),
    }
}

/// What decoding the reply text `s` yields: an error for text that is not
/// JSON, for a reply without people, and for one without topics; otherwise
/// the decoded record with its documented per-field defaults.
pub open spec fn spec_parse_llm_json(s: Seq<char>) -> Result<ParsedView, ParseError> {
    if !json_ok(s) {
        Err(ParseError::MalformedResponse)
    } else if spec_person_names_of(s).len() == 0 {
        Err(ParseError::NoPeopleExtracted)
    } else if spec_topics_of(s).len() == 0 {
        Err(ParseError::NoTopicsExtracted)
    } else {
        Ok(
            ParsedView {
                person_names: spec_person_names_of(s),
                medium: spec_medium_of(s),
                location: spec_location_of(s),
                their_location: str_field_of(s, "theirLocation"@),
                topics: spec_topics_of(s),
                note: str_field_of(s, "note"@),
                date: str_field_of(s, "date"@),
            },
        )
    }
}

/// The view of a parse result: the record's view on success, the error
/// unchanged on failure.
pub open spec fn parse_result_view(r: Result<ParsedInteraction, ParseError>) -> Result<
    ParsedView,
    ParseError,
> {
    match r {
        Ok(p) => Ok(p@),
        Err(e) => Err(e),
    }
}

fn keep_person_names(items: &Vec<Option<String>>) -> (r: Vec<String>)
    ensures
        r.deep_view() == spec_kept_person_names(items.deep_view()),
{
    let ghost all = items.deep_view();
    let mut out: Vec<String> = Vec::new();
    let mut i: usize = 0;
    while i < items.len()
        invariant
            all == items.deep_view(),
            0 <= i <= items@.len(),
            all.len() == items@.len(),
            out.deep_view() == spec_kept_person_names(all.take(i as int)),
        decreases items@.len() - i,
    {
        proof {
            assert(all.take(i + 1).drop_last() =~= all.take(i as int));
            assert(all.take(i + 1).last() == all[i as int]);
        }
        match &items[i] {
            Some(n) => {
                if !n.as_str().is_empty() {
                    out.push(n.clone());
                }
            },
            None => {},
        }
        proof {
            assert(out.deep_view() =~= spec_kept_person_names(all.take(i + 1)));
        }
        i = i + 1;
    }
    proof {
        assert(all.take(all.len() as int) =~= all);
    }
    out
}

fn keep_strings(items: &Vec<Option<String>>) -> (r: Vec<String>)
    ensures
        r.deep_view() == spec_kept_strings(items.deep_view()),
{
    let ghost all = items.deep_view();
    let mut out: Vec<String> = Vec::new();
    let mut i: usize = 0;
    while i < items.len()
        invariant
            all == items.deep_view(),
            0 <= i <= items@.len(),
            all.len() == items@.len(),
            out.deep_view() == spec_kept_strings(all.take(i as int)),
        decreases items@.len() - i,
    {
        proof {
            assert(all.take(i + 1).drop_last() =~= all.take(i as int));
            assert(all.take(i + 1).last() == all[i as int]);
        }
        match &items[i] {
            Some(n) => {
                out.push(n.clone());
            },
            None => {},
        }
        proof {
            assert(out.deep_view() =~= spec_kept_strings(all.take(i + 1)));
        }
        i = i + 1;
    }
    proof {
        assert(all.take(all.len() as int) =~= all);
    }
    out
}

/// Decodes the model's JSON reply text into a [`ParsedInteraction`],
/// defensively: text that is not JSON is `MalformedResponse`; a decoded
/// reply without person names is `NoPeopleExtracted` and one without topics
/// is `NoTopicsExtracted`; all other fields get their documented defaults.
pub fn parse_llm_json(content: &str) -> (r: Result<ParsedInteraction, ParseError>)
    ensures
        parse_result_view(r) == spec_parse_llm_json(content@),
{
    if !json_parses(content) {
        return Err(ParseError::MalformedResponse);
    }
    let person_names: Vec<String> = match json_str_array_field(content, "personNames") {
        Some(items) => keep_person_names(&items),
        None => {
            match json_str_field(content, "personName") {
                Some(n) => {
                    if n.as_str().is_empty() {
                        Vec::new()
                    } else {
                        let mut v: Vec<String> = Vec::new();
                        v.push(n);
                        proof {
                            assert(v.deep_view() =~= seq![
                                str_field_of(content@, "personName"@)->0,
                            ]);
                        }
                        v
                    }
                },
                None => Vec::new(),
            }
        },
    };
    if person_names.len() == 0 {
        proof {
            assert(person_names.deep_view() == spec_person_names_of(content@));
            assert(spec_person_names_of(content@).len() == 0);
        }
        return Err(ParseError::NoPeopleExtracted);
    }
    let topics: Vec<String> = match json_str_array_field(content, "topics") {
        Some(items) => keep_strings(&items),
        None => Vec::new(),
    };
    if topics.len() == 0 {
        return Err(ParseError::NoTopicsExtracted);
    }
    let medium: String = match json_str_field(content, "medium") {
        Some(m) => m,
        None => default_medium(),
    };
    let location: String = match json_str_field(content, "location") {
        Some(l) => l,
        None => String::new(),
    };
    let their_location = json_str_field(content, "theirLocation");
    let note = json_str_field(content, "note");
    let date = json_str_field(content, "date");
    Ok(
        ParsedInteraction {
            person_names,
            medium,
            location,
            their_location,
            topics,
            note,
            date,
        },
    )
}

/// A reply whose `personNames` key holds an array without a single non-empty
/// string name is rejected as `NoPeopleExtracted`, whatever the other fields
/// hold — the legacy scalar is not consulted when the array is present.
pub proof fn lemma_empty_person_names_rejected(s: Seq<char>)
    requires
        json_ok(s),
        str_items_of(s, "personNames"@) matches Some(items) && spec_kept_person_names(items).len()
            == 0,
    ensures
        spec_parse_llm_json(s) == Err::<ParsedView, ParseError>(ParseError::NoPeopleExtracted),
{
}

/// A reply that parses without a `medium` key defaults the medium to
/// `InPerson`.
pub proof fn lemma_missing_medium_defaults_in_person(s: Seq<char>)
    requires
        str_field_of(s, "medium"@) is None,
        spec_parse_llm_json(s) matches Ok(v),
    ensures
        spec_parse_llm_json(s)->Ok_0.medium == "InPerson"@,
{
}

/// The user-facing description of each parse failure.
pub open spec fn spec_parse_error_message(e: ParseError) -> Seq<char> {
    match e {
        ParseError::ModelUnreachable => "Cannot connect to the model backend. Is it running?"@,
        ParseError::ModelTimeout =>
            "Request timed out. Local models can be slow on first run - try again."@,
        ParseError::HttpError { code, body } => "Model request failed (HTTP "@ + spec_u64_string(
            code as nat,
        ) + "): "@ + body@,
        ParseError::MalformedResponse => "Failed to parse the model reply as JSON"@,
        ParseError::NoPeopleExtracted => "LLM did not extract any person names"@,
        ParseError::NoTopicsExtracted => "LLM did not extract any topics"@,
    }
}

impl ParseError {
    /// Renders the failure for the user.
    pub fn message(&self) -> (r: String)
        ensures
            r@ == spec_parse_error_message(*self),
    {
        match self {
            ParseError::ModelUnreachable => "Cannot connect to the model backend. Is it running?".to_owned(),
            ParseError::ModelTimeout =>
                "Request timed out. Local models can be slow on first run - try again.".to_owned(),
            ParseError::HttpError { code, body } => {
                let mut out = "Model request failed (HTTP ".to_owned();
                let digits = u64_to_string(*code as u64);
                out.append(digits.as_str());
                out.append("): ");
                out.append(body.as_str());
                proof {
                    assert(out@ =~= spec_parse_error_message(*self));
                }
                out
            },
            ParseError::MalformedResponse => "Failed to parse the model reply as JSON".to_owned(),
            ParseError::NoPeopleExtracted => "LLM did not extract any person names".to_owned(),
            ParseError::NoTopicsExtracted => "LLM did not extract any topics".to_owned(),
        }
    }
}

/// What handling a full chat response body yields: the reply under
/// `message.content` decoded, or `MalformedResponse` when the body carries
/// no content there.
pub open spec fn spec_handle_chat_response(body: Seq<char>) -> Result<ParsedView, ParseError> {
    match message_content_of(body) {
        Some(content) => spec_parse_llm_json(content),
        None => Err(ParseError::MalformedResponse),
    }
}

/// Decodes a chat response body: navigates to `message.content` and decodes
/// the reply text found there.
pub fn handle_chat_response(body: &str) -> (r: Result<ParsedInteraction, ParseError>)
    ensures
        parse_result_view(r) == spec_handle_chat_response(body@),
{
    match json_message_content(body) {
        Some(content) => parse_llm_json(content.as_str()),
        None => Err(ParseError::MalformedResponse),
    }
}

/// How many characters of a failing response body are kept for diagnostics.
pub const HTTP_BODY_KEPT_CHARS: usize = 200;

/// Classifies a failed transport attempt by the transport layer's own
/// description: a report of a timeout is `ModelTimeout`, anything else means
/// the backend cannot be reached.
pub fn classify_transport_failure(detail: &str) -> (r: ParseError)
    ensures
        spec_contains(detail@, "timed out"@) ==> r is ModelTimeout,
        !spec_contains(detail@, "timed out"@) ==> r is ModelUnreachable,
{
    if contains_str(detail, "timed out") {
        ParseError::ModelTimeout
    } else {
        ParseError::ModelUnreachable
    }
}

/// Wraps a non-success HTTP status as a parse error, keeping at most
/// [`HTTP_BODY_KEPT_CHARS`] characters of the body.
pub fn http_status_error(code: u16, body: &str) -> (r: ParseError)
    ensures
        r matches ParseError::HttpError { code: c, body: b } && c == code && b@ == (
        if body@.len() <= HTTP_BODY_KEPT_CHARS {
            body@
        } else {
            body@.take(HTTP_BODY_KEPT_CHARS as int)
        }),
{
    ParseError::HttpError { code, body: truncate_chars(body, HTTP_BODY_KEPT_CHARS) }
}

} // verus!
