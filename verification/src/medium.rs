//! The medium of an interaction, and its string representations.

use vstd::prelude::*;

use crate::strutil::str_eq;

verus! {

/// How an interaction took place.
#[derive(Debug, Clone, Copy, PartialEq, Eq, Structural)]
pub enum InteractionMedium {
    InPerson,
    Text,
    PhoneCall,
    VideoCall,
    SocialMedia,
}

impl InteractionMedium {
    /// Every medium, in menu order.
    pub fn all() -> (r: Vec<InteractionMedium>)
        ensures
            r@ == seq![
                InteractionMedium::InPerson,
                InteractionMedium::Text,
                InteractionMedium::PhoneCall,
                InteractionMedium::VideoCall,
                InteractionMedium::SocialMedia,
            ],
    {
        let mut v: Vec<InteractionMedium> = Vec::new();
        v.push(InteractionMedium::InPerson);
        v.push(InteractionMedium::Text);
        v.push(InteractionMedium::PhoneCall);
        v.push(InteractionMedium::VideoCall);
        v.push(InteractionMedium::SocialMedia);
        assert(v@ =~= seq![
            InteractionMedium::InPerson,
            InteractionMedium::Text,
            InteractionMedium::PhoneCall,
            InteractionMedium::VideoCall,
            InteractionMedium::SocialMedia,
        ]);
        v
    }

    /// The name shown to the user.
    pub fn display_name(&self) -> (r: &'static str)
        ensures
            r@ == spec_display_name(*self),
    {
        match self {
            InteractionMedium::InPerson => "In Person",
            InteractionMedium::Text => "Text",
            InteractionMedium::PhoneCall => "Phone Call",
            InteractionMedium::VideoCall => "Video Call",
            InteractionMedium::SocialMedia => "Social Media",
        }
    }

    /// Parse from the stored string representation.
    pub fn from_db_str(s: &str) -> (r: Option<Self>)
        ensures
            r == spec_from_db_str(s@),
    {
        if str_eq(s, "InPerson") {
            Some(InteractionMedium::InPerson)
        } else if str_eq(s, "Text") {
            Some(InteractionMedium::Text)
        } else if str_eq(s, "PhoneCall") {
            Some(InteractionMedium::PhoneCall)
        } else if str_eq(s, "VideoCall") {
            Some(InteractionMedium::VideoCall)
        } else if str_eq(s, "SocialMedia") {
            Some(InteractionMedium::SocialMedia)
        } else {
            None
        }
    }

    /// Convert to the stored string representation.
    pub fn to_db_str(&self) -> (r: &'static str)
        ensures
            r@ == spec_to_db_str(*self),
    {
        match self {
            InteractionMedium::InPerson => "InPerson",
            InteractionMedium::Text => "Text",
            InteractionMedium::PhoneCall => "PhoneCall",
            InteractionMedium::VideoCall => "VideoCall",
            InteractionMedium::SocialMedia => "SocialMedia",
        }
    }
}

/// The stored string form of each medium.
pub open spec fn spec_to_db_str(m: InteractionMedium) -> Seq<char> {
    match m {
        InteractionMedium::InPerson => "InPerson"@,
        InteractionMedium::Text => "Text"@,
        InteractionMedium::PhoneCall => "PhoneCall"@,
        InteractionMedium::VideoCall => "VideoCall"@,
        InteractionMedium::SocialMedia => "SocialMedia"@,
    }
}

/// The medium whose stored form is `s`, if any.
pub open spec fn spec_from_db_str(s: Seq<char>) -> Option<InteractionMedium> {
    if s == "InPerson"@ {
        Some(InteractionMedium::InPerson)
    } else if s == "Text"@ {
        Some(InteractionMedium::Text)
    } else if s == "PhoneCall"@ {
        Some(InteractionMedium::PhoneCall)
    } else if s == "VideoCall"@ {
        Some(InteractionMedium::VideoCall)
    } else if s == "SocialMedia"@ {
        Some(InteractionMedium::SocialMedia)
    } else {
        None
    }
}

/// The user-facing name of each medium.
pub open spec fn spec_display_name(m: InteractionMedium) -> Seq<char> {
    match m {
        InteractionMedium::InPerson => "In Person"@,
        InteractionMedium::Text => "Text"@,
        InteractionMedium::PhoneCall => "Phone Call"@,
        InteractionMedium::VideoCall => "Video Call"@,
        InteractionMedium::SocialMedia => "Social Media"@,
    }
}

/// The two string representations invert each other: storing a medium and
/// reading it back yields the same medium.
pub proof fn lemma_db_str_round_trip(m: InteractionMedium)
    ensures
        spec_from_db_str(spec_to_db_str(m)) == Some(m),
{
    broadcast use vstd::string::group_string_axioms;

    reveal_strlit("InPerson");
    reveal_strlit("Text");
    reveal_strlit("PhoneCall");
    reveal_strlit("VideoCall");
    reveal_strlit("SocialMedia");
    assert("InPerson"@[0] == 'I');
    assert("Text"@[0] == 'T');
    assert("PhoneCall"@[0] == 'P');
    assert("VideoCall"@[0] == 'V');
    assert("SocialMedia"@[0] == 'S');
}

/// The medium a model reply falls back to when it names none.
pub fn default_medium() -> (r: String)
    ensures
        r@ == "InPerson"@,
{
    "InPerson".to_owned()
}

/// Reads a medium out of the free-form string the model produced; anything
/// unrecognized falls back to `InPerson`.
pub fn parse_medium(s: &str) -> (r: InteractionMedium)
    ensures
        r == spec_parse_medium(s@),
{
    match InteractionMedium::from_db_str(s) {
        Some(m) => m,
        None => InteractionMedium::InPerson,
    }
}

/// The medium named by `s`, with `InPerson` as the fallback.
pub open spec fn spec_parse_medium(s: Seq<char>) -> InteractionMedium {
    match spec_from_db_str(s) {
        Some(m) => m,
        None => InteractionMedium::InPerson,
    }
}

/// The user-facing rendering of a medium string as it stands in a parsed
/// interaction: recognized media get their display name, anything else is
/// shown as written.
pub fn format_medium(s: &str) -> (r: String)
    ensures
        r@ == spec_format_medium(s@),
{
    match InteractionMedium::from_db_str(s) {
        Some(m) => m.display_name().to_owned(),
        None => s.to_owned(),
    }
}

/// The rendering `format_medium` returns.
pub open spec fn spec_format_medium(s: Seq<char>) -> Seq<char> {
    match spec_from_db_str(s) {
        Some(m) => spec_display_name(m),
        None => s,
    }
}

} // verus!
