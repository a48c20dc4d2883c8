//! A small JSON writer: the library serializes a [`ParsedInteraction`]
//! itself when recording a correction, and frames its own request bodies, so
//! the exact text is specified and proved rather than taken on trust.

use vstd::prelude::*;

use crate::interaction::ParsedInteraction;
use crate::interaction::ParsedView;
use crate::strutil::push_char;
use crate::strutil::spec_join;
use crate::strutil::lemma_join_push;

verus! {

/// The hexadecimal digit for `d`.
pub open spec fn hex_digit_char(d: int) -> char {
    if d < 10 {
        ((d + 48) as char)
    } else {
        ((d + 87) as char)
    }
}

/// How one character is written inside a JSON string: quote and backslash
/// are escaped, the common control characters get their short escapes, any
/// other control character a `\u00..` escape, and everything else stands as
/// itself.
pub open spec fn esc_char(c: char) -> Seq<char> {
    if c == '"' {
        seq!['\\', '"']
    } else if c == '\\' {
        seq!['\\', '\\']
    } else if c == '\n' {
        seq!['\\', 'n']
    } else if c == '\r' {
        seq!['\\', 'r']
    } else if c == '\t' {
        seq!['\\', 't']
    } else if (c as u32) < 32 {
        seq!['\\', 'u', '0', '0', hex_digit_char((c as u32 / 16) as int), hex_digit_char(
            (c as u32 % 16) as int,
        )]
    } else {
        seq![c]
    }
}

/// `s` escaped for the inside of a JSON string.
pub open spec fn spec_escaped(s: Seq<char>) -> Seq<char>
    decreases s.len(),
{
    if s.len() == 0 {
        Seq::empty()
    } else {
        spec_escaped(s.drop_last()) + esc_char(s.last())
    }
}

/// `s` written as a JSON string.
pub open spec fn spec_json_string(s: Seq<char>) -> Seq<char> {
    seq!['"'] + spec_escaped(s) + seq!['"']
}

/// An optional string written as JSON: `null` when absent.
pub open spec fn spec_json_opt_string(o: Option<Seq<char>>) -> Seq<char> {
    match o {
        Some(s) => spec_json_string(s),
        None => "null"@,
    }
}

/// A list of strings written as a JSON array.
pub open spec fn spec_json_string_array(items: Seq<Seq<char>>) -> Seq<char> {
    seq!['['] + spec_join(items.map_values(|t: Seq<char>| spec_json_string(t)), seq![','])
        + seq![']']
}

fn push_escaped(out: &mut String, s: &str)
    ensures
        final(out)@ == old(out)@ + spec_escaped(s@),
{
    let n: usize = s.unicode_len();
    let mut i: usize = 0;
    while i < n
        invariant
            n == s@.len(),
            0 <= i <= n,
            out@ == old(out)@ + spec_escaped(s@.take(i as int)),
        decreases n - i,
    {
        proof {
            assert(s@.take(i + 1).drop_last() =~= s@.take(i as int));
            assert(s@.take(i + 1).last() == s@[i as int]);
        }
        let c = s.get_char(i);
        if c == '"' {
            push_char(out, '\\');
            push_char(out, '"');
        } else if c == '\\' {
            push_char(out, '\\');
            push_char(out, '\\');
        } else if c == '\n' {
            push_char(out, '\\');
            push_char(out, 'n');
        } else if c == '\r' {
            push_char(out, '\\');
            push_char(out, 'r');
        } else if c == '\t' {
            push_char(out, '\\');
            push_char(out, 't');
        } else if (c as u32) < 32 {
            let code: u32 = c as u32;
            let hi: u8 = (code / 16) as u8 + 48;
            let lo_val: u32 = code % 16;
            let lo: u8 = if lo_val < 10 {
                lo_val as u8 + 48
            } else {
                lo_val as u8 + 87
            };
            push_char(out, '\\');
            push_char(out, 'u');
            push_char(out, '0');
            push_char(out, '0');
            push_char(out, hi as char);
            push_char(out, lo as char);
        } else {
            push_char(out, c);
        }
        proof {
            assert(out@ =~= old(out)@ + spec_escaped(s@.take(i + 1)));
        }
        i = i + 1;
    }
    proof {
        assert(s@.take(n as int) =~= s@);
    }
}

pub(crate) fn push_json_string(out: &mut String, s: &str)
    ensures
        final(out)@ == old(out)@ + spec_json_string(s@),
{
    push_char(out, '"');
    push_escaped(out, s);
    push_char(out, '"');
    proof {
        assert(out@ =~= old(out)@ + spec_json_string(s@));
    }
}

fn push_json_opt_string(out: &mut String, o: &Option<String>)
    ensures
        final(out)@ == old(out)@ + spec_json_opt_string(o.deep_view()),
{
    match o {
        Some(s) => {
            push_json_string(out, s.as_str());
        },
        None => {
            out.append("null");
        },
    }
}

fn push_json_string_array(out: &mut String, items: &Vec<String>)
    ensures
        final(out)@ == old(out)@ + spec_json_string_array(items.deep_view()),
{
    let ghost mapped = items.deep_view().map_values(|t: Seq<char>| spec_json_string(t));
    push_char(out, '[');
    let mut i: usize = 0;
    while i < items.len()
        invariant
            0 <= i <= items@.len(),
            mapped == items.deep_view().map_values(|t: Seq<char>| spec_json_string(t)),
            mapped.len() == items@.len(),
            out@ == old(out)@ + seq!['['] + spec_join(mapped.take(i as int), seq![',']),
        decreases items@.len() - i,
    {
        proof {
            lemma_join_push(mapped.take(i as int), seq![','], mapped[i as int]);
            assert(mapped.take(i as int).push(mapped[i as int]) =~= mapped.take(i + 1));
            assert(mapped[i as int] == spec_json_string(items@[i as int]@));
        }
        if i > 0 {
            push_char(out, ',');
        }
        push_json_string(out, items[i].as_str());
        proof {
            assert(out@ =~= old(out)@ + seq!['['] + spec_join(mapped.take(i + 1), seq![',']));
        }
        i = i + 1;
    }
    push_char(out, ']');
    proof {
        assert(mapped.take(mapped.len() as int) =~= mapped);
        assert(out@ =~= old(out)@ + spec_json_string_array(items.deep_view()));
    }
}

/// The JSON text a [`ParsedInteraction`] serializes to, field by field in a
/// fixed order.
pub open spec fn spec_interaction_json(v: ParsedView) -> Seq<char> {
    "{\"person_names\":"@ + spec_json_string_array(v.person_names) + ",\"medium\":"@
        + spec_json_string(v.medium) + ",\"location\":"@ + spec_json_string(v.location)
        + ",\"their_location\":"@ + spec_json_opt_string(v.their_location) + ",\"topics\":"@
        + spec_json_string_array(v.topics) + ",\"note\":"@ + spec_json_opt_string(v.note)
        + ",\"date\":"@ + spec_json_opt_string(v.date) + "}"@
}

/// Serializes a [`ParsedInteraction`] as JSON. Two records serialize to the
/// same text exactly when this yields the same character sequence, which is
/// how a review session decides whether the user changed anything.
pub fn interaction_to_json(p: &ParsedInteraction) -> (r: String)
    ensures
        r@ == spec_interaction_json(p@),
{
    let mut out = String::new();
    out.append("{\"person_names\":");
    push_json_string_array(&mut out, &p.person_names);
    out.append(",\"medium\":");
    push_json_string(&mut out, p.medium.as_str());
    out.append(",\"location\":");
    push_json_string(&mut out, p.location.as_str());
    out.append(",\"their_location\":");
    push_json_opt_string(&mut out, &p.their_location);
    out.append(",\"topics\":");
    push_json_string_array(&mut out, &p.topics);
    out.append(",\"note\":");
    push_json_opt_string(&mut out, &p.note);
    out.append(",\"date\":");
    push_json_opt_string(&mut out, &p.date);
    out.append("}");
    proof {
        assert(out@ =~= spec_interaction_json(p@));
    }
    out
}

} // verus!
