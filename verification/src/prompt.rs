//! Deterministic construction of the instruction prompt and of the chat
//! request body. The prompt embeds today's date, the known contact names and
//! a fixed schema-and-rules block, and then replays recent corrections,
//! most recent first, verbatim.

use vstd::prelude::*;

use crate::interaction::CorrectionExample;
use crate::jsonwrite::push_json_string;
use crate::jsonwrite::spec_json_string;
use crate::strutil::join_with;
use crate::strutil::spec_join;
use crate::strutil::spec_u64_string;
use crate::strutil::u64_to_string;
use crate::strutil::views_of;

verus! {

/// The default backend address, used when the environment names none.
pub const DEFAULT_BASE_URL: &'static str = "http://localhost:11434";

/// The default model identifier, used when the environment names none.
pub const DEFAULT_MODEL: &'static str = "llama3.2:3b";

/// How many recent corrections are replayed into a prompt at most.
pub const RECENT_CORRECTIONS_LIMIT: usize = 5;

/// The chat endpoint under a backend address.
pub fn chat_endpoint(base_url: &str) -> (r: String)
    ensures
        r@ == base_url@ + "/api/chat"@,
{
    let mut out = base_url.to_owned();
    out.append("/api/chat");
    out
}

/// How one correction is replayed in the prompt, as example number `num`.
pub open spec fn spec_example_block(c: CorrectionExample, num: nat) -> Seq<char> {
    "\nExample "@ + spec_u64_string(num) + ":\nInput: "@ + c.original_text@ + "\nYou parsed: "@
        + c.ai_output@ + "\nUser corrected to: "@ + c.user_output@ + "\n"@
}

/// Every correction replayed in order, numbered from one.
pub open spec fn spec_example_blocks(cs: Seq<CorrectionExample>) -> Seq<char>
    decreases cs.len(),
{
    if cs.len() == 0 {
        Seq::empty()
    } else {
        spec_example_blocks(cs.drop_last()) + spec_example_block(cs.last(), cs.len())
    }
}

/// The corrections section of the prompt: empty without corrections, else
/// the examples between a heading and an instruction to apply them.
pub open spec fn spec_corrections_block(cs: Seq<CorrectionExample>) -> Seq<char> {
    if cs.len() == 0 {
        Seq::empty()
    } else {
        "\nPast corrections to learn from (most recent first):\n"@ + spec_example_blocks(cs)
            + "\nApply these learnings when parsing the new input.\n"@
    }
}

/// The full instruction prompt: the extraction role with today's date, the
/// known contact names, the reply schema with its per-field rules, and the
/// corrections section.
pub open spec fn spec_system_prompt(
    today: Seq<char>,
    names: Seq<Seq<char>>,
    cs: Seq<CorrectionExample>,
) -> Seq<char> {
    "You extract interaction metadata from natural language descriptions.\nToday's date is "@
        + today + ".\nKnown contacts: ["@ + spec_join(names, ", "@)
        + "]\nRespond with JSON only, no other text.\nJSON schema: { \"personNames\": [\"...\"], \"medium\": \"InPerson|Text|PhoneCall|VideoCall|SocialMedia\", \"location\": \"...\", \"theirLocation\": null, \"topics\": [\"...\"], \"note\": null, \"date\": null }\nRules:\n- personNames is an array of ALL people mentioned in the input. If multiple people are mentioned, include all of them. Use names exactly as written. Match to known contacts when possible. NEVER substitute different names.\n- If the medium is not mentioned, default to \"InPerson\"\n- location: use the most specific location from the input (e.g. \"Charlton, MA\" not just \"home\"). Include the full place name, city, or address as given.\n- theirLocation is only for remote interactions where their location differs; set to null for in-person\n- topics: ONLY include activities or subjects explicitly mentioned in the input. Do NOT infer or add topics that weren't stated. Be aware of slang (e.g. \"gas\" means great/amazing, not cooking).\n- note is for any additional context not captured in other fields; set to null if none\n- date: ONLY set to a \"YYYY-MM-DD\" string if the user explicitly mentions a specific date (e.g. \"yesterday\", \"last Friday\", \"on March 5th\"). Otherwise MUST be null. null means today."@
        + spec_corrections_block(cs)
}

fn push_corrections_block(out: &mut String, corrections: &Vec<CorrectionExample>)
    ensures
        final(out)@ == old(out)@ + spec_corrections_block(corrections@),
{
    if corrections.len() == 0 {
        return ;
    }
    out.append("\nPast corrections to learn from (most recent first):\n");
    let mut i: usize = 0;
    while i < corrections.len()
        invariant
            0 <= i <= corrections@.len(),
            corrections@.len() > 0,
            out@ == old(out)@ + "\nPast corrections to learn from (most recent first):\n"@
                + spec_example_blocks(corrections@.take(i as int)),
        decreases corrections@.len() - i,
    {
        proof {
            assert(corrections@.take(i + 1).drop_last() =~= corrections@.take(i as int));
            assert(corrections@.take(i + 1).last() == corrections@[i as int]);
            assert(corrections@.take(i + 1).len() == i + 1);
        }
        out.append("\nExample ");
        let num = u64_to_string((i + 1) as u64);
        out.append(num.as_str());
        out.append(":\nInput: ");
        out.append(corrections[i].original_text.as_str());
        out.append("\nYou parsed: ");
        out.append(corrections[i].ai_output.as_str());
        out.append("\nUser corrected to: ");
        out.append(corrections[i].user_output.as_str());
        out.append("\n");
        proof {
            assert(out@ =~= old(out)@
                + "\nPast corrections to learn from (most recent first):\n"@
                + spec_example_blocks(corrections@.take(i + 1)));
        }
        i = i + 1;
    }
    out.append("\nApply these learnings when parsing the new input.\n");
    proof {
        assert(corrections@.take(corrections@.len() as int) =~= corrections@);
        assert(out@ =~= old(out)@ + spec_corrections_block(corrections@));
    }
}

/// Builds the instruction prompt: a deterministic function of today's date,
/// the known contact names and the corrections it is given. Corrections are
/// replayed verbatim, in the order given, numbered from one.
pub fn build_system_prompt(
    today: &str,
    known_names: &Vec<String>,
    corrections: &Vec<CorrectionExample>,
) -> (r: String)
    ensures
        r@ == spec_system_prompt(today@, views_of(known_names@), corrections@),
{
    let mut out = String::new();
    out.append(
        "You extract interaction metadata from natural language descriptions.\nToday's date is ",
    );
    out.append(today);
    out.append(".\nKnown contacts: [");
    let names = join_with(known_names, ", ");
    out.append(names.as_str());
    out.append(
        "]\nRespond with JSON only, no other text.\nJSON schema: { \"personNames\": [\"...\"], \"medium\": \"InPerson|Text|PhoneCall|VideoCall|SocialMedia\", \"location\": \"...\", \"theirLocation\": null, \"topics\": [\"...\"], \"note\": null, \"date\": null }\nRules:\n- personNames is an array of ALL people mentioned in the input. If multiple people are mentioned, include all of them. Use names exactly as written. Match to known contacts when possible. NEVER substitute different names.\n- If the medium is not mentioned, default to \"InPerson\"\n- location: use the most specific location from the input (e.g. \"Charlton, MA\" not just \"home\"). Include the full place name, city, or address as given.\n- theirLocation is only for remote interactions where their location differs; set to null for in-person\n- topics: ONLY include activities or subjects explicitly mentioned in the input. Do NOT infer or add topics that weren't stated. Be aware of slang (e.g. \"gas\" means great/amazing, not cooking).\n- note is for any additional context not captured in other fields; set to null if none\n- date: ONLY set to a \"YYYY-MM-DD\" string if the user explicitly mentions a specific date (e.g. \"yesterday\", \"last Friday\", \"on March 5th\"). Otherwise MUST be null. null means today.",
    );
    push_corrections_block(&mut out, corrections);
    proof {
        assert(out@ =~= spec_system_prompt(today@, views_of(known_names@), corrections@));
    }
    out
}

/// The chat request body: the model, a system message holding the prompt, a
/// user message holding the input text, JSON-only format, no streaming.
pub open spec fn spec_chat_request(
    model: Seq<char>,
    system_prompt: Seq<char>,
    user_input: Seq<char>,
) -> Seq<char> {
    "{\"model\":"@ + spec_json_string(model) + ",\"messages\":[{\"role\":\"system\",\"content\":"@
        + spec_json_string(system_prompt) + "},{\"role\":\"user\",\"content\":"@
        + spec_json_string(user_input) + "}],\"format\":\"json\",\"stream\":false}"@
}

/// Frames the chat request body the backend is sent.
pub fn build_chat_request(model: &str, system_prompt: &str, user_input: &str) -> (r: String)
    ensures
        r@ == spec_chat_request(model@, system_prompt@, user_input@),
{
    let mut out = String::new();
    out.append("{\"model\":");
    push_json_string(&mut out, model);
    out.append(",\"messages\":[{\"role\":\"system\",\"content\":");
    push_json_string(&mut out, system_prompt);
    out.append("},{\"role\":\"user\",\"content\":");
    push_json_string(&mut out, user_input);
    out.append("}],\"format\":\"json\",\"stream\":false}");
    proof {
        assert(out@ =~= spec_chat_request(model@, system_prompt@, user_input@));
    }
    out
}

} // verus!
