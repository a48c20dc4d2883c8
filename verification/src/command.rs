//! Splitting a command line into the command word and its arguments.

use vstd::prelude::*;

use crate::strutil::spec_trim;
use crate::strutil::trim_str;

verus! {

/// Whether `c` separates the command word from its arguments.
pub open spec fn is_sep(c: char) -> bool {
    c == ' ' || c == '\t'
}

/// The position of the first separator in `s`, if it has one.
pub open spec fn spec_first_sep(s: Seq<char>) -> Option<int>
    decreases s.len(),
{
    if s.len() == 0 {
        None
    } else if is_sep(s[0]) {
        Some(0)
    } else {
        match spec_first_sep(s.drop_first()) {
            Some(i) => Some(i + 1),
            None => None,
        }
    }
}

proof fn lemma_first_sep_at(s: Seq<char>, i: int)
    requires
        0 <= i <= s.len(),
        forall|k: int| 0 <= k < i ==> !is_sep(s[k]),
        i < s.len() ==> is_sep(s[i]),
    ensures
        spec_first_sep(s) == if i < s.len() {
            Some(i)
        } else {
            None::<int>
        },
    decreases i,
{
    if i == 0 {
    } else {
        let t = s.drop_first();
        assert(forall|k: int| 0 <= k < i - 1 ==> !is_sep(t[k]));
        lemma_first_sep_at(t, i - 1);
    }
}

fn is_sep_char(c: char) -> (r: bool)
    ensures
        r == is_sep(c),
{
    c == ' ' || c == '\t'
}

/// Splits a trimmed input line into its command word and the trimmed rest:
/// everything before the first space or tab, and everything after it. A line
/// without a separator is all command.
pub fn parse_command(input: &str) -> (r: (String, String))
    ensures
        ({
            let t = spec_trim(input@);
            match spec_first_sep(t) {
                Some(i) => r.0@ == t.subrange(0, i) && r.1@ == spec_trim(
                    t.subrange(i, t.len() as int),
                ),
                None => r.0@ == t && r.1@.len() == 0,
            }
        }),
{
    let t = trim_str(input);
    let ts = t.as_str();
    let n: usize = ts.unicode_len();
    let mut i: usize = 0;
    while i < n && !is_sep_char(ts.get_char(i))
        invariant
            n == ts@.len(),
            ts@ == t@,
            0 <= i <= n,
            forall|k: int| 0 <= k < i ==> !is_sep(t@[k]),
        decreases n - i,
    {
        i = i + 1;
    }
    proof {
        lemma_first_sep_at(t@, i as int);
    }
    let head = ts.substring_char(0, i).to_owned();
    let rest = if i < n {
        trim_str(ts.substring_char(i, n))
    } else {
        String::new()
    };
    proof {
        if i == n {
            assert(t@.subrange(0, n as int) =~= t@);
        }
    }
    (head, rest)
}

} // verus!
