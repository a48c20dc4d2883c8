//! String helpers the pipeline is built on: trimming, splitting, joining,
//! substring search, case handling and decimal formatting, each with an
//! exact specification.

use vstd::prelude::*;

verus! {

broadcast use vstd::string::group_string_axioms;

/// Whether `char::is_whitespace` holds of `c`; the Unicode `White_Space`
/// table itself is not restated here.
pub uninterp spec fn is_whitespace_char(c: char) -> bool;

/// Relies on `char::is_whitespace`: a property of the character alone, and
/// the four ASCII whitespace characters are documented members of the set.
#[verifier::external_body]
pub(crate) fn char_is_whitespace(c: char) -> (r: bool)
    ensures
        r == is_whitespace_char(c),
        c == ' ' || c == '\t' || c == '\n' || c == '\r' ==> r,
{
    c.is_whitespace()
}

/// Relies on `<str as PartialEq>::eq`: string slices compare equal exactly
/// when their characters do.
#[verifier::external_body]
pub(crate) fn str_eq(a: &str, b: &str) -> (r: bool)
    ensures
        r == (a@ == b@),
{
    a == b
}

/// Relies on `String::push`: appends exactly the given character.
#[verifier::external_body]
pub(crate) fn push_char(s: &mut String, c: char) -> (u: ())
    ensures
        final(s)@ == old(s)@.push(c),
{
    s.push(c)
}

/// What `str::to_lowercase` returns; the result depends on the characters
/// alone.
pub uninterp spec fn lower_of(s: Seq<char>) -> Seq<char>;

/// Relies on `str::to_lowercase`: a deterministic function of the string's
/// characters, and an empty string stays empty.
#[verifier::external_body]
pub(crate) fn lowercase(s: &str) -> (r: String)
    ensures
        r@ == lower_of(s@),
        s@.len() == 0 ==> r@.len() == 0,
{
    s.to_lowercase()
}

/// `s` with its leading whitespace removed.
pub open spec fn drop_leading_ws(s: Seq<char>) -> Seq<char>
    decreases s.len(),
{
    if s.len() == 0 {
        s
    } else if is_whitespace_char(s[0]) {
        drop_leading_ws(s.drop_first())
    } else {
        s
    }
}

/// `s` with its trailing whitespace removed.
pub open spec fn drop_trailing_ws(s: Seq<char>) -> Seq<char>
    decreases s.len(),
{
    if s.len() == 0 {
        s
    } else if is_whitespace_char(s.last()) {
        drop_trailing_ws(s.drop_last())
    } else {
        s
    }
}

/// `s` with leading and trailing whitespace removed.
pub open spec fn spec_trim(s: Seq<char>) -> Seq<char> {
    drop_trailing_ws(drop_leading_ws(s))
}

proof fn lemma_drop_leading_ws(s: Seq<char>, i: int)
    requires
        0 <= i <= s.len(),
        forall|k: int| 0 <= k < i ==> is_whitespace_char(s[k]),
        i < s.len() ==> !is_whitespace_char(s[i]),
    ensures
        drop_leading_ws(s) == s.subrange(i, s.len() as int),
    decreases i,
{
    if i == 0 {
        if s.len() == 0 {
            assert(s.subrange(0, 0) =~= s);
        } else {
            assert(s.subrange(0, s.len() as int) =~= s);
        }
    } else {
        let t = s.drop_first();
        assert(forall|k: int| 0 <= k < i - 1 ==> is_whitespace_char(t[k]));
        lemma_drop_leading_ws(t, i - 1);
        assert(t.subrange(i - 1, t.len() as int) =~= s.subrange(i, s.len() as int));
    }
}

proof fn lemma_drop_trailing_ws(s: Seq<char>, j: int)
    requires
        0 <= j <= s.len(),
        forall|k: int| j <= k < s.len() ==> is_whitespace_char(s[k]),
        j > 0 ==> !is_whitespace_char(s[j - 1]),
    ensures
        drop_trailing_ws(s) == s.subrange(0, j),
    decreases s.len(),
{
    if j == s.len() {
        if s.len() == 0 {
            assert(s.subrange(0, 0) =~= s);
        } else {
            assert(s.subrange(0, s.len() as int) =~= s);
        }
    } else {
        let t = s.drop_last();
        lemma_drop_trailing_ws(t, j);
        assert(t.subrange(0, j) =~= s.subrange(0, j));
    }
}

/// Removes leading and trailing whitespace.
pub fn trim_str(s: &str) -> (r: String)
    ensures
        r@ == spec_trim(s@),
{
    let n: usize = s.unicode_len();
    let mut i: usize = 0;
    while i < n && char_is_whitespace(s.get_char(i))
        invariant
            0 <= i <= n,
            n == s@.len(),
            forall|k: int| 0 <= k < i ==> is_whitespace_char(s@[k]),
        decreases n - i,
    {
        i = i + 1;
    }
    let mut j: usize = n;
    while j > i && char_is_whitespace(s.get_char(j - 1))
        invariant
            i <= j <= n,
            n == s@.len(),
            i < n ==> !is_whitespace_char(s@[i as int]),
            forall|k: int| j <= k < n ==> is_whitespace_char(s@[k]),
        decreases j,
    {
        j = j - 1;
    }
    let r = s.substring_char(i, j).to_owned();
    proof {
        lemma_drop_leading_ws(s@, i as int);
        let t = s@.subrange(i as int, s@.len() as int);
        assert(forall|k: int| j - i <= k < t.len() ==> is_whitespace_char(t[k]));
        lemma_drop_trailing_ws(t, j - i);
        assert(t.subrange(0, j - i) =~= s@.subrange(i as int, j as int));
    }
    r
}

/// The views of a vector of strings.
pub open spec fn views_of(v: Seq<String>) -> Seq<Seq<char>> {
    v.map_values(|p: String| p@)
}

/// `parts` joined with the separator `sep` between consecutive parts.
pub open spec fn spec_join(parts: Seq<Seq<char>>, sep: Seq<char>) -> Seq<char>
    decreases parts.len(),
{
    if parts.len() == 0 {
        Seq::empty()
    } else if parts.len() == 1 {
        parts[0]
    } else {
        parts[0] + sep + spec_join(parts.drop_first(), sep)
    }
}

/// Joining one more part appends a separator and that part.
pub proof fn lemma_join_push(parts: Seq<Seq<char>>, sep: Seq<char>, last: Seq<char>)
    ensures
        parts.len() == 0 ==> spec_join(parts.push(last), sep) == last,
        parts.len() > 0 ==> spec_join(parts.push(last), sep) == spec_join(parts, sep) + sep
            + last,
    decreases parts.len(),
{
    if parts.len() == 0 {
        assert(parts.push(last)[0] =~= last);
    } else if parts.len() == 1 {
        let p = parts.push(last);
        assert(p.drop_first() =~= seq![last]);
        assert(p[0] == parts[0]);
        assert(spec_join(seq![last], sep) == seq![last][0]);
        assert(seq![last][0] == last);
        assert(spec_join(p, sep) == parts[0] + sep + last);
    } else {
        let p = parts.push(last);
        assert(p.drop_first() =~= parts.drop_first().push(last));
        lemma_join_push(parts.drop_first(), sep, last);
        assert((parts[0] + sep + (spec_join(parts.drop_first(), sep) + sep + last)) =~= (parts[0]
            + sep + spec_join(parts.drop_first(), sep)) + sep + last);
    }
}

/// Comma splitting, accumulator form: `cur` is the piece being read.
pub open spec fn spec_split_acc(s: Seq<char>, cur: Seq<char>) -> Seq<Seq<char>>
    decreases s.len(),
{
    if s.len() == 0 {
        seq![cur]
    } else if s[0] == ',' {
        seq![cur] + spec_split_acc(s.drop_first(), Seq::empty())
    } else {
        spec_split_acc(s.drop_first(), cur.push(s[0]))
    }
}

/// The pieces of `s` between its commas, in order; always at least one.
pub open spec fn spec_split_commas(s: Seq<char>) -> Seq<Seq<char>> {
    spec_split_acc(s, Seq::empty())
}

/// Splits on commas: the returned parts contain no comma and, joined with a
/// comma, give back `s`.
pub fn split_on_comma(s: &str) -> (r: Vec<String>)
    ensures
        r.deep_view() == spec_split_commas(s@),
        r@.len() >= 1,
        spec_join(views_of(r@), seq![',']) == s@,
        forall|k: int, c: int|
            0 <= k < r@.len() && 0 <= c < r@[k]@.len() ==> r@[k]@[c] != ',',
{
    let n: usize = s.unicode_len();
    let mut parts: Vec<String> = Vec::new();
    let mut start: usize = 0;
    let mut i: usize = 0;
    proof {
        assert(s@.skip(0) =~= s@);
        assert(s@.subrange(0, 0) =~= Seq::<char>::empty());
        assert(views_of(parts@) + spec_split_acc(s@.skip(0), s@.subrange(0, 0))
            =~= spec_split_commas(s@));
    }
    while i < n
        invariant
            0 <= start <= i <= n,
            n == s@.len(),
            parts@.len() == 0 ==> start == 0,
            parts@.len() > 0 ==> spec_join(views_of(parts@), seq![',']) == s@.subrange(
                0,
                start - 1,
            ) && start >= 1 && s@[start - 1] == ',',
            forall|k: int, c: int|
                0 <= k < parts@.len() && 0 <= c < parts@[k]@.len() ==> parts@[k]@[c] != ',',
            forall|k: int| start <= k < i ==> s@[k] != ',',
            spec_split_commas(s@) == views_of(parts@) + spec_split_acc(
                s@.skip(i as int),
                s@.subrange(start as int, i as int),
            ),
        decreases n - i,
    {
        let ghost cur = s@.subrange(start as int, i as int);
        proof {
            assert(s@.skip(i as int)[0] == s@[i as int]);
            assert(s@.skip(i as int).drop_first() =~= s@.skip(i + 1));
        }
        let c = s.get_char(i);
        if c == ',' {
            let piece = s.substring_char(start, i).to_owned();
            proof {
                lemma_join_push(views_of(parts@), seq![','], piece@);
                assert(views_of(parts@.push(piece)) =~= views_of(parts@).push(piece@));
                if parts@.len() == 0 {
                    assert(piece@ =~= s@.subrange(0, i as int));
                } else {
                    assert(s@.subrange(0, start - 1) + seq![','] + s@.subrange(
                        start as int,
                        i as int,
                    ) =~= s@.subrange(0, i as int));
                }
                assert(spec_split_acc(s@.skip(i as int), cur) == seq![cur] + spec_split_acc(
                    s@.skip(i + 1),
                    Seq::empty(),
                ));
                assert(s@.subrange(i + 1, i + 1) =~= Seq::<char>::empty());
                assert(views_of(parts@.push(piece)) + spec_split_acc(
                    s@.skip(i + 1),
                    s@.subrange(i + 1, i + 1),
                ) =~= views_of(parts@) + (seq![cur] + spec_split_acc(
                    s@.skip(i + 1),
                    Seq::empty(),
                )));
            }
            parts.push(piece);
            start = i + 1;
        } else {
            proof {
                assert(spec_split_acc(s@.skip(i as int), cur) == spec_split_acc(
                    s@.skip(i + 1),
                    cur.push(s@[i as int]),
                ));
                assert(cur.push(s@[i as int]) =~= s@.subrange(start as int, i + 1));
            }
        }
        i = i + 1;
    }
    let piece = s.substring_char(start, n).to_owned();
    proof {
        lemma_join_push(views_of(parts@), seq![','], piece@);
        assert(views_of(parts@.push(piece)) =~= views_of(parts@).push(piece@));
        if parts@.len() == 0 {
            assert(piece@ =~= s@);
        } else {
            assert(s@.subrange(0, start - 1) + seq![','] + s@.subrange(start as int, n as int)
                =~= s@);
        }
        assert(s@.skip(n as int) =~= Seq::<char>::empty());
        assert(spec_split_acc(s@.skip(n as int), piece@) == seq![piece@]);
        assert(views_of(parts@.push(piece)) =~= views_of(parts@) + seq![piece@]);
    }
    parts.push(piece);
    proof {
        assert(parts.deep_view() =~= views_of(parts@));
        assert(views_of(parts@) =~= spec_split_commas(s@));
    }
    parts
}

/// Joins the strings of `v` with the separator `sep` between consecutive
/// elements.
pub fn join_with(v: &Vec<String>, sep: &str) -> (r: String)
    ensures
        r@ == spec_join(views_of(v@), sep@),
{
    let mut out = String::new();
    let mut i: usize = 0;
    while i < v.len()
        invariant
            0 <= i <= v@.len(),
            out@ == spec_join(views_of(v@.subrange(0, i as int)), sep@),
        decreases v@.len() - i,
    {
        proof {
            lemma_join_push(views_of(v@.subrange(0, i as int)), sep@, v@[i as int]@);
            assert(views_of(v@.subrange(0, i + 1)) =~= views_of(v@.subrange(0, i as int)).push(
                v@[i as int]@,
            ));
        }
        if i > 0 {
            out.append(sep);
        }
        out.append(v[i].as_str());
        i = i + 1;
    }
    proof {
        assert(v@.subrange(0, v@.len() as int) =~= v@);
    }
    out
}

/// A list of entries, each trimmed and the empty ones dropped.
pub open spec fn spec_entry_list(parts: Seq<Seq<char>>) -> Seq<Seq<char>>
    decreases parts.len(),
{
    if parts.len() == 0 {
        Seq::empty()
    } else {
        let rest = spec_entry_list(parts.drop_last());
        let t = spec_trim(parts.last());
        if t.len() > 0 {
            rest.push(t)
        } else {
            rest
        }
    }
}

/// Trims every string of `v` and drops the ones left empty.
pub fn trim_entries(v: &Vec<String>) -> (r: Vec<String>)
    ensures
        r.deep_view() == spec_entry_list(v.deep_view()),
{
    let ghost all = v.deep_view();
    let mut out: Vec<String> = Vec::new();
    let mut i: usize = 0;
    while i < v.len()
        invariant
            all == v.deep_view(),
            all.len() == v@.len(),
            0 <= i <= v@.len(),
            out.deep_view() == spec_entry_list(all.take(i as int)),
        decreases v@.len() - i,
    {
        proof {
            assert(all.take(i + 1).drop_last() =~= all.take(i as int));
            assert(all.take(i + 1).last() == all[i as int]);
        }
        let t = trim_str(v[i].as_str());
        if !t.as_str().is_empty() {
            out.push(t);
        }
        proof {
            assert(out.deep_view() =~= spec_entry_list(all.take(i + 1)));
        }
        i = i + 1;
    }
    proof {
        assert(all.take(all.len() as int) =~= all);
    }
    out
}

/// Whether `needle` occurs as a contiguous run of characters in `hay`.
pub open spec fn spec_contains(hay: Seq<char>, needle: Seq<char>) -> bool {
    exists|k: int|
        0 <= k <= hay.len() - needle.len() && #[trigger] hay.subrange(k, k + needle.len())
            == needle
}

/// Substring search by characters.
pub fn contains_str(hay: &str, needle: &str) -> (r: bool)
    ensures
        r == spec_contains(hay@, needle@),
{
    let n: usize = hay.unicode_len();
    let m: usize = needle.unicode_len();
    if m > n {
        return false;
    }
    let mut k: usize = 0;
    while k <= n - m
        invariant
            0 <= k <= n - m + 1,
            m <= n,
            n == hay@.len(),
            m == needle@.len(),
            forall|q: int|
                0 <= q < k ==> #[trigger] hay@.subrange(q, q + needle@.len()) != needle@,
        decreases n + 1 - k,
    {
        let mut j: usize = 0;
        while j < m && hay.get_char(k + j) == needle.get_char(j)
            invariant
                0 <= j <= m,
                k + m <= n,
                n == hay@.len(),
                m == needle@.len(),
                forall|c: int| 0 <= c < j ==> hay@[k + c] == needle@[c],
            decreases m - j,
        {
            j = j + 1;
        }
        if j == m {
            proof {
                assert(hay@.subrange(k as int, k + needle@.len()) =~= needle@);
            }
            return true;
        }
        proof {
            assert(hay@.subrange(k as int, k + needle@.len())[j as int] == hay@[k + j]);
        }
        k = k + 1;
    }
    false
}

/// The character's code, with ASCII capitals folded to lower case.
pub open spec fn ascii_low_code(c: char) -> u32 {
    if 65 <= c as u32 <= 90 {
        (c as u32 + 32) as u32
    } else {
        c as u32
    }
}

/// Equality of two strings up to ASCII case.
pub open spec fn spec_eq_ignore_ascii_case(a: Seq<char>, b: Seq<char>) -> bool {
    a.len() == b.len() && forall|i: int| 0 <= i < a.len() ==> ascii_low_code(a[i]) == ascii_low_code(b[i])
}

/// Compares two strings, treating ASCII capitals as their lower-case forms.
pub fn eq_ignore_ascii_case_str(a: &str, b: &str) -> (r: bool)
    ensures
        r == spec_eq_ignore_ascii_case(a@, b@),
{
    let n: usize = a.unicode_len();
    let m: usize = b.unicode_len();
    if n != m {
        return false;
    }
    let mut i: usize = 0;
    while i < n
        invariant
            0 <= i <= n,
            n == a@.len(),
            n == b@.len(),
            forall|k: int| 0 <= k < i ==> ascii_low_code(a@[k]) == ascii_low_code(b@[k]),
        decreases n - i,
    {
        let ca = a.get_char(i) as u32;
        let cb = b.get_char(i) as u32;
        let la = if 65 <= ca && ca <= 90 {
            ca + 32
        } else {
            ca
        };
        let lb = if 65 <= cb && cb <= 90 {
            cb + 32
        } else {
            cb
        };
        if la != lb {
            return false;
        }
        i = i + 1;
    }
    true
}

/// Keeps at most the first `n` characters of `s`.
pub fn truncate_chars(s: &str, n: usize) -> (r: String)
    ensures
        r@ == if s@.len() <= n {
            s@
        } else {
            s@.take(n as int)
        },
{
    let len: usize = s.unicode_len();
    if len <= n {
        s.to_owned()
    } else {
        s.substring_char(0, n).to_owned()
    }
}

/// Copies a vector of strings; the copy's view is the original's.
pub fn clone_string_vec(v: &Vec<String>) -> (r: Vec<String>)
    ensures
        r@ == v@,
{
    let mut out: Vec<String> = Vec::new();
    let mut i: usize = 0;
    while i < v.len()
        invariant
            0 <= i <= v@.len(),
            out@ == v@.subrange(0, i as int),
        decreases v@.len() - i,
    {
        out.push(v[i].clone());
        proof {
            assert(out@ =~= v@.subrange(0, i + 1));
        }
        i = i + 1;
    }
    proof {
        assert(v@.subrange(0, v@.len() as int) =~= v@);
    }
    out
}

/// Copies an optional string.
pub fn clone_opt_string(v: &Option<String>) -> (r: Option<String>)
    ensures
        r == *v,
{
    match v {
        None => None,
        Some(s) => Some(s.clone()),
    }
}

/// The decimal digits of `n`, most significant first.
pub open spec fn spec_u64_string(n: nat) -> Seq<char>
    decreases n,
{
    if n < 10 {
        seq![((n + 48) as char)]
    } else {
        spec_u64_string(n / 10).push((((n % 10) + 48) as char))
    }
}

/// Formats `n` in decimal.
pub fn u64_to_string(n: u64) -> (r: String)
    ensures
        r@ == spec_u64_string(n as nat),
    decreases n,
{
    if n < 10 {
        let mut s = String::new();
        push_char(&mut s, (48 + n as u8) as char);
        s
    } else {
        let mut s = u64_to_string(n / 10);
        push_char(&mut s, (48 + (n % 10) as u8) as char);
        s
    }
}

} // verus!
