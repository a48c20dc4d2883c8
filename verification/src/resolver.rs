//! Entity resolution: mapping a free-text person name to the known contacts
//! it could mean. A name matches a contact when it occurs, case-insensitively,
//! inside the contact's name or nickname. No match, one match and several
//! matches are three explicit outcomes; among several, an exact full-name
//! equality (ignoring ASCII case) is preferred as a tie-break, and otherwise
//! the resolver never guesses.

use vstd::prelude::*;

use crate::person::Person;
use crate::strutil::contains_str;
use crate::strutil::eq_ignore_ascii_case_str;
use crate::strutil::lower_of;
use crate::strutil::lowercase;
use crate::strutil::spec_contains;
use crate::strutil::spec_eq_ignore_ascii_case;

verus! {

/// The outcome of resolving one name against the candidate pool.
pub enum Resolution {
    /// Exactly one contact can be meant.
    Resolved(Person),
    /// Several contacts match and none wins the tie-break; the caller must
    /// ask for a narrower name.
    Ambiguous(Vec<Person>),
    /// No contact matches.
    NotFound,
}

/// Whether the query matches a contact: the lowered query occurs in the
/// lowered contact name, or in the lowered nickname when there is one.
pub open spec fn spec_person_matches(query: Seq<char>, p: Person) -> bool {
    spec_contains(lower_of(p.name@), lower_of(query)) || (p.nickname matches Some(n)
        && spec_contains(lower_of(n@), lower_of(query)))
}

/// The contacts of the pool the query matches, in pool order.
pub open spec fn spec_matches(query: Seq<char>, pool: Seq<Person>) -> Seq<Person>
    decreases pool.len(),
{
    if pool.len() == 0 {
        Seq::empty()
    } else {
        let rest = spec_matches(query, pool.drop_last());
        if spec_person_matches(query, pool.last()) {
            rest.push(pool.last())
        } else {
            rest
        }
    }
}

/// The first of the matches whose full name equals the query up to ASCII
/// case, if any: the tie-break.
pub open spec fn spec_first_exact(query: Seq<char>, ms: Seq<Person>) -> Option<Person>
    decreases ms.len(),
{
    if ms.len() == 0 {
        None
    } else if spec_eq_ignore_ascii_case(ms[0].name@, query) {
        Some(ms[0])
    } else {
        spec_first_exact(query, ms.drop_first())
    }
}

proof fn lemma_first_exact_skip(query: Seq<char>, ms: Seq<Person>, j: int)
    requires
        0 <= j <= ms.len(),
        forall|k: int| 0 <= k < j ==> !spec_eq_ignore_ascii_case(ms[k].name@, query),
    ensures
        spec_first_exact(query, ms) == spec_first_exact(query, ms.skip(j)),
    decreases j,
{
    if j == 0 {
        assert(ms.skip(0) =~= ms);
    } else {
        let t = ms.drop_first();
        assert(forall|k: int| 0 <= k < j - 1 ==> !spec_eq_ignore_ascii_case(t[k].name@, query));
        lemma_first_exact_skip(query, t, j - 1);
        assert(t.skip(j - 1) =~= ms.skip(j));
    }
}

fn person_matches(lower_query: &String, p: &Person) -> (r: bool)
    requires
        exists|q: Seq<char>| lower_query@ == lower_of(q),
    ensures
        forall|q: Seq<char>| lower_query@ == lower_of(q) ==> r == spec_person_matches(q, *p),
{
    let name_lower = lowercase(p.name.as_str());
    if contains_str(name_lower.as_str(), lower_query.as_str()) {
        return true;
    }
    match &p.nickname {
        Some(n) => {
            let nick_lower = lowercase(n.as_str());
            contains_str(nick_lower.as_str(), lower_query.as_str())
        },
        None => false,
    }
}

/// Resolves one name against the candidate pool: no match is `NotFound`;
/// one match is `Resolved`; among several matches an exact full-name
/// equality (ignoring ASCII case) wins, and otherwise all matches come back
/// as `Ambiguous` for the caller to narrow.
pub fn resolve(name: &str, pool: &Vec<Person>) -> (r: Resolution)
    ensures
        ({
            let ms = spec_matches(name@, pool@);
            match r {
                Resolution::NotFound => ms.len() == 0,
                Resolution::Resolved(p) => (ms.len() == 1 && p == ms[0]) || (ms.len() > 1
                    && spec_first_exact(name@, ms) == Some(p)),
                Resolution::Ambiguous(cands) => ms.len() > 1 && spec_first_exact(name@, ms)
                    is None && cands@ == ms,
            }
        }),
{
    let lower = lowercase(name);
    let ghost q = name@;
    let mut found: Vec<Person> = Vec::new();
    let mut i: usize = 0;
    while i < pool.len()
        invariant
            lower@ == lower_of(q),
            q == name@,
            0 <= i <= pool@.len(),
            found@ == spec_matches(q, pool@.take(i as int)),
        decreases pool@.len() - i,
    {
        proof {
            assert(pool@.take(i + 1).drop_last() =~= pool@.take(i as int));
            assert(pool@.take(i + 1).last() == pool@[i as int]);
        }
        if person_matches(&lower, &pool[i]) {
            found.push(pool[i].duplicate());
            proof {
                assert(found@ =~= spec_matches(q, pool@.take(i + 1)));
            }
        } else {
            proof {
                assert(found@ =~= spec_matches(q, pool@.take(i + 1)));
            }
        }
        i = i + 1;
    }
    proof {
        assert(pool@.take(pool@.len() as int) =~= pool@);
    }
    if found.len() == 0 {
        return Resolution::NotFound;
    }
    if found.len() == 1 {
        return Resolution::Resolved(found[0].duplicate());
    }
    let ghost ms = found@;
    let mut j: usize = 0;
    while j < found.len()
        invariant
            ms == found@,
            ms == spec_matches(q, pool@),
            ms.len() >= 2,
            0 <= j <= found@.len(),
            q == name@,
            forall|k: int| 0 <= k < j ==> !spec_eq_ignore_ascii_case(ms[k].name@, q),
        decreases found@.len() - j,
    {
        if eq_ignore_ascii_case_str(found[j].name.as_str(), name) {
            proof {
                lemma_first_exact_skip(q, ms, j as int);
                assert(ms.skip(j as int)[0] == ms[j as int]);
                assert(spec_eq_ignore_ascii_case(ms.skip(j as int)[0].name@, q));
                assert(spec_first_exact(q, ms.skip(j as int)) == Some(ms[j as int]));
            }
            return Resolution::Resolved(found[j].duplicate());
        }
        j = j + 1;
    }
    proof {
        lemma_first_exact_skip(q, ms, ms.len() as int);
        assert(ms.skip(ms.len() as int) =~= Seq::<Person>::empty());
    }
    Resolution::Ambiguous(found)
}

} // verus!
