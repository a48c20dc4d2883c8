//! People in the user's network, as entity resolution sees them.

use vstd::prelude::*;

verus! {

/// Relies on `uuid::Uuid::new_v4` and `uuid::Uuid::as_u128`: a freshly drawn
/// random identifier, carried as its 128-bit value. Randomness promises
/// nothing that a contract could state.
#[verifier::external_body]
pub fn fresh_id() -> u128 {
    uuid::Uuid::new_v4().as_u128()
}

/// A structured physical address.
pub struct Address {
    pub street: String,
    pub city: String,
    pub state: String,
    pub zip: String,
    pub country: String,
}

/// The value of a contact entry: free text, or a structured address.
pub enum ContactValue {
    StringValue { value: String },
    AddressValue { value: Address },
}

/// A person in the user's network (including the user).
pub struct Person {
    pub id: u128,
    pub name: String,
    pub nickname: Option<String>,
    pub how_we_met: Option<String>,
    pub birthday: Option<crate::interaction::DateParts>,
    pub notes: Option<String>,
    pub location: Option<String>,
    pub is_self: bool,
    pub archived: bool,
}

impl Person {
    /// A minimal person entity: just a name, everything else unset.
    pub fn create(name: String) -> (r: Self)
        ensures
            r.name == name,
            r.nickname is None,
            r.how_we_met is None,
            r.birthday is None,
            r.notes is None,
            r.location is None,
            !r.is_self,
            !r.archived,
    {
        Person {
            id: fresh_id(),
            name,
            nickname: None,
            how_we_met: None,
            birthday: None,
            notes: None,
            location: None,
            is_self: false,
            archived: false,
        }
    }

    /// A copy with the same fields.
    pub fn duplicate(&self) -> (r: Self)
        ensures
            r == *self,
    {
        Person {
            id: self.id,
            name: self.name.clone(),
            nickname: crate::strutil::clone_opt_string(&self.nickname),
            how_we_met: crate::strutil::clone_opt_string(&self.how_we_met),
            birthday: self.birthday,
            notes: crate::strutil::clone_opt_string(&self.notes),
            location: crate::strutil::clone_opt_string(&self.location),
            is_self: self.is_self,
            archived: self.archived,
        }
    }

    /// The user's own entry.
    pub fn create_self(name: String) -> (r: Self)
        ensures
            r.name == name,
            r.nickname is None,
            r.is_self,
            !r.archived,
    {
        let mut p = Person::create(name);
        p.is_self = true;
        p
    }
}

/// The names of every person but the user's own entry, in order.
pub open spec fn spec_known_names(p: Seq<Person>) -> Seq<Seq<char>>
    decreases p.len(),
{
    if p.len() == 0 {
        Seq::empty()
    } else {
        let rest = spec_known_names(p.drop_last());
        if !p.last().is_self {
            rest.push(p.last().name@)
        } else {
            rest
        }
    }
}

/// The names handed to the prompt as known contacts: every person but the
/// user's own entry, in order.
pub fn known_names(people: &Vec<Person>) -> (r: Vec<String>)
    ensures
        r.deep_view() == spec_known_names(people@),
{
    let mut out: Vec<String> = Vec::new();
    let mut i: usize = 0;
    while i < people.len()
        invariant
            0 <= i <= people@.len(),
            out.deep_view() == spec_known_names(people@.take(i as int)),
        decreases people@.len() - i,
    {
        proof {
            assert(people@.take(i + 1).drop_last() =~= people@.take(i as int));
            assert(people@.take(i + 1).last() == people@[i as int]);
        }
        if !people[i].is_self {
            let name = people[i].name.clone();
            out.push(name);
            proof {
                assert(out.deep_view() =~= spec_known_names(people@.take(i + 1)));
            }
        } else {
            proof {
                assert(out.deep_view() =~= spec_known_names(people@.take(i + 1)));
            }
        }
        i = i + 1;
    }
    proof {
        assert(people@.take(people@.len() as int) =~= people@);
    }
    out
}

} // verus!
