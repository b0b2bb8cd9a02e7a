//! Rules of the fields that records show to clients.
use vstd::prelude::*;
use crate::entities::{User, Planet, PlanetMember};
use crate::errors::{ApiError, create_forbidden_error, create_internal_server_error,
    forbidden_error, internal_server_error};
use crate::sessions::Session;
use crate::text::str_eq;

verus! {

/// The message for a field the session may not read.
pub open spec fn field_denied_message(name: Seq<char>) -> Seq<char> {
    "You don't have permission to read the field '"@ + name + "'."@
}

/// The first planet of each membership that has one, in order.
pub open spec fn first_planets(ms: Seq<(PlanetMember, Vec<Planet>)>) -> Seq<Planet>
    decreases ms.len(),
{
    if ms.len() == 0 {
        Seq::empty()
    } else {
        let rest = first_planets(ms.drop_last());
        if ms.last().1@.len() > 0 {
            rest.push(ms.last().1@[0])
        } else {
            rest
        }
    }
}

impl User {
    /// Whether the session may read the private field `name` of this user: only the user
    /// and administrators may.
    pub fn user_id_is_same(&self, session: Option<&Session>, name: &str) -> (r: Result<(), ApiError>)
        ensures
            match session {
                None => r matches Err(e) && e@ == internal_server_error(None, "NO_SESSION_ERROR"@),
                Some(s) => match s.user {
                    Some(viewer) if viewer.id@ == self.id@ || viewer.admin => r is Ok,
                    _ => r matches Err(e) && e@ == forbidden_error(Some(field_denied_message(name@)), "FORBIDDEN"@),
                },
            },
    {
        let session = match session {
            Some(s) => s,
            None => {
                return Err(create_internal_server_error(None, "NO_SESSION_ERROR"));
            },
        };
        let allowed = match &session.user {
            Some(viewer) => str_eq(viewer.id.as_str(), self.id.as_str()) || viewer.admin,
            None => false,
        };
        if allowed {
            Ok(())
        } else {
            let message = String::from_str("You don't have permission to read the field '").concat(name).concat("'.");
            Err(create_forbidden_error(Some(message.as_str()), "FORBIDDEN"))
        }
    }

    /// Whether the user has a session open.
    pub fn online(&self) -> (r: bool)
        ensures
            r == (self.sessions@.len() > 0),
    {
        self.sessions.len() > 0
    }
}

/// The planets a user is a member of, from their memberships each with the planets found
/// for it.
pub fn member_of(memberships: Vec<(PlanetMember, Vec<Planet>)>) -> (r: Vec<Planet>)
    ensures
        r@ == first_planets(memberships@),
{
    let ghost all = memberships@;
    let mut ms = memberships;
    let mut out: Vec<Planet> = Vec::new();
    while ms.len() > 0
        invariant
            first_planets(all) == first_planets(ms@) + out@,
        decreases ms.len(),
    {
        let ghost before = ms@;
        let (_m, mut ps) = ms.pop().unwrap();
        proof {
            assert(before.drop_last() =~= ms@);
        }
        if ps.len() > 0 {
            let ghost k = out@;
            let p = ps.remove(0);
            out.insert(0, p);
            proof {
                assert(first_planets(ms@).push(p) + k =~= first_planets(ms@) + out@);
            }
        }
    }
    proof {
        assert(first_planets(ms@) + out@ =~= out@);
    }
    out
}

/// Law: a single membership lists its first planet when it has one, whatever that planet
/// is, and nothing otherwise.
pub proof fn lemma_first_planets_single(m: PlanetMember, ps: Vec<Planet>)
    ensures
        ps@.len() > 0 ==> first_planets(seq![(m, ps)]) == seq![ps@[0]],
        ps@.len() == 0 ==> first_planets(seq![(m, ps)]) == Seq::<Planet>::empty(),
{
    let one = seq![(m, ps)];
    assert(one.drop_last() =~= Seq::<(PlanetMember, Vec<Planet>)>::empty());
    assert(one.last() == (m, ps));
    assert(first_planets(one.drop_last()) == Seq::<Planet>::empty());
    if ps@.len() > 0 {
        assert(Seq::<Planet>::empty().push(ps@[0]) =~= seq![ps@[0]]);
    }
}

/// Law: the planets of two lists of memberships are the planets of the first list followed
/// by those of the second: each membership contributes on its own, in order.
pub proof fn lemma_first_planets_append(a: Seq<(PlanetMember, Vec<Planet>)>, b: Seq<(PlanetMember, Vec<Planet>)>)
    ensures
        first_planets(a + b) == first_planets(a) + first_planets(b),
    decreases b.len(),
{
    if b.len() == 0 {
        assert(a + b =~= a);
        assert(first_planets(a) + first_planets(b) =~= first_planets(a));
    } else {
        let d = b.drop_last();
        lemma_first_planets_append(a, d);
        assert((a + b).drop_last() =~= a + d);
        assert((a + b).last() == b.last());
        if b.last().1@.len() > 0 {
            assert(first_planets(a) + first_planets(d).push(b.last().1@[0])
                =~= (first_planets(a) + first_planets(d)).push(b.last().1@[0]));
        }
    }
}

/// Law: every membership that has a planet contributes exactly one planet, so a user's list
/// holds as many planets as they have memberships with a planet.
pub proof fn lemma_first_planets_count(ms: Seq<(PlanetMember, Vec<Planet>)>)
    ensures
        first_planets(ms).len() == ms.filter(|x: (PlanetMember, Vec<Planet>)| x.1@.len() > 0).len(),
    decreases ms.len(),
{
    reveal_with_fuel(Seq::filter, 1);
    if ms.len() > 0 {
        lemma_first_planets_count(ms.drop_last());
    }
}

} // verus!
