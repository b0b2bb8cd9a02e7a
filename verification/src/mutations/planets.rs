//! Creating and renaming planets.
use vstd::prelude::*;
use crate::entities::{Planet, PlanetMember, PlanetRole, PlanetComponent, strings_view};
use crate::errors::{ApiError, create_user_input_error, not_found_error, user_input_error};
use crate::ids::{new_id, is_generated_id};
use crate::permissions::checks::permission_granted;
use crate::permissions::constants::{strs_view, viewer_permissions, member_permissions,
    viewer_permissions_spec, member_permissions_spec};
use crate::permissions::util::check_permission;
use crate::text::{byte_len, str_byte_len};

verus! {

/// The records written when a planet is created.
#[derive(Debug)]
pub struct PlanetSetup {
    pub planet: Planet,
    pub role: PlanetRole,
    pub member: PlanetMember,
    pub component: PlanetComponent,
}

/// Strings for each of the given slices, appended to `out`.
fn push_strings(out: &mut Vec<String>, items: &Vec<&'static str>)
    ensures
        strings_view(final(out)@) == strings_view(old(out)@) + strs_view(items@),
{
    let mut i: usize = 0;
    while i < items.len()
        invariant
            i <= items.len(),
            strings_view(out@) == strings_view(old(out)@) + strs_view(items@).take(i as int),
        decreases items.len() - i,
    {
        let ghost before = out@;
        out.push(String::from_str(items[i]));
        proof {
            assert(strs_view(items@).take(i + 1) =~= strs_view(items@).take(i as int).push(items@[i as int]@));
            assert(strings_view(out@) =~= strings_view(before).push(items@[i as int]@));
        }
        i = i + 1;
    }
    proof {
        assert(strs_view(items@).take(items.len() as int) =~= strs_view(items@));
    }
}

/// Operations on planets.
#[derive(Default)]
pub struct PlanetMutation;

impl PlanetMutation {
    /// Creates a planet owned by `owner_id`: the planet, its default role (holding the viewer
    /// and member permissions), the owner's membership (holding `+owner` and the default
    /// role) and a dummy home component. Names longer than 128 bytes are refused.
    pub fn insert_planet(owner_id: &str, name: String, private: bool, now: i64) -> (r: Result<PlanetSetup, ApiError>)
        ensures
            byte_len(name@) > 128 ==> (r matches Err(e) && e@ == user_input_error(
                "Planet name cannot be longer than 128 characters."@,
                "NAME_TOO_LONG"@,
            )),
            byte_len(name@) <= 128 ==> (r matches Ok(s) && {
                let p = s.planet;
                &&& is_generated_id(p.id@, 16)
                &&& p.name == name
                &&& p.created == now
                &&& p.owner@ == owner_id@
                &&& p.private == private
                &&& p.member_count == 1
                &&& !p.featured && !p.verified && !p.partnered
                &&& p.featured_description@.len() == 0
                &&& p.banned@.len() == 0
                &&& p.css@.len() == 0
                &&& p.description is None
                &&& p.home == Some(s.component.id)
                &&& is_generated_id(s.role.id@, 16)
                &&& s.role.name@ == "Default"@
                &&& s.role.color@ == "#FFFFFF"@
                &&& strings_view(s.role.permissions@) == viewer_permissions_spec() + member_permissions_spec()
                &&& s.role.planet == p.id
                &&& s.role.position == 0
                &&& s.role.default
                &&& is_generated_id(s.member.id@, 16)
                &&& s.member.planet == p.id
                &&& s.member.user@ == owner_id@
                &&& s.member.roles@ == seq![s.role.id]
                &&& strings_view(s.member.permissions@) == seq!["+owner"@]
                &&& s.member.created == now
                &&& !s.member.banned
                &&& is_generated_id(s.component.id@, 16)
                &&& s.component.component_type@ == "dummy"@
                &&& s.component.component_id@ == "dummy"@
                &&& s.component.name@ == "Dummy Component"@
                &&& s.component.planet == p.id
                &&& s.component.created == now
                &&& s.component.parent_id is None
                &&& s.component.position == 0
            }),
    {
        if str_byte_len(name.as_str()) > 128 {
            return Err(create_user_input_error(
                "Planet name cannot be longer than 128 characters.",
                "NAME_TOO_LONG",
            ));
        }
        let planet_id = new_id(16);
        let mut permissions: Vec<String> = Vec::new();
        push_strings(&mut permissions, &viewer_permissions());
        push_strings(&mut permissions, &member_permissions());
        proof {
            assert(strings_view(Seq::<String>::empty()) =~= Seq::<Seq<char>>::empty());
            assert(Seq::<Seq<char>>::empty() + viewer_permissions_spec() =~= viewer_permissions_spec());
        }
        let role = PlanetRole {
            id: new_id(16),
            name: String::from_str("Default"),
            color: String::from_str("#FFFFFF"),
            permissions,
            planet: planet_id.clone(),
            position: 0,
            default: true,
        };
        let owner_permissions = vec![String::from_str("+owner")];
        proof {
            assert(strings_view(owner_permissions@) =~= seq!["+owner"@]);
        }
        let member = PlanetMember {
            id: new_id(16),
            planet: planet_id.clone(),
            user: String::from_str(owner_id),
            roles: vec![role.id.clone()],
            permissions: owner_permissions,
            created: now,
            banned: false,
        };
        let component = PlanetComponent {
            id: new_id(16),
            name: String::from_str("Dummy Component"),
            created: now,
            planet: planet_id.clone(),
            component_type: String::from_str("dummy"),
            component_id: String::from_str("dummy"),
            parent_id: None,
            position: 0,
        };
        let planet = Planet {
            id: planet_id,
            name,
            created: now,
            owner: String::from_str(owner_id),
            private,
            member_count: 1,
            featured: false,
            verified: false,
            partnered: false,
            featured_description: String::new(),
            banned: Vec::new(),
            css: String::new(),
            description: None,
            home: Some(component.id.clone()),
        };
        Ok(PlanetSetup { planet, role, member, component })
    }

    /// Renames a planet. Needs `planet.change_name`.
    pub fn rename_planet(
        planet: Planet,
        member: Option<PlanetMember>,
        roles: Option<Vec<PlanetRole>>,
        name: String,
    ) -> (r: Result<Planet, ApiError>)
        ensures
            !permission_granted("planet.change_name"@, planet, member, roles)
                ==> (r matches Err(e) && e@ == not_found_error()),
            permission_granted("planet.change_name"@, planet, member, roles)
                ==> r == Ok::<Planet, ApiError>(Planet { name, ..planet }),
    {
        check_permission("planet.change_name", &planet, member, roles)?;
        let mut p = planet;
        p.name = name;
        Ok(p)
    }
}

} // verus!
