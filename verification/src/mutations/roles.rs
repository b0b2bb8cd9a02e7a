//! Creating, editing and deleting roles.
use vstd::prelude::*;
use crate::entities::{Planet, PlanetMember, PlanetRole, strings_view};
use crate::errors::{ApiError, create_user_input_error, not_found_error, user_input_error};
use crate::ids::{new_id, is_generated_id};
use crate::permissions::checks::permission_granted;
use crate::permissions::util::check_permission;
use crate::text::{byte_len, str_byte_len};
use super::common::{position_below, position_below_spec, apply_permission_updates, updates_applied};

verus! {

/// Operations on roles.
#[derive(Default)]
pub struct RoleMutation;

impl RoleMutation {
    /// Creates a role named `name` on the planet, below the lowest positioned role
    /// (`lowest_position`), white and without permissions. Needs `planet.roles.create`.
    pub fn insert_role(
        planet: &Planet,
        member: Option<PlanetMember>,
        roles: Option<Vec<PlanetRole>>,
        planet_id: String,
        name: String,
        lowest_position: Option<i32>,
    ) -> (r: Result<PlanetRole, ApiError>)
        requires
            lowest_position matches Some(p) ==> p > i32::MIN,
        ensures
            !permission_granted("planet.roles.create"@, *planet, member, roles)
                ==> (r matches Err(e) && e@ == not_found_error()),
            permission_granted("planet.roles.create"@, *planet, member, roles) ==> (r matches Ok(role) && {
                &&& is_generated_id(role.id@, 16)
                &&& role.name == name
                &&& role.color@ == "#FFFFFF"@
                &&& role.permissions@.len() == 0
                &&& !role.default
                &&& role.planet == planet_id
                &&& role.position == position_below_spec(lowest_position)
            }),
    {
        check_permission("planet.roles.create", planet, member, roles)?;
        let position = position_below(lowest_position);
        Ok(PlanetRole {
            id: new_id(16),
            name,
            color: String::from_str("#FFFFFF"),
            permissions: Vec::new(),
            default: false,
            planet: planet_id,
            position,
        })
    }

    /// Renames a role and changes its color, a color code being 7 or 9 bytes long
    /// (`#RRGGBB` or `#RRGGBBAA`). Needs `planet.roles.edit`.
    ///
    /// Whether the requester's roles rank above this role (the `high_enough` rule) is not
    /// checked: no definition of that ranking exists to state it by.
    pub fn update_role(
        role: PlanetRole,
        planet: &Planet,
        member: Option<PlanetMember>,
        roles: Option<Vec<PlanetRole>>,
        name: String,
        color: String,
    ) -> (r: Result<PlanetRole, ApiError>)
        ensures
            !permission_granted("planet.roles.edit"@, *planet, member, roles)
                ==> (r matches Err(e) && e@ == not_found_error()),
            permission_granted("planet.roles.edit"@, *planet, member, roles) ==> {
                if byte_len(color@) != 7 && byte_len(color@) != 9 {
                    r matches Err(e) && e@ == user_input_error("Invalid color code."@, "INVALID_COLOR"@)
                } else {
                    r == Ok::<PlanetRole, ApiError>(PlanetRole { name, color, ..role })
                }
            },
    {
        check_permission("planet.roles.edit", planet, member, roles)?;
        let n = str_byte_len(color.as_str());
        if n != 7 && n != 9 {
            return Err(create_user_input_error("Invalid color code.", "INVALID_COLOR"));
        }
        let mut r = role;
        r.name = name;
        r.color = color;
        Ok(r)
    }

    /// Applies permission entries to a role's permissions. Needs
    /// `planet.roles.edit_permissions`.
    ///
    /// Whether the requester's roles rank above this role (the `high_enough` rule) is not
    /// checked: no definition of that ranking exists to state it by.
    pub fn update_role_permissions(
        role: PlanetRole,
        planet: &Planet,
        member: Option<PlanetMember>,
        roles: Option<Vec<PlanetRole>>,
        permissions: Vec<String>,
    ) -> (r: Result<PlanetRole, ApiError>)
        ensures
            !permission_granted("planet.roles.edit_permissions"@, *planet, member, roles)
                ==> (r matches Err(e) && e@ == not_found_error()),
            permission_granted("planet.roles.edit_permissions"@, *planet, member, roles)
                ==> (r matches Ok(n) && {
                    &&& strings_view(n.permissions@) == updates_applied(
                        strings_view(role.permissions@),
                        strings_view(permissions@),
                    )
                    &&& n == (PlanetRole { permissions: n.permissions, ..role })
                }),
    {
        check_permission("planet.roles.edit_permissions", planet, member, roles)?;
        let mut r = role;
        let mut current: Vec<String> = Vec::new();
        std::mem::swap(&mut current, &mut r.permissions);
        r.permissions = apply_permission_updates(current, permissions);
        Ok(r)
    }

    /// Decides the deletion of a role. Needs `planet.roles.delete`. `Ok` means the role is
    /// to be removed (and taken from its members).
    ///
    /// Whether the requester's roles rank above this role (the `high_enough` rule) is not
    /// checked: no definition of that ranking exists to state it by.
    pub fn delete_role(
        planet: &Planet,
        member: Option<PlanetMember>,
        roles: Option<Vec<PlanetRole>>,
    ) -> (r: Result<(), ApiError>)
        ensures
            r is Ok <==> permission_granted("planet.roles.delete"@, *planet, member, roles),
            r matches Err(e) ==> e@ == not_found_error(),
    {
        check_permission("planet.roles.delete", planet, member, roles)
    }
}

} // verus!
