//! Creating, deleting and renaming planet components.
use vstd::prelude::*;
use crate::entities::{Planet, PlanetMember, PlanetRole, PlanetComponent};
use crate::errors::{ApiError, create_user_input_error, not_found_error, user_input_error,
    internal_server_error};
use crate::ids::{new_id, is_generated_id};
use crate::permissions::checks::permission_granted;
use crate::permissions::util::check_permission;
use crate::components::{create_component, delete_component};
use crate::text::str_eq;
use super::common::{position_below, position_below_spec};

verus! {

/// Operations on planet components.
#[derive(Default)]
pub struct ComponentMutation;

impl ComponentMutation {
    /// Creates a component of type `component` named `name` on the planet, below the lowest
    /// positioned component (`lowest_position`). Needs `planet.component.create`.
    pub fn create_component(
        planet: &Planet,
        member: Option<PlanetMember>,
        roles: Option<Vec<PlanetRole>>,
        user_id: Option<String>,
        planet_id: String,
        name: String,
        component: String,
        lowest_position: Option<i32>,
        now: i64,
    ) -> (r: Result<PlanetComponent, ApiError>)
        requires
            permission_granted("planet.component.create"@, *planet, member, roles) ==> user_id is Some,
            lowest_position matches Some(p) ==> p > i32::MIN,
        ensures
            !permission_granted("planet.component.create"@, *planet, member, roles)
                ==> (r matches Err(e) && e@ == not_found_error()),
            permission_granted("planet.component.create"@, *planet, member, roles) ==> {
                if component@ == "dummy"@ {
                    r matches Ok(c) && {
                        &&& is_generated_id(c.id@, 16)
                        &&& c.name == name
                        &&& c.created == now
                        &&& c.planet == planet_id
                        &&& c.component_type == component
                        &&& c.component_id@ == "dummy"@
                        &&& c.parent_id is None
                        &&& c.position == position_below_spec(lowest_position)
                    }
                } else {
                    r matches Err(e) && e@ == user_input_error(
                        "That component type isn't valid."@,
                        "INVALID_TYPE"@,
                    )
                }
            },
    {
        check_permission("planet.component.create", planet, member, roles)?;
        let owner = match user_id {
            Some(u) => u,
            None => {
                proof {
                    assert(false);
                }
                String::new()
            },
        };
        let component_id = create_component(component.as_str(), planet_id.clone(), owner)?;
        let position = position_below(lowest_position);
        Ok(PlanetComponent {
            id: new_id(16),
            name,
            created: now,
            planet: planet_id,
            component_type: component,
            component_id,
            parent_id: None,
            position,
        })
    }

    /// Decides the deletion of a component: needs `planet.component.delete`, and the home
    /// component of a planet cannot be deleted. `Ok` means the component is to be removed.
    pub fn delete_component(
        planet: &Planet,
        member: Option<PlanetMember>,
        roles: Option<Vec<PlanetRole>>,
        component: &PlanetComponent,
    ) -> (r: Result<(), ApiError>)
        ensures
            !permission_granted("planet.component.delete"@, *planet, member, roles)
                ==> (r matches Err(e) && e@ == not_found_error()),
            permission_granted("planet.component.delete"@, *planet, member, roles) ==> {
                if planet.home matches Some(h) && h@ == component.id@ {
                    r matches Err(e) && e@ == user_input_error(
                        "You can't delete the home component."@,
                        "HOME"@,
                    )
                } else if component.component_type@ != "dummy"@ {
                    r matches Err(e) && e@ == internal_server_error(None, "UNSUPPORTED_COMPONENT"@)
                } else {
                    r is Ok
                }
            },
    {
        check_permission("planet.component.delete", planet, member, roles)?;
        match &planet.home {
            Some(h) => {
                if str_eq(h.as_str(), component.id.as_str()) {
                    return Err(create_user_input_error("You can't delete the home component.", "HOME"));
                }
            },
            None => {},
        }
        delete_component(component.component_type.as_str(), component.id.clone())?;
        Ok(())
    }

    /// Renames a component. Needs `planet.component.rename`.
    pub fn rename_component(
        planet: &Planet,
        member: Option<PlanetMember>,
        roles: Option<Vec<PlanetRole>>,
        component: PlanetComponent,
        name: String,
    ) -> (r: Result<PlanetComponent, ApiError>)
        ensures
            !permission_granted("planet.component.rename"@, *planet, member, roles)
                ==> (r matches Err(e) && e@ == not_found_error()),
            permission_granted("planet.component.rename"@, *planet, member, roles)
                ==> r == Ok::<PlanetComponent, ApiError>(PlanetComponent { name, ..component }),
    {
        check_permission("planet.component.rename", planet, member, roles)?;
        let mut c = component;
        c.name = name;
        Ok(c)
    }
}

} // verus!
