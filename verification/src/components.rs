//! Planet components by type. Only the `dummy` type exists so far.
use vstd::prelude::*;
use crate::text::str_eq;
use crate::errors::{ApiError, create_user_input_error, create_internal_server_error,
    user_input_error, internal_server_error};

verus! {

/// A kind of planet component: how the data behind a component of that kind is created and
/// deleted.
pub trait Trait {
    /// Creates the data of a new component and returns its identifier.
    fn create() -> Result<String, ApiError>;

    /// Deletes the data of the component with identifier `id`.
    fn delete(id: String) -> Result<bool, ApiError>;
}

/// The placeholder component kind.
#[derive(Default)]
pub struct Component;

impl Trait for Component {
    /// Creates a dummy component; its identifier is `dummy`.
    fn create() -> (r: Result<String, ApiError>)
        ensures
            r matches Ok(id) && id@ == "dummy"@,
    {
        Ok(String::from_str("dummy"))
    }

    /// Deletes a dummy component, which always succeeds.
    fn delete(_id: String) -> (r: Result<bool, ApiError>)
        ensures
            r matches Ok(b) && b,
    {
        Ok(true)
    }
}

/// Creates the component data of a new component of type `component` and returns its
/// identifier; an unknown type is the user's error.
pub fn create_component(component: &str, _planet: String, _owner: String) -> (r: Result<String, ApiError>)
    ensures
        component@ == "dummy"@ ==> (r matches Ok(id) && id@ == "dummy"@),
        component@ != "dummy"@ ==> (r matches Err(e) && e@ == user_input_error(
            "That component type isn't valid."@,
            "INVALID_TYPE"@,
        )),
{
    if str_eq(component, "dummy") {
        Ok(String::from_str("dummy"))
    } else {
        Err(create_user_input_error("That component type isn't valid.", "INVALID_TYPE"))
    }
}

/// Deletes the component data of a component of type `component`; an unknown type is the
/// server's error.
pub fn delete_component(component: &str, _id: String) -> (r: Result<bool, ApiError>)
    ensures
        component@ == "dummy"@ ==> (r matches Ok(b) && b),
        component@ != "dummy"@ ==> (r matches Err(e) && e@ == internal_server_error(
            None,
            "UNSUPPORTED_COMPONENT"@,
        )),
{
    if str_eq(component, "dummy") {
        Ok(true)
    } else {
        Err(create_internal_server_error(None, "UNSUPPORTED_COMPONENT"))
    }
}

} // verus!
