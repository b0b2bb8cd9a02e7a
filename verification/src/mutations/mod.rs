//! The decisions of the state-changing operations. Each takes the records the operation
//! reads and returns the record to write, or the error to answer.
pub mod components;
pub mod members;
pub mod planets;
pub mod roles;
pub mod users;
pub mod common;

use vstd::prelude::*;

verus! {

/// All state-changing operations but the role ones.
pub struct Mutation(
    pub users::UserMutation,
    pub planets::PlanetMutation,
    pub components::ComponentMutation,
    pub members::MemberMutation,
);

} // verus!
