//! Verified core of the Starship server and of the Toolbox document runtime.
use vstd::prelude::*;

pub mod text;
pub mod ids;
pub mod toolbox;
pub mod errors;
pub mod entities;
pub mod permissions;
pub mod auth;
pub mod guards;
pub mod sessions;
pub mod login_tokens;
pub mod components;
pub mod mutations;
pub mod queries;
pub mod resolvers;

verus! {

} // verus!
