//! Planet permissions: the constant permission groups, the check and its helpers.
pub mod constants;
pub mod checks;
pub mod util;
pub mod laws;
