//! Authentication endpoints: login, logout, and the caller's own
//! privileges.

pub mod login;
pub mod paths;
