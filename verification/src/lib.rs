//! Authentication core: password hashing with a constant-time digest
//! comparison, signed time-bound identity tokens, a closed outcome taxonomy
//! mapped to transport result codes with response builders, and a request
//! guard that turns a credential header into an authenticated identity or a
//! finalized error response.

pub mod auth;
pub mod config;
pub mod env;
pub mod errors;
pub mod formatters;
pub mod io;
pub mod response;
pub mod services;
