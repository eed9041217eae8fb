//! Authentication and session management core for a small web backend.
//!
//! The library issues and validates opaque session tokens, checks local
//! username/password credentials against a static account list, validates
//! provider-signed JWTs against a fetched JSON Web Key Set, and decides
//! role-based access for each request.  Network and file I/O stay outside:
//! callers fetch key sets and read account files, then hand the plain values
//! to the functions here.

pub mod access;
pub mod errors;
pub mod facade;
pub mod laws;
pub mod local;
pub mod model;
pub mod oidc;
pub mod session;
pub mod table;
