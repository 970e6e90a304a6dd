//! Verified core of a user-account service.
//!
//! The crate covers the credential hashing policy (argon2 behind narrow
//! trusted wrappers), an in-memory user repository that enforces the
//! record invariants, the domain error taxonomy with its HTTP status
//! mapping, and the DTO validation and filtering rules. Transport,
//! serialization and persistence adapters live outside this crate and
//! exchange plain values with it.

pub mod dtos;
pub mod error;
pub mod models;
pub mod password;
pub mod service;
pub mod store;
