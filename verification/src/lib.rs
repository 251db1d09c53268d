//! Request validation, error mapping and submit coordination for the agent
//! runtime HTTP server.

pub mod artifacts;
pub mod codec;
pub mod coordination;
pub mod errors;
pub mod failures;
pub mod fields;
pub mod health;
pub mod projects;
pub mod registry;
pub mod roles;
pub mod snapshot;
pub mod stream;
pub mod submission;
pub mod text;
pub mod worker;
