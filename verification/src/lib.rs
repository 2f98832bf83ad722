//! The core of an in-process actor runtime, with its rules proved.
//!
//! Actors are isolated units of state that are reached through messages only.
//! This crate holds what decides how such a runtime behaves: type-erased
//! identifiers, the registry that a supervisor keeps, the mailbox of each actor
//! with its life from activation to shutdown, and what a caller is told about
//! a message it sent. Scheduling and waiting are left to the embedding runtime,
//! which drives these types from its tasks.

pub mod actor;
pub mod errors;
pub mod id;
pub mod identifier;
pub mod persistence;
pub mod system;
