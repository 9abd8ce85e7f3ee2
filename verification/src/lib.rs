//! Request validation, error mapping and response shaping for a small
//! service that records and queries persons.
//!
//! Everything here is a function from plain values to plain values: the
//! transport and the store live outside and hand their results in.

pub mod config;
pub mod controllers;
pub mod error;
pub mod person;
pub mod response;
pub mod server;
pub mod store;
pub mod text;
pub mod tracing;
pub mod utils;
