//! Request handling for a small HTTP service that creates and lists users.
//!
//! The crate holds the decisions of the service as verified functions on plain
//! values: the routing table, the handlers that turn the outcome of one storage
//! statement into a status and a body, the JSON text of each body, the mapping
//! from errors to responses, the settings with their defaults, and the order of
//! startup and shutdown. Sockets, the storage engine and signals are the
//! caller's.
pub mod handlers;
pub mod json;
pub mod laws;
pub mod lifecycle;
pub mod model;
pub mod response;
pub mod router;
pub mod service;
pub mod settings;
