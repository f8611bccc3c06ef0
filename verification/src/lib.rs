//! Core of a small CRUD service: an in-memory table of `Person` records keyed
//! by integer identifier, the handler functions of its two resource groups,
//! and the rendering of every response body it can produce.
//!
//! The HTTP transport (routing, body parsing, the lock around the shared
//! table) lives outside this crate; each handler here is a pure function from
//! plain values and the table's state to a reply value, with a contract that
//! pins the reply and the new state down exactly.

pub mod ex;
pub mod json;
pub mod laws;
pub mod model;
pub mod people;
pub mod store;
pub mod text;
