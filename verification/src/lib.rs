//! An in-memory registry of service definitions, with the query and mutation
//! operations that are offered on it and the routing of HTTP requests to them.
//!
//! Every function here is verified against its contract. The contracts speak
//! of a mathematical model: a service definition is a pair of texts, and the
//! registry is a finite map from identifiers to such pairs.

pub mod record;
pub mod store;
pub mod history;
pub mod api;
pub mod dispatch;
