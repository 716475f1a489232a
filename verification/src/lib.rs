//! The request-handling core of a small local HTTP front-end: query-string
//! extraction, path routing, and the accept loop's shutdown protocol, each
//! with a machine-checked contract.

pub mod lifecycle;
pub mod query;
pub mod router;
pub mod text;
pub mod uri;
