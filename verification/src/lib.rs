//! A chess match broker: it turns line-oriented `GET` requests into typed
//! commands, manages game sessions keyed by opaque per-color tokens, and
//! routes move submissions and position queries to an external board engine
//! that owns the chess rules.

pub mod engine;
pub mod strings;
pub mod token;
pub mod parser;
pub mod registry;
pub mod handler;
pub mod laws;
