//! Mutation and execution primitives for passes that rewrite a syntax tree
//! in place: a take-and-replace protocol over placeholder values, a key/value
//! cache with clone-out reads and two backends, a set built on it, the
//! normalisation of hygiene marks, and a sequential or pooled `join`.

pub mod placeholder;
pub mod nodes;
pub mod clone_map;
pub mod shared_map;
pub mod tasks;
pub mod hygiene;
