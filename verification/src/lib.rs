//! Planning-time representation of a `SHOW TABLES [FROM <schema>]` statement.
//!
//! A logical-plan tree is a closed sum type: a fixed set of built-in operator
//! kinds plus one extension slot. This crate defines the extension operator
//! for `SHOW TABLES`, the metadata it reports to the surrounding planner
//! (inputs, output schema, expressions, a one-line explanation), and the
//! checked recovery path that turns a generic plan node back into the
//! concrete operator for a caller outside the planner core.

pub mod node;
pub mod plan;
pub mod recover;
pub mod schema;
