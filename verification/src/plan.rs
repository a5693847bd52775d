//! The generic logical-plan tree, modelled at its interface boundary.
//!
//! The tree is a closed sum type: built-in operator kinds plus one extension
//! slot. The extension slot holds a closed tagged union of every concrete
//! extension-operator kind the planner uses, so recovering a concrete
//! operator is a checked pattern match in two stages — first the top-level
//! variant, then the operator kind inside the slot.

use crate::node::ShowTablesPlanNode;
use crate::schema::DFSchemaRef;
use vstd::prelude::*;

verus! {

/// A scalar expression a plan operator may reference. The `SHOW TABLES`
/// operator exposes none, but the plan-operator capability set still has to
/// present a (here always empty) sequence of them.
#[derive(Clone)]
pub enum Expr {
    /// A reference to a named column.
    Column(String),
}

/// The tagged union of concrete extension-operator kinds. Adding a new
/// operator kind to the planner means adding a variant here, which keeps
/// every recovery match exhaustive.
#[derive(Clone)]
pub enum UserDefinedNode {
    /// The `SHOW TABLES [FROM <schema>]` operator.
    ShowTables(ShowTablesPlanNode),
}

/// The extension slot's payload: the one place in the plan tree that can
/// carry an operator kind not built into the tree type itself.
#[derive(Clone)]
pub struct Extension {
    pub node: UserDefinedNode,
}

/// A generic logical-plan node: one of the built-in operator kinds, or the
/// extension slot.
#[derive(Clone)]
pub enum LogicalPlan {
    /// A built-in leaf operator producing no rows beyond its schema — the
    /// simplest plan shape that is not an extension node.
    EmptyRelation { schema: DFSchemaRef },
    /// The extension slot.
    Extension(Extension),
}

} // verus!
