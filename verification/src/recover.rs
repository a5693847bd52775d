//! The checked bridge from a generic plan node to the concrete `SHOW TABLES`
//! operator: a typed wrapper that can only be obtained through the recovery
//! conversion, and the single error that conversion can raise.

use crate::node::ShowTablesPlanNode;
use crate::plan::{Extension, LogicalPlan, UserDefinedNode};
use vstd::prelude::*;
use vstd::string::StringExecFns;

verus! {

/// The one failure this core can report: recovery was attempted on a generic
/// plan node that is not the `SHOW TABLES` extension node. A mismatch is a
/// caller-side logic error, so it is always surfaced, never retried.
#[derive(Clone, Debug)]
pub enum PlanError {
    TypeMismatch { message: String },
}

/// The boundary object handed to callers outside the planner core. It wraps
/// exactly one recovered node and exposes a single read-only accessor; the
/// field stays private so no caller can fabricate a wrapper without going
/// through the recovery check.
pub struct PyShowTables {
    show_tables: ShowTablesPlanNode,
}

/// The plan node that wraps `n` into the extension slot.
pub open spec fn spec_wrap(n: ShowTablesPlanNode) -> LogicalPlan {
    LogicalPlan::Extension(Extension { node: UserDefinedNode::ShowTables(n) })
}

/// What recovery finds in a generic plan node: the `SHOW TABLES` node inside
/// the extension slot, or nothing when the plan is any other operator kind.
pub open spec fn spec_recover(plan: LogicalPlan) -> Option<ShowTablesPlanNode> {
    match plan {
        LogicalPlan::Extension(Extension { node: UserDefinedNode::ShowTables(n) }) => Some(n),
        _ => None,
    }
}

/// The string a wrapper reports for an optional schema name: the name itself
/// when present, the empty string when absent. An absent name and a present
/// but empty name are deliberately indistinguishable here.
pub open spec fn spec_schema_name_or_empty(name: Option<String>) -> Seq<char> {
    match name {
        Some(s) => s@,
        None => Seq::empty(),
    }
}

impl PyShowTables {
    /// The node this wrapper was recovered from.
    pub closed spec fn node(&self) -> ShowTablesPlanNode {
        self.show_tables
    }

    /// Recovery: test that the generic plan is the extension slot and that
    /// the slot holds the `SHOW TABLES` operator kind; on success take the
    /// node into a fresh wrapper, otherwise report the mismatch.
    pub fn try_from(logical_plan: LogicalPlan) -> (r: Result<PyShowTables, PlanError>)
        ensures
            spec_recover(logical_plan) matches Some(node) ==> (r matches Ok(w) && w.node()
                == node),
            spec_recover(logical_plan) is None ==> (r matches Err(
                PlanError::TypeMismatch { message },
            ) && message@ == "unexpected plan"@),
    {
        match logical_plan {
            LogicalPlan::Extension(
                Extension { node: UserDefinedNode::ShowTables(show_tables) },
            ) => Ok(PyShowTables { show_tables }),
            _ => Err(PlanError::TypeMismatch { message: String::from_str("unexpected plan") }),
        }
    }

    /// The recovered node's schema name, with an absent name collapsed to the
    /// empty string.
    pub fn get_schema_name(&self) -> (r: String)
        ensures
            r@ == spec_schema_name_or_empty(self.node().schema_name),
    {
        match &self.show_tables.schema_name {
            Some(s) => s.clone(),
            None => String::new(),
        }
    }
}

/// Law: recovery finds a node exactly on the plans that wrap one. A generic
/// plan recovers to `n` if and only if it is `n` wrapped into the extension
/// slot; every plan of a different operator kind recovers to nothing.
pub proof fn lemma_recover_exactly_wrapped(plan: LogicalPlan, n: ShowTablesPlanNode)
    ensures
        spec_recover(plan) == Some(n) <==> plan == spec_wrap(n),
{
}

/// Law: the wrap-then-recover round trip. Wrapping a node into the extension
/// slot and recovering it immediately yields that node back, so the wrapper's
/// reported schema name is the node's own, with an absent name collapsed to
/// the empty string.
pub proof fn lemma_wrap_recover_round_trip(n: ShowTablesPlanNode)
    ensures
        spec_recover(spec_wrap(n)) == Some(n),
        spec_schema_name_or_empty(spec_recover(spec_wrap(n)).unwrap().schema_name)
            == spec_schema_name_or_empty(n.schema_name),
{
}

} // verus!
