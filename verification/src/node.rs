//! The `SHOW TABLES [FROM <schema>]` extension operator and its side of the
//! plan-operator capability set: child inputs, output schema, referenced
//! expressions, a one-line explanation, and reconstruction from a template.

use crate::plan::{Expr, LogicalPlan};
use crate::schema::{DFSchema, DFSchemaRef};
use std::sync::Arc;
use vstd::prelude::*;
use vstd::string::{StrSliceExecFns, StringExecFns};

verus! {

/// The `SHOW TABLES` operator: a leaf of the plan tree carrying the target
/// schema name (absent means the current/default schema) and the output
/// schema the planning layer assigned to it. Both fields are immutable for
/// the node's lifetime; rewrites build new nodes instead of mutating.
#[derive(Clone)]
pub struct ShowTablesPlanNode {
    pub schema: DFSchemaRef,
    pub schema_name: Option<String>,
}

/// How one character appears inside the quoted rendering of a schema name:
/// the quote, the backslash, newline, carriage return and tab take a
/// backslash escape; every other character stands unchanged.
pub open spec fn spec_escape_char(c: char) -> Seq<char> {
    if c == '"' {
        "\\\""@
    } else if c == '\\' {
        "\\\\"@
    } else if c == '\n' {
        "\\n"@
    } else if c == '\r' {
        "\\r"@
    } else if c == '\t' {
        "\\t"@
    } else {
        seq![c]
    }
}

/// The escaped form of a whole schema name: each character rendered by
/// [`spec_escape_char`], in order.
pub open spec fn spec_escaped(s: Seq<char>) -> Seq<char>
    decreases s.len(),
{
    if s.len() == 0 {
        Seq::empty()
    } else {
        spec_escaped(s.drop_last()) + spec_escape_char(s.last())
    }
}

/// The rendering of the optional schema name in the explanation line:
/// `None` when absent, `Some("<escaped name>")` when present.
pub open spec fn spec_schema_name_debug(name: Option<String>) -> Seq<char> {
    match name {
        None => "None"@,
        Some(s) => "Some(\""@ + spec_escaped(s@) + "\")"@,
    }
}

/// The full one-line explanation of a `SHOW TABLES` node with the given
/// schema name.
pub open spec fn spec_explain_line(name: Option<String>) -> Seq<char> {
    "ShowTables: schema_name: "@ + spec_schema_name_debug(name)
}

/// The escaped form of `s`, character by character, as it appears inside the
/// quoted rendering of a schema name.
fn escaped_string(s: &str) -> (r: String)
    ensures
        r@ == spec_escaped(s@),
{
    let n: usize = s.unicode_len();
    let mut r = String::new();
    let mut i: usize = 0;
    while i < n
        invariant
            n == s@.len(),
            i <= n,
            r@ == spec_escaped(s@.subrange(0, i as int)),
        decreases n - i,
    {
        let c = s.get_char(i);
        if c == '"' {
            r.append("\\\"");
        } else if c == '\\' {
            r.append("\\\\");
        } else if c == '\n' {
            r.append("\\n");
        } else if c == '\r' {
            r.append("\\r");
        } else if c == '\t' {
            r.append("\\t");
        } else {
            let piece = s.substring_char(i, i + 1);
            r.append(piece);
            proof {
                assert(s@.subrange(i as int, i + 1 as int) =~= seq![s@[i as int]]);
            }
        }
        proof {
            assert(s@.subrange(0, i + 1 as int).drop_last() =~= s@.subrange(0, i as int));
        }
        i += 1;
    }
    proof {
        assert(s@.subrange(0, n as int) =~= s@);
    }
    r
}

impl ShowTablesPlanNode {
    /// The operator's child plans. `SHOW TABLES` is a leaf: it has no
    /// upstream relations, so the sequence is empty for every node.
    pub fn inputs<'a>(&'a self) -> (r: Vec<&'a LogicalPlan>)
        ensures
            r@.len() == 0,
    {
        Vec::new()
    }

    /// The output schema this operator produces, exactly as stored; the
    /// column set is whatever the planning layer assigned.
    pub fn schema<'a>(&'a self) -> (r: &'a DFSchemaRef)
        ensures
            *r == self.schema,
    {
        &self.schema
    }

    /// The scalar expressions this operator exposes to generic rewrite
    /// passes. The schema-name filter is operator-specific data, not a
    /// generic expression, so the sequence is empty for every node.
    pub fn expressions(&self) -> (r: Vec<Expr>)
        ensures
            r@.len() == 0,
    {
        Vec::new()
    }

    /// The one-line human-readable description of this node, of the form
    /// `ShowTables: schema_name: <rendering of the optional name>`.
    pub fn fmt_for_explain(&self) -> (r: String)
        ensures
            r@ == spec_explain_line(self.schema_name),
    {
        let mut out = String::from_str("ShowTables: schema_name: ");
        match &self.schema_name {
            None => {
                out.append("None");
            },
            Some(s) => {
                out.append("Some(\"");
                let esc = escaped_string(s.as_str());
                out.append(esc.as_str());
                out.append("\")");
                proof {
                    assert(out@ =~= spec_explain_line(self.schema_name));
                }
            },
        }
        out
    }

    /// A new node of the same operator kind, keeping this node's schema name
    /// and taking a fresh empty output schema. The supplied expressions and
    /// inputs are discarded whatever they hold: a leaf without expressions
    /// has no use for them, and generic rewrites may pass anything here.
    pub fn from_template(&self, _exprs: &[Expr], _inputs: &[LogicalPlan]) -> (node:
        ShowTablesPlanNode)
        ensures
            node.schema_name == self.schema_name,
            node.schema.fields@.len() == 0,
    {
        let schema_name = match &self.schema_name {
            Some(s) => Some(s.clone()),
            None => None,
        };
        ShowTablesPlanNode { schema: Arc::new(DFSchema::empty()), schema_name }
    }
}

} // verus!
