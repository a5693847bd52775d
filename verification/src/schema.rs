//! The schema description attached to a plan operator: an ordered list of
//! named, typed columns. Plan nodes share schemas and never mutate them, so a
//! schema travels behind a shared reference.

use std::sync::Arc;
use vstd::prelude::*;

verus! {

/// One column of an operator's output: a column name and the name of its
/// data type.
#[derive(Clone)]
pub struct DFField {
    pub name: String,
    pub data_type: String,
}

/// An ordered list of named, typed columns describing the rows an operator
/// produces. Which columns a particular operator carries is assigned by the
/// planning layer; nothing in this crate depends on a particular column set.
#[derive(Clone)]
pub struct DFSchema {
    pub fields: Vec<DFField>,
}

/// A shared, immutable handle to a schema. The same schema object may be
/// referenced from several places in a plan tree.
pub type DFSchemaRef = Arc<DFSchema>;

impl DFSchema {
    /// The schema with no columns at all.
    pub fn empty() -> (s: DFSchema)
        ensures
            s.fields@.len() == 0,
    {
        DFSchema { fields: Vec::new() }
    }
}

} // verus!
