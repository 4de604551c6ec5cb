//! Row-mapping metadata of the persisted tables.  Query construction and
//! execution belong to the database collaborator in unverified glue.

use vstd::prelude::*;

verus! {

/// Names the table a row type is stored in.
pub trait TableMetadata {
    fn table_name() -> &'static str;
}

} // verus!
