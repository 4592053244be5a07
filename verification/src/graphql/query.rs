//! The root of all queries.

use vstd::prelude::*;

verus! {

/// The root Query object.
#[derive(Debug, Clone, Copy)]
pub struct Query;

} // verus!
