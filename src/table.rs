use vstd::prelude::*;

verus! {

/// A table and the alias that qualifies it.
pub struct Table {
    pub name: String,
    pub alias: Option<String>,
}

} // verus!
