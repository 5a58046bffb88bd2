use vstd::prelude::*;

verus! {

/// Placeholder settings of a `Insert` builder.
pub type InsertConfig = crate::placeholder::PlaceholderConfig;

} // verus!
