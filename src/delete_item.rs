use vstd::prelude::*;

verus! {

/// Placeholder settings of a `Delete` builder.
pub type DeleteConfig = crate::placeholder::PlaceholderConfig;

} // verus!
