use vstd::prelude::*;

verus! {

/// Placeholder settings of a `Update` builder.
pub type UpdateConfig = crate::placeholder::PlaceholderConfig;

} // verus!
