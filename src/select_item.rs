use vstd::prelude::*;

verus! {

/// Placeholder settings of a `Select` builder.
pub type SelectConfig = crate::placeholder::PlaceholderConfig;

} // verus!
