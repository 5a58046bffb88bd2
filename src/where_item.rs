use vstd::prelude::*;
use crate::bind::Bind;

verus! {

/// One member of an OR-group.
#[derive(Clone)]
pub struct Or<'a> {
    pub column: &'a str,
    pub operator: &'a str,
    pub value: Bind,
}

} // verus!
