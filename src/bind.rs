use vstd::prelude::*;

verus! {

/// A value that can be bound to a placeholder of a rendered statement.
#[derive(Clone, Debug, PartialEq)]
pub enum Bind {
    Null,
    String(String),
    Int(i32),
    Bool(bool),
    Raw(String),
}

impl Bind {
    /// A copy of this value, equal to it.
    pub fn duplicate(&self) -> (r: Bind)
        ensures
            r == *self,
    {
        match self {
            Bind::Null => Bind::Null,
            Bind::String(s) => Bind::String(s.clone()),
            Bind::Int(i) => Bind::Int(*i),
            Bind::Bool(b) => Bind::Bool(*b),
            Bind::Raw(s) => Bind::Raw(s.clone()),
        }
    }

    /// Whether this value is `Null`.
    pub fn is_null(&self) -> (r: bool)
        ensures
            r == (*self is Null),
    {
        match self {
            Bind::Null => true,
            _ => false,
        }
    }
}

/// A copy of a list of values, equal to it.
pub fn copy_binds(v: &Vec<Bind>) -> (r: Vec<Bind>)
    ensures
        r@ == v@,
{
    let mut r: Vec<Bind> = Vec::new();
    let mut i: usize = 0;
    while i < v.len()
        invariant
            i <= v.len(),
            r@ == v@.take(i as int),
        decreases v.len() - i,
    {
        r.push(v[i].duplicate());
        i = i + 1;
        assert(r@ =~= v@.take(i as int));
    }
    assert(v@.take(i as int) =~= v@);
    r
}

} // verus!
