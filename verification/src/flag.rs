use vstd::prelude::*;

verus! {

/// A set of rendering flag bits.
#[derive(Clone, Copy, Debug, PartialEq, Eq, Structural)]
pub struct Flag(pub u64);

} // verus!
