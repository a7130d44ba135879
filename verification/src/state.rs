use vstd::prelude::*;

verus! {

/// A property left at its default: it counts as not enabled.
pub const DEFAULT: u32 = 0;

/// A property enabled with its default value; equal to `ENABLED_EXPLICIT` under
/// property equality.
pub const ENABLED_DEFAULT: u32 = 1;

/// A property enabled with a value set explicitly.
pub const ENABLED_EXPLICIT: u32 = 2;

/// A disabled property.
pub const DISABLED: u32 = 3;

} // verus!
