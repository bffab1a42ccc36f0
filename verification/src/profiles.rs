//! Deployment profile tags. A tag carries no data; it only selects, at the
//! type level, which provider applies.

use vstd::prelude::*;

verus! {

/// The profile used when nothing else is selected.
pub struct Default;

/// The development profile.
pub struct Dev;

/// The test profile.
pub struct Test;

} // verus!
