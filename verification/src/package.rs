//! Packing a project folder into a package.

use vstd::prelude::*;

verus! {

/// How a project is packed. There is nothing to choose yet: every file of
/// the folder goes into the package under its path from the folder's root.
#[derive(Clone, Copy, Debug, PartialEq, Eq, Structural)]
pub struct PackageOptions {}

} // verus!
