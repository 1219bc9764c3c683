//! Packaged (MSIX) applications: the identity read from a bundle and its
//! match against the packages that are installed.
use vstd::prelude::*;

pub mod metadata;

verus! {

} // verus!
