//! Malware scanning of downloaded files.
use vstd::prelude::*;

pub mod scan;

verus! {

} // verus!
