//! Installers for application packages: path validation, PowerShell command
//! construction, install-state decoding, shortcut placement and the
//! instruction recorder used by package scripts.
use vstd::prelude::*;

mod text;

pub mod ahqdb;
pub mod ahqdb_legacy;
pub mod av;
pub mod common;
pub mod exe;
pub mod msi;
pub mod utils;
pub mod winrt;
pub mod zip;

verus! {

} // verus!
