//! The update command line.
use vstd::prelude::*;
use vstd::string::StringExecFns;

use super::install::{execution_mode, execution_mode_str, pwsh_escaped, to_pwsh_string};
use crate::zip::link::Type;

verus! {

/// The PowerShell arguments that run an update script with the old and new
/// install directories and the old build in its environment. The build is
/// passed as it is, without escaping.
pub open spec fn update_command(
    script: Seq<char>,
    old_dir: Seq<char>,
    new_dir: Seq<char>,
    build: Seq<char>,
    ty: Type,
) -> Seq<char> {
    "-ExecutionPolicy Bypass -Command \"& {$env:EXECUTION_MODE='"@ + execution_mode(ty)
        + "'; $env:AHQDB_OLD_INSTALL_DIR='"@ + pwsh_escaped(old_dir)
        + "'; $env:AHQDB_NEW_INSTALL_DIR='"@ + pwsh_escaped(new_dir) + "'; $env:OLD_BUILD='"@
        + build + "'; (cat '"@ + pwsh_escaped(script) + "' | iex)}\""@
}

/// Builds the arguments with which `powershell.exe` runs an update script;
/// the launch itself, from the new directory, is the caller's.
pub fn update_script_arguments(
    script: &str,
    ahqdb_old_dir: &str,
    ahqdb_new_dir: &str,
    build: &str,
    ty: &Type,
) -> (command: String)
    ensures
        command@ == update_command(script@, ahqdb_old_dir@, ahqdb_new_dir@, build@, *ty),
{
    let script_path = to_pwsh_string(script);
    let new = to_pwsh_string(ahqdb_new_dir);
    let old = to_pwsh_string(ahqdb_old_dir);
    let mut command = String::new();
    command.append("-ExecutionPolicy Bypass -Command \"& {$env:EXECUTION_MODE='");
    command.append(execution_mode_str(ty));
    command.append("'; $env:AHQDB_OLD_INSTALL_DIR='");
    command.append(old.as_str());
    command.append("'; $env:AHQDB_NEW_INSTALL_DIR='");
    command.append(new.as_str());
    command.append("'; $env:OLD_BUILD='");
    command.append(build);
    command.append("'; (cat '");
    command.append(script_path.as_str());
    command.append("' | iex)}\"");
    command
}

} // verus!
