//! PowerShell invocation of package scripts: the command lines and the
//! reading of a script's exit code.
use vstd::prelude::*;
use vstd::string::StringExecFns;

use crate::zip::link::Type;
use install::{execution_mode, execution_mode_str, pwsh_escaped, to_pwsh_string};

pub mod install;
pub mod update;

verus! {

/// The PowerShell arguments that run an `isInstalled` script.
pub open spec fn is_installed_command(script: Seq<char>, ty: Type) -> Seq<char> {
    "-ExecutionPolicy Bypass -Command \"& {$env:EXECUTION_MODE='"@ + execution_mode(ty)
        + "'; (cat '"@ + pwsh_escaped(script) + "' | iex)}\""@
}

/// Builds the arguments with which `powershell.exe` runs an `isInstalled`
/// script; the launch itself is the caller's.
pub fn is_installed_script_arguments(script: &str, ty: &Type) -> (command: String)
    ensures
        command@ == is_installed_command(script@, *ty),
{
    let script_path = to_pwsh_string(script);
    let mut command = String::new();
    command.append("-ExecutionPolicy Bypass -Command \"& {$env:EXECUTION_MODE='");
    command.append(execution_mode_str(ty));
    command.append("'; (cat '");
    command.append(script_path.as_str());
    command.append("' | iex)}\"");
    command
}

/// The exit code that stands in for a script that ended without one.
pub const MISSING_EXIT_CODE: i32 = -100;

/// What a script's exit code says: `0` is yes, `1` is no, and any other
/// code, or none (read as -100), is refused with that code.
pub fn script_exit_status(code: Option<i32>) -> (r: Result<bool, i32>)
    ensures
        r == (match code {
            Some(0) => Ok(true),
            Some(1) => Ok(false),
            Some(c) => Err(c),
            None => Err::<bool, i32>(MISSING_EXIT_CODE),
        }),
{
    let code = match code {
        Some(c) => c,
        None => MISSING_EXIT_CODE,
    };
    if code == 0 {
        Ok(true)
    } else if code == 1 {
        Ok(false)
    } else {
        Err(code)
    }
}

} // verus!
