//! Well-known folders of a Windows installation.
use vstd::prelude::*;
use vstd::string::StringExecFns;

verus! {

/// The start menu folder shared by all users.
pub fn common_start_menu() -> (p: String)
    ensures
        p@ == "C:\\ProgramData\\Microsoft\\Windows\\Start Menu"@,
{
    String::from_str("C:\\ProgramData\\Microsoft\\Windows\\Start Menu")
}

/// The desktop folder shared by all users.
pub fn common_desktop() -> (p: &'static str)
    ensures
        p@ == "C:\\Users\\Default\\Desktop"@,
{
    "C:\\Users\\Default\\Desktop"
}

/// A user's desktop folder, given the user's profile folder.
pub fn desktop_of_profile(profile_dir: &str) -> (p: String)
    ensures
        p@ == profile_dir@ + "\\Desktop"@,
{
    let mut p = String::from_str(profile_dir);
    p.append("\\Desktop");
    p
}

/// A user's start menu folder, given the user's profile folder.
pub fn start_menu_of_profile(profile_dir: &str) -> (p: String)
    ensures
        p@ == profile_dir@ + "\\AppData\\Roaming\\Microsoft\\Windows\\Start Menu"@,
{
    let mut p = String::from_str(profile_dir);
    p.append("\\AppData\\Roaming\\Microsoft\\Windows\\Start Menu");
    p
}

} // verus!
