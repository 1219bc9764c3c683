//! Where shortcuts are created and removed.
use vstd::prelude::*;
use vstd::string::StringExecFns;

use super::ZipShortcut;
use crate::ahqdb::validation::{path_push, pushed_path};
use crate::text::{remove_all, removed_all};

verus! {

/// Whether an application is installed for the current user or for all users.
#[derive(Debug, Clone, Copy, PartialEq, Eq, Structural)]
pub enum Type {
    CurrentUser,
    AllUsers,
}

/// How far shortcut creation got.
#[derive(Debug, PartialEq, Eq, Structural)]
pub enum ShortcutCreationInfo {
    AllOk,
    DesktopShortcutNotCreated,
}

/// The start menu folder that holds an application's shortcut: the start
/// menu, then the shortcut's folder if it names one, then the application id.
pub open spec fn shortcut_folder_path(start_menu: Seq<char>, start_menu_dir: Option<Seq<char>>, app_id: Seq<char>) -> Seq<char> {
    match start_menu_dir {
        Some(dir) => path_push(path_push(start_menu, dir), app_id),
        None => path_push(start_menu, app_id),
    }
}

/// The start menu folder that uninstalling removes: the start menu, then
/// the shortcut's folder and the application id if it names a folder, and
/// the start menu itself otherwise.
pub open spec fn removed_folder_path(start_menu: Seq<char>, start_menu_dir: Option<Seq<char>>, app_id: Seq<char>) -> Seq<char> {
    match start_menu_dir {
        Some(dir) => path_push(path_push(start_menu, dir), app_id),
        None => start_menu,
    }
}

pub open spec fn view_of_dir(dir: Option<&str>) -> Option<Seq<char>> {
    match dir {
        Some(d) => Some(d@),
        None => None,
    }
}

/// The start menu folder in which `link` creates its shortcut.
pub fn shortcut_folder(start_menu: &str, link: &ZipShortcut, app_id: &str) -> (p: String)
    ensures
        p@ == shortcut_folder_path(start_menu@, view_of_dir(link.start_menu_dir), app_id@),
{
    match link.start_menu_dir {
        Some(dir) => {
            let inner = pushed_path(start_menu, dir);
            pushed_path(inner.as_str(), app_id)
        },
        None => pushed_path(start_menu, app_id),
    }
}

/// The start menu folder that `unlink` removes.
pub fn removed_folder(start_menu: &str, link: &ZipShortcut, app_id: &str) -> (p: String)
    ensures
        p@ == removed_folder_path(start_menu@, view_of_dir(link.start_menu_dir), app_id@),
{
    match link.start_menu_dir {
        Some(dir) => {
            let inner = pushed_path(start_menu, dir);
            pushed_path(inner.as_str(), app_id)
        },
        None => String::from_str(start_menu),
    }
}

/// When a shortcut names its own start menu folder, uninstalling removes
/// exactly the folder that installing created.
pub proof fn lemma_unlink_removes_created_folder(start_menu: Seq<char>, dir: Seq<char>, app_id: Seq<char>)
    ensures
        removed_folder_path(start_menu, Some(dir), app_id) == shortcut_folder_path(start_menu, Some(dir), app_id),
{
}

/// The shortcut file inside its start menu folder: `<name>.lnk`.
pub fn shortcut_file(folder: &str, name: &str) -> (p: String)
    ensures
        p@ == path_push(folder@, name@ + ".lnk"@),
{
    let mut file = String::from_str(name);
    file.append(".lnk");
    pushed_path(folder, file.as_str())
}

/// The desktop shortcut: `<desktop>\<name> (<app id>).lnk`.
pub fn desktop_shortcut_file(desktop: &str, name: &str, app_id: &str) -> (p: String)
    ensures
        p@ == desktop@ + "\\"@ + name@ + " ("@ + app_id@ + ").lnk"@,
{
    let mut p = String::from_str(desktop);
    p.append("\\");
    p.append(name);
    p.append(" (");
    p.append(app_id);
    p.append(").lnk");
    p
}

/// The executable that a shortcut points to, before it is made canonical:
/// `<cwd>/<exe>`.
pub fn shortcut_executable(cwd: &str, exe: &str) -> (p: String)
    ensures
        p@ == cwd@ + "/"@ + exe@,
{
    let mut p = String::from_str(cwd);
    p.append("/");
    p.append(exe);
    p
}

/// The target written into a shortcut: the canonical executable path with
/// every `\\?\` marker removed.
pub fn shortcut_target(canonical: &str) -> (p: String)
    ensures
        p@ == removed_all(canonical@, "\\\\?\\"@),
{
    remove_all(canonical, "\\\\?\\")
}

} // verus!
