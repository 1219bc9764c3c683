//! Archive installs: the shortcut that an archive's application gets and
//! who may install it.
use vstd::prelude::*;

use link::Type;

pub mod link;

verus! {

/// The shortcut of an application that is installed from an archive.
#[derive(Debug)]
pub struct ZipShortcut<'a> {
    pub name: &'a str,
    pub exe: &'a str,
    pub args: Option<&'a str>,
    pub description: Option<&'a str>,
    pub icon: Option<(&'a str, i32)>,
    pub desktop: bool,
    pub start_menu_dir: Option<&'a str>,
}

/// An install for all users needs an elevated process.
pub open spec fn needs_elevation(is_admin: bool, ty: Type) -> bool {
    !is_admin && ty == Type::AllUsers
}

/// Whether an (un)install of type `ty` must be refused because the process
/// is not elevated.
pub fn elevation_refused(is_admin: bool, ty: &Type) -> (refused: bool)
    ensures
        refused == needs_elevation(is_admin, *ty),
        refused <==> (*ty == Type::AllUsers && !is_admin),
{
    !is_admin && match ty {
        Type::AllUsers => true,
        Type::CurrentUser => false,
    }
}

/// Only an install for all users by a process that is not elevated is
/// refused: an install for the current user never is, and an elevated
/// process may install either way.
pub proof fn lemma_only_unelevated_all_users_refused(is_admin: bool, ty: Type)
    ensures
        needs_elevation(is_admin, ty) ==> ty == Type::AllUsers && !is_admin,
        ty == Type::AllUsers && !is_admin ==> needs_elevation(is_admin, ty),
        ty == Type::CurrentUser ==> !needs_elevation(is_admin, ty),
        is_admin ==> !needs_elevation(is_admin, ty),
{
}

} // verus!
