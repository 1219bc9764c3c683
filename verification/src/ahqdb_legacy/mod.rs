//! The older package format: a zip archive with PowerShell scripts, a
//! `link.toml` and a `dist/` folder, installed into a directory that records
//! the install type, version and shortcut.
use vstd::prelude::*;
use vstd::string::StringExecFns;

use crate::ahqdb::ps1::install::{install_command, install_script_arguments};
use crate::ahqdb::ps1::update::{update_command, update_script_arguments};
use crate::text::{has_prefix, same_text};
use crate::zip::needs_elevation;
use crate::zip::link::Type;
use crate::zip::ZipShortcut;

verus! {

/// The content of an archive's `link.toml`.
#[derive(Debug)]
pub struct LinkToml {
    pub link: ADBShortcut,
}

/// The shortcut that an archive asks for.
#[derive(Debug)]
pub struct ADBShortcut {
    pub name: String,
    pub exe: String,
    pub ignore: Option<bool>,
    pub args: Option<String>,
    pub description: Option<String>,
    pub icon: Option<(String, i32)>,
}

/// Where the user wants shortcuts.
#[derive(Debug)]
pub struct BasicShortcutInfo<'a> {
    pub desktop: bool,
    pub start_menu_folder: Option<&'a str>,
}

/// The tag written into an install's `type` file.
pub open spec fn type_tag(ty: Type) -> Seq<char> {
    match ty {
        Type::AllUsers => "all"@,
        Type::CurrentUser => "current"@,
    }
}

/// The install type that a `type` file names, if any.
pub open spec fn type_of_tag(tag: Seq<char>) -> Option<Type> {
    if tag == "all"@ {
        Some(Type::AllUsers)
    } else if tag == "current"@ {
        Some(Type::CurrentUser)
    } else {
        None
    }
}

/// The text written into an install's `type` file.
pub fn type_tag_str(ty: &Type) -> (s: &'static str)
    ensures
        s@ == type_tag(*ty),
{
    match ty {
        Type::AllUsers => "all",
        Type::CurrentUser => "current",
    }
}

/// Reads an install's `type` file: `all` or `current`, anything else is
/// not a valid install.
pub fn parse_type_tag(tag: &str) -> (ty: Option<Type>)
    ensures
        ty == type_of_tag(tag@),
{
    if same_text(tag, "all") {
        Some(Type::AllUsers)
    } else if same_text(tag, "current") {
        Some(Type::CurrentUser)
    } else {
        None
    }
}

/// Reading back the tag that an install wrote gives the install's type.
pub proof fn lemma_type_tag_roundtrip(ty: Type)
    ensures
        type_of_tag(type_tag(ty)) == Some(ty),
{
    reveal_strlit("all");
    reveal_strlit("current");
    assert("current"@.len() != "all"@.len());
}

/// The entries that a valid archive holds.
#[derive(Debug, Clone, Copy)]
pub struct ArchiveEntries {
    pub install_script: bool,
    pub uninstall_script: bool,
    pub update_script: bool,
    pub is_installed_script: bool,
    pub link_file: bool,
    pub dist_dir: bool,
}

impl ArchiveEntries {
    /// The scripts and `link.toml` are files and `dist/` is a folder.
    pub open spec fn complete_spec(self) -> bool {
        self.install_script && self.uninstall_script && self.update_script && self.is_installed_script
            && self.link_file && self.dist_dir
    }

    /// Whether the archive has everything an install needs.
    pub fn is_complete(&self) -> (b: bool)
        ensures
            b == self.complete_spec(),
    {
        self.install_script && self.uninstall_script && self.update_script && self.is_installed_script
            && self.link_file && self.dist_dir
    }
}

pub open spec fn str_opt_view(o: Option<&str>) -> Option<Seq<char>> {
    match o {
        Some(s) => Some(s@),
        None => None,
    }
}

pub open spec fn string_opt_view(o: Option<String>) -> Option<Seq<char>> {
    match o {
        Some(s) => Some(s@),
        None => None,
    }
}

/// The shortcut to create for an archive's `link.toml` entry and the user's
/// choices; none when the entry says to ignore it.
pub open spec fn shortcut_matches(info: ADBShortcut, basic: BasicShortcutInfo, s: ZipShortcut) -> bool {
    &&& s.name@ == info.name@
    &&& s.exe@ == info.exe@
    &&& str_opt_view(s.args) == string_opt_view(info.args)
    &&& str_opt_view(s.description) == string_opt_view(info.description)
    &&& match (s.icon, info.icon) {
        (Some((p, n)), Some((q, m))) => p@ == q@ && n == m,
        (None, None) => true,
        _ => false,
    }
    &&& s.desktop == basic.desktop
    &&& str_opt_view(s.start_menu_dir) == str_opt_view(basic.start_menu_folder)
}

fn opt_as_str<'a>(o: &'a Option<String>) -> (r: Option<&'a str>)
    ensures
        str_opt_view(r) == string_opt_view(*o),
{
    match o {
        Some(s) => Some(s.as_str()),
        None => None,
    }
}

/// The shortcut that an install creates, or none when `ignore` is set.
pub fn shortcut_of<'a>(info: &'a ADBShortcut, basic: &BasicShortcutInfo<'a>) -> (r: Option<ZipShortcut<'a>>)
    ensures
        info.ignore == Some(true) ==> r is None,
        info.ignore != Some(true) ==> (r matches Some(s) && shortcut_matches(*info, *basic, s)),
{
    let ignore = match info.ignore {
        Some(b) => b,
        None => false,
    };
    if ignore {
        return None;
    }
    let icon = match &info.icon {
        Some((path, index)) => Some((path.as_str(), *index)),
        None => None,
    };
    Some(ZipShortcut {
        name: info.name.as_str(),
        exe: info.exe.as_str(),
        args: opt_as_str(&info.args),
        description: opt_as_str(&info.description),
        icon,
        desktop: basic.desktop,
        start_menu_dir: basic.start_menu_folder,
    })
}

/// A file or folder of an install directory.
#[derive(Debug)]
pub enum LayoutEntry {
    /// `ahqdb`: the unpacked archive.
    Ahqdb,
    /// `ahqdb\type`.
    TypeFile,
    /// `ahqdb\.version`.
    VersionFile,
    /// `ahqdb\.link`.
    LinkFile,
    /// `ahqdb\.build`.
    BuildFile,
    /// `ahqdb\isInstalled.ps1`.
    IsInstalledScript,
    /// `ahqdb\dist`: the application as unpacked.
    UnpackedDist,
    /// `ahqdb_new`: the archive of an update, unpacked.
    NewAhqdb,
    /// `ahqdb_new\dist`.
    NewUnpackedDist,
    /// `dist_<version>`: the installed application of one version.
    Dist(String),
}

/// The path of an entry relative to the install directory, with its
/// leading `\`.
pub open spec fn entry_suffix(entry: LayoutEntry) -> Seq<char> {
    match entry {
        LayoutEntry::Ahqdb => "\\ahqdb"@,
        LayoutEntry::TypeFile => "\\ahqdb\\type"@,
        LayoutEntry::VersionFile => "\\ahqdb\\.version"@,
        LayoutEntry::LinkFile => "\\ahqdb\\.link"@,
        LayoutEntry::BuildFile => "\\ahqdb\\.build"@,
        LayoutEntry::IsInstalledScript => "\\ahqdb\\isInstalled.ps1"@,
        LayoutEntry::UnpackedDist => "\\ahqdb\\dist"@,
        LayoutEntry::NewAhqdb => "\\ahqdb_new"@,
        LayoutEntry::NewUnpackedDist => "\\ahqdb_new\\dist"@,
        LayoutEntry::Dist(version) => "\\dist_"@ + version@,
    }
}

/// The path of an entry of the install directory `dir`.
pub fn layout_path(dir: &str, entry: &LayoutEntry) -> (p: String)
    ensures
        p@ == dir@ + entry_suffix(*entry),
{
    let mut p = String::from_str(dir);
    match entry {
        LayoutEntry::Ahqdb => p.append("\\ahqdb"),
        LayoutEntry::TypeFile => p.append("\\ahqdb\\type"),
        LayoutEntry::VersionFile => p.append("\\ahqdb\\.version"),
        LayoutEntry::LinkFile => p.append("\\ahqdb\\.link"),
        LayoutEntry::BuildFile => p.append("\\ahqdb\\.build"),
        LayoutEntry::IsInstalledScript => p.append("\\ahqdb\\isInstalled.ps1"),
        LayoutEntry::UnpackedDist => p.append("\\ahqdb\\dist"),
        LayoutEntry::NewAhqdb => p.append("\\ahqdb_new"),
        LayoutEntry::NewUnpackedDist => p.append("\\ahqdb_new\\dist"),
        LayoutEntry::Dist(version) => {
            p.append("\\dist_");
            p.append(version.as_str());
        },
    }
    p
}

/// The uninstall script, relative to the installed application.
pub const UNINSTALL_SCRIPT: &'static str = "../ahqdb/uninstall.ps1";
/// The install script, relative to the installed application.
pub const INSTALL_SCRIPT: &'static str = "../ahqdb/install.ps1";
/// The update script of the new archive, relative to the installed application.
pub const UPDATE_SCRIPT: &'static str = "../ahqdb_new/update.ps1";

/// One file system or process step of an install, uninstall or update.
#[derive(Debug)]
pub enum InstallStep {
    /// Remove a directory tree; a failure is ignored.
    ClearDir(String),
    /// Create a directory and its parents.
    CreateDir(String),
    /// Unpack the package archive into a directory.
    ExtractArchive(String),
    /// Write text to a file.
    WriteFile { path: String, contents: String },
    /// Write the serialized shortcut entry of the package to a file.
    WriteShortcutRecord(String),
    /// Copy a directory tree.
    CopyDir { from: String, to: String },
    /// Remove a directory tree.
    RemoveDir(String),
    /// Rename a directory.
    RenameDir { from: String, to: String },
    /// Run `powershell.exe` with these arguments from a directory, with or
    /// without a window; when `checked`, an exit code other than 0 or 1 (see
    /// `script_exit_status`) fails the step.
    RunScript { arguments: String, working_dir: String, hidden: bool, checked: bool },
    /// Remove the application's shortcuts (for an update: those of the
    /// installed version).
    RemoveShortcut,
    /// Create the application's shortcut for the application in a directory.
    CreateShortcut(String),
}

/// What a step does, over plain text.
pub enum StepView {
    ClearDir(Seq<char>),
    CreateDir(Seq<char>),
    ExtractArchive(Seq<char>),
    WriteFile(Seq<char>, Seq<char>),
    WriteShortcutRecord(Seq<char>),
    CopyDir(Seq<char>, Seq<char>),
    RemoveDir(Seq<char>),
    RenameDir(Seq<char>, Seq<char>),
    RunScript(Seq<char>, Seq<char>, bool, bool),
    RemoveShortcut,
    CreateShortcut(Seq<char>),
}

impl View for InstallStep {
    type V = StepView;

    open spec fn view(&self) -> StepView {
        match self {
            InstallStep::ClearDir(p) => StepView::ClearDir(p@),
            InstallStep::CreateDir(p) => StepView::CreateDir(p@),
            InstallStep::ExtractArchive(p) => StepView::ExtractArchive(p@),
            InstallStep::WriteFile { path, contents } => StepView::WriteFile(path@, contents@),
            InstallStep::WriteShortcutRecord(p) => StepView::WriteShortcutRecord(p@),
            InstallStep::CopyDir { from, to } => StepView::CopyDir(from@, to@),
            InstallStep::RemoveDir(p) => StepView::RemoveDir(p@),
            InstallStep::RenameDir { from, to } => StepView::RenameDir(from@, to@),
            InstallStep::RunScript { arguments, working_dir, hidden, checked } => StepView::RunScript(
                arguments@,
                working_dir@,
                *hidden,
                *checked,
            ),
            InstallStep::RemoveShortcut => StepView::RemoveShortcut,
            InstallStep::CreateShortcut(p) => StepView::CreateShortcut(p@),
        }
    }
}

pub open spec fn steps_view(steps: Seq<InstallStep>) -> Seq<StepView> {
    steps.map_values(|s: InstallStep| s@)
}

/// Why an install or uninstall cannot start.
#[derive(Debug, PartialEq, Eq, Structural)]
pub enum PlanError {
    /// An install for all users needs an elevated process.
    NotElevated,
}

pub open spec fn under(dir: Seq<char>, entry: LayoutEntry) -> Seq<char> {
    dir + entry_suffix(entry)
}

pub open spec fn dist_of(dir: Seq<char>, version: Seq<char>) -> Seq<char> {
    dir + ("\\dist_"@ + version)
}

/// The steps of an install into `dir`, in order.
pub open spec fn install_plan(dir: Seq<char>, version: Seq<char>, ty: Type, with_shortcut: bool) -> Seq<StepView> {
    let dist = dist_of(dir, version);
    let unpacked = dir + "\\ahqdb\\dist"@;
    let steps = seq![
        StepView::ClearDir(dir),
        StepView::CreateDir(dist),
        StepView::ExtractArchive(dir + "\\ahqdb"@),
        StepView::WriteFile(dir + "\\ahqdb\\type"@, type_tag(ty)),
        StepView::WriteFile(dir + "\\ahqdb\\.version"@, version),
        StepView::WriteShortcutRecord(dir + "\\ahqdb\\.link"@),
        StepView::CopyDir(unpacked, dist),
        StepView::RemoveDir(unpacked),
        StepView::RunScript(install_command("../ahqdb/install.ps1"@, dist, ty), dist, false, false),
    ];
    if with_shortcut {
        steps.push(StepView::CreateShortcut(dist))
    } else {
        steps
    }
}

/// The steps of an uninstall from `dir`, in order.
pub open spec fn uninstall_plan(dir: Seq<char>, version: Seq<char>, ty: Type, with_shortcut: bool) -> Seq<StepView> {
    let dist = dist_of(dir, version);
    let script = StepView::RunScript(install_command("../ahqdb/uninstall.ps1"@, dist, ty), dist, true, false);
    if with_shortcut {
        seq![script, StepView::RemoveShortcut, StepView::RemoveDir(dir)]
    } else {
        seq![script, StepView::RemoveDir(dir)]
    }
}

/// The steps of an update of the install in `dir` from `old_version`, in
/// order.
pub open spec fn update_plan(
    dir: Seq<char>,
    version: Seq<char>,
    old_version: Seq<char>,
    old_build: Seq<char>,
    ty: Type,
    remove_old_shortcut: bool,
    with_shortcut: bool,
) -> Seq<StepView> {
    let dist_old = dist_of(dir, old_version);
    let dist = dist_of(dir, version);
    let fresh = dir + "\\ahqdb_new"@;
    let head: Seq<StepView> = if remove_old_shortcut {
        seq![StepView::RemoveShortcut]
    } else {
        Seq::empty()
    };
    let body = seq![
        StepView::CreateDir(fresh),
        StepView::ExtractArchive(fresh),
        StepView::CreateDir(dist),
        StepView::CopyDir(dir + "\\ahqdb_new\\dist"@, dist),
        StepView::RunScript(update_command("../ahqdb_new/update.ps1"@, dist_old, dist, old_build, ty), dist, true, true),
        StepView::RemoveDir(dist_old),
        StepView::RemoveDir(dir + "\\ahqdb"@),
        StepView::RenameDir(fresh, dir + "\\ahqdb"@),
        StepView::WriteFile(dir + "\\ahqdb\\type"@, type_tag(ty)),
        StepView::WriteFile(dir + "\\ahqdb\\.version"@, version),
        StepView::WriteShortcutRecord(dir + "\\ahqdb\\.link"@),
    ];
    let steps = head + body;
    if with_shortcut {
        steps.push(StepView::CreateShortcut(dist))
    } else {
        steps
    }
}

/// The path that a step creates or writes, if it writes one.
pub open spec fn step_target(s: StepView) -> Option<Seq<char>> {
    match s {
        StepView::ClearDir(p) => Some(p),
        StepView::CreateDir(p) => Some(p),
        StepView::ExtractArchive(p) => Some(p),
        StepView::WriteFile(p, _) => Some(p),
        StepView::WriteShortcutRecord(p) => Some(p),
        StepView::CopyDir(_, to) => Some(to),
        StepView::RemoveDir(p) => Some(p),
        StepView::RenameDir(_, to) => Some(to),
        StepView::RunScript(..) => None,
        StepView::RemoveShortcut => None,
        StepView::CreateShortcut(_) => None,
    }
}

/// Every step of `steps` that writes a path writes one inside `dir`.
pub open spec fn writes_only_under(steps: Seq<StepView>, dir: Seq<char>) -> bool {
    forall|i: int| 0 <= i < steps.len() ==> (#[trigger] step_target(steps[i]) matches Some(p) ==> has_prefix(p, dir))
}

proof fn lemma_prefix_of_concat(a: Seq<char>, b: Seq<char>)
    ensures
        has_prefix(a + b, a),
{
    assert((a + b).take(a.len() as int) =~= a);
}

/// An uninstall undoes an install of the same version into the same
/// directory: everything the install writes lies inside `dir`, the install
/// puts the application into the directory where the uninstall runs its
/// script, and the uninstall ends by removing `dir`.
pub proof fn lemma_uninstall_removes_install(
    dir: Seq<char>,
    version: Seq<char>,
    ty: Type,
    install_shortcut: bool,
    uninstall_shortcut: bool,
)
    ensures
        writes_only_under(install_plan(dir, version, ty, install_shortcut), dir),
        install_plan(dir, version, ty, install_shortcut)[6] == StepView::CopyDir(
            dir + "\\ahqdb\\dist"@,
            dist_of(dir, version),
        ),
        uninstall_plan(dir, version, ty, uninstall_shortcut)[0] matches StepView::RunScript(
            _,
            working_dir,
            _,
            _,
        ) && working_dir == dist_of(dir, version),
        uninstall_plan(dir, version, ty, uninstall_shortcut).last() == StepView::RemoveDir(dir),
{
    let steps = install_plan(dir, version, ty, install_shortcut);
    lemma_prefix_of_concat(dir, Seq::empty());
    assert(dir + Seq::<char>::empty() =~= dir);
    lemma_prefix_of_concat(dir, "\\dist_"@ + version);
    lemma_prefix_of_concat(dir, "\\ahqdb"@);
    lemma_prefix_of_concat(dir, "\\ahqdb\\type"@);
    lemma_prefix_of_concat(dir, "\\ahqdb\\.version"@);
    lemma_prefix_of_concat(dir, "\\ahqdb\\.link"@);
    lemma_prefix_of_concat(dir, "\\ahqdb\\dist"@);
    assert forall|i: int| 0 <= i < steps.len() implies (#[trigger] step_target(steps[i]) matches Some(p) ==> has_prefix(p, dir)) by {
        if i == 0 {
            assert(steps[0] == StepView::ClearDir(dir));
        }
    }
}

/// An update leaves an install that the uninstall of the new version fits:
/// everything the update writes lies inside `dir`, the new application goes
/// into the directory where that uninstall runs its script, and the
/// recorded version and type are the new version and the same type.
pub proof fn lemma_update_keeps_layout(
    dir: Seq<char>,
    version: Seq<char>,
    old_version: Seq<char>,
    old_build: Seq<char>,
    ty: Type,
    remove_old_shortcut: bool,
    with_shortcut: bool,
)
    ensures
        writes_only_under(
            update_plan(dir, version, old_version, old_build, ty, remove_old_shortcut, with_shortcut),
            dir,
        ),
        update_plan(dir, version, old_version, old_build, ty, remove_old_shortcut, with_shortcut).contains(
            StepView::CopyDir(dir + "\\ahqdb_new\\dist"@, dist_of(dir, version)),
        ),
        update_plan(dir, version, old_version, old_build, ty, remove_old_shortcut, with_shortcut).contains(
            StepView::WriteFile(dir + "\\ahqdb\\.version"@, version),
        ),
        update_plan(dir, version, old_version, old_build, ty, remove_old_shortcut, with_shortcut).contains(
            StepView::WriteFile(dir + "\\ahqdb\\type"@, type_tag(ty)),
        ),
        uninstall_plan(dir, version, ty, with_shortcut)[0] matches StepView::RunScript(
            _,
            working_dir,
            _,
            _,
        ) && working_dir == dist_of(dir, version),
{
    let steps = update_plan(dir, version, old_version, old_build, ty, remove_old_shortcut, with_shortcut);
    let k: int = if remove_old_shortcut { 1 } else { 0 };
    lemma_prefix_of_concat(dir, "\\dist_"@ + version);
    lemma_prefix_of_concat(dir, "\\dist_"@ + old_version);
    lemma_prefix_of_concat(dir, "\\ahqdb"@);
    lemma_prefix_of_concat(dir, "\\ahqdb_new"@);
    lemma_prefix_of_concat(dir, "\\ahqdb\\type"@);
    lemma_prefix_of_concat(dir, "\\ahqdb\\.version"@);
    lemma_prefix_of_concat(dir, "\\ahqdb\\.link"@);
    assert(steps[k + 3] == StepView::CopyDir(dir + "\\ahqdb_new\\dist"@, dist_of(dir, version)));
    assert(steps[k + 9] == StepView::WriteFile(dir + "\\ahqdb\\.version"@, version));
    assert(steps[k + 8] == StepView::WriteFile(dir + "\\ahqdb\\type"@, type_tag(ty)));
    assert forall|i: int| 0 <= i < steps.len() implies (#[trigger] step_target(steps[i]) matches Some(p) ==> has_prefix(p, dir)) by {
    }
}

/// The steps that install the package into `dir` as version `version`, or
/// why it cannot start: an install for all users needs `is_admin`.
pub fn install_steps(dir: &str, version: &str, ty: &Type, is_admin: bool, with_shortcut: bool) -> (r: Result<Vec<InstallStep>, PlanError>)
    ensures
        needs_elevation(is_admin, *ty) ==> r == Err::<Vec<InstallStep>, PlanError>(PlanError::NotElevated),
        !needs_elevation(is_admin, *ty) ==> (r matches Ok(steps) && steps_view(steps@) == install_plan(dir@, version@, *ty, with_shortcut)),
        r is Err <==> (*ty == Type::AllUsers && !is_admin),
{
    if crate::zip::elevation_refused(is_admin, ty) {
        return Err(PlanError::NotElevated);
    }
    let dist = layout_path(dir, &LayoutEntry::Dist(String::from_str(version)));
    let unpacked = layout_path(dir, &LayoutEntry::UnpackedDist);
    let mut steps: Vec<InstallStep> = Vec::new();
    steps.push(InstallStep::ClearDir(String::from_str(dir)));
    steps.push(InstallStep::CreateDir(dist.clone()));
    steps.push(InstallStep::ExtractArchive(layout_path(dir, &LayoutEntry::Ahqdb)));
    steps.push(InstallStep::WriteFile {
        path: layout_path(dir, &LayoutEntry::TypeFile),
        contents: String::from_str(type_tag_str(ty)),
    });
    steps.push(InstallStep::WriteFile {
        path: layout_path(dir, &LayoutEntry::VersionFile),
        contents: String::from_str(version),
    });
    steps.push(InstallStep::WriteShortcutRecord(layout_path(dir, &LayoutEntry::LinkFile)));
    steps.push(InstallStep::CopyDir { from: unpacked.clone(), to: dist.clone() });
    steps.push(InstallStep::RemoveDir(unpacked));
    steps.push(InstallStep::RunScript {
        arguments: install_script_arguments(INSTALL_SCRIPT, dist.as_str(), ty),
        working_dir: dist.clone(),
        hidden: false,
        checked: false,
    });
    if with_shortcut {
        steps.push(InstallStep::CreateShortcut(dist));
    }
    proof {
        reveal_strlit("../ahqdb/install.ps1");
    }
    assert(steps_view(steps@) =~= install_plan(dir@, version@, *ty, with_shortcut));
    Ok(steps)
}

/// The steps that remove the install in `dir`, or why it cannot start: an
/// install for all users needs `is_admin`.
pub fn uninstall_steps(dir: &str, version: &str, ty: &Type, is_admin: bool, with_shortcut: bool) -> (r: Result<Vec<InstallStep>, PlanError>)
    ensures
        needs_elevation(is_admin, *ty) ==> r == Err::<Vec<InstallStep>, PlanError>(PlanError::NotElevated),
        !needs_elevation(is_admin, *ty) ==> (r matches Ok(steps) && steps_view(steps@) == uninstall_plan(dir@, version@, *ty, with_shortcut)),
        r is Err <==> (*ty == Type::AllUsers && !is_admin),
{
    if crate::zip::elevation_refused(is_admin, ty) {
        return Err(PlanError::NotElevated);
    }
    let dist = layout_path(dir, &LayoutEntry::Dist(String::from_str(version)));
    let mut steps: Vec<InstallStep> = Vec::new();
    steps.push(InstallStep::RunScript {
        arguments: install_script_arguments(UNINSTALL_SCRIPT, dist.as_str(), ty),
        working_dir: dist,
        hidden: true,
        checked: false,
    });
    if with_shortcut {
        steps.push(InstallStep::RemoveShortcut);
    }
    steps.push(InstallStep::RemoveDir(String::from_str(dir)));
    proof {
        reveal_strlit("../ahqdb/uninstall.ps1");
    }
    assert(steps_view(steps@) =~= uninstall_plan(dir@, version@, *ty, with_shortcut));
    Ok(steps)
}

/// The steps that update the install in `dir` from `old_version` (built as
/// `old_build`) to `version`.
pub fn update_steps(
    dir: &str,
    version: &str,
    old_version: &str,
    old_build: &str,
    ty: &Type,
    remove_old_shortcut: bool,
    with_shortcut: bool,
) -> (steps: Vec<InstallStep>)
    ensures
        steps_view(steps@) == update_plan(dir@, version@, old_version@, old_build@, *ty, remove_old_shortcut, with_shortcut),
{
    let dist_old = layout_path(dir, &LayoutEntry::Dist(String::from_str(old_version)));
    let dist = layout_path(dir, &LayoutEntry::Dist(String::from_str(version)));
    let fresh = layout_path(dir, &LayoutEntry::NewAhqdb);
    let ahqdb = layout_path(dir, &LayoutEntry::Ahqdb);
    let mut steps: Vec<InstallStep> = Vec::new();
    if remove_old_shortcut {
        steps.push(InstallStep::RemoveShortcut);
    }
    steps.push(InstallStep::CreateDir(fresh.clone()));
    steps.push(InstallStep::ExtractArchive(fresh.clone()));
    steps.push(InstallStep::CreateDir(dist.clone()));
    steps.push(InstallStep::CopyDir { from: layout_path(dir, &LayoutEntry::NewUnpackedDist), to: dist.clone() });
    steps.push(InstallStep::RunScript {
        arguments: update_script_arguments(UPDATE_SCRIPT, dist_old.as_str(), dist.as_str(), old_build, ty),
        working_dir: dist.clone(),
        hidden: true,
        checked: true,
    });
    steps.push(InstallStep::RemoveDir(dist_old));
    steps.push(InstallStep::RemoveDir(ahqdb.clone()));
    steps.push(InstallStep::RenameDir { from: fresh, to: ahqdb });
    steps.push(InstallStep::WriteFile {
        path: layout_path(dir, &LayoutEntry::TypeFile),
        contents: String::from_str(type_tag_str(ty)),
    });
    steps.push(InstallStep::WriteFile {
        path: layout_path(dir, &LayoutEntry::VersionFile),
        contents: String::from_str(version),
    });
    steps.push(InstallStep::WriteShortcutRecord(layout_path(dir, &LayoutEntry::LinkFile)));
    if with_shortcut {
        steps.push(InstallStep::CreateShortcut(dist));
    }
    proof {
        reveal_strlit("../ahqdb_new/update.ps1");
    }
    assert(steps_view(steps@) =~= update_plan(dir@, version@, old_version@, old_build@, *ty, remove_old_shortcut, with_shortcut));
    steps
}

} // verus!
