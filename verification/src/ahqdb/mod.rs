//! The package database format.
//!
//! A package carries a manifest and scripts. A script does not touch the
//! system itself: it asks the host to download assets, and the host records
//! each request as an [`ActionInstruction`] after checking it. This module
//! holds the manifest's data, the recorded instructions, and the checks that
//! every host call performs.
use vstd::prelude::*;
use vstd::string::StringSliceAdditionalSpecFns;

use std::sync::Arc;

use crate::text::{chars_of, has_prefix, skip_chars, starts_with_chars};
use validation::{
    has_drive_prefix, lemma_resolved_stays_under_root, logical_components, resolve_logical_path,
    resolved, PathError,
};

pub mod ps1;
pub mod validation;

verus! {

/// One step that the installer performs for a package.
#[derive(Debug)]
pub enum ActionInstruction {
    /// Download the asset and copy it to the (relative) location.
    DownloadCopy { asset: String, path: String },
    /// Download the asset and unpack it into the (relative) directory.
    DownloadUnzip { asset: String, dir: String },
}

/// What a package script asked for.
#[derive(Debug)]
pub struct AHQDBInstruction {
    /// May be `true` only on update: patch the old install in place.
    pub patch_old: bool,
    pub inst: Vec<ActionInstruction>,
}

/// Whether a script runs for a fresh install or for an update.
#[derive(Debug)]
pub enum UpdateInfo {
    NoUpdate,
    Update { old_root: String },
}

/// The manifest of a package.
#[derive(Debug)]
pub struct AHQDBManifest {
    pub windows: AHQDBWindowsManifest,
}

/// The Windows part of a package manifest.
#[derive(Debug)]
pub struct AHQDBWindowsManifest {
    pub aumid: Option<String>,
    pub links: Vec<AHQDBWindowsLink>,
    /// The assets that the package's scripts may download.
    pub allowed: Vector,
}

/// A shared list of names.
#[derive(Debug)]
pub struct Vector(Arc<Vec<String>>);

/// A shortcut that a package asks for.
#[derive(Debug)]
pub struct AHQDBWindowsLink {
    pub name: String,
    pub exe: String,
    pub description: Option<String>,
    pub args: Option<String>,
    /// Defaults to the executable's first icon.
    pub icon: Option<(String, i32)>,
}

impl View for Vector {
    type V = Seq<Seq<char>>;

    closed spec fn view(&self) -> Seq<Seq<char>> {
        (*self.0).deep_view()
    }
}

impl std::ops::Deref for Vector {
    type Target = Vec<String>;

    fn deref(&self) -> (v: &Vec<String>)
        ensures
            v.deep_view() == self@,
    {
        &*self.0
    }
}

impl Vector {
    pub fn new(items: Vec<String>) -> (v: Vector)
        ensures
            v@ == items.deep_view(),
    {
        Vector(Arc::new(items))
    }

    /// The names in the list.
    pub fn as_vec(&self) -> (v: &Vec<String>)
        ensures
            v.deep_view() == self@,
    {
        &*self.0
    }

    /// Whether `item` is in the list.
    pub fn contains(&self, item: &String) -> (b: bool)
        ensures
            b == self@.contains(item@),
    {
        let items: &Vec<String> = &*self.0;
        let mut i: usize = 0;
        while i < items.len()
            invariant
                i <= items.len(),
                items.deep_view() == self@,
                forall|j: int| 0 <= j < i ==> #[trigger] items@[j]@ != item@,
            decreases items.len() - i,
        {
            if items[i] == *item {
                assert(self@[i as int] == item@);
                return true;
            }
            i = i + 1;
        }
        assert forall|j: int| 0 <= j < self@.len() implies self@[j] != item@ by {
            assert(self@[j] == items@[j]@);
        }
        false
    }
}

/// The most instructions that one script may emit.
pub const MAX_INSTRUCTIONS: usize = 30;

/// The largest script, and the largest file a script may read, in bytes.
pub const MAX_SCRIPT_BYTES: u64 = 262144;

/// The largest text that a script may hand to the JSON parser, in bytes.
pub const MAX_JSON_BYTES: usize = 131072;

/// A location is acceptable when it is relative and stays below its root.
pub open spec fn is_contained_path(path: Seq<char>) -> bool {
    logical_components(path) is Ok
}

/// An instruction that the host may record: its asset is in the manifest's
/// list and its location stays below the install root.
pub open spec fn instruction_allowed(allowed: Seq<Seq<char>>, inst: ActionInstruction) -> bool {
    match inst {
        ActionInstruction::DownloadCopy { asset, path } => allowed.contains(asset@)
            && is_contained_path(path@),
        ActionInstruction::DownloadUnzip { asset, dir } => allowed.contains(asset@)
            && is_contained_path(dir@),
    }
}

/// Why the host refused a script's call.
#[derive(Debug, PartialEq, Eq, Structural)]
pub enum ScriptCallError {
    TooManyInstructions,
    UnverifiedAssetOrPath,
    UnverifiedAsset,
    AlreadyEmitted,
}

impl ScriptCallError {
    /// The message that the script sees.
    pub fn message(&self) -> (m: &'static str)
        ensures
            m@ == (match self {
                ScriptCallError::TooManyInstructions => "Error: Only 30 instructions are allowed!"@,
                ScriptCallError::UnverifiedAssetOrPath => "Error, unverified asset or path, check"@,
                ScriptCallError::UnverifiedAsset => "Error, unverified asset"@,
                ScriptCallError::AlreadyEmitted =>
                    "Error, trying to commit to a different location after emitting requests."@,
            }),
    {
        match self {
            ScriptCallError::TooManyInstructions => "Error: Only 30 instructions are allowed!",
            ScriptCallError::UnverifiedAssetOrPath => "Error, unverified asset or path, check",
            ScriptCallError::UnverifiedAsset => "Error, unverified asset",
            ScriptCallError::AlreadyEmitted =>
                "Error, trying to commit to a different location after emitting requests.",
        }
    }
}

fn is_contained(path: &String) -> (b: bool)
    ensures
        b == is_contained_path(path@),
{
    resolve_logical_path("/", path.as_str()).is_ok()
}

impl AHQDBInstruction {
    /// Every recorded instruction passed the host's checks, and there are no
    /// more than [`MAX_INSTRUCTIONS`] of them.
    pub open spec fn well_formed(&self, allowed: Seq<Seq<char>>) -> bool {
        &&& self.inst.len() <= MAX_INSTRUCTIONS
        &&& forall|i: int| 0 <= i < self.inst.len() ==> instruction_allowed(allowed, #[trigger] self.inst[i])
    }

    /// Nothing recorded yet.
    pub fn new() -> (r: AHQDBInstruction)
        ensures
            !r.patch_old,
            r.inst@.len() == 0,
    {
        AHQDBInstruction { patch_old: false, inst: Vec::new() }
    }

    /// The script's `download_and_unzip(asset, dir)`: records the request if
    /// fewer than 30 are recorded, the asset is allowed and `dir` stays below
    /// the install root. A refused call changes nothing.
    pub fn download_and_unzip(&mut self, allowed: &Vector, asset: String, dir: String) -> (r: Result<(), ScriptCallError>)
        ensures
            old(self).inst.len() >= MAX_INSTRUCTIONS ==> r == Err::<(), ScriptCallError>(ScriptCallError::TooManyInstructions),
            old(self).inst.len() < MAX_INSTRUCTIONS && !(allowed@.contains(asset@) && is_contained_path(dir@))
                ==> r == Err::<(), ScriptCallError>(ScriptCallError::UnverifiedAssetOrPath),
            old(self).inst.len() < MAX_INSTRUCTIONS && allowed@.contains(asset@) && is_contained_path(dir@)
                ==> r is Ok && final(self).inst@ == old(self).inst@.push(ActionInstruction::DownloadUnzip { asset, dir })
                    && final(self).patch_old == old(self).patch_old,
            r is Err ==> *final(self) == *old(self),
            old(self).well_formed(allowed@) ==> final(self).well_formed(allowed@),
    {
        if self.inst.len() >= MAX_INSTRUCTIONS {
            return Err(ScriptCallError::TooManyInstructions);
        }
        if allowed.contains(&asset) && is_contained(&dir) {
            let ghost before = self.inst@;
            self.inst.push(ActionInstruction::DownloadUnzip { asset, dir });
            proof {
                assert forall|i: int| 0 <= i < self.inst.len() && old(self).well_formed(allowed@)
                    implies instruction_allowed(allowed@, #[trigger] self.inst[i]) by {
                    if i < before.len() {
                        assert(self.inst[i] == before[i]);
                    }
                }
            }
            return Ok(());
        }
        Err(ScriptCallError::UnverifiedAssetOrPath)
    }

    /// The script's `download_and_copy(asset, path)`: records the request if
    /// fewer than 30 are recorded, the asset is allowed and `path` stays
    /// below the install root. A refused call changes nothing.
    pub fn download_and_copy(&mut self, allowed: &Vector, asset: String, path: String) -> (r: Result<(), ScriptCallError>)
        ensures
            old(self).inst.len() >= MAX_INSTRUCTIONS ==> r == Err::<(), ScriptCallError>(ScriptCallError::TooManyInstructions),
            old(self).inst.len() < MAX_INSTRUCTIONS && !(allowed@.contains(asset@) && is_contained_path(path@))
                ==> r == Err::<(), ScriptCallError>(ScriptCallError::UnverifiedAsset),
            old(self).inst.len() < MAX_INSTRUCTIONS && allowed@.contains(asset@) && is_contained_path(path@)
                ==> r is Ok && final(self).inst@ == old(self).inst@.push(ActionInstruction::DownloadCopy { asset, path })
                    && final(self).patch_old == old(self).patch_old,
            r is Err ==> *final(self) == *old(self),
            old(self).well_formed(allowed@) ==> final(self).well_formed(allowed@),
    {
        if self.inst.len() >= MAX_INSTRUCTIONS {
            return Err(ScriptCallError::TooManyInstructions);
        }
        if allowed.contains(&asset) && is_contained(&path) {
            let ghost before = self.inst@;
            self.inst.push(ActionInstruction::DownloadCopy { asset, path });
            proof {
                assert forall|i: int| 0 <= i < self.inst.len() && old(self).well_formed(allowed@)
                    implies instruction_allowed(allowed@, #[trigger] self.inst[i]) by {
                    if i < before.len() {
                        assert(self.inst[i] == before[i]);
                    }
                }
            }
            return Ok(());
        }
        Err(ScriptCallError::UnverifiedAsset)
    }

    /// The script's `commit_old()` on update: asks to patch the old install
    /// in place. Refused once any instruction has been recorded.
    pub fn commit_old(&mut self) -> (r: Result<(), ScriptCallError>)
        ensures
            old(self).inst.len() != 0 ==> r == Err::<(), ScriptCallError>(ScriptCallError::AlreadyEmitted)
                && *final(self) == *old(self),
            old(self).inst.len() == 0 ==> r is Ok && final(self).patch_old && final(self).inst@ == old(self).inst@,
    {
        if self.inst.len() != 0 {
            return Err(ScriptCallError::AlreadyEmitted);
        }
        self.patch_old = true;
        Ok(())
    }
}

/// The script that a package runs: the update script on update, the
/// install script otherwise.
pub fn script_path(update: &UpdateInfo) -> (p: &'static str)
    ensures
        p@ == (match update {
            UpdateInfo::Update { .. } => "./scripts/update.rhai"@,
            UpdateInfo::NoUpdate => "./scripts/install.rhai"@,
        }),
{
    match update {
        UpdateInfo::Update { .. } => "./scripts/update.rhai",
        UpdateInfo::NoUpdate => "./scripts/install.rhai",
    }
}

/// A script, or a file that a script reads, of this many bytes is accepted.
pub fn size_allowed(size: u64) -> (b: bool)
    ensures
        b == (size <= MAX_SCRIPT_BYTES),
{
    size <= MAX_SCRIPT_BYTES
}

/// Text that a script read is accepted when its UTF-8 form is no longer
/// than the size limit.
pub fn text_allowed(data: &str) -> (b: bool)
    ensures
        b == (data.spec_bytes().len() as usize as u64 <= MAX_SCRIPT_BYTES),
{
    (data.len() as u64) <= MAX_SCRIPT_BYTES
}

/// A script may hand at most this much text to the JSON parser.
pub fn json_input_allowed(data: &str) -> (b: bool)
    ensures
        b == (data.spec_bytes().len() as usize <= MAX_JSON_BYTES),
{
    data.len() <= MAX_JSON_BYTES
}

/// The root that a file read by a script lies under.
#[derive(Debug, Clone, Copy, PartialEq, Eq, Structural)]
pub enum ReadRoot {
    /// The old install (`old://`).
    OldInstall,
    /// The package's `dist` directory (`new://`).
    Package,
}

/// Where a file that a script reads comes from.
#[derive(Debug)]
pub struct ReadSource {
    pub root: ReadRoot,
    pub path: String,
}

/// Why a script's read was refused.
#[derive(Debug, PartialEq, Eq, Structural)]
pub enum ReadError {
    InvalidPath,
    InvalidRoot,
    TooLarge,
}

impl ReadError {
    /// The message that the script sees.
    pub fn message(&self) -> (m: &'static str)
        ensures
            m@ == (match self {
                ReadError::InvalidPath => "Error, invalid path"@,
                ReadError::InvalidRoot => "Error, invalid root"@,
                ReadError::TooLarge => "Error, too large"@,
            }),
    {
        match self {
            ReadError::InvalidPath => "Error, invalid path",
            ReadError::InvalidRoot => "Error, invalid root",
            ReadError::TooLarge => "Error, too large",
        }
    }
}

pub open spec fn old_scheme() -> Seq<char> {
    seq!['o', 'l', 'd', ':', '/', '/']
}

pub open spec fn new_scheme() -> Seq<char> {
    seq!['n', 'e', 'w', ':', '/', '/']
}

/// The directory of the package that `new://` paths are read from.
pub open spec fn package_dist() -> Seq<char> {
    seq!['.', '/', 'd', 'i', 's', 't']
}

/// Where `fs_read_string(file)` reads from: `old://` paths below the old
/// install root, `new://` paths below the package's `./dist`; anything else,
/// and any path that leaves its root, is refused.
pub open spec fn read_source(file: Seq<char>, old_root: Seq<char>) -> Result<(ReadRoot, Seq<char>), ReadError> {
    if has_prefix(file, old_scheme()) {
        match resolved(old_root, file.skip(6)) {
            Ok(p) => Ok((ReadRoot::OldInstall, p)),
            Err(_) => Err(ReadError::InvalidPath),
        }
    } else if has_prefix(file, new_scheme()) {
        match resolved(package_dist(), file.skip(6)) {
            Ok(p) => Ok((ReadRoot::Package, p)),
            Err(_) => Err(ReadError::InvalidPath),
        }
    } else {
        Err(ReadError::InvalidRoot)
    }
}

/// The directory that a read from `root` must stay inside.
pub open spec fn read_root_dir(root: ReadRoot, old_root: Seq<char>) -> Seq<char> {
    match root {
        ReadRoot::OldInstall => old_root,
        ReadRoot::Package => package_dist(),
    }
}

/// A script reads only inside the root it names: an accepted `old://` path
/// lies under the old install, an accepted `new://` path under the
/// package's `./dist`. This holds whenever no component of the path looks
/// like a drive (`C:`), which Windows path joining would let replace the
/// root.
pub proof fn lemma_read_stays_under_root(file: Seq<char>, old_root: Seq<char>)
    requires
        logical_components(file.skip(6)) matches Ok(names) ==> forall|j: int|
            0 <= j < names.len() ==> !has_drive_prefix(#[trigger] names[j]),
    ensures
        read_source(file, old_root) matches Ok((root, p)) ==> has_prefix(p, read_root_dir(root, old_root)),
{
    lemma_resolved_stays_under_root(old_root, file.skip(6));
    lemma_resolved_stays_under_root(package_dist(), file.skip(6));
}

/// Decides where a script's `fs_read_string(file)` reads from (see
/// [`read_source`]); the read itself is the caller's.
pub fn resolve_read_source(file: &str, old_root: &str) -> (r: Result<ReadSource, ReadError>)
    ensures
        match read_source(file@, old_root@) {
            Ok((root, path)) => r matches Ok(got) && got.root == root && got.path@ == path,
            Err(e) => r == Err::<ReadSource, ReadError>(e),
        },
{
    let chars = chars_of(file);
    let old_prefix = chars_of("old://");
    let new_prefix = chars_of("new://");
    proof {
        reveal_strlit("old://");
        reveal_strlit("new://");
    }
    assert(old_prefix@ =~= old_scheme());
    assert(new_prefix@ =~= new_scheme());
    if starts_with_chars(&chars, &old_prefix) {
        let rest = crate::text::string_of(&skip_chars(&chars, 6));
        match resolve_logical_path(old_root, rest.as_str()) {
            Ok(p) => Ok(ReadSource { root: ReadRoot::OldInstall, path: p }),
            Err(_) => Err(ReadError::InvalidPath),
        }
    } else if starts_with_chars(&chars, &new_prefix) {
        let rest = crate::text::string_of(&skip_chars(&chars, 6));
        let dist = "./dist";
        proof {
            reveal_strlit("./dist");
        }
        assert(dist@ =~= package_dist());
        match resolve_logical_path(dist, rest.as_str()) {
            Ok(p) => Ok(ReadSource { root: ReadRoot::Package, path: p }),
            Err(_) => Err(ReadError::InvalidPath),
        }
    } else {
        Err(ReadError::InvalidRoot)
    }
}

/// The name inside the package archive of a package path: without a
/// leading `./`, with `/` for every backslash.
pub open spec fn archive_entry_name(path: Seq<char>) -> Seq<char> {
    let rest = if has_prefix(path, seq!['.', '/']) {
        path.skip(2)
    } else {
        path
    };
    rest.map_values(|c: char| if c == '\\' { '/' } else { c })
}

/// Archive names use `/` only: no name holds a backslash, each character
/// other than a backslash is kept in place, and the name is the path less a
/// leading `./` (two characters shorter) or the whole path.
pub proof fn lemma_archive_entry_name_shape(path: Seq<char>)
    ensures
        forall|i: int| 0 <= i < archive_entry_name(path).len() ==> #[trigger] archive_entry_name(path)[i] != '\\',
        has_prefix(path, seq!['.', '/']) ==> archive_entry_name(path).len() == path.len() - 2,
        !has_prefix(path, seq!['.', '/']) ==> archive_entry_name(path).len() == path.len(),
        !has_prefix(path, seq!['.', '/']) ==> forall|i: int| 0 <= i < path.len() && path[i] != '\\'
            ==> #[trigger] archive_entry_name(path)[i] == path[i],
        has_prefix(path, seq!['.', '/']) ==> forall|i: int| 2 <= i < path.len() && path[i] != '\\'
            ==> #[trigger] archive_entry_name(path)[i - 2] == path[i],
{
}

/// The name inside the package archive under which a package path is
/// stored (see [`archive_entry_name`]).
pub fn archive_entry(path: &str) -> (name: String)
    ensures
        name@ == archive_entry_name(path@),
{
    let chars = chars_of(path);
    let mut dot_slash: Vec<char> = Vec::new();
    dot_slash.push('.');
    dot_slash.push('/');
    assert(dot_slash@ =~= seq!['.', '/']);
    let rest = if starts_with_chars(&chars, &dot_slash) {
        skip_chars(&chars, 2)
    } else {
        chars
    };
    let mut out: Vec<char> = Vec::new();
    let mut i: usize = 0;
    while i < rest.len()
        invariant
            i <= rest.len(),
            out@ == rest@.take(i as int).map_values(|c: char| if c == '\\' { '/' } else { c }),
        decreases rest.len() - i,
    {
        let c = rest[i];
        if c == '\\' {
            out.push('/');
        } else {
            out.push(c);
        }
        assert(rest@.take(i + 1) =~= rest@.take(i as int).push(c));
        assert(out@ =~= rest@.take(i + 1).map_values(|c: char| if c == '\\' { '/' } else { c }));
        i = i + 1;
    }
    assert(rest@.take(rest.len() as int) =~= rest@);
    crate::text::string_of(&out)
}

} // verus!
