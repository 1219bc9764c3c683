//! The identity of an MSIX bundle and how it is found among installed
//! packages.
use vstd::prelude::*;
use vstd::string::StringExecFns;

use crate::text::{after_bytes, push_char, text_after_bytes};

verus! {

/// The part of a bundle manifest that identifies the bundle.
#[derive(Debug)]
pub struct Bundle {
    pub identity: Identity,
}

/// Name, version and publisher of a bundle.
#[derive(Debug)]
pub struct Identity {
    pub name: String,
    pub version: String,
    pub publisher: String,
}

/// The identity of a package as the package manager reports it.
#[derive(Debug)]
pub struct InstalledPackageId {
    pub name: String,
    pub publisher: String,
    pub major: u16,
    pub minor: u16,
    pub build: u16,
    pub revision: u16,
}

/// The decimal digit for `d < 10`.
pub open spec fn digit_char(d: nat) -> char {
    seq!['0', '1', '2', '3', '4', '5', '6', '7', '8', '9'][d as int]
}

/// The decimal form of a number, without leading zeros.
pub open spec fn decimal(n: nat) -> Seq<char>
    decreases n,
{
    if n < 10 {
        seq![digit_char(n)]
    } else {
        decimal(n / 10).push(digit_char(n % 10))
    }
}

/// The version text `major.minor.build.revision`.
pub open spec fn version_text(major: u16, minor: u16, build: u16, revision: u16) -> Seq<char> {
    decimal(major as nat) + seq!['.'] + decimal(minor as nat) + seq!['.'] + decimal(build as nat)
        + seq!['.'] + decimal(revision as nat)
}

fn digit(d: u16) -> (c: char)
    requires
        d < 10,
    ensures
        c == digit_char(d as nat),
{
    if d == 0 { '0' }
    else if d == 1 { '1' }
    else if d == 2 { '2' }
    else if d == 3 { '3' }
    else if d == 4 { '4' }
    else if d == 5 { '5' }
    else if d == 6 { '6' }
    else if d == 7 { '7' }
    else if d == 8 { '8' }
    else { '9' }
}

fn push_decimal(out: &mut String, n: u16)
    ensures
        final(out)@ == old(out)@ + decimal(n as nat),
    decreases n,
{
    if n >= 10 {
        push_decimal(out, n / 10);
    }
    push_char(out, digit(n % 10));
    assert(out@ =~= old(out)@ + decimal(n as nat));
}

/// A decimal digit character.
pub open spec fn is_digit(c: char) -> bool {
    '0' <= c && c <= '9'
}

/// The number that a text of decimal digits stands for.
pub open spec fn digits_value(s: Seq<char>) -> int
    decreases s.len(),
{
    if s.len() == 0 {
        0
    } else {
        digits_value(s.drop_last()) * 10 + (s.last() as int - '0' as int)
    }
}

proof fn lemma_digit_char_value(d: nat)
    requires
        d < 10,
    ensures
        digit_char(d) as int == '0' as int + d,
        is_digit(digit_char(d)),
{
    let t = seq!['0', '1', '2', '3', '4', '5', '6', '7', '8', '9'];
    if d == 0 { assert(t[0] == '0'); }
    else if d == 1 { assert(t[1] == '1'); }
    else if d == 2 { assert(t[2] == '2'); }
    else if d == 3 { assert(t[3] == '3'); }
    else if d == 4 { assert(t[4] == '4'); }
    else if d == 5 { assert(t[5] == '5'); }
    else if d == 6 { assert(t[6] == '6'); }
    else if d == 7 { assert(t[7] == '7'); }
    else if d == 8 { assert(t[8] == '8'); }
    else { assert(t[9] == '9'); }
}

/// The decimal form of a number is made of digits, has no leading zero
/// (unless the number is 0) and reads back as the number: version text
/// writes each part of a version exactly.
pub proof fn lemma_decimal_reads_back(n: nat)
    ensures
        digits_value(decimal(n)) == n,
        decimal(n).len() > 0,
        forall|i: int| 0 <= i < decimal(n).len() ==> is_digit(#[trigger] decimal(n)[i]),
        n > 0 ==> decimal(n)[0] != '0',
    decreases n,
{
    if n < 10 {
        lemma_digit_char_value(n);
        let s = decimal(n);
        assert(s.drop_last() =~= Seq::<char>::empty());
        assert(digits_value(Seq::<char>::empty()) == 0);
        assert(s.last() == digit_char(n));
        assert(digits_value(s) == digits_value(s.drop_last()) * 10 + (s.last() as int - '0' as int));
    } else {
        lemma_decimal_reads_back(n / 10);
        lemma_digit_char_value(n % 10);
        let head = decimal(n / 10);
        let s = decimal(n);
        assert(s.drop_last() =~= head);
        assert(s[0] == head[0]);
        assert forall|i: int| 0 <= i < s.len() implies is_digit(#[trigger] s[i]) by {
            if i < head.len() {
                assert(s[i] == head[i]);
            }
        }
        assert(s.last() == digit_char(n % 10));
        assert(digits_value(s) == digits_value(s.drop_last()) * 10 + (s.last() as int - '0' as int));
        assert((n / 10) * 10 + n % 10 == n);
    }
}

/// Writes a package version the way the installed-package check compares
/// it: `major.minor.build.revision` in decimal.
pub fn version_string(major: u16, minor: u16, build: u16, revision: u16) -> (s: String)
    ensures
        s@ == version_text(major, minor, build, revision),
{
    let mut s = String::new();
    push_decimal(&mut s, major);
    push_char(&mut s, '.');
    push_decimal(&mut s, minor);
    push_char(&mut s, '.');
    push_decimal(&mut s, build);
    push_char(&mut s, '.');
    push_decimal(&mut s, revision);
    assert(s@ =~= version_text(major, minor, build, revision));
    s
}

impl Identity {
    /// The installed package is this bundle: same name, same publisher and
    /// the same version text.
    pub open spec fn is_installed_as(&self, id: InstalledPackageId) -> bool {
        &&& self.name@ == id.name@
        &&& self.publisher@ == id.publisher@
        &&& self.version@ == version_text(id.major, id.minor, id.build, id.revision)
    }

    /// Whether the installed package `id` is this bundle.
    pub fn matches(&self, id: &InstalledPackageId) -> (b: bool)
        ensures
            b == self.is_installed_as(*id),
            b <==> (self.name@ == id.name@ && self.publisher@ == id.publisher@
                && self.version@ == version_text(id.major, id.minor, id.build, id.revision)),
    {
        let version = version_string(id.major, id.minor, id.build, id.revision);
        self.name == id.name && self.publisher == id.publisher && self.version == version
    }
}

/// The candidate at `i` is a readable package that is this bundle.
pub open spec fn candidate_matches(identity: &Identity, candidates: Seq<Option<InstalledPackageId>>, i: int) -> bool {
    candidates[i] matches Some(id) && identity.is_installed_as(id)
}

/// The first of the installed packages that is this bundle. A package whose
/// identity could not be read (`None`) never matches.
pub fn find_installed(identity: &Identity, candidates: &Vec<Option<InstalledPackageId>>) -> (r: Option<usize>)
    ensures
        match r {
            Some(i) => i < candidates.len() && candidate_matches(identity, candidates@, i as int)
                && forall|j: int| 0 <= j < i ==> !candidate_matches(identity, candidates@, j)
                && (candidates@[i as int] matches Some(id) && id.name@ == identity.name@
                && id.publisher@ == identity.publisher@),
            None => forall|j: int| 0 <= j < candidates.len() ==> !candidate_matches(identity, candidates@, j),
        },
{
    let mut i: usize = 0;
    while i < candidates.len()
        invariant
            i <= candidates.len(),
            forall|j: int| 0 <= j < i ==> !candidate_matches(identity, candidates@, j),
        decreases candidates.len() - i,
    {
        match &candidates[i] {
            Some(id) => {
                if identity.matches(id) {
                    return Some(i);
                }
            },
            None => {},
        }
        i = i + 1;
    }
    None
}

/// The path under which a bundle is installed: its canonical path without
/// the first four bytes (the `\\?\` marker), or empty when that cut does not
/// fall on a character boundary.
pub fn bundle_path(canonical: &str) -> (p: String)
    ensures
        p@ == (match text_after_bytes(canonical, 4) {
            Some(t) => t,
            None => Seq::empty(),
        }),
{
    match after_bytes(canonical, 4) {
        Some(t) => t,
        None => String::new(),
    }
}

/// The full name that an uninstall asks the package manager to remove:
/// the installed package's full name, or empty when it is not installed.
pub fn removal_name(full_name: &Option<String>) -> (n: &str)
    ensures
        n@ == (match full_name {
            Some(f) => f@,
            None => Seq::empty(),
        }),
{
    match full_name {
        Some(f) => f.as_str(),
        None => {
            let e = "";
            proof {
                reveal_strlit("");
            }
            e
        },
    }
}

/// A bundle is taken to be installed only as a package with its own name,
/// its own publisher and its own version: another application of the same
/// publisher, or another version, is never taken for it.
pub proof fn lemma_match_is_same_identity(identity: &Identity, id: InstalledPackageId)
    ensures
        identity.is_installed_as(id) ==> identity.name@ == id.name@,
        identity.is_installed_as(id) ==> identity.publisher@ == id.publisher@,
        identity.is_installed_as(id) ==> identity.version@ == version_text(id.major, id.minor, id.build, id.revision),
        identity.name@ == id.name@ && identity.publisher@ == id.publisher@ && identity.version@
            == version_text(id.major, id.minor, id.build, id.revision) ==> identity.is_installed_as(id),
{
}

} // verus!
