//! Windows Installer (MSI) packages: the product state, the installer's
//! result codes and the paths under which a package is kept.
use vstd::prelude::*;

use crate::text::{after_bytes, lemma_text_after_ascii_prefix, text_after_bytes};

verus! {

/// The error type of the Windows API bindings.
#[verifier::external_type_specification]
#[verifier::external_body]
pub struct ExWindowsError(windows_core::Error);

/// An MSI package: its path and its `ProductCode`.
pub struct MsiPackage(String, String);

/// Where the installer says a product stands.
#[derive(Debug, Clone, Copy, PartialEq, Eq, Structural)]
pub enum ProductState {
    NotInstalled,
    AdvertisedButNotInstalled,
    InstalledForDifferentUser,
    Installed,
    Unknown,
}

/// Windows Installer's `INSTALLSTATE_UNKNOWN`.
pub const INSTALLSTATE_UNKNOWN: i32 = -1;
/// Windows Installer's `INSTALLSTATE_ADVERTISED`.
pub const INSTALLSTATE_ADVERTISED: i32 = 1;
/// Windows Installer's `INSTALLSTATE_ABSENT`.
pub const INSTALLSTATE_ABSENT: i32 = 2;
/// Windows Installer's `INSTALLSTATE_DEFAULT`.
pub const INSTALLSTATE_DEFAULT: i32 = 5;

/// The command line that installs a package.
pub const INSTALL_COMMAND_LINE: &'static str = "ACTION=INSTALL UILevel=3";
/// The command line that removes a package.
pub const UNINSTALL_COMMAND_LINE: &'static str = "REMOVE=ALL UILevel=3";

/// The product state that an install-state query answers.
pub open spec fn state_of(install_state: i32) -> ProductState {
    if install_state == INSTALLSTATE_ABSENT {
        ProductState::InstalledForDifferentUser
    } else if install_state == INSTALLSTATE_ADVERTISED {
        ProductState::AdvertisedButNotInstalled
    } else if install_state == INSTALLSTATE_DEFAULT {
        ProductState::Installed
    } else if install_state == INSTALLSTATE_UNKNOWN {
        ProductState::NotInstalled
    } else {
        ProductState::Unknown
    }
}

impl ProductState {
    /// The number that stands for the state: -1, 1, 2, 5, and 6 for
    /// `Unknown`.
    pub open spec fn code_of(self) -> i32 {
        match self {
            ProductState::NotInstalled => -1i32,
            ProductState::AdvertisedButNotInstalled => 1i32,
            ProductState::InstalledForDifferentUser => 2i32,
            ProductState::Installed => 5i32,
            ProductState::Unknown => 6i32,
        }
    }

    /// The number that stands for the state.
    pub fn code(&self) -> (c: i32)
        ensures
            c == self.code_of(),
    {
        match self {
            ProductState::NotInstalled => -1,
            ProductState::AdvertisedButNotInstalled => 1,
            ProductState::InstalledForDifferentUser => 2,
            ProductState::Installed => 5,
            ProductState::Unknown => 6,
        }
    }

    /// Reads the answer of an install-state query (`MsiQueryProductStateW`).
    pub fn from_install_state(install_state: i32) -> (s: ProductState)
        ensures
            s == state_of(install_state),
    {
        if install_state == INSTALLSTATE_ABSENT {
            ProductState::InstalledForDifferentUser
        } else if install_state == INSTALLSTATE_ADVERTISED {
            ProductState::AdvertisedButNotInstalled
        } else if install_state == INSTALLSTATE_DEFAULT {
            ProductState::Installed
        } else if install_state == INSTALLSTATE_UNKNOWN {
            ProductState::NotInstalled
        } else {
            ProductState::Unknown
        }
    }
}

/// A recognised install state keeps its number: the state it is read as
/// stands for the same number.
pub proof fn lemma_product_state_code_roundtrip(install_state: i32)
    requires
        install_state == INSTALLSTATE_UNKNOWN || install_state == INSTALLSTATE_ADVERTISED
            || install_state == INSTALLSTATE_ABSENT || install_state == INSTALLSTATE_DEFAULT,
    ensures
        state_of(install_state).code_of() == install_state,
        state_of(install_state) != ProductState::Unknown,
{
}

impl MsiPackage {
    pub closed spec fn path_view(&self) -> Seq<char> {
        self.0@
    }

    pub closed spec fn product_code_view(&self) -> Seq<char> {
        self.1@
    }

    /// A package whose `ProductCode` is already known.
    pub fn new_from_product_code(path: String, product_code: String) -> (r: Result<MsiPackage, windows_core::Error>)
        ensures
            r matches Ok(p) && p.path_view() == path@ && p.product_code_view() == product_code@,
    {
        Ok(MsiPackage(path, product_code))
    }

    /// The path of the package file.
    pub fn path(&self) -> (p: &str)
        ensures
            p@ == self.path_view(),
    {
        self.0.as_str()
    }

    /// The package's `ProductCode`.
    pub fn product_code(&self) -> (c: &str)
        ensures
            c@ == self.product_code_view(),
    {
        self.1.as_str()
    }

    /// The product state, given what the installer answered when asked
    /// about this package's `ProductCode`.
    pub fn product_state(&self, install_state: i32) -> (s: ProductState)
        ensures
            s == state_of(install_state),
    {
        ProductState::from_install_state(install_state)
    }

    /// Installed, given what the installer answered when asked about this
    /// package's `ProductCode`.
    pub fn is_installed(&self, install_state: i32) -> (b: bool)
        ensures
            b == (state_of(install_state) == ProductState::Installed),
    {
        match self.product_state(install_state) {
            ProductState::Installed => true,
            _ => false,
        }
    }
}

/// The path under which a package is opened: its canonical path without the
/// first four bytes (the `\\?\` marker), or `\\?\` itself when that cut does
/// not fall on a character boundary.
pub fn database_path(canonical: &str) -> (p: String)
    ensures
        p@ == (match text_after_bytes(canonical, 4) {
            Some(t) => t,
            None => seq!['\\', '\\', '?', '\\'],
        }),
{
    match after_bytes(canonical, 4) {
        Some(t) => t,
        None => {
            let marker = "\\\\?\\";
            proof {
                reveal_strlit("\\\\?\\");
            }
            let s = marker.to_owned();
            assert(s@ =~= seq!['\\', '\\', '?', '\\']);
            s
        },
    }
}

/// For a canonical path, which begins with the `\\?\` marker, the database
/// path is exactly what follows the marker.
pub proof fn lemma_database_path_drops_marker(canonical: &str, rest: Seq<char>)
    requires
        canonical@ == seq!['\\', '\\', '?', '\\'] + rest,
    ensures
        text_after_bytes(canonical, 4) == Some(rest),
{
    let marker = seq!['\\', '\\', '?', '\\'];
    assert(vstd::utf8::is_ascii_chars(marker));
    lemma_text_after_ascii_prefix(canonical, marker, rest);
}

/// The `HRESULT` for a Win32 error code, as `HRESULT::from_win32` computes
/// it: 0 and codes that already read as negative stay, any other code `c`
/// becomes the failure `0x8007_0000 | (c & 0xFFFF)`.
pub open spec fn hresult_of_win32(code: u32) -> int {
    if code == 0 {
        0
    } else if code >= 0x8000_0000 {
        code - 0x1_0000_0000
    } else {
        (code % 0x1_0000) + 0x8007_0000 - 0x1_0000_0000
    }
}

/// `windows_core::HRESULT::from_win32`, read as its number. The crate's
/// source computes it as `hresult_of_win32` states.
#[verifier::external_body]
fn hresult_from_win32(code: u32) -> (h: i32)
    ensures
        h == hresult_of_win32(code),
{
    windows_core::HRESULT::from_win32(code).0
}

/// Checks a Win32 result code the way `HRESULT::from_win32(code).ok()`
/// does: success when the `HRESULT` is not negative, otherwise the failing
/// `HRESULT`.
pub fn win32_result(code: u32) -> (r: Result<(), i32>)
    ensures
        hresult_of_win32(code) >= 0 ==> r is Ok,
        hresult_of_win32(code) < 0 ==> r == Err::<(), i32>(hresult_of_win32(code) as i32),
{
    let h = hresult_from_win32(code);
    if h >= 0 {
        Ok(())
    } else {
        Err(h)
    }
}

/// A Win32 result code is a success exactly when it is 0.
pub proof fn lemma_win32_success_is_zero(code: u32)
    ensures
        hresult_of_win32(code) >= 0 <==> code == 0,
{
}

} // verus!
