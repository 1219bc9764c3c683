# windortent

Installers for the application formats of a Windows store: `.exe`, `.msi`,
`.msix`, `.zip`, and two generations of the store's own package format
(`.ahqdb`).

The crate is in two parts.

- `src/` is the library, written in Verus. Every function there carries a
  contract and is proved against it: the resolution of user supplied paths
  below a virtual root, the checks that a package script's requests pass,
  the PowerShell command lines that run package scripts, the plans of file
  system steps for install, uninstall and update, shortcut placement, the
  decoding of install states and Win32 result codes, and the matching of
  installed packages against a bundle's identity.
- `app/` is ordinary Rust around the library: the Windows API calls, file and
  process I/O, the script engine and the archive reader. It asks the library
  what to do and performs it.

Modules of the library:

| module          | what it holds                                                     |
| --------------- | ----------------------------------------------------------------- |
| `ahqdb`         | package manifest, script call checks, `validation` of paths, `ps1` |
| `ahqdb_legacy`  | install, uninstall and update plans of the older package format    |
| `av`            | the verdict of a malware scan from the scanner's output            |
| `common`        | the outcome of an elevated process                                 |
| `msi`           | install states, database paths, Win32 result codes                 |
| `utils`         | shortcut folders of the current user and of all users              |
| `winrt`         | bundle identities, version text, installed package lookup          |
| `zip`           | shortcut files and folders                                         |

`tests/` runs the library on concrete values.
