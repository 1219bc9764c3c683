use windortent::ahqdb::ps1::install::{install_script_arguments, to_pwsh_string};
use windortent::ahqdb::ps1::update::update_script_arguments;
use windortent::ahqdb::ps1::{is_installed_script_arguments, script_exit_status};
use windortent::ahqdb::{
    archive_entry,
    json_input_allowed, resolve_read_source, script_path, size_allowed, text_allowed,
    AHQDBInstruction, ActionInstruction, ReadError, ReadRoot, ScriptCallError, UpdateInfo, Vector,
};
use windortent::zip::link::Type;

#[test]
fn pwsh_escapes_special_characters() {
    assert_eq!(to_pwsh_string("a\"b$c`d\ne\rf\tg"), "a`\"b`$c``d`ne`rf`tg");
    assert_eq!(to_pwsh_string("plain text"), "plain text");
    assert_eq!(to_pwsh_string(""), "");
    assert_eq!(to_pwsh_string("ünï$"), "ünï`$");
}

#[test]
fn install_arguments_for_each_mode() {
    assert_eq!(
        install_script_arguments("../ahqdb/install.ps1", "C:\\apps\\$x", &Type::AllUsers),
        "-ExecutionPolicy Bypass -Command \"& {$env:AHQDB_INSTALL_DIR='C:\\apps\\`$x'; $env:EXECUTION_MODE='AdminMode'; (cat '../ahqdb/install.ps1' | iex)}\""
    );
    assert_eq!(
        install_script_arguments("s.ps1", "d", &Type::CurrentUser),
        "-ExecutionPolicy Bypass -Command \"& {$env:AHQDB_INSTALL_DIR='d'; $env:EXECUTION_MODE='UserMode'; (cat 's.ps1' | iex)}\""
    );
}

#[test]
fn is_installed_and_update_arguments() {
    assert_eq!(
        is_installed_script_arguments("x\\isInstalled.ps1", &Type::CurrentUser),
        "-ExecutionPolicy Bypass -Command \"& {$env:EXECUTION_MODE='UserMode'; (cat 'x\\isInstalled.ps1' | iex)}\""
    );
    assert_eq!(
        update_script_arguments("u.ps1", "old", "new`", "7$", &Type::AllUsers),
        "-ExecutionPolicy Bypass -Command \"& {$env:EXECUTION_MODE='AdminMode'; $env:AHQDB_OLD_INSTALL_DIR='old'; $env:AHQDB_NEW_INSTALL_DIR='new``'; $env:OLD_BUILD='7$'; (cat 'u.ps1' | iex)}\""
    );
}

#[test]
fn exit_codes_of_scripts() {
    assert_eq!(script_exit_status(Some(0)), Ok(true));
    assert_eq!(script_exit_status(Some(1)), Ok(false));
    assert_eq!(script_exit_status(Some(3)), Err(3));
    assert_eq!(script_exit_status(None), Err(-100));
}

fn allowed() -> Vector {
    Vector::new(vec!["app.zip".to_string(), "tool.exe".to_string()])
}

#[test]
fn recorder_accepts_allowed_requests() {
    let allowed = allowed();
    let mut rec = AHQDBInstruction::new();
    assert_eq!(
        rec.download_and_unzip(&allowed, "app.zip".to_string(), "bin".to_string()),
        Ok(())
    );
    assert_eq!(
        rec.download_and_copy(&allowed, "tool.exe".to_string(), "bin/tool.exe".to_string()),
        Ok(())
    );
    assert_eq!(rec.inst.len(), 2);
    assert!(!rec.patch_old);
    match &rec.inst[1] {
        ActionInstruction::DownloadCopy { asset, path } => {
            assert_eq!(asset, "tool.exe");
            assert_eq!(path, "bin/tool.exe");
        }
        _ => panic!("wrong instruction"),
    }
}

#[test]
fn recorder_refuses_unknown_assets_and_escaping_paths() {
    let allowed = allowed();
    let mut rec = AHQDBInstruction::new();
    assert_eq!(
        rec.download_and_unzip(&allowed, "other.zip".to_string(), "bin".to_string()),
        Err(ScriptCallError::UnverifiedAssetOrPath)
    );
    assert_eq!(
        rec.download_and_unzip(&allowed, "app.zip".to_string(), "../bin".to_string()),
        Err(ScriptCallError::UnverifiedAssetOrPath)
    );
    assert_eq!(
        rec.download_and_copy(&allowed, "tool.exe".to_string(), "C:\\Windows".to_string()),
        Err(ScriptCallError::UnverifiedAsset)
    );
    assert_eq!(rec.inst.len(), 0);
}

#[test]
fn recorder_limits_instruction_count() {
    let allowed = allowed();
    let mut rec = AHQDBInstruction::new();
    for _ in 0..30 {
        assert_eq!(
            rec.download_and_copy(&allowed, "tool.exe".to_string(), "t".to_string()),
            Ok(())
        );
    }
    assert_eq!(
        rec.download_and_copy(&allowed, "tool.exe".to_string(), "t".to_string()),
        Err(ScriptCallError::TooManyInstructions)
    );
    assert_eq!(
        rec.download_and_unzip(&allowed, "nothing".to_string(), "..".to_string()),
        Err(ScriptCallError::TooManyInstructions)
    );
    assert_eq!(rec.inst.len(), 30);
}

#[test]
fn commit_old_only_before_requests() {
    let allowed = allowed();
    let mut rec = AHQDBInstruction::new();
    assert_eq!(rec.commit_old(), Ok(()));
    assert!(rec.patch_old);
    assert_eq!(
        rec.download_and_copy(&allowed, "tool.exe".to_string(), "t".to_string()),
        Ok(())
    );
    assert_eq!(rec.commit_old(), Err(ScriptCallError::AlreadyEmitted));

    let mut fresh = AHQDBInstruction::new();
    fresh
        .download_and_copy(&allowed, "tool.exe".to_string(), "t".to_string())
        .unwrap();
    assert_eq!(fresh.commit_old(), Err(ScriptCallError::AlreadyEmitted));
    assert!(!fresh.patch_old);
}

#[test]
fn error_messages() {
    assert_eq!(
        ScriptCallError::TooManyInstructions.message(),
        "Error: Only 30 instructions are allowed!"
    );
    assert_eq!(ScriptCallError::UnverifiedAsset.message(), "Error, unverified asset");
    assert_eq!(ReadError::InvalidRoot.message(), "Error, invalid root");
}

#[test]
fn vector_membership() {
    let v = allowed();
    assert!(v.contains(&"app.zip".to_string()));
    assert!(!v.contains(&"app".to_string()));
    assert_eq!(v.as_vec().len(), 2);
    assert_eq!(v.len(), 2);
    assert_eq!(v[0], "app.zip");
}

#[test]
fn script_selection_and_limits() {
    assert_eq!(script_path(&UpdateInfo::NoUpdate), "./scripts/install.rhai");
    assert_eq!(
        script_path(&UpdateInfo::Update { old_root: "x".to_string() }),
        "./scripts/update.rhai"
    );
    assert!(size_allowed(262144));
    assert!(!size_allowed(262145));
    assert!(text_allowed("abc"));
    assert!(json_input_allowed(&"a".repeat(131072)));
    assert!(!json_input_allowed(&"a".repeat(131073)));
    assert!(!json_input_allowed(&"é".repeat(65537)));
}

#[test]
fn read_sources() {
    let old = resolve_read_source("old://cfg/app.json", "C:\\old").unwrap();
    assert_eq!(old.root, ReadRoot::OldInstall);
    assert_eq!(old.path, "C:\\old\\cfg\\app.json");
    let new = resolve_read_source("new://a/../b.txt", "C:\\old").unwrap();
    assert_eq!(new.root, ReadRoot::Package);
    assert_eq!(new.path, "./dist\\b.txt");
    assert_eq!(
        resolve_read_source("old://../x", "C:\\old").unwrap_err(),
        ReadError::InvalidPath
    );
    assert_eq!(
        resolve_read_source("file://x", "C:\\old").unwrap_err(),
        ReadError::InvalidRoot
    );
}

#[test]
fn archive_entry_names() {
    assert_eq!(archive_entry("./scripts/install.rhai"), "scripts/install.rhai");
    assert_eq!(archive_entry("./dist\\b.txt"), "dist/b.txt");
    assert_eq!(archive_entry("manifest.toml"), "manifest.toml");
}

#[test]
fn reads_stay_inside_their_root() {
    for file in ["old://a/./b/../c", "old://x\\y", "old://.", "new://q/r/..", "new://deep/er/file"] {
        let source = resolve_read_source(file, "D:\\prev").unwrap();
        let root = match source.root {
            ReadRoot::OldInstall => "D:\\prev",
            ReadRoot::Package => "./dist",
        };
        assert!(source.path.starts_with(root), "{file} -> {}", source.path);
    }
    assert_eq!(resolve_read_source("new://a/../../b", "D:\\prev").unwrap_err(), ReadError::InvalidPath);
    assert_eq!(resolve_read_source("old:///abs", "D:\\prev").unwrap_err(), ReadError::InvalidPath);
}
