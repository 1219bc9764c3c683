use windortent::ahqdb_legacy::{
    install_steps, uninstall_steps, update_steps, InstallStep, PlanError,
};
use windortent::ahqdb::ps1::install::to_pwsh_string;
use windortent::zip::link::Type;

fn describe(steps: &[InstallStep]) -> Vec<String> {
    steps
        .iter()
        .map(|s| match s {
            InstallStep::ClearDir(p) => format!("clear {p}"),
            InstallStep::CreateDir(p) => format!("mkdir {p}"),
            InstallStep::ExtractArchive(p) => format!("extract {p}"),
            InstallStep::WriteFile { path, contents } => format!("write {path} = {contents}"),
            InstallStep::WriteShortcutRecord(p) => format!("record {p}"),
            InstallStep::CopyDir { from, to } => format!("copy {from} -> {to}"),
            InstallStep::RemoveDir(p) => format!("rmdir {p}"),
            InstallStep::RenameDir { from, to } => format!("rename {from} -> {to}"),
            InstallStep::RunScript { arguments, working_dir, hidden, checked } => {
                format!("run [{arguments}] in {working_dir} hidden={hidden} checked={checked}")
            }
            InstallStep::RemoveShortcut => "unlink".to_string(),
            InstallStep::CreateShortcut(p) => format!("link {p}"),
        })
        .collect()
}

#[test]
fn install_plan_for_current_user() {
    let steps = install_steps("D:\\apps\\x", "1.0", &Type::CurrentUser, false, true).unwrap();
    assert_eq!(
        describe(&steps),
        vec![
            "clear D:\\apps\\x",
            "mkdir D:\\apps\\x\\dist_1.0",
            "extract D:\\apps\\x\\ahqdb",
            "write D:\\apps\\x\\ahqdb\\type = current",
            "write D:\\apps\\x\\ahqdb\\.version = 1.0",
            "record D:\\apps\\x\\ahqdb\\.link",
            "copy D:\\apps\\x\\ahqdb\\dist -> D:\\apps\\x\\dist_1.0",
            "rmdir D:\\apps\\x\\ahqdb\\dist",
            "run [-ExecutionPolicy Bypass -Command \"& {$env:AHQDB_INSTALL_DIR='D:\\apps\\x\\dist_1.0'; $env:EXECUTION_MODE='UserMode'; (cat '../ahqdb/install.ps1' | iex)}\"] in D:\\apps\\x\\dist_1.0 hidden=false checked=false",
            "link D:\\apps\\x\\dist_1.0",
        ]
    );
}

#[test]
fn install_for_all_users_needs_elevation() {
    assert_eq!(
        install_steps("d", "1", &Type::AllUsers, false, true).unwrap_err(),
        PlanError::NotElevated
    );
    let steps = install_steps("d", "1", &Type::AllUsers, true, false).unwrap();
    assert_eq!(steps.len(), 9);
    assert_eq!(describe(&steps)[3], "write d\\ahqdb\\type = all");
}

#[test]
fn uninstall_plan() {
    let steps = uninstall_steps("d", "2", &Type::CurrentUser, false, true).unwrap();
    assert_eq!(
        describe(&steps),
        vec![
            "run [-ExecutionPolicy Bypass -Command \"& {$env:AHQDB_INSTALL_DIR='d\\dist_2'; $env:EXECUTION_MODE='UserMode'; (cat '../ahqdb/uninstall.ps1' | iex)}\"] in d\\dist_2 hidden=true checked=false",
            "unlink",
            "rmdir d",
        ]
    );
    assert_eq!(
        uninstall_steps("d", "2", &Type::AllUsers, false, true).unwrap_err(),
        PlanError::NotElevated
    );
    assert_eq!(uninstall_steps("d", "2", &Type::AllUsers, true, false).unwrap().len(), 2);
}

#[test]
fn update_plan() {
    let steps = update_steps("d", "2", "1", "b7", &Type::AllUsers, true, true);
    assert_eq!(
        describe(&steps),
        vec![
            "unlink",
            "mkdir d\\ahqdb_new",
            "extract d\\ahqdb_new",
            "mkdir d\\dist_2",
            "copy d\\ahqdb_new\\dist -> d\\dist_2",
            "run [-ExecutionPolicy Bypass -Command \"& {$env:EXECUTION_MODE='AdminMode'; $env:AHQDB_OLD_INSTALL_DIR='d\\dist_1'; $env:AHQDB_NEW_INSTALL_DIR='d\\dist_2'; $env:OLD_BUILD='b7'; (cat '../ahqdb_new/update.ps1' | iex)}\"] in d\\dist_2 hidden=true checked=true",
            "rmdir d\\dist_1",
            "rmdir d\\ahqdb",
            "rename d\\ahqdb_new -> d\\ahqdb",
            "write d\\ahqdb\\type = all",
            "write d\\ahqdb\\.version = 2",
            "record d\\ahqdb\\.link",
            "link d\\dist_2",
        ]
    );
    assert_eq!(update_steps("d", "2", "1", "b", &Type::CurrentUser, false, false).len(), 11);
}

#[test]
fn escaped_values_stay_on_one_line() {
    let escaped = to_pwsh_string("a\nb\rc\td");
    assert!(!escaped.contains('\n') && !escaped.contains('\r') && !escaped.contains('\t'));
    assert_eq!(escaped, "a`nb`rc`td");
}

fn written_path(step: &InstallStep) -> Option<&str> {
    match step {
        InstallStep::ClearDir(p)
        | InstallStep::CreateDir(p)
        | InstallStep::ExtractArchive(p)
        | InstallStep::WriteShortcutRecord(p)
        | InstallStep::RemoveDir(p) => Some(p),
        InstallStep::WriteFile { path, .. } => Some(path),
        InstallStep::CopyDir { to, .. } | InstallStep::RenameDir { to, .. } => Some(to),
        _ => None,
    }
}

fn script_dir(step: &InstallStep) -> Option<&str> {
    match step {
        InstallStep::RunScript { working_dir, .. } => Some(working_dir),
        _ => None,
    }
}

#[test]
fn uninstall_undoes_install_of_same_version() {
    let dir = "C:\\Program Files\\pkg";
    let install = install_steps(dir, "3.1", &Type::AllUsers, true, true).unwrap();
    assert!(install.iter().filter_map(written_path).all(|p| p.starts_with(dir)));
    let copied_to = match &install[6] {
        InstallStep::CopyDir { to, .. } => to.clone(),
        _ => panic!("the application is copied at step 7"),
    };
    let uninstall = uninstall_steps(dir, "3.1", &Type::AllUsers, true, false).unwrap();
    assert_eq!(script_dir(&uninstall[0]), Some(copied_to.as_str()));
    assert!(matches!(uninstall.last(), Some(InstallStep::RemoveDir(p)) if p == dir));
}

#[test]
fn update_leaves_layout_for_uninstall_of_new_version() {
    let dir = "E:\\x";
    let update = update_steps(dir, "5", "4", "b", &Type::CurrentUser, false, true);
    assert!(update.iter().filter_map(written_path).all(|p| p.starts_with(dir)));
    let uninstall = uninstall_steps(dir, "5", &Type::CurrentUser, false, true).unwrap();
    let new_dist = script_dir(&uninstall[0]).unwrap();
    assert!(update
        .iter()
        .any(|s| matches!(s, InstallStep::CopyDir { to, .. } if to == new_dist)));
    assert!(update.iter().any(
        |s| matches!(s, InstallStep::WriteFile { path, contents } if path == "E:\\x\\ahqdb\\.version" && contents == "5")
    ));
}
