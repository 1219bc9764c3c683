use windortent::ahqdb_legacy::{
    layout_path, parse_type_tag, shortcut_of, type_tag_str, ADBShortcut, ArchiveEntries,
    BasicShortcutInfo, LayoutEntry,
};
use windortent::av::scan::{output_reports_clean, scan_verdict};
use windortent::common::{elevated_run_state, ElevatedRun};
use windortent::exe::SuccessStatus;
use windortent::msi::{database_path, win32_result, MsiPackage, ProductState};
use windortent::utils::{common_desktop, common_start_menu, desktop_of_profile, start_menu_of_profile};
use windortent::winrt::metadata::{
    bundle_path, find_installed, removal_name, version_string, Identity, InstalledPackageId,
};
use windortent::zip::link::{
    desktop_shortcut_file, removed_folder, shortcut_executable, shortcut_file, shortcut_folder,
    shortcut_target, Type,
};
use windortent::zip::{elevation_refused, ZipShortcut};

#[test]
fn product_states_from_installer_answers() {
    assert_eq!(ProductState::from_install_state(5), ProductState::Installed);
    assert_eq!(ProductState::from_install_state(2), ProductState::InstalledForDifferentUser);
    assert_eq!(ProductState::from_install_state(1), ProductState::AdvertisedButNotInstalled);
    assert_eq!(ProductState::from_install_state(-1), ProductState::NotInstalled);
    assert_eq!(ProductState::from_install_state(3), ProductState::Unknown);
    assert_eq!(ProductState::Installed.code(), 5);
    assert_eq!(ProductState::Unknown.code(), 6);
    assert_eq!(ProductState::NotInstalled.code(), -1);
}

#[test]
fn msi_package_is_installed() {
    let pkg = MsiPackage::new_from_product_code("a.msi".to_string(), "{GUID}".to_string()).unwrap();
    assert_eq!(pkg.path(), "a.msi");
    assert_eq!(pkg.product_code(), "{GUID}");
    assert!(pkg.is_installed(5));
    assert!(!pkg.is_installed(2));
    assert_eq!(pkg.product_state(1), ProductState::AdvertisedButNotInstalled);
}

#[test]
fn win32_results() {
    assert_eq!(win32_result(0), Ok(()));
    // ERROR_INSTALL_USEREXIT (1602) becomes 0x80070642.
    assert_eq!(win32_result(1602), Err(0x8007_0642u32 as i32));
    assert_eq!(win32_result(0x8000_4005), Err(0x8000_4005u32 as i32));
    assert_eq!(win32_result(0x1_2345), Err(0x8007_2345u32 as i32));
}

#[test]
fn database_and_bundle_paths_drop_verbatim_marker() {
    assert_eq!(database_path("\\\\?\\C:\\pkg\\a.msi"), "C:\\pkg\\a.msi");
    assert_eq!(database_path("ab"), "\\\\?\\");
    assert_eq!(database_path("aéé"), "\\\\?\\");
    assert_eq!(database_path("abcd"), "");
    assert_eq!(bundle_path("\\\\?\\C:\\a.msixbundle"), "C:\\a.msixbundle");
    assert_eq!(bundle_path("x"), "");
}

#[test]
fn version_strings() {
    assert_eq!(version_string(1, 0, 23, 65535), "1.0.23.65535");
    assert_eq!(version_string(0, 0, 0, 0), "0.0.0.0");
    assert_eq!(version_string(10, 9, 100, 7), "10.9.100.7");
}

fn id(name: &str, publisher: &str, v: (u16, u16, u16, u16)) -> InstalledPackageId {
    InstalledPackageId {
        name: name.to_string(),
        publisher: publisher.to_string(),
        major: v.0,
        minor: v.1,
        build: v.2,
        revision: v.3,
    }
}

#[test]
fn installed_package_is_found_by_identity() {
    let identity = Identity {
        name: "App".to_string(),
        version: "1.2.3.0".to_string(),
        publisher: "CN=Me".to_string(),
    };
    assert!(identity.matches(&id("App", "CN=Me", (1, 2, 3, 0))));
    assert!(!identity.matches(&id("App", "CN=Me", (1, 2, 3, 1))));
    let candidates = vec![
        Some(id("App", "CN=Other", (1, 2, 3, 0))),
        None,
        Some(id("App", "CN=Me", (1, 2, 3, 0))),
        Some(id("App", "CN=Me", (1, 2, 3, 0))),
    ];
    assert_eq!(find_installed(&identity, &candidates), Some(2));
    assert_eq!(find_installed(&identity, &vec![None]), None);
    assert_eq!(removal_name(&Some("App_1.2.3.0_x64".to_string())), "App_1.2.3.0_x64");
    assert_eq!(removal_name(&None), "");
}

#[test]
fn type_tags_round_trip() {
    assert_eq!(type_tag_str(&Type::AllUsers), "all");
    assert_eq!(type_tag_str(&Type::CurrentUser), "current");
    assert_eq!(parse_type_tag("all"), Some(Type::AllUsers));
    assert_eq!(parse_type_tag("current"), Some(Type::CurrentUser));
    assert_eq!(parse_type_tag("all\n"), None);
}

#[test]
fn install_layout_paths() {
    assert_eq!(layout_path("C:\\i", &LayoutEntry::TypeFile), "C:\\i\\ahqdb\\type");
    assert_eq!(
        layout_path("C:\\i", &LayoutEntry::IsInstalledScript),
        "C:\\i\\ahqdb\\isInstalled.ps1"
    );
    assert_eq!(
        layout_path("C:\\i", &LayoutEntry::Dist("1.0".to_string())),
        "C:\\i\\dist_1.0"
    );
    assert_eq!(layout_path("d", &LayoutEntry::NewUnpackedDist), "d\\ahqdb_new\\dist");
}

#[test]
fn archive_completeness() {
    let all = ArchiveEntries {
        install_script: true,
        uninstall_script: true,
        update_script: true,
        is_installed_script: true,
        link_file: true,
        dist_dir: true,
    };
    assert!(all.is_complete());
    let no_dist = ArchiveEntries { dist_dir: false, ..all };
    assert!(!no_dist.is_complete());
}

#[test]
fn shortcut_from_link_entry() {
    let info = ADBShortcut {
        name: "App".to_string(),
        exe: "app.exe".to_string(),
        ignore: None,
        args: Some("--x".to_string()),
        description: None,
        icon: Some(("icon.ico".to_string(), 2)),
    };
    let basic = BasicShortcutInfo { desktop: true, start_menu_folder: Some("Store") };
    let s = shortcut_of(&info, &basic).unwrap();
    assert_eq!(s.name, "App");
    assert_eq!(s.exe, "app.exe");
    assert_eq!(s.args, Some("--x"));
    assert_eq!(s.description, None);
    assert_eq!(s.icon, Some(("icon.ico", 2)));
    assert!(s.desktop);
    assert_eq!(s.start_menu_dir, Some("Store"));
    let ignored = ADBShortcut { ignore: Some(true), ..info };
    assert!(shortcut_of(&ignored, &basic).is_none());
}

fn shortcut(dir: Option<&'static str>) -> ZipShortcut<'static> {
    ZipShortcut {
        name: "App",
        exe: "bin/app.exe",
        args: None,
        description: None,
        icon: None,
        desktop: true,
        start_menu_dir: dir,
    }
}

#[test]
fn shortcut_locations() {
    let base = "C:\\ProgramData\\Microsoft\\Windows\\Start Menu";
    assert_eq!(
        shortcut_folder(base, &shortcut(Some("Store")), "com.app"),
        "C:\\ProgramData\\Microsoft\\Windows\\Start Menu\\Store\\com.app"
    );
    assert_eq!(
        shortcut_folder(base, &shortcut(None), "com.app"),
        "C:\\ProgramData\\Microsoft\\Windows\\Start Menu\\com.app"
    );
    assert_eq!(
        removed_folder(base, &shortcut(Some("Store")), "com.app"),
        shortcut_folder(base, &shortcut(Some("Store")), "com.app")
    );
    assert_eq!(removed_folder(base, &shortcut(None), "com.app"), base);
    assert_eq!(shortcut_file("C:\\f", "App"), "C:\\f\\App.lnk");
    assert_eq!(
        desktop_shortcut_file("C:\\Users\\Default\\Desktop", "App", "com.app"),
        "C:\\Users\\Default\\Desktop\\App (com.app).lnk"
    );
    assert_eq!(shortcut_executable("C:\\i", "bin/app.exe"), "C:\\i/bin/app.exe");
    assert_eq!(shortcut_target("\\\\?\\C:\\i\\app.exe"), "C:\\i\\app.exe");
    assert_eq!(shortcut_target("C:\\plain"), "C:\\plain");
}

#[test]
fn elevation_rules() {
    assert!(elevation_refused(false, &Type::AllUsers));
    assert!(!elevation_refused(true, &Type::AllUsers));
    assert!(!elevation_refused(false, &Type::CurrentUser));
}

#[test]
fn defender_output() {
    let out = b"Scan starting...\nScanning C:\\f.exe found no threats.\n";
    assert!(output_reports_clean("C:\\f.exe", "Scanning C:\\f.exe found no threats."));
    assert!(!scan_verdict("C:\\f.exe", out));
    assert!(scan_verdict("C:\\g.exe", out));
    assert!(scan_verdict("C:\\f.exe", b"Threat found"));
    assert!(!scan_verdict("C:\\f.exe", b"\xffScanning C:\\f.exe found no threats"));
}

#[test]
fn elevated_run_exit_codes() {
    assert_eq!(elevated_run_state(259), ElevatedRun::Running);
    assert_eq!(elevated_run_state(0), ElevatedRun::Succeeded);
    assert_eq!(elevated_run_state(1), ElevatedRun::Failed);
}

#[test]
fn well_known_folders() {
    assert_eq!(common_start_menu(), "C:\\ProgramData\\Microsoft\\Windows\\Start Menu");
    assert_eq!(common_desktop(), "C:\\Users\\Default\\Desktop");
    assert_eq!(desktop_of_profile("C:\\Users\\me"), "C:\\Users\\me\\Desktop");
    assert_eq!(
        start_menu_of_profile("C:\\Users\\me"),
        "C:\\Users\\me\\AppData\\Roaming\\Microsoft\\Windows\\Start Menu"
    );
}

#[test]
fn success_status_values() {
    assert_eq!(SuccessStatus::Stat(true), SuccessStatus::Stat(true));
    assert_ne!(SuccessStatus::Stat(false), SuccessStatus::Unknown);
}
