use adm_updater::paths::{
    get_adm_app_dir, get_app_path, get_assembly_dir, get_payload_dir, get_service_path,
    get_shell_path, get_temp_dir, get_update_data_dir, get_working_dir, InstallPath, APP_DIR,
    APP_EXE, SERVICE_EXE, SHELL_EXE,
};

fn updater_exe() -> InstallPath {
    InstallPath::new("D:\\")
        .join("Code")
        .join("Repos")
        .join("AutoDarkMode")
        .join("ADM-Test-Environment")
        .join("adm-updater")
        .join("AutoDarkModeUpdater.exe")
}

#[test]
fn print_updater_paths() {
    let assembly_dir = get_assembly_dir(&updater_exe());
    println!("exedir: {:?}", assembly_dir.to_text());
    println!("cwd: {:?}", get_working_dir(&assembly_dir).to_text());
    println!("service: {:?}", get_service_path(&assembly_dir).to_text());
    println!("app: {:?}", get_app_path(&assembly_dir).to_text());
    println!("shell: {:?}", get_shell_path(&assembly_dir).to_text());
    println!("update_data: {:?}", get_update_data_dir(&assembly_dir).to_text());
    println!("adm data directory: {:?}", get_adm_app_dir(&assembly_dir).to_text());
    println!(
        "unpacked directory: {:?}",
        get_update_data_dir(&assembly_dir).join("unpacked").join(APP_DIR).to_text()
    );
    assert_eq!(
        assembly_dir.to_text(),
        "D:\\Code\\Repos\\AutoDarkMode\\ADM-Test-Environment\\adm-updater"
    );
}

#[test]
fn the_layout_hangs_below_the_parent_of_the_updater() {
    let assembly_dir = InstallPath::new("D:\\").join("adm").join("adm-updater");
    assert_eq!(get_working_dir(&assembly_dir).to_text(), "D:\\adm");
    assert_eq!(get_adm_app_dir(&assembly_dir).to_text(), "D:\\adm\\adm-app");
    assert_eq!(get_update_data_dir(&assembly_dir).to_text(), "D:\\adm\\adm-update-data");
    assert_eq!(get_temp_dir(&assembly_dir).to_text(), "D:\\adm\\adm-update-data\\tmp");
    assert_eq!(
        get_payload_dir(&assembly_dir).to_text(),
        "D:\\adm\\adm-update-data\\unpacked\\adm-app"
    );
    assert_eq!(
        get_service_path(&assembly_dir).to_text(),
        "D:\\adm\\adm-app\\AutoDarkModeSvc.exe"
    );
    assert_eq!(get_app_path(&assembly_dir).to_text(), "D:\\adm\\adm-app\\AutoDarkModeApp.exe");
    assert_eq!(
        get_shell_path(&assembly_dir).to_text(),
        "D:\\adm\\adm-app\\AutoDarkModeShell.exe"
    );
    assert_eq!(SERVICE_EXE, "AutoDarkModeSvc.exe");
    assert_eq!(APP_EXE, "AutoDarkModeApp.exe");
    assert_eq!(SHELL_EXE, "AutoDarkModeShell.exe");
    assert_eq!(APP_DIR, "adm-app");
}

#[test]
fn a_path_without_names_is_its_own_working_directory() {
    let root = InstallPath::new("F:\\");
    assert!(root.parent().is_none());
    let working = get_working_dir(&root);
    assert_eq!(working.root, "F:\\");
    assert!(working.names.is_empty());
    assert_eq!(get_adm_app_dir(&root).to_text(), "F:\\adm-app");
}

#[test]
fn parent_drops_the_last_name() {
    let path = InstallPath::new("D:\\").join("a").join("b");
    let up = path.parent().unwrap();
    assert_eq!(up.root, "D:\\");
    assert_eq!(up.names, vec!["a".to_string()]);
    assert_eq!(up.parent().unwrap().names, Vec::<String>::new());
    assert!(up.parent().unwrap().parent().is_none());
}

#[test]
fn join_and_duplicate_leave_the_original_alone() {
    let path = InstallPath::new("").join("a");
    let longer = path.join("b");
    let copy = longer.duplicate();
    assert_eq!(path.names, vec!["a".to_string()]);
    assert_eq!(copy.names, vec!["a".to_string(), "b".to_string()]);
    assert_eq!(copy.root, "");
}

#[test]
fn a_path_is_written_with_separators_between_the_names() {
    assert_eq!(InstallPath::new("D:\\").to_text(), "D:\\");
    assert_eq!(InstallPath::new("").to_text(), "");
    assert_eq!(InstallPath::new("").join("a").to_text(), "a");
    assert_eq!(InstallPath::new("").join("a").join("b").join("c").to_text(), "a\\b\\c");
    assert_eq!(InstallPath::new("\\\\server\\share\\").join("x").to_text(), "\\\\server\\share\\x");
}

#[test]
fn the_assembly_dir_is_the_directory_of_the_executable() {
    let exe = InstallPath::new("C:\\").join("adm").join("updater.exe");
    let dir = get_assembly_dir(&exe);
    assert_eq!(dir.to_text(), "C:\\adm");
}
