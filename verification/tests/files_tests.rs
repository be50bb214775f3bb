use adm_updater::error::OpError;
use adm_updater::files::{
    check_ignored, check_update_files, clean_adm_dir, directory_not_created, escalated,
    file_not_moved, get_adm_files, get_dirs, get_files_recurse, get_update_entries, is_excluded,
    is_update_file, is_whitelisted, is_whitelisted_name, move_files, move_target, DirEntry,
    FileFailure, FileRules,
};
use adm_updater::paths::InstallPath;

fn whitelist() -> Vec<String> {
    vec!["AutoDarkModeSvc.exe".to_string(), ".dll".to_string(), "adm-app".to_string()]
}

const EXEC_DIR: &str = "C:\\adm\\adm-updater";
const DATA_DIR: &str = "C:\\adm\\adm-update-data";

#[test]
fn whitelisted_is_what_ends_with_an_entry() {
    let list = whitelist();
    assert!(is_whitelisted("C:\\adm\\AutoDarkModeSvc.exe", &list));
    assert!(is_whitelisted("C:\\adm\\core.dll", &list));
    assert!(is_whitelisted("C:\\adm\\adm-app", &list));
    assert!(!is_whitelisted("C:\\adm\\core.dll.bak", &list));
    assert!(!is_whitelisted("C:\\adm\\autodarkmodesvc.exe", &list));
    assert!(!is_whitelisted("C:\\adm\\AutoDarkModeSvc.exe", &vec![]));
    assert!(is_whitelisted("anything", &vec![String::new()]));
}

#[test]
fn the_uninstaller_and_the_updaters_own_files_are_excluded() {
    assert!(is_excluded("C:\\adm\\unins000.dat", EXEC_DIR, DATA_DIR));
    assert!(is_excluded("C:\\adm\\unins000.exe", EXEC_DIR, DATA_DIR));
    assert!(is_excluded("C:\\adm\\AutoDarkMode.VisualElementsManifest.xml", EXEC_DIR, DATA_DIR));
    assert!(is_excluded("C:\\adm\\adm-updater\\updater.dll", EXEC_DIR, DATA_DIR));
    assert!(is_excluded("C:\\adm\\adm-update-data\\tmp\\core.dll", EXEC_DIR, DATA_DIR));
    assert!(!is_excluded("C:\\adm\\core.dll", EXEC_DIR, DATA_DIR));
    assert!(!is_excluded("C:\\adm\\core.dll", "", ""));
    assert!(!is_excluded("", "", ""));
}

#[test]
fn check_ignored_takes_whitelisted_files_that_are_not_excluded() {
    let list = whitelist();
    assert!(check_ignored("C:\\adm\\core.dll", EXEC_DIR, DATA_DIR, &list));
    assert!(!check_ignored("C:\\adm\\adm-updater\\core.dll", EXEC_DIR, DATA_DIR, &list));
    assert!(!check_ignored("C:\\adm\\adm-update-data\\core.dll", EXEC_DIR, DATA_DIR, &list));
    assert!(!check_ignored("C:\\adm\\unins000.dat.dll", EXEC_DIR, DATA_DIR, &list));
    assert!(!check_ignored("C:\\adm\\readme.txt", EXEC_DIR, DATA_DIR, &list));
    assert!(check_ignored("C:\\adm\\adm-updater\\core.dll", "", DATA_DIR, &list));
}

#[test]
fn names_are_whitelisted_by_their_beginning_whatever_the_case() {
    let list = vec!["AutoDarkMode".to_string(), "core.DLL".to_string()];
    assert!(is_whitelisted_name("autodarkmodesvc.exe", &list));
    assert!(is_whitelisted_name("AUTODARKMODE", &list));
    assert!(is_whitelisted_name("Core.dll.bak", &list));
    assert!(!is_whitelisted_name("core.dl", &list));
    assert!(!is_whitelisted_name("xAutoDarkMode", &list));
    assert!(!is_whitelisted_name("core.dll", &vec![]));
}

#[test]
fn update_files_need_a_whitelisted_name_and_no_exclusion() {
    let list = vec!["autodarkmode".to_string()];
    let path = "C:\\adm\\AutoDarkModeSvc.exe";
    assert!(is_update_file(path, Some("AutoDarkModeSvc.exe"), EXEC_DIR, DATA_DIR, &list));
    assert!(!is_update_file(path, None, EXEC_DIR, DATA_DIR, &list));
    assert!(!is_update_file(path, Some("Svc.exe"), EXEC_DIR, DATA_DIR, &list));
    let own = "C:\\adm\\adm-updater\\AutoDarkModeSvc.exe";
    assert!(!is_update_file(own, Some("AutoDarkModeSvc.exe"), EXEC_DIR, DATA_DIR, &list));
}

#[test]
fn a_file_moves_to_the_same_place_below_the_target() {
    let source = InstallPath::new("C:\\").join("adm").join("adm-update-data").join("tmp");
    let target = InstallPath::new("C:\\").join("adm");
    let file = source.join("lang").join("de.dll");
    let to = move_target(&file, &source, &target).unwrap();
    assert_eq!(to.to_text(), "C:\\adm\\lang\\de.dll");
    let to = move_target(&source, &source, &target).unwrap();
    assert_eq!(to.to_text(), "C:\\adm");
    let other_drive = InstallPath::new("D:\\").join("x");
    let to = move_target(&file, &source, &other_drive).unwrap();
    assert_eq!(to.to_text(), "D:\\x\\lang\\de.dll");
}

#[test]
fn a_file_that_is_not_below_the_source_has_no_target() {
    let source = InstallPath::new("C:\\").join("adm").join("tmp");
    let target = InstallPath::new("C:\\").join("adm");
    assert!(move_target(&InstallPath::new("C:\\").join("adm"), &source, &target).is_none());
    assert!(move_target(&InstallPath::new("C:\\").join("adm").join("tmpx").join("f"), &source, &target)
        .is_none());
    assert!(move_target(&InstallPath::new("D:\\").join("adm").join("tmp").join("f"), &source, &target)
        .is_none());
}

fn entry(path: &str, is_dir: bool) -> DirEntry {
    DirEntry {
        path: path.to_string(),
        file_name: path.rsplit('\\').next().map(|name| name.to_string()),
        is_file: !is_dir,
        is_dir,
    }
}

fn rules(words: &[&str]) -> FileRules {
    FileRules {
        execution_dir: EXEC_DIR.to_string(),
        update_data_dir: DATA_DIR.to_string(),
        whitelist: words.iter().map(|w| w.to_string()).collect(),
    }
}

fn working_dir_listing() -> Vec<DirEntry> {
    vec![
        entry("C:\\adm\\adm-app", true),
        entry("C:\\adm\\adm-updater", true),
        entry("C:\\adm\\adm-update-data", true),
        entry("C:\\adm\\AutoDarkModeSvc.exe", false),
        entry("C:\\adm\\core.dll", false),
        entry("C:\\adm\\unins000.exe", false),
        entry("C:\\adm\\unins000.dat", false),
        entry("C:\\adm\\notes.txt", false),
    ]
}

#[test]
fn io_test_dir_traverser() {
    let files = get_adm_files(&working_dir_listing(), &rules(&["AutoDarkModeSvc.exe", ".dll", "adm-app"]));
    println!("{:?}", files);
    assert_eq!(files, vec!["C:\\adm\\adm-app", "C:\\adm\\AutoDarkModeSvc.exe", "C:\\adm\\core.dll"]);
}

#[test]
fn io_v2_test_dir_traverser() {
    let files = get_update_entries(&working_dir_listing(), &rules(&["autodarkmode", "core", "adm-"]));
    println!("{:?}", files);
    assert_eq!(files, vec!["C:\\adm\\adm-app", "C:\\adm\\AutoDarkModeSvc.exe", "C:\\adm\\core.dll"]);
}

#[test]
fn files_are_listed_by_the_criteria_or_all() {
    let listing = vec![
        entry("C:\\adm", true),
        entry("C:\\adm\\core.dll", false),
        entry("C:\\adm\\lang", true),
        entry("C:\\adm\\lang\\core.de.dll", false),
        entry("C:\\adm\\lang\\readme.txt", false),
        entry("C:\\adm\\adm-updater\\core.dll", false),
    ];
    let all = get_files_recurse(&listing, None);
    assert_eq!(
        all,
        vec![
            "C:\\adm\\core.dll",
            "C:\\adm\\lang\\core.de.dll",
            "C:\\adm\\lang\\readme.txt",
            "C:\\adm\\adm-updater\\core.dll"
        ]
    );
    let taken = get_files_recurse(&listing, Some(&rules(&["core"])));
    assert_eq!(taken, vec!["C:\\adm\\core.dll", "C:\\adm\\lang\\core.de.dll"]);
    assert_eq!(get_files_recurse(&vec![], None), Vec::<String>::new());
}

#[test]
fn directories_are_listed_without_the_working_directory() {
    let listing = vec![
        entry("C:\\adm", true),
        entry("C:\\adm\\lang", true),
        entry("C:\\adm\\core.dll", false),
        entry("C:\\adm\\adm-updater", true),
    ];
    assert_eq!(
        get_dirs(&listing, "C:\\adm", None),
        vec!["C:\\adm\\lang", "C:\\adm\\adm-updater"]
    );
    assert_eq!(get_dirs(&listing, "C:\\adm", Some(&rules(&["lang"]))), vec!["C:\\adm\\lang"]);
    assert_eq!(get_dirs(&listing, "", None).len(), 3);
}

#[test]
fn an_update_without_files_fails_severely() {
    assert!(check_update_files(1).is_ok());
    assert!(check_update_files(usize::MAX).is_ok());
    let e = check_update_files(0).unwrap_err();
    assert!(e.severe);
    assert_eq!(e.message, "no files found in update directory");
}

#[test]
fn an_escalated_error_keeps_its_message() {
    let e = escalated(OpError::new("could not move file a to b : denied", false));
    assert!(e.severe);
    assert_eq!(e.message, "could not move file a to b : denied");
}

fn installation_listing() -> Vec<DirEntry> {
    vec![
        entry("C:\\adm", true),
        entry("C:\\adm\\AutoDarkModeSvc.exe", false),
        entry("C:\\adm\\unins000.exe", false),
        entry("C:\\adm\\lang", true),
        entry("C:\\adm\\lang\\AutoDarkMode.de.dll", false),
        entry("C:\\adm\\adm-updater", true),
        entry("C:\\adm\\adm-updater\\AutoDarkModeUpdater.exe", false),
        entry("C:\\adm\\adm-update-data", true),
        entry("C:\\adm\\adm-update-data\\unpacked", true),
    ]
}

#[test]
fn io_clean_adm_test() {
    let below = installation_listing();
    let within = vec![
        entry("C:\\adm\\lang", true),
        entry("C:\\adm\\adm-updater", true),
        entry("C:\\adm\\adm-update-data", true),
        entry("C:\\adm\\AutoDarkModeSvc.exe", false),
    ];
    let cleaning = clean_adm_dir(&below, &within, "C:\\adm", &rules(&["autodarkmode", "lang", "adm-"]));
    println!("clean adm dir successful");
    assert_eq!(
        cleaning.files,
        vec!["C:\\adm\\AutoDarkModeSvc.exe", "C:\\adm\\lang\\AutoDarkMode.de.dll"]
    );
    assert_eq!(cleaning.dirs, vec!["C:\\adm\\lang"]);
}

#[test]
fn io_v2_clean_adm_test() {
    let cleaning = clean_adm_dir(&vec![], &vec![], "C:\\adm", &rules(&[]));
    assert!(cleaning.files.is_empty());
    assert!(cleaning.dirs.is_empty());
    let e = FileFailure::RemoveFile.error("access denied");
    println!("clean adm dir failed: {}", e.message);
    assert_eq!(e.message, "could not remove file: access denied");
    assert!(e.severe);
    let e = FileFailure::RemoveDirectory.error("not empty");
    assert_eq!(e.message, "could not remove directory: not empty");
    assert!(e.severe);
}

#[test]
fn files_move_with_the_directories_they_need() {
    let source = InstallPath::new("C:\\").join("adm").join("adm-update-data").join("unpacked");
    let target = InstallPath::new("C:\\").join("adm");
    let files = vec![source.join("core.dll"), source.join("lang").join("de.dll")];
    let moves = move_files(&source, &target, &files).unwrap();
    assert_eq!(moves.len(), 2);
    assert_eq!(moves[0].from.to_text(), "C:\\adm\\adm-update-data\\unpacked\\core.dll");
    assert_eq!(moves[0].to.to_text(), "C:\\adm\\core.dll");
    assert_eq!(moves[0].directory.as_ref().unwrap().to_text(), "C:\\adm");
    assert_eq!(moves[1].to.to_text(), "C:\\adm\\lang\\de.dll");
    assert_eq!(moves[1].directory.as_ref().unwrap().to_text(), "C:\\adm\\lang");
    assert_eq!(move_files(&source, &target, &vec![]).unwrap().len(), 0);
    let to_root = move_files(&source, &InstallPath::new("D:\\"), &vec![source.duplicate()]).unwrap();
    assert!(to_root[0].directory.is_none());
    assert_eq!(to_root[0].to.to_text(), "D:\\");
}

#[test]
fn files_outside_the_source_cannot_be_moved() {
    let source = InstallPath::new("C:\\").join("adm").join("tmp");
    let target = InstallPath::new("C:\\").join("adm");
    let files = vec![source.join("a"), InstallPath::new("C:\\").join("other").join("b")];
    assert!(move_files(&source, &target, &files).is_none());
}

#[test]
fn failures_of_moving_are_not_severe() {
    let e = directory_not_created("C:\\adm\\lang", "denied");
    assert_eq!(e.message, "could not create directory C:\\adm\\lang before moving files: denied");
    assert!(!e.severe);
    let e = file_not_moved("C:\\tmp\\a.dll", "C:\\adm", "in use");
    assert_eq!(e.message, "could not move file C:\\tmp\\a.dll to C:\\adm : in use");
    assert!(!e.severe);
}
