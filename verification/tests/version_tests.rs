use adm_updater::error::OpError;
use adm_updater::regedit::{installer_key_path, RegistryStep, DISPLAY_VERSION};
use adm_updater::version::{Version, VersionFailure};

fn v(major: i32, minor: i32, build: i32, revision: i32) -> Version {
    Version { major, minor, build, revision }
}

#[test]
fn version_is_read_from_four_parts() {
    assert_eq!(Version::from("10.0.1.10".to_string()), v(10, 0, 1, 10));
    assert_eq!(Version::parse("11.0.0.54"), v(11, 0, 0, 54));
    assert_eq!(Version::parse("0.0.0.0"), v(0, 0, 0, 0));
}

#[test]
fn missing_and_malformed_parts_are_minus_one() {
    assert_eq!(Version::parse(""), v(-1, -1, -1, -1));
    assert_eq!(Version::parse("1"), v(1, -1, -1, -1));
    assert_eq!(Version::parse("1.2"), v(1, 2, -1, -1));
    assert_eq!(Version::parse("1.2.3"), v(1, 2, 3, -1));
    assert_eq!(Version::parse("1..3.4"), v(1, -1, 3, 4));
    assert_eq!(Version::parse("1.x.3.4"), v(1, -1, 3, 4));
    assert_eq!(Version::parse("1.2.3.4-beta"), v(1, 2, 3, -1));
    assert_eq!(Version::parse("1.2.3.99999999999"), v(1, 2, 3, -1));
    assert_eq!(Version::parse(" 1.2.3.4"), v(-1, 2, 3, 4));
}

#[test]
fn what_follows_the_fourth_part_is_ignored() {
    assert_eq!(Version::parse("1.2.3.4.5"), v(1, 2, 3, 4));
    assert_eq!(Version::parse("1.2.3.4.x.y"), v(1, 2, 3, 4));
}

#[test]
fn signs_are_accepted_as_by_the_integer_parser() {
    assert_eq!(Version::parse("+1.-2.3.4"), v(1, -2, 3, 4));
}

#[test]
fn version_is_written_with_dots() {
    assert_eq!(v(10, 0, 1, 10).to_string(), "10.0.1.10");
    assert_eq!(v(-1, -1, -1, -1).to_string(), "-1.-1.-1.-1");
    assert_eq!(v(0, 65535, 2147483647, -2147483648).to_string(), "0.65535.2147483647.-2147483648");
}

#[test]
fn version_from_file_info_splits_the_words() {
    assert_eq!(Version::from_file_info(0x000A_0000, 0x0001_000A), v(10, 0, 1, 10));
    assert_eq!(Version::from_file_info(0xFFFF_FFFF, 0), v(65535, 65535, 0, 0));
    assert_eq!(Version::from_file_info(0, 0x0000_FFFF), v(0, 0, 0, 65535));
    let info = Version::from_file_info(0x000B_0000, 0x0000_0036);
    assert_eq!(Version::from(info.to_string()), info);
    assert_eq!(info.to_string(), "11.0.0.54");
}

#[test]
fn a_version_that_cannot_be_read_is_not_severe() {
    let cases = [
        (VersionFailure::NoSize, "failed to get file version size"),
        (VersionFailure::NotRead, "could not read file version"),
        (VersionFailure::NotTransformed, "could not transform file version"),
        (VersionFailure::NoValue, "ver_query_value_w buffer length"),
    ];
    for (failure, message) in cases {
        let e: OpError = failure.error();
        assert_eq!(e.message, message);
        assert!(!e.severe);
    }
}

#[test]
fn the_installer_key_lies_below_the_key_of_the_user() {
    assert_eq!(
        installer_key_path("S-1-5-21-1-2-3-1001"),
        "S-1-5-21-1-2-3-1001\\SOFTWARE\\Microsoft\\Windows\\CurrentVersion\\Uninstall\\{470BC918-3740-4A97-9797-8570A7961130}_is1"
    );
    assert_eq!(DISPLAY_VERSION, "DisplayVersion");
}

#[test]
fn only_a_missing_installer_key_is_not_severe() {
    let e = RegistryStep::LookupAccount.failure("no such user");
    assert_eq!(e.message, "could not get user sid: no such user");
    assert!(e.severe);
    let e = RegistryStep::OpenKey.failure("not found");
    assert_eq!(
        e.message,
        "inno installer key not detected, assuming portable adm installation: not found"
    );
    assert!(!e.severe);
    let e = RegistryStep::SetValue.failure("denied");
    assert_eq!(e.message, "could not update installer version string: denied");
    assert!(e.severe);
}
