use vault13::launch::{map_name, version, VersionStatus};

#[test]
fn stable_version_line() {
    assert_eq!(
        version("0.1.0", "abc1234", "2019-03-01", VersionStatus::Stable),
        "vault13 0.1.0 (abc1234 2019-03-01)"
    );
}

#[test]
fn dev_version_line() {
    assert_eq!(
        version("0.1.0", "abc1234", "2019-03-01", VersionStatus::Dev),
        "vault13 0.1.0-dev (abc1234 2019-03-01)"
    );
}

#[test]
fn dirty_version_line() {
    assert_eq!(
        version("0.1.0", "abc1234", "2019-03-01", VersionStatus::Dirty),
        "vault13 0.1.0-dev (abc1234-dirty 2019-03-01)"
    );
}

#[test]
fn version_line_of_empty_parts() {
    assert_eq!(version("", "", "", VersionStatus::Stable), "vault13  ( )");
}

#[test]
fn status_is_read_from_its_exact_name() {
    assert_eq!(VersionStatus::from_name("Stable"), Some(VersionStatus::Stable));
    assert_eq!(VersionStatus::from_name("Dev"), Some(VersionStatus::Dev));
    assert_eq!(VersionStatus::from_name("Dirty"), Some(VersionStatus::Dirty));
    assert_eq!(VersionStatus::from_name("stable"), None);
    assert_eq!(VersionStatus::from_name("Dev "), None);
    assert_eq!(VersionStatus::from_name(""), None);
    assert_eq!(VersionStatus::from_name("Release"), None);
}

#[test]
fn map_name_is_lower_case_without_extension() {
    assert_eq!(map_name("artemple"), "artemple");
    assert_eq!(map_name("ArTemple.MAP"), "artemple");
    assert_eq!(map_name("arvillag.map"), "arvillag");
    assert_eq!(map_name("DENBUS1"), "denbus1");
}

#[test]
fn map_name_edge_cases() {
    assert_eq!(map_name(""), "");
    assert_eq!(map_name(".map"), "");
    assert_eq!(map_name("x.mapp"), "x.mapp");
    assert_eq!(map_name("x.map.map"), "x.map");
    assert_eq!(map_name("map"), "map");
    assert_eq!(map_name("ÄRGER.Map"), "ärger");
}
