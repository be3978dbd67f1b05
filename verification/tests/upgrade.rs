use node_runtime::manifest::dependency_version;
use node_runtime::upgrade::{
    install_reason, manifest_reason, should_install_npm_package, version_reason, InstallReason,
};
use node_runtime::version::strip_to_first_digit;

const MANIFEST: &str = r#"{"name":"host","dependencies":{"left-pad":"^1.0.0","pinned":"2.0.0","odd":7}}"#;

#[test]
fn a_missing_executable_is_a_reason() {
    assert!(should_install_npm_package("pinned", false, Some(MANIFEST), "1.2.0"));
    assert_eq!(
        install_reason("pinned", false, Some(MANIFEST), "1.2.0"),
        Some(InstallReason::ExecutableMissing)
    );
}

#[test]
fn an_unreadable_manifest_is_a_reason() {
    assert!(should_install_npm_package("pinned", true, None, "1.2.0"));
    assert_eq!(install_reason("pinned", true, None, "1.2.0"), Some(InstallReason::ManifestUnreadable));
}

#[test]
fn a_malformed_manifest_is_a_reason() {
    assert!(should_install_npm_package("pinned", true, Some("{\"dependencies\": "), "1.2.0"));
    assert_eq!(
        install_reason("pinned", true, Some("not json"), "1.2.0"),
        Some(InstallReason::ManifestMalformed)
    );
    assert_eq!(install_reason("pinned", true, Some(""), "1.2.0"), Some(InstallReason::ManifestMalformed));
}

#[test]
fn an_absent_dependency_is_a_reason() {
    assert!(should_install_npm_package("right-pad", true, Some(MANIFEST), "1.2.0"));
    assert_eq!(
        install_reason("right-pad", true, Some(MANIFEST), "1.2.0"),
        Some(InstallReason::DependencyUndeclared)
    );
    assert_eq!(
        install_reason("left-pad", true, Some("{}"), "1.2.0"),
        Some(InstallReason::DependencyUndeclared)
    );
    assert_eq!(
        install_reason("left-pad", true, Some("[\"dependencies\"]"), "1.2.0"),
        Some(InstallReason::DependencyUndeclared)
    );
}

#[test]
fn a_dependency_that_is_no_string_is_a_reason() {
    assert_eq!(
        install_reason("odd", true, Some(MANIFEST), "1.2.0"),
        Some(InstallReason::DependencyUndeclared)
    );
}

#[test]
fn an_older_installed_version_is_a_reason() {
    // installed "^1.0.0" against latest "1.2.0"
    assert!(should_install_npm_package("left-pad", true, Some(MANIFEST), "1.2.0"));
    assert_eq!(
        install_reason("left-pad", true, Some(MANIFEST), "1.2.0"),
        Some(InstallReason::Outdated)
    );
}

#[test]
fn a_newer_installed_version_is_kept() {
    // installed "2.0.0" against latest "1.2.0"
    assert!(!should_install_npm_package("pinned", true, Some(MANIFEST), "1.2.0"));
    assert_eq!(install_reason("pinned", true, Some(MANIFEST), "1.2.0"), None);
}

#[test]
fn the_same_version_is_kept() {
    assert!(!should_install_npm_package("pinned", true, Some(MANIFEST), "2.0.0"));
    assert!(!should_install_npm_package("left-pad", true, Some(MANIFEST), "1.0.0"));
}

#[test]
fn a_latest_version_that_is_no_version_is_a_reason() {
    assert!(should_install_npm_package("pinned", true, Some(MANIFEST), "latest"));
    assert_eq!(version_reason("2.0.0", "2.0"), Some(InstallReason::LatestVersionInvalid));
    assert_eq!(version_reason("2.0.0", ""), Some(InstallReason::LatestVersionInvalid));
    assert_eq!(version_reason("2.0.0", "^1.0.0"), Some(InstallReason::LatestVersionInvalid));
}

#[test]
fn an_installed_version_that_is_no_version_is_a_reason() {
    assert_eq!(version_reason("next", "1.0.0"), Some(InstallReason::InstalledVersionInvalid));
    assert_eq!(version_reason("~1.2", "1.0.0"), Some(InstallReason::InstalledVersionInvalid));
    assert_eq!(version_reason(">=1.0.0 <2.0.0", "1.0.0"), Some(InstallReason::InstalledVersionInvalid));
    assert_eq!(version_reason("", "1.0.0"), Some(InstallReason::InstalledVersionInvalid));
}

#[test]
fn the_latest_version_is_judged_before_the_installed_one() {
    assert_eq!(version_reason("next", "newest"), Some(InstallReason::LatestVersionInvalid));
}

#[test]
fn versions_are_ordered_by_their_numbers() {
    assert_eq!(version_reason("1.9.0", "1.10.0"), Some(InstallReason::Outdated));
    assert_eq!(version_reason("1.10.0", "1.9.0"), None);
    assert_eq!(version_reason("0.9.9", "1.0.0"), Some(InstallReason::Outdated));
    assert_eq!(version_reason("1.0.1", "1.0.0"), None);
}

#[test]
fn a_pre_release_comes_before_its_release() {
    assert_eq!(version_reason("1.0.0-alpha", "1.0.0"), Some(InstallReason::Outdated));
    assert_eq!(version_reason("1.0.0", "1.0.0-alpha"), None);
    assert_eq!(version_reason("1.0.0-alpha.1", "1.0.0-alpha.beta"), Some(InstallReason::Outdated));
}

#[test]
fn the_range_operator_is_stripped() {
    assert_eq!(strip_to_first_digit("^1.0.0"), "1.0.0");
    assert_eq!(strip_to_first_digit(">=1.2.3"), "1.2.3");
    assert_eq!(strip_to_first_digit("~ 0.4.1-rc.1"), "0.4.1-rc.1");
    assert_eq!(strip_to_first_digit("1.0.0"), "1.0.0");
    assert_eq!(strip_to_first_digit("v18.15.0"), "18.15.0");
    assert_eq!(strip_to_first_digit("latest"), "");
    assert_eq!(strip_to_first_digit(""), "");
    assert_eq!(strip_to_first_digit("\u{e9}\u{4e2d}7\u{e9}"), "7\u{e9}");
    assert_eq!(strip_to_first_digit("\u{663}.1"), "1");
}

#[test]
fn the_declared_version_is_read_from_the_dependencies() {
    let manifest = serde_json::from_str::<serde_json::Value>(MANIFEST).unwrap();
    assert_eq!(dependency_version(&manifest, "left-pad"), Some("^1.0.0"));
    assert_eq!(dependency_version(&manifest, "pinned"), Some("2.0.0"));
    assert_eq!(dependency_version(&manifest, "odd"), None);
    assert_eq!(dependency_version(&manifest, "name"), None);
    assert_eq!(dependency_version(&manifest, "dependencies"), None);
}

#[test]
fn dependencies_that_are_no_object_declare_nothing() {
    let manifest = serde_json::from_str::<serde_json::Value>(r#"{"dependencies":"left-pad"}"#).unwrap();
    assert_eq!(dependency_version(&manifest, "left-pad"), None);
    let manifest = serde_json::from_str::<serde_json::Value>(r#"{"dependencies":["left-pad"]}"#).unwrap();
    assert_eq!(dependency_version(&manifest, "left-pad"), None);
    let manifest = serde_json::Value::String("dependencies".to_string());
    assert_eq!(dependency_version(&manifest, "left-pad"), None);
}

#[test]
fn a_parsed_manifest_gives_its_reason() {
    let manifest = serde_json::from_str::<serde_json::Value>(MANIFEST).unwrap();
    assert_eq!(manifest_reason(&manifest, "left-pad", "1.2.0"), Some(InstallReason::Outdated));
    assert_eq!(manifest_reason(&manifest, "pinned", "1.2.0"), None);
    assert_eq!(manifest_reason(&manifest, "absent", "1.2.0"), Some(InstallReason::DependencyUndeclared));
    assert_eq!(manifest_reason(&manifest, "pinned", "x"), Some(InstallReason::LatestVersionInvalid));
}
