use node_runtime::layout::{
    support_entries, EntryKind, InstallationEntry, DISTRIBUTION_URL, INSTALLATIONS_DIRECTORY, VERSION,
};
use node_runtime::platform::{Architecture, OperatingSystem, Platform};

#[test]
fn the_pinned_version() {
    assert_eq!(VERSION, "v18.15.0");
    assert_eq!(INSTALLATIONS_DIRECTORY, "node");
    assert_eq!(DISTRIBUTION_URL, "https://nodejs.org/dist");
}

#[test]
fn folder_name_holds_version_and_labels() {
    let platform = Platform { os: OperatingSystem::Linux, arch: Architecture::X64 };
    assert_eq!(platform.folder_name(), "node-v18.15.0-linux-x64");
    let platform = Platform { os: OperatingSystem::Darwin, arch: Architecture::Arm64 };
    assert_eq!(platform.folder_name(), "node-v18.15.0-darwin-arm64");
    let platform = Platform { os: OperatingSystem::Win, arch: Architecture::X64 };
    assert_eq!(platform.folder_name(), "node-v18.15.0-win-x64");
}

#[test]
fn archive_name_is_the_folder_name_with_suffix() {
    let platform = Platform { os: OperatingSystem::Darwin, arch: Architecture::X64 };
    assert_eq!(platform.archive_name(), "node-v18.15.0-darwin-x64.tar.gz");
}

#[test]
fn archive_url_follows_the_distribution_pattern() {
    let platform = Platform { os: OperatingSystem::Linux, arch: Architecture::Arm64 };
    assert_eq!(
        platform.archive_url(),
        "https://nodejs.org/dist/v18.15.0/node-v18.15.0-linux-arm64.tar.gz"
    );
}

#[test]
fn the_same_platform_gives_the_same_folder() {
    let first = Platform::resolve("linux", "x86_64").unwrap();
    let second = Platform::resolve("linux", "x86_64").unwrap();
    assert_eq!(first.folder_name(), second.folder_name());
}

#[test]
fn entries_of_the_installation() {
    assert_eq!(InstallationEntry::BinaryDirectory.relative_path(), "bin");
    assert_eq!(InstallationEntry::NodeBinary.relative_path(), "bin/node");
    assert_eq!(InstallationEntry::NpmScript.relative_path(), "bin/npm");
    assert_eq!(InstallationEntry::CacheDirectory.relative_path(), "cache");
    assert_eq!(InstallationEntry::UserConfig.relative_path(), "blank_user_npmrc");
    assert_eq!(InstallationEntry::GlobalConfig.relative_path(), "blank_global_npmrc");
}

#[test]
fn kinds_of_entries() {
    assert_eq!(InstallationEntry::BinaryDirectory.kind(), EntryKind::Directory);
    assert_eq!(InstallationEntry::NodeBinary.kind(), EntryKind::ArchiveFile);
    assert_eq!(InstallationEntry::NpmScript.kind(), EntryKind::ArchiveFile);
    assert_eq!(InstallationEntry::CacheDirectory.kind(), EntryKind::Directory);
    assert_eq!(InstallationEntry::UserConfig.kind(), EntryKind::BlankFile);
    assert_eq!(InstallationEntry::GlobalConfig.kind(), EntryKind::BlankFile);
}

#[test]
fn support_entries_are_the_cache_and_the_blank_files() {
    assert_eq!(
        support_entries(),
        vec![
            InstallationEntry::CacheDirectory,
            InstallationEntry::UserConfig,
            InstallationEntry::GlobalConfig,
        ]
    );
}
