use node_runtime::error::NodeRuntimeError;
use node_runtime::platform::{Architecture, OperatingSystem, Platform};

fn labels(os: &str, arch: &str) -> (String, String) {
    let platform = Platform::resolve(os, arch).unwrap();
    (platform.os.label().to_string(), platform.arch.label().to_string())
}

#[test]
fn every_supported_pair_gets_the_vendor_labels() {
    assert_eq!(labels("macos", "x86_64"), ("darwin".to_string(), "x64".to_string()));
    assert_eq!(labels("macos", "aarch64"), ("darwin".to_string(), "arm64".to_string()));
    assert_eq!(labels("linux", "x86_64"), ("linux".to_string(), "x64".to_string()));
    assert_eq!(labels("linux", "aarch64"), ("linux".to_string(), "arm64".to_string()));
    assert_eq!(labels("windows", "x86_64"), ("win".to_string(), "x64".to_string()));
    assert_eq!(labels("windows", "aarch64"), ("win".to_string(), "arm64".to_string()));
}

#[test]
fn resolves_linux_on_x86_64() {
    assert_eq!(
        Platform::resolve("linux", "x86_64"),
        Ok(Platform { os: OperatingSystem::Linux, arch: Architecture::X64 })
    );
}

#[test]
fn resolves_macos_on_aarch64() {
    assert_eq!(
        Platform::resolve("macos", "aarch64"),
        Ok(Platform { os: OperatingSystem::Darwin, arch: Architecture::Arm64 })
    );
}

#[test]
fn refuses_unknown_operating_system() {
    assert_eq!(
        Platform::resolve("freebsd", "x86_64"),
        Err(NodeRuntimeError::UnsupportedOperatingSystem("freebsd".to_string()))
    );
}

#[test]
fn refuses_unknown_architecture() {
    assert_eq!(
        Platform::resolve("linux", "riscv64"),
        Err(NodeRuntimeError::UnsupportedArchitecture("riscv64".to_string()))
    );
}

#[test]
fn operating_system_is_judged_before_architecture() {
    assert_eq!(
        Platform::resolve("solaris", "sparc"),
        Err(NodeRuntimeError::UnsupportedOperatingSystem("solaris".to_string()))
    );
}

#[test]
fn identifiers_are_matched_exactly() {
    assert!(Platform::resolve("Linux", "x86_64").is_err());
    assert!(Platform::resolve("linux ", "x86_64").is_err());
    assert!(Platform::resolve("", "x86_64").is_err());
    assert!(Platform::resolve("linux", "x64").is_err());
    assert!(Platform::resolve("darwin", "x86_64").is_err());
    assert!(Platform::resolve("linu", "x86_64").is_err());
}

#[test]
fn vendor_labels_are_not_host_identifiers() {
    assert!(OperatingSystem::from_identifier("win").is_err());
    assert!(Architecture::from_identifier("arm64").is_err());
    assert_eq!(OperatingSystem::from_identifier("windows"), Ok(OperatingSystem::Win));
    assert_eq!(Architecture::from_identifier("aarch64"), Ok(Architecture::Arm64));
}
