use node_runtime::command::Invocation;
use node_runtime::error::NodeRuntimeError;
use node_runtime::install::{health_check_outcome, InstallAction, InstallStep, Provisioning};
use node_runtime::layout::InstallationEntry;
use node_runtime::platform::{Architecture, OperatingSystem, Platform};

fn failed(cause: &str) -> Result<(), String> {
    Err(cause.to_string())
}

/// Runs a sequence on the given outcomes and returns the steps it asked for and its end.
fn run(outcomes: Vec<Result<(), String>>) -> (Vec<InstallStep>, Provisioning) {
    let mut steps = Vec::new();
    let mut state = Provisioning::start();
    for outcome in outcomes {
        match state.pending() {
            Some(step) => steps.push(step),
            None => break,
        }
        state = state.advance(outcome);
    }
    (steps, state)
}

#[test]
fn a_sequence_starts_with_the_health_check() {
    assert_eq!(Provisioning::start(), Provisioning::Pending(InstallStep::CheckHealth));
    assert_eq!(Provisioning::start().pending(), Some(InstallStep::CheckHealth));
}

#[test]
fn a_working_installation_is_not_fetched_again() {
    let (steps, end) = run(vec![Ok(()), Ok(())]);
    assert_eq!(steps, vec![InstallStep::CheckHealth, InstallStep::PrepareSupportFiles]);
    assert_eq!(end, Provisioning::Installed);
    assert!(!steps.contains(&InstallStep::Download));
    assert!(!steps.contains(&InstallStep::RemoveStale));
    assert!(!steps.contains(&InstallStep::Unpack));
}

#[test]
fn a_broken_installation_is_removed_and_fetched() {
    let (steps, end) = run(vec![failed("exit status 1"), Ok(()), Ok(()), Ok(()), Ok(()), Ok(())]);
    assert_eq!(
        steps,
        vec![
            InstallStep::CheckHealth,
            InstallStep::RemoveStale,
            InstallStep::CreateDirectory,
            InstallStep::Download,
            InstallStep::Unpack,
            InstallStep::PrepareSupportFiles,
        ]
    );
    assert_eq!(end, Provisioning::Installed);
}

#[test]
fn removal_comes_before_unpacking() {
    let (steps, _) = run(vec![failed("missing"), Ok(()), Ok(()), Ok(()), Ok(()), Ok(())]);
    let removal = steps.iter().position(|step| *step == InstallStep::RemoveStale).unwrap();
    let unpacking = steps.iter().position(|step| *step == InstallStep::Unpack).unwrap();
    assert!(removal < unpacking);
}

#[test]
fn a_failed_removal_is_ignored() {
    let (steps, end) = run(vec![failed("unhealthy"), failed("no such directory")]);
    assert_eq!(steps, vec![InstallStep::CheckHealth, InstallStep::RemoveStale]);
    assert_eq!(end, Provisioning::Pending(InstallStep::CreateDirectory));
}

#[test]
fn a_directory_that_cannot_be_created_is_fatal() {
    let (steps, end) = run(vec![failed("unhealthy"), Ok(()), failed("permission denied"), Ok(())]);
    assert_eq!(
        steps,
        vec![InstallStep::CheckHealth, InstallStep::RemoveStale, InstallStep::CreateDirectory]
    );
    assert_eq!(
        end,
        Provisioning::Failed(NodeRuntimeError::ProvisionFailed {
            step: InstallStep::CreateDirectory,
            cause: "permission denied".to_string(),
        })
    );
}

#[test]
fn a_failed_download_is_fatal() {
    let (_, end) = run(vec![failed("unhealthy"), Ok(()), Ok(()), failed("connection reset")]);
    assert_eq!(
        end,
        Provisioning::Failed(NodeRuntimeError::ProvisionFailed {
            step: InstallStep::Download,
            cause: "connection reset".to_string(),
        })
    );
}

#[test]
fn a_failed_extraction_is_fatal() {
    let (_, end) = run(vec![failed("unhealthy"), Ok(()), Ok(()), Ok(()), failed("unexpected end of file")]);
    assert_eq!(
        end,
        Provisioning::Failed(NodeRuntimeError::ProvisionFailed {
            step: InstallStep::Unpack,
            cause: "unexpected end of file".to_string(),
        })
    );
}

#[test]
fn support_files_that_cannot_be_prepared_do_not_fail_the_sequence() {
    let (_, end) = run(vec![Ok(()), failed("read-only file system")]);
    assert_eq!(end, Provisioning::Installed);
    let (_, end) = run(vec![failed("unhealthy"), Ok(()), Ok(()), Ok(()), Ok(()), failed("read-only")]);
    assert_eq!(end, Provisioning::Installed);
}

#[test]
fn a_finished_sequence_stays_as_it_is() {
    assert_eq!(Provisioning::Installed.advance(failed("late")), Provisioning::Installed);
    assert_eq!(Provisioning::Installed.pending(), None);
    let error = NodeRuntimeError::ProvisionFailed {
        step: InstallStep::Download,
        cause: "timeout".to_string(),
    };
    let state = Provisioning::Failed(error).advance(Ok(()));
    assert_eq!(
        state,
        Provisioning::Failed(NodeRuntimeError::ProvisionFailed {
            step: InstallStep::Download,
            cause: "timeout".to_string(),
        })
    );
    assert_eq!(state.pending(), None);
}

#[test]
fn serialized_callers_download_once() {
    // The first caller finds nothing, every later one finds what the first installed.
    let mut downloads = 0;
    let mut installed = false;
    for _ in 0..5 {
        let mut state = Provisioning::start();
        while let Some(step) = state.pending() {
            let outcome = match step {
                InstallStep::CheckHealth => {
                    if installed {
                        Ok(())
                    } else {
                        failed("not installed")
                    }
                }
                InstallStep::Download => {
                    downloads += 1;
                    Ok(())
                }
                InstallStep::Unpack => {
                    installed = true;
                    Ok(())
                }
                _ => Ok(()),
            };
            state = state.advance(outcome);
        }
        assert_eq!(state, Provisioning::Installed);
    }
    assert_eq!(downloads, 1);
}

#[test]
fn only_exit_status_zero_shows_a_working_installation() {
    assert_eq!(health_check_outcome(Ok(Some(0))), Ok(()));
    assert!(health_check_outcome(Ok(Some(1))).is_err());
    assert!(health_check_outcome(Ok(Some(-1))).is_err());
    assert!(health_check_outcome(Ok(None)).is_err());
    assert_eq!(
        health_check_outcome(Err("No such file or directory".to_string())),
        Err("No such file or directory".to_string())
    );
}

#[test]
fn a_health_check_that_cannot_be_launched_leads_to_a_fresh_installation() {
    let state = Provisioning::start().advance(health_check_outcome(Err("not found".to_string())));
    assert_eq!(state, Provisioning::Pending(InstallStep::RemoveStale));
    let state = Provisioning::start().advance(health_check_outcome(Ok(Some(127))));
    assert_eq!(state, Provisioning::Pending(InstallStep::RemoveStale));
    let state = Provisioning::start().advance(health_check_outcome(Ok(Some(0))));
    assert_eq!(state, Provisioning::Pending(InstallStep::PrepareSupportFiles));
}

#[test]
fn what_the_steps_consist_of() {
    let platform = Platform { os: OperatingSystem::Linux, arch: Architecture::X64 };
    assert_eq!(
        InstallStep::CheckHealth.action(&platform),
        InstallAction::CheckHealth(Invocation::health_check())
    );
    assert_eq!(InstallStep::RemoveStale.action(&platform), InstallAction::RemoveInstallations);
    assert_eq!(InstallStep::CreateDirectory.action(&platform), InstallAction::CreateInstallations);
    assert_eq!(
        InstallStep::Download.action(&platform),
        InstallAction::Download {
            url: "https://nodejs.org/dist/v18.15.0/node-v18.15.0-linux-x64.tar.gz".to_string(),
            follow_redirects: true,
        }
    );
    assert_eq!(InstallStep::Unpack.action(&platform), InstallAction::Unpack);
    assert_eq!(
        InstallStep::PrepareSupportFiles.action(&platform),
        InstallAction::Prepare(vec![
            InstallationEntry::CacheDirectory,
            InstallationEntry::UserConfig,
            InstallationEntry::GlobalConfig,
        ])
    );
}

#[test]
fn the_download_depends_on_the_platform() {
    let platform = Platform { os: OperatingSystem::Darwin, arch: Architecture::Arm64 };
    assert_eq!(
        InstallStep::Download.action(&platform),
        InstallAction::Download {
            url: "https://nodejs.org/dist/v18.15.0/node-v18.15.0-darwin-arm64.tar.gz".to_string(),
            follow_redirects: true,
        }
    );
}
