//! The provisioning sequence of the runtime installation.
//!
//! The caller performs one step at a time and reports how it went; the sequence decides
//! what comes next. A working installation is kept as it is, a broken one is removed and
//! fetched anew, and the support files are prepared in both cases.

use vstd::prelude::*;
use crate::command::{Invocation, InvocationModel};
use crate::error::{ErrorModel, NodeRuntimeError};
use crate::invoke::{exit_success, spec_exit_success};
use crate::layout::{spec_support_entries, support_entries, InstallationEntry};
use crate::platform::Platform;

verus! {

/// One step of the provisioning sequence; [`InstallStep::action`] says what it consists of.
#[derive(Debug, Clone, Copy, PartialEq, Eq, Structural)]
pub enum InstallStep {
    /// See whether the installation works.
    CheckHealth,
    /// Remove what is installed.
    RemoveStale,
    /// Make room for a fresh installation.
    CreateDirectory,
    /// Fetch the runtime archive.
    Download,
    /// Extract the runtime archive.
    Unpack,
    /// Create the installation's cache directory and its two blank configuration files.
    PrepareSupportFiles,
}

/// What the caller has to do for a step. The directory of the installations is the one
/// that holds the installation folder.
#[derive(Debug, PartialEq, Eq)]
pub enum InstallAction {
    /// Run the invocation against the installation folder and hand the way it ended to
    /// [`health_check_outcome`].
    CheckHealth(Invocation),
    /// Delete the directory of the installations with all that is in it.
    RemoveInstallations,
    /// Create the directory of the installations.
    CreateInstallations,
    /// Request the archive at the address.
    Download { url: String, follow_redirects: bool },
    /// Read the answer to the request as a gzip-compressed tar archive and extract it
    /// into the directory of the installations.
    Unpack,
    /// Create each entry in the installation folder, in order: a directory as a
    /// directory, a blank file as a file without content.
    Prepare(Vec<InstallationEntry>),
}

/// The mathematical content of an [`InstallAction`].
pub enum InstallActionModel {
    CheckHealth(InvocationModel),
    RemoveInstallations,
    CreateInstallations,
    Download { url: Seq<char>, follow_redirects: bool },
    Unpack,
    Prepare(Seq<InstallationEntry>),
}

impl View for InstallAction {
    type V = InstallActionModel;

    open spec fn view(&self) -> InstallActionModel {
        match *self {
            InstallAction::CheckHealth(invocation) => InstallActionModel::CheckHealth(
                invocation@,
            ),
            InstallAction::RemoveInstallations => InstallActionModel::RemoveInstallations,
            InstallAction::CreateInstallations => InstallActionModel::CreateInstallations,
            InstallAction::Download { url, follow_redirects } => InstallActionModel::Download {
                url: url@,
                follow_redirects,
            },
            InstallAction::Unpack => InstallActionModel::Unpack,
            InstallAction::Prepare(entries) => InstallActionModel::Prepare(entries@),
        }
    }
}

/// Where a provisioning sequence stands.
#[derive(Debug, PartialEq, Eq)]
pub enum Provisioning {
    /// The step that the caller has to perform next.
    Pending(InstallStep),
    /// The installation is ready for use.
    Installed,
    /// A step that must succeed failed; nothing more is done.
    Failed(NodeRuntimeError),
}

/// The mathematical content of a [`Provisioning`].
pub enum ProvisioningModel {
    Pending(InstallStep),
    Installed,
    Failed(ErrorModel),
}

/// How a step went: `None` for success, else the cause of the failure.
pub type Failure = Option<Seq<char>>;

/// The failure that a reported outcome holds.
pub open spec fn failure_of(outcome: Result<(), String>) -> Failure {
    match outcome {
        Ok(_) => None,
        Err(cause) => Some(cause@),
    }
}

/// The failure that a health check shows: none if the process was launched and exited
/// with status zero. A process that could not be launched fails with the cause that was
/// given, one that ended otherwise with no cause to name.
pub open spec fn spec_health_check_outcome(exit: Result<Option<i32>, Seq<char>>) -> Failure {
    match exit {
        Ok(status) => if spec_exit_success(status) {
            None
        } else {
            Some(Seq::empty())
        },
        Err(cause) => Some(cause),
    }
}

/// Judges the health check: `exit` holds the exit status of the process, or why the
/// process could not be launched.
pub fn health_check_outcome(exit: Result<Option<i32>, String>) -> (r: Result<(), String>)
    ensures
        failure_of(r) == spec_health_check_outcome(
            match exit {
                Ok(status) => Ok(status),
                Err(cause) => Err(cause@),
            },
        ),
{
    match exit {
        Ok(status) => if exit_success(status) {
            Ok(())
        } else {
            Err(String::new())
        },
        Err(cause) => Err(cause),
    }
}

impl InstallStep {
    /// What the step consists of on a platform: the health check is the isolated version
    /// query, the download asks for the platform's archive and follows redirects, and the
    /// support files are the cache directory and the two blank configuration files.
    pub open spec fn spec_action(self, platform: Platform) -> InstallActionModel {
        match self {
            InstallStep::CheckHealth => InstallActionModel::CheckHealth(
                InvocationModel::health_check(),
            ),
            InstallStep::RemoveStale => InstallActionModel::RemoveInstallations,
            InstallStep::CreateDirectory => InstallActionModel::CreateInstallations,
            InstallStep::Download => InstallActionModel::Download {
                url: platform.spec_archive_url(),
                follow_redirects: true,
            },
            InstallStep::Unpack => InstallActionModel::Unpack,
            InstallStep::PrepareSupportFiles => InstallActionModel::Prepare(
                spec_support_entries(),
            ),
        }
    }

    /// What the caller has to do for this step on the given platform.
    pub fn action(&self, platform: &Platform) -> (r: InstallAction)
        ensures
            r@ == self.spec_action(*platform),
    {
        match self {
            InstallStep::CheckHealth => InstallAction::CheckHealth(Invocation::health_check()),
            InstallStep::RemoveStale => InstallAction::RemoveInstallations,
            InstallStep::CreateDirectory => InstallAction::CreateInstallations,
            InstallStep::Download => InstallAction::Download {
                url: platform.archive_url(),
                follow_redirects: true,
            },
            InstallStep::Unpack => InstallAction::Unpack,
            InstallStep::PrepareSupportFiles => InstallAction::Prepare(support_entries()),
        }
    }

    /// What follows this step, given how it went.
    ///
    /// A failed health check leads to a fresh installation; a passed one leads straight to
    /// the support files. Removing the stale directory and preparing the support files
    /// cannot fail the sequence. Creating the directory, the download and the extraction
    /// are fatal when they fail.
    pub open spec fn followed_by(self, failure: Failure) -> ProvisioningModel {
        match self {
            InstallStep::CheckHealth => if failure is None {
                ProvisioningModel::Pending(InstallStep::PrepareSupportFiles)
            } else {
                ProvisioningModel::Pending(InstallStep::RemoveStale)
            },
            InstallStep::RemoveStale => ProvisioningModel::Pending(InstallStep::CreateDirectory),
            InstallStep::CreateDirectory => match failure {
                None => ProvisioningModel::Pending(InstallStep::Download),
                Some(cause) => ProvisioningModel::Failed(
                    ErrorModel::ProvisionFailed { step: self, cause },
                ),
            },
            InstallStep::Download => match failure {
                None => ProvisioningModel::Pending(InstallStep::Unpack),
                Some(cause) => ProvisioningModel::Failed(
                    ErrorModel::ProvisionFailed { step: self, cause },
                ),
            },
            InstallStep::Unpack => match failure {
                None => ProvisioningModel::Pending(InstallStep::PrepareSupportFiles),
                Some(cause) => ProvisioningModel::Failed(
                    ErrorModel::ProvisionFailed { step: self, cause },
                ),
            },
            InstallStep::PrepareSupportFiles => ProvisioningModel::Installed,
        }
    }
}

impl ProvisioningModel {
    /// The sequence after the pending step went as reported; a finished sequence stays.
    pub open spec fn after(self, failure: Failure) -> ProvisioningModel {
        match self {
            ProvisioningModel::Pending(step) => step.followed_by(failure),
            ProvisioningModel::Installed => self,
            ProvisioningModel::Failed(_) => self,
        }
    }

    /// Whether nothing is left to do.
    pub open spec fn finished(self) -> bool {
        !(self is Pending)
    }
}

impl View for Provisioning {
    type V = ProvisioningModel;

    open spec fn view(&self) -> ProvisioningModel {
        match *self {
            Provisioning::Pending(step) => ProvisioningModel::Pending(step),
            Provisioning::Installed => ProvisioningModel::Installed,
            Provisioning::Failed(error) => ProvisioningModel::Failed(error@),
        }
    }
}

impl Provisioning {
    /// A sequence begins with the health check.
    pub fn start() -> (r: Provisioning)
        ensures
            r@ == ProvisioningModel::Pending(InstallStep::CheckHealth),
    {
        Provisioning::Pending(InstallStep::CheckHealth)
    }

    /// The step to perform next, if the sequence has not finished.
    pub fn pending(&self) -> (r: Option<InstallStep>)
        ensures
            r == match self@ {
                ProvisioningModel::Pending(step) => Some(step),
                _ => None,
            },
    {
        match self {
            Provisioning::Pending(step) => Some(*step),
            _ => None,
        }
    }

    /// Takes the outcome of the pending step and gives the sequence that follows.
    pub fn advance(self, outcome: Result<(), String>) -> (r: Provisioning)
        ensures
            r@ == self@.after(failure_of(outcome)),
    {
        let step = match self {
            Provisioning::Pending(step) => step,
            Provisioning::Installed => return Provisioning::Installed,
            Provisioning::Failed(error) => return Provisioning::Failed(error),
        };
        match step {
            InstallStep::CheckHealth => match outcome {
                Ok(_) => Provisioning::Pending(InstallStep::PrepareSupportFiles),
                Err(_) => Provisioning::Pending(InstallStep::RemoveStale),
            },
            InstallStep::RemoveStale => Provisioning::Pending(InstallStep::CreateDirectory),
            InstallStep::CreateDirectory => match outcome {
                Ok(_) => Provisioning::Pending(InstallStep::Download),
                Err(cause) => Provisioning::Failed(
                    NodeRuntimeError::ProvisionFailed { step, cause },
                ),
            },
            InstallStep::Download => match outcome {
                Ok(_) => Provisioning::Pending(InstallStep::Unpack),
                Err(cause) => Provisioning::Failed(
                    NodeRuntimeError::ProvisionFailed { step, cause },
                ),
            },
            InstallStep::Unpack => match outcome {
                Ok(_) => Provisioning::Pending(InstallStep::PrepareSupportFiles),
                Err(cause) => Provisioning::Failed(
                    NodeRuntimeError::ProvisionFailed { step, cause },
                ),
            },
            InstallStep::PrepareSupportFiles => Provisioning::Installed,
        }
    }
}

/// The sequence after the first `count` of the reported outcomes.
pub open spec fn state_after(outcomes: Seq<Failure>, count: nat) -> ProvisioningModel
    decreases count,
{
    if count == 0 {
        ProvisioningModel::Pending(InstallStep::CheckHealth)
    } else {
        state_after(outcomes, (count - 1) as nat).after(outcomes[count - 1])
    }
}

/// Whether `step` is performed in a run of the sequence that sees these outcomes.
pub open spec fn performs(outcomes: Seq<Failure>, step: InstallStep) -> bool {
    exists|at: nat| at < outcomes.len() && performs_at(outcomes, step, at)
}

/// Whether `step` is the one that the outcome at index `at` reports on.
pub open spec fn performs_at(outcomes: Seq<Failure>, step: InstallStep, at: nat) -> bool {
    state_after(outcomes, at) == ProvisioningModel::Pending(step)
}

/// Where each step stands in a run: the health check comes first, a fresh installation
/// takes the next four places after a failed health check, and the support files follow
/// either a passed health check or the extraction.
proof fn lemma_step_positions(outcomes: Seq<Failure>, count: nat)
    requires
        count <= outcomes.len(),
    ensures
        match state_after(outcomes, count) {
            ProvisioningModel::Pending(InstallStep::CheckHealth) => count == 0,
            ProvisioningModel::Pending(InstallStep::RemoveStale) => count == 1
                && outcomes[0] is Some,
            ProvisioningModel::Pending(InstallStep::CreateDirectory) => count == 2
                && outcomes[0] is Some,
            ProvisioningModel::Pending(InstallStep::Download) => count == 3
                && outcomes[0] is Some,
            ProvisioningModel::Pending(InstallStep::Unpack) => count == 4 && outcomes[0] is Some,
            ProvisioningModel::Pending(InstallStep::PrepareSupportFiles) => (count == 1
                && outcomes[0] is None) || (count == 5 && outcomes[0] is Some),
            ProvisioningModel::Installed => (count >= 2 && outcomes[0] is None) || (count >= 6
                && outcomes[0] is Some),
            ProvisioningModel::Failed(_) => count >= 3 && outcomes[0] is Some,
        },
    decreases count,
{
    if count > 0 {
        lemma_step_positions(outcomes, (count - 1) as nat);
    }
}

/// A working installation is reused: in a run whose health check passes, the stale
/// directory is not removed, nothing is downloaded and nothing is unpacked. The support
/// files are prepared, and then the installation is ready.
pub proof fn lemma_healthy_installation_is_reused(outcomes: Seq<Failure>)
    requires
        outcomes.len() > 0,
        outcomes[0] is None,
    ensures
        !performs(outcomes, InstallStep::RemoveStale),
        !performs(outcomes, InstallStep::CreateDirectory),
        !performs(outcomes, InstallStep::Download),
        !performs(outcomes, InstallStep::Unpack),
        performs_at(outcomes, InstallStep::PrepareSupportFiles, 1),
        outcomes.len() >= 2 ==> state_after(outcomes, outcomes.len())
            == ProvisioningModel::Installed,
{
    assert forall|at: nat| at < outcomes.len() implies !performs_at(
        outcomes,
        InstallStep::RemoveStale,
        at,
    ) && !performs_at(outcomes, InstallStep::CreateDirectory, at) && !performs_at(
        outcomes,
        InstallStep::Download,
        at,
    ) && !performs_at(outcomes, InstallStep::Unpack, at) by {
        lemma_step_positions(outcomes, at);
    }
    reveal_with_fuel(state_after, 2);
    if outcomes.len() >= 2 {
        lemma_healthy_run(outcomes, outcomes.len());
    }
}

/// The states of a run whose health check passed.
proof fn lemma_healthy_run(outcomes: Seq<Failure>, count: nat)
    requires
        outcomes.len() > 0,
        outcomes[0] is None,
        2 <= count <= outcomes.len(),
    ensures
        state_after(outcomes, count) == ProvisioningModel::Installed,
    decreases count,
{
    reveal_with_fuel(state_after, 3);
    if count > 2 {
        lemma_healthy_run(outcomes, (count - 1) as nat);
    }
}

/// A broken installation is removed before a fresh one is extracted: whenever a run
/// comes to unpack the archive, its health check had failed, and the removal of the
/// stale directory, its creation anew and the download came before, in this order.
pub proof fn lemma_removal_precedes_unpack(outcomes: Seq<Failure>, at: nat)
    requires
        at <= outcomes.len(),
        performs_at(outcomes, InstallStep::Unpack, at),
    ensures
        at == 4,
        outcomes[0] is Some,
        performs_at(outcomes, InstallStep::CheckHealth, 0),
        performs_at(outcomes, InstallStep::RemoveStale, 1),
        performs_at(outcomes, InstallStep::CreateDirectory, 2),
        performs_at(outcomes, InstallStep::Download, 3),
        outcomes[2] is None,
        outcomes[3] is None,
{
    lemma_step_positions(outcomes, at);
    reveal_with_fuel(state_after, 5);
}

/// A finished sequence stays as it is, whatever is reported to it.
pub proof fn lemma_finished_sequence_stays(outcomes: Seq<Failure>, from: nat, count: nat)
    requires
        from <= count,
        state_after(outcomes, from).finished(),
    ensures
        state_after(outcomes, count) == state_after(outcomes, from),
    decreases count,
{
    if count > from {
        lemma_finished_sequence_stays(outcomes, from, (count - 1) as nat);
    }
}

/// The support files are prepared in every run that ends with a ready installation,
/// whether the installation was reused or fetched: right after a passed health check,
/// or right after the extraction.
pub proof fn lemma_support_files_precede_readiness(outcomes: Seq<Failure>, count: nat)
    requires
        count <= outcomes.len(),
        state_after(outcomes, count) == ProvisioningModel::Installed,
    ensures
        outcomes[0] is None ==> 1 < count && performs_at(
            outcomes,
            InstallStep::PrepareSupportFiles,
            1,
        ),
        outcomes[0] is Some ==> 5 < count && performs_at(
            outcomes,
            InstallStep::PrepareSupportFiles,
            5,
        ),
{
    lemma_step_positions(outcomes, count);
    if outcomes[0] is None {
        reveal_with_fuel(state_after, 2);
    } else {
        lemma_step_positions(outcomes, 5);
        if state_after(outcomes, 5).finished() {
            lemma_finished_sequence_stays(outcomes, 5, count);
        }
    }
}

/// A run is over after six outcomes at most.
pub proof fn lemma_run_is_bounded(outcomes: Seq<Failure>, count: nat)
    requires
        6 <= count <= outcomes.len(),
    ensures
        state_after(outcomes, count).finished(),
{
    lemma_step_positions(outcomes, count);
}

/// How many archives a run downloads: one if it comes to the download, else none.
pub open spec fn downloads(outcomes: Seq<Failure>) -> nat {
    if performs(outcomes, InstallStep::Download) {
        1
    } else {
        0
    }
}

/// How many archives a series of runs downloads, one run after the other.
pub open spec fn total_downloads(runs: Seq<Seq<Failure>>) -> nat
    decreases runs.len(),
{
    if runs.len() == 0 {
        0
    } else {
        total_downloads(runs.drop_last()) + downloads(runs.last())
    }
}

/// Runs that come one after the other download one archive at most, if every run after
/// the first finds the installation working: only the first run can download.
pub proof fn lemma_serialized_runs_download_once(runs: Seq<Seq<Failure>>)
    requires
        runs.len() > 0,
        forall|k: int| 1 <= k < runs.len() && runs[k].len() > 0 ==> runs[k][0] is None,
    ensures
        total_downloads(runs) == downloads(runs[0]),
        total_downloads(runs) <= 1,
    decreases runs.len(),
{
    let earlier = runs.drop_last();
    if runs.len() == 1 {
        assert(total_downloads(earlier) == 0);
    } else {
        assert forall|k: int| 1 <= k < earlier.len() && earlier[k].len() > 0 implies earlier[k][0]
            is None by {
            assert(earlier[k] == runs[k]);
        }
        lemma_serialized_runs_download_once(earlier);
        assert(earlier[0] == runs[0]);
        if runs.last().len() > 0 {
            lemma_healthy_installation_is_reused(runs.last());
        }
    }
}

} // verus!
