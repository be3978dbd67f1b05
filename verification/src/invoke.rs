//! Running a subcommand of the package manager, with one retry.
//!
//! An attempt makes sure that the runtime is installed, looks for the interpreter and for
//! the package manager's script, and launches the process. The caller performs one step at
//! a time and reports on it. When a step of the first attempt fails, a second attempt
//! begins; when a step of the second fails too, the run ends with a launch failure. A
//! process that was launched ends the run, whatever its exit status: the status decides
//! whether the run succeeded.

use vstd::prelude::*;
use vstd::utf8::{decode_utf8, valid_utf8};
use crate::command::{Invocation, InvocationModel};
use crate::error::{ErrorModel, NodeRuntimeError};
use crate::layout::InstallationEntry;
use crate::npm::{Request, RequestModel};
use crate::text::{decode_lossy, lossy_text};

verus! {

/// What a finished process leaves behind.
#[derive(Debug, PartialEq, Eq)]
pub struct ProcessOutput {
    /// The exit status, if the process exited by itself.
    pub status: Option<i32>,
    /// What the process wrote to its standard output.
    pub stdout: Vec<u8>,
    /// What the process wrote to its standard error.
    pub stderr: Vec<u8>,
}

/// The mathematical content of a [`ProcessOutput`].
pub struct ProcessOutputModel {
    pub status: Option<i32>,
    pub stdout: Seq<u8>,
    pub stderr: Seq<u8>,
}

/// A process succeeded if it exited by itself, with status zero.
pub open spec fn spec_exit_success(status: Option<i32>) -> bool {
    status == Some(0i32)
}

/// Whether an exit status is that of a process that succeeded.
pub fn exit_success(status: Option<i32>) -> (r: bool)
    ensures
        r == spec_exit_success(status),
{
    match status {
        Some(code) => code == 0,
        None => false,
    }
}

impl ProcessOutputModel {
    /// Whether the process succeeded.
    pub open spec fn succeeded(self) -> bool {
        spec_exit_success(self.status)
    }
}

impl View for ProcessOutput {
    type V = ProcessOutputModel;

    open spec fn view(&self) -> ProcessOutputModel {
        ProcessOutputModel { status: self.status, stdout: self.stdout@, stderr: self.stderr@ }
    }
}

impl ProcessOutput {
    /// Whether the process exited with status zero.
    pub fn succeeded(&self) -> (r: bool)
        ensures
            r == self@.succeeded(),
    {
        exit_success(self.status)
    }
}

/// The first or the second attempt of a run.
#[derive(Debug, Clone, Copy, PartialEq, Eq, Structural)]
pub enum Attempt {
    First,
    Second,
}

/// One step of an attempt; [`AttemptStep::action`] says what it consists of.
#[derive(Debug, Clone, Copy, PartialEq, Eq, Structural)]
pub enum AttemptStep {
    /// Make sure that the runtime is installed.
    EnsureInstalled,
    /// See whether the interpreter is on disk.
    CheckNodeBinary,
    /// See whether the package manager's script is on disk.
    CheckNpmScript,
    /// Launch the package manager.
    Launch,
}

/// What the caller has to do for a step.
#[derive(Debug, PartialEq, Eq)]
pub enum AttemptAction {
    /// Run a provisioning sequence to its end; the step passes if the installation is
    /// ready.
    EnsureInstalled,
    /// Look for the entry in the installation folder; the step passes if it is there.
    Locate(InstallationEntry),
    /// Run the invocation against the installation folder and wait for the process to
    /// finish.
    Launch(Invocation),
}

/// The mathematical content of an [`AttemptAction`].
pub enum AttemptActionModel {
    EnsureInstalled,
    Locate(InstallationEntry),
    Launch(InvocationModel),
}

impl View for AttemptAction {
    type V = AttemptActionModel;

    open spec fn view(&self) -> AttemptActionModel {
        match *self {
            AttemptAction::EnsureInstalled => AttemptActionModel::EnsureInstalled,
            AttemptAction::Locate(entry) => AttemptActionModel::Locate(entry),
            AttemptAction::Launch(invocation) => AttemptActionModel::Launch(invocation@),
        }
    }
}

/// What the caller reports on a step.
#[derive(Debug, PartialEq, Eq)]
pub enum Report {
    /// The step was done: the runtime is installed, or the file is there.
    Passed,
    /// The step could not be done: the installation failed, the file is missing, or the
    /// process could not be launched.
    Failed,
    /// The process was launched and has finished.
    Exited(ProcessOutput),
}

/// The mathematical content of a [`Report`].
pub enum ReportModel {
    Passed,
    Failed,
    Exited(ProcessOutputModel),
}

impl View for Report {
    type V = ReportModel;

    open spec fn view(&self) -> ReportModel {
        match *self {
            Report::Passed => ReportModel::Passed,
            Report::Failed => ReportModel::Failed,
            Report::Exited(output) => ReportModel::Exited(output@),
        }
    }
}

/// Where a run stands.
#[derive(Debug, PartialEq, Eq)]
pub enum Run {
    /// The step that the caller has to perform next, and the attempt it belongs to.
    Pending { attempt: Attempt, step: AttemptStep },
    /// The run is over, with the output of the process or with the error.
    Finished(Result<ProcessOutput, NodeRuntimeError>),
}

/// The mathematical content of a [`Run`].
pub enum RunModel {
    Pending { attempt: Attempt, step: AttemptStep },
    Finished(Result<ProcessOutputModel, ErrorModel>),
}

impl View for Run {
    type V = RunModel;

    open spec fn view(&self) -> RunModel {
        match *self {
            Run::Pending { attempt, step } => RunModel::Pending { attempt, step },
            Run::Finished(Ok(output)) => RunModel::Finished(Ok(output@)),
            Run::Finished(Err(error)) => RunModel::Finished(Err(error@)),
        }
    }
}

/// What a run returns for a process that has finished: its output if it succeeded, else a
/// command failure that carries the subcommand and both streams as text.
pub open spec fn spec_verdict(subcommand: Seq<char>, output: ProcessOutputModel) -> Result<
    ProcessOutputModel,
    ErrorModel,
> {
    if output.succeeded() {
        Ok(output)
    } else {
        Err(
            ErrorModel::CommandFailed {
                subcommand,
                stdout: lossy_text(output.stdout),
                stderr: lossy_text(output.stderr),
            },
        )
    }
}

/// Judges a finished process by its exit status. A stream that is valid UTF-8 stands in
/// the command failure as the text that it encodes.
pub fn verdict(subcommand: &str, output: ProcessOutput) -> (r: Result<
    ProcessOutput,
    NodeRuntimeError,
>)
    ensures
        match spec_verdict(subcommand@, output@) {
            Ok(kept) => r matches Ok(o) && o@ == kept,
            Err(error) => r matches Err(e) && e@ == error,
        },
        r matches Err(NodeRuntimeError::CommandFailed { stdout, stderr, .. }) ==> {
            &&& valid_utf8(output.stdout@) ==> stdout@ == decode_utf8(output.stdout@)
            &&& valid_utf8(output.stderr@) ==> stderr@ == decode_utf8(output.stderr@)
        },
{
    if output.succeeded() {
        Ok(output)
    } else {
        Err(
            NodeRuntimeError::CommandFailed {
                subcommand: subcommand.to_owned(),
                stdout: decode_lossy(output.stdout.as_slice()),
                stderr: decode_lossy(output.stderr.as_slice()),
            },
        )
    }
}

impl AttemptStep {
    /// What the step consists of in a run of the request: the interpreter is looked for
    /// before the script, and the launch runs the request's invocation.
    pub open spec fn spec_action(self, request: RequestModel) -> AttemptActionModel {
        match self {
            AttemptStep::EnsureInstalled => AttemptActionModel::EnsureInstalled,
            AttemptStep::CheckNodeBinary => AttemptActionModel::Locate(
                InstallationEntry::NodeBinary,
            ),
            AttemptStep::CheckNpmScript => AttemptActionModel::Locate(
                InstallationEntry::NpmScript,
            ),
            AttemptStep::Launch => AttemptActionModel::Launch(
                InvocationModel::npm_subcommand(
                    request.subcommand,
                    request.arguments,
                    request.scoped,
                ),
            ),
        }
    }

    /// What the caller has to do for this step in a run of the request.
    pub fn action(&self, request: &Request) -> (r: AttemptAction)
        ensures
            r@ == self.spec_action(request@),
    {
        match self {
            AttemptStep::EnsureInstalled => AttemptAction::EnsureInstalled,
            AttemptStep::CheckNodeBinary => AttemptAction::Locate(InstallationEntry::NodeBinary),
            AttemptStep::CheckNpmScript => AttemptAction::Locate(InstallationEntry::NpmScript),
            AttemptStep::Launch => AttemptAction::Launch(request.invocation()),
        }
    }

    /// Whether a report lets the attempt go on: a launch needs a finished process, every
    /// other step needs to have passed.
    pub open spec fn satisfied_by(self, report: ReportModel) -> bool {
        match self {
            AttemptStep::Launch => report is Exited,
            _ => report is Passed,
        }
    }

    /// The step that follows in the same attempt; the launch is the last.
    pub open spec fn successor(self) -> AttemptStep {
        match self {
            AttemptStep::EnsureInstalled => AttemptStep::CheckNodeBinary,
            AttemptStep::CheckNodeBinary => AttemptStep::CheckNpmScript,
            AttemptStep::CheckNpmScript => AttemptStep::Launch,
            AttemptStep::Launch => AttemptStep::Launch,
        }
    }
}

impl RunModel {
    /// The beginning of a run.
    pub open spec fn start() -> RunModel {
        RunModel::Pending { attempt: Attempt::First, step: AttemptStep::EnsureInstalled }
    }

    /// The run after the report on the pending step; a finished run stays.
    pub open spec fn after(self, subcommand: Seq<char>, report: ReportModel) -> RunModel {
        match self {
            RunModel::Pending { attempt, step } => if step.satisfied_by(report) {
                match report {
                    ReportModel::Exited(output) => RunModel::Finished(
                        spec_verdict(subcommand, output),
                    ),
                    _ => RunModel::Pending { attempt, step: step.successor() },
                }
            } else {
                match attempt {
                    Attempt::First => RunModel::Pending {
                        attempt: Attempt::Second,
                        step: AttemptStep::EnsureInstalled,
                    },
                    Attempt::Second => RunModel::Finished(
                        Err(ErrorModel::LaunchFailed { subcommand, step }),
                    ),
                }
            },
            RunModel::Finished(_) => self,
        }
    }
}

impl Run {
    /// A run begins with the first attempt's first step.
    pub fn start() -> (r: Run)
        ensures
            r@ == RunModel::start(),
    {
        Run::Pending { attempt: Attempt::First, step: AttemptStep::EnsureInstalled }
    }

    /// The step to perform next, if the run is not over.
    pub fn pending(&self) -> (r: Option<AttemptStep>)
        ensures
            r == match self@ {
                RunModel::Pending { attempt, step } => Some(step),
                RunModel::Finished(_) => None,
            },
    {
        match self {
            Run::Pending { attempt: _, step } => Some(*step),
            Run::Finished(_) => None,
        }
    }

    /// Takes the report on the pending step of a run of the request and gives the run
    /// that follows.
    pub fn advance(self, request: &Request, report: Report) -> (r: Run)
        ensures
            r@ == self@.after(request@.subcommand, report@),
    {
        let subcommand = request.subcommand.as_str();
        let (attempt, step) = match self {
            Run::Pending { attempt, step } => (attempt, step),
            Run::Finished(result) => return Run::Finished(result),
        };
        let next = match step {
            AttemptStep::EnsureInstalled => AttemptStep::CheckNodeBinary,
            AttemptStep::CheckNodeBinary => AttemptStep::CheckNpmScript,
            AttemptStep::CheckNpmScript => AttemptStep::Launch,
            AttemptStep::Launch => AttemptStep::Launch,
        };
        match (step, report) {
            (AttemptStep::Launch, Report::Exited(output)) => Run::Finished(
                verdict(subcommand, output),
            ),
            (AttemptStep::EnsureInstalled, Report::Passed) => Run::Pending { attempt, step: next },
            (AttemptStep::CheckNodeBinary, Report::Passed) => Run::Pending { attempt, step: next },
            (AttemptStep::CheckNpmScript, Report::Passed) => Run::Pending { attempt, step: next },
            _ => match attempt {
                Attempt::First => Run::Pending {
                    attempt: Attempt::Second,
                    step: AttemptStep::EnsureInstalled,
                },
                Attempt::Second => Run::Finished(
                    Err(NodeRuntimeError::LaunchFailed { subcommand: subcommand.to_owned(), step }),
                ),
            },
        }
    }
}

/// The run of `subcommand` after the first `count` of the reports.
pub open spec fn run_after(subcommand: Seq<char>, reports: Seq<ReportModel>, count: nat) -> RunModel
    decreases count,
{
    if count == 0 {
        RunModel::start()
    } else {
        run_after(subcommand, reports, (count - 1) as nat).after(subcommand, reports[count - 1])
    }
}

/// The run of `subcommand` after all the reports.
pub open spec fn run_of(subcommand: Seq<char>, reports: Seq<ReportModel>) -> RunModel {
    run_after(subcommand, reports, reports.len())
}

/// The step that the report at index `at` of an attempt answers.
pub open spec fn step_at(at: int) -> AttemptStep {
    if at <= 0 {
        AttemptStep::EnsureInstalled
    } else if at == 1 {
        AttemptStep::CheckNodeBinary
    } else if at == 2 {
        AttemptStep::CheckNpmScript
    } else {
        AttemptStep::Launch
    }
}

/// The reports of an attempt that fails: every step but the last one passed, and the last
/// report does not satisfy its step.
pub open spec fn failed_attempt(reports: Seq<ReportModel>) -> bool {
    &&& 1 <= reports.len() <= 4
    &&& forall|at: int| 0 <= at < reports.len() - 1 ==> reports[at] is Passed
    &&& !step_at(reports.len() - 1).satisfied_by(reports.last())
}

/// The reports of an attempt that launches the process, which finishes with `output`.
pub open spec fn launch(output: ProcessOutputModel) -> Seq<ReportModel> {
    seq![
        ReportModel::Passed,
        ReportModel::Passed,
        ReportModel::Passed,
        ReportModel::Exited(output),
    ]
}

/// A failed first attempt leaves the run at the beginning of the second attempt.
proof fn lemma_first_attempt_fails(subcommand: Seq<char>, reports: Seq<ReportModel>, first: nat)
    requires
        first <= reports.len(),
        failed_attempt(reports.take(first as int)),
    ensures
        run_after(subcommand, reports, first) == (RunModel::Pending {
            attempt: Attempt::Second,
            step: AttemptStep::EnsureInstalled,
        }),
{
    reveal_with_fuel(run_after, 5);
    let attempt = reports.take(first as int);
    assert forall|at: int| 0 <= at < first implies reports[at] == attempt[at] by {}
}

/// The retry: when the first attempt fails and the process is launched in the second, the
/// run ends with the verdict on that process. A launch that succeeds hides the failure
/// of the first attempt.
pub proof fn lemma_second_attempt_decides(
    subcommand: Seq<char>,
    first: Seq<ReportModel>,
    output: ProcessOutputModel,
)
    requires
        failed_attempt(first),
    ensures
        run_of(subcommand, first + launch(output)) == RunModel::Finished(
            spec_verdict(subcommand, output),
        ),
{
    let reports = first + launch(output);
    let n: int = first.len() as int;
    lemma_first_attempt_fails(subcommand, reports, n as nat);
    reveal_with_fuel(run_after, 5);
}

/// Two failed attempts end the run with a launch failure that names the subcommand and
/// the step at which the second attempt failed, whatever made the first one fail.
pub proof fn lemma_two_failed_attempts(
    subcommand: Seq<char>,
    first: Seq<ReportModel>,
    second: Seq<ReportModel>,
)
    requires
        failed_attempt(first),
        failed_attempt(second),
    ensures
        run_of(subcommand, first + second) == RunModel::Finished(
            Err(ErrorModel::LaunchFailed { subcommand, step: step_at(second.len() - 1) }),
        ),
{
    let reports = first + second;
    let n: int = first.len() as int;
    let m: int = second.len() as int;
    lemma_first_attempt_fails(subcommand, reports, n as nat);
    reveal_with_fuel(run_after, 5);
    assert forall|at: int| 0 <= at < m implies reports[n + at] == second[at] by {}
}

/// A process that is launched in the first attempt ends the run at once: with its output
/// if it exited with status zero, else with a command failure that carries the subcommand
/// and the text of both streams. There is no retry after a launch.
pub proof fn lemma_exit_status_decides(subcommand: Seq<char>, output: ProcessOutputModel)
    ensures
        run_of(subcommand, launch(output)) == RunModel::Finished(spec_verdict(subcommand, output)),
        output.succeeded() ==> spec_verdict(subcommand, output) == Ok::<
            ProcessOutputModel,
            ErrorModel,
        >(output),
        !output.succeeded() ==> spec_verdict(subcommand, output) == Err::<
            ProcessOutputModel,
            ErrorModel,
        >(
            ErrorModel::CommandFailed {
                subcommand,
                stdout: lossy_text(output.stdout),
                stderr: lossy_text(output.stderr),
            },
        ),
{
    reveal_with_fuel(run_after, 5);
}

/// A finished run stays as it is, whatever is reported to it.
pub proof fn lemma_finished_run_stays(
    subcommand: Seq<char>,
    reports: Seq<ReportModel>,
    from: nat,
    count: nat,
)
    requires
        from <= count,
        run_after(subcommand, reports, from) is Finished,
    ensures
        run_after(subcommand, reports, count) == run_after(subcommand, reports, from),
    decreases count,
{
    if count > from {
        lemma_finished_run_stays(subcommand, reports, from, (count - 1) as nat);
    }
}

/// How far a run has come: the attempt's number and the step's place in it.
spec fn progress(run: RunModel) -> nat {
    match run {
        RunModel::Pending { attempt, step } => (match attempt {
            Attempt::First => 0nat,
            Attempt::Second => 4nat,
        }) + (match step {
            AttemptStep::EnsureInstalled => 0nat,
            AttemptStep::CheckNodeBinary => 1nat,
            AttemptStep::CheckNpmScript => 2nat,
            AttemptStep::Launch => 3nat,
        }),
        RunModel::Finished(_) => 8nat,
    }
}

/// Every report moves a run that is not over forward.
proof fn lemma_run_progresses(subcommand: Seq<char>, reports: Seq<ReportModel>, count: nat)
    ensures
        progress(run_after(subcommand, reports, count)) >= if count <= 8 {
            count
        } else {
            8
        },
    decreases count,
{
    if count > 0 {
        lemma_run_progresses(subcommand, reports, (count - 1) as nat);
    }
}

/// A run is over after eight reports at most: there are two attempts of four steps.
pub proof fn lemma_run_is_bounded(subcommand: Seq<char>, reports: Seq<ReportModel>, count: nat)
    requires
        count >= 8,
    ensures
        run_after(subcommand, reports, count) is Finished,
{
    lemma_run_progresses(subcommand, reports, count);
}

} // verus!
