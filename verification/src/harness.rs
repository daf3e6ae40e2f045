//! The harness that drives one grading run.
//!
//! A run is a state machine: the engine holds the state and decides, from
//! each observed event, the next state; the host performs the outside work
//! (compiling, sandboxed execution, file removal) that the current state
//! asks for and feeds the observation back.  Compile or lookup failures end
//! the run with zero verdicts; a single case's infrastructure failure only
//! fails that case; and every run demands the removal of its workspace
//! files before it reports.

use vstd::prelude::*;

use crate::compile::{CompileResult, CompileResultView};
use crate::evaluate::output_passes;
use crate::report::{
    count_passed,
    report_wf,
    report_from,
    GradeReport,
    GradeReportView,
    TestCase,
    TestCaseView,
    TestVerdict,
    TestVerdictView,
};
use crate::store::{StoreError, StoreErrorView};
use crate::text::trimmed;
use crate::workspace::{workspace_wf, Workspace, WorkspaceView};

verus! {

/// One grading request: the submitted source text and the question whose
/// test cases it is graded against.
#[derive(Debug, Clone, PartialEq, Eq)]
pub struct Submission {
    pub source_text: String,
    pub question_id: String,
}

/// Mathematical image of a [`Submission`].
pub struct SubmissionView {
    pub source_text: Seq<char>,
    pub question_id: Seq<char>,
}

impl View for Submission {
    type V = SubmissionView;

    open spec fn view(&self) -> SubmissionView {
        SubmissionView { source_text: self.source_text@, question_id: self.question_id@ }
    }
}

/// What the host observed from one sandboxed execution of the artifact.
#[derive(Debug, Clone, PartialEq, Eq)]
pub enum ExecutionOutcome {
    /// The program ran to completion; `stdout` is everything it printed.
    Completed { stdout: String, exit_code: i32 },
    /// The sandboxed process could not be started.
    SpawnError { message: String },
    /// Feeding stdin or collecting output failed after the start.
    IoError { message: String },
    /// The program exceeded its time allowance and was terminated.
    Timeout,
}

/// Mathematical image of an [`ExecutionOutcome`].
pub enum ExecutionOutcomeView {
    Completed { stdout: Seq<char>, exit_code: i32 },
    SpawnError { message: Seq<char> },
    IoError { message: Seq<char> },
    Timeout,
}

impl View for ExecutionOutcome {
    type V = ExecutionOutcomeView;

    open spec fn view(&self) -> ExecutionOutcomeView {
        match self {
            ExecutionOutcome::Completed { stdout, exit_code } => (ExecutionOutcomeView::Completed {
                stdout: stdout@,
                exit_code: *exit_code,
            }),
            ExecutionOutcome::SpawnError { message } => (ExecutionOutcomeView::SpawnError {
                message: message@,
            }),
            ExecutionOutcome::IoError { message } => (ExecutionOutcomeView::IoError {
                message: message@,
            }),
            ExecutionOutcome::Timeout => ExecutionOutcomeView::Timeout,
        }
    }
}

/// A failure that ends a run before any test case executes.
#[derive(Debug, Clone, PartialEq, Eq)]
pub enum RunError {
    /// Compilation failed; the diagnostics are surfaced verbatim.
    CompileError { diagnostics: String },
    /// The store produced no test cases for the question.
    LookupError { cause: StoreError },
}

/// Mathematical image of a [`RunError`].
pub enum RunErrorView {
    CompileError { diagnostics: Seq<char> },
    LookupError { cause: StoreErrorView },
}

impl View for RunError {
    type V = RunErrorView;

    open spec fn view(&self) -> RunErrorView {
        match self {
            RunError::CompileError { diagnostics } => (RunErrorView::CompileError {
                diagnostics: diagnostics@,
            }),
            RunError::LookupError { cause } => (RunErrorView::LookupError { cause: cause@ }),
        }
    }
}

/// The note a timed-out case's verdict carries.
pub open spec fn timeout_note() -> Seq<char> {
    "time limit exceeded"@
}

/// The verdict one test case earns from its execution outcome.  A completed
/// execution is judged by output containment; a case whose execution never
/// completed fails with the infrastructure error as its note.
pub open spec fn verdict_for(case: TestCaseView, outcome: ExecutionOutcomeView) -> TestVerdictView {
    match outcome {
        ExecutionOutcomeView::Completed { stdout, exit_code } => (TestVerdictView {
            description: case.description,
            passed: output_passes(stdout, case.expected_output),
            actual_output: trimmed(stdout),
            expected_output: case.expected_output,
            note: None,
        }),
        ExecutionOutcomeView::SpawnError { message } => failed_verdict(case, message),
        ExecutionOutcomeView::IoError { message } => failed_verdict(case, message),
        ExecutionOutcomeView::Timeout => failed_verdict(case, timeout_note()),
    }
}

/// A verdict for a case that never produced output: failed, empty actual
/// output, and the infrastructure error as its note.
pub open spec fn failed_verdict(case: TestCaseView, note: Seq<char>) -> TestVerdictView {
    TestVerdictView {
        description: case.description,
        passed: false,
        actual_output: Seq::empty(),
        expected_output: case.expected_output,
        note: Some(note),
    }
}

/// Builds the verdict of one test case from its execution outcome.
pub fn evaluate_case(case: &TestCase, outcome: ExecutionOutcome) -> (v: TestVerdict)
    ensures
        v@ == verdict_for(case@, outcome@),
{
    match outcome {
        ExecutionOutcome::Completed { stdout, exit_code } => {
            let passed = crate::evaluate::evaluate(stdout.as_str(), case.expected_output.as_str());
            let actual = String::from_str(crate::text::trim_str(stdout.as_str()));
            TestVerdict {
                description: case.description.clone(),
                passed,
                actual_output: actual,
                expected_output: case.expected_output.clone(),
                note: None,
            }
        },
        ExecutionOutcome::SpawnError { message } => failed_verdict_exec(case, message),
        ExecutionOutcome::IoError { message } => failed_verdict_exec(case, message),
        ExecutionOutcome::Timeout => failed_verdict_exec(
            case,
            String::from_str("time limit exceeded"),
        ),
    }
}

/// Builds the failed verdict of a case whose execution never completed.
fn failed_verdict_exec(case: &TestCase, note: String) -> (v: TestVerdict)
    ensures
        v@ == failed_verdict(case@, note@),
{
    TestVerdict {
        description: case.description.clone(),
        passed: false,
        actual_output: String::new(),
        expected_output: case.expected_output.clone(),
        note: Some(note),
    }
}

/// The state of one grading run.
pub enum RunState {
    /// The workspace is allocated; the submission waits for the compiler.
    Compiling { workspace: Workspace, submission: Submission },
    /// Compilation succeeded; the question's test cases are being loaded.
    Loading { workspace: Workspace, question_id: String },
    /// Test cases execute one at a time, in their stored order; `next` is
    /// the case whose execution the run is waiting for.
    Executing { workspace: Workspace, cases: Vec<TestCase>, verdicts: Vec<TestVerdict>, next: usize },
    /// The report is complete; the workspace files await removal.
    Finalizing { workspace: Workspace, report: GradeReport, error: Option<RunError> },
    /// The run is over and the report may be handed out.
    Done { report: GradeReport, error: Option<RunError> },
}

/// Mathematical image of a [`RunState`].
pub enum RunStateView {
    Compiling { workspace: WorkspaceView, submission: SubmissionView },
    Loading { workspace: WorkspaceView, question_id: Seq<char> },
    Executing {
        workspace: WorkspaceView,
        cases: Seq<TestCaseView>,
        verdicts: Seq<TestVerdictView>,
        next: int,
    },
    Finalizing { workspace: WorkspaceView, report: GradeReportView, error: Option<RunErrorView> },
    Done { report: GradeReportView, error: Option<RunErrorView> },
}

impl View for RunState {
    type V = RunStateView;

    open spec fn view(&self) -> RunStateView {
        match self {
            RunState::Compiling { workspace, submission } => (RunStateView::Compiling {
                workspace: workspace@,
                submission: submission@,
            }),
            RunState::Loading { workspace, question_id } => (RunStateView::Loading {
                workspace: workspace@,
                question_id: question_id@,
            }),
            RunState::Executing { workspace, cases, verdicts, next } => (RunStateView::Executing {
                workspace: workspace@,
                cases: cases@.map_values(|c: TestCase| c@),
                verdicts: verdicts@.map_values(|v: TestVerdict| v@),
                next: *next as int,
            }),
            RunState::Finalizing { workspace, report, error } => (RunStateView::Finalizing {
                workspace: workspace@,
                report: report@,
                error: match error {
                    Some(e) => Some(e@),
                    None => None,
                },
            }),
            RunState::Done { report, error } => (RunStateView::Done {
                report: report@,
                error: match error {
                    Some(e) => Some(e@),
                    None => None,
                },
            }),
        }
    }
}

/// An event the host reports back to the run.
pub enum RunEvent {
    /// The compile step finished with this result.
    Compiled { result: CompileResult },
    /// The store lookup finished with this result.
    Loaded { result: Result<Vec<TestCase>, StoreError> },
    /// The execution of the awaited test case finished with this outcome.
    CaseRun { outcome: ExecutionOutcome },
    /// The workspace files were asked to be removed.
    CleanedUp,
}

/// Mathematical image of a [`RunEvent`].
pub enum RunEventView {
    Compiled { result: CompileResultView },
    Loaded { result: Result<Seq<TestCaseView>, StoreErrorView> },
    CaseRun { outcome: ExecutionOutcomeView },
    CleanedUp,
}

impl View for RunEvent {
    type V = RunEventView;

    open spec fn view(&self) -> RunEventView {
        match self {
            RunEvent::Compiled { result } => (RunEventView::Compiled { result: result@ }),
            RunEvent::Loaded { result } => (RunEventView::Loaded {
                result: match result {
                    Ok(cases) => Ok(cases@.map_values(|c: TestCase| c@)),
                    Err(e) => Err(e@),
                },
            }),
            RunEvent::CaseRun { outcome } => (RunEventView::CaseRun { outcome: outcome@ }),
            RunEvent::CleanedUp => RunEventView::CleanedUp,
        }
    }
}

/// The outside work the run asks the host to perform next.
pub enum RunAction {
    /// Write `source_text` to `source_path` and invoke the C compiler on it
    /// with `artifact_path` as the output target.
    Compile { source_text: String, source_path: String, artifact_path: String },
    /// Load the stored test cases of `question_id`.
    LoadCases { question_id: String },
    /// Execute the artifact under isolation, feeding `input` on stdin.
    RunCase { artifact_path: String, input: String },
    /// Remove the run's two workspace files, best effort.
    Cleanup { source_path: String, artifact_path: String },
    /// Nothing is left to do; the report is ready.
    Report,
}

/// Mathematical image of a [`RunAction`].
pub enum RunActionView {
    Compile { source_text: Seq<char>, source_path: Seq<char>, artifact_path: Seq<char> },
    LoadCases { question_id: Seq<char> },
    RunCase { artifact_path: Seq<char>, input: Seq<char> },
    Cleanup { source_path: Seq<char>, artifact_path: Seq<char> },
    Report,
}

impl View for RunAction {
    type V = RunActionView;

    open spec fn view(&self) -> RunActionView {
        match self {
            RunAction::Compile { source_text, source_path, artifact_path } => (RunActionView::Compile {
                source_text: source_text@,
                source_path: source_path@,
                artifact_path: artifact_path@,
            }),
            RunAction::LoadCases { question_id } => (RunActionView::LoadCases {
                question_id: question_id@,
            }),
            RunAction::RunCase { artifact_path, input } => (RunActionView::RunCase {
                artifact_path: artifact_path@,
                input: input@,
            }),
            RunAction::Cleanup { source_path, artifact_path } => (RunActionView::Cleanup {
                source_path: source_path@,
                artifact_path: artifact_path@,
            }),
            RunAction::Report => RunActionView::Report,
        }
    }
}

/// The report of a run that executed no test case.
pub open spec fn empty_report() -> GradeReportView {
    GradeReportView { verdicts: Seq::empty(), passed_count: 0, total_count: 0 }
}

/// The well-formed report over exactly these verdicts.
pub open spec fn report_of(vs: Seq<TestVerdictView>) -> GradeReportView {
    GradeReportView { verdicts: vs, passed_count: count_passed(vs) as int, total_count: vs.len() as int }
}

/// The states a run can actually be in: the workspace is well formed, the
/// executing loop's verdicts match the cases already run, and a finished
/// report counts its own verdicts.
pub open spec fn state_wf(s: RunStateView) -> bool {
    match s {
        RunStateView::Compiling { workspace, .. } => workspace_wf(workspace),
        RunStateView::Loading { workspace, .. } => workspace_wf(workspace),
        RunStateView::Executing { workspace, cases, verdicts, next } => workspace_wf(workspace)
            && verdicts.len() == next && next < cases.len(),
        RunStateView::Finalizing { workspace, report, .. } => workspace_wf(workspace) && report_wf(
            report,
        ),
        RunStateView::Done { report, .. } => report_wf(report),
    }
}

/// The run's transition relation: what each observed event makes of each
/// state.  An event that the state is not waiting for changes nothing.
pub open spec fn step_spec(s: RunStateView, e: RunEventView) -> RunStateView {
    match (s, e) {
        (
            RunStateView::Compiling { workspace, submission },
            RunEventView::Compiled { result },
        ) => match result {
            CompileResultView::Success { .. } => (RunStateView::Loading {
                workspace,
                question_id: submission.question_id,
            }),
            CompileResultView::Failure { diagnostics } => (RunStateView::Finalizing {
                workspace,
                report: empty_report(),
                error: Some(RunErrorView::CompileError { diagnostics }),
            }),
        },
        (RunStateView::Loading { workspace, .. }, RunEventView::Loaded { result }) => match result {
            Ok(cases) => {
                if cases.len() == 0 {
                    RunStateView::Finalizing { workspace, report: empty_report(), error: None }
                } else {
                    RunStateView::Executing { workspace, cases, verdicts: Seq::empty(), next: 0 }
                }
            },
            Err(cause) => (RunStateView::Finalizing {
                workspace,
                report: empty_report(),
                error: Some(RunErrorView::LookupError { cause }),
            }),
        },
        (
            RunStateView::Executing { workspace, cases, verdicts, next },
            RunEventView::CaseRun { outcome },
        ) => {
            let vs = verdicts.push(verdict_for(cases[next], outcome));
            if next + 1 == cases.len() {
                RunStateView::Finalizing { workspace, report: report_of(vs), error: None }
            } else {
                RunStateView::Executing { workspace, cases, verdicts: vs, next: next + 1 }
            }
        },
        (RunStateView::Finalizing { report, error, .. }, RunEventView::CleanedUp) => (RunStateView::Done {
            report,
            error,
        }),
        (other, _) => other,
    }
}

/// The outside work each state waits for.
pub open spec fn action_spec(s: RunStateView) -> RunActionView {
    match s {
        RunStateView::Compiling { workspace, submission } => (RunActionView::Compile {
            source_text: submission.source_text,
            source_path: workspace.source_path,
            artifact_path: workspace.artifact_path,
        }),
        RunStateView::Loading { question_id, .. } => (RunActionView::LoadCases { question_id }),
        RunStateView::Executing { workspace, cases, next, .. } => (RunActionView::RunCase {
            artifact_path: workspace.artifact_path,
            input: cases[next].input,
        }),
        RunStateView::Finalizing { workspace, .. } => (RunActionView::Cleanup {
            source_path: workspace.source_path,
            artifact_path: workspace.artifact_path,
        }),
        RunStateView::Done { .. } => RunActionView::Report,
    }
}

/// Assembles one grading run, ready to compile: the freshly allocated
/// workspace together with the submission it grades.
pub fn rocket(workspace: Workspace, submission: Submission) -> (s: RunState)
    requires
        workspace_wf(workspace@),
    ensures
        s@ == (RunStateView::Compiling { workspace: workspace@, submission: submission@ }),
        state_wf(s@),
{
    RunState::Compiling { workspace, submission }
}

/// Feeds one observed event to the run and returns the next state.
pub fn step(s: RunState, e: RunEvent) -> (s2: RunState)
    requires
        state_wf(s@),
    ensures
        s2@ == step_spec(s@, e@),
        state_wf(s2@),
{
    match s {
        RunState::Compiling { workspace, submission } => match e {
            RunEvent::Compiled { result } => match result {
                CompileResult::Success { artifact_path: _ } => RunState::Loading {
                    workspace,
                    question_id: submission.question_id,
                },
                CompileResult::Failure { diagnostics } => {
                    let report = report_from(Vec::new());
                    proof {
                        assert(report@.verdicts =~= empty_report().verdicts);
                    }
                    RunState::Finalizing {
                        workspace,
                        report,
                        error: Some(RunError::CompileError { diagnostics }),
                    }
                },
            },
            _ => RunState::Compiling { workspace, submission },
        },
        RunState::Loading { workspace, question_id } => match e {
            RunEvent::Loaded { result } => match result {
                Ok(cases) => {
                    if cases.len() == 0 {
                        let report = report_from(Vec::new());
                        proof {
                            assert(report@.verdicts =~= empty_report().verdicts);
                        }
                        RunState::Finalizing { workspace, report, error: None }
                    } else {
                        let verdicts: Vec<TestVerdict> = Vec::new();
                        proof {
                            assert(verdicts@.map_values(|v: TestVerdict| v@) =~= Seq::<
                                TestVerdictView,
                            >::empty());
                        }
                        RunState::Executing { workspace, cases, verdicts, next: 0 }
                    }
                },
                Err(cause) => {
                    let report = report_from(Vec::new());
                    proof {
                        assert(report@.verdicts =~= empty_report().verdicts);
                    }
                    RunState::Finalizing {
                        workspace,
                        report,
                        error: Some(RunError::LookupError { cause }),
                    }
                },
            },
            _ => RunState::Loading { workspace, question_id },
        },
        RunState::Executing { workspace, cases, mut verdicts, next } => match e {
            RunEvent::CaseRun { outcome } => {
                proof {
                    assert(next < cases.len());
                }
                let ghost old_verdicts = verdicts@.map_values(|v: TestVerdict| v@);
                let v = evaluate_case(&cases[next], outcome);
                verdicts.push(v);
                proof {
                    assert(verdicts@.map_values(|v: TestVerdict| v@) =~= old_verdicts.push(
                        verdict_for(cases@.map_values(|c: TestCase| c@)[next as int], outcome@),
                    ));
                }
                if next + 1 == cases.len() {
                    let report = report_from(verdicts);
                    RunState::Finalizing { workspace, report, error: None }
                } else {
                    RunState::Executing { workspace, cases, verdicts, next: next + 1 }
                }
            },
            _ => RunState::Executing { workspace, cases, verdicts, next },
        },
        RunState::Finalizing { workspace, report, error } => match e {
            RunEvent::CleanedUp => RunState::Done { report, error },
            _ => RunState::Finalizing { workspace, report, error },
        },
        RunState::Done { report, error } => RunState::Done { report, error },
    }
}

/// The run state after feeding `events` to `s`, one at a time.
pub open spec fn run_steps(s: RunStateView, events: Seq<RunEventView>) -> RunStateView
    decreases events.len(),
{
    if events.len() == 0 {
        s
    } else {
        run_steps(step_spec(s, events[0]), events.drop_first())
    }
}

/// One case-execution event per outcome, in order.
pub open spec fn case_events(outcomes: Seq<ExecutionOutcomeView>) -> Seq<RunEventView> {
    Seq::new(outcomes.len(), |i: int| RunEventView::CaseRun { outcome: outcomes[i] })
}

/// The events of one whole run: the compile result, then — only when
/// compilation succeeded — the lookup result and, when cases were found, one
/// execution outcome per case; finally the cleanup acknowledgement.
pub open spec fn full_run_events(
    compile: CompileResultView,
    lookup: Result<Seq<TestCaseView>, StoreErrorView>,
    outcomes: Seq<ExecutionOutcomeView>,
) -> Seq<RunEventView> {
    seq![RunEventView::Compiled { result: compile }] + (match compile {
        CompileResultView::Success { .. } => seq![RunEventView::Loaded { result: lookup }]
            + (match lookup {
            Ok(_) => case_events(outcomes),
            Err(_) => Seq::empty(),
        }),
        CompileResultView::Failure { .. } => Seq::empty(),
    }) + seq![RunEventView::CleanedUp]
}

/// The verdicts of a run whose cases finished with these outcomes: one per
/// case, in the cases' own order.
pub open spec fn verdicts_for(
    cases: Seq<TestCaseView>,
    outcomes: Seq<ExecutionOutcomeView>,
) -> Seq<TestVerdictView> {
    Seq::new(cases.len(), |i: int| verdict_for(cases[i], outcomes[i]))
}

/// What one run reports, as a function of what the outside world answered:
/// a compile failure or a failed lookup ends the run with zero verdicts and
/// the failure as the run-level error; otherwise every stored case gets its
/// verdict and the counters are computed over them.
pub open spec fn run_report(
    compile: CompileResultView,
    lookup: Result<Seq<TestCaseView>, StoreErrorView>,
    outcomes: Seq<ExecutionOutcomeView>,
) -> (GradeReportView, Option<RunErrorView>) {
    match compile {
        CompileResultView::Failure { diagnostics } => (
            empty_report(),
            Some(RunErrorView::CompileError { diagnostics }),
        ),
        CompileResultView::Success { .. } => match lookup {
            Err(cause) => (empty_report(), Some(RunErrorView::LookupError { cause })),
            Ok(cases) => (report_of(verdicts_for(cases, outcomes)), None),
        },
    }
}

/// Feeding one single event is one step.
proof fn lemma_run_steps_one(s: RunStateView, e: RunEventView)
    ensures
        run_steps(s, seq![e]) == step_spec(s, e),
{
    let events = seq![e];
    assert(events.drop_first() =~= Seq::<RunEventView>::empty());
    assert(run_steps(step_spec(s, events[0]), events.drop_first()) == step_spec(s, e));
}

/// Feeding the concatenation of two event lists is feeding them in turn.
proof fn lemma_run_steps_app(s: RunStateView, a: Seq<RunEventView>, b: Seq<RunEventView>)
    ensures
        run_steps(s, a + b) == run_steps(run_steps(s, a), b),
    decreases a.len(),
{
    if a.len() == 0 {
        assert(a + b =~= b);
    } else {
        assert((a + b)[0] == a[0]);
        assert((a + b).drop_first() =~= a.drop_first() + b);
        lemma_run_steps_app(step_spec(s, a[0]), a.drop_first(), b);
        assert(run_steps(s, a + b) == run_steps(step_spec(s, a[0]), (a + b).drop_first()));
        assert(run_steps(s, a) == run_steps(step_spec(s, a[0]), a.drop_first()));
    }
}

/// Feeding the executing loop one outcome per remaining case lands in
/// `Finalizing` with the verdicts gathered so far extended by one verdict
/// per remaining case, in order.
proof fn lemma_executing_runs(
    ws: WorkspaceView,
    cases: Seq<TestCaseView>,
    verdicts: Seq<TestVerdictView>,
    next: int,
    outcomes: Seq<ExecutionOutcomeView>,
)
    requires
        0 <= next < cases.len(),
        verdicts.len() == next,
        outcomes.len() == cases.len() - next,
    ensures
        run_steps(
            RunStateView::Executing { workspace: ws, cases, verdicts, next },
            case_events(outcomes),
        ) == (RunStateView::Finalizing {
            workspace: ws,
            report: report_of(
                verdicts + Seq::new(
                    outcomes.len(),
                    |i: int| verdict_for(cases[next + i], outcomes[i]),
                ),
            ),
            error: None,
        }),
    decreases outcomes.len(),
{
    let s0 = RunStateView::Executing { workspace: ws, cases, verdicts, next };
    let events = case_events(outcomes);
    let suffix = Seq::new(outcomes.len(), |i: int| verdict_for(cases[next + i], outcomes[i]));
    assert(events[0] == (RunEventView::CaseRun { outcome: outcomes[0] }));
    let vs = verdicts.push(verdict_for(cases[next], outcomes[0]));
    assert(run_steps(s0, events) == run_steps(step_spec(s0, events[0]), events.drop_first()));
    if next + 1 == cases.len() {
        assert(step_spec(s0, events[0]) == (RunStateView::Finalizing {
            workspace: ws,
            report: report_of(vs),
            error: None,
        }));
        assert(events.drop_first().len() == 0);
        assert(run_steps(step_spec(s0, events[0]), events.drop_first()) == step_spec(
            s0,
            events[0],
        ));
        assert(vs =~= verdicts + suffix);
    } else {
        let s1 = RunStateView::Executing { workspace: ws, cases, verdicts: vs, next: next + 1 };
        assert(step_spec(s0, events[0]) == s1);
        lemma_executing_runs(ws, cases, vs, next + 1, outcomes.drop_first());
        assert(events.drop_first() =~= case_events(outcomes.drop_first()));
        let suffix1 = Seq::new(
            outcomes.drop_first().len(),
            |i: int| verdict_for(cases[next + 1 + i], outcomes.drop_first()[i]),
        );
        assert(run_steps(s1, events.drop_first()) == (RunStateView::Finalizing {
            workspace: ws,
            report: report_of(vs + suffix1),
            error: None,
        }));
        assert(vs + suffix1 =~= verdicts + suffix);
    }
}

/// The state machine, driven through one whole run, reports exactly
/// [`run_report`] of what the outside world answered: one verdict per stored
/// case, in the cases' order, whenever compilation succeeded and the lookup
/// found the question; zero verdicts and the failure otherwise.
pub proof fn lemma_full_run(
    ws: WorkspaceView,
    sub: SubmissionView,
    compile: CompileResultView,
    lookup: Result<Seq<TestCaseView>, StoreErrorView>,
    outcomes: Seq<ExecutionOutcomeView>,
)
    requires
        (compile matches CompileResultView::Success { .. }) ==> (match lookup {
            Ok(cases) => outcomes.len() == cases.len(),
            Err(_) => true,
        }),
    ensures
        run_steps(
            RunStateView::Compiling { workspace: ws, submission: sub },
            full_run_events(compile, lookup, outcomes),
        ) == (RunStateView::Done {
            report: run_report(compile, lookup, outcomes).0,
            error: run_report(compile, lookup, outcomes).1,
        }),
{
    let s0 = RunStateView::Compiling { workspace: ws, submission: sub };
    let events = full_run_events(compile, lookup, outcomes);
    let first = seq![RunEventView::Compiled { result: compile }];
    let last = seq![RunEventView::CleanedUp];
    lemma_run_steps_one(s0, RunEventView::Compiled { result: compile });
    let s1 = step_spec(s0, RunEventView::Compiled { result: compile });
    match compile {
        CompileResultView::Failure { diagnostics } => {
            let mid = Seq::<RunEventView>::empty();
            lemma_run_steps_app(s0, first + mid, last);
            lemma_run_steps_app(s0, first, mid);
            assert(run_steps(s1, mid) == s1);
            lemma_run_steps_one(s1, RunEventView::CleanedUp);
        },
        CompileResultView::Success { .. } => {
            let rest = match lookup {
                Ok(_) => case_events(outcomes),
                Err(_) => Seq::<RunEventView>::empty(),
            };
            let mid = seq![RunEventView::Loaded { result: lookup }] + rest;
            lemma_run_steps_app(s0, first + mid, last);
            lemma_run_steps_app(s0, first, mid);
            lemma_run_steps_app(s1, seq![RunEventView::Loaded { result: lookup }], rest);
            lemma_run_steps_one(s1, RunEventView::Loaded { result: lookup });
            let s2 = step_spec(s1, RunEventView::Loaded { result: lookup });
            match lookup {
                Err(cause) => {
                    assert(run_steps(s2, rest) == s2);
                    lemma_run_steps_one(s2, RunEventView::CleanedUp);
                },
                Ok(cases) => {
                    if cases.len() == 0 {
                        assert(rest.len() == 0);
                        assert(run_steps(s2, rest) == s2);
                        assert(verdicts_for(cases, outcomes) =~= Seq::<TestVerdictView>::empty());
                        lemma_run_steps_one(s2, RunEventView::CleanedUp);
                    } else {
                        lemma_executing_runs(ws, cases, Seq::empty(), 0, outcomes);
                        assert(Seq::<TestVerdictView>::empty() + Seq::new(
                            outcomes.len(),
                            |i: int| verdict_for(cases[0 + i], outcomes[i]),
                        ) =~= verdicts_for(cases, outcomes));
                        let s3 = RunStateView::Finalizing {
                            workspace: ws,
                            report: report_of(verdicts_for(cases, outcomes)),
                            error: None,
                        };
                        assert(run_steps(s2, rest) == s3);
                        lemma_run_steps_one(s3, RunEventView::CleanedUp);
                    }
                },
            }
        },
    }
}

/// Every run reports one verdict per stored case whenever compilation
/// succeeded and the question was found, and zero verdicts otherwise.
pub proof fn lemma_verdict_count(
    compile: CompileResultView,
    lookup: Result<Seq<TestCaseView>, StoreErrorView>,
    outcomes: Seq<ExecutionOutcomeView>,
)
    ensures
        match lookup {
            Ok(cases) => (compile matches CompileResultView::Success { .. }) ==> run_report(
                compile,
                lookup,
                outcomes,
            ).0.verdicts.len() == cases.len(),
            Err(_) => run_report(compile, lookup, outcomes).0.verdicts.len() == 0,
        },
        (compile matches CompileResultView::Failure { .. }) ==> run_report(
            compile,
            lookup,
            outcomes,
        ).0.verdicts.len() == 0,
{
}

/// Verdict order equals test-case order: the i-th verdict of a graded run
/// is the i-th stored case's, judged by that case's own outcome, with that
/// case's description — no reordering and no deduplication.
pub proof fn lemma_verdict_order(
    compile: CompileResultView,
    lookup: Result<Seq<TestCaseView>, StoreErrorView>,
    outcomes: Seq<ExecutionOutcomeView>,
    i: int,
)
    ensures
        match lookup {
            Ok(cases) => (compile matches CompileResultView::Success { .. }) ==> 0 <= i
                < cases.len() ==> run_report(compile, lookup, outcomes).0.verdicts[i]
                == verdict_for(cases[i], outcomes[i]) && run_report(
                compile,
                lookup,
                outcomes,
            ).0.verdicts[i].description == cases[i].description,
            Err(_) => true,
        },
{
}

/// However a run ends, `passed_count` never exceeds `total_count`: the
/// report of every whole run is well formed.
pub proof fn lemma_run_report_wf(
    compile: CompileResultView,
    lookup: Result<Seq<TestCaseView>, StoreErrorView>,
    outcomes: Seq<ExecutionOutcomeView>,
)
    ensures
        report_wf(run_report(compile, lookup, outcomes).0),
        run_report(compile, lookup, outcomes).0.passed_count <= run_report(
            compile,
            lookup,
            outcomes,
        ).0.total_count,
{
    crate::report::lemma_passed_le_total(run_report(compile, lookup, outcomes).0);
}

/// Grading is deterministic: two runs fed the same compile result, the same
/// stored cases and the same execution outcomes — the same submission
/// against the same store state, with a deterministic submitted program —
/// report the same verdicts, the same counts and the same run-level error.
pub proof fn lemma_grading_idempotent(
    compile1: CompileResultView,
    lookup1: Result<Seq<TestCaseView>, StoreErrorView>,
    outcomes1: Seq<ExecutionOutcomeView>,
    compile2: CompileResultView,
    lookup2: Result<Seq<TestCaseView>, StoreErrorView>,
    outcomes2: Seq<ExecutionOutcomeView>,
)
    requires
        compile1 == compile2,
        lookup1 == lookup2,
        outcomes1 == outcomes2,
    ensures
        run_report(compile1, lookup1, outcomes1) == run_report(compile2, lookup2, outcomes2),
{
}

/// The workspace a state still holds on to; only a finished run holds none.
pub open spec fn state_workspace(s: RunStateView) -> Option<WorkspaceView> {
    match s {
        RunStateView::Compiling { workspace, .. } => Some(workspace),
        RunStateView::Loading { workspace, .. } => Some(workspace),
        RunStateView::Executing { workspace, .. } => Some(workspace),
        RunStateView::Finalizing { workspace, .. } => Some(workspace),
        RunStateView::Done { .. } => None,
    }
}

/// A step reaches `Done` only from `Finalizing`, whose pending action is the
/// cleanup of the run's own workspace; every other step keeps the workspace.
pub proof fn lemma_step_guards_cleanup(s: RunStateView, e: RunEventView)
    ensures
        (step_spec(s, e) matches RunStateView::Done { .. }) ==> (s matches RunStateView::Finalizing {
            ..
        }) || (s matches RunStateView::Done { .. }),
        !(step_spec(s, e) matches RunStateView::Done { .. }) ==> state_workspace(step_spec(s, e))
            == state_workspace(s),
        s matches RunStateView::Finalizing { workspace, .. } ==> action_spec(s)
            == (RunActionView::Cleanup {
            source_path: workspace.source_path,
            artifact_path: workspace.artifact_path,
        }),
{
}

/// Every trace that ends a run passes through a state whose demanded action
/// is the removal of that run's source file and artifact: no run reports
/// without first asking for its workspace to be cleaned, whether it
/// succeeded, failed to compile, or failed case by case.
pub proof fn lemma_cleanup_before_report(
    s: RunStateView,
    ws: WorkspaceView,
    events: Seq<RunEventView>,
)
    requires
        state_workspace(s) == Some(ws),
        run_steps(s, events) matches RunStateView::Done { .. },
    ensures
        exists|i: int|
            0 <= i < events.len() && action_spec(run_steps(s, events.take(i)))
                == (RunActionView::Cleanup {
                source_path: ws.source_path,
                artifact_path: ws.artifact_path,
            }),
    decreases events.len(),
{
    if s matches RunStateView::Finalizing { .. } {
        assert(events.len() > 0);
        assert(events.take(0) =~= Seq::<RunEventView>::empty());
        assert(run_steps(s, events.take(0)) == s);
        assert(action_spec(run_steps(s, events.take(0))) == (RunActionView::Cleanup {
            source_path: ws.source_path,
            artifact_path: ws.artifact_path,
        }));
    } else {
        assert(events.len() > 0);
        let s1 = step_spec(s, events[0]);
        lemma_step_guards_cleanup(s, events[0]);
        assert(!(s1 matches RunStateView::Done { .. }));
        assert(state_workspace(s1) == Some(ws));
        lemma_cleanup_before_report(s1, ws, events.drop_first());
        let i1 = choose|i: int|
            0 <= i < events.drop_first().len() && action_spec(
                run_steps(s1, events.drop_first().take(i)),
            ) == (RunActionView::Cleanup {
                source_path: ws.source_path,
                artifact_path: ws.artifact_path,
            });
        assert(events.take(i1 + 1).drop_first() =~= events.drop_first().take(i1));
        assert(run_steps(s, events.take(i1 + 1)) == run_steps(s1, events.drop_first().take(i1)));
        assert(action_spec(run_steps(s, events.take(i1 + 1))) == (RunActionView::Cleanup {
            source_path: ws.source_path,
            artifact_path: ws.artifact_path,
        }));
    }
}

/// Returns the outside work the run is waiting for.
pub fn action(s: &RunState) -> (a: RunAction)
    requires
        state_wf(s@),
    ensures
        a@ == action_spec(s@),
{
    match s {
        RunState::Compiling { workspace, submission } => RunAction::Compile {
            source_text: submission.source_text.clone(),
            source_path: workspace.source_path.clone(),
            artifact_path: workspace.artifact_path.clone(),
        },
        RunState::Loading { workspace: _, question_id } => RunAction::LoadCases {
            question_id: question_id.clone(),
        },
        RunState::Executing { workspace, cases, verdicts: _, next } => RunAction::RunCase {
            artifact_path: workspace.artifact_path.clone(),
            input: cases[*next].input.clone(),
        },
        RunState::Finalizing { workspace, report: _, error: _ } => RunAction::Cleanup {
            source_path: workspace.source_path.clone(),
            artifact_path: workspace.artifact_path.clone(),
        },
        RunState::Done { report: _, error: _ } => RunAction::Report,
    }
}

} // verus!
