//! Deciding the compile step of a run: only a compiler invocation that
//! started, exited cleanly and actually left an artifact behind counts as a
//! success; everything else fails with its diagnostics.

use vstd::prelude::*;

verus! {

/// The result of compiling one submission.
#[derive(Debug, Clone, PartialEq, Eq)]
pub enum CompileResult {
    Success { artifact_path: String },
    Failure { diagnostics: String },
}

/// Mathematical image of a [`CompileResult`].
pub enum CompileResultView {
    Success { artifact_path: Seq<char> },
    Failure { diagnostics: Seq<char> },
}

impl View for CompileResult {
    type V = CompileResultView;

    open spec fn view(&self) -> CompileResultView {
        match self {
            CompileResult::Success { artifact_path } => (CompileResultView::Success {
                artifact_path: artifact_path@,
            }),
            CompileResult::Failure { diagnostics } => (CompileResultView::Failure {
                diagnostics: diagnostics@,
            }),
        }
    }
}

/// What the host observed from invoking the platform C compiler.
#[derive(Debug, Clone, PartialEq, Eq)]
pub enum CompilerInvocation {
    /// The compiler process could not be started at all.
    NotStarted { message: String },
    /// The compiler ran to completion; `exit_ok` is whether it exited with
    /// status zero, `stderr` its diagnostic stream, verbatim.
    Finished { exit_ok: bool, stderr: String },
}

/// Mathematical image of a [`CompilerInvocation`].
pub enum CompilerInvocationView {
    NotStarted { message: Seq<char> },
    Finished { exit_ok: bool, stderr: Seq<char> },
}

impl View for CompilerInvocation {
    type V = CompilerInvocationView;

    open spec fn view(&self) -> CompilerInvocationView {
        match self {
            CompilerInvocation::NotStarted { message } => (CompilerInvocationView::NotStarted {
                message: message@,
            }),
            CompilerInvocation::Finished { exit_ok, stderr } => (CompilerInvocationView::Finished {
                exit_ok: *exit_ok,
                stderr: stderr@,
            }),
        }
    }
}

/// The diagnostic used when the compiler exits cleanly but no artifact file
/// exists: a zero exit status alone does not prove an artifact was produced.
pub open spec fn missing_artifact_note() -> Seq<char> {
    "compiled artifact not found"@
}

/// What the compile step concludes from the invocation's observations.
pub open spec fn compile_decision(
    inv: CompilerInvocationView,
    artifact_path: Seq<char>,
    artifact_exists: bool,
) -> CompileResultView {
    match inv {
        CompilerInvocationView::NotStarted { message } => (CompileResultView::Failure {
            diagnostics: message,
        }),
        CompilerInvocationView::Finished { exit_ok, stderr } => {
            if !exit_ok {
                CompileResultView::Failure { diagnostics: stderr }
            } else if !artifact_exists {
                CompileResultView::Failure { diagnostics: missing_artifact_note() }
            } else {
                CompileResultView::Success { artifact_path }
            }
        },
    }
}

/// Decides the compile step of a run from what the host observed: the
/// invocation's fate, the path the artifact was asked for, and whether a file
/// is present there now.  Success is returned exactly when the compiler
/// started, exited with status zero and the artifact file exists; otherwise
/// the failure carries the compiler's own words.
pub fn judge_compile(inv: CompilerInvocation, artifact_path: &str, artifact_exists: bool) -> (r:
    CompileResult)
    ensures
        r@ == compile_decision(inv@, artifact_path@, artifact_exists),
        (r@ matches CompileResultView::Success { .. }) <==> ((inv@
            matches CompilerInvocationView::Finished { exit_ok: true, .. }) && artifact_exists),
{
    match inv {
        CompilerInvocation::NotStarted { message } => CompileResult::Failure {
            diagnostics: message,
        },
        CompilerInvocation::Finished { exit_ok, stderr } => {
            if !exit_ok {
                CompileResult::Failure { diagnostics: stderr }
            } else if !artifact_exists {
                CompileResult::Failure {
                    diagnostics: String::from_str("compiled artifact not found"),
                }
            } else {
                CompileResult::Success { artifact_path: String::from_str(artifact_path) }
            }
        },
    }
}

} // verus!
