//! Whole-run scenarios, driven through the harness state machine.

use autograder::compile::CompileResult;
use autograder::harness::{
    rocket, step, action, ExecutionOutcome, RunAction, RunError, RunEvent, RunState, Submission,
};
use autograder::report::TestCase;
use autograder::store::StoreError;
use autograder::workspace::Workspace;

fn submission(source: &str, question: &str) -> Submission {
    Submission {
        source_text: source.to_string(),
        question_id: question.to_string(),
    }
}

fn case(description: &str, input: &str, expected: &str) -> TestCase {
    TestCase {
        description: description.to_string(),
        input: input.to_string(),
        expected_output: expected.to_string(),
    }
}

fn start(question: &str) -> RunState {
    let workspace = Workspace::create("tempfiles");
    rocket(
        workspace,
        submission(
            "int main(){int a,b;scanf(\"%d %d\",&a,&b);printf(\"Result: %d\\n\",a+b);}",
            question,
        ),
    )
}

#[test]
fn scenario_sum_program_passes() {
    let mut s = start("q1");
    match action(&s) {
        RunAction::Compile { source_text, .. } => {
            assert!(source_text.contains("scanf"));
        }
        _ => panic!("expected a compile action first"),
    }
    s = step(
        s,
        RunEvent::Compiled {
            result: CompileResult::Success {
                artifact_path: "tempfiles/x".to_string(),
            },
        },
    );
    match action(&s) {
        RunAction::LoadCases { question_id } => assert_eq!(question_id, "q1"),
        _ => panic!("expected a load action after a successful compile"),
    }
    s = step(
        s,
        RunEvent::Loaded {
            result: Ok(vec![case("adds two numbers", "5 3", "8")]),
        },
    );
    match action(&s) {
        RunAction::RunCase { input, .. } => assert_eq!(input, "5 3"),
        _ => panic!("expected the first case to run"),
    }
    s = step(
        s,
        RunEvent::CaseRun {
            outcome: ExecutionOutcome::Completed {
                stdout: "Result: 8\n".to_string(),
                exit_code: 0,
            },
        },
    );
    assert!(matches!(action(&s), RunAction::Cleanup { .. }));
    s = step(s, RunEvent::CleanedUp);
    assert!(matches!(action(&s), RunAction::Report));
    match s {
        RunState::Done { report, error } => {
            assert!(error.is_none());
            assert_eq!(report.total_count, 1);
            assert_eq!(report.passed_count, 1);
            assert_eq!(report.verdicts.len(), 1);
            let v = &report.verdicts[0];
            assert!(v.passed);
            assert_eq!(v.description, "adds two numbers");
            assert!(v.actual_output.contains("8"));
            assert_eq!(v.actual_output, "Result: 8");
            assert!(v.note.is_none());
        }
        _ => panic!("run did not finish"),
    }
}

#[test]
fn scenario_compile_error_means_zero_verdicts() {
    let mut s = start("q1");
    s = step(
        s,
        RunEvent::Compiled {
            result: CompileResult::Failure {
                diagnostics: "main.c:1: error: expected ';'".to_string(),
            },
        },
    );
    // No test case is ever executed: the run goes straight to cleanup.
    assert!(matches!(action(&s), RunAction::Cleanup { .. }));
    s = step(s, RunEvent::CleanedUp);
    match s {
        RunState::Done { report, error } => {
            assert_eq!(report.verdicts.len(), 0);
            assert_eq!(report.total_count, 0);
            assert_eq!(report.passed_count, 0);
            match error {
                Some(RunError::CompileError { diagnostics }) => {
                    assert!(!diagnostics.is_empty());
                }
                _ => panic!("expected a compile error"),
            }
        }
        _ => panic!("run did not finish"),
    }
}

#[test]
fn scenario_unknown_question_means_lookup_error() {
    let mut s = start("q99");
    s = step(
        s,
        RunEvent::Compiled {
            result: CompileResult::Success {
                artifact_path: "tempfiles/x".to_string(),
            },
        },
    );
    s = step(
        s,
        RunEvent::Loaded {
            result: Err(StoreError::NotFound),
        },
    );
    assert!(matches!(action(&s), RunAction::Cleanup { .. }));
    s = step(s, RunEvent::CleanedUp);
    match s {
        RunState::Done { report, error } => {
            assert_eq!(report.verdicts.len(), 0);
            assert!(matches!(
                error,
                Some(RunError::LookupError {
                    cause: StoreError::NotFound
                })
            ));
        }
        _ => panic!("run did not finish"),
    }
}

#[test]
fn scenario_silent_program_fails_case() {
    let mut s = start("q1");
    s = step(
        s,
        RunEvent::Compiled {
            result: CompileResult::Success {
                artifact_path: "tempfiles/x".to_string(),
            },
        },
    );
    s = step(
        s,
        RunEvent::Loaded {
            result: Ok(vec![case("prints the answer", "", "42")]),
        },
    );
    s = step(
        s,
        RunEvent::CaseRun {
            outcome: ExecutionOutcome::Completed {
                stdout: String::new(),
                exit_code: 0,
            },
        },
    );
    s = step(s, RunEvent::CleanedUp);
    match s {
        RunState::Done { report, error } => {
            assert!(error.is_none());
            assert_eq!(report.total_count, 1);
            assert_eq!(report.passed_count, 0);
            let v = &report.verdicts[0];
            assert!(!v.passed);
            assert_eq!(v.actual_output, "");
        }
        _ => panic!("run did not finish"),
    }
}

#[test]
fn scenario_missing_launcher_fails_every_case_but_finishes() {
    let mut s = start("q1");
    s = step(
        s,
        RunEvent::Compiled {
            result: CompileResult::Success {
                artifact_path: "tempfiles/x".to_string(),
            },
        },
    );
    s = step(
        s,
        RunEvent::Loaded {
            result: Ok(vec![
                case("first", "1", "1"),
                case("second", "2", "2"),
                case("third", "3", "3"),
            ]),
        },
    );
    for _ in 0..3 {
        s = step(
            s,
            RunEvent::CaseRun {
                outcome: ExecutionOutcome::SpawnError {
                    message: "No such file or directory (os error 2)".to_string(),
                },
            },
        );
    }
    s = step(s, RunEvent::CleanedUp);
    match s {
        RunState::Done { report, error } => {
            assert!(error.is_none());
            assert_eq!(report.verdicts.len(), 3);
            assert_eq!(report.total_count, 3);
            assert_eq!(report.passed_count, 0);
            for v in &report.verdicts {
                assert!(!v.passed);
                let note = v.note.as_ref().expect("a spawn failure leaves a note");
                assert!(note.contains("No such file or directory"));
            }
            assert_eq!(report.verdicts[0].description, "first");
            assert_eq!(report.verdicts[1].description, "second");
            assert_eq!(report.verdicts[2].description, "third");
        }
        _ => panic!("run did not finish"),
    }
}

#[test]
fn verdicts_keep_case_order_with_mixed_outcomes() {
    let mut s = start("q1");
    s = step(
        s,
        RunEvent::Compiled {
            result: CompileResult::Success {
                artifact_path: "tempfiles/x".to_string(),
            },
        },
    );
    s = step(
        s,
        RunEvent::Loaded {
            result: Ok(vec![
                case("passes", "a", "ok"),
                case("times out", "b", "ok"),
                case("io fails", "c", "ok"),
            ]),
        },
    );
    s = step(
        s,
        RunEvent::CaseRun {
            outcome: ExecutionOutcome::Completed {
                stdout: "ok".to_string(),
                exit_code: 0,
            },
        },
    );
    s = step(
        s,
        RunEvent::CaseRun {
            outcome: ExecutionOutcome::Timeout,
        },
    );
    s = step(
        s,
        RunEvent::CaseRun {
            outcome: ExecutionOutcome::IoError {
                message: "Broken pipe (os error 32)".to_string(),
            },
        },
    );
    s = step(s, RunEvent::CleanedUp);
    match s {
        RunState::Done { report, .. } => {
            assert_eq!(report.total_count, 3);
            assert_eq!(report.passed_count, 1);
            assert_eq!(report.verdicts[0].description, "passes");
            assert!(report.verdicts[0].passed);
            assert_eq!(report.verdicts[1].description, "times out");
            assert_eq!(
                report.verdicts[1].note.as_deref(),
                Some("time limit exceeded")
            );
            assert_eq!(report.verdicts[2].description, "io fails");
            assert_eq!(
                report.verdicts[2].note.as_deref(),
                Some("Broken pipe (os error 32)")
            );
        }
        _ => panic!("run did not finish"),
    }
}

#[test]
fn empty_case_list_yields_empty_report() {
    let mut s = start("q1");
    s = step(
        s,
        RunEvent::Compiled {
            result: CompileResult::Success {
                artifact_path: "tempfiles/x".to_string(),
            },
        },
    );
    s = step(s, RunEvent::Loaded { result: Ok(vec![]) });
    assert!(matches!(action(&s), RunAction::Cleanup { .. }));
    s = step(s, RunEvent::CleanedUp);
    match s {
        RunState::Done { report, error } => {
            assert!(error.is_none());
            assert_eq!(report.total_count, 0);
            assert_eq!(report.passed_count, 0);
        }
        _ => panic!("run did not finish"),
    }
}

#[test]
fn identical_runs_report_identically() {
    let run = || {
        let workspace = Workspace {
            id: "0".repeat(36),
            dir: "tempfiles".to_string(),
            source_path: format!("tempfiles/{}.c", "0".repeat(36)),
            artifact_path: format!("tempfiles/{}", "0".repeat(36)),
        };
        let mut s = rocket(workspace, submission("int main(){}", "q1"));
        s = step(
            s,
            RunEvent::Compiled {
                result: CompileResult::Success {
                    artifact_path: "tempfiles/x".to_string(),
                },
            },
        );
        s = step(
            s,
            RunEvent::Loaded {
                result: Ok(vec![case("a", "1", "one"), case("b", "2", "two")]),
            },
        );
        s = step(
            s,
            RunEvent::CaseRun {
                outcome: ExecutionOutcome::Completed {
                    stdout: "one".to_string(),
                    exit_code: 0,
                },
            },
        );
        s = step(
            s,
            RunEvent::CaseRun {
                outcome: ExecutionOutcome::Completed {
                    stdout: "wrong".to_string(),
                    exit_code: 0,
                },
            },
        );
        s = step(s, RunEvent::CleanedUp);
        match s {
            RunState::Done { report, .. } => report,
            _ => panic!("run did not finish"),
        }
    };
    assert_eq!(run(), run());
}
