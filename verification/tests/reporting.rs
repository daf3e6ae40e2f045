//! Report aggregation and the percentage computation.

use autograder::report::{percentage_hundredths, report_from, TestVerdict};

fn verdict(passed: bool) -> TestVerdict {
    TestVerdict {
        description: "d".to_string(),
        passed,
        actual_output: String::new(),
        expected_output: "x".to_string(),
        note: None,
    }
}

#[test]
fn counts_passed_and_total() {
    let r = report_from(vec![verdict(true), verdict(false), verdict(true)]);
    assert_eq!(r.total_count, 3);
    assert_eq!(r.passed_count, 2);
    assert_eq!(r.verdicts.len(), 3);
    assert!(r.passed_count <= r.total_count);
}

#[test]
fn empty_report_scores_zero_without_dividing() {
    let r = report_from(vec![]);
    assert_eq!(r.total_count, 0);
    assert_eq!(r.passed_count, 0);
    assert_eq!(percentage_hundredths(&r), 0);
}

#[test]
fn percentage_is_exact_in_hundredths() {
    let r = report_from(vec![verdict(true), verdict(false), verdict(false)]);
    // 1 of 3: 33.33 percent, rounded down in hundredths.
    assert_eq!(percentage_hundredths(&r), 3333);
    let all = report_from(vec![verdict(true), verdict(true)]);
    assert_eq!(percentage_hundredths(&all), 10000);
    let none = report_from(vec![verdict(false)]);
    assert_eq!(percentage_hundredths(&none), 0);
    let half = report_from(vec![verdict(true), verdict(false)]);
    assert_eq!(percentage_hundredths(&half), 5000);
}
