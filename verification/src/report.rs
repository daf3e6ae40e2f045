//! The grading run's data model: test cases, per-case verdicts and the
//! aggregate report.

use vstd::prelude::*;

verus! {

/// One instructor-defined test case: the program is fed `input` on stdin and
/// passes when its (trimmed) stdout contains the trimmed `expected_output`.
#[derive(Debug, Clone, PartialEq, Eq)]
pub struct TestCase {
    pub description: String,
    pub input: String,
    pub expected_output: String,
}

/// Mathematical image of a [`TestCase`].
pub struct TestCaseView {
    pub description: Seq<char>,
    pub input: Seq<char>,
    pub expected_output: Seq<char>,
}

impl View for TestCase {
    type V = TestCaseView;

    open spec fn view(&self) -> TestCaseView {
        TestCaseView {
            description: self.description@,
            input: self.input@,
            expected_output: self.expected_output@,
        }
    }
}

/// The outcome of one test case: whether it passed, what the program printed,
/// what was expected, and, for a case that never ran properly, a note with
/// the infrastructure error.
#[derive(Debug, Clone, PartialEq, Eq)]
pub struct TestVerdict {
    pub description: String,
    pub passed: bool,
    pub actual_output: String,
    pub expected_output: String,
    pub note: Option<String>,
}

/// Mathematical image of a [`TestVerdict`].
pub struct TestVerdictView {
    pub description: Seq<char>,
    pub passed: bool,
    pub actual_output: Seq<char>,
    pub expected_output: Seq<char>,
    pub note: Option<Seq<char>>,
}

impl View for TestVerdict {
    type V = TestVerdictView;

    open spec fn view(&self) -> TestVerdictView {
        TestVerdictView {
            description: self.description@,
            passed: self.passed,
            actual_output: self.actual_output@,
            expected_output: self.expected_output@,
            note: match self.note {
                Some(s) => Some(s@),
                None => None,
            },
        }
    }
}

/// The aggregate result of one grading run: the verdicts in test-case order
/// plus the pass counters.
#[derive(Debug, Clone, PartialEq, Eq)]
pub struct GradeReport {
    pub verdicts: Vec<TestVerdict>,
    pub passed_count: usize,
    pub total_count: usize,
}

/// Mathematical image of a [`GradeReport`].
pub struct GradeReportView {
    pub verdicts: Seq<TestVerdictView>,
    pub passed_count: int,
    pub total_count: int,
}

impl View for GradeReport {
    type V = GradeReportView;

    open spec fn view(&self) -> GradeReportView {
        GradeReportView {
            verdicts: self.verdicts@.map_values(|v: TestVerdict| v@),
            passed_count: self.passed_count as int,
            total_count: self.total_count as int,
        }
    }
}

/// How many of the verdicts passed.
pub open spec fn count_passed(vs: Seq<TestVerdictView>) -> nat
    decreases vs.len(),
{
    if vs.len() == 0 {
        0
    } else {
        count_passed(vs.drop_last()) + if vs.last().passed {
            1nat
        } else {
            0nat
        }
    }
}

/// A well-formed report counts its own verdicts: `total_count` is the number
/// of verdicts and `passed_count` the number of passed ones.
pub open spec fn report_wf(r: GradeReportView) -> bool {
    &&& r.total_count == r.verdicts.len()
    &&& r.passed_count == count_passed(r.verdicts)
}

/// At most every verdict can pass.
pub proof fn lemma_count_passed_le_len(vs: Seq<TestVerdictView>)
    ensures
        count_passed(vs) <= vs.len(),
    decreases vs.len(),
{
    if vs.len() > 0 {
        lemma_count_passed_le_len(vs.drop_last());
    }
}

/// In every well-formed report, `passed_count <= total_count`.
pub proof fn lemma_passed_le_total(r: GradeReportView)
    requires
        report_wf(r),
    ensures
        0 <= r.passed_count <= r.total_count,
{
    lemma_count_passed_le_len(r.verdicts);
}

/// Builds the aggregate report from the verdicts of one run.
pub fn report_from(verdicts: Vec<TestVerdict>) -> (r: GradeReport)
    ensures
        r@.verdicts == verdicts@.map_values(|v: TestVerdict| v@),
        report_wf(r@),
{
    let ghost all = verdicts@.map_values(|v: TestVerdict| v@);
    let total: usize = verdicts.len();
    let mut passed: usize = 0;
    let mut i: usize = 0;
    while i < total
        invariant
            0 <= i <= total,
            total == verdicts@.len(),
            all == verdicts@.map_values(|v: TestVerdict| v@),
            passed == count_passed(all.subrange(0, i as int)),
            passed <= i,
        decreases total - i,
    {
        proof {
            assert(all.subrange(0, i + 1).drop_last() =~= all.subrange(0, i as int));
            assert(all.subrange(0, i + 1).last() == verdicts@[i as int]@);
        }
        if verdicts[i].passed {
            passed = passed + 1;
        }
        i = i + 1;
    }
    proof {
        assert(all.subrange(0, total as int) =~= all);
    }
    GradeReport { verdicts, passed_count: passed, total_count: total }
}

/// The run's percentage of passed cases, in hundredths of a percent
/// (10000 means every case passed).  A report with no cases scores 0 rather
/// than dividing by zero.
pub fn percentage_hundredths(r: &GradeReport) -> (p: u32)
    requires
        report_wf(r@),
    ensures
        r@.total_count == 0 ==> p == 0,
        r@.total_count > 0 ==> p == r@.passed_count * 10000 / r@.total_count,
        p <= 10000,
{
    proof {
        lemma_passed_le_total(r@);
    }
    if r.total_count == 0 {
        0
    } else {
        let num: u128 = (r.passed_count as u128) * 10000;
        let den: u128 = r.total_count as u128;
        let q: u128 = num / den;
        proof {
            let pc = r@.passed_count;
            let tc = r@.total_count;
            assert(pc * 10000 <= tc * 10000) by (nonlinear_arith)
                requires
                    0 <= pc <= tc,
            ;
            assert(tc * 10000 / tc == 10000) by (nonlinear_arith)
                requires
                    tc > 0,
            ;
            vstd::arithmetic::div_mod::lemma_div_is_ordered(pc * 10000, tc * 10000, tc);
        }
        q as u32
    }
}

} // verus!
