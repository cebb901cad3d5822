//! Locating the server executable among the places where it may be installed,
//! and reporting what was found there.

use crate::error::{Error, ErrorView};
use vstd::prelude::*;
use vstd::string::StringExecFns;

verus! {

/// The file name of the server executable on this kind of system.
pub fn binary_name(windows: bool) -> (name: &'static str)
    ensures
        name@ == (if windows {
            "rustfs.exe"@
        } else {
            "rustfs"@
        }),
{
    if windows {
        "rustfs.exe"
    } else {
        "rustfs"
    }
}

/// One place where the executable was looked for, and what was seen there.
#[derive(Debug, Clone, PartialEq, Eq)]
pub struct BinaryCandidate {
    /// The full path that was examined.
    pub path: String,
    /// Whether a file is at that path.
    pub exists: bool,
    /// Whether that file may be executed.
    pub executable: bool,
}

/// A [`BinaryCandidate`] with its path as a character sequence.
pub ghost struct CandidateView {
    pub path: Seq<char>,
    pub exists: bool,
    pub executable: bool,
}

impl View for BinaryCandidate {
    type V = CandidateView;

    open spec fn view(&self) -> CandidateView {
        CandidateView { path: self.path@, exists: self.exists, executable: self.executable }
    }
}

/// The views of a list of candidates, in order.
pub open spec fn candidate_views(candidates: Seq<BinaryCandidate>) -> Seq<CandidateView> {
    candidates.map_values(|c: BinaryCandidate| c@)
}

/// Whether the file at a candidate's path can be run.
pub open spec fn usable(candidate: CandidateView) -> bool {
    candidate.exists && candidate.executable
}

/// The position of the first usable candidate at or after `from`, if any.
pub open spec fn first_usable_from(candidates: Seq<CandidateView>, from: int) -> Option<int>
    decreases candidates.len() - from,
{
    if from < 0 || from >= candidates.len() {
        None
    } else if usable(candidates[from]) {
        Some(from)
    } else {
        first_usable_from(candidates, from + 1)
    }
}

/// The position of the first usable candidate, if any.
pub open spec fn first_usable(candidates: Seq<CandidateView>) -> Option<int> {
    first_usable_from(candidates, 0)
}

/// `first_usable_from` finds the least usable position at or after `from`, and
/// finds none exactly where none is usable.
pub proof fn lemma_first_usable_from(candidates: Seq<CandidateView>, from: int)
    requires
        0 <= from <= candidates.len(),
    ensures
        match first_usable_from(candidates, from) {
            Some(i) => {
                &&& from <= i < candidates.len()
                &&& usable(candidates[i])
                &&& forall|k: int| from <= k < i ==> !usable(#[trigger] candidates[k])
            },
            None => forall|k: int| from <= k < candidates.len() ==> !usable(#[trigger] candidates[k]),
        },
    decreases candidates.len() - from,
{
    if from < candidates.len() && !usable(candidates[from]) {
        lemma_first_usable_from(candidates, from + 1);
    }
}

/// What the report says of one candidate's file.
pub open spec fn status_text(candidate: CandidateView) -> Seq<char> {
    if !candidate.exists {
        "not found"@
    } else if !candidate.executable {
        "found, not executable"@
    } else {
        "found, executable"@
    }
}

/// The report's line for one candidate, with its line end.
pub open spec fn candidate_line(candidate: CandidateView) -> Seq<char> {
    "  "@ + candidate.path + ": "@ + status_text(candidate) + "\n"@
}

/// The report's lines for `candidates`, in order.
pub open spec fn candidate_lines(candidates: Seq<CandidateView>) -> Seq<char>
    decreases candidates.len(),
{
    if candidates.len() == 0 {
        Seq::<char>::empty()
    } else {
        candidate_lines(candidates.drop_last()) + candidate_line(candidates.last())
    }
}

/// The report's closing line: which candidate will be run, if any.
pub open spec fn verdict_line(candidates: Seq<CandidateView>) -> Seq<char> {
    match first_usable(candidates) {
        Some(i) => "Using: "@ + candidates[i].path,
        None => "No usable RustFS binary found"@,
    }
}

/// The whole diagnostic report: a heading, one line per candidate in the
/// order examined, and the verdict.
pub open spec fn diagnostic_report(candidates: Seq<CandidateView>) -> Seq<char> {
    "RustFS binary diagnostic\n"@ + candidate_lines(candidates) + verdict_line(candidates)
}

/// The position of the first candidate that exists and may be executed.
pub fn find_usable(candidates: &Vec<BinaryCandidate>) -> (found: Option<usize>)
    ensures
        match found {
            Some(i) => first_usable(candidate_views(candidates@)) == Some(i as int),
            None => first_usable(candidate_views(candidates@)) is None,
        },
{
    let ghost views = candidate_views(candidates@);
    let n: usize = candidates.len();
    let mut i: usize = 0;
    while i < n
        invariant
            n == candidates@.len(),
            views == candidate_views(candidates@),
            i <= n,
            first_usable(views) == first_usable_from(views, i as int),
        decreases n - i,
    {
        if candidates[i].exists && candidates[i].executable {
            return Some(i);
        }
        i = i + 1;
    }
    None
}

/// The path of the executable to run: that of the first usable candidate.
/// Fails with `BinaryNotFound` exactly where no candidate is usable.
pub fn resolve_binary(candidates: &Vec<BinaryCandidate>) -> (resolved: Result<String, Error>)
    ensures
        match first_usable(candidate_views(candidates@)) {
            Some(i) => resolved is Ok && resolved->Ok_0@ == candidates@[i].path@,
            None => resolved is Err && resolved->Err_0@ == ErrorView::BinaryNotFound,
        },
{
    proof {
        lemma_first_usable_from(candidate_views(candidates@), 0);
    }
    match find_usable(candidates) {
        Some(i) => Ok(candidates[i].path.clone()),
        None => Err(Error::BinaryNotFound),
    }
}

/// Describes every place that was examined and what will be run. That no
/// candidate is usable is a finding that the report states, not a failure.
pub fn diagnose(candidates: &Vec<BinaryCandidate>) -> (report: String)
    ensures
        report@ == diagnostic_report(candidate_views(candidates@)),
{
    let ghost views = candidate_views(candidates@);
    let mut report = String::from_str("RustFS binary diagnostic\n");
    let n: usize = candidates.len();
    let mut i: usize = 0;
    while i < n
        invariant
            n == candidates@.len(),
            views == candidate_views(candidates@),
            i <= n,
            report@ == "RustFS binary diagnostic\n"@ + candidate_lines(views.take(i as int)),
        decreases n - i,
    {
        let candidate = &candidates[i];
        report.append("  ");
        report.append(candidate.path.as_str());
        report.append(": ");
        if !candidate.exists {
            report.append("not found");
        } else if !candidate.executable {
            report.append("found, not executable");
        } else {
            report.append("found, executable");
        }
        report.append("\n");
        proof {
            assert(views.take(i + 1).drop_last() =~= views.take(i as int));
        }
        i = i + 1;
    }
    proof {
        assert(views.take(n as int) =~= views);
        lemma_first_usable_from(views, 0);
    }
    match find_usable(candidates) {
        Some(k) => {
            report.append("Using: ");
            report.append(candidates[k].path.as_str());
        },
        None => {
            report.append("No usable RustFS binary found");
        },
    }
    report
}

} // verus!
