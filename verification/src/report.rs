//! The problems that cleaning a file could not repair, and the report that
//! lists them in the order in which they were found.

use vstd::prelude::*;
use vstd::string::StringExecFns;
use crate::text::{decimal, push_decimal, text_views};
use crate::validator::ColumnMismatch;

verus! {

/// One problem met while a file was cleaned.
#[derive(Clone, Debug)]
pub enum Problem {
    /// The input file could not be opened.
    Open { reason: String },
    /// A line could not be read; it is missing from the output.
    Read { line_number: u64, reason: String },
    /// A row has another number of fields than the header; it is missing
    /// from the output.
    Mismatch(ColumnMismatch),
    /// A cleaned line could not be written.
    Write { line_number: u64, reason: String },
    /// The output could not be flushed at the end.
    Flush { reason: String },
}

/// A problem as plain values.
pub enum ProblemView {
    Open { reason: Seq<char> },
    Read { line_number: nat, reason: Seq<char> },
    Mismatch { line_number: nat, expected: nat, actual: nat },
    Write { line_number: nat, reason: Seq<char> },
    Flush { reason: Seq<char> },
}

impl View for Problem {
    type V = ProblemView;

    open spec fn view(&self) -> ProblemView {
        match *self {
            Problem::Open { reason } => ProblemView::Open { reason: reason@ },
            Problem::Read { line_number, reason } => ProblemView::Read {
                line_number: line_number as nat,
                reason: reason@,
            },
            Problem::Mismatch(mismatch) => ProblemView::Mismatch {
                line_number: mismatch.line_number as nat,
                expected: mismatch.expected as nat,
                actual: mismatch.actual as nat,
            },
            Problem::Write { line_number, reason } => ProblemView::Write {
                line_number: line_number as nat,
                reason: reason@,
            },
            Problem::Flush { reason } => ProblemView::Flush { reason: reason@ },
        }
    }
}

/// The start of the description of a problem with one line: the file and the
/// number of the line.
pub open spec fn line_heading(file: Seq<char>, line_number: nat) -> Seq<char> {
    file + ", line "@ + decimal(line_number) + ": "@
}

/// The sentence that describes `problem` in the file named `file`. It names
/// the file, the line where there is one, and the reason.
pub open spec fn description(file: Seq<char>, problem: ProblemView) -> Seq<char> {
    match problem {
        ProblemView::Open { reason } => "Couldn't open file "@ + file + " due to "@ + reason,
        ProblemView::Read { line_number, reason } => line_heading(file, line_number)
            + "couldn't read the line due to "@ + reason,
        ProblemView::Mismatch { line_number, expected, actual } => line_heading(file, line_number)
            + "expected "@ + decimal(expected) + " columns but found "@ + decimal(actual),
        ProblemView::Write { line_number, reason } => line_heading(file, line_number)
            + "couldn't write the line due to "@ + reason,
        ProblemView::Flush { reason } => "Couldn't flush the output of "@ + file + " due to "@
            + reason,
    }
}

/// Starts the description of a problem with one line.
fn heading(file: &str, line_number: u64) -> (text: String)
    ensures
        text@ == line_heading(file@, line_number as nat),
{
    let mut text = String::from_str(file);
    text.append(", line ");
    push_decimal(line_number, &mut text);
    text.append(": ");
    text
}

impl Problem {
    /// Whether the problem is a row with the wrong number of fields.
    pub fn is_mismatch(&self) -> (b: bool)
        ensures
            b == (self@ is Mismatch),
    {
        match self {
            Problem::Mismatch(_) => true,
            _ => false,
        }
    }

    /// Whether the problem is a line that could not be read.
    pub fn is_read_error(&self) -> (b: bool)
        ensures
            b == (self@ is Read),
    {
        match self {
            Problem::Read { .. } => true,
            _ => false,
        }
    }

    /// The number of the line that the problem is about, where it is about
    /// one line.
    pub fn line_number(&self) -> (line_number: Option<u64>)
        ensures
            line_number == match self@ {
                ProblemView::Read { line_number, .. } => Some(line_number as u64),
                ProblemView::Mismatch { line_number, .. } => Some(line_number as u64),
                ProblemView::Write { line_number, .. } => Some(line_number as u64),
                _ => None,
            },
    {
        match self {
            Problem::Read { line_number, .. } => Some(*line_number),
            Problem::Mismatch(mismatch) => Some(mismatch.line_number),
            Problem::Write { line_number, .. } => Some(*line_number),
            _ => None,
        }
    }

    /// Describes the problem in a sentence, for the file named `file`.
    pub fn describe(&self, file: &str) -> (text: String)
        ensures
            text@ == description(file@, self@),
    {
        match self {
            Problem::Open { reason } => {
                let mut text = String::from_str("Couldn't open file ");
                text.append(file);
                text.append(" due to ");
                text.append(reason.as_str());
                text
            },
            Problem::Read { line_number, reason } => {
                let mut text = heading(file, *line_number);
                text.append("couldn't read the line due to ");
                text.append(reason.as_str());
                text
            },
            Problem::Mismatch(mismatch) => {
                let mut text = heading(file, mismatch.line_number);
                text.append("expected ");
                push_decimal(mismatch.expected as u64, &mut text);
                text.append(" columns but found ");
                push_decimal(mismatch.actual as u64, &mut text);
                text
            },
            Problem::Write { line_number, reason } => {
                let mut text = heading(file, *line_number);
                text.append("couldn't write the line due to ");
                text.append(reason.as_str());
                text
            },
            Problem::Flush { reason } => {
                let mut text = String::from_str("Couldn't flush the output of ");
                text.append(file);
                text.append(" due to ");
                text.append(reason.as_str());
                text
            },
        }
    }
}

/// How many of `problems` are rows with the wrong number of fields.
pub open spec fn count_mismatches(problems: Seq<ProblemView>) -> nat
    decreases problems.len(),
{
    if problems.len() == 0 {
        0
    } else {
        count_mismatches(problems.drop_last()) + if problems.last() is Mismatch {
            1nat
        } else {
            0nat
        }
    }
}

/// How many of `problems` are lines that could not be read.
pub open spec fn count_read_errors(problems: Seq<ProblemView>) -> nat
    decreases problems.len(),
{
    if problems.len() == 0 {
        0
    } else {
        count_read_errors(problems.drop_last()) + if problems.last() is Read {
            1nat
        } else {
            0nat
        }
    }
}

/// The problems of a list, as plain values.
pub open spec fn problem_views(problems: Seq<Problem>) -> Seq<ProblemView> {
    problems.map_values(|problem: Problem| problem@)
}

/// A report as plain values: the name of the file and its problems in the
/// order in which they were found.
pub struct ReportView {
    pub file: Seq<char>,
    pub problems: Seq<ProblemView>,
}

impl ReportView {
    /// The sentences of the report, one for each problem.
    pub open spec fn messages(self) -> Seq<Seq<char>> {
        self.problems.map_values(|problem: ProblemView| description(self.file, problem))
    }
}

/// The problems of one file, in the order in which they were found. A report
/// is handed out when the file is done and cannot be changed afterwards.
#[derive(Clone, Debug)]
pub struct FileCleaningReport {
    file: String,
    problems: Vec<Problem>,
}

impl View for FileCleaningReport {
    type V = ReportView;

    closed spec fn view(&self) -> ReportView {
        ReportView { file: self.file@, problems: problem_views(self.problems@) }
    }
}

impl FileCleaningReport {
    /// The report on the file named `file` with the given problems.
    pub(crate) fn new(file: String, problems: Vec<Problem>) -> (report: FileCleaningReport)
        ensures
            report@ == (ReportView { file: file@, problems: problem_views(problems@) }),
    {
        FileCleaningReport { file, problems }
    }

    /// The name of the file that the report is about.
    pub fn file(&self) -> (file: &str)
        ensures
            file@ == self@.file,
    {
        self.file.as_str()
    }

    /// The problems, in the order in which they were found.
    pub fn problems(&self) -> (problems: &Vec<Problem>)
        ensures
            problem_views(problems@) == self@.problems,
    {
        &self.problems
    }

    /// Whether the file was cleaned without a problem.
    pub fn is_empty(&self) -> (empty: bool)
        ensures
            empty == (self@.problems.len() == 0),
    {
        self.problems.len() == 0
    }

    /// The number of problems.
    pub fn len(&self) -> (len: usize)
        ensures
            len == self@.problems.len(),
    {
        self.problems.len()
    }

    /// The sentences of the report, one for each problem, in order.
    pub fn messages(&self) -> (messages: Vec<String>)
        ensures
            text_views(messages@) == self@.messages(),
    {
        let mut messages: Vec<String> = Vec::new();
        let mut i: usize = 0;
        while i < self.problems.len()
            invariant
                i <= self.problems.len(),
                messages.len() == i,
                forall|j: int|
                    0 <= j < i ==> messages[j]@ == description(self.file@, self.problems[j]@),
            decreases self.problems.len() - i,
        {
            let text = self.problems[i].describe(self.file.as_str());
            messages.push(text);
            i = i + 1;
        }
        assert(text_views(messages@) =~= self@.messages());
        messages
    }
}

} // verus!
