//! A run over the files of a directory: what ends it early, and the list of
//! unsolved problems that is shown at its end.

use vstd::prelude::*;
use vstd::string::StringExecFns;
use crate::text::text_views;
use crate::report::FileCleaningReport;

verus! {

/// What ends a run before all files are cleaned.
#[derive(Clone, Debug)]
pub enum RunError {
    /// The input directory is missing or cannot be read. No file was
    /// cleaned.
    DirectoryNotFound { path: String },
    /// Listing the files of the input directory failed on the way.
    DirectoryIteration { path: String, reason: String },
    /// The output directory could not be made.
    OutputDirectory { path: String, reason: String },
}

/// A [`RunError`] as plain values.
pub enum RunErrorView {
    DirectoryNotFound { path: Seq<char> },
    DirectoryIteration { path: Seq<char>, reason: Seq<char> },
    OutputDirectory { path: Seq<char>, reason: Seq<char> },
}

impl View for RunError {
    type V = RunErrorView;

    open spec fn view(&self) -> RunErrorView {
        match *self {
            RunError::DirectoryNotFound { path } => RunErrorView::DirectoryNotFound { path: path@ },
            RunError::DirectoryIteration { path, reason } => RunErrorView::DirectoryIteration {
                path: path@,
                reason: reason@,
            },
            RunError::OutputDirectory { path, reason } => RunErrorView::OutputDirectory {
                path: path@,
                reason: reason@,
            },
        }
    }
}

/// The one sentence that tells the operator why the run ended.
pub open spec fn diagnostic(error: RunErrorView) -> Seq<char> {
    match error {
        RunErrorView::DirectoryNotFound { path } => {
            "Could not find the input directory specified at "@ + path
        },
        RunErrorView::DirectoryIteration { path, reason } => {
            "Some io error occurred during iteration of the files in the directory "@ + path
                + ": "@ + reason
        },
        RunErrorView::OutputDirectory { path, reason } => {
            "Could not create the output directory "@ + path + " due to "@ + reason
        },
    }
}

impl RunError {
    /// Tells the operator in one sentence why the run ended.
    pub fn describe(&self) -> (text: String)
        ensures
            text@ == diagnostic(self@),
    {
        match self {
            RunError::DirectoryNotFound { path } => {
                let mut text = String::from_str("Could not find the input directory specified at ");
                text.append(path.as_str());
                text
            },
            RunError::DirectoryIteration { path, reason } => {
                let mut text = String::from_str(
                    "Some io error occurred during iteration of the files in the directory ",
                );
                text.append(path.as_str());
                text.append(": ");
                text.append(reason.as_str());
                text
            },
            RunError::OutputDirectory { path, reason } => {
                let mut text = String::from_str("Could not create the output directory ");
                text.append(path.as_str());
                text.append(" due to ");
                text.append(reason.as_str());
                text
            },
        }
    }
}

/// The sentence that stands above the list of unsolved problems.
pub open spec fn summary_heading() -> Seq<char> {
    "The following problems were found and could not be solved by this tool. Please look into them:"@
}

/// What is shown at the end of a run with these unsolved problems: nothing
/// where there are none, else the heading between two empty lines and then
/// the problems.
pub open spec fn summary_lines(problems: Seq<Seq<char>>) -> Seq<Seq<char>> {
    if problems.len() == 0 {
        Seq::empty()
    } else {
        seq![Seq::empty(), summary_heading(), Seq::empty()] + problems
    }
}

/// The unsolved problems of all files of a run, in the order of the files
/// and, within a file, in the order in which they were found.
#[derive(Clone, Debug)]
pub struct RunSummary {
    problems: Vec<String>,
}

impl View for RunSummary {
    type V = Seq<Seq<char>>;

    closed spec fn view(&self) -> Seq<Seq<char>> {
        text_views(self.problems@)
    }
}

impl RunSummary {
    /// The summary of a run before its first file.
    pub fn new() -> (summary: RunSummary)
        ensures
            summary@ == Seq::<Seq<char>>::empty(),
    {
        let summary = RunSummary { problems: Vec::new() };
        assert(text_views(summary.problems@) =~= Seq::empty());
        summary
    }

    /// Adds the problems of one file behind those of the files before it.
    pub fn add(&mut self, report: &FileCleaningReport)
        ensures
            final(self)@ == old(self)@ + report@.messages(),
    {
        let mut messages = report.messages();
        assert(text_views(self.problems@ + messages@) =~= text_views(self.problems@) + text_views(
            messages@,
        ));
        self.problems.append(&mut messages);
    }

    /// Whether no file had a problem.
    pub fn is_empty(&self) -> (empty: bool)
        ensures
            empty == (self@.len() == 0),
    {
        self.problems.len() == 0
    }

    /// The sentences of all problems, in order.
    pub fn problems(&self) -> (problems: &Vec<String>)
        ensures
            text_views(problems@) == self@,
    {
        &self.problems
    }

    /// The lines to show at the end of the run.
    pub fn lines(&self) -> (lines: Vec<String>)
        ensures
            text_views(lines@) == summary_lines(self@),
    {
        let mut lines: Vec<String> = Vec::new();
        if self.problems.len() > 0 {
            lines.push(String::new());
            lines.push(
                String::from_str(
                    "The following problems were found and could not be solved by this tool. Please look into them:",
                ),
            );
            lines.push(String::new());
            let ghost heading = lines@;
            assert(text_views(heading) =~= seq![Seq::empty(), summary_heading(), Seq::empty()]);
            let mut rest = self.problems.clone();
            assert(text_views(rest@) =~= text_views(self.problems@)) by {
                assert(rest@.len() == self.problems@.len());
                assert forall|i: int| 0 <= i < rest@.len() implies rest@[i]@
                    == self.problems@[i]@ by {
                    assert(cloned(self.problems@[i], rest@[i]));
                }
            }
            lines.append(&mut rest);
            assert(text_views(lines@) =~= text_views(heading) + text_views(self.problems@));
        } else {
            assert(text_views(lines@) =~= Seq::empty());
        }
        lines
    }
}

} // verus!
