//! The cleaning of one file, as a state machine.
//!
//! The pipeline never touches a file. Whoever drives it opens the input,
//! hands over each line that was read, or the reason why it could not be
//! read, writes the text that the pipeline returns, and reports back when a
//! write or the final flush fails. The pipeline decides what is written and
//! what is recorded. One bad row never ends a file: every event but the
//! failure to open the input leaves the pipeline ready for the next line.

use vstd::prelude::*;
use crate::cleaner::{clean, cleaned_text, is_dirty};
use crate::config::CleaningConfiguration;
use crate::laws::lemma_every_line_is_written_or_recorded;
use crate::report::{
    count_mismatches,
    count_read_errors,
    problem_views,
    FileCleaningReport,
    Problem,
    ProblemView,
    ReportView,
};
use crate::text::text_views;
use crate::validator::{
    after_line,
    column_count,
    is_mismatch,
    ColumnMismatch,
    ColumnValidator,
    ValidatorView,
};

verus! {

/// What to do with a line that was handed to the pipeline.
#[derive(Clone, Debug)]
pub enum LineAction {
    /// Write `text`, which is the cleaned line with the line ending. `dirty`
    /// says whether the line was repaired, and `header_columns` holds the
    /// number of fields where this line was taken as the header.
    Write { text: String, dirty: bool, header_columns: Option<usize> },
    /// Write nothing: the row has the wrong number of fields, and this was
    /// recorded.
    Skip { mismatch: ColumnMismatch },
}

/// A [`LineAction`] as plain values.
pub enum LineActionView {
    Write { text: Seq<char>, dirty: bool, header_columns: Option<nat> },
    Skip { line_number: nat, expected: nat, actual: nat },
}

impl View for LineAction {
    type V = LineActionView;

    open spec fn view(&self) -> LineActionView {
        match *self {
            LineAction::Write { text, dirty, header_columns } => LineActionView::Write {
                text: text@,
                dirty,
                header_columns: match header_columns {
                    Some(n) => Some(n as nat),
                    None => None,
                },
            },
            LineAction::Skip { mismatch } => LineActionView::Skip {
                line_number: mismatch.line_number as nat,
                expected: mismatch.expected as nat,
                actual: mismatch.actual as nat,
            },
        }
    }
}

/// The state of a pipeline as plain values.
pub struct PipelineView {
    /// The name of the file, as it appears in the report.
    pub file: Seq<char>,
    /// The settings of the run.
    pub config: CleaningConfiguration,
    /// The header's number of fields and the number of the current line.
    pub validator: ValidatorView,
    /// The problems recorded so far.
    pub problems: Seq<ProblemView>,
}

impl PipelineView {
    /// The state before the first line.
    pub open spec fn start(file: Seq<char>, config: CleaningConfiguration) -> PipelineView {
        PipelineView {
            file,
            config,
            validator: ValidatorView { expected_columns: None, line_number: 0 },
            problems: Seq::empty(),
        }
    }

    /// What is done with the line `line` in this state. A row with the wrong
    /// number of fields is skipped. Every other line is cleaned and written
    /// with the line ending behind it.
    pub open spec fn line_action(self, line: Seq<char>) -> LineActionView {
        if is_mismatch(self.validator, line, self.config.separator) {
            LineActionView::Skip {
                line_number: self.validator.line_number + 1,
                expected: self.validator.expected_columns->0,
                actual: column_count(line, self.config.separator),
            }
        } else {
            LineActionView::Write {
                text: cleaned_text(line, self.config) + self.config.line_terminator.chars(),
                dirty: is_dirty(line, self.config),
                header_columns: if self.validator.expected_columns is None {
                    Some(column_count(line, self.config.separator))
                } else {
                    None
                },
            }
        }
    }

    /// The state after the line `line`: the line is counted, the first one
    /// sets the header's number of fields, and a skipped row is recorded.
    pub open spec fn after_line(self, line: Seq<char>) -> PipelineView {
        PipelineView {
            validator: after_line(self.validator, line, self.config.separator),
            problems: if is_mismatch(self.validator, line, self.config.separator) {
                self.problems.push(
                    ProblemView::Mismatch {
                        line_number: self.validator.line_number + 1,
                        expected: self.validator.expected_columns->0,
                        actual: column_count(line, self.config.separator),
                    },
                )
            } else {
                self.problems
            },
            ..self
        }
    }

    /// The state after a line that could not be read: the line is counted
    /// and recorded, and it is never the header.
    pub open spec fn after_read_failure(self, reason: Seq<char>) -> PipelineView {
        PipelineView {
            validator: ValidatorView {
                line_number: self.validator.line_number + 1,
                ..self.validator
            },
            problems: self.problems.push(
                ProblemView::Read { line_number: self.validator.line_number + 1, reason },
            ),
            ..self
        }
    }

    /// The state after the current line could not be written: this is
    /// recorded.
    pub open spec fn after_write_failure(self, reason: Seq<char>) -> PipelineView {
        PipelineView {
            problems: self.problems.push(
                ProblemView::Write { line_number: self.validator.line_number, reason },
            ),
            ..self
        }
    }

    /// The report of a file whose output was flushed.
    pub open spec fn report(self) -> ReportView {
        ReportView { file: self.file, problems: self.problems }
    }

    /// The report of a file whose output could not be flushed: the failure
    /// is its last entry.
    pub open spec fn report_after_flush_failure(self, reason: Seq<char>) -> ReportView {
        ReportView { file: self.file, problems: self.problems.push(ProblemView::Flush { reason }) }
    }
}

/// The report of a file that could not be opened: this one entry.
pub open spec fn open_failure_report(file: Seq<char>, reason: Seq<char>) -> ReportView {
    ReportView { file, problems: seq![ProblemView::Open { reason }] }
}

/// What came of reading one line of the input.
#[derive(Clone, Debug)]
pub enum LineRead {
    /// The line, without its line ending.
    Text(String),
    /// The line could not be read, for the reason given.
    Failed(String),
}

/// A [`LineRead`] as plain values.
pub enum LineReadView {
    Text(Seq<char>),
    Failed(Seq<char>),
}

impl LineReadView {
    /// Whether the fields of the line can be counted in a machine word: a
    /// line that was read has fewer than `usize::MAX` characters.
    pub open spec fn fits(self) -> bool {
        self matches LineReadView::Text(text) ==> text.len() < usize::MAX
    }
}

impl View for LineRead {
    type V = LineReadView;

    open spec fn view(&self) -> LineReadView {
        match *self {
            LineRead::Text(text) => LineReadView::Text(text@),
            LineRead::Failed(reason) => LineReadView::Failed(reason@),
        }
    }
}

/// The lines of a list, as plain values.
pub open spec fn line_views(lines: Seq<LineRead>) -> Seq<LineReadView> {
    lines.map_values(|line: LineRead| line@)
}

/// A file after some of its lines: the state of the pipeline and the texts
/// written so far.
pub struct RunView {
    pub state: PipelineView,
    pub output: Seq<Seq<char>>,
}

/// The pipeline run over `lines`, from the start of the file, with every
/// write succeeding.
pub open spec fn run(file: Seq<char>, config: CleaningConfiguration, lines: Seq<LineReadView>) -> RunView
    decreases lines.len(),
{
    if lines.len() == 0 {
        RunView { state: PipelineView::start(file, config), output: Seq::empty() }
    } else {
        let before = run(file, config, lines.drop_last());
        match lines.last() {
            LineReadView::Failed(reason) => RunView {
                state: before.state.after_read_failure(reason),
                output: before.output,
            },
            LineReadView::Text(line) => RunView {
                state: before.state.after_line(line),
                output: match before.state.line_action(line) {
                    LineActionView::Write { text, .. } => before.output.push(text),
                    LineActionView::Skip { .. } => before.output,
                },
            },
        }
    }
}

/// The cleaning of one file in progress.
#[derive(Debug)]
pub struct FileCleaningPipeline {
    file: String,
    config: CleaningConfiguration,
    validator: ColumnValidator,
    problems: Vec<Problem>,
}

impl View for FileCleaningPipeline {
    type V = PipelineView;

    closed spec fn view(&self) -> PipelineView {
        PipelineView {
            file: self.file@,
            config: self.config,
            validator: self.validator@,
            problems: problem_views(self.problems@),
        }
    }
}

impl FileCleaningPipeline {
    /// A pipeline for the file named `file`, before its first line.
    pub fn new(file: &str, config: CleaningConfiguration) -> (pipeline: FileCleaningPipeline)
        ensures
            pipeline@ == PipelineView::start(file@, config),
    {
        let pipeline = FileCleaningPipeline {
            file: file.to_owned(),
            config,
            validator: ColumnValidator::new(),
            problems: Vec::new(),
        };
        assert(problem_views(pipeline.problems@) =~= Seq::empty());
        pipeline
    }

    /// The report of a file that could not be opened. It holds this one
    /// entry; no pipeline is run on such a file.
    pub fn open_failed(file: &str, reason: &str) -> (report: FileCleaningReport)
        ensures
            report@ == open_failure_report(file@, reason@),
    {
        let mut problems: Vec<Problem> = Vec::new();
        problems.push(Problem::Open { reason: reason.to_owned() });
        assert(problem_views(problems@) =~= seq![ProblemView::Open { reason: reason@ }]);
        FileCleaningReport::new(file.to_owned(), problems)
    }

    /// The settings of the run.
    pub fn config(&self) -> (config: &CleaningConfiguration)
        ensures
            *config == self@.config,
    {
        &self.config
    }

    /// The number of the current line: of the line handed over last, or 0
    /// before the first.
    pub fn line_number(&self) -> (line_number: u64)
        ensures
            line_number == self@.validator.line_number,
    {
        self.validator.line_number()
    }

    /// The name of the file, as it appears in the report.
    pub fn file(&self) -> (file: &str)
        ensures
            file@ == self@.file,
    {
        self.file.as_str()
    }

    /// The problem recorded last, if any was recorded yet.
    pub fn last_problem(&self) -> (problem: Option<&Problem>)
        ensures
            problem is Some == (self@.problems.len() > 0),
            problem matches Some(last) ==> last@ == self@.problems.last(),
    {
        let count = self.problems.len();
        if count == 0 {
            None
        } else {
            Some(&self.problems[count - 1])
        }
    }

    /// Takes the next line of the file and says what to do with it. A row
    /// whose number of fields is not the header's is recorded and skipped.
    /// Every other line is cleaned, and the cleaned text is returned with the
    /// line ending behind it, to be written.
    pub fn accept_line(&mut self, line: &str) -> (action: LineAction)
        requires
            old(self)@.validator.line_number < u64::MAX,
            line@.len() < usize::MAX,
        ensures
            action@ == old(self)@.line_action(line@),
            final(self)@ == old(self)@.after_line(line@),
    {
        let no_header = self.validator.expected_columns().is_none();
        match self.validator.observe(line, &self.config) {
            Err(mismatch) => {
                self.problems.push(Problem::Mismatch(mismatch));
                assert(problem_views(self.problems@) =~= problem_views(old(self).problems@).push(
                    Problem::Mismatch(mismatch)@,
                ));
                LineAction::Skip { mismatch }
            },
            Ok(()) => {
                let header_columns = if no_header {
                    self.validator.expected_columns()
                } else {
                    None
                };
                let outcome = clean(line, &self.config);
                let dirty = outcome.is_dirty();
                let mut text = outcome.into_text();
                self.config.line_terminator.append_to(&mut text);
                LineAction::Write { text, dirty, header_columns }
            },
        }
    }

    /// Records that the next line of the file could not be read. The line is
    /// counted, and reading goes on with the line after it.
    pub fn read_failed(&mut self, reason: &str)
        requires
            old(self)@.validator.line_number < u64::MAX,
        ensures
            final(self)@ == old(self)@.after_read_failure(reason@),
    {
        self.validator.skip_line();
        let problem = Problem::Read {
            line_number: self.validator.line_number(),
            reason: reason.to_owned(),
        };
        self.problems.push(problem);
        assert(problem_views(self.problems@) =~= problem_views(old(self).problems@).push(
            problem@,
        ));
    }

    /// Records that the text returned for the current line could not be
    /// written. Reading goes on with the next line.
    pub fn write_failed(&mut self, reason: &str)
        ensures
            final(self)@ == old(self)@.after_write_failure(reason@),
    {
        let problem = Problem::Write {
            line_number: self.validator.line_number(),
            reason: reason.to_owned(),
        };
        self.problems.push(problem);
        assert(problem_views(self.problems@) =~= problem_views(old(self).problems@).push(
            problem@,
        ));
    }

    /// Cleans a whole file that is held in memory: runs a pipeline over
    /// `lines` and returns the texts to write, in order, and the report.
    /// Each text is a cleaned line with the line ending behind it; rows with
    /// the wrong number of fields and lines that could not be read are left
    /// out and recorded, so that there are as many texts as there are lines
    /// less these two kinds of entries.
    pub fn process(file: &str, config: CleaningConfiguration, lines: &Vec<LineRead>) -> (result: (
        Vec<String>,
        FileCleaningReport,
    ))
        requires
            forall|i: int| 0 <= i < lines.len() ==> (#[trigger] lines[i]@).fits(),
        ensures
            text_views(result.0@) == run(file@, config, line_views(lines@)).output,
            result.1@ == run(file@, config, line_views(lines@)).state.report(),
            result.0.len() + count_mismatches(result.1@.problems) + count_read_errors(
                result.1@.problems,
            ) == lines.len(),
    {
        let mut pipeline = FileCleaningPipeline::new(file, config);
        let mut output: Vec<String> = Vec::new();
        let mut i: usize = 0;
        assert(line_views(lines@).take(0) =~= Seq::empty());
        assert(text_views(output@) =~= Seq::empty());
        while i < lines.len()
            invariant
                i <= lines.len(),
                forall|i: int| 0 <= i < lines.len() ==> (#[trigger] lines[i]@).fits(),
                pipeline@ == run(file@, config, line_views(lines@).take(i as int)).state,
                text_views(output@) == run(file@, config, line_views(lines@).take(i as int)).output,
                pipeline@.validator.line_number == i,
            decreases lines.len() - i,
        {
            proof {
                let next = line_views(lines@).take(i + 1);
                assert(next.drop_last() =~= line_views(lines@).take(i as int));
                assert(next.last() == lines[i as int]@);
            }
            let ghost written = output@;
            match &lines[i] {
                LineRead::Failed(reason) => {
                    pipeline.read_failed(reason.as_str());
                },
                LineRead::Text(line) => {
                    let action = pipeline.accept_line(line.as_str());
                    match action {
                        LineAction::Write { text, .. } => {
                            output.push(text);
                            assert(text_views(output@) =~= text_views(written).push(text@));
                        },
                        LineAction::Skip { .. } => {},
                    }
                },
            }
            i = i + 1;
        }
        proof {
            assert(line_views(lines@).take(lines.len() as int) =~= line_views(lines@));
            lemma_every_line_is_written_or_recorded(file@, config, line_views(lines@));
        }
        (output, pipeline.finish())
    }

    /// Ends the file after its output was flushed, and hands out the report.
    pub fn finish(self) -> (report: FileCleaningReport)
        ensures
            report@ == self@.report(),
    {
        FileCleaningReport::new(self.file, self.problems)
    }

    /// Ends the file after its output could not be flushed: the failure
    /// becomes the last entry of the report.
    pub fn flush_failed(self, reason: &str) -> (report: FileCleaningReport)
        ensures
            report@ == self@.report_after_flush_failure(reason@),
    {
        let mut problems = self.problems;
        let problem = Problem::Flush { reason: reason.to_owned() };
        problems.push(problem);
        assert(problem_views(problems@) =~= problem_views(self.problems@).push(problem@));
        FileCleaningReport::new(self.file, problems)
    }
}

} // verus!
