//! The column validator: every row of a file must have as many fields as
//! its header.
//!
//! Fields are counted on the raw line, before any repair: a line has one
//! field more than it has separators.

use vstd::prelude::*;
use crate::config::CleaningConfiguration;
use crate::text::{count_occurrences, lemma_occurrences_bounded, occurrences};

verus! {

/// The number of fields of `line`: one more than it holds separators.
pub open spec fn column_count(line: Seq<char>, separator: char) -> nat {
    occurrences(line, separator) + 1
}

/// Counts the fields of `line`. The count has to fit the machine's word, so
/// a line of `usize::MAX` characters is not taken.
pub fn count_columns(line: &str, separator: char) -> (columns: usize)
    requires
        line@.len() < usize::MAX,
    ensures
        columns == column_count(line@, separator),
{
    proof {
        lemma_occurrences_bounded(line@, separator);
    }
    count_occurrences(line, separator) + 1
}

/// A row whose number of fields is not that of the header.
#[derive(Clone, Copy, Debug, PartialEq, Eq, Structural)]
pub struct ColumnMismatch {
    /// The number of the row in its file, the first line being line 1.
    pub line_number: u64,
    /// The number of fields of the header.
    pub expected: usize,
    /// The number of fields of the row.
    pub actual: usize,
}

/// What a validator knows, as plain numbers.
pub struct ValidatorView {
    /// The number of fields of the header, once a header was seen.
    pub expected_columns: Option<nat>,
    /// How many lines of the file have gone by.
    pub line_number: nat,
}

/// The state of the check for one file: the number of fields of the header,
/// once it was seen, and the number of the line last looked at.
#[derive(Clone, Copy, Debug)]
pub struct ColumnValidator {
    expected_columns: Option<usize>,
    line_number: u64,
}

impl View for ColumnValidator {
    type V = ValidatorView;

    closed spec fn view(&self) -> ValidatorView {
        ValidatorView {
            expected_columns: match self.expected_columns {
                Some(n) => Some(n as nat),
                None => None,
            },
            line_number: self.line_number as nat,
        }
    }
}

/// The validator's state after the line `line` has gone by. The first line
/// that is looked at sets the expected number of fields; no later line
/// changes it.
pub open spec fn after_line(before: ValidatorView, line: Seq<char>, separator: char) -> ValidatorView {
    ValidatorView {
        expected_columns: match before.expected_columns {
            Some(n) => Some(n),
            None => Some(column_count(line, separator)),
        },
        line_number: before.line_number + 1,
    }
}

/// Whether `line` is turned away: a header was seen and the line has another
/// number of fields.
pub open spec fn is_mismatch(before: ValidatorView, line: Seq<char>, separator: char) -> bool {
    before.expected_columns matches Some(n) && n != column_count(line, separator)
}

impl ColumnValidator {
    /// A validator for a new file: no header seen, no line gone by.
    pub fn new() -> (validator: ColumnValidator)
        ensures
            validator@ == (ValidatorView { expected_columns: None, line_number: 0 }),
    {
        ColumnValidator { expected_columns: None, line_number: 0 }
    }

    /// The number of fields of the header, once a header was seen.
    pub fn expected_columns(&self) -> (expected: Option<usize>)
        ensures
            match expected {
                Some(n) => self@.expected_columns == Some(n as nat),
                None => self@.expected_columns is None,
            },
    {
        self.expected_columns
    }

    /// The number of the line last looked at or passed over; 0 before the
    /// first.
    pub fn line_number(&self) -> (line_number: u64)
        ensures
            line_number == self@.line_number,
    {
        self.line_number
    }

    /// Looks at the next line of the file. The first line looked at is the
    /// header: it sets the expected number of fields and is always accepted.
    /// Every later line is accepted exactly when it has that number of
    /// fields; the error names the line and both numbers.
    pub fn observe(&mut self, line: &str, config: &CleaningConfiguration) -> (result: Result<
        (),
        ColumnMismatch,
    >)
        requires
            old(self)@.line_number < u64::MAX,
            line@.len() < usize::MAX,
        ensures
            final(self)@ == after_line(old(self)@, line@, config.separator),
            result is Err == is_mismatch(old(self)@, line@, config.separator),
            result matches Err(mismatch) ==> {
                &&& mismatch.line_number == old(self)@.line_number + 1
                &&& old(self)@.expected_columns == Some(mismatch.expected as nat)
                &&& mismatch.actual == column_count(line@, config.separator)
            },
    {
        let actual = count_columns(line, config.separator);
        self.line_number = self.line_number + 1;
        match self.expected_columns {
            None => {
                self.expected_columns = Some(actual);
                Ok(())
            },
            Some(expected) => {
                if actual == expected {
                    Ok(())
                } else {
                    Err(ColumnMismatch { line_number: self.line_number, expected, actual })
                }
            },
        }
    }

    /// Passes over a line that could not be read: it counts as a line of the
    /// file and is never the header.
    pub fn skip_line(&mut self)
        requires
            old(self)@.line_number < u64::MAX,
        ensures
            final(self)@ == (ValidatorView {
                line_number: old(self)@.line_number + 1,
                ..old(self)@
            }),
    {
        self.line_number = self.line_number + 1;
    }
}

} // verus!
