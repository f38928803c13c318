//! The settings of one cleaning run.

use vstd::prelude::*;

verus! {

/// The line ending that is written after every accepted line.
#[derive(Clone, Copy, Debug, PartialEq, Eq, Structural)]
pub enum LineTerminator {
    /// A single line feed.
    Lf,
    /// A carriage return followed by a line feed.
    CrLf,
}

impl LineTerminator {
    /// The characters of the line ending.
    pub open spec fn chars(self) -> Seq<char> {
        match self {
            LineTerminator::Lf => seq!['\n'],
            LineTerminator::CrLf => seq!['\r', '\n'],
        }
    }

    /// Appends the line ending to `text`.
    pub fn append_to(self, text: &mut String)
        ensures
            final(text)@ == old(text)@ + self.chars(),
    {
        match self {
            LineTerminator::Lf => {
                text.push('\n');
                assert(text@ =~= old(text)@ + self.chars());
            },
            LineTerminator::CrLf => {
                text.push('\r');
                text.push('\n');
                assert(text@ =~= old(text)@ + self.chars());
            },
        }
    }
}

/// The settings of one cleaning run. A value is built once and only read
/// afterwards.
#[derive(Clone, Copy, Debug, PartialEq, Eq, Structural)]
pub struct CleaningConfiguration {
    /// The character that separates two fields of a row.
    pub separator: char,
    /// The line ending of the output.
    pub line_terminator: LineTerminator,
    /// Quotes are written as they are, without a backslash in front.
    pub unescaped_quotes: bool,
    /// A separator inside an open quote is data and closes nothing.
    pub allow_unclosed_quotes: bool,
    /// Every quote character is deleted.
    pub remove_quotes: bool,
}

impl CleaningConfiguration {
    /// The settings that the six recognised options stand for: `tabs` forces
    /// the separator to a tab, `linux` selects a line feed over the default
    /// carriage return and line feed, and the other three are taken as they
    /// are.
    pub open spec fn of_options(
        separator: char,
        tabs: bool,
        linux: bool,
        unescaped: bool,
        unclosed_quotes: bool,
        remove_quotes: bool,
    ) -> CleaningConfiguration {
        CleaningConfiguration {
            separator: if tabs { '\t' } else { separator },
            line_terminator: if linux { LineTerminator::Lf } else { LineTerminator::CrLf },
            unescaped_quotes: unescaped,
            allow_unclosed_quotes: unclosed_quotes,
            remove_quotes,
        }
    }

    /// Builds the settings from the six recognised options.
    pub fn from_options(
        separator: char,
        tabs: bool,
        linux: bool,
        unescaped: bool,
        unclosed_quotes: bool,
        remove_quotes: bool,
    ) -> (config: CleaningConfiguration)
        ensures
            config == Self::of_options(
                separator,
                tabs,
                linux,
                unescaped,
                unclosed_quotes,
                remove_quotes,
            ),
    {
        CleaningConfiguration {
            separator: if tabs { '\t' } else { separator },
            line_terminator: if linux { LineTerminator::Lf } else { LineTerminator::CrLf },
            unescaped_quotes: unescaped,
            allow_unclosed_quotes: unclosed_quotes,
            remove_quotes,
        }
    }

    /// True when quotes that stay in the output get a backslash in front.
    pub open spec fn escapes_quotes(self) -> bool {
        !self.unescaped_quotes
    }

    /// True when a carriage return or line feed inside a line is dropped.
    pub open spec fn drops_line_breaks(self) -> bool {
        self.unescaped_quotes || self.remove_quotes || self.allow_unclosed_quotes
    }
}

impl Default for CleaningConfiguration {
    /// A comma as separator, carriage return and line feed as line ending,
    /// and none of the three switches set.
    fn default() -> (config: CleaningConfiguration)
        ensures
            config == CleaningConfiguration::of_options(',', false, false, false, false, false),
    {
        CleaningConfiguration::from_options(',', false, false, false, false, false)
    }
}

} // verus!
