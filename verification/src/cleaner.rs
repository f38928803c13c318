//! The line cleaner: a two-state scanner that rewrites one line of CSV text.
//!
//! A line is read one character at a time. The only thing remembered between
//! characters is whether a quote is open. Lines are independent of each
//! other: every line starts outside a quote.

use vstd::prelude::*;
use crate::config::CleaningConfiguration;
use crate::laws::{
    lemma_dirty_iff_repair_needed,
    lemma_dirty_text_differs,
    needs_no_repair,
    shows_every_repair,
};

verus! {

/// Whether the scanner is inside a quoted field.
#[derive(Clone, Copy, Debug, PartialEq, Eq, Structural)]
pub enum QuoteState {
    /// No quote is open.
    Unquoted,
    /// The last quote has not been matched yet.
    Quoted,
}

impl QuoteState {
    /// The other state.
    pub open spec fn toggled(self) -> QuoteState {
        match self {
            QuoteState::Unquoted => QuoteState::Quoted,
            QuoteState::Quoted => QuoteState::Unquoted,
        }
    }
}

/// What reading one character does: the state afterwards, the characters
/// written for it, and whether this was a repair.
pub struct Transition {
    /// The state after the character.
    pub next: QuoteState,
    /// The characters written for it.
    pub emitted: Seq<char>,
    /// Whether the character was repaired.
    pub dirty: bool,
}

/// How a quote is written to the output: as it is, or with a backslash in
/// front.
pub open spec fn written_quote(config: CleaningConfiguration) -> Seq<char> {
    if config.unescaped_quotes {
        seq!['"']
    } else {
        seq!['\\', '"']
    }
}

/// The transition of the scanner on the character `c`. The rules are tried in
/// this order and the first that applies is taken:
///
/// 1. A quote is deleted where quotes are removed, which is a repair and
///    leaves the state alone. Otherwise it flips the state and is written as
///    [`written_quote`] says; the added backslash is a repair.
/// 2. A separator inside an open quote, unless unclosed quotes are allowed,
///    closes the quote: a quote is written, then the separator, which is a
///    repair.
/// 3. A carriage return or line feed is deleted, as a repair, under any of
///    the three switches, and kept otherwise.
/// 4. A backslash is deleted, as a repair.
/// 5. Any other character is written as it is.
pub open spec fn transition(state: QuoteState, c: char, config: CleaningConfiguration) -> Transition {
    if c == '"' {
        if config.remove_quotes {
            Transition { next: state, emitted: Seq::empty(), dirty: true }
        } else {
            Transition {
                next: state.toggled(),
                emitted: written_quote(config),
                dirty: !config.unescaped_quotes,
            }
        }
    } else if c == config.separator && state == QuoteState::Quoted
        && !config.allow_unclosed_quotes {
        Transition {
            next: QuoteState::Unquoted,
            emitted: written_quote(config).push(c),
            dirty: true,
        }
    } else if c == '\r' || c == '\n' {
        if config.drops_line_breaks() {
            Transition { next: state, emitted: Seq::empty(), dirty: true }
        } else {
            Transition { next: state, emitted: seq![c], dirty: false }
        }
    } else if c == '\\' {
        Transition { next: state, emitted: Seq::empty(), dirty: true }
    } else {
        Transition { next: state, emitted: seq![c], dirty: false }
    }
}

/// Where the scanner stands after a piece of a line: its state, the text
/// written so far, and whether anything was repaired.
pub struct Scan {
    /// Whether a quote is open.
    pub state: QuoteState,
    /// The text written so far.
    pub text: Seq<char>,
    /// Whether any character was repaired.
    pub dirty: bool,
}

/// The scanner's standing after it has read all of `line`, from the start of
/// a line.
pub open spec fn scan(line: Seq<char>, config: CleaningConfiguration) -> Scan
    decreases line.len(),
{
    if line.len() == 0 {
        Scan { state: QuoteState::Unquoted, text: Seq::empty(), dirty: false }
    } else {
        let before = scan(line.drop_last(), config);
        let t = transition(before.state, line.last(), config);
        Scan { state: t.next, text: before.text + t.emitted, dirty: before.dirty || t.dirty }
    }
}

/// The rewritten text of `line`.
pub open spec fn cleaned_text(line: Seq<char>, config: CleaningConfiguration) -> Seq<char> {
    scan(line, config).text
}

/// Whether rewriting `line` repairs anything.
pub open spec fn is_dirty(line: Seq<char>, config: CleaningConfiguration) -> bool {
    scan(line, config).dirty
}

/// Writes a quote to `out` as [`written_quote`] says.
fn write_quote(config: &CleaningConfiguration, out: &mut String)
    ensures
        final(out)@ == old(out)@ + written_quote(*config),
{
    if !config.unescaped_quotes {
        out.push('\\');
    }
    out.push('"');
    assert(out@ =~= old(out)@ + written_quote(*config));
}

/// Reads the character `c` in the state `state`: writes to `out` what the
/// transition emits and returns the next state and whether this was a repair.
pub fn step(state: QuoteState, c: char, config: &CleaningConfiguration, out: &mut String) -> (result: (
    QuoteState,
    bool,
))
    ensures
        result.0 == transition(state, c, *config).next,
        result.1 == transition(state, c, *config).dirty,
        final(out)@ == old(out)@ + transition(state, c, *config).emitted,
{
    if c == '"' {
        if config.remove_quotes {
            assert(out@ =~= old(out)@ + Seq::<char>::empty());
            (state, true)
        } else {
            write_quote(config, out);
            let next = match state {
                QuoteState::Unquoted => QuoteState::Quoted,
                QuoteState::Quoted => QuoteState::Unquoted,
            };
            (next, !config.unescaped_quotes)
        }
    } else if c == config.separator && state == QuoteState::Quoted
        && !config.allow_unclosed_quotes {
        write_quote(config, out);
        out.push(c);
        assert(out@ =~= old(out)@ + written_quote(*config).push(c));
        (QuoteState::Unquoted, true)
    } else if (c == '\r' || c == '\n') && (config.unescaped_quotes || config.remove_quotes
        || config.allow_unclosed_quotes) || c == '\\' {
        assert(out@ =~= old(out)@ + Seq::<char>::empty());
        (state, true)
    } else {
        out.push(c);
        assert(out@ =~= old(out)@ + seq![c]);
        (state, false)
    }
}

/// A rewritten line. Both variants carry the whole text; the tag says whether
/// anything was repaired on the way.
#[derive(Clone, Debug)]
pub enum LineCleaningOutcome {
    /// Nothing was repaired: the text is the input.
    Clean(String),
    /// At least one repair was made.
    Dirty(String),
}

impl LineCleaningOutcome {
    /// The characters of the rewritten line.
    pub open spec fn text_view(self) -> Seq<char> {
        match self {
            LineCleaningOutcome::Clean(text) => text@,
            LineCleaningOutcome::Dirty(text) => text@,
        }
    }

    /// Whether the line was repaired.
    #[verifier::when_used_as_spec(is_dirty_spec)]
    pub fn is_dirty(&self) -> (dirty: bool)
        ensures
            dirty == self.is_dirty_spec(),
    {
        match self {
            LineCleaningOutcome::Clean(_) => false,
            LineCleaningOutcome::Dirty(_) => true,
        }
    }

    /// Whether the line was repaired.
    pub open spec fn is_dirty_spec(&self) -> bool {
        self is Dirty
    }

    /// The rewritten line.
    pub fn text(&self) -> (text: &str)
        ensures
            text@ == self.text_view(),
    {
        match self {
            LineCleaningOutcome::Clean(text) => text.as_str(),
            LineCleaningOutcome::Dirty(text) => text.as_str(),
        }
    }

    /// Gives up the outcome for the rewritten line.
    pub fn into_text(self) -> (text: String)
        ensures
            text@ == self.text_view(),
    {
        match self {
            LineCleaningOutcome::Clean(text) => text,
            LineCleaningOutcome::Dirty(text) => text,
        }
    }
}

/// Rewrites one line. The result is `Dirty` exactly when a repair was made,
/// which is when the line is not among those that need none, and carries the
/// rewritten text either way. A `Clean` result carries the line itself. A
/// `Dirty` result carries another text, unless quotes are escaped and the
/// line holds a backslash.
pub fn clean(line: &str, config: &CleaningConfiguration) -> (outcome: LineCleaningOutcome)
    ensures
        outcome.text_view() == cleaned_text(line@, *config),
        outcome.is_dirty() == is_dirty(line@, *config),
        outcome.is_dirty() == !needs_no_repair(line@, *config),
        !outcome.is_dirty() ==> outcome.text_view() == line@,
        outcome.is_dirty() && shows_every_repair(line@, *config) ==> outcome.text_view() != line@,
{
    let mut out = String::new();
    let mut state = QuoteState::Unquoted;
    let mut dirty = false;
    for c in it: line.chars()
        invariant
            it.seq() == line@,
            state == scan(line@.take(it.index()), *config).state,
            out@ == scan(line@.take(it.index()), *config).text,
            dirty == scan(line@.take(it.index()), *config).dirty,
    {
        proof {
            let i = it.index();
            assert(line@.take(i + 1).drop_last() =~= line@.take(i));
            assert(line@.take(i + 1).last() == c);
        }
        let (next, repaired) = step(state, c, config, &mut out);
        state = next;
        dirty = dirty || repaired;
    }
    proof {
        assert(line@.take(line@.len() as int) =~= line@);
        lemma_clean_text_is_input(line@, *config);
        lemma_dirty_iff_repair_needed(line@, *config);
        if dirty && shows_every_repair(line@, *config) {
            lemma_dirty_text_differs(line@, *config);
        }
    }
    if dirty {
        LineCleaningOutcome::Dirty(out)
    } else {
        LineCleaningOutcome::Clean(out)
    }
}

/// Where nothing was repaired the written text is the text that was read.
pub proof fn lemma_clean_text_is_input(line: Seq<char>, config: CleaningConfiguration)
    ensures
        !is_dirty(line, config) ==> cleaned_text(line, config) == line,
    decreases line.len(),
{
    if line.len() > 0 {
        lemma_clean_text_is_input(line.drop_last(), config);
        if !is_dirty(line, config) {
            assert(line =~= line.drop_last().push(line.last()));
        }
    }
}

} // verus!
