//! What holds of the line cleaner on every line, and of the pipeline on
//! every file.

use vstd::prelude::*;
use crate::cleaner::{cleaned_text, is_dirty, scan, QuoteState};
use crate::config::CleaningConfiguration;
use crate::pipeline::{run, LineReadView};
use crate::report::{count_mismatches, count_read_errors};
use crate::text::{lemma_occurrences_zero, occurrences};
use crate::validator::column_count;

verus! {

/// Whether the character at position `i` of `line` stands inside a quote:
/// an odd number of quotes stands before it.
pub open spec fn inside_quote(line: Seq<char>, i: int) -> bool {
    occurrences(line.take(i), '"') % 2 == 1
}

/// Whether the character at position `i` of `line` is one that the cleaner
/// writes as it is, given that it did so with all characters before it.
pub open spec fn passes_unchanged(line: Seq<char>, i: int, config: CleaningConfiguration) -> bool {
    let c = line[i];
    if c == '"' {
        config.unescaped_quotes && !config.remove_quotes
    } else if c == config.separator && !config.allow_unclosed_quotes && inside_quote(line, i) {
        false
    } else if c == '\r' || c == '\n' {
        !config.drops_line_breaks()
    } else {
        c != '\\'
    }
}

/// The lines that the cleaner has nothing to repair in: every quote is kept
/// unescaped, no separator stands inside a quote that would have to be
/// closed, no line break is dropped, and there is no backslash.
pub open spec fn needs_no_repair(line: Seq<char>, config: CleaningConfiguration) -> bool {
    forall|i: int| 0 <= i < line.len() ==> passes_unchanged(line, i, config)
}

proof fn lemma_passes_unchanged_in_front(line: Seq<char>, i: int, config: CleaningConfiguration)
    requires
        0 <= i < line.len() - 1,
    ensures
        passes_unchanged(line, i, config) == passes_unchanged(line.drop_last(), i, config),
{
    assert(line.drop_last().take(i) =~= line.take(i));
}

/// A line is flagged dirty exactly when it is not among the lines that need
/// no repair. Where it is clean, the quote is open at the end exactly when
/// the line holds an odd number of quotes.
pub proof fn lemma_dirty_iff_repair_needed(line: Seq<char>, config: CleaningConfiguration)
    ensures
        is_dirty(line, config) <==> !needs_no_repair(line, config),
        !is_dirty(line, config) ==> (scan(line, config).state == QuoteState::Quoted
            <==> occurrences(line, '"') % 2 == 1),
    decreases line.len(),
{
    if line.len() > 0 {
        let front = line.drop_last();
        let last = line.len() - 1;
        lemma_dirty_iff_repair_needed(front, config);
        assert(line.take(last) =~= front);
        if needs_no_repair(line, config) {
            assert forall|i: int| 0 <= i < front.len() implies passes_unchanged(
                front,
                i,
                config,
            ) by {
                assert(passes_unchanged(line, i, config));
                lemma_passes_unchanged_in_front(line, i, config);
            }
            assert(passes_unchanged(line, last, config));
        }
        if !is_dirty(line, config) {
            assert forall|i: int| 0 <= i < line.len() implies passes_unchanged(
                line,
                i,
                config,
            ) by {
                if i < last {
                    assert(passes_unchanged(front, i, config));
                    lemma_passes_unchanged_in_front(line, i, config);
                }
            }
        }
    }
}

/// A line without quotes and backslashes, and without line breaks where the
/// settings drop them, comes back clean and unchanged, under every setting
/// of the separator and the switches.
pub proof fn lemma_plain_line_is_clean(line: Seq<char>, config: CleaningConfiguration)
    requires
        forall|i: int| 0 <= i < line.len() ==> line[i] != '"' && line[i] != '\\',
        config.drops_line_breaks() ==> forall|i: int|
            0 <= i < line.len() ==> line[i] != '\r' && line[i] != '\n',
    ensures
        !is_dirty(line, config),
        cleaned_text(line, config) == line,
{
    assert forall|i: int| 0 <= i < line.len() implies passes_unchanged(line, i, config) by {
        let front = line.take(i);
        assert forall|j: int| 0 <= j < front.len() implies front[j] != '"' by {
            assert(front[j] == line[j]);
        }
        lemma_occurrences_zero(front, '"');
    }
    lemma_dirty_iff_repair_needed(line, config);
    crate::cleaner::lemma_clean_text_is_input(line, config);
}

/// Where quotes are kept unescaped, a line comes back clean and unchanged if
/// no separator stands inside a quote (or unclosed quotes are allowed) and it
/// holds neither a backslash nor a line break. Lines whose quotes are
/// balanced, with every separator outside them, are of this kind.
pub proof fn lemma_kept_quotes_are_clean(line: Seq<char>, config: CleaningConfiguration)
    requires
        config.unescaped_quotes,
        !config.remove_quotes,
        forall|i: int|
            0 <= i < line.len() ==> line[i] != '\\' && line[i] != '\r' && line[i] != '\n',
        config.allow_unclosed_quotes || forall|i: int|
            0 <= i < line.len() && line[i] == config.separator ==> !inside_quote(line, i),
    ensures
        !is_dirty(line, config),
        cleaned_text(line, config) == line,
{
    assert forall|i: int| 0 <= i < line.len() implies passes_unchanged(line, i, config) by {}
    lemma_dirty_iff_repair_needed(line, config);
    crate::cleaner::lemma_clean_text_is_input(line, config);
}

/// A line that holds a quote is dirty unless quotes are kept unescaped: the
/// quote is either removed or gets a backslash.
pub proof fn lemma_changed_quote_is_dirty(line: Seq<char>, config: CleaningConfiguration)
    requires
        config.remove_quotes || !config.unescaped_quotes,
        exists|i: int| 0 <= i < line.len() && line[i] == '"',
    ensures
        is_dirty(line, config),
{
    let i = choose|i: int| 0 <= i < line.len() && line[i] == '"';
    assert(!passes_unchanged(line, i, config));
    lemma_dirty_iff_repair_needed(line, config);
}

/// Where quotes are removed, no quote is left in the rewritten line.
pub proof fn lemma_removed_quotes_are_gone(line: Seq<char>, config: CleaningConfiguration)
    requires
        config.remove_quotes,
    ensures
        scan(line, config).state == QuoteState::Unquoted,
        forall|i: int|
            0 <= i < cleaned_text(line, config).len() ==> cleaned_text(line, config)[i] != '"',
    decreases line.len(),
{
    if line.len() > 0 {
        lemma_removed_quotes_are_gone(line.drop_last(), config);
        let before = cleaned_text(line.drop_last(), config);
        let text = cleaned_text(line, config);
        assert forall|i: int| 0 <= i < text.len() implies text[i] != '"' by {
            if i < before.len() {
                assert(text[i] == before[i]);
            }
        }
    }
}

/// A clean line is a fixed point: cleaning the text of a clean outcome again
/// gives a clean outcome with the same text.
pub proof fn lemma_clean_is_fixed_point(line: Seq<char>, config: CleaningConfiguration)
    requires
        !is_dirty(line, config),
    ensures
        !is_dirty(cleaned_text(line, config), config),
        cleaned_text(cleaned_text(line, config), config) == cleaned_text(line, config),
{
    crate::cleaner::lemma_clean_text_is_input(line, config);
}

/// Whether the cleaner deletes the character `c` wherever no quote is to be
/// closed in front of it.
pub open spec fn is_deleted(c: char, config: CleaningConfiguration) -> bool {
    ||| c == '"' && config.remove_quotes
    ||| (c == '\r' || c == '\n') && config.drops_line_breaks()
    ||| c == '\\'
}

/// The settings and lines of which [`lemma_dirty_text_differs`] speaks:
/// quotes are not escaped, or the line holds no backslash.
pub open spec fn shows_every_repair(line: Seq<char>, config: CleaningConfiguration) -> bool {
    config.unescaped_quotes || config.remove_quotes || forall|i: int|
        0 <= i < line.len() ==> line[i] != '\\'
}

/// Finds, in a dirty prefix of `line`, the place where the written text
/// parts from the line: either it holds another character there, or it ends
/// there and the character of the line was deleted.
proof fn lemma_first_difference(line: Seq<char>, n: int, config: CleaningConfiguration) -> (q: int)
    requires
        0 <= n <= line.len(),
        is_dirty(line.take(n), config),
        shows_every_repair(line, config),
    ensures
        0 <= q < n,
        ({
            let text = cleaned_text(line.take(n), config);
            if text.len() > q {
                text[q] != line[q]
            } else {
                text.len() == q && is_deleted(line[q], config)
            }
        }),
    decreases n,
{
    let front = line.take(n - 1);
    let c = line[n - 1];
    assert(line.take(n).drop_last() =~= front);
    assert(line.take(n).last() == c);
    let before = scan(front, config);
    let text = cleaned_text(line.take(n), config);
    if before.dirty {
        let q = lemma_first_difference(line, n - 1, config);
        if before.text.len() > q {
            assert(text[q] == before.text[q]);
        } else if config.remove_quotes {
            lemma_removed_quotes_are_gone(front, config);
        }
        q
    } else {
        crate::cleaner::lemma_clean_text_is_input(front, config);
        lemma_dirty_iff_repair_needed(front, config);
        if before.state == QuoteState::Quoted {
            lemma_occurrences_zero(front, '"');
            let i = choose|i: int| 0 <= i < front.len() && front[i] == '"';
            assert(passes_unchanged(front, i, config));
        }
        n - 1
    }
}

/// A line that was repaired is not written as it was read, where quotes are
/// not escaped or the line holds no backslash. (Where a backslash stands in
/// front of a quote that is escaped, the backslash that is deleted and the
/// one that is added cancel out: the text is the same and yet repaired.)
pub proof fn lemma_dirty_text_differs(line: Seq<char>, config: CleaningConfiguration)
    requires
        is_dirty(line, config),
        shows_every_repair(line, config),
    ensures
        cleaned_text(line, config) != line,
{
    assert(line.take(line.len() as int) =~= line);
    let q = lemma_first_difference(line, line.len() as int, config);
}

/// Every line of a file is either written, or recorded as a row with the
/// wrong number of fields, or recorded as a line that could not be read: the
/// number of texts written is the number of lines less the number of entries
/// of these two kinds. The pipeline has counted every line, and a run
/// without a failing write records nothing else.
pub proof fn lemma_every_line_is_written_or_recorded(
    file: Seq<char>,
    config: CleaningConfiguration,
    lines: Seq<LineReadView>,
)
    ensures
        ({
            let end = run(file, config, lines);
            &&& end.output.len() + count_mismatches(end.state.problems) + count_read_errors(
                end.state.problems,
            ) == lines.len()
            &&& end.state.problems.len() == count_mismatches(end.state.problems)
                + count_read_errors(end.state.problems)
            &&& end.state.validator.line_number == lines.len()
            &&& end.state.file == file
            &&& end.state.config == config
        }),
    decreases lines.len(),
{
    if lines.len() > 0 {
        lemma_every_line_is_written_or_recorded(file, config, lines.drop_last());
        let before = run(file, config, lines.drop_last()).state;
        let after = run(file, config, lines).state;
        if after.problems.len() > before.problems.len() {
            assert(after.problems.drop_last() =~= before.problems);
        }
    }
}

/// The lines `lines` as the lines of a file that were all read.
pub open spec fn all_read(lines: Seq<Seq<char>>) -> Seq<LineReadView> {
    lines.map_values(|line: Seq<char>| LineReadView::Text(line))
}

/// A file in which no line needs a repair and every row has as many fields
/// as the first line comes out as it went in, but for the line endings:
/// every line is written, as it is, with the line ending of the settings
/// behind it, and nothing is recorded. Lines without quotes and backslashes
/// need no repair, unless they hold a line break that the settings drop.
pub proof fn lemma_well_formed_file_is_kept(
    file: Seq<char>,
    config: CleaningConfiguration,
    lines: Seq<Seq<char>>,
)
    requires
        forall|i: int| 0 <= i < lines.len() ==> needs_no_repair(#[trigger] lines[i], config),
        forall|i: int|
            0 <= i < lines.len() ==> column_count(#[trigger] lines[i], config.separator)
                == column_count(lines[0], config.separator),
    ensures
        ({
            let end = run(file, config, all_read(lines));
            &&& end.output == lines.map_values(
                |line: Seq<char>| line + config.line_terminator.chars(),
            )
            &&& end.state.problems.len() == 0
        }),
    decreases lines.len(),
{
    let end = run(file, config, all_read(lines));
    let kept = lines.map_values(|line: Seq<char>| line + config.line_terminator.chars());
    if lines.len() == 0 {
        assert(end.output =~= kept);
    } else {
        let front = lines.drop_last();
        let line = lines.last();
        assert forall|i: int| 0 <= i < front.len() implies needs_no_repair(
            #[trigger] front[i],
            config,
        ) by {
            assert(front[i] == lines[i]);
        }
        assert forall|i: int| 0 <= i < front.len() implies column_count(
            #[trigger] front[i],
            config.separator,
        ) == column_count(front[0], config.separator) by {
            assert(front[i] == lines[i]);
            assert(front[0] == lines[0]);
        }
        lemma_well_formed_file_is_kept(file, config, front);
        lemma_header_of_well_formed_file(file, config, front);
        assert(all_read(lines).drop_last() =~= all_read(front));
        assert(all_read(lines).last() == LineReadView::Text(line));
        assert(needs_no_repair(line, config));
        lemma_dirty_iff_repair_needed(line, config);
        crate::cleaner::lemma_clean_text_is_input(line, config);
        assert(column_count(line, config.separator) == column_count(lines[0], config.separator));
        if front.len() > 0 {
            assert(front[0] == lines[0]);
        }
        assert(end.output =~= kept);
    }
}

/// After the lines of a file that were all read, the header's number of
/// fields is that of the first line.
proof fn lemma_header_of_well_formed_file(
    file: Seq<char>,
    config: CleaningConfiguration,
    lines: Seq<Seq<char>>,
)
    ensures
        run(file, config, all_read(lines)).state.config == config,
        run(file, config, all_read(lines)).state.validator.expected_columns == if lines.len()
            == 0 {
            None
        } else {
            Some(column_count(lines[0], config.separator))
        },
    decreases lines.len(),
{
    if lines.len() > 0 {
        let front = lines.drop_last();
        lemma_header_of_well_formed_file(file, config, front);
        assert(all_read(lines).drop_last() =~= all_read(front));
        assert(all_read(lines).last() == LineReadView::Text(lines.last()));
        if front.len() > 0 {
            assert(front[0] == lines[0]);
        }
    }
}

} // verus!
