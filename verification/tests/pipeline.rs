use csv_cleaner::config::CleaningConfiguration;
use csv_cleaner::pipeline::{FileCleaningPipeline, LineAction, LineRead};
use csv_cleaner::report::Problem;
use csv_cleaner::validator::ColumnMismatch;

fn read(lines: &[&str]) -> Vec<LineRead> {
    lines.iter().map(|line| LineRead::Text(line.to_string())).collect()
}

fn written(action: LineAction) -> (String, bool, Option<usize>) {
    match action {
        LineAction::Write { text, dirty, header_columns } => (text, dirty, header_columns),
        LineAction::Skip { mismatch } => panic!("skipped: {:?}", mismatch),
    }
}

fn count<F: Fn(&Problem) -> bool>(problems: &Vec<Problem>, f: F) -> usize {
    problems.iter().filter(|problem| f(problem)).count()
}

#[test]
fn short_row_is_left_out_and_recorded() {
    let config = CleaningConfiguration::default();
    let (output, report) = FileCleaningPipeline::process("in.csv", config, &read(&["a,b,c", "1,2"]));
    assert_eq!(output, vec!["a,b,c\r\n".to_string()]);
    assert_eq!(report.len(), 1);
    assert!(report.problems()[0].is_mismatch());
    assert_eq!(report.problems()[0].line_number(), Some(2));
    assert_eq!(
        report.messages(),
        vec!["in.csv, line 2: expected 3 columns but found 2".to_string()]
    );
}

#[test]
fn output_has_a_line_for_every_input_line_but_mismatches_and_read_errors() {
    let config = CleaningConfiguration::from_options(',', false, true, false, false, false);
    let lines = vec![
        LineRead::Text("a,b,c".to_string()),
        LineRead::Text("1,2".to_string()),
        LineRead::Failed("stream did not contain valid UTF-8".to_string()),
        LineRead::Text("1,2,3".to_string()),
        LineRead::Text("1,2,3,4".to_string()),
        LineRead::Text("x,\"y,z".to_string()),
        LineRead::Failed("broken pipe".to_string()),
        LineRead::Text("p,q,r".to_string()),
    ];
    let (output, report) = FileCleaningPipeline::process("in.csv", config, &lines);
    let mismatches = count(report.problems(), |problem| problem.is_mismatch());
    let read_errors = count(report.problems(), |problem| problem.is_read_error());
    assert_eq!(mismatches, 2);
    assert_eq!(read_errors, 2);
    assert_eq!(report.len(), 4);
    assert_eq!(output.len(), lines.len() - mismatches - read_errors);
    assert_eq!(
        output,
        vec![
            "a,b,c\n".to_string(),
            "1,2,3\n".to_string(),
            "x,\\\"y\\\",z\n".to_string(),
            "p,q,r\n".to_string(),
        ]
    );
    assert_eq!(
        report.messages(),
        vec![
            "in.csv, line 2: expected 3 columns but found 2".to_string(),
            "in.csv, line 3: couldn't read the line due to stream did not contain valid UTF-8"
                .to_string(),
            "in.csv, line 5: expected 3 columns but found 4".to_string(),
            "in.csv, line 7: couldn't read the line due to broken pipe".to_string(),
        ]
    );
}

#[test]
fn well_formed_file_is_kept_but_for_line_endings() {
    let lines = ["id,name,city", "1,Ada,London", "2,Grace,New York", "3,,", "4,Linus,Helsinki"];
    for linux in [false, true] {
        for bits in 0..8u8 {
            let config = CleaningConfiguration::from_options(
                ',',
                false,
                linux,
                bits & 1 != 0,
                bits & 2 != 0,
                bits & 4 != 0,
            );
            let (output, report) = FileCleaningPipeline::process("in.csv", config, &read(&lines));
            let ending = if linux { "\n" } else { "\r\n" };
            let expected: Vec<String> = lines.iter().map(|line| format!("{}{}", line, ending)).collect();
            assert_eq!(output, expected);
            assert!(report.is_empty());
            assert_eq!(report.len(), 0);
            assert_eq!(report.messages(), Vec::<String>::new());
            assert_eq!(output.concat(), lines.join(ending) + ending);
        }
    }
}

#[test]
fn empty_file_gives_nothing() {
    let config = CleaningConfiguration::default();
    let (output, report) = FileCleaningPipeline::process("empty.csv", config, &Vec::new());
    assert!(output.is_empty());
    assert!(report.is_empty());
    assert_eq!(report.file(), "empty.csv");
}

#[test]
fn unreadable_first_line_is_not_the_header() {
    let config = CleaningConfiguration::from_options(',', false, true, false, false, false);
    let lines = vec![
        LineRead::Failed("bad bytes".to_string()),
        LineRead::Text("a,b".to_string()),
        LineRead::Text("1,2".to_string()),
        LineRead::Text("1".to_string()),
    ];
    let (output, report) = FileCleaningPipeline::process("in.csv", config, &lines);
    assert_eq!(output, vec!["a,b\n".to_string(), "1,2\n".to_string()]);
    assert_eq!(
        report.messages(),
        vec![
            "in.csv, line 1: couldn't read the line due to bad bytes".to_string(),
            "in.csv, line 4: expected 2 columns but found 1".to_string(),
        ]
    );
}

#[test]
fn columns_are_counted_before_the_repair() {
    let config = CleaningConfiguration::from_options(',', false, true, false, false, true);
    let (output, report) =
        FileCleaningPipeline::process("in.csv", config, &read(&["a,b", "\"1\",\"2\"", "\\1,2\\"]));
    assert_eq!(output, vec!["a,b\n".to_string(), "1,2\n".to_string(), "1,2\n".to_string()]);
    assert!(report.is_empty());
}

#[test]
fn first_line_is_written_as_the_header() {
    let config = CleaningConfiguration::default();
    let mut pipeline = FileCleaningPipeline::new("in.csv", config);
    assert_eq!(pipeline.line_number(), 0);
    assert_eq!(*pipeline.config(), config);
    let (text, dirty, header_columns) = written(pipeline.accept_line("a,b,c"));
    assert_eq!(text, "a,b,c\r\n");
    assert!(!dirty);
    assert_eq!(header_columns, Some(3));
    assert_eq!(pipeline.line_number(), 1);
    let (text, dirty, header_columns) = written(pipeline.accept_line("1,\"2\",3"));
    assert_eq!(text, "1,\\\"2\\\",3\r\n");
    assert!(dirty);
    assert_eq!(header_columns, None);
    assert_eq!(pipeline.line_number(), 2);
    assert!(pipeline.finish().is_empty());
}

#[test]
fn mismatch_is_skipped_and_the_file_goes_on() {
    let config = CleaningConfiguration::from_options(';', false, true, false, false, false);
    let mut pipeline = FileCleaningPipeline::new("in.csv", config);
    written(pipeline.accept_line("a;b"));
    match pipeline.accept_line("1;2;3") {
        LineAction::Skip { mismatch } => {
            assert_eq!(mismatch, ColumnMismatch { line_number: 2, expected: 2, actual: 3 })
        }
        LineAction::Write { .. } => panic!("written"),
    }
    let (text, dirty, header_columns) = written(pipeline.accept_line("1;2"));
    assert_eq!(text, "1;2\n");
    assert!(!dirty);
    assert_eq!(header_columns, None);
    let report = pipeline.finish();
    assert_eq!(report.messages(), vec!["in.csv, line 2: expected 2 columns but found 3".to_string()]);
}

#[test]
fn write_failure_is_recorded_for_the_current_line() {
    let config = CleaningConfiguration::default();
    let mut pipeline = FileCleaningPipeline::new("out.csv", config);
    written(pipeline.accept_line("a,b"));
    written(pipeline.accept_line("1,2"));
    pipeline.write_failed("disk full");
    let (text, _, _) = written(pipeline.accept_line("3,4"));
    assert_eq!(text, "3,4\r\n");
    let report = pipeline.finish();
    assert_eq!(report.len(), 1);
    assert!(!report.problems()[0].is_mismatch());
    assert!(!report.problems()[0].is_read_error());
    assert_eq!(report.problems()[0].line_number(), Some(2));
    assert_eq!(
        report.messages(),
        vec!["out.csv, line 2: couldn't write the line due to disk full".to_string()]
    );
}

#[test]
fn read_failure_is_recorded_and_counted() {
    let config = CleaningConfiguration::default();
    let mut pipeline = FileCleaningPipeline::new("in.csv", config);
    written(pipeline.accept_line("a,b"));
    pipeline.read_failed("unexpected end of file");
    assert_eq!(pipeline.line_number(), 2);
    let report = pipeline.finish();
    assert!(report.problems()[0].is_read_error());
    assert_eq!(
        report.messages(),
        vec!["in.csv, line 2: couldn't read the line due to unexpected end of file".to_string()]
    );
}

#[test]
fn flush_failure_is_the_last_entry() {
    let config = CleaningConfiguration::default();
    let mut pipeline = FileCleaningPipeline::new("in.csv", config);
    written(pipeline.accept_line("a,b"));
    pipeline.accept_line("1");
    let report = pipeline.flush_failed("no space left on device");
    assert_eq!(report.len(), 2);
    assert_eq!(report.problems()[1].line_number(), None);
    assert_eq!(
        report.messages(),
        vec![
            "in.csv, line 2: expected 2 columns but found 1".to_string(),
            "Couldn't flush the output of in.csv due to no space left on device".to_string(),
        ]
    );
}

#[test]
fn open_failure_gives_a_report_of_one_entry() {
    let report = FileCleaningPipeline::open_failed("C:\\Downloads\\in.csv", "access denied");
    assert_eq!(report.file(), "C:\\Downloads\\in.csv");
    assert_eq!(report.len(), 1);
    assert!(!report.is_empty());
    assert_eq!(report.problems()[0].line_number(), None);
    assert_eq!(
        report.messages(),
        vec!["Couldn't open file C:\\Downloads\\in.csv due to access denied".to_string()]
    );
}

#[test]
fn line_numbers_are_written_in_base_ten() {
    let config = CleaningConfiguration::from_options(',', false, true, false, false, false);
    let mut lines = vec!["a,b"; 120];
    lines[9] = "x";
    lines[99] = "x,y,z";
    lines[119] = "";
    let (output, report) = FileCleaningPipeline::process("big.csv", config, &read(&lines));
    assert_eq!(output.len(), 117);
    assert_eq!(
        report.messages(),
        vec![
            "big.csv, line 10: expected 2 columns but found 1".to_string(),
            "big.csv, line 100: expected 2 columns but found 3".to_string(),
            "big.csv, line 120: expected 2 columns but found 1".to_string(),
        ]
    );
}

#[test]
fn column_counts_are_written_in_base_ten() {
    let problem = Problem::Mismatch(ColumnMismatch { line_number: 7, expected: 1024, actual: 90 });
    assert_eq!(problem.describe("f.csv"), "f.csv, line 7: expected 1024 columns but found 90");
    let problem = Problem::Mismatch(ColumnMismatch {
        line_number: u64::MAX,
        expected: 0,
        actual: 305,
    });
    assert_eq!(
        problem.describe(""),
        ", line 18446744073709551615: expected 0 columns but found 305"
    );
}

#[test]
fn every_kind_of_problem_is_described() {
    let reason = "r".to_string();
    assert_eq!(
        Problem::Open { reason: reason.clone() }.describe("f"),
        "Couldn't open file f due to r"
    );
    assert_eq!(
        Problem::Read { line_number: 1, reason: reason.clone() }.describe("f"),
        "f, line 1: couldn't read the line due to r"
    );
    assert_eq!(
        Problem::Write { line_number: 23, reason: reason.clone() }.describe("f"),
        "f, line 23: couldn't write the line due to r"
    );
    assert_eq!(
        Problem::Flush { reason: reason.clone() }.describe("f"),
        "Couldn't flush the output of f due to r"
    );
    assert_eq!(Problem::Open { reason: reason.clone() }.line_number(), None);
    assert_eq!(Problem::Read { line_number: 1, reason: reason.clone() }.line_number(), Some(1));
    assert_eq!(Problem::Write { line_number: 23, reason }.line_number(), Some(23));
}
