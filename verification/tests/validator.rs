use csv_cleaner::config::CleaningConfiguration;
use csv_cleaner::files::is_csv_file_name;
use csv_cleaner::validator::{count_columns, ColumnMismatch, ColumnValidator};

#[test]
fn columns_are_one_more_than_separators() {
    assert_eq!(count_columns("", ','), 1);
    assert_eq!(count_columns("a", ','), 1);
    assert_eq!(count_columns("a,b,c", ','), 3);
    assert_eq!(count_columns(",,,", ','), 4);
    assert_eq!(count_columns("a,b;c", ';'), 2);
    assert_eq!(count_columns("a\tb\tc\td", '\t'), 4);
    assert_eq!(count_columns("\u{e9},\u{f6},\u{fc}", ','), 3);
}

#[test]
fn columns_are_counted_on_the_raw_line() {
    assert_eq!(count_columns("a,\"b,c\",d", ','), 4);
    assert_eq!(count_columns("a\\,b", ','), 2);
}

#[test]
fn new_validator_has_seen_nothing() {
    let validator = ColumnValidator::new();
    assert_eq!(validator.expected_columns(), None);
    assert_eq!(validator.line_number(), 0);
}

#[test]
fn header_sets_the_expected_columns() {
    let config = CleaningConfiguration::default();
    let mut validator = ColumnValidator::new();
    assert_eq!(validator.observe("a,b,c", &config), Ok(()));
    assert_eq!(validator.expected_columns(), Some(3));
    assert_eq!(validator.line_number(), 1);
}

#[test]
fn header_row_mismatch_is_reported() {
    let config = CleaningConfiguration::default();
    let mut validator = ColumnValidator::new();
    assert_eq!(validator.observe("a,b,c", &config), Ok(()));
    assert_eq!(
        validator.observe("1,2", &config),
        Err(ColumnMismatch { line_number: 2, expected: 3, actual: 2 })
    );
    assert_eq!(validator.expected_columns(), Some(3));
    assert_eq!(validator.line_number(), 2);
}

#[test]
fn matching_rows_are_accepted() {
    let config = CleaningConfiguration::default();
    let mut validator = ColumnValidator::new();
    assert_eq!(validator.observe("a,b,c", &config), Ok(()));
    assert_eq!(validator.observe("1,2,3", &config), Ok(()));
    assert_eq!(validator.observe(",,", &config), Ok(()));
    assert_eq!(
        validator.observe("1,2,3,4", &config),
        Err(ColumnMismatch { line_number: 4, expected: 3, actual: 4 })
    );
    assert_eq!(validator.observe("x,y,z", &config), Ok(()));
    assert_eq!(validator.line_number(), 5);
}

#[test]
fn a_mismatch_does_not_change_the_header() {
    let config = CleaningConfiguration::default();
    let mut validator = ColumnValidator::new();
    assert_eq!(validator.observe("a", &config), Ok(()));
    assert!(validator.observe("1,2", &config).is_err());
    assert!(validator.observe("1,2", &config).is_err());
    assert_eq!(validator.observe("1", &config), Ok(()));
    assert_eq!(validator.expected_columns(), Some(1));
}

#[test]
fn validator_uses_the_configured_separator() {
    let config = CleaningConfiguration::from_options(',', true, false, false, false, false);
    let mut validator = ColumnValidator::new();
    assert_eq!(validator.observe("a\tb", &config), Ok(()));
    assert_eq!(validator.observe("1,2,3\t4", &config), Ok(()));
    assert_eq!(
        validator.observe("1,2", &config),
        Err(ColumnMismatch { line_number: 3, expected: 2, actual: 1 })
    );
}

#[test]
fn skipped_lines_are_counted_and_never_the_header() {
    let config = CleaningConfiguration::default();
    let mut validator = ColumnValidator::new();
    validator.skip_line();
    assert_eq!(validator.line_number(), 1);
    assert_eq!(validator.expected_columns(), None);
    assert_eq!(validator.observe("a,b", &config), Ok(()));
    assert_eq!(validator.expected_columns(), Some(2));
    validator.skip_line();
    assert_eq!(
        validator.observe("1", &config),
        Err(ColumnMismatch { line_number: 4, expected: 2, actual: 1 })
    );
}

#[test]
fn csv_file_names() {
    assert!(is_csv_file_name("data.csv"));
    assert!(is_csv_file_name(".csv"));
    assert!(is_csv_file_name("a.b.csv"));
    assert!(is_csv_file_name("\u{e9}t\u{e9}.csv"));
    assert!(!is_csv_file_name("data.CSV"));
    assert!(!is_csv_file_name("data.Csv"));
    assert!(!is_csv_file_name("data.csv.bak"));
    assert!(!is_csv_file_name("data.tsv"));
    assert!(!is_csv_file_name("datacsv"));
    assert!(!is_csv_file_name("csv"));
    assert!(!is_csv_file_name(""));
    assert!(!is_csv_file_name("data.csv "));
}
