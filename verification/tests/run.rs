use csv_cleaner::config::CleaningConfiguration;
use csv_cleaner::pipeline::{FileCleaningPipeline, LineRead};
use csv_cleaner::run::{RunError, RunSummary};

fn report_of(file: &str, lines: &[&str]) -> csv_cleaner::report::FileCleaningReport {
    let lines: Vec<LineRead> = lines.iter().map(|line| LineRead::Text(line.to_string())).collect();
    FileCleaningPipeline::process(file, CleaningConfiguration::default(), &lines).1
}

#[test]
fn missing_directory_has_one_diagnostic() {
    let error = RunError::DirectoryNotFound { path: "/data/in".to_string() };
    assert_eq!(error.describe(), "Could not find the input directory specified at /data/in");
}

#[test]
fn other_run_errors_name_the_reason() {
    let error = RunError::DirectoryIteration {
        path: "/data/in".to_string(),
        reason: "permission denied".to_string(),
    };
    assert_eq!(
        error.describe(),
        "Some io error occurred during iteration of the files in the directory /data/in: permission denied"
    );
    let error = RunError::OutputDirectory {
        path: "/data/in/out".to_string(),
        reason: "read-only file system".to_string(),
    };
    assert_eq!(
        error.describe(),
        "Could not create the output directory /data/in/out due to read-only file system"
    );
}

#[test]
fn summary_without_problems_shows_nothing() {
    let mut summary = RunSummary::new();
    assert!(summary.is_empty());
    summary.add(&report_of("a.csv", &["a,b", "1,2"]));
    assert!(summary.is_empty());
    assert!(summary.problems().is_empty());
    assert_eq!(summary.lines(), Vec::<String>::new());
}

#[test]
fn summary_lists_the_problems_of_all_files_in_order() {
    let mut summary = RunSummary::new();
    summary.add(&report_of("a.csv", &["a,b", "1", "1,2", "1,2,3"]));
    summary.add(&report_of("b.csv", &["a,b", "1,2"]));
    summary.add(&FileCleaningPipeline::open_failed("c.csv", "not found"));
    assert!(!summary.is_empty());
    let problems = vec![
        "a.csv, line 2: expected 2 columns but found 1".to_string(),
        "a.csv, line 4: expected 2 columns but found 3".to_string(),
        "Couldn't open file c.csv due to not found".to_string(),
    ];
    assert_eq!(*summary.problems(), problems);
    let mut lines = vec![
        String::new(),
        "The following problems were found and could not be solved by this tool. Please look into them:"
            .to_string(),
        String::new(),
    ];
    lines.extend(problems);
    assert_eq!(summary.lines(), lines);
}
