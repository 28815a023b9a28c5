use lwc::dispatch::{plan_invocation, select_branch, trailing_path, Branch, ScanKind, Step};

fn args(tokens: &[&str]) -> Vec<String> {
    tokens.iter().map(|t| t.to_string()).collect()
}

#[test]
fn no_arguments_shows_help() {
    assert_eq!(select_branch(&args(&[])), Branch::ShowHelp);
}

#[test]
fn dash_h_shows_help() {
    assert_eq!(select_branch(&args(&["-h"])), Branch::ShowHelp);
    assert_eq!(select_branch(&args(&["-h", "file.txt"])), Branch::ShowHelp);
}

#[test]
fn leading_flag_selects_dispatch() {
    assert_eq!(select_branch(&args(&["-c", "file.txt"])), Branch::RunSelectedFlags);
    assert_eq!(select_branch(&args(&["-c"])), Branch::RunSelectedFlags);
}

#[test]
fn bare_path_runs_all_metrics() {
    assert_eq!(select_branch(&args(&["file.txt"])), Branch::RunAllMetrics);
}

#[test]
fn hyphenated_file_name_is_taken_for_flags() {
    // The first argument is inspected for `-` and `-h` as substrings, so a
    // plain file name that contains them is routed away from the
    // all-metrics run.
    assert_eq!(select_branch(&args(&["my-file.txt"])), Branch::RunSelectedFlags);
    assert_eq!(select_branch(&args(&["catch-him.txt"])), Branch::ShowHelp);
}

#[test]
fn trailing_path_is_the_last_non_flag_argument() {
    assert_eq!(trailing_path(&args(&["-z", "file.txt"])), Some("file.txt".to_string()));
    assert_eq!(trailing_path(&args(&["-c"])), None);
    assert_eq!(trailing_path(&args(&[])), None);
}

#[test]
fn unrecognized_flag_is_reported_and_nothing_runs() {
    let plan = plan_invocation(&args(&["-z", "file.txt"]));
    assert_eq!(plan, vec![Step::Unrecognized("-z".to_string())]);
}

#[test]
fn flag_without_path_reports_missing_path() {
    let plan = plan_invocation(&args(&["-c"]));
    assert_eq!(plan, vec![Step::NoPath]);
}

#[test]
fn flags_run_in_the_order_given() {
    let plan = plan_invocation(&args(&["-l", "-w", "file.txt"]));
    assert_eq!(plan, vec![Step::Scan(ScanKind::Lines), Step::Scan(ScanKind::Words)]);
}

#[test]
fn every_scanner_flag_maps_to_its_scanner() {
    let plan = plan_invocation(&args(&["-c", "-l", "-w", "-m", "f"]));
    assert_eq!(
        plan,
        vec![
            Step::Scan(ScanKind::Bytes),
            Step::Scan(ScanKind::Lines),
            Step::Scan(ScanKind::Words),
            Step::Scan(ScanKind::Chars),
        ]
    );
}

#[test]
fn unrecognized_flag_does_not_stop_later_flags() {
    let plan = plan_invocation(&args(&["-z", "-l", "f"]));
    assert_eq!(
        plan,
        vec![Step::Unrecognized("-z".to_string()), Step::Scan(ScanKind::Lines)]
    );
}

#[test]
fn help_flag_inside_dispatch_selects_nothing() {
    let plan = plan_invocation(&args(&["-h", "f"]));
    assert_eq!(plan, vec![]);
}

#[test]
fn program_name_token_is_passed_over() {
    let plan = plan_invocation(&args(&["lwc", "-w", "f"]));
    assert_eq!(plan, vec![Step::Scan(ScanKind::Words)]);
}

#[test]
fn missing_path_is_reported_once_per_scanner_flag() {
    let plan = plan_invocation(&args(&["-c", "-l"]));
    assert_eq!(plan, vec![Step::NoPath, Step::NoPath]);
}
