use p4cli::{P4CliResult, PullPhase, ReadTarget};
use p4cli::{collect_records, merge_records, step};

fn out_line(text: &str) -> Option<String> {
    Some(String::from(text))
}

#[test]
fn read_target_follows_the_phase() {
    assert_eq!(PullPhase::DrainingOut.read_target(), Some(ReadTarget::Stdout));
    assert_eq!(PullPhase::DrainingErr.read_target(), Some(ReadTarget::Stderr));
    assert_eq!(PullPhase::Exhausted.read_target(), None);
}

#[test]
fn step_emits_output_while_stdout_flows() {
    let (phase, emitted) = step(PullPhase::DrainingOut, out_line("hello"));
    assert_eq!(phase, PullPhase::DrainingOut);
    let record = emitted.unwrap();
    assert!(record.is_out());
    assert_eq!(record.text().as_str(), "hello");
}

#[test]
fn step_turns_to_stderr_at_stdout_end() {
    let (phase, emitted) = step(PullPhase::DrainingOut, None);
    assert_eq!(phase, PullPhase::DrainingErr);
    assert!(emitted.is_none());
}

#[test]
fn step_emits_error_lines_after_stdout() {
    let (phase, emitted) = step(PullPhase::DrainingErr, out_line("warn"));
    assert_eq!(phase, PullPhase::DrainingErr);
    let record = emitted.unwrap();
    assert!(!record.is_out());
    assert_eq!(record.text().as_str(), "warn");
}

#[test]
fn step_exhausts_at_stderr_end() {
    let (phase, emitted) = step(PullPhase::DrainingErr, None);
    assert_eq!(phase, PullPhase::Exhausted);
    assert!(emitted.is_none());

    let (still, nothing) = step(PullPhase::Exhausted, out_line("late"));
    assert_eq!(still, PullPhase::Exhausted);
    assert!(nothing.is_none());
}

#[test]
fn merge_is_stdout_biased() {
    // A child that alternated its writes (o1, e1, o2, e2, o3) still comes
    // out with every stdout line first: the policy drains stdout to its end
    // before it ever reads stderr.
    let out: Vec<String> = vec!["o1", "o2", "o3"].into_iter().map(String::from).collect();
    let err: Vec<String> = vec!["e1", "e2"].into_iter().map(String::from).collect();
    let records = merge_records(&out, &err);
    let shape: Vec<(bool, &str)> = records
        .iter()
        .map(|r| (r.is_out(), r.text().as_str()))
        .collect();
    assert_eq!(
        shape,
        vec![
            (true, "o1"),
            (true, "o2"),
            (true, "o3"),
            (false, "e1"),
            (false, "e2"),
        ]
    );
}

#[test]
fn merge_loses_and_duplicates_nothing() {
    let out: Vec<String> = vec!["a", "b"].into_iter().map(String::from).collect();
    let err: Vec<String> = vec!["x"].into_iter().map(String::from).collect();
    let records = merge_records(&out, &err);
    assert_eq!(records.len(), out.len() + err.len());
    let out_back: Vec<String> = records
        .iter()
        .filter(|r| r.is_out())
        .map(|r| r.text().clone())
        .collect();
    let err_back: Vec<String> = records
        .iter()
        .filter(|r| !r.is_out())
        .map(|r| r.text().clone())
        .collect();
    assert_eq!(out_back, out);
    assert_eq!(err_back, err);
}

#[test]
fn merge_of_nothing_is_empty() {
    let records = merge_records(&Vec::new(), &Vec::new());
    assert!(records.is_empty());
}

#[test]
fn merge_with_silent_stdout_starts_with_errors() {
    let err: Vec<String> = vec![String::from("oops")];
    let records = merge_records(&Vec::new(), &err);
    assert_eq!(records.len(), 1);
    assert!(!records[0].is_out());
    assert_eq!(records[0].text().as_str(), "oops");
}

#[test]
fn collect_records_from_captured_streams() {
    let out_content = b"Usage: p4 [options] command\nSee p4 help.\n".to_vec();
    let err_content = b"warning: none\n".to_vec();
    let records = collect_records(&out_content, &err_content).unwrap();
    assert!(!records.is_empty());
    assert!(records[0].is_out());
    assert!(records[0].text().contains("Usage:"));
    assert_eq!(records.len(), 3);
    assert!(!records[2].is_out());
    assert_eq!(records[2].text().as_str(), "warning: none");
}

#[test]
fn collect_records_rejects_a_malformed_stream() {
    let out_content = b"fine\n".to_vec();
    let err_content = vec![b'w', 0xff, b'\n'];
    let outcome = collect_records(&out_content, &err_content);
    assert!(matches!(outcome, Err(p4cli::P4CliError::InvalidEncoding)));
}

#[test]
fn records_print_as_their_line_content() {
    let out_record = P4CliResult::Out(String::from("plain"));
    let err_record = P4CliResult::ErrLine(String::from("loud"));
    assert_eq!(out_record.text().as_str(), "plain");
    assert_eq!(err_record.text().as_str(), "loud");
}
