use command_outcome::{
    CommandOutputLine, CommandResult, Failure, LineOrigin, Report, Stats,
};

fn raw(content: &str, origin: LineOrigin) -> CommandOutputLine {
    CommandOutputLine {
        content: String::from(content),
        origin,
    }
}

fn sample_report() -> Report {
    Report {
        lines: vec![
            String::from("first"),
            String::from("second"),
            String::from("third"),
        ],
        stats: Stats {
            errors: 1,
            warnings: 2,
        },
    }
}

fn sample_failure() -> Failure {
    Failure {
        error_code: 7,
        lines: vec![
            raw("alpha", LineOrigin::Stdout),
            raw("beta", LineOrigin::Stderr),
        ],
    }
}

#[test]
fn lines_len_of_not_computed_is_zero() {
    let outcome = CommandResult::NotComputed;
    assert_eq!(outcome.lines_len(), 0);
}

#[test]
fn lines_len_counts_report_lines() {
    let outcome = CommandResult::Report(sample_report());
    assert_eq!(outcome.lines_len(), 3);
}

#[test]
fn lines_len_counts_failure_lines() {
    let outcome = CommandResult::Failure(sample_failure());
    assert_eq!(outcome.lines_len(), 2);
}

#[test]
fn reverse_reverses_report_lines_and_keeps_stats() {
    let mut outcome = CommandResult::Report(sample_report());
    outcome.reverse();
    match outcome {
        CommandResult::Report(rep) => {
            assert_eq!(rep.lines, vec!["third", "second", "first"]);
            assert_eq!(rep.stats.errors, 1);
            assert_eq!(rep.stats.warnings, 2);
        }
        _ => panic!("reverse must not change the variant"),
    }
}

#[test]
fn reverse_reverses_failure_lines_and_keeps_code() {
    let mut outcome = CommandResult::Failure(sample_failure());
    outcome.reverse();
    match outcome {
        CommandResult::Failure(failure) => {
            assert_eq!(failure.error_code, 7);
            assert_eq!(failure.lines.len(), 2);
            assert_eq!(failure.lines[0].content, "beta");
            assert_eq!(failure.lines[1].content, "alpha");
        }
        _ => panic!("reverse must not change the variant"),
    }
}

#[test]
fn reverse_twice_restores_report_order() {
    let mut outcome = CommandResult::Report(sample_report());
    outcome.reverse();
    outcome.reverse();
    match outcome {
        CommandResult::Report(rep) => {
            assert_eq!(rep.lines, vec!["first", "second", "third"]);
        }
        _ => panic!("reverse must not change the variant"),
    }
}

#[test]
fn reverse_twice_restores_failure_order() {
    let mut outcome = CommandResult::Failure(sample_failure());
    outcome.reverse();
    outcome.reverse();
    match outcome {
        CommandResult::Failure(failure) => {
            assert_eq!(failure.lines[0].content, "alpha");
            assert_eq!(failure.lines[1].content, "beta");
        }
        _ => panic!("reverse must not change the variant"),
    }
}

#[test]
fn reverse_of_not_computed_is_a_no_op() {
    let mut outcome = CommandResult::NotComputed;
    outcome.reverse();
    assert!(matches!(outcome, CommandResult::NotComputed));
    assert_eq!(outcome.lines_len(), 0);
}

#[test]
fn report_reverse_alone_reverses_its_lines() {
    let mut rep = sample_report();
    rep.reverse();
    assert_eq!(rep.lines, vec!["third", "second", "first"]);
    assert_eq!(rep.stats.errors, 1);
}
