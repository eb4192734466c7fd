use crabping::command::{check_count, parse_count, plan, Command, CountError};

fn args(items: &[&str]) -> Vec<String> {
    items.iter().map(|s| s.to_string()).collect()
}

#[test]
fn count_bounds() {
    assert_eq!(parse_count("0"), Err(CountError::BelowMinimum));
    assert_eq!(parse_count("1"), Ok(1));
    assert_eq!(parse_count("200"), Ok(200));
    assert_eq!(parse_count("201"), Err(CountError::AboveMaximum));
    assert_eq!(parse_count("4294967295"), Err(CountError::AboveMaximum));
    assert_eq!(parse_count("+7"), Ok(7));
}

#[test]
fn non_numeric_counts() {
    for bad in ["abc", "", "-3", "1.5", " 5", "4294967296", "+", "12a"] {
        assert_eq!(parse_count(bad), Err(CountError::NonNumeric), "input {:?}", bad);
    }
}

#[test]
fn check_count_verdicts() {
    assert_eq!(check_count(None), Err(CountError::NonNumeric));
    assert_eq!(check_count(Some(0)), Err(CountError::BelowMinimum));
    assert_eq!(check_count(Some(150)), Ok(150));
    assert_eq!(check_count(Some(1000)), Err(CountError::AboveMaximum));
}

#[test]
fn messages_name_the_bound() {
    assert_eq!(CountError::NonNumeric.message(), "Error! Non numeric third parameter");
    assert_eq!(CountError::BelowMinimum.message(), "Error! Minimum requests is 1");
    assert_eq!(CountError::AboveMaximum.message(), "Error! Maximum requests is 200");
}

#[test]
fn plan_by_argument_count() {
    assert_eq!(plan(args(&[])), Command::Help);
    assert_eq!(plan(args(&["http://x.test"])), Command::Single { url: "http://x.test".to_string() });
    assert_eq!(
        plan(args(&["http://x.test", "5"])),
        Command::Batch { url: "http://x.test".to_string(), count: 5 }
    );
    assert_eq!(plan(args(&["http://x.test", "5", "extra"])), Command::TooManyArguments);
}

#[test]
fn refused_counts_never_plan_a_batch() {
    assert_eq!(plan(args(&["http://x.test", "0"])), Command::Rejected(CountError::BelowMinimum));
    assert_eq!(plan(args(&["http://x.test", "201"])), Command::Rejected(CountError::AboveMaximum));
    assert_eq!(plan(args(&["http://x.test", "many"])), Command::Rejected(CountError::NonNumeric));
}
