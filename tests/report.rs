use evernote2md::convert::{Failure, Stage};
use evernote2md::report::{outcome_of_write, RunReport};

fn failure(title: &str) -> Failure {
    Failure { title: title.to_string(), stage: Stage::Transform, message: "bad".to_string() }
}

#[test]
fn one_failure_of_four() {
    let outcomes = vec![
        Ok("a".to_string()),
        Ok("b".to_string()),
        Err(failure("c")),
        Ok("d".to_string()),
    ];
    let r = RunReport::from_outcomes(outcomes);
    assert_eq!(r.converted_count(), 3);
    assert_eq!(r.failure_count(), 1);
    assert_eq!(r.converted, vec!["a".to_string(), "b".to_string(), "d".to_string()]);
    assert_eq!(r.failures[0].title, "c");
    assert!(!r.is_success());
}

#[test]
fn all_converted_is_success() {
    let r = RunReport::from_outcomes(vec![Ok("x".to_string()), Ok("x".to_string())]);
    assert_eq!(r.converted_count(), 2);
    assert!(r.is_success());
}

#[test]
fn empty_run_is_success() {
    let r = RunReport::from_outcomes(Vec::new());
    assert_eq!(r.converted_count(), 0);
    assert!(r.is_success());
}

#[test]
fn record_appends_in_order() {
    let mut r = RunReport::new();
    r.record(Err(failure("first")));
    r.record(Ok("second".to_string()));
    r.record(Err(failure("third")));
    assert_eq!(r.converted, vec!["second".to_string()]);
    assert_eq!(r.failures.len(), 2);
    assert_eq!(r.failures[0].title, "first");
    assert_eq!(r.failures[1].title, "third");
}

#[test]
fn write_error_becomes_a_failure() {
    match outcome_of_write("n".to_string(), Err("disk full".to_string())) {
        Ok(_) => panic!("expected a failure"),
        Err(f) => {
            assert_eq!(f.stage, Stage::Write);
            assert_eq!(f.title, "n");
            assert_eq!(f.message, "disk full");
        }
    }
    assert_eq!(outcome_of_write("n".to_string(), Ok(())).ok(), Some("n".to_string()));
}
