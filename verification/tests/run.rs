use retry_backoff::retry::RetryConfig;
use retry_backoff::retry::RetryOutcome;
use retry_backoff::run::replay;
use retry_backoff::run::Run;

type Outcome = Result<&'static str, &'static str>;

#[test]
fn replay_of_two_failures_and_a_success() {
    let config = RetryConfig { max_retries: 3, base_delay: 10 };
    let report = replay(&config, vec![Outcome::Err("a"), Err("b"), Ok("value of attempt 2")]);
    assert_eq!(report.invocations, 3);
    assert_eq!(report.sleeps, vec![10, 20]);
    assert_eq!(report.outcome, Some(RetryOutcome::Success("value of attempt 2")));
}

#[test]
fn replay_of_failures_only() {
    let config = RetryConfig { max_retries: 2, base_delay: 250 };
    let report = replay(&config, vec![Outcome::Err("E"), Err("E"), Err("E")]);
    assert_eq!(
        report,
        Run { invocations: 3, sleeps: vec![250, 500], outcome: Some(RetryOutcome::Failure("E")) }
    );
}

#[test]
fn replay_reports_the_last_error() {
    let config = RetryConfig { max_retries: 2, base_delay: 1 };
    let report = replay(&config, vec![Outcome::Err("first"), Err("second"), Err("third")]);
    assert_eq!(report.outcome, Some(RetryOutcome::Failure("third")));
}

#[test]
fn replay_ignores_outcomes_after_the_end() {
    let config = RetryConfig { max_retries: 1, base_delay: 4 };
    let report = replay(&config, vec![Outcome::Err("a"), Err("b"), Ok("never invoked"), Err("nor this")]);
    assert_eq!(
        report,
        Run { invocations: 2, sleeps: vec![4], outcome: Some(RetryOutcome::Failure("b")) }
    );
    let report = replay(&config, vec![Outcome::Ok("at once"), Err("never invoked")]);
    assert_eq!(
        report,
        Run { invocations: 1, sleeps: vec![], outcome: Some(RetryOutcome::Success("at once")) }
    );
}

#[test]
fn replay_without_retries() {
    let config = RetryConfig { max_retries: 0, base_delay: 10 };
    assert_eq!(
        replay(&config, vec![Outcome::Err("only")]),
        Run { invocations: 1, sleeps: vec![], outcome: Some(RetryOutcome::Failure("only")) }
    );
    assert_eq!(
        replay(&config, vec![Outcome::Ok("only")]),
        Run { invocations: 1, sleeps: vec![], outcome: Some(RetryOutcome::Success("only")) }
    );
}

#[test]
fn replay_of_too_few_outcomes_has_not_ended() {
    let config = RetryConfig { max_retries: 5, base_delay: 10 };
    assert_eq!(
        replay(&config, Vec::<Outcome>::new()),
        Run { invocations: 0, sleeps: vec![], outcome: None }
    );
    assert_eq!(
        replay(&config, vec![Outcome::Err("a"), Err("b")]),
        Run { invocations: 2, sleeps: vec![10, 20], outcome: None }
    );
}

#[test]
fn replay_for_every_number_of_failures() {
    let max_retries = 12usize;
    let config = RetryConfig { max_retries, base_delay: 3 };
    for failures in 0..=max_retries {
        let mut outcomes: Vec<Outcome> = vec![Err("down"); failures];
        outcomes.push(Ok("up"));
        let report = replay(&config, outcomes);
        assert_eq!(report.invocations, failures + 1);
        assert_eq!(report.sleeps, (0..failures).map(|k| 3u64 << k).collect::<Vec<u64>>());
        assert_eq!(report.outcome, Some(RetryOutcome::Success("up")));
    }
    let report = replay(&config, vec![Outcome::Err("down"); max_retries + 5]);
    assert_eq!(report.invocations, max_retries + 1);
    assert_eq!(report.sleeps.len(), max_retries);
    assert_eq!(report.outcome, Some(RetryOutcome::Failure("down")));
}

#[test]
fn replay_clamps_the_waits() {
    let config = RetryConfig { max_retries: 3, base_delay: u64::MAX / 2 };
    let report = replay(&config, vec![Outcome::Err("down"); 4]);
    assert_eq!(report.sleeps, vec![u64::MAX / 2, u64::MAX - 1, u64::MAX]);
}
