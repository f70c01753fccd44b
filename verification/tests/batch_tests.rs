use doordash_gen::account::Account;
use doordash_gen::account::Date;
use doordash_gen::batch::failure_name;
use doordash_gen::batch::failure_note;
use doordash_gen::batch::AttemptOutcome;
use doordash_gen::batch::BatchState;
use doordash_gen::batch::FailurePoint;
use doordash_gen::orchestrator::SignupStep;

fn account(email: &str) -> Account {
    Account::new(
        email.to_string(),
        "pw".to_string(),
        Date { year: 2024, month: 12, day: 25 },
    )
}

#[test]
fn all_successes_fill_the_batch() {
    let mut batch = BatchState::new(3);
    assert!(!batch.done());
    for i in 0..3 {
        batch.record_outcome(AttemptOutcome::Success(account(&format!("a{}@x.y", i))));
    }
    assert!(batch.done());
    assert_eq!(batch.attempted, 3);
    assert_eq!(batch.accounts.len(), 3);
    assert_eq!(batch.failures, 0);
}

#[test]
fn results_never_exceed_attempts() {
    let mut batch = BatchState::new(4);
    batch.record_outcome(AttemptOutcome::Success(account("a@x.y")));
    batch.record_outcome(AttemptOutcome::Failure(FailurePoint::SessionStart));
    batch.record_outcome(AttemptOutcome::Success(account("b@x.y")));
    batch.record_outcome(AttemptOutcome::Failure(FailurePoint::Step(
        SignupStep::Submit,
    )));
    assert!(batch.done());
    assert_eq!(batch.attempted, 4);
    assert_eq!(batch.accounts.len(), 2);
    assert_eq!(batch.failures, 2);
}

#[test]
fn zero_quantity_performs_no_attempt() {
    let batch = BatchState::new(0);
    assert!(batch.done());
    assert_eq!(batch.attempted, 0);
    assert!(batch.accounts.is_empty());
}

#[test]
fn a_failure_is_isolated_from_its_neighbours() {
    let mut batch = BatchState::new(3);
    batch.record_outcome(AttemptOutcome::Success(account("before@x.y")));
    batch.record_outcome(AttemptOutcome::Failure(FailurePoint::Step(
        SignupStep::Address,
    )));
    batch.record_outcome(AttemptOutcome::Success(account("after@x.y")));
    assert_eq!(batch.accounts.len(), 2);
    assert_eq!(batch.accounts[0].email, "before@x.y");
    assert_eq!(batch.accounts[1].email, "after@x.y");
}

#[test]
fn end_to_end_two_of_three_attempts_succeed() {
    // Jane Doe asks for three accounts; the second attempt fails at the
    // password step.
    let mut batch = BatchState::new(3);
    let mut notes: Vec<String> = Vec::new();

    batch.record_outcome(AttemptOutcome::Success(account("jane+1111111111@example.com")));

    let failed_at = FailurePoint::Step(SignupStep::Password);
    notes.push(failure_note(2, failed_at));
    batch.record_outcome(AttemptOutcome::Failure(failed_at));

    batch.record_outcome(AttemptOutcome::Success(account("jane+3333333333@example.com")));

    assert!(batch.done());
    assert_eq!(batch.accounts.len(), 2);
    assert_eq!(batch.accounts[0].email, "jane+1111111111@example.com");
    assert_eq!(batch.accounts[1].email, "jane+3333333333@example.com");
    assert_eq!(notes, vec!["attempt 2: password step failure".to_string()]);
}

#[test]
fn failure_diagnostics_name_attempt_and_step() {
    assert_eq!(failure_name(FailurePoint::SessionStart), "session start failure");
    assert_eq!(
        failure_name(FailurePoint::Step(SignupStep::Address)),
        "address step failure"
    );
    assert_eq!(
        failure_note(7, FailurePoint::SessionStart),
        "attempt 7: session start failure"
    );
}
