use repo_patcher::flow::{Outcome, Stage};
use repo_patcher::report::{RepoOutcome, patch_crates, reset_report, update_and_check};

fn outcome(repo: &str, outcome: Outcome) -> RepoOutcome {
    RepoOutcome { repo: repo.to_string(), outcome }
}

#[test]
fn patch_report_buckets_by_outcome_in_order() {
    let outcomes = vec![
        outcome("alpha", Outcome::Success),
        outcome("beta", Outcome::Failure(Stage::ManifestPatch)),
        outcome("gamma", Outcome::Success),
    ];
    let report = patch_crates(&outcomes);
    assert_eq!(report.succeeded, vec!["alpha".to_string(), "gamma".to_string()]);
    assert_eq!(report.failed, vec!["beta".to_string()]);
}

#[test]
fn one_failure_leaves_the_other_repositories_untouched() {
    // Repository beta fails mid-batch; alpha (earlier) and gamma (later)
    // still reach their own terminal outcome and their own bucket.
    let with_failure = vec![
        outcome("alpha", Outcome::Success),
        outcome("beta", Outcome::Failure(Stage::DependencyUpdate)),
        outcome("gamma", Outcome::Success),
    ];
    let without_failure = vec![
        outcome("alpha", Outcome::Success),
        outcome("beta", Outcome::Success),
        outcome("gamma", Outcome::Success),
    ];
    let a = patch_crates(&with_failure);
    let b = patch_crates(&without_failure);
    assert!(a.succeeded.contains(&"alpha".to_string()));
    assert!(a.succeeded.contains(&"gamma".to_string()));
    assert!(b.succeeded.contains(&"alpha".to_string()));
    assert!(b.succeeded.contains(&"gamma".to_string()));
    assert_eq!(a.failed, vec!["beta".to_string()]);
    assert_eq!(b.failed, Vec::<String>::new());
}

#[test]
fn update_report_separates_the_three_failure_stages() {
    let outcomes = vec![
        outcome("ok1", Outcome::Success),
        outcome("nomain", Outcome::Failure(Stage::Branch)),
        outcome("noupdate", Outcome::Failure(Stage::DependencyUpdate)),
        outcome("nocheck", Outcome::Failure(Stage::BuildCheck)),
        outcome("ok2", Outcome::Success),
    ];
    let report = update_and_check(&outcomes);
    assert_eq!(report.succeeded, vec!["ok1".to_string(), "ok2".to_string()]);
    assert_eq!(report.checkout_failed, vec!["nomain".to_string()]);
    assert_eq!(report.update_failed, vec!["noupdate".to_string()]);
    assert_eq!(report.check_failed, vec!["nocheck".to_string()]);
}

#[test]
fn reset_report_buckets_like_the_patch_report() {
    let outcomes = vec![
        outcome("alpha", Outcome::Failure(Stage::Branch)),
        outcome("beta", Outcome::Success),
    ];
    let report = reset_report(&outcomes);
    assert_eq!(report.succeeded, vec!["beta".to_string()]);
    assert_eq!(report.failed, vec!["alpha".to_string()]);
}

#[test]
fn empty_batch_yields_empty_report() {
    let outcomes: Vec<RepoOutcome> = Vec::new();
    let report = patch_crates(&outcomes);
    assert!(report.succeeded.is_empty());
    assert!(report.failed.is_empty());
}
