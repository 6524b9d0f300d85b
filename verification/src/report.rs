use vstd::prelude::*;
use crate::deps::views_of;
use crate::flow::{Outcome, Stage};

verus! {

/// One repository's terminal result, labelled by the repository's name
/// (the final segment of its directory path).
#[derive(Debug)]
pub struct RepoOutcome {
    pub repo: String,
    pub outcome: Outcome,
}

/// Mathematical model of a `RepoOutcome`.
pub struct RepoOutcomeV {
    pub repo: Seq<char>,
    pub outcome: Outcome,
}

impl View for RepoOutcome {
    type V = RepoOutcomeV;

    open spec fn view(&self) -> RepoOutcomeV {
        RepoOutcomeV { repo: self.repo@, outcome: self.outcome }
    }
}

/// The models of a sequence of repository outcomes.
pub open spec fn outcome_views(s: Seq<RepoOutcome>) -> Seq<RepoOutcomeV> {
    s.map_values(|o: RepoOutcome| o@)
}

/// The names of the repositories that succeeded, in order.
pub open spec fn success_names(s: Seq<RepoOutcomeV>) -> Seq<Seq<char>> {
    s.filter(|o: RepoOutcomeV| o.outcome is Success).map_values(|o: RepoOutcomeV| o.repo)
}

/// The names of the repositories that failed, at any stage, in order.
pub open spec fn failure_names(s: Seq<RepoOutcomeV>) -> Seq<Seq<char>> {
    s.filter(|o: RepoOutcomeV| !(o.outcome is Success)).map_values(|o: RepoOutcomeV| o.repo)
}

/// The names of the repositories that failed at the given stage, in order.
pub open spec fn stage_names(s: Seq<RepoOutcomeV>, stage: Stage) -> Seq<Seq<char>> {
    s.filter(|o: RepoOutcomeV| o.outcome == Outcome::Failure(stage)).map_values(
        |o: RepoOutcomeV| o.repo,
    )
}

/// A batch summary split into the repositories that succeeded and those
/// that failed, each in processing order.
#[derive(Debug)]
pub struct BatchReport {
    pub succeeded: Vec<String>,
    pub failed: Vec<String>,
}

fn outcome_is_success(o: &Outcome) -> (r: bool)
    ensures
        r == (*o is Success),
{
    match o {
        Outcome::Success => true,
        Outcome::Failure(_) => false,
    }
}

/// Buckets a patch batch's per-repository outcomes into the run-end
/// summary: which repositories were patched and which were not, each
/// side keeping the batch order. Every repository lands in exactly one
/// bucket; one repository's bucket depends on its own outcome alone.
pub fn patch_crates(outcomes: &Vec<RepoOutcome>) -> (r: BatchReport)
    ensures
        views_of(r.succeeded@) == success_names(outcome_views(outcomes@)),
        views_of(r.failed@) == failure_names(outcome_views(outcomes@)),
{
    let mut succeeded: Vec<String> = Vec::new();
    let mut failed: Vec<String> = Vec::new();
    let mut i: usize = 0;
    while i < outcomes.len()
        invariant
            i <= outcomes@.len(),
            views_of(succeeded@) == success_names(outcome_views(outcomes@.take(i as int))),
            views_of(failed@) == failure_names(outcome_views(outcomes@.take(i as int))),
        decreases outcomes@.len() - i,
    {
        let ghost prev = outcome_views(outcomes@.take(i as int));
        let ghost now = outcome_views(outcomes@.take(i + 1));
        let ghost prev_ok = views_of(succeeded@);
        let ghost prev_bad = views_of(failed@);
        if outcome_is_success(&outcomes[i].outcome) {
            succeeded.push(outcomes[i].repo.clone());
        } else {
            failed.push(outcomes[i].repo.clone());
        }
        proof {
            reveal(Seq::filter);
            assert(now.drop_last() =~= prev);
            assert(now.last() == outcomes@[i as int]@);
            if outcomes@[i as int]@.outcome is Success {
                assert(views_of(succeeded@) =~= prev_ok.push(outcomes@[i as int]@.repo));
            } else {
                assert(views_of(failed@) =~= prev_bad.push(outcomes@[i as int]@.repo));
            }
            assert(views_of(succeeded@) =~= success_names(now));
            assert(views_of(failed@) =~= failure_names(now));
        }
        i += 1;
    }
    proof {
        assert(outcomes@.take(outcomes@.len() as int) =~= outcomes@);
    }
    BatchReport { succeeded, failed }
}

/// Buckets a reset batch's per-repository outcomes, exactly as
/// `patch_crates` buckets a patch batch.
pub fn reset_report(outcomes: &Vec<RepoOutcome>) -> (r: BatchReport)
    ensures
        views_of(r.succeeded@) == success_names(outcome_views(outcomes@)),
        views_of(r.failed@) == failure_names(outcome_views(outcomes@)),
{
    patch_crates(outcomes)
}

/// The run-end summary of an update-and-check batch: the repositories
/// that passed, and those that failed at each of the three stages.
#[derive(Debug)]
pub struct UpdateReport {
    pub succeeded: Vec<String>,
    pub checkout_failed: Vec<String>,
    pub update_failed: Vec<String>,
    pub check_failed: Vec<String>,
}

fn outcome_fails_at(o: &Outcome, stage: Stage) -> (r: bool)
    ensures
        r == (*o == Outcome::Failure(stage)),
{
    match o {
        Outcome::Success => false,
        Outcome::Failure(s) => *s == stage,
    }
}

fn names_failing_at(outcomes: &Vec<RepoOutcome>, stage: Stage) -> (r: Vec<String>)
    ensures
        views_of(r@) == stage_names(outcome_views(outcomes@), stage),
{
    let mut picked: Vec<String> = Vec::new();
    let mut i: usize = 0;
    while i < outcomes.len()
        invariant
            i <= outcomes@.len(),
            views_of(picked@) == stage_names(outcome_views(outcomes@.take(i as int)), stage),
        decreases outcomes@.len() - i,
    {
        let ghost prev = outcome_views(outcomes@.take(i as int));
        let ghost now = outcome_views(outcomes@.take(i + 1));
        let ghost prev_picked = views_of(picked@);
        if outcome_fails_at(&outcomes[i].outcome, stage) {
            picked.push(outcomes[i].repo.clone());
        }
        proof {
            reveal(Seq::filter);
            assert(now.drop_last() =~= prev);
            assert(now.last() == outcomes@[i as int]@);
            if outcomes@[i as int]@.outcome == Outcome::Failure(stage) {
                assert(views_of(picked@) =~= prev_picked.push(outcomes@[i as int]@.repo));
            }
            assert(views_of(picked@) =~= stage_names(now, stage));
        }
        i += 1;
    }
    proof {
        assert(outcomes@.take(outcomes@.len() as int) =~= outcomes@);
    }
    picked
}

/// Buckets an update-and-check batch's outcomes into the run-end
/// summary: successes, base-branch checkout failures, dependency-update
/// failures, and build-check failures, each in batch order.
pub fn update_and_check(outcomes: &Vec<RepoOutcome>) -> (r: UpdateReport)
    ensures
        views_of(r.succeeded@) == success_names(outcome_views(outcomes@)),
        views_of(r.checkout_failed@) == stage_names(outcome_views(outcomes@), Stage::Branch),
        views_of(r.update_failed@) == stage_names(
            outcome_views(outcomes@),
            Stage::DependencyUpdate,
        ),
        views_of(r.check_failed@) == stage_names(outcome_views(outcomes@), Stage::BuildCheck),
{
    let both = patch_crates(outcomes);
    let checkout_failed = names_failing_at(outcomes, Stage::Branch);
    let update_failed = names_failing_at(outcomes, Stage::DependencyUpdate);
    let check_failed = names_failing_at(outcomes, Stage::BuildCheck);
    UpdateReport { succeeded: both.succeeded, checkout_failed, update_failed, check_failed }
}

/// Law: outcomes are isolated per repository. Whatever happens to the
/// other repositories of a batch — here, the two batches `a` and `b` may
/// differ everywhere else — a repository whose own outcome is unchanged
/// lands in the same summary bucket.
pub proof fn lemma_batch_isolation(a: Seq<RepoOutcomeV>, b: Seq<RepoOutcomeV>, i: int)
    requires
        a.len() == b.len(),
        0 <= i < a.len(),
        a[i] == b[i],
    ensures
        a[i].outcome is Success ==> success_names(a).contains(a[i].repo) && success_names(
            b,
        ).contains(a[i].repo),
        !(a[i].outcome is Success) ==> failure_names(a).contains(a[i].repo) && failure_names(
            b,
        ).contains(a[i].repo),
{
    broadcast use vstd::seq_lib::group_seq_lib_default;

    let ok_pred = |o: RepoOutcomeV| o.outcome is Success;
    let bad_pred = |o: RepoOutcomeV| !(o.outcome is Success);
    if a[i].outcome is Success {
        a.lemma_filter_contains(ok_pred, i);
        b.lemma_filter_contains(ok_pred, i);
        lemma_repo_of_filtered(a.filter(ok_pred), a[i]);
        lemma_repo_of_filtered(b.filter(ok_pred), b[i]);
    } else {
        a.lemma_filter_contains(bad_pred, i);
        b.lemma_filter_contains(bad_pred, i);
        lemma_repo_of_filtered(a.filter(bad_pred), a[i]);
        lemma_repo_of_filtered(b.filter(bad_pred), b[i]);
    }
}

proof fn lemma_repo_of_filtered(s: Seq<RepoOutcomeV>, o: RepoOutcomeV)
    requires
        s.contains(o),
    ensures
        s.map_values(|x: RepoOutcomeV| x.repo).contains(o.repo),
{
    let k = choose|k: int| 0 <= k < s.len() && s[k] == o;
    assert(s.map_values(|x: RepoOutcomeV| x.repo)[k] == o.repo);
}

} // verus!
