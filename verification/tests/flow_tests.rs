use repo_patcher::deps::Dep;
use repo_patcher::flow::{Action, Event, Outcome, PatchCtx, PatchPhase, PatchState, Stage,
    UpdatePhase, patch_step, update_step};

fn dep(name: &str, url: &str) -> Dep {
    Dep { name: name.to_string(), repo_url: url.to_string() }
}

fn cmd(parts: &[&str]) -> Vec<String> {
    parts.iter().map(|s| s.to_string()).collect()
}

fn ctx(execute: bool) -> PatchCtx {
    PatchCtx {
        branch_name: "patch-iroh-main".to_string(),
        candidates: vec![dep("foo", "https://example/foo"), dep("bar", "https://example/bar")],
        execute,
    }
}

#[test]
fn patch_dry_run_walks_the_expected_commands() {
    let ctx = ctx(false);
    let manifest = "[dependencies]\nfoo = \"1.0\"\n".to_string();

    let (st, action) = patch_step(&ctx, PatchState::initial(), Event::Begin);
    assert_eq!(action, Action::Run(cmd(&["git", "rev-parse", "--verify", "patch-iroh-main"])));
    assert_eq!(st.phase, PatchPhase::CheckingBranch);

    // The branch does not exist yet: check out and pull the base branch.
    let (st, action) = patch_step(&ctx, st, Event::Done(false));
    assert_eq!(action, Action::Run(cmd(&["git", "checkout", "main"])));
    let (st, action) = patch_step(&ctx, st, Event::Done(true));
    assert_eq!(action, Action::Run(cmd(&["git", "pull", "origin", "main"])));
    let (st, action) = patch_step(&ctx, st, Event::Done(true));
    assert_eq!(action, Action::Run(cmd(&["git", "checkout", "-b", "patch-iroh-main"])));
    let (st, action) = patch_step(&ctx, st, Event::Done(true));
    assert_eq!(action, Action::ReadManifest);

    let (st, action) = patch_step(&ctx, st, Event::Text(Some(manifest.clone())));
    let expected = format!(
        "{}\n[patch.crates-io]\nfoo = {{ git = \"https://example/foo\", branch = \"main\" }}\n",
        manifest
    );
    assert_eq!(action, Action::WriteManifest(expected));
    assert_eq!(st.applied.len(), 1);
    assert_eq!(st.applied[0].name, "foo");

    let (st, action) = patch_step(&ctx, st, Event::Done(true));
    assert_eq!(action, Action::Run(cmd(&["cargo", "update", "--package", "foo"])));

    let (st, action) = patch_step(&ctx, st, Event::Done(true));
    assert_eq!(action, Action::ReadPolicy);

    // No policy file: straight on to staging without writing anything.
    let (st, action) = patch_step(&ctx, st, Event::MaybeText(Some(None)));
    assert_eq!(action, Action::Run(cmd(&["git", "add", "Cargo.toml", "Cargo.lock"])));

    let (st, action) = patch_step(&ctx, st, Event::Done(true));
    let message = "chore: add patch for `iroh` dependencies\n\nThis PR updates the following dependencies to use their main branches:\n\n- `foo` from `https://example/foo`";
    assert_eq!(action, Action::Run(cmd(&["git", "commit", "-m", message])));

    // A dry run commits but never pushes.
    let (st, action) = patch_step(&ctx, st, Event::Done(true));
    assert_eq!(action, Action::Finish(Outcome::Success));
    assert_eq!(st.phase, PatchPhase::Finished);
}

#[test]
fn patch_execute_pushes_and_opens_a_pull_request() {
    let ctx = ctx(true);
    let commit_done = PatchState {
        phase: PatchPhase::Committing,
        applied: vec![dep("foo", "https://example/foo")],
    };
    let (st, action) = patch_step(&ctx, commit_done, Event::Done(true));
    assert_eq!(action, Action::Run(cmd(&["git", "push", "origin", "patch-iroh-main"])));
    assert_eq!(st.phase, PatchPhase::Pushing);

    let (st, action) = patch_step(&ctx, st, Event::Done(true));
    assert_eq!(action, Action::ReadManifest);

    // The pull request lists every configured crate that is currently
    // overridden, not only what this run applied: `bar` was already
    // patched before this run and still shows up in the body.
    let manifest = "[dependencies]\nfoo = \"1\"\nbar = \"1\"\n\n[patch.crates-io]\nfoo = { git = \"https://example/foo\", branch = \"main\" }\nbar = { git = \"https://example/bar\", branch = \"main\" }\n"
    .to_string();
    let (st, action) = patch_step(&ctx, st, Event::Text(Some(manifest)));
    let body = "This PR updates the following dependencies to use their main branches:\n\n- `foo` from `https://example/foo`\n- `bar` from `https://example/bar`";
    assert_eq!(
        action,
        Action::Run(cmd(&[
            "gh",
            "pr",
            "create",
            "--title",
            "chore: patch to use main branch of iroh dependencies",
            "--body",
            body,
            "--base",
            "main",
            "--head",
            "patch-iroh-main",
        ]))
    );

    let (_, action) = patch_step(&ctx, st, Event::Done(true));
    assert_eq!(action, Action::Finish(Outcome::Success));
}

#[test]
fn existing_branch_skips_branch_creation() {
    let ctx = ctx(false);
    let (st, _) = patch_step(&ctx, PatchState::initial(), Event::Begin);
    let (st, action) = patch_step(&ctx, st, Event::Done(true));
    assert_eq!(st.phase, PatchPhase::ReadingManifest);
    assert_eq!(action, Action::ReadManifest);
}

#[test]
fn nothing_applied_and_header_present_skips_to_done() {
    let ctx = ctx(false);
    let manifest = "[dependencies]\nfoo = \"1\"\n\n[patch.crates-io]\nfoo = { git = \"https://example/foo\", branch = \"main\" }\n"
    .to_string();
    let st = PatchState { phase: PatchPhase::ReadingManifest, applied: Vec::new() };
    let (st, action) = patch_step(&ctx, st, Event::Text(Some(manifest)));
    assert_eq!(action, Action::Finish(Outcome::Success));
    assert_eq!(st.phase, PatchPhase::Finished);
}

#[test]
fn pull_failure_is_a_branch_stage_failure() {
    let ctx = ctx(false);
    let st = PatchState { phase: PatchPhase::Pulling, applied: Vec::new() };
    let (st, action) = patch_step(&ctx, st, Event::Done(false));
    assert_eq!(action, Action::Finish(Outcome::Failure(Stage::Branch)));
    assert_eq!(st.phase, PatchPhase::Finished);
}

#[test]
fn unreadable_manifest_fails_the_patch_stage() {
    let ctx = ctx(false);
    let st = PatchState { phase: PatchPhase::ReadingManifest, applied: Vec::new() };
    let (_, action) = patch_step(&ctx, st, Event::Text(None));
    assert_eq!(action, Action::Finish(Outcome::Failure(Stage::ManifestPatch)));
}

#[test]
fn policy_read_error_fails_the_policy_stage() {
    let ctx = ctx(false);
    let st = PatchState { phase: PatchPhase::ReadingPolicy, applied: Vec::new() };
    let (_, action) = patch_step(&ctx, st, Event::MaybeText(None));
    assert_eq!(action, Action::Finish(Outcome::Failure(Stage::PolicyUpdate)));
}

#[test]
fn absent_policy_file_is_a_no_op() {
    let ctx = ctx(false);
    let st = PatchState {
        phase: PatchPhase::ReadingPolicy,
        applied: vec![dep("foo", "https://example/foo")],
    };
    let (st, action) = patch_step(&ctx, st, Event::MaybeText(Some(None)));
    // No policy write is requested; the flow moves straight to staging.
    assert_eq!(action, Action::Run(cmd(&["git", "add", "Cargo.toml", "Cargo.lock"])));
    assert_eq!(st.phase, PatchPhase::Staging);
}

#[test]
fn present_policy_file_is_rewritten() {
    let ctx = ctx(false);
    let st = PatchState {
        phase: PatchPhase::ReadingPolicy,
        applied: vec![dep("foo", "https://example/foo")],
    };
    let policy = "[sources]\nallow-git = []\n".to_string();
    let (st, action) = patch_step(&ctx, st, Event::MaybeText(Some(Some(policy))));
    assert_eq!(st.phase, PatchPhase::WritingPolicy);
    match action {
        Action::WritePolicy(out) => assert!(out.contains("https://example/foo")),
        other => panic!("expected a policy write, got {:?}", other),
    }
}

#[test]
fn mismatched_event_fails_at_the_current_stage() {
    let ctx = ctx(false);
    let st = PatchState { phase: PatchPhase::Staging, applied: Vec::new() };
    let (_, action) = patch_step(&ctx, st, Event::Begin);
    assert_eq!(action, Action::Finish(Outcome::Failure(Stage::Commit)));
}

#[test]
fn update_flow_walks_the_expected_commands() {
    let cands = vec![dep("foo", "https://example/foo"), dep("bar", "https://example/bar")];
    let (st, action) = update_step(&cands, UpdatePhase::Idle, Event::Begin);
    assert_eq!(action, Action::Run(cmd(&["git", "checkout", "main"])));
    let (st, action) = update_step(&cands, st, Event::Done(true));
    assert_eq!(action, Action::Run(cmd(&["git", "pull", "origin", "main"])));
    let (st, action) = update_step(&cands, st, Event::Done(true));
    assert_eq!(action, Action::ReadManifest);

    // Only `foo` is referenced, so the update is scoped to it.
    let manifest = "[dependencies]\nfoo = \"1\"\n".to_string();
    let (st, action) = update_step(&cands, st, Event::Text(Some(manifest)));
    assert_eq!(action, Action::Run(cmd(&["cargo", "update", "--package", "foo"])));

    let (st, action) = update_step(&cands, st, Event::Done(true));
    assert_eq!(
        action,
        Action::Run(cmd(&["cargo", "check", "--all-targets", "--all-features"]))
    );
    let (st, action) = update_step(&cands, st, Event::Done(true));
    assert_eq!(action, Action::Finish(Outcome::Success));
    assert_eq!(st, UpdatePhase::Finished);
}

#[test]
fn update_flow_reports_three_distinct_failure_stages() {
    let cands = vec![dep("foo", "https://example/foo")];
    let (_, action) = update_step(&cands, UpdatePhase::CheckingOut, Event::Done(false));
    assert_eq!(action, Action::Finish(Outcome::Failure(Stage::Branch)));
    let (_, action) = update_step(&cands, UpdatePhase::ReadingManifest, Event::Text(None));
    assert_eq!(action, Action::Finish(Outcome::Failure(Stage::DependencyUpdate)));
    let (_, action) = update_step(&cands, UpdatePhase::Updating, Event::Done(false));
    assert_eq!(action, Action::Finish(Outcome::Failure(Stage::DependencyUpdate)));
    let (_, action) = update_step(&cands, UpdatePhase::Checking, Event::Done(false));
    assert_eq!(action, Action::Finish(Outcome::Failure(Stage::BuildCheck)));
}
