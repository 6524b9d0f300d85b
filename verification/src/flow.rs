use vstd::prelude::*;
use crate::deps::{Dep, DepView, dep_views, names_of, views_of};
use crate::manifest::{
    ManifestError, applied_deps, manifest_names, patched_subset, patched_text,
    ensure_patches_in_cargo_toml, list_patched_crates, list_relevant_crates, referenced_subset,
};
use crate::policy::{updated_policy, update_deny_toml};
use crate::commands::{
    cargo_check_args, cargo_check_cmd, cargo_update_args, cargo_update_cmd, change_summary,
    change_summary_string, commit_message_string, commit_message_text, gh_pr_args, gh_pr_cmd,
    git_add_args, git_add_cmd, git_branch_check_args, git_branch_check_cmd,
    git_checkout_main_args, git_checkout_main_cmd, git_commit_args, git_commit_cmd,
    git_create_branch_args, git_create_branch_cmd, git_pull_main_args, git_pull_main_cmd,
    git_push_args, git_push_cmd,
};

verus! {

/// The stage a repository's processing can fail at.
#[derive(Clone, Copy, Debug, PartialEq, Eq, Structural)]
pub enum Stage {
    /// Branch setup: checking out the base branch, pulling, or creating
    /// the work branch.
    Branch,
    /// Reading, parsing, or rewriting the manifest.
    ManifestPatch,
    /// Running the scoped dependency update.
    DependencyUpdate,
    /// Reading, merging, or rewriting the policy file.
    PolicyUpdate,
    /// Staging or committing the changes.
    Commit,
    /// Pushing the work branch.
    Push,
    /// Gathering the overridden crates or opening the pull request.
    PullRequest,
    /// Running the full build check.
    BuildCheck,
}

/// A repository's terminal result.
#[derive(Clone, Copy, Debug, PartialEq, Eq, Structural)]
pub enum Outcome {
    Success,
    Failure(Stage),
}

/// What the orchestrator asks its driver to do next. The driver performs
/// the action and answers with an `Event`.
#[derive(Debug, PartialEq, Eq)]
pub enum Action {
    /// Run this external command (program first, then its arguments) and
    /// answer `Event::Done` with its success.
    Run(Vec<String>),
    /// Read the manifest file and answer `Event::Text`.
    ReadManifest,
    /// Replace the manifest file with this text and answer `Event::Done`.
    WriteManifest(String),
    /// Read the policy file and answer `Event::MaybeText`.
    ReadPolicy,
    /// Replace the policy file with this text and answer `Event::Done`.
    WritePolicy(String),
    /// The repository is finished with this outcome; stop driving.
    Finish(Outcome),
}

/// Mathematical model of an `Action`.
pub enum ActionV {
    Run(Seq<Seq<char>>),
    ReadManifest,
    WriteManifest(Seq<char>),
    ReadPolicy,
    WritePolicy(Seq<char>),
    Finish(Outcome),
}

impl View for Action {
    type V = ActionV;

    open spec fn view(&self) -> ActionV {
        match self {
            Action::Run(args) => ActionV::Run(views_of(args@)),
            Action::ReadManifest => ActionV::ReadManifest,
            Action::WriteManifest(t) => ActionV::WriteManifest(t@),
            Action::ReadPolicy => ActionV::ReadPolicy,
            Action::WritePolicy(t) => ActionV::WritePolicy(t@),
            Action::Finish(o) => ActionV::Finish(*o),
        }
    }
}

/// What the driver reports back after performing an action.
#[derive(Debug, PartialEq, Eq)]
pub enum Event {
    /// Processing of the repository begins.
    Begin,
    /// A command or a file write finished; `true` means it succeeded.
    Done(bool),
    /// A file was read; `None` means the read failed.
    Text(Option<String>),
    /// An optional file was read; `None` means the read failed,
    /// `Some(None)` that the file does not exist.
    MaybeText(Option<Option<String>>),
}

/// Mathematical model of an `Event`.
pub enum EventV {
    Begin,
    Done(bool),
    Text(Option<Seq<char>>),
    MaybeText(Option<Option<Seq<char>>>),
}

impl View for Event {
    type V = EventV;

    open spec fn view(&self) -> EventV {
        match self {
            Event::Begin => EventV::Begin,
            Event::Done(ok) => EventV::Done(*ok),
            Event::Text(None) => EventV::Text(None),
            Event::Text(Some(t)) => EventV::Text(Some(t@)),
            Event::MaybeText(None) => EventV::MaybeText(None),
            Event::MaybeText(Some(None)) => EventV::MaybeText(Some(None)),
            Event::MaybeText(Some(Some(t))) => EventV::MaybeText(Some(Some(t@))),
        }
    }
}

/// Where the patch orchestrator stands for one repository.
#[derive(Clone, Copy, Debug, PartialEq, Eq, Structural)]
pub enum PatchPhase {
    /// Nothing has happened yet; expects `Begin`.
    Idle,
    /// Probing whether the work branch already exists.
    CheckingBranch,
    /// Checking out the base branch.
    CheckingOutBase,
    /// Pulling the latest base branch.
    Pulling,
    /// Creating and switching to the work branch.
    CreatingBranch,
    /// Reading the manifest for patching.
    ReadingManifest,
    /// Writing the patched manifest back.
    WritingManifest,
    /// Running the scoped dependency update.
    UpdatingDeps,
    /// Reading the optional policy file.
    ReadingPolicy,
    /// Writing the updated policy file back.
    WritingPolicy,
    /// Staging the manifest and lock file.
    Staging,
    /// Committing the staged changes.
    Committing,
    /// Pushing the work branch.
    Pushing,
    /// Re-reading the manifest to describe the pull request.
    ReadingPrManifest,
    /// Opening the pull request.
    OpeningPr,
    /// Terminal.
    Finished,
}

/// The orchestrator's state for one repository: its phase and the
/// candidates applied by the manifest edit of this run.
#[derive(Debug)]
pub struct PatchState {
    pub phase: PatchPhase,
    pub applied: Vec<Dep>,
}

/// Mathematical model of a `PatchState`.
pub struct PatchStateV {
    pub phase: PatchPhase,
    pub applied: Seq<DepView>,
}

impl View for PatchState {
    type V = PatchStateV;

    open spec fn view(&self) -> PatchStateV {
        PatchStateV { phase: self.phase, applied: dep_views(self.applied@) }
    }
}

impl PatchState {
    /// The state in which a repository's processing starts.
    pub fn initial() -> (r: PatchState)
        ensures
            r@.phase == PatchPhase::Idle,
            r@.applied == Seq::<DepView>::empty(),
    {
        let r = PatchState { phase: PatchPhase::Idle, applied: Vec::new() };
        proof {
            assert(dep_views(r.applied@) =~= Seq::<DepView>::empty());
        }
        r
    }
}

/// The fixed inputs of one repository's patch run.
pub struct PatchCtx {
    /// The work branch to create, commit to, and push.
    pub branch_name: String,
    /// The override candidates from the configuration, in order.
    pub candidates: Vec<Dep>,
    /// Whether to push the branch and open a pull request.
    pub execute: bool,
}

/// Mathematical model of a `PatchCtx`.
pub struct PatchCtxV {
    pub branch_name: Seq<char>,
    pub candidates: Seq<DepView>,
    pub execute: bool,
}

impl View for PatchCtx {
    type V = PatchCtxV;

    open spec fn view(&self) -> PatchCtxV {
        PatchCtxV {
            branch_name: self.branch_name@,
            candidates: dep_views(self.candidates@),
            execute: self.execute,
        }
    }
}

/// The stage a protocol violation or failure at the given phase charges.
pub open spec fn stage_of_phase(p: PatchPhase) -> Stage {
    match p {
        PatchPhase::Idle => Stage::Branch,
        PatchPhase::CheckingBranch => Stage::Branch,
        PatchPhase::CheckingOutBase => Stage::Branch,
        PatchPhase::Pulling => Stage::Branch,
        PatchPhase::CreatingBranch => Stage::Branch,
        PatchPhase::ReadingManifest => Stage::ManifestPatch,
        PatchPhase::WritingManifest => Stage::ManifestPatch,
        PatchPhase::UpdatingDeps => Stage::DependencyUpdate,
        PatchPhase::ReadingPolicy => Stage::PolicyUpdate,
        PatchPhase::WritingPolicy => Stage::PolicyUpdate,
        PatchPhase::Staging => Stage::Commit,
        PatchPhase::Committing => Stage::Commit,
        PatchPhase::Pushing => Stage::Push,
        PatchPhase::ReadingPrManifest => Stage::PullRequest,
        PatchPhase::OpeningPr => Stage::PullRequest,
        PatchPhase::Finished => Stage::Branch,
    }
}

/// Terminal failure at the given stage.
pub open spec fn fail_step(st: PatchStateV, stage: Stage) -> (PatchStateV, ActionV) {
    (
        PatchStateV { phase: PatchPhase::Finished, applied: st.applied },
        ActionV::Finish(Outcome::Failure(stage)),
    )
}

/// After the commit, push only when full execution was requested;
/// otherwise the dry run is already complete and a success.
pub open spec fn execute_step(ctx: PatchCtxV, applied: Seq<DepView>) -> (PatchStateV, ActionV) {
    if ctx.execute {
        (
            PatchStateV { phase: PatchPhase::Pushing, applied },
            ActionV::Run(git_push_args(ctx.branch_name)),
        )
    } else {
        (PatchStateV { phase: PatchPhase::Finished, applied }, ActionV::Finish(Outcome::Success))
    }
}

/// After the manifest edit: with nothing applied there is nothing to
/// update or commit, so move straight on; otherwise update the lock file
/// scoped to exactly the applied crates.
pub open spec fn after_patch_step(ctx: PatchCtxV, applied: Seq<DepView>) -> (PatchStateV, ActionV) {
    if applied.len() == 0 {
        execute_step(ctx, applied)
    } else {
        (
            PatchStateV { phase: PatchPhase::UpdatingDeps, applied },
            ActionV::Run(cargo_update_args(names_of(applied))),
        )
    }
}

/// The patch orchestrator's transition relation: one repository's
/// processing, as `patch_step` executes it. Each transition consumes the
/// answer to the previous action and names the next action; failures are
/// charged to the stage of the phase they occur in, and an event that
/// does not fit the phase counts as a failure of that phase's stage.
pub open spec fn patch_next(ctx: PatchCtxV, st: PatchStateV, ev: EventV) -> (PatchStateV, ActionV) {
    match (st.phase, ev) {
        (PatchPhase::Idle, EventV::Begin) => (
            PatchStateV { phase: PatchPhase::CheckingBranch, applied: st.applied },
            ActionV::Run(git_branch_check_args(ctx.branch_name)),
        ),
        (PatchPhase::CheckingBranch, EventV::Done(exists)) => if exists {
            (
                PatchStateV { phase: PatchPhase::ReadingManifest, applied: st.applied },
                ActionV::ReadManifest,
            )
        } else {
            (
                PatchStateV { phase: PatchPhase::CheckingOutBase, applied: st.applied },
                ActionV::Run(git_checkout_main_args()),
            )
        },
        (PatchPhase::CheckingOutBase, EventV::Done(ok)) => if ok {
            (
                PatchStateV { phase: PatchPhase::Pulling, applied: st.applied },
                ActionV::Run(git_pull_main_args()),
            )
        } else {
            fail_step(st, Stage::Branch)
        },
        (PatchPhase::Pulling, EventV::Done(ok)) => if ok {
            (
                PatchStateV { phase: PatchPhase::CreatingBranch, applied: st.applied },
                ActionV::Run(git_create_branch_args(ctx.branch_name)),
            )
        } else {
            fail_step(st, Stage::Branch)
        },
        (PatchPhase::CreatingBranch, EventV::Done(ok)) => if ok {
            (
                PatchStateV { phase: PatchPhase::ReadingManifest, applied: st.applied },
                ActionV::ReadManifest,
            )
        } else {
            fail_step(st, Stage::Branch)
        },
        (PatchPhase::ReadingManifest, EventV::Text(read)) => match read {
            None => fail_step(st, Stage::ManifestPatch),
            Some(t) => match manifest_names(t) {
                None => fail_step(st, Stage::ManifestPatch),
                Some(sets) => {
                    let applied = applied_deps(ctx.candidates, sets.0, sets.1);
                    let new_text = patched_text(t, ctx.candidates, sets.0, sets.1);
                    if new_text != t {
                        (
                            PatchStateV { phase: PatchPhase::WritingManifest, applied },
                            ActionV::WriteManifest(new_text),
                        )
                    } else {
                        after_patch_step(ctx, applied)
                    }
                },
            },
        },
        (PatchPhase::WritingManifest, EventV::Done(ok)) => if ok {
            after_patch_step(ctx, st.applied)
        } else {
            fail_step(st, Stage::ManifestPatch)
        },
        (PatchPhase::UpdatingDeps, EventV::Done(ok)) => if ok {
            (
                PatchStateV { phase: PatchPhase::ReadingPolicy, applied: st.applied },
                ActionV::ReadPolicy,
            )
        } else {
            fail_step(st, Stage::DependencyUpdate)
        },
        (PatchPhase::ReadingPolicy, EventV::MaybeText(read)) => match read {
            None => fail_step(st, Stage::PolicyUpdate),
            Some(None) => (
                PatchStateV { phase: PatchPhase::Staging, applied: st.applied },
                ActionV::Run(git_add_args()),
            ),
            Some(Some(t)) => match updated_policy(t, st.applied) {
                None => fail_step(st, Stage::PolicyUpdate),
                Some(new_text) => (
                    PatchStateV { phase: PatchPhase::WritingPolicy, applied: st.applied },
                    ActionV::WritePolicy(new_text),
                ),
            },
        },
        (PatchPhase::WritingPolicy, EventV::Done(ok)) => if ok {
            (
                PatchStateV { phase: PatchPhase::Staging, applied: st.applied },
                ActionV::Run(git_add_args()),
            )
        } else {
            fail_step(st, Stage::PolicyUpdate)
        },
        (PatchPhase::Staging, EventV::Done(ok)) => if ok {
            (
                PatchStateV { phase: PatchPhase::Committing, applied: st.applied },
                ActionV::Run(git_commit_args(commit_message_text(st.applied))),
            )
        } else {
            fail_step(st, Stage::Commit)
        },
        (PatchPhase::Committing, EventV::Done(ok)) => if ok {
            execute_step(ctx, st.applied)
        } else {
            fail_step(st, Stage::Commit)
        },
        (PatchPhase::Pushing, EventV::Done(ok)) => if ok {
            (
                PatchStateV { phase: PatchPhase::ReadingPrManifest, applied: st.applied },
                ActionV::ReadManifest,
            )
        } else {
            fail_step(st, Stage::Push)
        },
        (PatchPhase::ReadingPrManifest, EventV::Text(read)) => match read {
            None => fail_step(st, Stage::PullRequest),
            Some(t) => match manifest_names(t) {
                None => fail_step(st, Stage::PullRequest),
                Some(sets) => (
                    PatchStateV { phase: PatchPhase::OpeningPr, applied: st.applied },
                    ActionV::Run(
                        gh_pr_args(
                            ctx.branch_name,
                            change_summary(patched_subset(ctx.candidates, sets.1)),
                        ),
                    ),
                ),
            },
        },
        (PatchPhase::OpeningPr, EventV::Done(ok)) => if ok {
            (
                PatchStateV { phase: PatchPhase::Finished, applied: st.applied },
                ActionV::Finish(Outcome::Success),
            )
        } else {
            fail_step(st, Stage::PullRequest)
        },
        _ => fail_step(st, stage_of_phase(st.phase)),
    }
}

fn fail_exec(applied: Vec<Dep>, stage: Stage) -> (r: (PatchState, Action))
    ensures
        r.0@ == (PatchStateV { phase: PatchPhase::Finished, applied: dep_views(applied@) }),
        r.1@ == ActionV::Finish(Outcome::Failure(stage)),
{
    (PatchState { phase: PatchPhase::Finished, applied }, Action::Finish(Outcome::Failure(stage)))
}

fn execute_exec(ctx: &PatchCtx, applied: Vec<Dep>) -> (r: (PatchState, Action))
    ensures
        r.0@ == execute_step(ctx@, dep_views(applied@)).0,
        r.1@ == execute_step(ctx@, dep_views(applied@)).1,
{
    if ctx.execute {
        let cmd = git_push_cmd(&ctx.branch_name);
        (PatchState { phase: PatchPhase::Pushing, applied }, Action::Run(cmd))
    } else {
        (PatchState { phase: PatchPhase::Finished, applied }, Action::Finish(Outcome::Success))
    }
}

fn after_patch_exec(ctx: &PatchCtx, applied: Vec<Dep>) -> (r: (PatchState, Action))
    ensures
        r.0@ == after_patch_step(ctx@, dep_views(applied@)).0,
        r.1@ == after_patch_step(ctx@, dep_views(applied@)).1,
{
    if applied.len() == 0 {
        proof {
            assert(dep_views(applied@).len() == 0);
        }
        execute_exec(ctx, applied)
    } else {
        let cmd = cargo_update_cmd(&applied);
        (PatchState { phase: PatchPhase::UpdatingDeps, applied }, Action::Run(cmd))
    }
}

/// One transition of the patch orchestrator for one repository.
///
/// Feed `Event::Begin` to the initial state, perform each returned
/// action, answer it with its event, and repeat until `Action::Finish`.
/// The result is exactly what the transition relation `patch_next`
/// prescribes for the given state and event.
pub fn patch_step(ctx: &PatchCtx, st: PatchState, ev: Event) -> (r: (PatchState, Action))
    ensures
        r.0@ == patch_next(ctx@, st@, ev@).0,
        r.1@ == patch_next(ctx@, st@, ev@).1,
{
    let phase = st.phase;
    match (phase, ev) {
        (PatchPhase::Idle, Event::Begin) => {
            let cmd = git_branch_check_cmd(&ctx.branch_name);
            (PatchState { phase: PatchPhase::CheckingBranch, applied: st.applied }, Action::Run(cmd))
        },
        (PatchPhase::CheckingBranch, Event::Done(exists)) => if exists {
            (
                PatchState { phase: PatchPhase::ReadingManifest, applied: st.applied },
                Action::ReadManifest,
            )
        } else {
            let cmd = git_checkout_main_cmd();
            (
                PatchState { phase: PatchPhase::CheckingOutBase, applied: st.applied },
                Action::Run(cmd),
            )
        },
        (PatchPhase::CheckingOutBase, Event::Done(ok)) => if ok {
            let cmd = git_pull_main_cmd();
            (PatchState { phase: PatchPhase::Pulling, applied: st.applied }, Action::Run(cmd))
        } else {
            fail_exec(st.applied, Stage::Branch)
        },
        (PatchPhase::Pulling, Event::Done(ok)) => if ok {
            let cmd = git_create_branch_cmd(&ctx.branch_name);
            (
                PatchState { phase: PatchPhase::CreatingBranch, applied: st.applied },
                Action::Run(cmd),
            )
        } else {
            fail_exec(st.applied, Stage::Branch)
        },
        (PatchPhase::CreatingBranch, Event::Done(ok)) => if ok {
            (
                PatchState { phase: PatchPhase::ReadingManifest, applied: st.applied },
                Action::ReadManifest,
            )
        } else {
            fail_exec(st.applied, Stage::Branch)
        },
        (PatchPhase::ReadingManifest, Event::Text(read)) => match read {
            None => fail_exec(st.applied, Stage::ManifestPatch),
            Some(t) => match ensure_patches_in_cargo_toml(&t, &ctx.candidates) {
                Err(_) => fail_exec(st.applied, Stage::ManifestPatch),
                Ok((new_text, applied)) => if !new_text.eq(&t) {
                    (
                        PatchState { phase: PatchPhase::WritingManifest, applied },
                        Action::WriteManifest(new_text),
                    )
                } else {
                    after_patch_exec(ctx, applied)
                },
            },
        },
        (PatchPhase::WritingManifest, Event::Done(ok)) => if ok {
            after_patch_exec(ctx, st.applied)
        } else {
            fail_exec(st.applied, Stage::ManifestPatch)
        },
        (PatchPhase::UpdatingDeps, Event::Done(ok)) => if ok {
            (
                PatchState { phase: PatchPhase::ReadingPolicy, applied: st.applied },
                Action::ReadPolicy,
            )
        } else {
            fail_exec(st.applied, Stage::DependencyUpdate)
        },
        (PatchPhase::ReadingPolicy, Event::MaybeText(read)) => match read {
            None => fail_exec(st.applied, Stage::PolicyUpdate),
            Some(None) => {
                let cmd = git_add_cmd();
                (PatchState { phase: PatchPhase::Staging, applied: st.applied }, Action::Run(cmd))
            },
            Some(Some(t)) => match update_deny_toml(&t, &st.applied) {
                Err(_) => fail_exec(st.applied, Stage::PolicyUpdate),
                Ok(new_text) => (
                    PatchState { phase: PatchPhase::WritingPolicy, applied: st.applied },
                    Action::WritePolicy(new_text),
                ),
            },
        },
        (PatchPhase::WritingPolicy, Event::Done(ok)) => if ok {
            let cmd = git_add_cmd();
            (PatchState { phase: PatchPhase::Staging, applied: st.applied }, Action::Run(cmd))
        } else {
            fail_exec(st.applied, Stage::PolicyUpdate)
        },
        (PatchPhase::Staging, Event::Done(ok)) => if ok {
            let message = commit_message_string(&st.applied);
            let cmd = git_commit_cmd(&message);
            (PatchState { phase: PatchPhase::Committing, applied: st.applied }, Action::Run(cmd))
        } else {
            fail_exec(st.applied, Stage::Commit)
        },
        (PatchPhase::Committing, Event::Done(ok)) => if ok {
            execute_exec(ctx, st.applied)
        } else {
            fail_exec(st.applied, Stage::Commit)
        },
        (PatchPhase::Pushing, Event::Done(ok)) => if ok {
            (
                PatchState { phase: PatchPhase::ReadingPrManifest, applied: st.applied },
                Action::ReadManifest,
            )
        } else {
            fail_exec(st.applied, Stage::Push)
        },
        (PatchPhase::ReadingPrManifest, Event::Text(read)) => match read {
            None => fail_exec(st.applied, Stage::PullRequest),
            Some(t) => match list_patched_crates(&t, &ctx.candidates) {
                Err(_) => fail_exec(st.applied, Stage::PullRequest),
                Ok(relevant) => {
                    let body = change_summary_string(&relevant);
                    let cmd = gh_pr_cmd(&ctx.branch_name, &body);
                    (
                        PatchState { phase: PatchPhase::OpeningPr, applied: st.applied },
                        Action::Run(cmd),
                    )
                },
            },
        },
        (PatchPhase::OpeningPr, Event::Done(ok)) => if ok {
            (
                PatchState { phase: PatchPhase::Finished, applied: st.applied },
                Action::Finish(Outcome::Success),
            )
        } else {
            fail_exec(st.applied, Stage::PullRequest)
        },
        (_, _) => {
            let stage = stage_of_phase_exec(phase);
            fail_exec(st.applied, stage)
        },
    }
}

fn stage_of_phase_exec(p: PatchPhase) -> (s: Stage)
    ensures
        s == stage_of_phase(p),
{
    match p {
        PatchPhase::Idle => Stage::Branch,
        PatchPhase::CheckingBranch => Stage::Branch,
        PatchPhase::CheckingOutBase => Stage::Branch,
        PatchPhase::Pulling => Stage::Branch,
        PatchPhase::CreatingBranch => Stage::Branch,
        PatchPhase::ReadingManifest => Stage::ManifestPatch,
        PatchPhase::WritingManifest => Stage::ManifestPatch,
        PatchPhase::UpdatingDeps => Stage::DependencyUpdate,
        PatchPhase::ReadingPolicy => Stage::PolicyUpdate,
        PatchPhase::WritingPolicy => Stage::PolicyUpdate,
        PatchPhase::Staging => Stage::Commit,
        PatchPhase::Committing => Stage::Commit,
        PatchPhase::Pushing => Stage::Push,
        PatchPhase::ReadingPrManifest => Stage::PullRequest,
        PatchPhase::OpeningPr => Stage::PullRequest,
        PatchPhase::Finished => Stage::Branch,
    }
}

/// Where the update-and-check flow stands for one repository.
#[derive(Clone, Copy, Debug, PartialEq, Eq, Structural)]
pub enum UpdatePhase {
    /// Nothing has happened yet; expects `Begin`.
    Idle,
    /// Checking out the base branch.
    CheckingOut,
    /// Pulling the latest base branch.
    Pulling,
    /// Reading the manifest to find the referenced candidates.
    ReadingManifest,
    /// Running the scoped dependency update.
    Updating,
    /// Running the full build check.
    Checking,
    /// Terminal.
    Finished,
}

/// The stage a failure at the given update phase charges.
pub open spec fn update_stage_of(p: UpdatePhase) -> Stage {
    match p {
        UpdatePhase::Idle => Stage::Branch,
        UpdatePhase::CheckingOut => Stage::Branch,
        UpdatePhase::Pulling => Stage::Branch,
        UpdatePhase::ReadingManifest => Stage::DependencyUpdate,
        UpdatePhase::Updating => Stage::DependencyUpdate,
        UpdatePhase::Checking => Stage::BuildCheck,
        UpdatePhase::Finished => Stage::Branch,
    }
}

/// The update-and-check transition relation: check out and pull the base
/// branch, update the lock file scoped to the candidates the manifest
/// references, then run the build check. The three failure stages are
/// reported apart; an event that does not fit the phase counts as a
/// failure of that phase's stage.
pub open spec fn update_next(cands: Seq<DepView>, st: UpdatePhase, ev: EventV) -> (
    UpdatePhase,
    ActionV,
) {
    match (st, ev) {
        (UpdatePhase::Idle, EventV::Begin) => (
            UpdatePhase::CheckingOut,
            ActionV::Run(git_checkout_main_args()),
        ),
        (UpdatePhase::CheckingOut, EventV::Done(ok)) => if ok {
            (UpdatePhase::Pulling, ActionV::Run(git_pull_main_args()))
        } else {
            (UpdatePhase::Finished, ActionV::Finish(Outcome::Failure(Stage::Branch)))
        },
        (UpdatePhase::Pulling, EventV::Done(ok)) => if ok {
            (UpdatePhase::ReadingManifest, ActionV::ReadManifest)
        } else {
            (UpdatePhase::Finished, ActionV::Finish(Outcome::Failure(Stage::Branch)))
        },
        (UpdatePhase::ReadingManifest, EventV::Text(read)) => match read {
            None => (UpdatePhase::Finished, ActionV::Finish(Outcome::Failure(Stage::DependencyUpdate))),
            Some(t) => match manifest_names(t) {
                None => (
                    UpdatePhase::Finished,
                    ActionV::Finish(Outcome::Failure(Stage::DependencyUpdate)),
                ),
                Some(sets) => (
                    UpdatePhase::Updating,
                    ActionV::Run(cargo_update_args(names_of(referenced_subset(cands, sets.0)))),
                ),
            },
        },
        (UpdatePhase::Updating, EventV::Done(ok)) => if ok {
            (UpdatePhase::Checking, ActionV::Run(cargo_check_args()))
        } else {
            (UpdatePhase::Finished, ActionV::Finish(Outcome::Failure(Stage::DependencyUpdate)))
        },
        (UpdatePhase::Checking, EventV::Done(ok)) => if ok {
            (UpdatePhase::Finished, ActionV::Finish(Outcome::Success))
        } else {
            (UpdatePhase::Finished, ActionV::Finish(Outcome::Failure(Stage::BuildCheck)))
        },
        _ => (UpdatePhase::Finished, ActionV::Finish(Outcome::Failure(update_stage_of(st)))),
    }
}

/// One transition of the update-and-check flow for one repository,
/// exactly as `update_next` prescribes.
pub fn update_step(candidates: &Vec<Dep>, st: UpdatePhase, ev: Event) -> (r: (UpdatePhase, Action))
    ensures
        r.0 == update_next(dep_views(candidates@), st, ev@).0,
        r.1@ == update_next(dep_views(candidates@), st, ev@).1,
{
    match (st, ev) {
        (UpdatePhase::Idle, Event::Begin) => {
            let cmd = git_checkout_main_cmd();
            (UpdatePhase::CheckingOut, Action::Run(cmd))
        },
        (UpdatePhase::CheckingOut, Event::Done(ok)) => if ok {
            let cmd = git_pull_main_cmd();
            (UpdatePhase::Pulling, Action::Run(cmd))
        } else {
            (UpdatePhase::Finished, Action::Finish(Outcome::Failure(Stage::Branch)))
        },
        (UpdatePhase::Pulling, Event::Done(ok)) => if ok {
            (UpdatePhase::ReadingManifest, Action::ReadManifest)
        } else {
            (UpdatePhase::Finished, Action::Finish(Outcome::Failure(Stage::Branch)))
        },
        (UpdatePhase::ReadingManifest, Event::Text(read)) => match read {
            None => (
                UpdatePhase::Finished,
                Action::Finish(Outcome::Failure(Stage::DependencyUpdate)),
            ),
            Some(t) => match list_relevant_crates(&t, candidates) {
                Err(_) => (
                    UpdatePhase::Finished,
                    Action::Finish(Outcome::Failure(Stage::DependencyUpdate)),
                ),
                Ok(relevant) => {
                    let cmd = cargo_update_cmd(&relevant);
                    (UpdatePhase::Updating, Action::Run(cmd))
                },
            },
        },
        (UpdatePhase::Updating, Event::Done(ok)) => if ok {
            let cmd = cargo_check_cmd();
            (UpdatePhase::Checking, Action::Run(cmd))
        } else {
            (UpdatePhase::Finished, Action::Finish(Outcome::Failure(Stage::DependencyUpdate)))
        },
        (UpdatePhase::Checking, Event::Done(ok)) => if ok {
            (UpdatePhase::Finished, Action::Finish(Outcome::Success))
        } else {
            (UpdatePhase::Finished, Action::Finish(Outcome::Failure(Stage::BuildCheck)))
        },
        (_, _) => {
            let stage = update_stage_of_exec(st);
            (UpdatePhase::Finished, Action::Finish(Outcome::Failure(stage)))
        },
    }
}

fn update_stage_of_exec(p: UpdatePhase) -> (s: Stage)
    ensures
        s == update_stage_of(p),
{
    match p {
        UpdatePhase::Idle => Stage::Branch,
        UpdatePhase::CheckingOut => Stage::Branch,
        UpdatePhase::Pulling => Stage::Branch,
        UpdatePhase::ReadingManifest => Stage::DependencyUpdate,
        UpdatePhase::Updating => Stage::DependencyUpdate,
        UpdatePhase::Checking => Stage::BuildCheck,
        UpdatePhase::Finished => Stage::Branch,
    }
}

} // verus!
