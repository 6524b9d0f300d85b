use vstd::prelude::*;
use vstd::string::StringExecFns;
use crate::deps::{Dep, DepView, dep_views, names_of, views_of};

verus! {

/// `git rev-parse --verify <branch>`: does the branch exist locally?
pub open spec fn git_branch_check_args(branch: Seq<char>) -> Seq<Seq<char>> {
    seq!["git"@, "rev-parse"@, "--verify"@, branch]
}

/// `git checkout main`.
pub open spec fn git_checkout_main_args() -> Seq<Seq<char>> {
    seq!["git"@, "checkout"@, "main"@]
}

/// `git pull origin main`.
pub open spec fn git_pull_main_args() -> Seq<Seq<char>> {
    seq!["git"@, "pull"@, "origin"@, "main"@]
}

/// `git checkout -b <branch>`.
pub open spec fn git_create_branch_args(branch: Seq<char>) -> Seq<Seq<char>> {
    seq!["git"@, "checkout"@, "-b"@, branch]
}

/// One `--package <name>` pair per crate, in order.
pub open spec fn package_flags(names: Seq<Seq<char>>) -> Seq<Seq<char>>
    decreases names.len(),
{
    if names.len() == 0 {
        Seq::empty()
    } else {
        package_flags(names.drop_last()) + seq!["--package"@, names.last()]
    }
}

/// `cargo update --package <name> ...`, scoped to exactly the given crates.
pub open spec fn cargo_update_args(names: Seq<Seq<char>>) -> Seq<Seq<char>> {
    seq!["cargo"@, "update"@] + package_flags(names)
}

/// `git add Cargo.toml Cargo.lock`.
pub open spec fn git_add_args() -> Seq<Seq<char>> {
    seq!["git"@, "add"@, "Cargo.toml"@, "Cargo.lock"@]
}

/// `git commit -m <message>`.
pub open spec fn git_commit_args(message: Seq<char>) -> Seq<Seq<char>> {
    seq!["git"@, "commit"@, "-m"@, message]
}

/// `git push origin <branch>`.
pub open spec fn git_push_args(branch: Seq<char>) -> Seq<Seq<char>> {
    seq!["git"@, "push"@, "origin"@, branch]
}

/// The fixed title of the pull request.
pub open spec fn pr_title_text() -> Seq<char> {
    "chore: patch to use main branch of iroh dependencies"@
}

/// `gh pr create --title <title> --body <body> --base main --head <branch>`.
pub open spec fn gh_pr_args(branch: Seq<char>, body: Seq<char>) -> Seq<Seq<char>> {
    seq![
        "gh"@,
        "pr"@,
        "create"@,
        "--title"@,
        pr_title_text(),
        "--body"@,
        body,
        "--base"@,
        "main"@,
        "--head"@,
        branch,
    ]
}

/// `cargo check --all-targets --all-features`.
pub open spec fn cargo_check_args() -> Seq<Seq<char>> {
    seq!["cargo"@, "check"@, "--all-targets"@, "--all-features"@]
}

/// `git reset --hard`.
pub open spec fn git_reset_hard_args() -> Seq<Seq<char>> {
    seq!["git"@, "reset"@, "--hard"@]
}

/// `git branch -D patch-iroh-main`: delete the automation branch locally.
pub open spec fn git_delete_branch_args() -> Seq<Seq<char>> {
    seq!["git"@, "branch"@, "-D"@, "patch-iroh-main"@]
}

/// `git push origin --delete patch-iroh-main`: delete it on the remote.
pub open spec fn git_delete_remote_branch_args() -> Seq<Seq<char>> {
    seq!["git"@, "push"@, "origin"@, "--delete"@, "patch-iroh-main"@]
}

/// One report line for a dependency: its name and URL in backticks.
pub open spec fn dep_bullet(d: DepView) -> Seq<char> {
    "- `"@ + d.name + "` from `"@ + d.repo_url + "`"@
}

/// The report lines for a list of dependencies, joined by newlines.
pub open spec fn dep_bullets(ds: Seq<DepView>) -> Seq<char>
    decreases ds.len(),
{
    if ds.len() == 0 {
        Seq::empty()
    } else if ds.len() == 1 {
        dep_bullet(ds[0])
    } else {
        dep_bullets(ds.drop_last()) + "\n"@ + dep_bullet(ds.last())
    }
}

/// The body shared by the commit message and the pull request: an
/// explanation followed by one line per dependency.
pub open spec fn change_summary(ds: Seq<DepView>) -> Seq<char> {
    "This PR updates the following dependencies to use their main branches:\n\n"@ + dep_bullets(
        ds,
    )
}

/// The full commit message: a fixed first line, then the summary.
pub open spec fn commit_message_text(ds: Seq<DepView>) -> Seq<char> {
    "chore: add patch for `iroh` dependencies\n\n"@ + change_summary(ds)
}

fn push_lit(v: &mut Vec<String>, s: &str)
    ensures
        views_of(final(v)@) == views_of(old(v)@).push(s@),
{
    v.push(s.to_owned());
    proof {
        assert(views_of(v@) =~= views_of(old(v)@).push(s@));
    }
}

fn push_string(v: &mut Vec<String>, s: &String)
    ensures
        views_of(final(v)@) == views_of(old(v)@).push(s@),
{
    v.push(s.clone());
    proof {
        assert(views_of(v@) =~= views_of(old(v)@).push(s@));
    }
}

/// Builds the branch existence check command.
pub fn git_branch_check_cmd(branch: &String) -> (r: Vec<String>)
    ensures
        views_of(r@) == git_branch_check_args(branch@),
{
    let mut v: Vec<String> = Vec::new();
    push_lit(&mut v, "git");
    push_lit(&mut v, "rev-parse");
    push_lit(&mut v, "--verify");
    push_string(&mut v, branch);
    proof {
        assert(views_of(v@) =~= git_branch_check_args(branch@));
    }
    v
}

/// Builds the base branch checkout command.
pub fn git_checkout_main_cmd() -> (r: Vec<String>)
    ensures
        views_of(r@) == git_checkout_main_args(),
{
    let mut v: Vec<String> = Vec::new();
    push_lit(&mut v, "git");
    push_lit(&mut v, "checkout");
    push_lit(&mut v, "main");
    proof {
        assert(views_of(v@) =~= git_checkout_main_args());
    }
    v
}

/// Builds the pull command for the base branch.
pub fn git_pull_main_cmd() -> (r: Vec<String>)
    ensures
        views_of(r@) == git_pull_main_args(),
{
    let mut v: Vec<String> = Vec::new();
    push_lit(&mut v, "git");
    push_lit(&mut v, "pull");
    push_lit(&mut v, "origin");
    push_lit(&mut v, "main");
    proof {
        assert(views_of(v@) =~= git_pull_main_args());
    }
    v
}

/// Builds the command that creates and switches to the work branch.
pub fn git_create_branch_cmd(branch: &String) -> (r: Vec<String>)
    ensures
        views_of(r@) == git_create_branch_args(branch@),
{
    let mut v: Vec<String> = Vec::new();
    push_lit(&mut v, "git");
    push_lit(&mut v, "checkout");
    push_lit(&mut v, "-b");
    push_string(&mut v, branch);
    proof {
        assert(views_of(v@) =~= git_create_branch_args(branch@));
    }
    v
}

/// Builds the dependency update command scoped to the given crates.
pub fn cargo_update_cmd(ds: &Vec<Dep>) -> (r: Vec<String>)
    ensures
        views_of(r@) == cargo_update_args(names_of(dep_views(ds@))),
{
    let mut v: Vec<String> = Vec::new();
    push_lit(&mut v, "cargo");
    push_lit(&mut v, "update");
    proof {
        assert(views_of(v@) =~= seq!["cargo"@, "update"@] + package_flags(
            names_of(dep_views(ds@.take(0))),
        ));
    }
    let mut i: usize = 0;
    while i < ds.len()
        invariant
            i <= ds@.len(),
            views_of(v@) == seq!["cargo"@, "update"@] + package_flags(
                names_of(dep_views(ds@.take(i as int))),
            ),
        decreases ds@.len() - i,
    {
        push_lit(&mut v, "--package");
        push_string(&mut v, &ds[i].name);
        proof {
            let prev = names_of(dep_views(ds@.take(i as int)));
            let now = names_of(dep_views(ds@.take(i + 1)));
            assert(now.drop_last() =~= prev);
            assert(now.last() == ds@[i as int]@.name);
            assert(package_flags(now) == package_flags(prev) + seq![
                "--package"@,
                ds@[i as int]@.name,
            ]);
            assert(views_of(v@) =~= seq!["cargo"@, "update"@] + package_flags(now));
        }
        i += 1;
    }
    proof {
        assert(ds@.take(ds@.len() as int) =~= ds@);
    }
    v
}

/// Builds the staging command for the manifest and lock file.
pub fn git_add_cmd() -> (r: Vec<String>)
    ensures
        views_of(r@) == git_add_args(),
{
    let mut v: Vec<String> = Vec::new();
    push_lit(&mut v, "git");
    push_lit(&mut v, "add");
    push_lit(&mut v, "Cargo.toml");
    push_lit(&mut v, "Cargo.lock");
    proof {
        assert(views_of(v@) =~= git_add_args());
    }
    v
}

/// Builds the commit command carrying the given message.
pub fn git_commit_cmd(message: &String) -> (r: Vec<String>)
    ensures
        views_of(r@) == git_commit_args(message@),
{
    let mut v: Vec<String> = Vec::new();
    push_lit(&mut v, "git");
    push_lit(&mut v, "commit");
    push_lit(&mut v, "-m");
    push_string(&mut v, message);
    proof {
        assert(views_of(v@) =~= git_commit_args(message@));
    }
    v
}

/// Builds the push command for the work branch.
pub fn git_push_cmd(branch: &String) -> (r: Vec<String>)
    ensures
        views_of(r@) == git_push_args(branch@),
{
    let mut v: Vec<String> = Vec::new();
    push_lit(&mut v, "git");
    push_lit(&mut v, "push");
    push_lit(&mut v, "origin");
    push_string(&mut v, branch);
    proof {
        assert(views_of(v@) =~= git_push_args(branch@));
    }
    v
}

/// Builds the pull request creation command.
pub fn gh_pr_cmd(branch: &String, body: &String) -> (r: Vec<String>)
    ensures
        views_of(r@) == gh_pr_args(branch@, body@),
{
    let mut v: Vec<String> = Vec::new();
    push_lit(&mut v, "gh");
    push_lit(&mut v, "pr");
    push_lit(&mut v, "create");
    push_lit(&mut v, "--title");
    push_lit(&mut v, "chore: patch to use main branch of iroh dependencies");
    push_lit(&mut v, "--body");
    push_string(&mut v, body);
    push_lit(&mut v, "--base");
    push_lit(&mut v, "main");
    push_lit(&mut v, "--head");
    push_string(&mut v, branch);
    proof {
        assert(views_of(v@) =~= gh_pr_args(branch@, body@));
    }
    v
}

/// Builds the build check command.
pub fn cargo_check_cmd() -> (r: Vec<String>)
    ensures
        views_of(r@) == cargo_check_args(),
{
    let mut v: Vec<String> = Vec::new();
    push_lit(&mut v, "cargo");
    push_lit(&mut v, "check");
    push_lit(&mut v, "--all-targets");
    push_lit(&mut v, "--all-features");
    proof {
        assert(views_of(v@) =~= cargo_check_args());
    }
    v
}

/// Builds the hard reset command.
pub fn git_reset_hard_cmd() -> (r: Vec<String>)
    ensures
        views_of(r@) == git_reset_hard_args(),
{
    let mut v: Vec<String> = Vec::new();
    push_lit(&mut v, "git");
    push_lit(&mut v, "reset");
    push_lit(&mut v, "--hard");
    proof {
        assert(views_of(v@) =~= git_reset_hard_args());
    }
    v
}

/// Builds the local deletion command for the automation branch.
pub fn git_delete_branch_cmd() -> (r: Vec<String>)
    ensures
        views_of(r@) == git_delete_branch_args(),
{
    let mut v: Vec<String> = Vec::new();
    push_lit(&mut v, "git");
    push_lit(&mut v, "branch");
    push_lit(&mut v, "-D");
    push_lit(&mut v, "patch-iroh-main");
    proof {
        assert(views_of(v@) =~= git_delete_branch_args());
    }
    v
}

/// Builds the remote deletion command for the automation branch.
pub fn git_delete_remote_branch_cmd() -> (r: Vec<String>)
    ensures
        views_of(r@) == git_delete_remote_branch_args(),
{
    let mut v: Vec<String> = Vec::new();
    push_lit(&mut v, "git");
    push_lit(&mut v, "push");
    push_lit(&mut v, "origin");
    push_lit(&mut v, "--delete");
    push_lit(&mut v, "patch-iroh-main");
    proof {
        assert(views_of(v@) =~= git_delete_remote_branch_args());
    }
    v
}

/// Builds the shared commit and pull request body for the given
/// dependencies.
pub fn change_summary_string(ds: &Vec<Dep>) -> (r: String)
    ensures
        r@ == change_summary(dep_views(ds@)),
{
    let mut out: String =
        "This PR updates the following dependencies to use their main branches:\n\n".to_owned();
    let ghost prefix = out@;
    proof {
        assert(out@ =~= prefix + dep_bullets(dep_views(ds@.take(0))));
    }
    let mut i: usize = 0;
    while i < ds.len()
        invariant
            i <= ds@.len(),
            out@ == prefix + dep_bullets(dep_views(ds@.take(i as int))),
            prefix
                == "This PR updates the following dependencies to use their main branches:\n\n"@,
        decreases ds@.len() - i,
    {
        if i > 0 {
            out.append("\n");
        }
        out.append("- `");
        out.append(ds[i].name.as_str());
        out.append("` from `");
        out.append(ds[i].repo_url.as_str());
        out.append("`");
        proof {
            let prev = dep_views(ds@.take(i as int));
            let now = dep_views(ds@.take(i + 1));
            assert(now.drop_last() =~= prev);
            assert(now.last() == ds@[i as int]@);
            if i == 0 {
                assert(dep_bullets(now) == dep_bullet(ds@[i as int]@));
            } else {
                assert(dep_bullets(now) == dep_bullets(prev) + "\n"@ + dep_bullet(
                    ds@[i as int]@,
                ));
            }
            assert(out@ =~= prefix + dep_bullets(now));
        }
        i += 1;
    }
    proof {
        assert(ds@.take(ds@.len() as int) =~= ds@);
    }
    out
}

/// Builds the commit message for the given dependencies.
pub fn commit_message_string(ds: &Vec<Dep>) -> (r: String)
    ensures
        r@ == commit_message_text(dep_views(ds@)),
{
    let mut out: String = "chore: add patch for `iroh` dependencies\n\n".to_owned();
    let body = change_summary_string(ds);
    out.append(body.as_str());
    proof {
        assert(out@ =~= commit_message_text(dep_views(ds@)));
    }
    out
}

} // verus!
