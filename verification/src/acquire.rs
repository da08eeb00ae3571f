//! Source acquisition: fetching an implementation's sources or binary.
//!
//! Each function turns what the driver found on disk into the action to
//! take. An artifact that is already present is never fetched again: a
//! present checkout is only ever fast-forwarded or switched, never cloned
//! over, and a present download is left alone. Where a checkout is expected
//! and something else is in its place, nothing is planned at all.

use vstd::prelude::*;
use vstd::string::*;
use crate::platform::Platform;
use crate::process::{
    arguments, command, command_in, push_step, run, Command, CommandView, Step, StepView,
};

verus! {

/// What the driver found at a path.
#[derive(Clone, Copy, Debug, PartialEq, Eq, Structural)]
pub enum Found {
    /// Nothing is there.
    Nothing,
    /// A directory is there.
    Directory,
    /// Something is there that is no directory.
    Other,
}

/// Why nothing can be fetched.
#[derive(Clone, Copy, Debug, PartialEq, Eq, Structural)]
pub enum AcquireError {
    /// The place of a checkout is taken by something that is no directory.
    NotADirectory,
}

/// A plan, or the refusal to make one, by what it stands for.
pub open spec fn plan_view(plan: Result<Vec<Step>, AcquireError>) -> Result<
    Seq<StepView>,
    AcquireError,
> {
    match plan {
        Ok(steps) => Ok(steps.deep_view()),
        Err(e) => Err(e),
    }
}

/// A command, or the refusal to give one, by what it stands for.
pub open spec fn command_view(command: Result<Command, AcquireError>) -> Result<
    CommandView,
    AcquireError,
> {
    match command {
        Ok(c) => Ok(c@),
        Err(e) => Err(e),
    }
}

/// The plan that consists of running `command`, if there is one.
pub open spec fn fetch_plan_spec(command: Result<CommandView, AcquireError>) -> Result<
    Seq<StepView>,
    AcquireError,
> {
    match command {
        Ok(c) => Ok(seq![StepView::Run { command: c }]),
        Err(e) => Err(e),
    }
}

/// The plan that consists of running `command`, if there is one.
pub fn fetch_plan(command: Result<Command, AcquireError>) -> (plan: Result<
    Vec<Step>,
    AcquireError,
>)
    ensures
        plan_view(plan) == fetch_plan_spec(command_view(command)),
{
    match command {
        Ok(c) => {
            let mut steps: Vec<Step> = Vec::new();
            push_step(&mut steps, run(c));
            assert(steps.deep_view() =~= seq![StepView::Run { command: c@ }]);
            Ok(steps)
        },
        Err(e) => Err(e),
    }
}

/// The command that brings the checkout of `url` in `folder` up to date.
pub open spec fn git_repo_spec(url: Seq<char>, folder: Seq<char>, found: Found) -> Result<
    CommandView,
    AcquireError,
> {
    match found {
        Found::Nothing => Ok(
            CommandView { program: "git"@, args: seq!["clone"@, url, folder], current_dir: None },
        ),
        Found::Directory => Ok(
            CommandView {
                program: "git"@,
                args: seq!["pull"@, "--ff-only"@, "origin"@, "master"@],
                current_dir: Some(folder),
            },
        ),
        Found::Other => Err(AcquireError::NotADirectory),
    }
}

/// Version-control strategy, latest revision. If nothing is at `folder`, a
/// fresh clone of `url` into it; if a directory is there, an update inside it
/// that only ever fast-forwards the default branch. If something else is
/// there, no command: it is neither removed nor written over.
pub fn git_repo(url: &str, folder: &str, found: Found) -> (c: Result<Command, AcquireError>)
    ensures
        command_view(c) == git_repo_spec(url@, folder@, found),
{
    match found {
        Found::Nothing => {
            let args = arguments(&["clone", url, folder]);
            assert(args.deep_view() =~= seq!["clone"@, url@, folder@]);
            Ok(command("git", args))
        },
        Found::Directory => {
            let args = arguments(&["pull", "--ff-only", "origin", "master"]);
            assert(args.deep_view() =~= seq!["pull"@, "--ff-only"@, "origin"@, "master"@]);
            Ok(command_in("git", args, folder))
        },
        Found::Other => Err(AcquireError::NotADirectory),
    }
}

/// The command that puts the checkout of `url` in `folder` on `branch`.
pub open spec fn git_repo_branch_spec(
    url: Seq<char>,
    folder: Seq<char>,
    branch: Seq<char>,
    found: Found,
) -> Result<CommandView, AcquireError> {
    match found {
        Found::Nothing => Ok(
            CommandView {
                program: "git"@,
                args: seq!["clone"@, url, folder, "--branch"@, branch],
                current_dir: None,
            },
        ),
        Found::Directory => Ok(
            CommandView {
                program: "git"@,
                args: seq!["checkout"@, branch],
                current_dir: Some(folder),
            },
        ),
        Found::Other => Err(AcquireError::NotADirectory),
    }
}

/// Version-control strategy, pinned revision. If nothing is at `folder`, a
/// clone of `url` into it with `branch` selected; if a directory is there, a
/// checkout of `branch` inside it. If something else is there, no command.
pub fn git_repo_branch(url: &str, folder: &str, branch: &str, found: Found) -> (c: Result<
    Command,
    AcquireError,
>)
    ensures
        command_view(c) == git_repo_branch_spec(url@, folder@, branch@, found),
{
    match found {
        Found::Nothing => {
            let args = arguments(&["clone", url, folder, "--branch", branch]);
            assert(args.deep_view() =~= seq!["clone"@, url@, folder@, "--branch"@, branch@]);
            Ok(command("git", args))
        },
        Found::Directory => {
            let args = arguments(&["checkout", branch]);
            assert(args.deep_view() =~= seq!["checkout"@, branch@]);
            Ok(command_in("git", args, folder))
        },
        Found::Other => Err(AcquireError::NotADirectory),
    }
}

/// The plan that downloads `url` to `dest`.
pub open spec fn curl_file_spec(
    url: Seq<char>,
    dest: Seq<char>,
    found: Found,
    platform: Platform,
) -> Seq<StepView> {
    let download = StepView::Run {
        command: CommandView {
            program: "curl"@,
            args: seq!["-L"@, url, "--output"@, dest],
            current_dir: None,
        },
    };
    if found != Found::Nothing {
        Seq::<StepView>::empty()
    } else if platform == Platform::Windows {
        seq![download]
    } else {
        seq![download, StepView::MakeExecutable { path: dest }]
    }
}

/// Direct-download strategy. Nothing if anything is at `dest`; otherwise
/// the download of `url` to `dest`, followed off Windows by marking the file
/// executable.
pub fn curl_file(url: &str, dest: &str, found: Found, platform: Platform) -> (steps: Vec<Step>)
    ensures
        steps.deep_view() == curl_file_spec(url@, dest@, found, platform),
{
    let mut steps: Vec<Step> = Vec::new();
    assert(steps.deep_view() =~= Seq::<StepView>::empty());
    match found {
        Found::Nothing => {
            let args = arguments(&["-L", url, "--output", dest]);
            assert(args.deep_view() =~= seq!["-L"@, url@, "--output"@, dest@]);
            push_step(&mut steps, Step::Run { command: command("curl", args) });
            match platform {
                Platform::Windows => {},
                Platform::Other => {
                    push_step(&mut steps, Step::MakeExecutable { path: String::from_str(dest) });
                },
            }
            assert(steps.deep_view() =~= curl_file_spec(url@, dest@, found, platform));
        },
        _ => {},
    }
    steps
}

/// Acquisition is idempotent. What is present is never fetched anew: for a
/// present checkout the command is no `clone`, runs inside the checkout,
/// only fast-forwards or switches, and does not depend on the address; for
/// a present download there is nothing to do.
pub proof fn lemma_present_is_kept(
    url: Seq<char>,
    other_url: Seq<char>,
    folder: Seq<char>,
    branch: Seq<char>,
    platform: Platform,
)
    ensures
        git_repo_spec(url, folder, Found::Directory) matches Ok(c) && c.args[0] != "clone"@
            && c.args == seq!["pull"@, "--ff-only"@, "origin"@, "master"@] && c.current_dir
            == Some(folder),
        git_repo_spec(url, folder, Found::Directory) == git_repo_spec(
            other_url,
            folder,
            Found::Directory,
        ),
        git_repo_branch_spec(url, folder, branch, Found::Directory) matches Ok(c) && c.args[0]
            != "clone"@ && c.current_dir == Some(folder),
        git_repo_branch_spec(url, folder, branch, Found::Directory) == git_repo_branch_spec(
            other_url,
            folder,
            branch,
            Found::Directory,
        ),
        curl_file_spec(url, folder, Found::Directory, platform) == Seq::<StepView>::empty(),
        curl_file_spec(url, folder, Found::Other, platform) == Seq::<StepView>::empty(),
{
    reveal_strlit("clone");
    reveal_strlit("pull");
    reveal_strlit("checkout");
    assert("pull"@.len() != "clone"@.len());
    assert("checkout"@.len() != "clone"@.len());
}

/// What stands in the place of a checkout and is no directory is never
/// touched: no command is planned for it.
pub proof fn lemma_no_directory_is_refused(url: Seq<char>, folder: Seq<char>, branch: Seq<char>)
    ensures
        git_repo_spec(url, folder, Found::Other) is Err,
        git_repo_branch_spec(url, folder, branch, Found::Other) is Err,
{
}

} // verus!
