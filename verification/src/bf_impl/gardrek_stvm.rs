//! stvm, a virtual machine with a Brainfuck front end, built with cargo.

use vstd::prelude::*;
use vstd::string::*;
use crate::acquire::{fetch_plan, fetch_plan_spec, git_repo, git_repo_spec, AcquireError, Found};
use crate::benchmark::{Benchmark, BenchmarkView};
use crate::bf_impl::{
    checkout, command_pattern, invoke, invoke_spec, label, label_spec, open_span, rewrite, Artifact,
    ArtifactView, BFImpl, Finder,
};
use crate::pattern::escaped;
use crate::platform::Platform;
use crate::process::{
    arguments, command_in, create_dir_all, no_steps, push_step, run, CommandView, Step, StepView,
};

verus! {

/// Name of the interpreter.
pub const NAME: &'static str = "gardrek/stvm";

/// Source website.
pub const WEBSITE: &'static str = "https://github.com/gardrek/stvm";

/// Source URL.
pub const URL: &'static str = "https://github.com/gardrek/stvm.git";

/// Source folder.
pub const SRC_DIR: &'static str = "build/src/gardrek/stvm";

/// Folder in the out folder for temporaries.
pub const OUT_FOLDER: &'static str = "build/out/gardrek/stvm";

/// Actual executable ran.
pub const RESULT_EXE: &'static str = "build/src/gardrek/stvm/target/release/main";

/// stvm, built with cargo.
#[derive(Clone, Copy, Debug, PartialEq, Eq)]
pub struct GardrekStvmBfImpl;

impl BFImpl for GardrekStvmBfImpl {
    open spec fn spec_name(&self) -> Seq<char> {
        NAME@
    }

    open spec fn spec_interpreted(&self) -> bool {
        true
    }

    open spec fn spec_enabled(&self, platform: Platform) -> bool {
        true
    }

    open spec fn spec_artifact(&self) -> ArtifactView {
        ArtifactView::Directory { path: SRC_DIR@ }
    }

    open spec fn spec_get(&self, found: Found, platform: Platform) -> Result<
        Seq<StepView>,
        AcquireError,
    > {
        fetch_plan_spec(git_repo_spec(URL@, SRC_DIR@, found))
    }

    open spec fn spec_build(&self, platform: Platform) -> Seq<StepView> {
        seq![
            StepView::CreateDirAll { path: OUT_FOLDER@ },
            StepView::Run {
                command: CommandView {
                    program: "cargo"@,
                    args: seq!["build"@, "--release"@],
                    current_dir: Some(SRC_DIR@),
                },
            },
        ]
    }

    open spec fn spec_prepare(&self, file: BenchmarkView, platform: Platform) -> Seq<StepView> {
        Seq::empty()
    }

    open spec fn spec_invoke_command(&self, file: BenchmarkView) -> Seq<char> {
        invoke_spec(RESULT_EXE@, "--bf"@, file.path)
    }

    open spec fn spec_finder(&self) -> Finder {
        Finder::Pattern(open_span(escaped(RESULT_EXE@)))
    }

    open spec fn spec_label(&self) -> Seq<char> {
        label_spec(NAME@, WEBSITE@)
    }

    fn name(&self) -> (name: String) {
        String::from_str(NAME)
    }

    fn interpreted(&self) -> (interpreted: bool) {
        true
    }

    fn enabled(&self, platform: Platform) -> (enabled: bool) {
        true
    }

    fn artifact(&self) -> (artifact: Artifact) {
        checkout(SRC_DIR)
    }

    fn get(&self, found: Found, platform: Platform) -> (plan: Result<Vec<Step>, AcquireError>) {
        fetch_plan(git_repo(URL, SRC_DIR, found))
    }

    fn build(&self, platform: Platform) -> (steps: Vec<Step>) {
        let mut steps: Vec<Step> = Vec::new();
        push_step(&mut steps, create_dir_all(OUT_FOLDER));
        let args = arguments(&["build", "--release"]);
        assert(args.deep_view() =~= seq!["build"@, "--release"@]);
        push_step(&mut steps, run(command_in("cargo", args, SRC_DIR)));
        assert(steps.deep_view() =~= self.spec_build(platform));
        steps
    }

    fn prepare(&self, file: &Benchmark, platform: Platform) -> (steps: Vec<Step>) {
        no_steps()
    }

    fn get_invoke_command(&self, file: &Benchmark) -> (line: String) {
        proof {
            reveal_strlit("--bf");
        }
        invoke(RESULT_EXE, "--bf", file.path.as_str())
    }

    fn filter_output(&self, contents: String) -> (out: String) {
        let pattern = command_pattern(RESULT_EXE);
        let label = label(NAME, WEBSITE);
        rewrite(contents, pattern.as_str(), label.as_str())
    }
}

} // verus!
