//! bfc, an optimizing compiler built with cargo.
//!
//! Each benchmark is compiled in a scratch folder; the executable is moved
//! to a fixed place and the scratch folder is removed again.

use vstd::prelude::*;
use vstd::string::*;
use crate::acquire::{fetch_plan, fetch_plan_spec, git_repo, git_repo_spec, AcquireError, Found};
use crate::benchmark::{file_stem_spec, Benchmark, BenchmarkView};
use crate::bf_impl::{
    checkout, code_span, exact_span, label, label_spec, replace_in_lines, Artifact, ArtifactView,
    BFImpl, Finder,
};
use crate::platform::Platform;
use crate::process::{
    arguments, command_in, create_dir_all, push_step, remove_dir_all, run, CommandView, Step,
    StepView,
};
use crate::text::{join_path, join_path_spec};

verus! {

/// Name of the compiler.
pub const NAME: &'static str = "wilfried/bfc";

/// Source website.
pub const WEBSITE: &'static str = "https://github.com/Wilfred/bfc";

/// Source URL.
pub const URL: &'static str = "https://github.com/Wilfred/bfc.git";

/// Source folder.
pub const SRC_DIR: &'static str = "build/src/wilfred/bfc";

/// Folder in the out folder for temporaries. Deleted after each preparation.
pub const OUT_FOLDER: &'static str = "build/out/wilfred/bfc";

/// Actual executable produced.
pub const RESULT_EXE: &'static str = "build/out/wilfred_bfc.out";

/// The compiler, as seen from inside the scratch folder.
pub const COMPILER: &'static str = "../../../../build/src/wilfred/bfc/target/release/bfc";

/// bfc, a compiler: every benchmark is compiled to an executable.
#[derive(Clone, Copy, Debug, PartialEq, Eq)]
pub struct WilfredBfcBfImpl;

impl BFImpl for WilfredBfcBfImpl {
    open spec fn spec_name(&self) -> Seq<char> {
        NAME@
    }

    open spec fn spec_interpreted(&self) -> bool {
        false
    }

    open spec fn spec_enabled(&self, platform: Platform) -> bool {
        true
    }

    open spec fn spec_artifact(&self) -> ArtifactView {
        ArtifactView::Directory { path: SRC_DIR@ }
    }

    open spec fn spec_get(&self, found: Found, platform: Platform) -> Result<
        Seq<StepView>,
        AcquireError,
    > {
        fetch_plan_spec(git_repo_spec(URL@, SRC_DIR@, found))
    }

    open spec fn spec_build(&self, platform: Platform) -> Seq<StepView> {
        seq![
            StepView::Run {
                command: CommandView {
                    program: "cargo"@,
                    args: seq!["build"@, "--release"@],
                    current_dir: Some(SRC_DIR@),
                },
            },
        ]
    }

    open spec fn spec_prepare(&self, file: BenchmarkView, platform: Platform) -> Seq<StepView> {
        seq![
            StepView::CreateDirAll { path: OUT_FOLDER@ },
            StepView::Run {
                command: CommandView {
                    program: COMPILER@,
                    args: seq![file.path],
                    current_dir: Some(OUT_FOLDER@),
                },
            },
            StepView::CopyFile {
                from: join_path_spec(OUT_FOLDER@, file_stem_spec(file.file_name), platform),
                to: RESULT_EXE@,
            },
            StepView::RemoveDirAll { path: OUT_FOLDER@ },
        ]
    }

    open spec fn spec_invoke_command(&self, file: BenchmarkView) -> Seq<char> {
        RESULT_EXE@
    }

    open spec fn spec_finder(&self) -> Finder {
        Finder::Literal(exact_span(RESULT_EXE@))
    }

    open spec fn spec_label(&self) -> Seq<char> {
        label_spec(NAME@, WEBSITE@)
    }

    fn name(&self) -> (name: String) {
        String::from_str(NAME)
    }

    fn interpreted(&self) -> (interpreted: bool) {
        false
    }

    fn enabled(&self, platform: Platform) -> (enabled: bool) {
        true
    }

    fn artifact(&self) -> (artifact: Artifact) {
        checkout(SRC_DIR)
    }

    fn get(&self, found: Found, platform: Platform) -> (plan: Result<Vec<Step>, AcquireError>) {
        fetch_plan(git_repo(URL, SRC_DIR, found))
    }

    fn build(&self, platform: Platform) -> (steps: Vec<Step>) {
        let mut steps: Vec<Step> = Vec::new();
        let args = arguments(&["build", "--release"]);
        assert(args.deep_view() =~= seq!["build"@, "--release"@]);
        push_step(&mut steps, run(command_in("cargo", args, SRC_DIR)));
        assert(steps.deep_view() =~= self.spec_build(platform));
        steps
    }

    fn prepare(&self, file: &Benchmark, platform: Platform) -> (steps: Vec<Step>) {
        let stem = file.file_stem();
        let mut steps: Vec<Step> = Vec::new();
        push_step(&mut steps, create_dir_all(OUT_FOLDER));
        let args = arguments(&[file.path.as_str()]);
        assert(args.deep_view() =~= seq![file.path@]);
        push_step(&mut steps, run(command_in(COMPILER, args, OUT_FOLDER)));
        push_step(
            &mut steps,
            Step::CopyFile {
                from: join_path(OUT_FOLDER, stem.as_str(), platform),
                to: String::from_str(RESULT_EXE),
            },
        );
        push_step(&mut steps, remove_dir_all(OUT_FOLDER));
        assert(steps.deep_view() =~= self.spec_prepare(file@, platform));
        steps
    }

    fn get_invoke_command(&self, file: &Benchmark) -> (line: String) {
        String::from_str(RESULT_EXE)
    }

    fn filter_output(&self, contents: String) -> (out: String) {
        let needle = code_span(RESULT_EXE);
        let label = label(NAME, WEBSITE);
        replace_in_lines(contents, needle.as_str(), label.as_str())
    }
}

} // verus!
