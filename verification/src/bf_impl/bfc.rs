//! bfc under its short name, with its files directly under `build/src/bfc`.
//!
//! This adapter stands outside the roster; it offers the stages and the
//! report rewriting, but no name to select it by.

use vstd::prelude::*;
use vstd::string::*;
use crate::acquire::{
    fetch_plan, fetch_plan_spec, git_repo, git_repo_spec, plan_view, AcquireError, Found,
};
use crate::benchmark::{file_stem_spec, Benchmark, BenchmarkView};
use crate::bf_impl::{
    code_span, exact_span, keeps_other_lines, label, label_spec, replace_in_lines, rewritten,
    Finder,
};
use crate::platform::Platform;
use crate::process::{
    arguments, command_in, create_dir_all, push_step, remove_dir_all, run, CommandView, Step,
    StepView,
};
use crate::text::{join_path, join_path_spec};

verus! {

/// Name of the compiler.
pub const NAME: &'static str = "bfc";

/// Source website.
pub const WEBSITE: &'static str = "https://github.com/Wilfred/bfc";

/// Source URL.
pub const URL: &'static str = "https://github.com/Wilfred/bfc.git";

/// Source folder, as handed to the version control tool.
pub const SRC_DIR: &'static str = "build/src/bfc/";

/// Source folder, as the working directory of the build.
pub const BUILD_DIR: &'static str = "build/src/bfc";

/// Folder in the out folder for temporaries. Deleted after each preparation.
pub const OUT_FOLDER: &'static str = "build/out/bfc";

/// Actual executable produced.
pub const RESULT_EXE: &'static str = "build/out/bfc.out";

/// The compiler, as seen from inside the scratch folder.
pub const COMPILER: &'static str = "../../../build/src/bfc/target/release/bfc";

/// bfc under its short name.
#[derive(Clone, Copy, Debug, PartialEq, Eq)]
pub struct BfcBfImpl;

impl BfcBfImpl {
    /// The plan that fetches the compiler.
    pub open spec fn spec_get(&self, found: Found) -> Result<Seq<StepView>, AcquireError> {
        fetch_plan_spec(git_repo_spec(URL@, SRC_DIR@, found))
    }

    /// The plan that builds the compiler.
    pub open spec fn spec_build(&self) -> Seq<StepView> {
        seq![
            StepView::Run {
                command: CommandView {
                    program: "cargo"@,
                    args: seq!["build"@, "--release"@],
                    current_dir: Some(BUILD_DIR@),
                },
            },
        ]
    }

    /// The plan that compiles `file` in a scratch folder, moves the
    /// executable to its place and removes the folder.
    pub open spec fn spec_prepare(&self, file: BenchmarkView, platform: Platform) -> Seq<StepView> {
        seq![
            StepView::CreateDirAll { path: OUT_FOLDER@ },
            StepView::Run {
                command: CommandView {
                    program: COMPILER@,
                    args: seq![file.path],
                    current_dir: Some(OUT_FOLDER@),
                },
            },
            StepView::CopyFile {
                from: join_path_spec(OUT_FOLDER@, file_stem_spec(file.file_name), platform),
                to: RESULT_EXE@,
            },
            StepView::RemoveDirAll { path: OUT_FOLDER@ },
        ]
    }

    /// Stage for fetching the source. `found` tells what is in the place of
    /// the source folder.
    pub fn get(&self, found: Found) -> (plan: Result<Vec<Step>, AcquireError>)
        ensures
            plan_view(plan) == self.spec_get(found),
    {
        fetch_plan(git_repo(URL, SRC_DIR, found))
    }

    /// Stage for building the compiler itself.
    pub fn build(&self) -> (steps: Vec<Step>)
        ensures
            steps.deep_view() == self.spec_build(),
    {
        let mut steps: Vec<Step> = Vec::new();
        let args = arguments(&["build", "--release"]);
        assert(args.deep_view() =~= seq!["build"@, "--release"@]);
        push_step(&mut steps, run(command_in("cargo", args, BUILD_DIR)));
        assert(steps.deep_view() =~= self.spec_build());
        steps
    }

    /// Stage for compiling `file`.
    pub fn prepare(&self, file: &Benchmark, platform: Platform) -> (steps: Vec<Step>)
        ensures
            steps.deep_view() == self.spec_prepare(file@, platform),
    {
        let stem = file.file_stem();
        let mut steps: Vec<Step> = Vec::new();
        push_step(&mut steps, create_dir_all(OUT_FOLDER));
        let args = arguments(&[file.path.as_str()]);
        assert(args.deep_view() =~= seq![file.path@]);
        push_step(&mut steps, run(command_in(COMPILER, args, OUT_FOLDER)));
        push_step(
            &mut steps,
            Step::CopyFile {
                from: join_path(OUT_FOLDER, stem.as_str(), platform),
                to: String::from_str(RESULT_EXE),
            },
        );
        push_step(&mut steps, remove_dir_all(OUT_FOLDER));
        assert(steps.deep_view() =~= self.spec_prepare(file@, platform));
        steps
    }

    /// The command line that the timing tool is to run: the compiled
    /// program, whatever the input was.
    pub fn get_invoke_command(&self, file: &Benchmark) -> (line: String)
        ensures
            line@ == RESULT_EXE@,
    {
        String::from_str(RESULT_EXE)
    }

    /// Rewrites a report so that the compiled program goes by the
    /// compiler's label.
    pub fn filter_output(&self, contents: String) -> (out: String)
        ensures
            out@ == rewritten(
                contents@,
                Finder::Literal(exact_span(RESULT_EXE@)),
                label_spec(NAME@, WEBSITE@),
            ),
            keeps_other_lines(
                contents@,
                Finder::Literal(exact_span(RESULT_EXE@)),
                label_spec(NAME@, WEBSITE@),
            ),
    {
        let needle = code_span(RESULT_EXE);
        let label = label(NAME, WEBSITE);
        replace_in_lines(contents, needle.as_str(), label.as_str())
    }
}

} // verus!
