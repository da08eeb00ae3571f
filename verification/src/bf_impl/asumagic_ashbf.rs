//! AshBF, an optimizing interpreter.

use vstd::prelude::*;
use vstd::string::*;
use crate::acquire::{
    fetch_plan, fetch_plan_spec, git_repo_branch, git_repo_branch_spec, AcquireError, Found,
};
use crate::benchmark::{Benchmark, BenchmarkView};
use crate::bf_impl::{
    checkout, command_pattern, invoke, invoke_spec, label, label_spec, open_span, rewrite, Artifact,
    ArtifactView, BFImpl, Finder,
};
use crate::cmake::{build_cmake, build_cmake_spec};
use crate::pattern::escaped;
use crate::platform::Platform;
use crate::process::{create_dir_all, extend_steps, no_steps, push_step, Step, StepView};

verus! {

/// Name of the interpreter.
pub const NAME: &'static str = "asumagic/ashbf";

/// Source website.
pub const WEBSITE: &'static str = "https://github.com/AsuMagic/AshBF";

/// Source URL.
pub const URL: &'static str = "https://github.com/AsuMagic/AshBF.git";

/// The revision that is built.
pub const REVISION: &'static str = "5b77debb34e81ad40904dac9b848fbf288a0fdd0";

/// Source folder.
pub const SRC_DIR: &'static str = "build/src/asumagic/ashbf";

/// Folder in the out folder for temporaries.
pub const OUT_FOLDER: &'static str = "build/out/asumagic/ashbf";

/// Actual executable ran.
pub const RESULT_EXE: &'static str = "build/out/asumagic/ashbf/ashbf";

/// AshBF, pinned to one revision and built with CMake.
#[derive(Clone, Copy, Debug, PartialEq, Eq)]
pub struct AsumagicAshbfBfImpl;

impl BFImpl for AsumagicAshbfBfImpl {
    open spec fn spec_name(&self) -> Seq<char> {
        NAME@
    }

    open spec fn spec_interpreted(&self) -> bool {
        true
    }

    open spec fn spec_enabled(&self, platform: Platform) -> bool {
        true
    }

    open spec fn spec_artifact(&self) -> ArtifactView {
        ArtifactView::Directory { path: SRC_DIR@ }
    }

    open spec fn spec_get(&self, found: Found, platform: Platform) -> Result<
        Seq<StepView>,
        AcquireError,
    > {
        fetch_plan_spec(git_repo_branch_spec(URL@, SRC_DIR@, REVISION@, found))
    }

    open spec fn spec_build(&self, platform: Platform) -> Seq<StepView> {
        seq![StepView::CreateDirAll { path: OUT_FOLDER@ }] + build_cmake_spec(
            "ashbf"@,
            OUT_FOLDER@,
            SRC_DIR@,
            platform,
        )
    }

    open spec fn spec_prepare(&self, file: BenchmarkView, platform: Platform) -> Seq<StepView> {
        Seq::empty()
    }

    open spec fn spec_invoke_command(&self, file: BenchmarkView) -> Seq<char> {
        invoke_spec(RESULT_EXE@, ""@, file.path)
    }

    open spec fn spec_finder(&self) -> Finder {
        Finder::Pattern(open_span(escaped(RESULT_EXE@)))
    }

    open spec fn spec_label(&self) -> Seq<char> {
        label_spec(NAME@, WEBSITE@)
    }

    fn name(&self) -> (name: String) {
        String::from_str(NAME)
    }

    fn interpreted(&self) -> (interpreted: bool) {
        true
    }

    fn enabled(&self, platform: Platform) -> (enabled: bool) {
        true
    }

    fn artifact(&self) -> (artifact: Artifact) {
        checkout(SRC_DIR)
    }

    fn get(&self, found: Found, platform: Platform) -> (plan: Result<Vec<Step>, AcquireError>) {
        fetch_plan(git_repo_branch(URL, SRC_DIR, REVISION, found))
    }

    fn build(&self, platform: Platform) -> (steps: Vec<Step>) {
        let mut steps: Vec<Step> = Vec::new();
        push_step(&mut steps, create_dir_all(OUT_FOLDER));
        extend_steps(&mut steps, build_cmake("ashbf", OUT_FOLDER, SRC_DIR, platform));
        assert(steps.deep_view() =~= self.spec_build(platform));
        steps
    }

    fn prepare(&self, file: &Benchmark, platform: Platform) -> (steps: Vec<Step>) {
        no_steps()
    }

    fn get_invoke_command(&self, file: &Benchmark) -> (line: String) {
        proof {
            reveal_strlit("");
        }
        invoke(RESULT_EXE, "", file.path.as_str())
    }

    fn filter_output(&self, contents: String) -> (out: String) {
        let pattern = command_pattern(RESULT_EXE);
        let label = label(NAME, WEBSITE);
        rewrite(contents, pattern.as_str(), label.as_str())
    }
}

} // verus!
