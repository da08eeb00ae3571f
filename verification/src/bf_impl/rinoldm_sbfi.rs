//! sbfi, an interpreter built from its C sources with a generated build
//! description.

use vstd::prelude::*;
use vstd::string::*;
use crate::acquire::{fetch_plan, fetch_plan_spec, git_repo, git_repo_spec, AcquireError, Found};
use crate::benchmark::{Benchmark, BenchmarkView};
use crate::bf_impl::{
    checkout, command_pattern, invoke, invoke_spec, label, label_spec, open_span, rewrite, Artifact,
    ArtifactView, BFImpl, Finder,
};
use crate::cmake::{build_cmake, build_cmake_spec};
use crate::pattern::escaped;
use crate::platform::Platform;
use crate::process::{create_dir_all, extend_steps, no_steps, push_step, Step, StepView};

verus! {

/// Name of the interpreter.
pub const NAME: &'static str = "rinoldm/sbfi";

/// Source website.
pub const WEBSITE: &'static str = "https://github.com/rinoldm/sbfi";

/// Source URL.
pub const URL: &'static str = "https://github.com/rinoldm/sbfi.git";

/// Source folder.
pub const SRC_DIR: &'static str = "build/src/rinoldm/sbfi";

/// Folder in the out folder for temporaries.
pub const OUT_FOLDER: &'static str = "build/out/rinoldm/sbfi";

/// Actual executable ran.
pub const RESULT_EXE: &'static str = "build/out/rinoldm/sbfi/sbfi";

/// The translation units of the interpreter.
pub const SOURCES: &'static str = "build/src/rinoldm/sbfi/*.c";

/// sbfi, built with CMake from a generated build description.
#[derive(Clone, Copy, Debug, PartialEq, Eq)]
pub struct RinoldmSbfiBfImpl;

impl BFImpl for RinoldmSbfiBfImpl {
    open spec fn spec_name(&self) -> Seq<char> {
        NAME@
    }

    open spec fn spec_interpreted(&self) -> bool {
        true
    }

    open spec fn spec_enabled(&self, platform: Platform) -> bool {
        true
    }

    open spec fn spec_artifact(&self) -> ArtifactView {
        ArtifactView::Directory { path: SRC_DIR@ }
    }

    open spec fn spec_get(&self, found: Found, platform: Platform) -> Result<
        Seq<StepView>,
        AcquireError,
    > {
        fetch_plan_spec(git_repo_spec(URL@, SRC_DIR@, found))
    }

    open spec fn spec_build(&self, platform: Platform) -> Seq<StepView> {
        seq![
            StepView::CreateDirAll { path: OUT_FOLDER@ },
            StepView::CreateCmake { name: "sbfi"@, src_dir: SRC_DIR@, glob: SOURCES@ },
        ] + build_cmake_spec("sbfi"@, OUT_FOLDER@, SRC_DIR@, platform)
    }

    open spec fn spec_prepare(&self, file: BenchmarkView, platform: Platform) -> Seq<StepView> {
        Seq::empty()
    }

    open spec fn spec_invoke_command(&self, file: BenchmarkView) -> Seq<char> {
        invoke_spec(RESULT_EXE@, ""@, file.path)
    }

    open spec fn spec_finder(&self) -> Finder {
        Finder::Pattern(open_span(escaped(RESULT_EXE@)))
    }

    open spec fn spec_label(&self) -> Seq<char> {
        label_spec(NAME@, WEBSITE@)
    }

    fn name(&self) -> (name: String) {
        String::from_str(NAME)
    }

    fn interpreted(&self) -> (interpreted: bool) {
        true
    }

    fn enabled(&self, platform: Platform) -> (enabled: bool) {
        true
    }

    fn artifact(&self) -> (artifact: Artifact) {
        checkout(SRC_DIR)
    }

    fn get(&self, found: Found, platform: Platform) -> (plan: Result<Vec<Step>, AcquireError>) {
        fetch_plan(git_repo(URL, SRC_DIR, found))
    }

    fn build(&self, platform: Platform) -> (steps: Vec<Step>) {
        let mut steps: Vec<Step> = Vec::new();
        push_step(&mut steps, create_dir_all(OUT_FOLDER));
        push_step(
            &mut steps,
            Step::CreateCmake {
                name: String::from_str("sbfi"),
                src_dir: String::from_str(SRC_DIR),
                glob: String::from_str(SOURCES),
            },
        );
        extend_steps(&mut steps, build_cmake("sbfi", OUT_FOLDER, SRC_DIR, platform));
        assert(steps.deep_view() =~= self.spec_build(platform));
        steps
    }

    fn prepare(&self, file: &Benchmark, platform: Platform) -> (steps: Vec<Step>) {
        no_steps()
    }

    fn get_invoke_command(&self, file: &Benchmark) -> (line: String) {
        proof {
            reveal_strlit("");
        }
        invoke(RESULT_EXE, "", file.path.as_str())
    }

    fn filter_output(&self, contents: String) -> (out: String) {
        let pattern = command_pattern(RESULT_EXE);
        let label = label(NAME, WEBSITE);
        rewrite(contents, pattern.as_str(), label.as_str())
    }
}

} // verus!
