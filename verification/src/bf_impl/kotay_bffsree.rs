//! bffsree, an interpreter that is downloaded as a binary.
//!
//! The interpreter is known to exit with a failure status on ordinary
//! programs, so its command line ends in `|| true`: the shell turns the
//! failure into a success before the timing tool sees it.

use vstd::prelude::*;
use vstd::string::*;
use crate::acquire::{curl_file, curl_file_spec, AcquireError, Found};
use crate::benchmark::{Benchmark, BenchmarkView};
use crate::bf_impl::{
    command_pattern, invoke, invoke_spec, label, label_spec, open_span, rewrite, Artifact,
    ArtifactView, BFImpl, Finder,
};
use crate::pattern::escaped;
use crate::platform::Platform;
use crate::process::{create_dir_all, extend_steps, no_steps, push_step, Step, StepView};

verus! {

/// Name of the interpreter.
pub const NAME: &'static str = "kotay/bffsree";

/// Source website.
pub const WEBSITE: &'static str = "http://sree.kotay.com/2013/02/implementing-brainfuck.html";

/// Where the Windows binary is downloaded from.
pub const URL_WINDOWS: &'static str = "http://www.kotay.com/sree/bf/bffsree_gcc.exe";

/// Where the binary for the other platforms is downloaded from.
pub const URL_OTHER: &'static str = "http://www.kotay.com/sree/bf/bffsree";

/// Source folder.
pub const SRC_DIR: &'static str = "build/src/kotay/bffsree";

/// Folder in the out folder for temporaries.
pub const OUT_FOLDER: &'static str = "build/out/kotay/bffsree";

/// Actual executable ran.
pub const RESULT_EXE: &'static str = "build/out/kotay/bffsree/bffsree";

/// bffsree, downloaded as a binary.
#[derive(Clone, Copy, Debug, PartialEq, Eq)]
pub struct KotayBffsreeBfImpl;

/// The address of the binary for `platform`.
pub open spec fn download_url(platform: Platform) -> Seq<char> {
    match platform {
        Platform::Windows => URL_WINDOWS@,
        Platform::Other => URL_OTHER@,
    }
}

impl BFImpl for KotayBffsreeBfImpl {
    open spec fn spec_name(&self) -> Seq<char> {
        NAME@
    }

    open spec fn spec_interpreted(&self) -> bool {
        true
    }

    open spec fn spec_enabled(&self, platform: Platform) -> bool {
        true
    }

    open spec fn spec_artifact(&self) -> ArtifactView {
        ArtifactView::File { path: RESULT_EXE@ }
    }

    open spec fn spec_get(&self, found: Found, platform: Platform) -> Result<
        Seq<StepView>,
        AcquireError,
    > {
        Ok(
            seq![StepView::CreateDirAll { path: OUT_FOLDER@ }] + curl_file_spec(
                download_url(platform),
                RESULT_EXE@,
                found,
                platform,
            ),
        )
    }

    open spec fn spec_build(&self, platform: Platform) -> Seq<StepView> {
        Seq::empty()
    }

    open spec fn spec_prepare(&self, file: BenchmarkView, platform: Platform) -> Seq<StepView> {
        Seq::empty()
    }

    open spec fn spec_invoke_command(&self, file: BenchmarkView) -> Seq<char> {
        invoke_spec(RESULT_EXE@, ""@, file.path) + " || true"@
    }

    open spec fn spec_finder(&self) -> Finder {
        Finder::Pattern(open_span(escaped(RESULT_EXE@)))
    }

    open spec fn spec_label(&self) -> Seq<char> {
        label_spec(NAME@, WEBSITE@)
    }

    fn name(&self) -> (name: String) {
        String::from_str(NAME)
    }

    fn interpreted(&self) -> (interpreted: bool) {
        true
    }

    fn enabled(&self, platform: Platform) -> (enabled: bool) {
        true
    }

    fn artifact(&self) -> (artifact: Artifact) {
        Artifact::File { path: String::from_str(RESULT_EXE) }
    }

    fn get(&self, found: Found, platform: Platform) -> (plan: Result<Vec<Step>, AcquireError>) {
        let mut steps: Vec<Step> = Vec::new();
        push_step(&mut steps, create_dir_all(OUT_FOLDER));
        let download = match platform {
            Platform::Windows => curl_file(URL_WINDOWS, RESULT_EXE, found, platform),
            Platform::Other => curl_file(URL_OTHER, RESULT_EXE, found, platform),
        };
        extend_steps(&mut steps, download);
        assert(steps.deep_view() =~= self.spec_get(found, platform).unwrap());
        Ok(steps)
    }

    fn build(&self, platform: Platform) -> (steps: Vec<Step>) {
        no_steps()
    }

    fn prepare(&self, file: &Benchmark, platform: Platform) -> (steps: Vec<Step>) {
        no_steps()
    }

    fn get_invoke_command(&self, file: &Benchmark) -> (line: String) {
        proof {
            reveal_strlit("");
        }
        let mut line = invoke(RESULT_EXE, "", file.path.as_str());
        line.append(" || true");
        line
    }

    fn filter_output(&self, contents: String) -> (out: String) {
        let pattern = command_pattern(RESULT_EXE);
        let label = label(NAME, WEBSITE);
        rewrite(contents, pattern.as_str(), label.as_str())
    }
}

} // verus!
