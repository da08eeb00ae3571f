//! esotope-bfc, a compiler to C written in Python.
//!
//! Each benchmark is translated to C and built with a generated build
//! description, all inside a scratch folder; the executable is moved to its
//! place and the scratch folder is removed again.

use vstd::prelude::*;
use vstd::string::*;
use crate::acquire::{fetch_plan, fetch_plan_spec, git_repo, git_repo_spec, AcquireError, Found};
use crate::benchmark::{Benchmark, BenchmarkView};
use crate::bf_impl::{
    checkout, command_pattern, invoke, invoke_spec, label, label_spec, open_span, rewrite, Artifact,
    ArtifactView, BFImpl, Finder,
};
use crate::cmake::{build_cmake, build_cmake_spec};
use crate::pattern::escaped;
use crate::platform::Platform;
use crate::process::{
    arguments, command, create_dir_all, extend_steps, no_steps, push_step, remove_dir_all,
    CommandView, Step, StepView,
};
use crate::text::{join_path, join_path_spec};

verus! {

/// Name of the compiler.
pub const NAME: &'static str = "lifthrasiir/esotope-bfc";

/// Source website.
pub const WEBSITE: &'static str = "https://github.com/lifthrasiir/esotope-bfc";

/// Source URL.
pub const URL: &'static str = "https://github.com/lifthrasiir/esotope-bfc.git";

/// Source folder.
pub const SRC_DIR: &'static str = "build/src/lifthrasiir/esotope-bfc";

/// Folder in the out folder that holds the executable.
pub const OUT_FOLDER: &'static str = "build/out/lifthrasiir/esotope-bfc";

/// Folder for the translated program and its build. Deleted after each
/// preparation.
pub const SCRATCH: &'static str = "build/out/lifthrasiir/esotope-bfc/scratch";

/// Actual executable ran.
pub const RESULT_EXE: &'static str = "build/out/lifthrasiir/esotope-bfc/esotope_bfc";

/// esotope-bfc, a compiler: every benchmark is translated to C and built.
#[derive(Clone, Copy, Debug, PartialEq, Eq)]
pub struct LifthrasiirEsotopeBfImpl;

/// The command that translates `file` to C on its standard output.
pub open spec fn translate_spec(file: Seq<char>, platform: Platform) -> CommandView {
    let script = join_path_spec(SRC_DIR@, "esotope-bfc"@, platform);
    match platform {
        Platform::Windows => CommandView {
            program: "py"@,
            args: seq!["-2"@, script, file],
            current_dir: None,
        },
        Platform::Other => CommandView {
            program: "python"@,
            args: seq![script, file],
            current_dir: None,
        },
    }
}

/// Where the build leaves the executable.
pub open spec fn built_spec(platform: Platform) -> Seq<char> {
    match platform {
        Platform::Windows => join_path_spec(SCRATCH@, "esotope_bfc.exe"@, platform),
        Platform::Other => join_path_spec(SCRATCH@, "esotope_bfc"@, platform),
    }
}

/// Where the executable is put, replacing the one of the benchmark before.
pub open spec fn installed_spec(platform: Platform) -> Seq<char> {
    match platform {
        Platform::Windows => RESULT_EXE@ + ".exe"@,
        Platform::Other => RESULT_EXE@,
    }
}

impl BFImpl for LifthrasiirEsotopeBfImpl {
    open spec fn spec_name(&self) -> Seq<char> {
        NAME@
    }

    open spec fn spec_interpreted(&self) -> bool {
        false
    }

    open spec fn spec_enabled(&self, platform: Platform) -> bool {
        true
    }

    open spec fn spec_artifact(&self) -> ArtifactView {
        ArtifactView::Directory { path: SRC_DIR@ }
    }

    open spec fn spec_get(&self, found: Found, platform: Platform) -> Result<
        Seq<StepView>,
        AcquireError,
    > {
        fetch_plan_spec(git_repo_spec(URL@, SRC_DIR@, found))
    }

    open spec fn spec_build(&self, platform: Platform) -> Seq<StepView> {
        Seq::empty()
    }

    open spec fn spec_prepare(&self, file: BenchmarkView, platform: Platform) -> Seq<StepView> {
        let output = join_path_spec(SCRATCH@, "esotope-bfc.c"@, platform);
        seq![
            StepView::CreateDirAll { path: SCRATCH@ },
            StepView::RunWithPipe { command: translate_spec(file.path, platform), output },
            StepView::CreateCmake { name: "esotope_bfc"@, src_dir: SCRATCH@, glob: output },
        ] + build_cmake_spec("esotope_bfc"@, SCRATCH@, SCRATCH@, platform) + seq![
            StepView::CopyFile { from: built_spec(platform), to: installed_spec(platform) },
            StepView::RemoveDirAll { path: SCRATCH@ },
        ]
    }

    open spec fn spec_invoke_command(&self, file: BenchmarkView) -> Seq<char> {
        invoke_spec(RESULT_EXE@, "-i"@, file.path)
    }

    open spec fn spec_finder(&self) -> Finder {
        Finder::Pattern(open_span(escaped(RESULT_EXE@)))
    }

    open spec fn spec_label(&self) -> Seq<char> {
        label_spec(NAME@, WEBSITE@)
    }

    fn name(&self) -> (name: String) {
        String::from_str(NAME)
    }

    fn interpreted(&self) -> (interpreted: bool) {
        false
    }

    fn enabled(&self, platform: Platform) -> (enabled: bool) {
        true
    }

    fn artifact(&self) -> (artifact: Artifact) {
        checkout(SRC_DIR)
    }

    fn get(&self, found: Found, platform: Platform) -> (plan: Result<Vec<Step>, AcquireError>) {
        fetch_plan(git_repo(URL, SRC_DIR, found))
    }

    fn build(&self, platform: Platform) -> (steps: Vec<Step>) {
        no_steps()
    }

    fn prepare(&self, file: &Benchmark, platform: Platform) -> (steps: Vec<Step>) {
        let mut steps: Vec<Step> = Vec::new();
        push_step(&mut steps, create_dir_all(SCRATCH));
        let script = join_path(SRC_DIR, "esotope-bfc", platform);
        let output = join_path(SCRATCH, "esotope-bfc.c", platform);
        let translate = match platform {
            Platform::Windows => {
                let args = arguments(&["-2", script.as_str(), file.path.as_str()]);
                assert(args.deep_view() =~= seq!["-2"@, script@, file.path@]);
                command("py", args)
            },
            Platform::Other => {
                let args = arguments(&[script.as_str(), file.path.as_str()]);
                assert(args.deep_view() =~= seq![script@, file.path@]);
                command("python", args)
            },
        };
        push_step(&mut steps, Step::RunWithPipe { command: translate, output: output.clone() });
        push_step(
            &mut steps,
            Step::CreateCmake {
                name: String::from_str("esotope_bfc"),
                src_dir: String::from_str(SCRATCH),
                glob: output,
            },
        );
        extend_steps(&mut steps, build_cmake("esotope_bfc", SCRATCH, SCRATCH, platform));
        let copy = match platform {
            Platform::Windows => {
                let mut to = String::from_str(RESULT_EXE);
                to.append(".exe");
                Step::CopyFile { from: join_path(SCRATCH, "esotope_bfc.exe", platform), to }
            },
            Platform::Other => Step::CopyFile {
                from: join_path(SCRATCH, "esotope_bfc", platform),
                to: String::from_str(RESULT_EXE),
            },
        };
        push_step(&mut steps, copy);
        push_step(&mut steps, remove_dir_all(SCRATCH));
        assert(steps.deep_view() =~= self.spec_prepare(file@, platform));
        steps
    }

    fn get_invoke_command(&self, file: &Benchmark) -> (line: String) {
        proof {
            reveal_strlit("-i");
        }
        invoke(RESULT_EXE, "-i", file.path.as_str())
    }

    fn filter_output(&self, contents: String) -> (out: String) {
        let pattern = command_pattern(RESULT_EXE);
        let label = label(NAME, WEBSITE);
        rewrite(contents, pattern.as_str(), label.as_str())
    }
}

} // verus!
