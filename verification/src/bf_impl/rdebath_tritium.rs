//! Tritium, an interpreter with several back ends; each back end is
//! benchmarked as an implementation of its own.

use vstd::prelude::*;
use vstd::string::*;
use crate::acquire::{fetch_plan, fetch_plan_spec, git_repo, git_repo_spec, AcquireError, Found};
use crate::benchmark::{Benchmark, BenchmarkView};
use crate::bf_impl::{
    checkout, invoke, invoke_spec, label, label_spec, open_span, rewrite, Artifact, ArtifactView,
    BFImpl, Finder,
};
use crate::pattern::{escape, escaped};
use crate::platform::{windows, Platform};
use crate::process::{
    arguments, command, create_dir_all, no_steps, push_step, run, CommandView, Step, StepView,
};

verus! {

/// Name of the interpreter, without the back end.
pub const NAME: &'static str = "rdebath/Brainfuck/tritium";

/// Source website.
pub const WEBSITE: &'static str = "https://github.com/rdebath/Brainfuck/tree/master/tritium";

/// Source URL.
pub const URL: &'static str = "https://github.com/rdebath/Brainfuck.git";

/// Source folder.
pub const SRC_DIR: &'static str = "build/src/rdebath/brainfuck";

/// Where the makefile of the interpreter lies.
pub const MAKE_DIR: &'static str = "build/src/rdebath/brainfuck/tritium";

/// Folder in the out folder for temporaries.
pub const OUT_FOLDER: &'static str = "build/out/rdebath/brainfuck";

/// Actual executable ran.
pub const RESULT_EXE: &'static str = "build/src/rdebath/brainfuck/tritium/bfi.out";

/// The back ends of Tritium.
#[derive(Clone, Copy, Debug, PartialEq, Eq, Structural)]
pub enum RdebathTritiumMode {
    /// The plain interpreter over an array of cells.
    ArrayInterpreter,
    /// The just-in-time compiler built on GNU Lightning.
    LightningJIT,
    /// The just-in-time compiler built on DynASM.
    DynASM,
}

impl RdebathTritiumMode {
    /// The command-line flag that selects the back end.
    pub open spec fn spec_flag(&self) -> Seq<char> {
        match *self {
            RdebathTritiumMode::ArrayInterpreter => "-r"@,
            RdebathTritiumMode::DynASM => "-q"@,
            RdebathTritiumMode::LightningJIT => "-j"@,
        }
    }

    /// What the back end is called in the display name.
    pub open spec fn spec_kind(&self) -> Seq<char> {
        match *self {
            RdebathTritiumMode::ArrayInterpreter => "Array Interpreter"@,
            RdebathTritiumMode::DynASM => "DynASM JIT"@,
            RdebathTritiumMode::LightningJIT => "GNU Lightning JIT"@,
        }
    }

    /// The command-line flag that selects the back end.
    pub fn flag(&self) -> (flag: &'static str)
        ensures
            flag@ == self.spec_flag(),
            flag@.len() == 2,
    {
        proof {
            reveal_strlit("-r");
            reveal_strlit("-q");
            reveal_strlit("-j");
        }
        match self {
            RdebathTritiumMode::ArrayInterpreter => "-r",
            RdebathTritiumMode::DynASM => "-q",
            RdebathTritiumMode::LightningJIT => "-j",
        }
    }

    /// What the back end is called in the display name.
    pub fn kind(&self) -> (kind: &'static str)
        ensures
            kind@ == self.spec_kind(),
    {
        match self {
            RdebathTritiumMode::ArrayInterpreter => "Array Interpreter",
            RdebathTritiumMode::DynASM => "DynASM JIT",
            RdebathTritiumMode::LightningJIT => "GNU Lightning JIT",
        }
    }
}

/// Tritium with one of its back ends.
#[derive(Clone, Copy, Debug, PartialEq, Eq)]
pub struct RdebathTritiumBfImpl(pub RdebathTritiumMode);

/// The display name of the back end `mode`: the interpreter's name with the
/// back end in parentheses.
pub open spec fn tritium_name(mode: RdebathTritiumMode) -> Seq<char> {
    NAME@ + " ("@ + mode.spec_kind() + ")"@
}

impl BFImpl for RdebathTritiumBfImpl {
    open spec fn spec_name(&self) -> Seq<char> {
        tritium_name(self.0)
    }

    open spec fn spec_interpreted(&self) -> bool {
        true
    }

    open spec fn spec_enabled(&self, platform: Platform) -> bool {
        platform != Platform::Windows
    }

    open spec fn spec_artifact(&self) -> ArtifactView {
        ArtifactView::Directory { path: SRC_DIR@ }
    }

    open spec fn spec_get(&self, found: Found, platform: Platform) -> Result<
        Seq<StepView>,
        AcquireError,
    > {
        fetch_plan_spec(git_repo_spec(URL@, SRC_DIR@, found))
    }

    open spec fn spec_build(&self, platform: Platform) -> Seq<StepView> {
        seq![
            StepView::CreateDirAll { path: OUT_FOLDER@ },
            StepView::Run {
                command: CommandView {
                    program: "make"@,
                    args: seq!["-C"@, MAKE_DIR@],
                    current_dir: None,
                },
            },
        ]
    }

    open spec fn spec_prepare(&self, file: BenchmarkView, platform: Platform) -> Seq<StepView> {
        Seq::empty()
    }

    open spec fn spec_invoke_command(&self, file: BenchmarkView) -> Seq<char> {
        invoke_spec(RESULT_EXE@, self.0.spec_flag(), file.path)
    }

    open spec fn spec_finder(&self) -> Finder {
        Finder::Pattern(open_span(escaped(RESULT_EXE@) + "\\s*"@ + escaped(self.0.spec_flag())))
    }

    open spec fn spec_label(&self) -> Seq<char> {
        label_spec(tritium_name(self.0), WEBSITE@)
    }

    fn name(&self) -> (name: String) {
        let mut name = String::from_str(NAME);
        name.append(" (");
        name.append(self.0.kind());
        name.append(")");
        name
    }

    fn interpreted(&self) -> (interpreted: bool) {
        true
    }

    fn enabled(&self, platform: Platform) -> (enabled: bool) {
        !windows(platform)
    }

    fn artifact(&self) -> (artifact: Artifact) {
        checkout(SRC_DIR)
    }

    fn get(&self, found: Found, platform: Platform) -> (plan: Result<Vec<Step>, AcquireError>) {
        fetch_plan(git_repo(URL, SRC_DIR, found))
    }

    fn build(&self, platform: Platform) -> (steps: Vec<Step>) {
        let mut steps: Vec<Step> = Vec::new();
        push_step(&mut steps, create_dir_all(OUT_FOLDER));
        let args = arguments(&["-C", MAKE_DIR]);
        assert(args.deep_view() =~= seq!["-C"@, MAKE_DIR@]);
        push_step(&mut steps, run(command("make", args)));
        assert(steps.deep_view() =~= self.spec_build(platform));
        steps
    }

    fn prepare(&self, file: &Benchmark, platform: Platform) -> (steps: Vec<Step>) {
        no_steps()
    }

    fn get_invoke_command(&self, file: &Benchmark) -> (line: String) {
        invoke(RESULT_EXE, self.0.flag(), file.path.as_str())
    }

    fn filter_output(&self, contents: String) -> (out: String) {
        let mut pattern = String::from_str("`");
        pattern.append(escape(RESULT_EXE).as_str());
        pattern.append("\\s*");
        pattern.append(escape(self.0.flag()).as_str());
        pattern.append(".*?`");
        assert(pattern@ =~= self.spec_finder()->Pattern_0);
        let name = self.name();
        let label = label(name.as_str(), WEBSITE);
        rewrite(contents, pattern.as_str(), label.as_str())
    }
}

} // verus!
