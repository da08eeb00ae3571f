//! Commands and the other actions that a run is made of.

use vstd::prelude::*;
use vstd::string::*;
use crate::text::{decimal, decimal_spec};

verus! {

/// An external command: the program, its arguments, and the directory it is
/// started in (`None`: the harness's own working directory).
#[derive(Clone, Debug, PartialEq, Eq)]
pub struct Command {
    pub program: String,
    pub args: Vec<String>,
    pub current_dir: Option<String>,
}

/// What a [`Command`] stands for.
pub struct CommandView {
    pub program: Seq<char>,
    pub args: Seq<Seq<char>>,
    pub current_dir: Option<Seq<char>>,
}

impl DeepView for Command {
    type V = CommandView;

    open spec fn deep_view(&self) -> CommandView {
        CommandView {
            program: self.program@,
            args: self.args.deep_view(),
            current_dir: self.current_dir.deep_view(),
        }
    }
}

impl View for Command {
    type V = CommandView;

    open spec fn view(&self) -> CommandView {
        self.deep_view()
    }
}

/// A file to be written: where, and the bytes it is to hold.
#[derive(Clone, Debug, PartialEq, Eq)]
pub struct FileWrite {
    pub path: String,
    pub contents: Vec<u8>,
}

/// What a [`FileWrite`] stands for.
pub struct FileWriteView {
    pub path: Seq<char>,
    pub contents: Seq<u8>,
}

impl DeepView for FileWrite {
    type V = FileWriteView;

    open spec fn deep_view(&self) -> FileWriteView {
        FileWriteView { path: self.path@, contents: self.contents@ }
    }
}

impl View for FileWrite {
    type V = FileWriteView;

    open spec fn view(&self) -> FileWriteView {
        self.deep_view()
    }
}

/// The file at `path` that holds `text`, encoded as UTF-8.
pub fn text_file(path: String, text: &str) -> (file: FileWrite)
    ensures
        file@ == (FileWriteView { path: path@, contents: text.spec_bytes() }),
{
    FileWrite { path, contents: text.as_bytes_vec() }
}

/// One action of a plan. The driver carries the steps of a plan out in
/// order, as [`proceed`] tells it.
#[derive(Clone, Debug, PartialEq, Eq)]
pub enum Step {
    /// Create a directory and all its missing parents.
    CreateDirAll { path: String },
    /// Remove a directory with everything in it.
    RemoveDirAll { path: String },
    /// Run a command and wait for it.
    Run { command: Command },
    /// Run a command and, if it succeeds, write its standard output to a file.
    RunWithPipe { command: Command, output: String },
    /// Copy a file, replacing what is at the destination.
    CopyFile { from: String, to: String },
    /// Mark a file as executable (mode 0755).
    MakeExecutable { path: String },
    /// Write a build description for the sources that `glob` selects into
    /// `src_dir`, unless one is already there.
    CreateCmake { name: String, src_dir: String, glob: String },
    /// Write a file, replacing what is there.
    WriteFile { write: FileWrite },
}

/// What a [`Step`] stands for.
pub enum StepView {
    CreateDirAll { path: Seq<char> },
    RemoveDirAll { path: Seq<char> },
    Run { command: CommandView },
    RunWithPipe { command: CommandView, output: Seq<char> },
    CopyFile { from: Seq<char>, to: Seq<char> },
    MakeExecutable { path: Seq<char> },
    CreateCmake { name: Seq<char>, src_dir: Seq<char>, glob: Seq<char> },
    WriteFile { write: FileWriteView },
}

impl DeepView for Step {
    type V = StepView;

    open spec fn deep_view(&self) -> StepView {
        match *self {
            Step::CreateDirAll { path } => StepView::CreateDirAll { path: path@ },
            Step::RemoveDirAll { path } => StepView::RemoveDirAll { path: path@ },
            Step::Run { command } => StepView::Run { command: command@ },
            Step::RunWithPipe { command, output } => StepView::RunWithPipe {
                command: command@,
                output: output@,
            },
            Step::CopyFile { from, to } => StepView::CopyFile { from: from@, to: to@ },
            Step::MakeExecutable { path } => StepView::MakeExecutable { path: path@ },
            Step::CreateCmake { name, src_dir, glob } => StepView::CreateCmake {
                name: name@,
                src_dir: src_dir@,
                glob: glob@,
            },
            Step::WriteFile { write } => StepView::WriteFile { write: write@ },
        }
    }
}

impl View for Step {
    type V = StepView;

    open spec fn view(&self) -> StepView {
        self.deep_view()
    }
}

/// A command without a working directory of its own.
pub fn command(program: &str, args: Vec<String>) -> (c: Command)
    ensures
        c@ == (CommandView { program: program@, args: args.deep_view(), current_dir: None }),
{
    Command { program: String::from_str(program), args, current_dir: None }
}

/// A command started in the directory `dir`.
pub fn command_in(program: &str, args: Vec<String>, dir: &str) -> (c: Command)
    ensures
        c@ == (CommandView { program: program@, args: args.deep_view(), current_dir: Some(dir@) }),
{
    Command { program: String::from_str(program), args, current_dir: Some(String::from_str(dir)) }
}

/// Owned copies of the given arguments, in order.
pub fn arguments(items: &[&str]) -> (args: Vec<String>)
    ensures
        args.deep_view() == Seq::new(items@.len(), |i: int| items@[i]@),
{
    let mut args: Vec<String> = Vec::new();
    let mut i: usize = 0;
    while i < items.len()
        invariant
            i <= items.len(),
            args.len() == i,
            forall|j: int| 0 <= j < i ==> args@[j]@ == items@[j]@,
        decreases items.len() - i,
    {
        args.push(String::from_str(items[i]));
        i += 1;
    }
    assert(args.deep_view() =~= Seq::new(items@.len(), |i: int| items@[i]@));
    args
}

/// The plan with nothing to do.
pub fn no_steps() -> (steps: Vec<Step>)
    ensures
        steps.deep_view() == Seq::<StepView>::empty(),
{
    let steps: Vec<Step> = Vec::new();
    assert(steps.deep_view() =~= Seq::<StepView>::empty());
    steps
}

/// The step that creates the directory `path`.
pub fn create_dir_all(path: &str) -> (step: Step)
    ensures
        step@ == (StepView::CreateDirAll { path: path@ }),
{
    Step::CreateDirAll { path: String::from_str(path) }
}

/// The step that removes the directory `path`.
pub fn remove_dir_all(path: &str) -> (step: Step)
    ensures
        step@ == (StepView::RemoveDirAll { path: path@ }),
{
    Step::RemoveDirAll { path: String::from_str(path) }
}

/// The step that runs `command`.
pub fn run(command: Command) -> (step: Step)
    ensures
        step@ == (StepView::Run { command: command@ }),
{
    Step::Run { command }
}

/// Adds `step` at the end of `steps`.
pub fn push_step(steps: &mut Vec<Step>, step: Step)
    ensures
        final(steps).deep_view() == old(steps).deep_view().push(step.deep_view()),
{
    steps.push(step);
    assert(steps.deep_view() =~= old(steps).deep_view().push(step.deep_view()));
}

/// Adds all of `more`, in order, at the end of `steps`.
pub fn extend_steps(steps: &mut Vec<Step>, more: Vec<Step>)
    ensures
        final(steps).deep_view() == old(steps).deep_view() + more.deep_view(),
{
    let mut more = more;
    let ghost added = more.deep_view();
    steps.append(&mut more);
    assert(steps.deep_view() =~= old(steps).deep_view() + added);
}

/// What the driver saw of a command that has ended: its exit code and the
/// bytes it wrote.
#[derive(Clone, Debug, PartialEq, Eq)]
pub struct Finished {
    pub code: i32,
    pub stdout: Vec<u8>,
    pub stderr: Vec<u8>,
}

/// What a command that succeeded wrote.
#[derive(Clone, Debug, PartialEq, Eq)]
pub struct CapturedOutput {
    pub stdout: Vec<u8>,
    pub stderr: Vec<u8>,
}

/// A command that failed, with all that is known of the failure.
#[derive(Clone, Debug, PartialEq, Eq)]
pub struct ProcessFailure {
    pub command: Command,
    pub code: i32,
    pub stdout: Vec<u8>,
    pub stderr: Vec<u8>,
}

/// The exit code of the harness after a command has failed.
pub const FAILURE_EXIT_CODE: i32 = 1;

/// The verdict on a command that has ended: it succeeded if and only if
/// its exit code is zero. Nothing of what was observed is lost either way.
pub fn run_command(command: Command, finished: Finished) -> (outcome: Result<
    CapturedOutput,
    ProcessFailure,
>)
    ensures
        outcome is Ok <==> finished.code == 0,
        outcome matches Ok(captured) ==> captured.stdout == finished.stdout && captured.stderr
            == finished.stderr,
        outcome matches Err(failure) ==> failure.command == command && failure.code
            == finished.code && failure.stdout == finished.stdout && failure.stderr
            == finished.stderr,
{
    if finished.code == 0 {
        Ok(CapturedOutput { stdout: finished.stdout, stderr: finished.stderr })
    } else {
        Err(
            ProcessFailure {
                command,
                code: finished.code,
                stdout: finished.stdout,
                stderr: finished.stderr,
            },
        )
    }
}

/// The verdict on a command whose standard output is wanted in the file
/// `output`: on success, the file to write, holding the output byte for
/// byte.
pub fn run_command_with_pipe(command: Command, finished: Finished, output: &str) -> (outcome:
    Result<FileWrite, ProcessFailure>)
    ensures
        outcome is Ok <==> finished.code == 0,
        outcome matches Ok(write) ==> write.path@ == output@ && write.contents == finished.stdout,
        outcome matches Err(failure) ==> failure.command == command && failure.code
            == finished.code && failure.stdout == finished.stdout && failure.stderr
            == finished.stderr,
{
    match run_command(command, finished) {
        Ok(captured) => Ok(FileWrite { path: String::from_str(output), contents: captured.stdout }),
        Err(failure) => Err(failure),
    }
}

/// The program and its arguments on one line, separated by single spaces.
pub open spec fn command_line_spec(program: Seq<char>, args: Seq<Seq<char>>) -> Seq<char>
    decreases args.len(),
{
    if args.len() == 0 {
        program
    } else {
        command_line_spec(program, args.drop_last()) + " "@ + args.last()
    }
}

/// `bytes` read as UTF-8, with the replacement character wherever they are
/// not.
pub uninterp spec fn utf8_lossy(bytes: Seq<u8>) -> Seq<char>;

/// `bytes` as text.
///
/// Trusted: `String::from_utf8_lossy` of the standard library, which turns
/// bytes into a string and puts U+FFFD in place of every sequence that is
/// not valid UTF-8. The contract names the text.
#[verifier::external_body]
pub(crate) fn lossy(bytes: &Vec<u8>) -> (text: String)
    ensures
        text@ == utf8_lossy(bytes@),
{
    String::from_utf8_lossy(bytes).into_owned()
}

/// The diagnosis of a failed command: the full command, the exit code and
/// both streams, read as text.
pub open spec fn report_spec(
    command: CommandView,
    code: int,
    stdout: Seq<u8>,
    stderr: Seq<u8>,
) -> Seq<char> {
    "Command "@ + command_line_spec(command.program, command.args) + " output "@ + decimal_spec(
        code,
    ) + ":\n\nSTDOUT:\n"@ + utf8_lossy(stdout) + "\n\nSTDERR:\n"@ + utf8_lossy(stderr)
}

impl Command {
    /// The command on one line.
    pub fn line(&self) -> (line: String)
        ensures
            line@ == command_line_spec(self.program@, self.args.deep_view()),
    {
        let mut line = self.program.clone();
        let mut i: usize = 0;
        while i < self.args.len()
            invariant
                i <= self.args.len(),
                line@ == command_line_spec(self.program@, self.args.deep_view().take(i as int)),
            decreases self.args.len() - i,
        {
            line.append(" ");
            line.append(self.args[i].as_str());
            assert(self.args.deep_view().take(i + 1).drop_last() =~= self.args.deep_view().take(
                i as int,
            ));
            i += 1;
        }
        assert(self.args.deep_view().take(i as int) =~= self.args.deep_view());
        line
    }
}

impl ProcessFailure {
    /// What is printed about the failure before the harness exits.
    pub fn report(&self) -> (text: String)
        ensures
            text@ == report_spec(self.command@, self.code as int, self.stdout@, self.stderr@),
    {
        let mut text = String::from_str("Command ");
        text.append(self.command.line().as_str());
        text.append(" output ");
        text.append(decimal(self.code).as_str());
        text.append(":\n\nSTDOUT:\n");
        text.append(lossy(&self.stdout).as_str());
        text.append("\n\nSTDERR:\n");
        text.append(lossy(&self.stderr).as_str());
        text
    }
}

/// Where the carrying out of a plan stands.
#[derive(Clone, Copy, Debug, PartialEq, Eq, Structural)]
pub enum Walk {
    /// The step at this position is the next to carry out.
    Step(usize),
    /// Every step was carried out; there is nothing left to do.
    Completed,
    /// A step failed; the steps after it are not to be carried out.
    Aborted,
}

/// Where a plan of `len` steps stands when `position` steps are behind.
pub open spec fn walk_from(len: nat, position: int) -> Walk {
    if 0 <= position < len && position <= usize::MAX {
        Walk::Step(position as usize)
    } else {
        Walk::Completed
    }
}

/// Where a plan of `len` steps stands after the step at `position` has
/// succeeded or not. A failure ends the plan there and then, unless the
/// plan is `lenient`: then failures are passed over.
pub open spec fn walk_after(len: nat, position: int, succeeded: bool, lenient: bool) -> Walk {
    if !succeeded && !lenient {
        Walk::Aborted
    } else {
        walk_from(len, position + 1)
    }
}

/// Where a plan stands after the steps before `outcomes.len()` have ended
/// as `outcomes` says, none of them skipped.
pub open spec fn walk_through(len: nat, outcomes: Seq<bool>, lenient: bool) -> Walk
    decreases outcomes.len(),
{
    if outcomes.len() == 0 {
        walk_from(len, 0)
    } else {
        match walk_through(len, outcomes.drop_last(), lenient) {
            Walk::Step(position) => walk_after(len, position as int, outcomes.last(), lenient),
            over => over,
        }
    }
}

/// The start of the carrying out of `steps`.
pub fn begin(steps: &Vec<Step>) -> (walk: Walk)
    ensures
        walk == walk_from(steps@.len(), 0),
{
    if steps.len() > 0 {
        Walk::Step(0)
    } else {
        Walk::Completed
    }
}

/// What follows the step of `steps` at `position`, which has `succeeded` or
/// not: the next step, or the end of the plan. After a failure the rest of
/// the plan is skipped, unless the plan is `lenient`.
pub fn proceed(steps: &Vec<Step>, position: usize, succeeded: bool, lenient: bool) -> (walk: Walk)
    ensures
        walk == walk_after(steps@.len(), position as int, succeeded, lenient),
{
    if !succeeded && !lenient {
        Walk::Aborted
    } else if position < steps.len() && position + 1 < steps.len() {
        Walk::Step(position + 1)
    } else {
        Walk::Completed
    }
}

/// A failure is fatal to the rest of the plan. In a plan that is not
/// lenient, once a step has failed no later step is carried out, however
/// the walk is continued; and as long as no step fails, the steps are taken
/// one by one in their order.
pub proof fn lemma_failure_ends_the_plan(len: nat, outcomes: Seq<bool>, failed: int)
    requires
        len <= usize::MAX,
        0 <= failed < outcomes.len(),
        failed < len,
        !outcomes[failed],
        forall|i: int| 0 <= i < failed ==> outcomes[i],
    ensures
        walk_through(len, outcomes.take(failed), false) == Walk::Step(failed as usize),
        walk_through(len, outcomes, false) == Walk::Aborted,
    decreases outcomes.len(),
{
    lemma_walk_without_failure(len, outcomes.take(failed));
    if outcomes.len() == failed + 1 {
        assert(outcomes.drop_last() =~= outcomes.take(failed));
    } else {
        let before = outcomes.drop_last();
        assert(before.take(failed) =~= outcomes.take(failed));
        lemma_failure_ends_the_plan(len, before, failed);
    }
}

/// As long as no step fails, the steps are taken one by one in their order,
/// and the plan is completed when all are behind.
pub proof fn lemma_walk_without_failure(len: nat, outcomes: Seq<bool>)
    requires
        len <= usize::MAX,
        forall|i: int| 0 <= i < outcomes.len() ==> outcomes[i],
    ensures
        walk_through(len, outcomes, false) == walk_from(len, outcomes.len() as int),
    decreases outcomes.len(),
{
    if outcomes.len() > 0 {
        lemma_walk_without_failure(len, outcomes.drop_last());
    }
}

} // verus!
