//! The implementations under test, one module each, behind one interface.

use vstd::prelude::*;
use vstd::string::*;
use crate::acquire::{plan_view, AcquireError, Found};
use crate::benchmark::{Benchmark, BenchmarkView};
use crate::pattern::{
    compiles, escape, escaped, regex_compiles, regex_is_match, regex_replace_all, replace_all,
};
use crate::platform::Platform;
use crate::process::{Step, StepView};
use crate::text::{
    join, joined, lemma_lines_round_trip, lemma_replaced_without_occurrence, lines_of, occurs,
    replace_literal, replaced, split_lines,
};

pub mod asumagic_ashbf;
pub mod bfc;
pub mod cwfitzgerald_bfcc;
pub mod cwfitzgerald_bfcc_old;
pub mod dethraid_brainfuck;
pub mod gardrek_stvm;
pub mod kotay_bffsree;
pub mod lifthrasiir_esotope_bfc;
pub mod rdebath_tritium;
pub mod rinoldm_sbfi;
pub mod wilfred_bfc;

pub use asumagic_ashbf::AsumagicAshbfBfImpl;
pub use bfc::BfcBfImpl;
pub use cwfitzgerald_bfcc::CwfitzgeraldBfccBfImpl;
pub use cwfitzgerald_bfcc_old::CwfitzgeraldBfccOldBfImpl;
pub use dethraid_brainfuck::DethraidBrainfuckBfImpl;
pub use gardrek_stvm::GardrekStvmBfImpl;
pub use kotay_bffsree::KotayBffsreeBfImpl;
pub use lifthrasiir_esotope_bfc::LifthrasiirEsotopeBfImpl;
pub use rdebath_tritium::{RdebathTritiumBfImpl, RdebathTritiumMode};
pub use rinoldm_sbfi::RinoldmSbfiBfImpl;
pub use wilfred_bfc::WilfredBfcBfImpl;

verus! {

/// What an implementation is fetched as: a checkout, which is a directory,
/// or a single downloaded file.
#[derive(Clone, Debug, PartialEq, Eq)]
pub enum Artifact {
    /// A checkout in the directory `path`.
    Directory { path: String },
    /// A download at `path`.
    File { path: String },
}

/// What an [`Artifact`] stands for.
pub enum ArtifactView {
    Directory { path: Seq<char> },
    File { path: Seq<char> },
}

impl DeepView for Artifact {
    type V = ArtifactView;

    open spec fn deep_view(&self) -> ArtifactView {
        match *self {
            Artifact::Directory { path } => ArtifactView::Directory { path: path@ },
            Artifact::File { path } => ArtifactView::File { path: path@ },
        }
    }
}

impl View for Artifact {
    type V = ArtifactView;

    open spec fn view(&self) -> ArtifactView {
        self.deep_view()
    }
}

impl Artifact {
    /// Where the artifact lies.
    pub fn path(&self) -> (path: &String)
        ensures
            path@ == match self@ {
                ArtifactView::Directory { path } => path,
                ArtifactView::File { path } => path,
            },
    {
        match self {
            Artifact::Directory { path } => path,
            Artifact::File { path } => path,
        }
    }
}

/// The checkout in the directory `path`.
pub fn checkout(path: &str) -> (artifact: Artifact)
    ensures
        artifact@ == (ArtifactView::Directory { path: path@ }),
{
    Artifact::Directory { path: String::from_str(path) }
}

/// How command lines are found in the lines of a report.
pub enum Finder {
    /// By a regular expression.
    Pattern(Seq<char>),
    /// By a text that is taken as it stands.
    Literal(Seq<char>),
}

/// The life cycle that every implementation offers to the harness.
///
/// Nothing here touches the outside world: the stages return plans, which
/// the driver carries out.
pub trait BFImpl {
    /// The display name, by which implementations are selected, ordered
    /// and labelled.
    spec fn spec_name(&self) -> Seq<char>;

    /// Whether the implementation runs a program directly, rather than
    /// translating it first.
    spec fn spec_interpreted(&self) -> bool;

    /// Whether the implementation can be used on `platform`.
    spec fn spec_enabled(&self, platform: Platform) -> bool;

    /// What is on disk once the implementation was fetched.
    spec fn spec_artifact(&self) -> ArtifactView;

    /// The plan that fetches the implementation, given what was found in
    /// the place of its artifact; or the reason why there is none.
    spec fn spec_get(&self, found: Found, platform: Platform) -> Result<
        Seq<StepView>,
        AcquireError,
    >;

    /// The plan that builds the implementation.
    spec fn spec_build(&self, platform: Platform) -> Seq<StepView>;

    /// The plan that readies the implementation for one benchmark.
    spec fn spec_prepare(&self, file: BenchmarkView, platform: Platform) -> Seq<StepView>;

    /// The command line that runs one benchmark.
    spec fn spec_invoke_command(&self, file: BenchmarkView) -> Seq<char>;

    /// How the implementation's command lines are found in a report.
    spec fn spec_finder(&self) -> Finder;

    /// The Markdown link that stands for the implementation in a report.
    spec fn spec_label(&self) -> Seq<char>;

    /// Returns the name of the implementation.
    fn name(&self) -> (name: String)
        ensures
            name@ == self.spec_name(),
    ;

    /// Returns whether it is an interpreter.
    fn interpreted(&self) -> (interpreted: bool)
        ensures
            interpreted == self.spec_interpreted(),
    ;

    /// Returns whether it is available on `platform`.
    fn enabled(&self, platform: Platform) -> (enabled: bool)
        ensures
            enabled == self.spec_enabled(platform),
    ;

    /// Returns what the driver probes for before fetching.
    fn artifact(&self) -> (artifact: Artifact)
        ensures
            artifact@ == self.spec_artifact(),
    ;

    /// Stage for fetching the source or binary. `found` tells what is in
    /// the place of [`BFImpl::artifact`]. What is there already is not
    /// fetched again; a checkout whose place is taken by something else is
    /// refused.
    fn get(&self, found: Found, platform: Platform) -> (plan: Result<Vec<Step>, AcquireError>)
        ensures
            plan_view(plan) == self.spec_get(found, platform),
    ;

    /// Stage for building the implementation itself.
    fn build(&self, platform: Platform) -> (steps: Vec<Step>)
        ensures
            steps.deep_view() == self.spec_build(platform),
    ;

    /// Stage for translating `file` (for compilers; empty for interpreters).
    fn prepare(&self, file: &Benchmark, platform: Platform) -> (steps: Vec<Step>)
        ensures
            steps.deep_view() == self.spec_prepare(file@, platform),
    ;

    /// The command line that the timing tool is to run for `file`.
    fn get_invoke_command(&self, file: &Benchmark) -> (line: String)
        ensures
            line@ == self.spec_invoke_command(file@),
    ;

    /// Rewrites a report, line by line, so that the implementation goes
    /// by its label instead of its command line. Lines in which the
    /// pattern does not match come back as they went in.
    fn filter_output(&self, contents: String) -> (out: String)
        ensures
            out@ == rewritten(contents@, self.spec_finder(), self.spec_label()),
            keeps_other_lines(contents@, self.spec_finder(), self.spec_label()),
    ;
}

/// The Markdown link `[name](website)`.
pub open spec fn label_spec(name: Seq<char>, website: Seq<char>) -> Seq<char> {
    "["@ + name + "]("@ + website + ")"@
}

/// The label of the implementation `name`, linked to `website`.
pub fn label(name: &str, website: &str) -> (out: String)
    ensures
        out@ == label_spec(name@, website@),
{
    let mut out = String::from_str("[");
    out.append(name);
    out.append("](");
    out.append(website);
    out.append(")");
    out
}

/// The pattern of an inline code span that starts with `prefix` (itself a
/// pattern) and runs on to the nearest closing mark on the same line.
pub open spec fn open_span(prefix: Seq<char>) -> Seq<char> {
    "`"@ + prefix + ".*?`"@
}

/// The inline code span that holds exactly `command`.
pub open spec fn exact_span(command: Seq<char>) -> Seq<char> {
    "`"@ + command + "`"@
}

/// The pattern for the code spans that start with the literal `command`.
pub fn command_pattern(command: &str) -> (pattern: String)
    ensures
        pattern@ == open_span(escaped(command@)),
{
    let mut pattern = String::from_str("`");
    pattern.append(escape(command).as_str());
    pattern.append(".*?`");
    pattern
}

/// The code span that holds `command` and nothing else.
pub fn code_span(command: &str) -> (span: String)
    ensures
        span@ == exact_span(command@),
{
    let mut span = String::from_str("`");
    span.append(command);
    span.append("`");
    span
}

/// `line` with every span that `finder` finds replaced by `label`. A
/// regular expression that is none finds nothing.
pub open spec fn rewritten_line(line: Seq<char>, finder: Finder, label: Seq<char>) -> Seq<char> {
    match finder {
        Finder::Pattern(pattern) => if regex_compiles(pattern) {
            regex_replace_all(pattern, line, label)
        } else {
            line
        },
        Finder::Literal(needle) => replaced(line, needle, label),
    }
}

/// The lines of `contents`, each rewritten on its own.
pub open spec fn rewritten_lines(contents: Seq<char>, finder: Finder, label: Seq<char>) -> Seq<
    Seq<char>,
> {
    lines_of(contents).map_values(|line: Seq<char>| rewritten_line(line, finder, label))
}

/// `contents` rewritten line by line: in every line, each span that
/// `finder` finds is replaced by `label`. The lines stay apart and in order.
pub open spec fn rewritten(contents: Seq<char>, finder: Finder, label: Seq<char>) -> Seq<char> {
    joined(rewritten_lines(contents, finder, label), seq!['\n'])
}

/// Whether `finder` finds nothing to replace in `line`.
pub open spec fn untouched(line: Seq<char>, finder: Finder) -> bool {
    match finder {
        Finder::Pattern(pattern) => !regex_compiles(pattern) || !regex_is_match(pattern, line),
        Finder::Literal(needle) => !occurs(line, needle),
    }
}

/// Whether rewriting leaves every line of `contents` as it is in which
/// `finder` finds nothing to replace.
pub open spec fn keeps_other_lines(contents: Seq<char>, finder: Finder, label: Seq<char>) -> bool {
    forall|i: int|
        0 <= i < lines_of(contents).len() && untouched(#[trigger] lines_of(contents)[i], finder)
            ==> rewritten_lines(contents, finder, label)[i] == lines_of(contents)[i]
}

/// A report in no line of which anything is found comes back from rewriting
/// as it went in.
pub proof fn lemma_rewriting_without_match(contents: Seq<char>, finder: Finder, label: Seq<char>)
    requires
        keeps_other_lines(contents, finder, label),
        forall|i: int|
            0 <= i < lines_of(contents).len() ==> untouched(
                #[trigger] lines_of(contents)[i],
                finder,
            ),
    ensures
        rewritten(contents, finder, label) == contents,
{
    assert(rewritten_lines(contents, finder, label) =~= lines_of(contents));
    lemma_lines_round_trip(contents);
}

/// Where a text is taken as it stands, lines in which it does not occur
/// are kept, whatever the report.
pub proof fn lemma_literal_keeps_other_lines(
    contents: Seq<char>,
    needle: Seq<char>,
    label: Seq<char>,
)
    ensures
        keeps_other_lines(contents, Finder::Literal(needle), label),
{
    assert forall|i: int|
        0 <= i < lines_of(contents).len() && untouched(
            #[trigger] lines_of(contents)[i],
            Finder::Literal(needle),
        ) implies rewritten_lines(contents, Finder::Literal(needle), label)[i] == lines_of(
        contents,
    )[i] by {
        lemma_replaced_without_occurrence(lines_of(contents)[i], needle, label);
    }
}

/// Replaces, line by line, every occurrence of `needle` in `contents` by
/// `label`. A line in which `needle` does not occur is left as it is.
pub fn replace_in_lines(contents: String, needle: &str, label: &str) -> (out: String)
    ensures
        out@ == rewritten(contents@, Finder::Literal(needle@), label@),
        keeps_other_lines(contents@, Finder::Literal(needle@), label@),
{
    let lines = split_lines(contents.as_str());
    let mut changed: Vec<String> = Vec::new();
    let mut i: usize = 0;
    while i < lines.len()
        invariant
            i <= lines.len(),
            lines.deep_view() == lines_of(contents@),
            changed.len() == i,
            forall|j: int|
                0 <= j < i ==> (#[trigger] changed@[j])@ == replaced(lines@[j]@, needle@, label@),
        decreases lines.len() - i,
    {
        changed.push(replace_literal(lines[i].as_str(), needle, label));
        i += 1;
    }
    proof {
        reveal_strlit("\n");
        assert("\n"@ =~= seq!['\n']);
        assert(changed.deep_view() =~= rewritten_lines(
            contents@,
            Finder::Literal(needle@),
            label@,
        )) by {
            assert forall|j: int| 0 <= j < lines.len() implies changed.deep_view()[j]
                == rewritten_lines(contents@, Finder::Literal(needle@), label@)[j] by {
                assert(lines.deep_view()[j] == lines@[j]@);
            }
        }
        lemma_literal_keeps_other_lines(contents@, needle@, label@);
    }
    join(&changed, "\n")
}

/// Replaces, line by line, every match of `pattern` in `contents` by
/// `label`, taken literally. A line in which the pattern does not match is
/// left as it is, and so is the whole text if `pattern` is no regular
/// expression.
pub fn rewrite(contents: String, pattern: &str, label: &str) -> (out: String)
    ensures
        out@ == rewritten(contents@, Finder::Pattern(pattern@), label@),
        keeps_other_lines(contents@, Finder::Pattern(pattern@), label@),
{
    let ghost finder = Finder::Pattern(pattern@);
    if !compiles(pattern) {
        proof {
            assert(rewritten_lines(contents@, finder, label@) =~= lines_of(contents@));
            lemma_lines_round_trip(contents@);
        }
        return contents;
    }
    let lines = split_lines(contents.as_str());
    let mut changed: Vec<String> = Vec::new();
    let mut i: usize = 0;
    while i < lines.len()
        invariant
            i <= lines.len(),
            regex_compiles(pattern@),
            finder == Finder::Pattern(pattern@),
            lines.deep_view() == lines_of(contents@),
            changed.len() == i,
            forall|j: int|
                0 <= j < i ==> (#[trigger] changed@[j])@ == rewritten_line(
                    lines@[j]@,
                    finder,
                    label@,
                ),
            forall|j: int|
                0 <= j < i && untouched(lines@[j]@, finder) ==> (#[trigger] changed@[j])@
                    == lines@[j]@,
        decreases lines.len() - i,
    {
        match replace_all(pattern, lines[i].as_str(), label) {
            Some(line) => changed.push(line),
            None => changed.push(lines[i].clone()),
        }
        i += 1;
    }
    proof {
        reveal_strlit("\n");
        assert("\n"@ =~= seq!['\n']);
        assert(changed.deep_view() =~= rewritten_lines(contents@, finder, label@)) by {
            assert forall|j: int| 0 <= j < lines.len() implies changed.deep_view()[j]
                == rewritten_lines(contents@, finder, label@)[j] by {
                assert(lines.deep_view()[j] == lines@[j]@);
            }
        }
        assert forall|j: int|
            0 <= j < lines_of(contents@).len() && untouched(
                #[trigger] lines_of(contents@)[j],
                finder,
            ) implies rewritten_lines(contents@, finder, label@)[j] == lines_of(contents@)[j] by {
            assert(lines.deep_view()[j] == lines@[j]@);
            assert(changed@[j]@ == lines@[j]@);
        }
    }
    join(&changed, "\n")
}

/// Replaces every inline code span of `contents` that starts with
/// `command` by `label`.
pub fn rewrite_command(contents: String, command: &str, label: &str) -> (out: String)
    ensures
        out@ == rewritten(contents@, Finder::Pattern(open_span(escaped(command@))), label@),
        keeps_other_lines(contents@, Finder::Pattern(open_span(escaped(command@))), label@),
{
    let pattern = command_pattern(command);
    rewrite(contents, pattern.as_str(), label)
}

/// The command line `exe`, then `flags`, then the path of the input, each
/// separated by one space; `flags` may be empty.
pub open spec fn invoke_spec(exe: Seq<char>, flags: Seq<char>, file: Seq<char>) -> Seq<char> {
    if flags.len() == 0 {
        exe + " "@ + file
    } else {
        exe + " "@ + flags + " "@ + file
    }
}

/// The command line that runs `exe` with `flags` on `file`.
pub fn invoke(exe: &str, flags: &str, file: &str) -> (line: String)
    ensures
        line@ == invoke_spec(exe@, flags@, file@),
{
    let mut line = String::from_str(exe);
    line.append(" ");
    if flags.unicode_len() > 0 {
        line.append(flags);
        line.append(" ");
    }
    line.append(file);
    line
}

} // verus!
