//! Reports: the timing tool's invocation, the rewriting of its report, and
//! the aggregate document.

use vstd::prelude::*;
use vstd::string::*;
use crate::benchmark::{file_stem_spec, Benchmark, BenchmarkView};
use crate::bf_impl::{lemma_rewriting_without_match, rewritten, untouched, BFImpl};
use crate::platform::Platform;
use crate::process::{arguments, Command, CommandView};
use crate::roster::Implementation;
use crate::text::lines_of;

verus! {

/// The timing tool.
pub const TIMING_TOOL: &'static str = "hyperfine";

/// Where the aggregate document is written.
pub const FULL_REPORT: &'static str = "results/full.md";

/// The path of the report for the benchmark with the given stem.
pub open spec fn result_path_spec(stem: Seq<char>) -> Seq<char> {
    "results/"@ + stem + ".md"@
}

/// Where the timing tool is to write its report for `benchmark`.
pub fn result_path(benchmark: &Benchmark) -> (path: String)
    ensures
        path@ == result_path_spec(file_stem_spec(benchmark.file_name@)),
{
    let mut path = String::from_str("results/");
    path.append(benchmark.file_stem().as_str());
    path.append(".md");
    path
}

/// The command lines of `plugins` for `file`, in the order of the plugins.
pub open spec fn invoke_commands(plugins: Seq<Implementation>, file: BenchmarkView) -> Seq<
    Seq<char>,
> {
    plugins.map_values(|p: Implementation| p.spec_invoke_command(file))
}

/// The fixed arguments of the timing tool: show the output, at least three
/// runs, export the report as Markdown to `report`; on Windows, run the
/// commands through PowerShell.
pub open spec fn timing_flags(report: Seq<char>, platform: Platform) -> Seq<Seq<char>> {
    let common = seq!["--show-output"@, "-m"@, "3"@, "--export-markdown"@, report];
    match platform {
        Platform::Windows => common + seq!["--shell"@, "powershell"@],
        Platform::Other => common,
    }
}

/// The arguments of the timing tool for one benchmark: one command line per
/// implementation, then the fixed arguments.
pub open spec fn timing_args(
    plugins: Seq<Implementation>,
    file: BenchmarkView,
    platform: Platform,
) -> Seq<Seq<char>> {
    invoke_commands(plugins, file) + timing_flags(
        result_path_spec(file_stem_spec(file.file_name)),
        platform,
    )
}

/// The invocation of the timing tool that compares `plugins` on `file`.
pub fn timing_command(plugins: &Vec<Implementation>, file: &Benchmark, platform: Platform) -> (c:
    Command)
    ensures
        c@ == (CommandView {
            program: TIMING_TOOL@,
            args: timing_args(plugins@, file@, platform),
            current_dir: None,
        }),
{
    let mut args: Vec<String> = Vec::new();
    let mut i: usize = 0;
    while i < plugins.len()
        invariant
            i <= plugins.len(),
            args.len() == i,
            forall|j: int|
                0 <= j < i ==> args@[j]@ == (#[trigger] plugins@[j]).spec_invoke_command(file@),
        decreases plugins.len() - i,
    {
        args.push(plugins[i].get_invoke_command(file));
        i += 1;
    }
    assert(args.deep_view() =~= invoke_commands(plugins@, file@));
    let report = result_path(file);
    let mut flags = arguments(&["--show-output", "-m", "3", "--export-markdown", report.as_str()]);
    assert(flags.deep_view() =~= seq![
        "--show-output"@,
        "-m"@,
        "3"@,
        "--export-markdown"@,
        report@,
    ]);
    match platform {
        Platform::Windows => {
            let ghost common = flags.deep_view();
            let mut shell = arguments(&["--shell", "powershell"]);
            assert(shell.deep_view() =~= seq!["--shell"@, "powershell"@]);
            flags.append(&mut shell);
            assert(flags.deep_view() =~= common + seq!["--shell"@, "powershell"@]);
        },
        Platform::Other => {},
    }
    let ghost commands = args.deep_view();
    let ghost fixed = flags.deep_view();
    args.append(&mut flags);
    assert(args.deep_view() =~= commands + fixed);
    Command { program: String::from_str(TIMING_TOOL), args, current_dir: None }
}

/// `text` after each of `plugins`, in their order, has rewritten it.
pub open spec fn filtered_by(plugins: Seq<Implementation>, text: Seq<char>) -> Seq<char>
    decreases plugins.len(),
{
    if plugins.len() == 0 {
        text
    } else {
        rewritten(
            filtered_by(plugins.drop_last(), text),
            plugins.last().spec_finder(),
            plugins.last().spec_label(),
        )
    }
}

/// Whether none of `plugins` finds its command line in any line of `text`.
pub open spec fn untouched_by(plugins: Seq<Implementation>, text: Seq<char>) -> bool {
    forall|i: int, j: int|
        0 <= i < plugins.len() && 0 <= j < lines_of(text).len() ==> untouched(
            #[trigger] lines_of(text)[j],
            (#[trigger] plugins[i]).spec_finder(),
        )
}

/// Lets every implementation, in order, rewrite the report `contents`. A
/// report in which no implementation finds its command line comes back as
/// it went in.
pub fn filter_all(plugins: &Vec<Implementation>, contents: String) -> (out: String)
    ensures
        out@ == filtered_by(plugins@, contents@),
        untouched_by(plugins@, contents@) ==> out@ == contents@,
{
    let mut out = contents;
    let mut i: usize = 0;
    while i < plugins.len()
        invariant
            i <= plugins.len(),
            out@ == filtered_by(plugins@.take(i as int), contents@),
            untouched_by(plugins@, contents@) ==> out@ == contents@,
        decreases plugins.len() - i,
    {
        let ghost before = out@;
        out = plugins[i].filter_output(out);
        proof {
            assert(plugins@.take(i + 1).drop_last() =~= plugins@.take(i as int));
            if untouched_by(plugins@, contents@) {
                lemma_rewriting_without_match(
                    before,
                    plugins@[i as int].spec_finder(),
                    plugins@[i as int].spec_label(),
                );
            }
        }
        i += 1;
    }
    assert(plugins@.take(i as int) =~= plugins@);
    out
}

/// The section of the aggregate document for one benchmark: a heading with
/// the file name, then the report.
pub open spec fn section_spec(file_name: Seq<char>, report: Seq<char>) -> Seq<char> {
    "# "@ + file_name + "\n"@ + report
}

/// The aggregate document for the benchmarks named `file_names` with the
/// given reports: their sections, one after the other, in that order.
pub open spec fn aggregate_spec(file_names: Seq<Seq<char>>, reports: Seq<Seq<char>>) -> Seq<char>
    decreases file_names.len(),
{
    if file_names.len() == 0 || reports.len() != file_names.len() {
        Seq::<char>::empty()
    } else {
        aggregate_spec(file_names.drop_last(), reports.drop_last()) + section_spec(
            file_names.last(),
            reports.last(),
        )
    }
}

/// Adds the section for the benchmark `file_name` with the rewritten
/// `report` to the aggregate document.
pub fn append_section(document: &mut String, file_name: &str, report: &str)
    ensures
        final(document)@ == old(document)@ + section_spec(file_name@, report@),
{
    document.append("# ");
    document.append(file_name);
    document.append("\n");
    document.append(report);
    assert(document@ =~= old(document)@ + section_spec(file_name@, report@));
}

} // verus!
