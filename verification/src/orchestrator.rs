//! The orchestrator: one run of the harness as a state machine.
//!
//! The machine says what to do next ([`Pipeline::action`]); the driver does
//! it and reports back ([`Pipeline::step`]). Where the action is a plan,
//! the driver carries it out step by step as [`begin`] and [`proceed`] tell
//! it, and reports what [`concluded`] makes of the end. The stages follow each other
//! strictly: set up, list and select, fetch everything, build everything,
//! then benchmark by benchmark prepare, time and rewrite, and at the very
//! end write the aggregate document. A failure anywhere ends the run at
//! once, and nothing more is written.

use vstd::prelude::*;
use vstd::string::*;
use crate::acquire::Found;
use crate::benchmark::{file_stem_spec, Benchmark, BenchmarkView};
use crate::bf_impl::{Artifact, ArtifactView, BFImpl};
use crate::order::{names, sorted_by_name};
use crate::platform::Platform;
use crate::process::{
    begin, create_dir_all, no_steps, proceed, push_step, remove_dir_all, run, text_file,
    CommandView, FAILURE_EXIT_CODE, FileWriteView, Step, StepView, Walk,
};
use crate::report::{
    aggregate_spec, append_section, filter_all, filtered_by, result_path, result_path_spec,
    section_spec, timing_args, timing_command, FULL_REPORT, TIMING_TOOL,
};
use crate::roster::{roster, roster_spec, Implementation};
use crate::selection::{
    benchmark_filter, checked, implementation_filter, select_benchmarks, select_implementations,
    selection_of, Options, OptionsView, SelectionError,
};

verus! {

/// Where fetched sources are kept.
pub const SOURCE_CACHE: &'static str = "build/src";

/// Where build output is kept.
pub const BUILD_OUTPUT: &'static str = "build/out";

/// Where reports are written.
pub const RESULTS: &'static str = "results";

/// The root of everything that is fetched and built.
pub const BUILD_ROOT: &'static str = "build";

/// Where the benchmark inputs are read from.
pub const BENCHES: &'static str = "benches";

/// Where a run stands. Indices count implementations and benchmarks in
/// their run order.
#[derive(Clone, Copy, Debug, PartialEq, Eq, Structural)]
pub enum Cursor {
    /// About to remove the working directories, and then to stop.
    Clean,
    /// About to create the working directories.
    Setup,
    /// About to list the benchmark inputs.
    List,
    /// About to find out whether an implementation was fetched before.
    Probe(usize),
    /// About to fetch an implementation, knowing what is in its place.
    Acquire(usize, Found),
    /// About to build an implementation.
    Build(usize),
    /// About to prepare, for a benchmark, an implementation.
    Prepare(usize, usize),
    /// About to time a benchmark.
    Invoke(usize),
    /// About to rewrite the report of a benchmark.
    Rewrite(usize),
    /// About to write the aggregate document.
    Flush,
    /// The run is over and went well.
    Done,
    /// The run is over because something failed.
    Failed,
}

/// What the driver reports back.
#[derive(Clone, Debug, PartialEq, Eq)]
pub enum Event {
    /// The action was carried out.
    Done,
    /// What is in the place of the artifact that was asked about.
    Probed(Found),
    /// The benchmark inputs that were found.
    Listing(Vec<Benchmark>),
    /// The text of the report that was asked for.
    Report(String),
    /// The action failed.
    Failed,
}

/// What an [`Event`] stands for.
pub enum EventView {
    Done,
    Probed(Found),
    Listing(Seq<Benchmark>),
    Report(Seq<char>),
    Failed,
}

impl View for Event {
    type V = EventView;

    open spec fn view(&self) -> EventView {
        match *self {
            Event::Done => EventView::Done,
            Event::Probed(found) => EventView::Probed(found),
            Event::Listing(found) => EventView::Listing(found@),
            Event::Report(text) => EventView::Report(text@),
            Event::Failed => EventView::Failed,
        }
    }
}

/// What the driver is to do next.
#[derive(Clone, Debug, PartialEq, Eq)]
pub enum Action {
    /// Remove the working directories; failures are passed over.
    Clean { steps: Vec<Step> },
    /// Create the working directories.
    Setup { steps: Vec<Step> },
    /// List the files of `directory` and report them with [`Event::Listing`].
    List { directory: String },
    /// Report with [`Event::Probed`] what is in the place of `artifact`.
    Probe { plugin: Implementation, artifact: Artifact },
    /// Fetch `plugin` by carrying out `steps`.
    Acquire { plugin: Implementation, steps: Vec<Step> },
    /// Build `plugin` by carrying out `steps`.
    Build { plugin: Implementation, steps: Vec<Step> },
    /// Prepare `plugin` for `benchmark` by carrying out `steps`.
    Prepare { plugin: Implementation, benchmark: Benchmark, steps: Vec<Step> },
    /// Time `benchmark` by carrying out `steps`, the run of the timing tool.
    Invoke { benchmark: Benchmark, steps: Vec<Step> },
    /// Read the report at `path` and hand it over with [`Event::Report`].
    Rewrite { benchmark: Benchmark, path: String },
    /// Write the aggregate document by carrying out `steps`.
    Flush { steps: Vec<Step> },
    /// Leave with the exit code `code`.
    Exit { code: i32 },
}

/// What an [`Action`] stands for.
pub enum ActionView {
    Clean { steps: Seq<StepView> },
    Setup { steps: Seq<StepView> },
    List { directory: Seq<char> },
    Probe { plugin: Implementation, artifact: ArtifactView },
    Acquire { plugin: Implementation, steps: Seq<StepView> },
    Build { plugin: Implementation, steps: Seq<StepView> },
    Prepare { plugin: Implementation, benchmark: BenchmarkView, steps: Seq<StepView> },
    Invoke { benchmark: BenchmarkView, steps: Seq<StepView> },
    Rewrite { benchmark: BenchmarkView, path: Seq<char> },
    Flush { steps: Seq<StepView> },
    Exit { code: i32 },
}

impl DeepView for Action {
    type V = ActionView;

    open spec fn deep_view(&self) -> ActionView {
        match *self {
            Action::Clean { steps } => ActionView::Clean { steps: steps.deep_view() },
            Action::Setup { steps } => ActionView::Setup { steps: steps.deep_view() },
            Action::List { directory } => ActionView::List { directory: directory@ },
            Action::Probe { plugin, artifact } => ActionView::Probe { plugin, artifact: artifact@ },
            Action::Acquire { plugin, steps } => ActionView::Acquire {
                plugin,
                steps: steps.deep_view(),
            },
            Action::Build { plugin, steps } => ActionView::Build {
                plugin,
                steps: steps.deep_view(),
            },
            Action::Prepare { plugin, benchmark, steps } => ActionView::Prepare {
                plugin,
                benchmark: benchmark@,
                steps: steps.deep_view(),
            },
            Action::Invoke { benchmark, steps } => ActionView::Invoke {
                benchmark: benchmark@,
                steps: steps.deep_view(),
            },
            Action::Rewrite { benchmark, path } => ActionView::Rewrite {
                benchmark: benchmark@,
                path: path@,
            },
            Action::Flush { steps } => ActionView::Flush { steps: steps.deep_view() },
            Action::Exit { code } => ActionView::Exit { code },
        }
    }
}

impl View for Action {
    type V = ActionView;

    open spec fn view(&self) -> ActionView {
        self.deep_view()
    }
}

impl Action {
    /// The plan of the action, if it is one that the driver carries out
    /// step by step.
    pub open spec fn spec_steps(action: ActionView) -> Option<Seq<StepView>> {
        match action {
            ActionView::Clean { steps } => Some(steps),
            ActionView::Setup { steps } => Some(steps),
            ActionView::Acquire { steps, .. } => Some(steps),
            ActionView::Build { steps, .. } => Some(steps),
            ActionView::Prepare { steps, .. } => Some(steps),
            ActionView::Invoke { steps, .. } => Some(steps),
            ActionView::Flush { steps } => Some(steps),
            _ => None,
        }
    }

    /// The plan of the action, if it is one that the driver carries out
    /// step by step.
    pub fn steps(&self) -> (plan: Option<&Vec<Step>>)
        ensures
            plan.deep_view() == Action::spec_steps(self@),
    {
        match self {
            Action::Clean { steps } => Some(steps),
            Action::Setup { steps } => Some(steps),
            Action::Acquire { steps, .. } => Some(steps),
            Action::Build { steps, .. } => Some(steps),
            Action::Prepare { steps, .. } => Some(steps),
            Action::Invoke { steps, .. } => Some(steps),
            Action::Flush { steps } => Some(steps),
            _ => None,
        }
    }

    /// Whether the failure of a step leaves the rest of the plan standing:
    /// so it is when cleaning, and nowhere else.
    pub fn lenient(&self) -> (lenient: bool)
        ensures
            lenient == (self@ is Clean),
    {
        match self {
            Action::Clean { .. } => true,
            _ => false,
        }
    }
}

/// What the driver reports at the end of a plan: that it was carried out,
/// or that it failed. Nothing as long as a step is left to do.
pub fn concluded(walk: Walk) -> (event: Option<Event>)
    ensures
        match walk {
            Walk::Step(_) => event is None,
            Walk::Completed => event matches Some(e) && e@ == EventView::Done,
            Walk::Aborted => event matches Some(e) && e@ == EventView::Failed,
        },
{
    match walk {
        Walk::Step(_) => None,
        Walk::Completed => Some(Event::Done),
        Walk::Aborted => Some(Event::Failed),
    }
}

/// The state of a run.
pub struct Pipeline {
    options: Options,
    platform: Platform,
    plugins: Vec<Implementation>,
    benchmarks: Vec<Benchmark>,
    cursor: Cursor,
    document: String,
    reports: Ghost<Seq<Seq<char>>>,
}

/// What a [`Pipeline`] stands for.
pub struct PipelineView {
    /// What the user asked for.
    pub options: OptionsView,
    /// The platform of the run.
    pub platform: Platform,
    /// The implementations that take part, in run order.
    pub plugins: Seq<Implementation>,
    /// The benchmarks that take part, in run order; empty until listed.
    pub benchmarks: Seq<Benchmark>,
    /// Where the run stands.
    pub cursor: Cursor,
    /// The aggregate document so far.
    pub document: Seq<char>,
    /// The reports handed over so far, as the timing tool wrote them.
    pub reports: Seq<Seq<char>>,
}

impl View for Pipeline {
    type V = PipelineView;

    closed spec fn view(&self) -> PipelineView {
        PipelineView {
            options: self.options@,
            platform: self.platform,
            plugins: self.plugins@,
            benchmarks: self.benchmarks@,
            cursor: self.cursor,
            document: self.document@,
            reports: self.reports@,
        }
    }
}

/// The steps that remove the working directories.
pub open spec fn clean_steps() -> Seq<StepView> {
    seq![StepView::RemoveDirAll { path: BUILD_ROOT@ }, StepView::RemoveDirAll { path: RESULTS@ }]
}

/// The steps that create the working directories.
pub open spec fn setup_steps() -> Seq<StepView> {
    seq![
        StepView::CreateDirAll { path: SOURCE_CACHE@ },
        StepView::CreateDirAll { path: BUILD_OUTPUT@ },
        StepView::CreateDirAll { path: RESULTS@ },
    ]
}

/// The reports after every implementation has rewritten them.
pub open spec fn rewritten_reports(plugins: Seq<Implementation>, reports: Seq<Seq<char>>) -> Seq<
    Seq<char>,
> {
    reports.map_values(|raw: Seq<char>| filtered_by(plugins, raw))
}

/// How many benchmarks are behind a run that stands at `cursor`, out of
/// `total`.
pub open spec fn benchmarks_done(cursor: Cursor, total: nat, reports: nat) -> nat {
    match cursor {
        Cursor::Clean | Cursor::Setup | Cursor::List | Cursor::Probe(_) | Cursor::Acquire(_, _)
        | Cursor::Build(_) => 0,
        Cursor::Prepare(b, _) | Cursor::Invoke(b) | Cursor::Rewrite(b) => b as nat,
        Cursor::Flush | Cursor::Done => total,
        Cursor::Failed => reports,
    }
}

impl PipelineView {
    /// Whether the state is one that a run can be in.
    pub open spec fn wf(self) -> bool {
        let n = self.plugins.len();
        let m = self.benchmarks.len();
        &&& n <= usize::MAX
        &&& m <= usize::MAX
        &&& self.options.clean || checked(self.options) is Ok
        &&& self.options.clean ==> (self.cursor == Cursor::Clean || self.cursor == Cursor::Done)
            && n == 0
        &&& self.cursor == Cursor::Clean ==> self.options.clean
        &&& (self.cursor == Cursor::Clean || self.cursor == Cursor::Setup || self.cursor
            == Cursor::List) ==> m == 0
        &&& sorted_by_name(self.plugins)
        &&& sorted_by_name(self.benchmarks)
        &&& match self.cursor {
            Cursor::Acquire(i, found) => i < n && self.plugins[i as int].spec_get(
                found,
                self.platform,
            ) is Ok,
            Cursor::Probe(i) | Cursor::Build(i) => i < n,
            Cursor::Prepare(b, i) => b < m && i < n,
            Cursor::Invoke(b) | Cursor::Rewrite(b) => b < m,
            _ => true,
        }
        &&& self.reports.len() <= m
        &&& self.reports.len() == benchmarks_done(self.cursor, m, self.reports.len())
        &&& self.document == aggregate_spec(
            names(self.benchmarks).take(self.reports.len() as int),
            rewritten_reports(self.plugins, self.reports),
        )
    }

    /// The position from which the implementations from `i` on are fetched.
    pub open spec fn enter_acquire(self, i: int) -> Cursor {
        if 0 <= i < self.plugins.len() {
            Cursor::Probe(i as usize)
        } else {
            self.enter_build(0)
        }
    }

    /// The position from which the implementations from `i` on are built.
    pub open spec fn enter_build(self, i: int) -> Cursor {
        if 0 <= i < self.plugins.len() {
            Cursor::Build(i as usize)
        } else {
            self.enter_benchmark(0)
        }
    }

    /// The position from which the benchmarks from `b` on are run.
    pub open spec fn enter_benchmark(self, b: int) -> Cursor {
        if 0 <= b < self.benchmarks.len() {
            self.enter_prepare(b, 0)
        } else {
            Cursor::Flush
        }
    }

    /// The position from which the implementations from `i` on are
    /// prepared for the benchmark `b`.
    pub open spec fn enter_prepare(self, b: int, i: int) -> Cursor {
        if 0 <= i < self.plugins.len() {
            Cursor::Prepare(b as usize, i as usize)
        } else {
            Cursor::Invoke(b as usize)
        }
    }

    /// The state with the cursor moved to `cursor`.
    pub open spec fn at(self, cursor: Cursor) -> PipelineView {
        PipelineView { cursor, ..self }
    }

    /// The state after the benchmarks were listed and `chosen` among them.
    pub open spec fn listed(self, chosen: Seq<Benchmark>) -> PipelineView {
        let with = PipelineView { benchmarks: chosen, ..self };
        with.at(with.enter_acquire(0))
    }

    /// The state after the report `raw` of the benchmark `b` came in.
    pub open spec fn absorbed(self, b: int, raw: Seq<char>) -> PipelineView {
        PipelineView {
            cursor: self.enter_benchmark(b + 1),
            document: self.document + section_spec(
                self.benchmarks[b].file_name@,
                filtered_by(self.plugins, raw),
            ),
            reports: self.reports.push(raw),
            ..self
        }
    }

    /// The state that follows on `event`, for every event but a listing.
    ///
    /// A run that is over stays as it is. While cleaning, every event ends
    /// the run well. Otherwise a failure, or an event that does not answer
    /// the action, ends the run badly; so does the news that the place of a
    /// checkout is taken by something that is no directory.
    pub open spec fn next(self, event: EventView) -> PipelineView {
        match self.cursor {
            Cursor::Done | Cursor::Failed => self,
            Cursor::Clean => self.at(Cursor::Done),
            Cursor::Setup => match event {
                EventView::Done => self.at(Cursor::List),
                _ => self.at(Cursor::Failed),
            },
            Cursor::List => self.at(Cursor::Failed),
            Cursor::Probe(i) => match event {
                EventView::Probed(found) => if self.plugins[i as int].spec_get(
                    found,
                    self.platform,
                ) is Ok {
                    self.at(Cursor::Acquire(i, found))
                } else {
                    self.at(Cursor::Failed)
                },
                _ => self.at(Cursor::Failed),
            },
            Cursor::Acquire(i, _) => match event {
                EventView::Done => self.at(self.enter_acquire(i + 1)),
                _ => self.at(Cursor::Failed),
            },
            Cursor::Build(i) => match event {
                EventView::Done => self.at(self.enter_build(i + 1)),
                _ => self.at(Cursor::Failed),
            },
            Cursor::Prepare(b, i) => match event {
                EventView::Done => self.at(self.enter_prepare(b as int, i + 1)),
                _ => self.at(Cursor::Failed),
            },
            Cursor::Invoke(b) => match event {
                EventView::Done => self.at(Cursor::Rewrite(b)),
                _ => self.at(Cursor::Failed),
            },
            Cursor::Rewrite(b) => match event {
                EventView::Report(raw) => self.absorbed(b as int, raw),
                _ => self.at(Cursor::Failed),
            },
            Cursor::Flush => match event {
                EventView::Done => self.at(Cursor::Done),
                _ => self.at(Cursor::Failed),
            },
        }
    }

    /// What is to be done in this state.
    pub open spec fn action(self) -> ActionView {
        match self.cursor {
            Cursor::Clean => ActionView::Clean { steps: clean_steps() },
            Cursor::Setup => ActionView::Setup { steps: setup_steps() },
            Cursor::List => ActionView::List { directory: BENCHES@ },
            Cursor::Probe(i) => ActionView::Probe {
                plugin: self.plugins[i as int],
                artifact: self.plugins[i as int].spec_artifact(),
            },
            Cursor::Acquire(i, found) => ActionView::Acquire {
                plugin: self.plugins[i as int],
                steps: self.plugins[i as int].spec_get(found, self.platform).unwrap(),
            },
            Cursor::Build(i) => ActionView::Build {
                plugin: self.plugins[i as int],
                steps: self.plugins[i as int].spec_build(self.platform),
            },
            Cursor::Prepare(b, i) => ActionView::Prepare {
                plugin: self.plugins[i as int],
                benchmark: self.benchmarks[b as int]@,
                steps: self.plugins[i as int].spec_prepare(
                    self.benchmarks[b as int]@,
                    self.platform,
                ),
            },
            Cursor::Invoke(b) => ActionView::Invoke {
                benchmark: self.benchmarks[b as int]@,
                steps: seq![
                    StepView::Run {
                        command: CommandView {
                            program: TIMING_TOOL@,
                            args: timing_args(
                                self.plugins,
                                self.benchmarks[b as int]@,
                                self.platform,
                            ),
                            current_dir: None,
                        },
                    },
                ],
            },
            Cursor::Rewrite(b) => ActionView::Rewrite {
                benchmark: self.benchmarks[b as int]@,
                path: result_path_spec(file_stem_spec(self.benchmarks[b as int].file_name@)),
            },
            Cursor::Flush => ActionView::Flush {
                steps: seq![
                    StepView::WriteFile {
                        write: FileWriteView {
                            path: FULL_REPORT@,
                            contents: vstd::utf8::encode_utf8(self.document),
                        },
                    },
                ],
            },
            Cursor::Done => ActionView::Exit { code: 0 },
            Cursor::Failed => ActionView::Exit { code: FAILURE_EXIT_CODE },
        }
    }
}

/// The state in which a run starts: nothing listed, nothing written.
pub open spec fn initial(
    options: OptionsView,
    platform: Platform,
    plugins: Seq<Implementation>,
) -> PipelineView {
    PipelineView {
        options,
        platform,
        plugins,
        benchmarks: Seq::empty(),
        cursor: if options.clean {
            Cursor::Clean
        } else {
            Cursor::Setup
        },
        document: Seq::empty(),
        reports: Seq::empty(),
    }
}

impl Pipeline {
    /// Starts a run. With `clean` set, the run only removes the working
    /// directories and no implementation is looked at. Otherwise the
    /// patterns are examined and the roster is narrowed down to the
    /// implementations that take part.
    pub fn new(options: Options, platform: Platform) -> (run: Result<Pipeline, SelectionError>)
        ensures
            match run {
                Ok(pipeline) => {
                    &&& pipeline@.wf()
                    &&& pipeline@ == initial(options@, platform, pipeline@.plugins)
                    &&& options@.clean ==> pipeline@.plugins.len() == 0
                    &&& !options@.clean ==> selection_of(
                        pipeline@.plugins,
                        roster_spec(),
                        implementation_filter(options@, platform),
                    )
                },
                Err(e) => !options@.clean && checked(options@) == Err::<(), SelectionError>(e),
            },
    {
        if options.clean {
            let pipeline = Pipeline {
                options,
                platform,
                plugins: Vec::new(),
                benchmarks: Vec::new(),
                cursor: Cursor::Clean,
                document: String::new(),
                reports: Ghost(Seq::empty()),
            };
            proof {
                lemma_initial_wf(pipeline@);
            }
            Ok(pipeline)
        } else {
            match select_implementations(roster(), &options, platform) {
                Err(e) => Err(e),
                Ok(plugins) => {
                    let pipeline = Pipeline {
                        options,
                        platform,
                        plugins,
                        benchmarks: Vec::new(),
                        cursor: Cursor::Setup,
                        document: String::new(),
                        reports: Ghost(Seq::empty()),
                    };
                    proof {
                        assert(pipeline.plugins@.len() == pipeline.plugins.len());
                        lemma_initial_wf(pipeline@);
                    }
                    Ok(pipeline)
                },
            }
        }
    }

    /// Where the run stands.
    pub fn cursor(&self) -> (cursor: Cursor)
        ensures
            cursor == self@.cursor,
    {
        self.cursor
    }

    /// The implementations that take part, in run order.
    pub fn plugins(&self) -> (plugins: &Vec<Implementation>)
        ensures
            plugins@ == self@.plugins,
    {
        &self.plugins
    }

    /// The benchmarks that take part, in run order.
    pub fn benchmarks(&self) -> (benchmarks: &Vec<Benchmark>)
        ensures
            benchmarks@ == self@.benchmarks,
    {
        &self.benchmarks
    }

    /// The aggregate document so far.
    pub fn document(&self) -> (document: &String)
        ensures
            document@ == self@.document,
    {
        &self.document
    }

    /// Whether the run is over.
    pub fn finished(&self) -> (over: bool)
        ensures
            over == (self@.cursor == Cursor::Done || self@.cursor == Cursor::Failed),
    {
        match self.cursor {
            Cursor::Done | Cursor::Failed => true,
            _ => false,
        }
    }

    /// See [`PipelineView::enter_prepare`].
    fn enter_prepare(&self, b: usize, i: usize) -> (cursor: Cursor)
        ensures
            cursor == self@.enter_prepare(b as int, i as int),
    {
        if i < self.plugins.len() {
            Cursor::Prepare(b, i)
        } else {
            Cursor::Invoke(b)
        }
    }

    /// See [`PipelineView::enter_benchmark`].
    fn enter_benchmark(&self, b: usize) -> (cursor: Cursor)
        ensures
            cursor == self@.enter_benchmark(b as int),
    {
        if b < self.benchmarks.len() {
            self.enter_prepare(b, 0)
        } else {
            Cursor::Flush
        }
    }

    /// See [`PipelineView::enter_build`].
    fn enter_build(&self, i: usize) -> (cursor: Cursor)
        ensures
            cursor == self@.enter_build(i as int),
    {
        if i < self.plugins.len() {
            Cursor::Build(i)
        } else {
            self.enter_benchmark(0)
        }
    }

    /// See [`PipelineView::enter_acquire`].
    fn enter_acquire(&self, i: usize) -> (cursor: Cursor)
        ensures
            cursor == self@.enter_acquire(i as int),
    {
        if i < self.plugins.len() {
            Cursor::Probe(i)
        } else {
            self.enter_build(0)
        }
    }

    /// What the driver is to do now.
    pub fn action(&self) -> (action: Action)
        requires
            self@.wf(),
        ensures
            action@ == self@.action(),
    {
        match self.cursor {
            Cursor::Clean => {
                let mut steps = no_steps();
                push_step(&mut steps, remove_dir_all(BUILD_ROOT));
                push_step(&mut steps, remove_dir_all(RESULTS));
                assert(steps.deep_view() =~= clean_steps());
                Action::Clean { steps }
            },
            Cursor::Setup => {
                let mut steps = no_steps();
                push_step(&mut steps, create_dir_all(SOURCE_CACHE));
                push_step(&mut steps, create_dir_all(BUILD_OUTPUT));
                push_step(&mut steps, create_dir_all(RESULTS));
                assert(steps.deep_view() =~= setup_steps());
                Action::Setup { steps }
            },
            Cursor::List => Action::List { directory: String::from_str(BENCHES) },
            Cursor::Probe(i) => {
                let plugin = self.plugins[i];
                Action::Probe { plugin, artifact: plugin.artifact() }
            },
            Cursor::Acquire(i, found) => {
                let plugin = self.plugins[i];
                match plugin.get(found, self.platform) {
                    Ok(steps) => Action::Acquire { plugin, steps },
                    Err(_) => Action::Exit { code: FAILURE_EXIT_CODE },
                }
            },
            Cursor::Build(i) => {
                let plugin = self.plugins[i];
                Action::Build { plugin, steps: plugin.build(self.platform) }
            },
            Cursor::Prepare(b, i) => {
                let plugin = self.plugins[i];
                let benchmark = self.benchmarks[b].duplicate();
                let steps = plugin.prepare(&benchmark, self.platform);
                Action::Prepare { plugin, benchmark, steps }
            },
            Cursor::Invoke(b) => {
                let benchmark = self.benchmarks[b].duplicate();
                let mut steps = no_steps();
                let command = timing_command(&self.plugins, &benchmark, self.platform);
                push_step(&mut steps, run(command));
                assert(steps.deep_view() =~= self@.action()->Invoke_steps);
                Action::Invoke { benchmark, steps }
            },
            Cursor::Rewrite(b) => {
                let benchmark = self.benchmarks[b].duplicate();
                let path = result_path(&benchmark);
                Action::Rewrite { benchmark, path }
            },
            Cursor::Flush => {
                let mut steps = no_steps();
                push_step(
                    &mut steps,
                    Step::WriteFile {
                        write: text_file(String::from_str(FULL_REPORT), self.document.as_str()),
                    },
                );
                assert(steps.deep_view() =~= self@.action()->Flush_steps);
                Action::Flush { steps }
            },
            Cursor::Done => Action::Exit { code: 0 },
            Cursor::Failed => Action::Exit { code: FAILURE_EXIT_CODE },
        }
    }

    /// Takes note of what came of the last action and moves on.
    ///
    /// A listing is narrowed down to the benchmarks that take part, sorted
    /// by file name. A report is rewritten by every implementation in run
    /// order and added to the aggregate document under the benchmark's
    /// heading. Every other event moves the run as [`PipelineView::next`]
    /// says.
    pub fn step(&mut self, event: Event)
        requires
            old(self)@.wf(),
        ensures
            final(self)@.wf(),
            match (old(self)@.cursor, event@) {
                (Cursor::List, EventView::Listing(found)) => {
                    &&& selection_of(
                        final(self)@.benchmarks,
                        found,
                        benchmark_filter(old(self)@.options),
                    )
                    &&& final(self)@ == old(self)@.listed(final(self)@.benchmarks)
                },
                _ => final(self)@ == old(self)@.next(event@),
            },
    {
        assert(self.plugins@.len() == self.plugins.len());
        assert(self.benchmarks@.len() == self.benchmarks.len());
        match self.cursor {
            Cursor::Done | Cursor::Failed => {},
            Cursor::Clean => {
                self.cursor = Cursor::Done;
            },
            Cursor::Setup => match event {
                Event::Done => {
                    self.cursor = Cursor::List;
                },
                _ => {
                    self.cursor = Cursor::Failed;
                },
            },
            Cursor::List => match event {
                Event::Listing(found) => match select_benchmarks(found, &self.options) {
                    Ok(chosen) => {
                        self.benchmarks = chosen;
                        self.cursor = self.enter_acquire(0);
                        proof {
                            assert(self.benchmarks@.len() == self.benchmarks.len());
                            lemma_listed_wf(old(self)@, self.benchmarks@);
                        }
                    },
                    Err(_) => {
                        self.cursor = Cursor::Failed;
                    },
                },
                _ => {
                    self.cursor = Cursor::Failed;
                },
            },
            Cursor::Probe(i) => match event {
                Event::Probed(found) => {
                    if self.plugins[i].get(found, self.platform).is_ok() {
                        self.cursor = Cursor::Acquire(i, found);
                    } else {
                        self.cursor = Cursor::Failed;
                    }
                },
                _ => {
                    self.cursor = Cursor::Failed;
                },
            },
            Cursor::Acquire(i, _) => match event {
                Event::Done => {
                    self.cursor = self.enter_acquire(i + 1);
                },
                _ => {
                    self.cursor = Cursor::Failed;
                },
            },
            Cursor::Build(i) => match event {
                Event::Done => {
                    self.cursor = self.enter_build(i + 1);
                },
                _ => {
                    self.cursor = Cursor::Failed;
                },
            },
            Cursor::Prepare(b, i) => match event {
                Event::Done => {
                    self.cursor = self.enter_prepare(b, i + 1);
                },
                _ => {
                    self.cursor = Cursor::Failed;
                },
            },
            Cursor::Invoke(b) => match event {
                Event::Done => {
                    self.cursor = Cursor::Rewrite(b);
                },
                _ => {
                    self.cursor = Cursor::Failed;
                },
            },
            Cursor::Rewrite(b) => match event {
                Event::Report(raw) => {
                    let ghost raw_text = raw@;
                    let report = filter_all(&self.plugins, raw);
                    append_section(
                        &mut self.document,
                        self.benchmarks[b].file_name.as_str(),
                        report.as_str(),
                    );
                    self.reports = Ghost(self.reports@.push(raw_text));
                    self.cursor = self.enter_benchmark(b + 1);
                    proof {
                        lemma_absorbed_wf(old(self)@, b as int, raw_text);
                    }
                },
                _ => {
                    self.cursor = Cursor::Failed;
                },
            },
            Cursor::Flush => match event {
                Event::Done => {
                    self.cursor = Cursor::Done;
                },
                _ => {
                    self.cursor = Cursor::Failed;
                },
            },
        }
    }
}

/// A run starts in a state that it can be in.
pub proof fn lemma_initial_wf(state: PipelineView)
    requires
        state == initial(state.options, state.platform, state.plugins),
        state.plugins.len() <= usize::MAX,
        state.options.clean || checked(state.options) is Ok,
        state.options.clean ==> state.plugins.len() == 0,
        sorted_by_name(state.plugins),
    ensures
        state.wf(),
{
    assert(names(state.benchmarks).take(0) =~= Seq::<Seq<char>>::empty());
}

/// Choosing the benchmarks leads to a state that a run can be in.
pub proof fn lemma_listed_wf(state: PipelineView, chosen: Seq<Benchmark>)
    requires
        state.wf(),
        state.cursor == Cursor::List,
        sorted_by_name(chosen),
        chosen.len() <= usize::MAX,
    ensures
        state.listed(chosen).wf(),
{
    let after = state.listed(chosen);
    assert(names(after.benchmarks).take(0) =~= Seq::<Seq<char>>::empty());
    assert(names(state.benchmarks).take(0) =~= Seq::<Seq<char>>::empty());
}

/// Taking in a report leads to a state that a run can be in.
pub proof fn lemma_absorbed_wf(state: PipelineView, b: int, raw: Seq<char>)
    requires
        state.wf(),
        state.cursor == Cursor::Rewrite(b as usize),
        0 <= b <= usize::MAX,
    ensures
        state.absorbed(b, raw).wf(),
{
    let after = state.absorbed(b, raw);
    let file_names = names(state.benchmarks);
    let before = rewritten_reports(state.plugins, state.reports);
    let now = rewritten_reports(state.plugins, after.reports);
    assert(file_names.take(b + 1).drop_last() =~= file_names.take(b));
    assert(now.drop_last() =~= before);
    assert(now.last() == filtered_by(state.plugins, raw));
    assert(file_names.take(b + 1).last() == state.benchmarks[b].file_name@);
}

/// The state after a run has taken in `events`, one after the other (none
/// of them a listing that is due).
pub open spec fn after_events(state: PipelineView, events: Seq<EventView>) -> PipelineView
    decreases events.len(),
{
    if events.len() == 0 {
        state
    } else {
        after_events(state, events.drop_last()).next(events.last())
    }
}

/// The aggregate document is written in full and in order: when it is
/// about to be written, a report has come in for every benchmark, and the
/// document holds one section per benchmark, under the benchmark's file
/// name, in the ascending order of the file names, whatever order the
/// benchmarks were listed in.
pub proof fn lemma_flush_is_complete(state: PipelineView)
    requires
        state.wf(),
        state.cursor == Cursor::Flush,
    ensures
        state.reports.len() == state.benchmarks.len(),
        crate::order::ascending(names(state.benchmarks)),
        state.action() == (ActionView::Flush {
            steps: seq![
                StepView::WriteFile {
                    write: FileWriteView {
                        path: FULL_REPORT@,
                        contents: vstd::utf8::encode_utf8(
                            aggregate_spec(
                                names(state.benchmarks),
                                rewritten_reports(state.plugins, state.reports),
                            ),
                        ),
                    },
                },
            ],
        }),
{
    assert(names(state.benchmarks).take(state.reports.len() as int) =~= names(state.benchmarks));
}

/// A failure is fatal. Outside of cleaning, a failed action ends a run that
/// is not over yet; a run that has failed stays failed whatever comes in,
/// leaves with the failure exit code, and never gets to write the aggregate
/// document.
pub proof fn lemma_failure_is_final(state: PipelineView, events: Seq<EventView>)
    ensures
        state.cursor != Cursor::Clean && state.cursor != Cursor::Done ==> state.next(
            EventView::Failed,
        ).cursor == Cursor::Failed,
        state.cursor == Cursor::Failed ==> after_events(state, events) == state,
        state.cursor == Cursor::Failed ==> state.action() == (ActionView::Exit {
            code: FAILURE_EXIT_CODE,
        }),
    decreases events.len(),
{
    if events.len() > 0 {
        lemma_failure_is_final(state, events.drop_last());
    }
}

/// The aggregate document is written from one position only, and a run
/// leaves with exit code 0 from one position only.
pub proof fn lemma_actions_by_cursor(state: PipelineView)
    ensures
        state.action() is Flush <==> state.cursor == Cursor::Flush,
        state.action() == (ActionView::Exit { code: 0 }) <==> state.cursor == Cursor::Done,
        state.action() is Exit <==> (state.cursor == Cursor::Done || state.cursor
            == Cursor::Failed),
{
}

/// Cleaning touches no implementation: a run that was asked to clean starts
/// by removing the two working directories, is over after that whatever came
/// of it, and leaves with exit code 0.
pub proof fn lemma_clean_run(
    options: OptionsView,
    platform: Platform,
    plugins: Seq<Implementation>,
    event: EventView,
)
    requires
        options.clean,
    ensures
        initial(options, platform, plugins).action() == (ActionView::Clean {
            steps: clean_steps(),
        }),
        initial(options, platform, plugins).next(event).cursor == Cursor::Done,
        initial(options, platform, plugins).next(event).action() == (ActionView::Exit { code: 0 }),
{
}

/// The place of a position in the run of `n` implementations on `m`
/// benchmarks, counted from the start: setting up, listing, two places per
/// implementation for fetching, one each for building, then per benchmark one
/// place per implementation for preparing and two for timing and rewriting,
/// and at last the writing of the aggregate document and the end.
pub open spec fn place(cursor: Cursor, n: int, m: int) -> int {
    match cursor {
        Cursor::Clean => 0,
        Cursor::Setup => 0,
        Cursor::List => 1,
        Cursor::Probe(i) => 2 + 2 * i,
        Cursor::Acquire(i, _) => 3 + 2 * i,
        Cursor::Build(i) => 2 + 2 * n + i,
        Cursor::Prepare(b, i) => 2 + 3 * n + b * (n + 2) + i,
        Cursor::Invoke(b) => 2 + 3 * n + b * (n + 2) + n,
        Cursor::Rewrite(b) => 2 + 3 * n + b * (n + 2) + n + 1,
        Cursor::Flush => 2 + 3 * n + m * (n + 2),
        Cursor::Done => 3 + 3 * n + m * (n + 2),
        Cursor::Failed => 3 + 3 * n + m * (n + 2),
    }
}

/// Whether `event` is the answer that the action of `state` asks for when
/// all goes well.
pub open spec fn answers(state: PipelineView, event: EventView) -> bool {
    match state.cursor {
        Cursor::List => event is Listing,
        Cursor::Probe(i) => {
            &&& event matches EventView::Probed(found)
            &&& state.plugins[i as int].spec_get(found, state.platform) is Ok
        },
        Cursor::Rewrite(_) => event is Report,
        _ => event is Done,
    }
}

/// The stages are strictly sequential. As long as all goes well, a run
/// moves from each place to the very next: no place is left out, none is
/// taken twice, and there is no way back. So every implementation is fetched
/// once, in run order, before anything is built; every implementation is
/// built once before the first benchmark; for each benchmark in run order
/// every implementation is prepared once, then the benchmark is timed once
/// and its report rewritten once; and the aggregate document is written once,
/// when all that is done.
pub proof fn lemma_one_place_after_the_other(state: PipelineView, event: EventView)
    requires
        state.wf(),
        !state.options.clean,
        state.cursor != Cursor::Done,
        state.cursor != Cursor::Failed,
        answers(state, event),
    ensures
        state.cursor != Cursor::List ==> place(
            state.next(event).cursor,
            state.plugins.len() as int,
            state.benchmarks.len() as int,
        ) == place(state.cursor, state.plugins.len() as int, state.benchmarks.len() as int) + 1,
        forall|chosen: Seq<Benchmark>|
            state.cursor == Cursor::List ==> place(
                #[trigger] state.listed(chosen).cursor,
                state.plugins.len() as int,
                chosen.len() as int,
            ) == 2,
{
    let n = state.plugins.len() as int;
    let m = state.benchmarks.len() as int;
    match state.cursor {
        Cursor::Rewrite(b) => {
            assert((b + 1) * (n + 2) == b * (n + 2) + n + 2) by (nonlinear_arith);
        },
        Cursor::Build(_) | Cursor::Acquire(_, _) => {
            assert(0 * (n + 2) == 0) by (nonlinear_arith);
        },
        Cursor::List => {
            assert forall|chosen: Seq<Benchmark>|
                state.cursor == Cursor::List implies place(
                #[trigger] state.listed(chosen).cursor,
                n,
                chosen.len() as int,
            ) == 2 by {
                assert(0 * (n + 2) == 0) by (nonlinear_arith);
            }
        },
        _ => {},
    }
}

} // verus!
