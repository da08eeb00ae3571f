//! The selection engine: which implementations and benchmarks take part.
//!
//! An item takes part if and only if it passes every criterion that is set.
//! Among the survivors, the order is the ascending order of their names.

use vstd::prelude::*;
use vstd::string::*;
use crate::benchmark::Benchmark;
use crate::bf_impl::BFImpl;
use crate::order::{
    distinct_names, lemma_filter_of_permutation, lemma_sorted_names_unique, lemma_sorted_unique,
    names, sort_by_name, sorted_by_name, Named,
};
use crate::pattern::{compiles, is_match, regex_compiles, regex_is_match};
use crate::platform::Platform;
use crate::roster::Implementation;

verus! {

/// What the user asked for.
#[derive(Clone, Debug)]
pub struct Options {
    /// Regex to select which implementations to run.
    pub impl_regex: Option<String>,
    /// Regex to select which implementations not to run.
    pub negative_impl_regex: Option<String>,
    /// Regex to select which benchmarks to run.
    pub bench_regex: Option<String>,
    /// Regex to select which benchmarks to not run.
    pub negative_bench_regex: Option<String>,
    /// Don't run interpreters.
    pub no_interpreters: bool,
    /// Don't run compilers.
    pub no_compilers: bool,
    /// Clean all temporary data and quit.
    pub clean: bool,
}

/// What [`Options`] stand for.
pub struct OptionsView {
    pub impl_regex: Option<Seq<char>>,
    pub negative_impl_regex: Option<Seq<char>>,
    pub bench_regex: Option<Seq<char>>,
    pub negative_bench_regex: Option<Seq<char>>,
    pub no_interpreters: bool,
    pub no_compilers: bool,
    pub clean: bool,
}

impl DeepView for Options {
    type V = OptionsView;

    open spec fn deep_view(&self) -> OptionsView {
        OptionsView {
            impl_regex: self.impl_regex.deep_view(),
            negative_impl_regex: self.negative_impl_regex.deep_view(),
            bench_regex: self.bench_regex.deep_view(),
            negative_bench_regex: self.negative_bench_regex.deep_view(),
            no_interpreters: self.no_interpreters,
            no_compilers: self.no_compilers,
            clean: self.clean,
        }
    }
}

impl View for Options {
    type V = OptionsView;

    open spec fn view(&self) -> OptionsView {
        self.deep_view()
    }
}

/// The option whose pattern is no regular expression.
#[derive(Clone, Copy, Debug, PartialEq, Eq, Structural)]
pub enum SelectionError {
    /// The pattern of the implementations to run.
    ImplRegex,
    /// The pattern of the implementations not to run.
    NegativeImplRegex,
    /// The pattern of the benchmarks to run.
    BenchRegex,
    /// The pattern of the benchmarks not to run.
    NegativeBenchRegex,
}

impl SelectionError {
    /// The command-line option that the error is about.
    pub fn option(&self) -> (name: &'static str)
        ensures
            name@ == match *self {
                SelectionError::ImplRegex => "--impls"@,
                SelectionError::NegativeImplRegex => "--ignore-impls"@,
                SelectionError::BenchRegex => "--benches"@,
                SelectionError::NegativeBenchRegex => "--ignore-benches"@,
            },
    {
        match self {
            SelectionError::ImplRegex => "--impls",
            SelectionError::NegativeImplRegex => "--ignore-impls",
            SelectionError::BenchRegex => "--benches",
            SelectionError::NegativeBenchRegex => "--ignore-benches",
        }
    }
}

/// Whether a pattern, if one is set, is a regular expression.
pub open spec fn usable(pattern: Option<Seq<char>>) -> bool {
    pattern matches Some(p) ==> regex_compiles(p)
}

/// The verdict on the four patterns: the first unusable one, in the order
/// of the fields, or none.
pub open spec fn checked(options: OptionsView) -> Result<(), SelectionError> {
    if !usable(options.impl_regex) {
        Err(SelectionError::ImplRegex)
    } else if !usable(options.negative_impl_regex) {
        Err(SelectionError::NegativeImplRegex)
    } else if !usable(options.bench_regex) {
        Err(SelectionError::BenchRegex)
    } else if !usable(options.negative_bench_regex) {
        Err(SelectionError::NegativeBenchRegex)
    } else {
        Ok(())
    }
}

/// Whether `name` passes a pair of patterns: it matches `wanted`, if set,
/// and does not match `unwanted`, if set.
pub open spec fn passes(
    wanted: Option<Seq<char>>,
    unwanted: Option<Seq<char>>,
    name: Seq<char>,
) -> bool {
    &&& wanted matches Some(p) ==> regex_is_match(p, name)
    &&& unwanted matches Some(p) ==> !regex_is_match(p, name)
}

/// Whether implementations of a kind take part at all.
pub open spec fn kind_enabled(interpreted: bool, options: OptionsView) -> bool {
    if interpreted {
        !options.no_interpreters
    } else {
        !options.no_compilers
    }
}

/// Whether `candidate` takes part: it is available on the platform, passes
/// both patterns for implementations, and is of a kind that was not switched
/// off.
pub open spec fn implementation_active(
    candidate: Implementation,
    options: OptionsView,
    platform: Platform,
) -> bool {
    &&& candidate.spec_enabled(platform)
    &&& passes(options.impl_regex, options.negative_impl_regex, candidate.spec_name())
    &&& kind_enabled(candidate.spec_interpreted(), options)
}

/// Whether the benchmark named `file_name` takes part: it passes both
/// patterns for benchmarks.
pub open spec fn benchmark_active(file_name: Seq<char>, options: OptionsView) -> bool {
    passes(options.bench_regex, options.negative_bench_regex, file_name)
}

/// [`implementation_active`] as a filter.
pub open spec fn implementation_filter(options: OptionsView, platform: Platform) -> spec_fn(
    Implementation,
) -> bool {
    |candidate: Implementation| implementation_active(candidate, options, platform)
}

/// [`benchmark_active`] as a filter.
pub open spec fn benchmark_filter(options: OptionsView) -> spec_fn(Benchmark) -> bool {
    |candidate: Benchmark| benchmark_active(candidate.file_name@, options)
}

/// Whether `chosen` is the selection from `candidates` under `keep`: the
/// candidates that pass, no others, each as often as it was offered, in the
/// order of their names.
pub open spec fn selection_of<T: Named>(
    chosen: Seq<T>,
    candidates: Seq<T>,
    keep: spec_fn(T) -> bool,
) -> bool {
    &&& sorted_by_name(chosen)
    &&& chosen.to_multiset() == candidates.filter(keep).to_multiset()
}

impl Options {
    /// Tells whether all patterns are regular expressions, and if not,
    /// which is the first that is none.
    pub fn check(&self) -> (verdict: Result<(), SelectionError>)
        ensures
            verdict == checked(self@),
    {
        if !pattern_usable(&self.impl_regex) {
            Err(SelectionError::ImplRegex)
        } else if !pattern_usable(&self.negative_impl_regex) {
            Err(SelectionError::NegativeImplRegex)
        } else if !pattern_usable(&self.bench_regex) {
            Err(SelectionError::BenchRegex)
        } else if !pattern_usable(&self.negative_bench_regex) {
            Err(SelectionError::NegativeBenchRegex)
        } else {
            Ok(())
        }
    }
}

/// Whether `pattern`, if set, is a regular expression.
fn pattern_usable(pattern: &Option<String>) -> (ok: bool)
    ensures
        ok == usable(pattern.deep_view()),
{
    match pattern {
        Some(p) => compiles(p.as_str()),
        None => true,
    }
}

/// Whether `name` passes the two patterns.
fn name_passes(wanted: &Option<String>, unwanted: &Option<String>, name: &str) -> (ok: bool)
    requires
        usable(wanted.deep_view()),
        usable(unwanted.deep_view()),
    ensures
        ok == passes(wanted.deep_view(), unwanted.deep_view(), name@),
{
    let is_wanted = match wanted {
        Some(p) => match is_match(p.as_str(), name) {
            Some(found) => found,
            None => false,
        },
        None => true,
    };
    let is_unwanted = match unwanted {
        Some(p) => match is_match(p.as_str(), name) {
            Some(found) => found,
            None => false,
        },
        None => false,
    };
    is_wanted && !is_unwanted
}

/// Narrows `candidates` down to the implementations that take part, sorted
/// by display name. Fails if a pattern of `options` is no regular
/// expression.
pub fn select_implementations(
    candidates: Vec<Implementation>,
    options: &Options,
    platform: Platform,
) -> (selection: Result<Vec<Implementation>, SelectionError>)
    ensures
        match selection {
            Ok(chosen) => checked(options@) is Ok && selection_of(
                chosen@,
                candidates@,
                implementation_filter(options@, platform),
            ),
            Err(e) => checked(options@) == Err::<(), SelectionError>(e),
        },
{
    match options.check() {
        Err(e) => Err(e),
        Ok(_) => {
            let ghost keep = implementation_filter(options@, platform);
            let mut kept: Vec<Implementation> = Vec::new();
            let mut i: usize = 0;
            assert(candidates@.take(0).filter(keep) =~= kept@) by {
                reveal(Seq::filter);
            }
            while i < candidates.len()
                invariant
                    i <= candidates.len(),
                    checked(options@) is Ok,
                    keep == implementation_filter(options@, platform),
                    kept@ == candidates@.take(i as int).filter(keep),
                decreases candidates.len() - i,
            {
                let candidate = candidates[i];
                let name = candidate.name();
                let type_enabled = if candidate.interpreted() {
                    !options.no_interpreters
                } else {
                    !options.no_compilers
                };
                let active = candidate.enabled(platform) && name_passes(
                    &options.impl_regex,
                    &options.negative_impl_regex,
                    name.as_str(),
                ) && type_enabled;
                proof {
                    assert(candidates@.take(i + 1) =~= candidates@.take(i as int).push(candidate));
                    candidates@.take(i as int).lemma_filter_push(candidate, keep);
                    assert(active == keep(candidate));
                }
                if active {
                    kept.push(candidate);
                }
                i += 1;
            }
            assert(candidates@.take(i as int) =~= candidates@);
            Ok(sort_by_name(kept))
        },
    }
}

/// Narrows `candidates` down to the benchmarks that take part, sorted by
/// file name. Fails if a pattern of `options` is no regular expression.
pub fn select_benchmarks(candidates: Vec<Benchmark>, options: &Options) -> (selection: Result<
    Vec<Benchmark>,
    SelectionError,
>)
    ensures
        match selection {
            Ok(chosen) => checked(options@) is Ok && selection_of(
                chosen@,
                candidates@,
                benchmark_filter(options@),
            ),
            Err(e) => checked(options@) == Err::<(), SelectionError>(e),
        },
{
    match options.check() {
        Err(e) => Err(e),
        Ok(_) => {
            let ghost keep = benchmark_filter(options@);
            let mut kept: Vec<Benchmark> = Vec::new();
            assert(candidates@.take(0).filter(keep) =~= kept@) by {
                reveal(Seq::filter);
            }
            for candidate in it: candidates
                invariant
                    checked(options@) is Ok,
                    keep == benchmark_filter(options@),
                    it.seq() == candidates@,
                    kept@ == candidates@.take(it.index() as int).filter(keep),
            {
                let active = name_passes(
                    &options.bench_regex,
                    &options.negative_bench_regex,
                    candidate.file_name.as_str(),
                );
                proof {
                    let i = it.index() as int;
                    assert(candidates@.take(i + 1) =~= candidates@.take(i).push(candidate));
                    candidates@.take(i).lemma_filter_push(candidate, keep);
                    assert(active == keep(candidate));
                }
                if active {
                    kept.push(candidate);
                }
            }
            assert(candidates@.take(candidates@.len() as int) =~= candidates@);
            Ok(sort_by_name(kept))
        },
    }
}

/// A selection holds exactly the candidates that pass: every chosen item
/// was a candidate and passes, and every candidate that passes was chosen.
pub proof fn lemma_selection_members<T: Named>(
    chosen: Seq<T>,
    candidates: Seq<T>,
    keep: spec_fn(T) -> bool,
)
    requires
        selection_of(chosen, candidates, keep),
    ensures
        forall|i: int|
            0 <= i < chosen.len() ==> keep(#[trigger] chosen[i]) && candidates.contains(chosen[i]),
        forall|i: int|
            0 <= i < candidates.len() && keep(#[trigger] candidates[i]) ==> chosen.contains(
                candidates[i],
            ),
{
    broadcast use vstd::seq_lib::group_to_multiset_ensures;
    broadcast use vstd::multiset::group_multiset_axioms;

    crate::order::lemma_filter_members(candidates, keep);
    assert forall|i: int| 0 <= i < chosen.len() implies keep(#[trigger] chosen[i])
        && candidates.contains(chosen[i]) by {
        let x = chosen[i];
        assert(chosen.contains(x));
        assert(chosen.to_multiset().count(x) > 0);
        assert(candidates.to_multiset().filter(keep).count(x) > 0);
        assert(candidates.to_multiset().count(x) > 0);
    }
    assert forall|i: int|
        0 <= i < candidates.len() && keep(#[trigger] candidates[i]) implies chosen.contains(
        candidates[i],
    ) by {
        let x = candidates[i];
        assert(candidates.contains(x));
        assert(candidates.to_multiset().count(x) > 0);
        assert(candidates.to_multiset().filter(keep).count(x) > 0);
        assert(chosen.to_multiset().count(x) > 0);
    }
}

/// Selection is a function of the set of candidates and the criteria: from
/// the same candidates, offered in whatever order, two selections under the
/// same criteria list the same names in the same order.
pub proof fn lemma_selection_names_determined<T: Named>(
    first: Seq<T>,
    second: Seq<T>,
    offered: Seq<T>,
    offered_again: Seq<T>,
    keep: spec_fn(T) -> bool,
)
    requires
        offered.to_multiset() == offered_again.to_multiset(),
        selection_of(first, offered, keep),
        selection_of(second, offered_again, keep),
    ensures
        names(first) == names(second),
{
    lemma_filter_of_permutation(offered, offered_again, keep);
    lemma_sorted_names_unique(first, second);
}

/// Where names tell the candidates apart, two selections from the same
/// candidates under the same criteria are the same list.
pub proof fn lemma_selection_determined<T: Named>(
    first: Seq<T>,
    second: Seq<T>,
    offered: Seq<T>,
    offered_again: Seq<T>,
    keep: spec_fn(T) -> bool,
)
    requires
        offered.to_multiset() == offered_again.to_multiset(),
        distinct_names(offered),
        selection_of(first, offered, keep),
        selection_of(second, offered_again, keep),
    ensures
        first == second,
{
    lemma_filter_of_permutation(offered, offered_again, keep);
    lemma_selection_members(first, offered, keep);
    assert(distinct_names(first)) by {
        assert forall|i: int, j: int|
            0 <= i < first.len() && 0 <= j < first.len() && (#[trigger] first[i]).spec_key() == (
            #[trigger] first[j]).spec_key() implies first[i] == first[j] by {
            assert(offered.contains(first[i]));
            assert(offered.contains(first[j]));
        }
    }
    lemma_sorted_unique(first, second);
}

/// For the roster the selection is fixed by the options and the platform:
/// in whatever order its members are offered, the same implementations are
/// chosen and stand in the same order.
pub proof fn lemma_roster_selection_determined(
    first: Seq<Implementation>,
    second: Seq<Implementation>,
    offered_again: Seq<Implementation>,
    options: OptionsView,
    platform: Platform,
)
    requires
        offered_again.to_multiset() == crate::roster::roster_spec().to_multiset(),
        selection_of(first, crate::roster::roster_spec(), implementation_filter(options, platform)),
        selection_of(second, offered_again, implementation_filter(options, platform)),
    ensures
        first == second,
{
    crate::roster::lemma_roster_names_distinct();
    lemma_selection_determined(
        first,
        second,
        crate::roster::roster_spec(),
        offered_again,
        implementation_filter(options, platform),
    );
}

/// The criteria are a conjunction. An implementation whose name matches the
/// pattern of those not to run stays out, whatever else it matches; so does
/// one whose name does not match the pattern of those to run, if one is set.
pub proof fn lemma_implementation_conjunction(
    candidate: Implementation,
    options: OptionsView,
    platform: Platform,
)
    ensures
        options.negative_impl_regex matches Some(p) && regex_is_match(p, candidate.spec_name())
            ==> !implementation_active(candidate, options, platform),
        options.impl_regex matches Some(p) && !regex_is_match(p, candidate.spec_name())
            ==> !implementation_active(candidate, options, platform),
        !candidate.spec_enabled(platform) ==> !implementation_active(candidate, options, platform),
        !kind_enabled(candidate.spec_interpreted(), options) ==> !implementation_active(
            candidate,
            options,
            platform,
        ),
{
}

/// The same for benchmarks, by their file names.
pub proof fn lemma_benchmark_conjunction(file_name: Seq<char>, options: OptionsView)
    ensures
        options.negative_bench_regex matches Some(p) && regex_is_match(p, file_name)
            ==> !benchmark_active(file_name, options),
        options.bench_regex matches Some(p) && !regex_is_match(p, file_name) ==> !benchmark_active(
            file_name,
            options,
        ),
{
}

/// With interpreters switched off every chosen implementation is a
/// compiler, and with compilers switched off every one is an interpreter.
pub proof fn lemma_kind_toggles(
    chosen: Seq<Implementation>,
    candidates: Seq<Implementation>,
    options: OptionsView,
    platform: Platform,
)
    requires
        selection_of(chosen, candidates, implementation_filter(options, platform)),
    ensures
        options.no_interpreters ==> forall|i: int|
            0 <= i < chosen.len() ==> !(#[trigger] chosen[i]).spec_interpreted(),
        options.no_compilers ==> forall|i: int|
            0 <= i < chosen.len() ==> (#[trigger] chosen[i]).spec_interpreted(),
        forall|i: int| 0 <= i < chosen.len() ==> (#[trigger] chosen[i]).spec_enabled(platform),
{
    lemma_selection_members(chosen, candidates, implementation_filter(options, platform));
}

} // verus!
