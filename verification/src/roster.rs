//! The roster: the closed set of implementations that the harness knows.

use vstd::prelude::*;
use vstd::string::*;
use crate::acquire::{AcquireError, Found};
use crate::benchmark::{Benchmark, BenchmarkView};
use crate::bf_impl::{
    asumagic_ashbf, cwfitzgerald_bfcc, cwfitzgerald_bfcc_old, dethraid_brainfuck, gardrek_stvm,
    kotay_bffsree, lifthrasiir_esotope_bfc, rdebath_tritium, rinoldm_sbfi, wilfred_bfc,
};
use crate::bf_impl::{
    Artifact, ArtifactView, AsumagicAshbfBfImpl, BFImpl, CwfitzgeraldBfccBfImpl,
    CwfitzgeraldBfccOldBfImpl, DethraidBrainfuckBfImpl, Finder, GardrekStvmBfImpl,
    KotayBffsreeBfImpl, LifthrasiirEsotopeBfImpl, RdebathTritiumBfImpl, RdebathTritiumMode,
    RinoldmSbfiBfImpl, WilfredBfcBfImpl,
};
use crate::order::{distinct_names, Named};
use crate::platform::Platform;
use crate::process::{Step, StepView};

verus! {

/// Any one of the implementations of the roster. The harness works on
/// values of this type and never on a particular implementation.
#[derive(Clone, Copy, Debug, PartialEq, Eq)]
pub enum Implementation {
    AsumagicAshbf(AsumagicAshbfBfImpl),
    CwfitzgeraldBfcc(CwfitzgeraldBfccBfImpl),
    CwfitzgeraldBfccOld(CwfitzgeraldBfccOldBfImpl),
    DethraidBrainfuck(DethraidBrainfuckBfImpl),
    GardrekStvm(GardrekStvmBfImpl),
    KotayBffsree(KotayBffsreeBfImpl),
    LifthrasiirEsotope(LifthrasiirEsotopeBfImpl),
    RdebathTritium(RdebathTritiumBfImpl),
    RinoldmSbfi(RinoldmSbfiBfImpl),
    WilfredBfc(WilfredBfcBfImpl),
}

impl BFImpl for Implementation {
    open spec fn spec_name(&self) -> Seq<char> {
        match *self {
            Implementation::AsumagicAshbf(p) => p.spec_name(),
            Implementation::CwfitzgeraldBfcc(p) => p.spec_name(),
            Implementation::CwfitzgeraldBfccOld(p) => p.spec_name(),
            Implementation::DethraidBrainfuck(p) => p.spec_name(),
            Implementation::GardrekStvm(p) => p.spec_name(),
            Implementation::KotayBffsree(p) => p.spec_name(),
            Implementation::LifthrasiirEsotope(p) => p.spec_name(),
            Implementation::RdebathTritium(p) => p.spec_name(),
            Implementation::RinoldmSbfi(p) => p.spec_name(),
            Implementation::WilfredBfc(p) => p.spec_name(),
        }
    }

    open spec fn spec_interpreted(&self) -> bool {
        match *self {
            Implementation::AsumagicAshbf(p) => p.spec_interpreted(),
            Implementation::CwfitzgeraldBfcc(p) => p.spec_interpreted(),
            Implementation::CwfitzgeraldBfccOld(p) => p.spec_interpreted(),
            Implementation::DethraidBrainfuck(p) => p.spec_interpreted(),
            Implementation::GardrekStvm(p) => p.spec_interpreted(),
            Implementation::KotayBffsree(p) => p.spec_interpreted(),
            Implementation::LifthrasiirEsotope(p) => p.spec_interpreted(),
            Implementation::RdebathTritium(p) => p.spec_interpreted(),
            Implementation::RinoldmSbfi(p) => p.spec_interpreted(),
            Implementation::WilfredBfc(p) => p.spec_interpreted(),
        }
    }

    open spec fn spec_enabled(&self, platform: Platform) -> bool {
        match *self {
            Implementation::AsumagicAshbf(p) => p.spec_enabled(platform),
            Implementation::CwfitzgeraldBfcc(p) => p.spec_enabled(platform),
            Implementation::CwfitzgeraldBfccOld(p) => p.spec_enabled(platform),
            Implementation::DethraidBrainfuck(p) => p.spec_enabled(platform),
            Implementation::GardrekStvm(p) => p.spec_enabled(platform),
            Implementation::KotayBffsree(p) => p.spec_enabled(platform),
            Implementation::LifthrasiirEsotope(p) => p.spec_enabled(platform),
            Implementation::RdebathTritium(p) => p.spec_enabled(platform),
            Implementation::RinoldmSbfi(p) => p.spec_enabled(platform),
            Implementation::WilfredBfc(p) => p.spec_enabled(platform),
        }
    }

    open spec fn spec_artifact(&self) -> ArtifactView {
        match *self {
            Implementation::AsumagicAshbf(p) => p.spec_artifact(),
            Implementation::CwfitzgeraldBfcc(p) => p.spec_artifact(),
            Implementation::CwfitzgeraldBfccOld(p) => p.spec_artifact(),
            Implementation::DethraidBrainfuck(p) => p.spec_artifact(),
            Implementation::GardrekStvm(p) => p.spec_artifact(),
            Implementation::KotayBffsree(p) => p.spec_artifact(),
            Implementation::LifthrasiirEsotope(p) => p.spec_artifact(),
            Implementation::RdebathTritium(p) => p.spec_artifact(),
            Implementation::RinoldmSbfi(p) => p.spec_artifact(),
            Implementation::WilfredBfc(p) => p.spec_artifact(),
        }
    }

    open spec fn spec_get(&self, found: Found, platform: Platform) -> Result<
        Seq<StepView>,
        AcquireError,
    > {
        match *self {
            Implementation::AsumagicAshbf(p) => p.spec_get(found, platform),
            Implementation::CwfitzgeraldBfcc(p) => p.spec_get(found, platform),
            Implementation::CwfitzgeraldBfccOld(p) => p.spec_get(found, platform),
            Implementation::DethraidBrainfuck(p) => p.spec_get(found, platform),
            Implementation::GardrekStvm(p) => p.spec_get(found, platform),
            Implementation::KotayBffsree(p) => p.spec_get(found, platform),
            Implementation::LifthrasiirEsotope(p) => p.spec_get(found, platform),
            Implementation::RdebathTritium(p) => p.spec_get(found, platform),
            Implementation::RinoldmSbfi(p) => p.spec_get(found, platform),
            Implementation::WilfredBfc(p) => p.spec_get(found, platform),
        }
    }

    open spec fn spec_build(&self, platform: Platform) -> Seq<StepView> {
        match *self {
            Implementation::AsumagicAshbf(p) => p.spec_build(platform),
            Implementation::CwfitzgeraldBfcc(p) => p.spec_build(platform),
            Implementation::CwfitzgeraldBfccOld(p) => p.spec_build(platform),
            Implementation::DethraidBrainfuck(p) => p.spec_build(platform),
            Implementation::GardrekStvm(p) => p.spec_build(platform),
            Implementation::KotayBffsree(p) => p.spec_build(platform),
            Implementation::LifthrasiirEsotope(p) => p.spec_build(platform),
            Implementation::RdebathTritium(p) => p.spec_build(platform),
            Implementation::RinoldmSbfi(p) => p.spec_build(platform),
            Implementation::WilfredBfc(p) => p.spec_build(platform),
        }
    }

    open spec fn spec_prepare(&self, file: BenchmarkView, platform: Platform) -> Seq<StepView> {
        match *self {
            Implementation::AsumagicAshbf(p) => p.spec_prepare(file, platform),
            Implementation::CwfitzgeraldBfcc(p) => p.spec_prepare(file, platform),
            Implementation::CwfitzgeraldBfccOld(p) => p.spec_prepare(file, platform),
            Implementation::DethraidBrainfuck(p) => p.spec_prepare(file, platform),
            Implementation::GardrekStvm(p) => p.spec_prepare(file, platform),
            Implementation::KotayBffsree(p) => p.spec_prepare(file, platform),
            Implementation::LifthrasiirEsotope(p) => p.spec_prepare(file, platform),
            Implementation::RdebathTritium(p) => p.spec_prepare(file, platform),
            Implementation::RinoldmSbfi(p) => p.spec_prepare(file, platform),
            Implementation::WilfredBfc(p) => p.spec_prepare(file, platform),
        }
    }

    open spec fn spec_invoke_command(&self, file: BenchmarkView) -> Seq<char> {
        match *self {
            Implementation::AsumagicAshbf(p) => p.spec_invoke_command(file),
            Implementation::CwfitzgeraldBfcc(p) => p.spec_invoke_command(file),
            Implementation::CwfitzgeraldBfccOld(p) => p.spec_invoke_command(file),
            Implementation::DethraidBrainfuck(p) => p.spec_invoke_command(file),
            Implementation::GardrekStvm(p) => p.spec_invoke_command(file),
            Implementation::KotayBffsree(p) => p.spec_invoke_command(file),
            Implementation::LifthrasiirEsotope(p) => p.spec_invoke_command(file),
            Implementation::RdebathTritium(p) => p.spec_invoke_command(file),
            Implementation::RinoldmSbfi(p) => p.spec_invoke_command(file),
            Implementation::WilfredBfc(p) => p.spec_invoke_command(file),
        }
    }

    open spec fn spec_finder(&self) -> Finder {
        match *self {
            Implementation::AsumagicAshbf(p) => p.spec_finder(),
            Implementation::CwfitzgeraldBfcc(p) => p.spec_finder(),
            Implementation::CwfitzgeraldBfccOld(p) => p.spec_finder(),
            Implementation::DethraidBrainfuck(p) => p.spec_finder(),
            Implementation::GardrekStvm(p) => p.spec_finder(),
            Implementation::KotayBffsree(p) => p.spec_finder(),
            Implementation::LifthrasiirEsotope(p) => p.spec_finder(),
            Implementation::RdebathTritium(p) => p.spec_finder(),
            Implementation::RinoldmSbfi(p) => p.spec_finder(),
            Implementation::WilfredBfc(p) => p.spec_finder(),
        }
    }

    open spec fn spec_label(&self) -> Seq<char> {
        match *self {
            Implementation::AsumagicAshbf(p) => p.spec_label(),
            Implementation::CwfitzgeraldBfcc(p) => p.spec_label(),
            Implementation::CwfitzgeraldBfccOld(p) => p.spec_label(),
            Implementation::DethraidBrainfuck(p) => p.spec_label(),
            Implementation::GardrekStvm(p) => p.spec_label(),
            Implementation::KotayBffsree(p) => p.spec_label(),
            Implementation::LifthrasiirEsotope(p) => p.spec_label(),
            Implementation::RdebathTritium(p) => p.spec_label(),
            Implementation::RinoldmSbfi(p) => p.spec_label(),
            Implementation::WilfredBfc(p) => p.spec_label(),
        }
    }

    fn name(&self) -> (name: String) {
        match self {
            Implementation::AsumagicAshbf(p) => p.name(),
            Implementation::CwfitzgeraldBfcc(p) => p.name(),
            Implementation::CwfitzgeraldBfccOld(p) => p.name(),
            Implementation::DethraidBrainfuck(p) => p.name(),
            Implementation::GardrekStvm(p) => p.name(),
            Implementation::KotayBffsree(p) => p.name(),
            Implementation::LifthrasiirEsotope(p) => p.name(),
            Implementation::RdebathTritium(p) => p.name(),
            Implementation::RinoldmSbfi(p) => p.name(),
            Implementation::WilfredBfc(p) => p.name(),
        }
    }

    fn interpreted(&self) -> (interpreted: bool) {
        match self {
            Implementation::AsumagicAshbf(p) => p.interpreted(),
            Implementation::CwfitzgeraldBfcc(p) => p.interpreted(),
            Implementation::CwfitzgeraldBfccOld(p) => p.interpreted(),
            Implementation::DethraidBrainfuck(p) => p.interpreted(),
            Implementation::GardrekStvm(p) => p.interpreted(),
            Implementation::KotayBffsree(p) => p.interpreted(),
            Implementation::LifthrasiirEsotope(p) => p.interpreted(),
            Implementation::RdebathTritium(p) => p.interpreted(),
            Implementation::RinoldmSbfi(p) => p.interpreted(),
            Implementation::WilfredBfc(p) => p.interpreted(),
        }
    }

    fn enabled(&self, platform: Platform) -> (enabled: bool) {
        match self {
            Implementation::AsumagicAshbf(p) => p.enabled(platform),
            Implementation::CwfitzgeraldBfcc(p) => p.enabled(platform),
            Implementation::CwfitzgeraldBfccOld(p) => p.enabled(platform),
            Implementation::DethraidBrainfuck(p) => p.enabled(platform),
            Implementation::GardrekStvm(p) => p.enabled(platform),
            Implementation::KotayBffsree(p) => p.enabled(platform),
            Implementation::LifthrasiirEsotope(p) => p.enabled(platform),
            Implementation::RdebathTritium(p) => p.enabled(platform),
            Implementation::RinoldmSbfi(p) => p.enabled(platform),
            Implementation::WilfredBfc(p) => p.enabled(platform),
        }
    }

    fn artifact(&self) -> (artifact: Artifact) {
        match self {
            Implementation::AsumagicAshbf(p) => p.artifact(),
            Implementation::CwfitzgeraldBfcc(p) => p.artifact(),
            Implementation::CwfitzgeraldBfccOld(p) => p.artifact(),
            Implementation::DethraidBrainfuck(p) => p.artifact(),
            Implementation::GardrekStvm(p) => p.artifact(),
            Implementation::KotayBffsree(p) => p.artifact(),
            Implementation::LifthrasiirEsotope(p) => p.artifact(),
            Implementation::RdebathTritium(p) => p.artifact(),
            Implementation::RinoldmSbfi(p) => p.artifact(),
            Implementation::WilfredBfc(p) => p.artifact(),
        }
    }

    fn get(&self, found: Found, platform: Platform) -> (plan: Result<Vec<Step>, AcquireError>) {
        match self {
            Implementation::AsumagicAshbf(p) => p.get(found, platform),
            Implementation::CwfitzgeraldBfcc(p) => p.get(found, platform),
            Implementation::CwfitzgeraldBfccOld(p) => p.get(found, platform),
            Implementation::DethraidBrainfuck(p) => p.get(found, platform),
            Implementation::GardrekStvm(p) => p.get(found, platform),
            Implementation::KotayBffsree(p) => p.get(found, platform),
            Implementation::LifthrasiirEsotope(p) => p.get(found, platform),
            Implementation::RdebathTritium(p) => p.get(found, platform),
            Implementation::RinoldmSbfi(p) => p.get(found, platform),
            Implementation::WilfredBfc(p) => p.get(found, platform),
        }
    }

    fn build(&self, platform: Platform) -> (steps: Vec<Step>) {
        match self {
            Implementation::AsumagicAshbf(p) => p.build(platform),
            Implementation::CwfitzgeraldBfcc(p) => p.build(platform),
            Implementation::CwfitzgeraldBfccOld(p) => p.build(platform),
            Implementation::DethraidBrainfuck(p) => p.build(platform),
            Implementation::GardrekStvm(p) => p.build(platform),
            Implementation::KotayBffsree(p) => p.build(platform),
            Implementation::LifthrasiirEsotope(p) => p.build(platform),
            Implementation::RdebathTritium(p) => p.build(platform),
            Implementation::RinoldmSbfi(p) => p.build(platform),
            Implementation::WilfredBfc(p) => p.build(platform),
        }
    }

    fn prepare(&self, file: &Benchmark, platform: Platform) -> (steps: Vec<Step>) {
        match self {
            Implementation::AsumagicAshbf(p) => p.prepare(file, platform),
            Implementation::CwfitzgeraldBfcc(p) => p.prepare(file, platform),
            Implementation::CwfitzgeraldBfccOld(p) => p.prepare(file, platform),
            Implementation::DethraidBrainfuck(p) => p.prepare(file, platform),
            Implementation::GardrekStvm(p) => p.prepare(file, platform),
            Implementation::KotayBffsree(p) => p.prepare(file, platform),
            Implementation::LifthrasiirEsotope(p) => p.prepare(file, platform),
            Implementation::RdebathTritium(p) => p.prepare(file, platform),
            Implementation::RinoldmSbfi(p) => p.prepare(file, platform),
            Implementation::WilfredBfc(p) => p.prepare(file, platform),
        }
    }

    fn get_invoke_command(&self, file: &Benchmark) -> (line: String) {
        match self {
            Implementation::AsumagicAshbf(p) => p.get_invoke_command(file),
            Implementation::CwfitzgeraldBfcc(p) => p.get_invoke_command(file),
            Implementation::CwfitzgeraldBfccOld(p) => p.get_invoke_command(file),
            Implementation::DethraidBrainfuck(p) => p.get_invoke_command(file),
            Implementation::GardrekStvm(p) => p.get_invoke_command(file),
            Implementation::KotayBffsree(p) => p.get_invoke_command(file),
            Implementation::LifthrasiirEsotope(p) => p.get_invoke_command(file),
            Implementation::RdebathTritium(p) => p.get_invoke_command(file),
            Implementation::RinoldmSbfi(p) => p.get_invoke_command(file),
            Implementation::WilfredBfc(p) => p.get_invoke_command(file),
        }
    }

    fn filter_output(&self, contents: String) -> (out: String) {
        match self {
            Implementation::AsumagicAshbf(p) => p.filter_output(contents),
            Implementation::CwfitzgeraldBfcc(p) => p.filter_output(contents),
            Implementation::CwfitzgeraldBfccOld(p) => p.filter_output(contents),
            Implementation::DethraidBrainfuck(p) => p.filter_output(contents),
            Implementation::GardrekStvm(p) => p.filter_output(contents),
            Implementation::KotayBffsree(p) => p.filter_output(contents),
            Implementation::LifthrasiirEsotope(p) => p.filter_output(contents),
            Implementation::RdebathTritium(p) => p.filter_output(contents),
            Implementation::RinoldmSbfi(p) => p.filter_output(contents),
            Implementation::WilfredBfc(p) => p.filter_output(contents),
        }
    }
}

/// Every implementation of the roster, in the order of its declaration.
pub open spec fn roster_spec() -> Seq<Implementation> {
    seq![
        Implementation::AsumagicAshbf(AsumagicAshbfBfImpl),
        Implementation::CwfitzgeraldBfcc(CwfitzgeraldBfccBfImpl),
        Implementation::CwfitzgeraldBfccOld(CwfitzgeraldBfccOldBfImpl),
        Implementation::DethraidBrainfuck(DethraidBrainfuckBfImpl),
        Implementation::GardrekStvm(GardrekStvmBfImpl),
        Implementation::KotayBffsree(KotayBffsreeBfImpl),
        Implementation::LifthrasiirEsotope(LifthrasiirEsotopeBfImpl),
        Implementation::RdebathTritium(RdebathTritiumBfImpl(RdebathTritiumMode::ArrayInterpreter)),
        Implementation::RdebathTritium(RdebathTritiumBfImpl(RdebathTritiumMode::DynASM)),
        Implementation::RdebathTritium(RdebathTritiumBfImpl(RdebathTritiumMode::LightningJIT)),
        Implementation::RinoldmSbfi(RinoldmSbfiBfImpl),
        Implementation::WilfredBfc(WilfredBfcBfImpl),
    ]
}

/// Builds the roster.
pub fn roster() -> (all: Vec<Implementation>)
    ensures
        all@ == roster_spec(),
{
    let mut all: Vec<Implementation> = Vec::new();
    all.push(Implementation::AsumagicAshbf(AsumagicAshbfBfImpl));
    all.push(Implementation::CwfitzgeraldBfcc(CwfitzgeraldBfccBfImpl));
    all.push(Implementation::CwfitzgeraldBfccOld(CwfitzgeraldBfccOldBfImpl));
    all.push(Implementation::DethraidBrainfuck(DethraidBrainfuckBfImpl));
    all.push(Implementation::GardrekStvm(GardrekStvmBfImpl));
    all.push(Implementation::KotayBffsree(KotayBffsreeBfImpl));
    all.push(Implementation::LifthrasiirEsotope(LifthrasiirEsotopeBfImpl));
    all.push(
        Implementation::RdebathTritium(RdebathTritiumBfImpl(RdebathTritiumMode::ArrayInterpreter)),
    );
    all.push(Implementation::RdebathTritium(RdebathTritiumBfImpl(RdebathTritiumMode::DynASM)));
    all.push(
        Implementation::RdebathTritium(RdebathTritiumBfImpl(RdebathTritiumMode::LightningJIT)),
    );
    all.push(Implementation::RinoldmSbfi(RinoldmSbfiBfImpl));
    all.push(Implementation::WilfredBfc(WilfredBfcBfImpl));
    assert(all@ =~= roster_spec());
    all
}

/// A mark that is different for implementations of different names: the
/// length of the name, its first character, and the character at which the
/// back ends of one interpreter part.
pub open spec fn name_mark(name: Seq<char>) -> (nat, char, char) {
    (
        name.len(),
        name[0],
        if name.len() > 27 {
            name[27]
        } else {
            ' '
        },
    )
}

/// In the roster, no two implementations go by the same name.
pub proof fn lemma_roster_names_distinct()
    ensures
        distinct_names(roster_spec()),
{
    reveal_strlit("asumagic/ashbf");
    reveal_strlit("cwfitzgerald/bfcc");
    reveal_strlit("cwfitzgerald/bfcc-old");
    reveal_strlit("dethraid/brainfuck");
    reveal_strlit("gardrek/stvm");
    reveal_strlit("kotay/bffsree");
    reveal_strlit("lifthrasiir/esotope-bfc");
    reveal_strlit("rdebath/Brainfuck/tritium");
    reveal_strlit(" (");
    reveal_strlit(")");
    reveal_strlit("Array Interpreter");
    reveal_strlit("DynASM JIT");
    reveal_strlit("GNU Lightning JIT");
    reveal_strlit("rinoldm/sbfi");
    reveal_strlit("wilfried/bfc");
    let all = roster_spec();
    assert(name_mark(all[0].spec_key()) == (14nat, 'a', ' '));
    assert(name_mark(all[1].spec_key()) == (17nat, 'c', ' '));
    assert(name_mark(all[2].spec_key()) == (21nat, 'c', ' '));
    assert(name_mark(all[3].spec_key()) == (18nat, 'd', ' '));
    assert(name_mark(all[4].spec_key()) == (12nat, 'g', ' '));
    assert(name_mark(all[5].spec_key()) == (13nat, 'k', ' '));
    assert(name_mark(all[6].spec_key()) == (23nat, 'l', ' '));
    assert(name_mark(all[7].spec_key()) == (45nat, 'r', 'A'));
    assert(name_mark(all[8].spec_key()) == (38nat, 'r', 'D'));
    assert(name_mark(all[9].spec_key()) == (45nat, 'r', 'G'));
    assert(name_mark(all[10].spec_key()) == (12nat, 'r', ' '));
    assert(name_mark(all[11].spec_key()) == (12nat, 'w', ' '));
    assert forall|i: int, j: int|
        0 <= i < all.len() && 0 <= j < all.len() && (#[trigger] all[i]).spec_key() == (
        #[trigger] all[j]).spec_key() implies all[i] == all[j] by {
        assert(name_mark(all[i].spec_key()) == name_mark(all[j].spec_key()));
        assert(i == j);
    }
}

/// What the kinds of implementations mean for the stages: an interpreter
/// needs no preparing, a compiler has something to do for every benchmark,
/// and what is downloaded as a binary needs no building.
pub proof fn lemma_stages_by_kind(plugin: Implementation, file: BenchmarkView, platform: Platform)
    ensures
        plugin.spec_interpreted() ==> plugin.spec_prepare(file, platform).len() == 0,
        !plugin.spec_interpreted() ==> plugin.spec_prepare(file, platform).len() > 0,
        plugin.spec_artifact() is File ==> plugin.spec_build(platform).len() == 0,
{
}

/// Whether `step` fetches nothing: it only makes sure that a directory is
/// there, or it runs the version control tool inside the checkout `folder`
/// on something other than a clone.
pub open spec fn fetches_nothing(step: StepView, folder: Seq<char>) -> bool {
    match step {
        StepView::CreateDirAll { .. } => true,
        StepView::Run { command } => {
            &&& command.program == "git"@
            &&& command.current_dir == Some(folder)
            &&& command.args.len() > 0
            &&& command.args[0] != "clone"@
        },
        _ => false,
    }
}

/// Fetching is safe to repeat: for an implementation that is there, a plan
/// is made, and no step of it clones or downloads anything, on any platform.
pub proof fn lemma_fetching_again_keeps_what_is_there(plugin: Implementation, platform: Platform)
    ensures
        plugin.spec_get(Found::Directory, platform) matches Ok(steps) && forall|i: int|
            0 <= i < steps.len() ==> fetches_nothing(
                #[trigger] steps[i],
                match plugin.spec_artifact() {
                    ArtifactView::Directory { path } => path,
                    ArtifactView::File { path } => path,
                },
            ),
{
    reveal_strlit("clone");
    reveal_strlit("pull");
    reveal_strlit("checkout");
    assert("pull"@.len() != "clone"@.len());
    assert("checkout"@.len() != "clone"@.len());
}

/// Fetching never writes over what it does not know: where the place of a
/// checkout is taken by something that is no directory, no plan is made;
/// and wherever nothing is in the way, one is.
pub proof fn lemma_fetching_refuses_what_is_no_checkout(
    plugin: Implementation,
    found: Found,
    platform: Platform,
)
    ensures
        plugin.spec_get(found, platform) is Err <==> plugin.spec_artifact() is Directory && found
            == Found::Other,
{
}

/// Preparing leaves nothing behind but the executable: the plan of a
/// compiler starts by making a scratch folder and ends by removing that
/// folder.
pub proof fn lemma_preparing_cleans_up(
    plugin: Implementation,
    file: BenchmarkView,
    platform: Platform,
)
    requires
        !plugin.spec_interpreted(),
    ensures
        plugin.spec_prepare(file, platform).len() >= 2,
        plugin.spec_prepare(file, platform).first() matches StepView::CreateDirAll { path }
            && plugin.spec_prepare(file, platform).last() == (StepView::RemoveDirAll { path }),
{
}

/// The text that every command line of `plugin` begins with, and by which
/// the command line is found in a report.
pub open spec fn command_prefix(plugin: Implementation) -> Seq<char> {
    match plugin {
        Implementation::AsumagicAshbf(_) => asumagic_ashbf::RESULT_EXE@,
        Implementation::CwfitzgeraldBfcc(_) => cwfitzgerald_bfcc::RESULT_EXE@,
        Implementation::CwfitzgeraldBfccOld(_) => cwfitzgerald_bfcc_old::RESULT_EXE@,
        Implementation::DethraidBrainfuck(_) => dethraid_brainfuck::RESULT_EXE@,
        Implementation::GardrekStvm(_) => gardrek_stvm::RESULT_EXE@,
        Implementation::KotayBffsree(_) => kotay_bffsree::RESULT_EXE@,
        Implementation::LifthrasiirEsotope(_) => lifthrasiir_esotope_bfc::RESULT_EXE@,
        Implementation::RdebathTritium(p) => rdebath_tritium::RESULT_EXE@ + " "@
            + p.0.spec_flag(),
        Implementation::RinoldmSbfi(_) => rinoldm_sbfi::RESULT_EXE@,
        Implementation::WilfredBfc(_) => wilfred_bfc::RESULT_EXE@,
    }
}

/// Every command line of an implementation begins with its prefix.
pub proof fn lemma_command_begins_with_prefix(plugin: Implementation, file: BenchmarkView)
    ensures
        command_prefix(plugin).is_prefix_of(plugin.spec_invoke_command(file)),
{
    reveal_strlit("");
    reveal_strlit("-i");
    reveal_strlit("--bf");
    reveal_strlit("-r");
    reveal_strlit("-q");
    reveal_strlit("-j");
    let prefix = command_prefix(plugin);
    let line = plugin.spec_invoke_command(file);
    assert(prefix.len() <= line.len());
    assert(prefix =~= line.subrange(0, prefix.len() as int));
}

/// The rewriting of reports needs no order among the implementations of the
/// roster. Where the commands of two implementations begin alike, the one
/// with the longer command has to rewrite first, lest the other take its
/// rows; in the roster the case does not arise: no command line of one
/// implementation begins with the prefix of another.
pub proof fn lemma_roster_commands_apart(i: int, j: int, file: BenchmarkView)
    requires
        0 <= i < roster_spec().len(),
        0 <= j < roster_spec().len(),
        i != j,
    ensures
        !command_prefix(roster_spec()[i]).is_prefix_of(roster_spec()[j].spec_invoke_command(file)),
{
    reveal_strlit("build/out/asumagic/ashbf/ashbf");
    reveal_strlit("build/src/cwfitzgerald/bfcc/bfcc");
    reveal_strlit("build/src/cwfitzgerald/bfcc-old/bfcc");
    reveal_strlit("build/src/dethraid/brainfuck/bin/Release/bf");
    reveal_strlit("build/src/gardrek/stvm/target/release/main");
    reveal_strlit("build/out/kotay/bffsree/bffsree");
    reveal_strlit("build/out/lifthrasiir/esotope-bfc/esotope_bfc");
    reveal_strlit("build/src/rdebath/brainfuck/tritium/bfi.out");
    reveal_strlit("build/out/rinoldm/sbfi/sbfi");
    reveal_strlit("build/out/wilfred_bfc.out");
    reveal_strlit(" ");
    reveal_strlit("-r");
    reveal_strlit("-q");
    reveal_strlit("-j");
    let all = roster_spec();
    let mine = command_prefix(all[i]);
    let other = command_prefix(all[j]);
    let line = all[j].spec_invoke_command(file);
    lemma_command_begins_with_prefix(all[j], file);
    // The position at which the two prefixes part.
    let at: int = if mine[10] != other[10] {
        10
    } else if mine[11] != other[11] {
        11
    } else if mine.len() < 46 {
        27
    } else {
        45
    };
    assert(at < mine.len() && at < other.len() && mine[at] != other[at]);
    assert(line[at] == other[at]) by {
        assert(other =~= line.subrange(0, other.len() as int));
        assert(line.subrange(0, other.len() as int)[at] == line[at]);
    }
    if mine.is_prefix_of(line) {
        assert(mine =~= line.subrange(0, mine.len() as int));
        assert(line.subrange(0, mine.len() as int)[at] == line[at]);
    }
}

} // verus!
