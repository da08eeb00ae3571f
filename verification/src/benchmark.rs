//! Benchmark inputs: the programs that every implementation is timed on.

use vstd::prelude::*;
use vstd::string::*;
use crate::text::{from_chars, to_chars};

verus! {

/// One benchmark input: a file of the input directory.
#[derive(Clone, Debug, PartialEq, Eq)]
pub struct Benchmark {
    /// The file's name inside the input directory, such as `mandelbrot.bf`.
    pub file_name: String,
    /// The file's full path, as handed to the implementations.
    pub path: String,
}

/// What a [`Benchmark`] stands for.
pub struct BenchmarkView {
    pub file_name: Seq<char>,
    pub path: Seq<char>,
}

impl DeepView for Benchmark {
    type V = BenchmarkView;

    open spec fn deep_view(&self) -> BenchmarkView {
        BenchmarkView { file_name: self.file_name@, path: self.path@ }
    }
}

impl View for Benchmark {
    type V = BenchmarkView;

    open spec fn view(&self) -> BenchmarkView {
        self.deep_view()
    }
}

/// The position of the last `.` in `name`, or -1 if there is none.
pub open spec fn last_dot(name: Seq<char>) -> int
    decreases name.len(),
{
    if name.len() == 0 {
        -1
    } else if name.last() == '.' {
        name.len() - 1
    } else {
        last_dot(name.drop_last())
    }
}

/// The stem of a file name: the whole name if it holds no `.` or only a
/// leading one, otherwise what stands before the last `.`.
pub open spec fn file_stem_spec(name: Seq<char>) -> Seq<char> {
    if last_dot(name) <= 0 {
        name
    } else {
        name.take(last_dot(name))
    }
}

/// `last_dot` finds a `.`, and none stands after it.
pub proof fn lemma_last_dot(name: Seq<char>)
    ensures
        -1 <= last_dot(name) < name.len(),
        last_dot(name) >= 0 ==> name[last_dot(name)] == '.',
        forall|i: int| last_dot(name) < i < name.len() ==> name[i] != '.',
    decreases name.len(),
{
    if name.len() > 0 && name.last() != '.' {
        lemma_last_dot(name.drop_last());
        assert forall|i: int| last_dot(name) < i < name.len() implies name[i] != '.' by {
            if i < name.len() - 1 {
                assert(name.drop_last()[i] == name[i]);
            }
        }
    }
}

/// The stem of the file name `name`.
pub fn file_stem(name: &str) -> (stem: String)
    ensures
        stem@ == file_stem_spec(name@),
{
    let chars = to_chars(name);
    let mut i: usize = chars.len();
    assert(name@.take(i as int) =~= name@);
    while i > 0 && chars[i - 1] != '.'
        invariant
            i <= chars.len(),
            chars@ == name@,
            last_dot(name@) == last_dot(name@.take(i as int)),
        decreases i,
    {
        assert(name@.take(i as int).drop_last() =~= name@.take(i - 1));
        i -= 1;
    }
    if i <= 1 {
        assert(last_dot(name@) <= 0) by {
            if i == 1 {
                assert(name@.take(1).last() == '.');
            }
        }
        String::from_str(name)
    } else {
        assert(name@.take(i as int).last() == '.');
        from_chars(&chars, 0, i - 1)
    }
}

impl Benchmark {
    /// A second copy of the benchmark.
    pub fn duplicate(&self) -> (copy: Benchmark)
        ensures
            copy == *self,
    {
        Benchmark { file_name: self.file_name.clone(), path: self.path.clone() }
    }

    /// The stem of the benchmark's file name, which names its report.
    pub fn file_stem(&self) -> (stem: String)
        ensures
            stem@ == file_stem_spec(self.file_name@),
    {
        file_stem(self.file_name.as_str())
    }
}

} // verus!
