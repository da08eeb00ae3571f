//! Ordering by name: the run order of implementations and benchmarks.

use vstd::prelude::*;
use vstd::multiset::Multiset;
use vstd::string::*;
use crate::benchmark::Benchmark;
use crate::bf_impl::BFImpl;
use crate::roster::Implementation;
use crate::text::{
    lemma_name_le_antisymmetric, lemma_name_le_reflexive, lemma_name_le_total,
    lemma_name_le_transitive, name_le, str_le,
};

verus! {

/// Something that is listed under a name.
pub trait Named {
    /// The name under which the item is listed.
    spec fn spec_key(&self) -> Seq<char>;

    /// The name under which the item is listed.
    fn key(&self) -> (key: String)
        ensures
            key@ == self.spec_key(),
    ;
}

impl Named for Implementation {
    open spec fn spec_key(&self) -> Seq<char> {
        self.spec_name()
    }

    fn key(&self) -> (key: String) {
        self.name()
    }
}

impl Named for Benchmark {
    open spec fn spec_key(&self) -> Seq<char> {
        self.file_name@
    }

    fn key(&self) -> (key: String) {
        self.file_name.clone()
    }
}

/// The names of `items`, in the order of the items.
pub open spec fn names<T: Named>(items: Seq<T>) -> Seq<Seq<char>> {
    items.map_values(|item: T| item.spec_key())
}

/// Whether `names` ascend: none is listed before one that it should follow.
pub open spec fn ascending(names: Seq<Seq<char>>) -> bool {
    forall|i: int, j: int|
        0 <= i < j < names.len() ==> name_le(#[trigger] names[i], #[trigger] names[j])
}

/// Whether `items` stand in the order of their names.
pub open spec fn sorted_by_name<T: Named>(items: Seq<T>) -> bool {
    ascending(names(items))
}

/// Sorts `items` by name, ascending.
pub fn sort_by_name<T: Named>(items: Vec<T>) -> (sorted: Vec<T>)
    ensures
        sorted_by_name(sorted@),
        sorted@.to_multiset() == items@.to_multiset(),
{
    broadcast use vstd::seq_lib::group_to_multiset_ensures;

    let mut rest = items;
    let mut sorted: Vec<T> = Vec::new();
    assert(sorted@.to_multiset().add(rest@.to_multiset()) =~= items@.to_multiset());
    while rest.len() > 0
        invariant
            sorted_by_name(sorted@),
            sorted@.to_multiset().add(rest@.to_multiset()) == items@.to_multiset(),
        decreases rest.len(),
    {
        let ghost before = rest@;
        let item = rest.pop().unwrap();
        assert(before =~= rest@.push(item));
        let key = item.key();
        let mut at: usize = 0;
        while at < sorted.len()
            invariant
                at <= sorted.len(),
                key@ == item.spec_key(),
                sorted_by_name(sorted@),
                forall|k: int| 0 <= k < at ==> name_le(#[trigger] names(sorted@)[k], key@),
            ensures
                at <= sorted.len(),
                forall|k: int| 0 <= k < at ==> name_le(#[trigger] names(sorted@)[k], key@),
                forall|k: int|
                    at <= k < sorted.len() ==> name_le(key@, #[trigger] names(sorted@)[k]),
            decreases sorted.len() - at,
        {
            let other = sorted[at].key();
            if !str_le(other.as_str(), key.as_str()) {
                assert forall|k: int| at <= k < sorted.len() implies name_le(
                    key@,
                    #[trigger] names(sorted@)[k],
                ) by {
                    lemma_name_le_total(other@, key@);
                    lemma_name_le_reflexive(other@);
                    assert(name_le(names(sorted@)[at as int], names(sorted@)[k])) by {
                        if k > at {
                        }
                    }
                    lemma_name_le_transitive(key@, other@, names(sorted@)[k]);
                }
                break;
            }
            at += 1;
        }
        let ghost old_sorted = sorted@;
        sorted.insert(at, item);
        assert(sorted_by_name(sorted@)) by {
            let new_names = names(sorted@);
            let old_names = names(old_sorted);
            assert forall|i: int, j: int| 0 <= i < j < new_names.len() implies name_le(
                #[trigger] new_names[i],
                #[trigger] new_names[j],
            ) by {
                let oi = if i < at { i } else { i - 1 };
                let oj = if j < at { j } else { j - 1 };
                if i != at {
                    assert(new_names[i] == old_names[oi]);
                }
                if j != at {
                    assert(new_names[j] == old_names[oj]);
                }
            }
        }
        proof {
            vstd::seq_lib::to_multiset_insert(old_sorted, at as int, item);
            vstd::seq_lib::to_multiset_build(rest@, item);
            assert(sorted@ == old_sorted.insert(at as int, item));
            assert(sorted@.to_multiset().add(rest@.to_multiset()) =~= old_sorted.to_multiset().add(
                before.to_multiset(),
            ));
        }
    }
    assert(rest@.to_multiset() =~= Multiset::<T>::empty());
    assert(sorted@.to_multiset().add(rest@.to_multiset()) =~= sorted@.to_multiset());
    sorted
}

/// In a multiset of names, a listing in ascending order is unique: two
/// ascending sequences with the same members are the same sequence.
pub proof fn lemma_ascending_unique(a: Seq<Seq<char>>, b: Seq<Seq<char>>)
    requires
        ascending(a),
        ascending(b),
        a.to_multiset() == b.to_multiset(),
    ensures
        a == b,
{
    let leq = |x: Seq<char>, y: Seq<char>| name_le(x, y);
    assert(vstd::relations::reflexive(leq)) by {
        assert forall|x: Seq<char>| #[trigger] leq(x, x) by {
            lemma_name_le_reflexive(x);
        }
    }
    assert(vstd::relations::antisymmetric(leq)) by {
        assert forall|x: Seq<char>, y: Seq<char>|
            #[trigger] leq(x, y) && #[trigger] leq(y, x) implies x == y by {
            lemma_name_le_antisymmetric(x, y);
        }
    }
    assert(vstd::relations::transitive(leq)) by {
        assert forall|x: Seq<char>, y: Seq<char>, z: Seq<char>|
            #[trigger] leq(x, y) && #[trigger] leq(y, z) implies leq(x, z) by {
            lemma_name_le_transitive(x, y, z);
        }
    }
    assert(vstd::relations::strongly_connected(leq)) by {
        assert forall|x: Seq<char>, y: Seq<char>| #[trigger] leq(x, y) || #[trigger] leq(y, x) by {
            lemma_name_le_total(x, y);
        }
    }
    assert(vstd::relations::sorted_by(a, leq)) by {
        assert forall|i: int, j: int| 0 <= i < j < a.len() implies #[trigger] leq(a[i], a[j]) by {
            assert(name_le(a[i], a[j]));
        }
    }
    assert(vstd::relations::sorted_by(b, leq)) by {
        assert forall|i: int, j: int| 0 <= i < j < b.len() implies #[trigger] leq(b[i], b[j]) by {
            assert(name_le(b[i], b[j]));
        }
    }
    vstd::seq_lib::lemma_sorted_unique(a, b, leq);
}

/// Two sequences with the same members have the same members after each
/// member is replaced by its image under `f`.
pub proof fn lemma_map_of_permutation<A, B>(a: Seq<A>, b: Seq<A>, f: spec_fn(A) -> B)
    requires
        a.to_multiset() == b.to_multiset(),
    ensures
        a.map_values(f).to_multiset() == b.map_values(f).to_multiset(),
    decreases a.len(),
{
    broadcast use vstd::seq_lib::group_to_multiset_ensures;

    if a.len() == 0 {
        assert(a.to_multiset().len() == a.len());
        assert(b.to_multiset().len() == b.len());
        assert(a.map_values(f) =~= b.map_values(f));
    } else {
        let x = a.last();
        let rest = a.drop_last();
        assert(a =~= rest.push(x));
        assert(b.to_multiset().count(x) > 0);
        assert(b.contains(x));
        let j = choose|j: int| 0 <= j < b.len() && b[j] == x;
        let others = b.remove(j);
        vstd::seq_lib::to_multiset_remove(b, j);
        assert(rest.to_multiset() =~= others.to_multiset());
        lemma_map_of_permutation(rest, others, f);
        assert(a.map_values(f) =~= rest.map_values(f).push(f(x)));
        assert(b.map_values(f) =~= others.map_values(f).insert(j, f(x)));
        vstd::seq_lib::to_multiset_insert(others.map_values(f), j, f(x));
    }
}

/// What is kept of a sequence by a filter has the members of the sequence
/// that pass the filter, each as often as the sequence has it.
pub proof fn lemma_filter_members<A>(a: Seq<A>, keep: spec_fn(A) -> bool)
    ensures
        a.filter(keep).to_multiset() == a.to_multiset().filter(keep),
    decreases a.len(),
{
    broadcast use vstd::seq_lib::group_to_multiset_ensures;
    broadcast use vstd::multiset::group_multiset_axioms;

    if a.len() == 0 {
        assert(a.filter(keep) =~= Seq::<A>::empty()) by {
            reveal(Seq::filter);
        }
        assert(a.filter(keep).to_multiset() =~= a.to_multiset().filter(keep));
    } else {
        let x = a.last();
        let rest = a.drop_last();
        assert(a =~= rest.push(x));
        lemma_filter_members(rest, keep);
        rest.lemma_filter_push(x, keep);
        assert(a.filter(keep).to_multiset() =~= a.to_multiset().filter(keep));
    }
}

/// Two sequences with the same members keep the same members under a
/// filter.
pub proof fn lemma_filter_of_permutation<A>(a: Seq<A>, b: Seq<A>, keep: spec_fn(A) -> bool)
    requires
        a.to_multiset() == b.to_multiset(),
    ensures
        a.filter(keep).to_multiset() == b.filter(keep).to_multiset(),
{
    lemma_filter_members(a, keep);
    lemma_filter_members(b, keep);
}

/// The order by name leaves no choice: two listings of the same items, each
/// sorted by name, show the same names at every position.
pub proof fn lemma_sorted_names_unique<T: Named>(a: Seq<T>, b: Seq<T>)
    requires
        sorted_by_name(a),
        sorted_by_name(b),
        a.to_multiset() == b.to_multiset(),
    ensures
        names(a) == names(b),
{
    lemma_map_of_permutation(a, b, |item: T| item.spec_key());
    lemma_ascending_unique(names(a), names(b));
}

/// Whether no two different items of `items` go by the same name.
pub open spec fn distinct_names<T: Named>(items: Seq<T>) -> bool {
    forall|i: int, j: int|
        0 <= i < items.len() && 0 <= j < items.len() && (#[trigger] items[i]).spec_key() == (
        #[trigger] items[j]).spec_key() ==> items[i] == items[j]
}

/// Where names tell items apart, two listings of the same items, each sorted
/// by name, are the same listing.
pub proof fn lemma_sorted_unique<T: Named>(a: Seq<T>, b: Seq<T>)
    requires
        sorted_by_name(a),
        sorted_by_name(b),
        a.to_multiset() == b.to_multiset(),
        distinct_names(a),
    ensures
        a == b,
{
    broadcast use vstd::seq_lib::group_to_multiset_ensures;

    lemma_sorted_names_unique(a, b);
    assert(a.len() == b.len()) by {
        assert(names(a).len() == names(b).len());
    }
    assert forall|i: int| 0 <= i < a.len() implies a[i] == b[i] by {
        assert(b.contains(b[i]));
        assert(a.to_multiset().count(b[i]) > 0);
        assert(a.contains(b[i]));
        let k = choose|k: int| 0 <= k < a.len() && a[k] == b[i];
        assert(names(a)[i] == names(b)[i]);
        assert(a[k].spec_key() == a[i].spec_key());
    }
    assert(a =~= b);
}

} // verus!
