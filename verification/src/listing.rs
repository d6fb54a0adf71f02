//! The listing of method names that the server reports of itself: every
//! name once, in ascending order.

use vstd::prelude::*;
use vstd::seq_lib::to_multiset_remove;
use crate::order::{
    comes_first, lemma_bytes_le_total, lemma_bytes_le_transitive, lemma_text_le_antisymmetric,
    strictly_ascending, text_le,
};
use crate::text::strs;
use vstd::utf8::encode_utf8;

verus! {

/// Whether no text of `list` comes after a later one.
pub open spec fn ascending(list: Seq<Seq<char>>) -> bool {
    forall|i: int, j: int|
        0 <= i < j < list.len() ==> text_le(#[trigger] list[i], #[trigger] list[j])
}

/// Whether `listing` is the listing of the names in `names`: it holds
/// exactly those names, each once, in strictly ascending order.
pub open spec fn is_listing_of(listing: Seq<Seq<char>>, names: Set<Seq<char>>) -> bool {
    &&& strictly_ascending(listing)
    &&& listing.to_set() == names
}

/// Inserting one element adds it to the multiset of the elements.
proof fn lemma_insert_to_multiset(list: Seq<Seq<char>>, at: int, text: Seq<char>)
    requires
        0 <= at <= list.len(),
    ensures
        list.insert(at, text).to_multiset() == list.to_multiset().insert(text),
{
    let longer = list.insert(at, text);
    assert(longer.remove(at) =~= list);
    assert(longer[at] == text);
    to_multiset_remove(longer, at);
    longer.to_multiset_ensures();
    assert(longer.contains(text));
    assert(longer.to_multiset() =~= list.to_multiset().insert(text));
}

/// Sorts names into ascending order, keeping each as often as it occurs.
pub fn sort_names(names: Vec<&'static str>) -> (sorted: Vec<&'static str>)
    ensures
        ascending(strs(sorted@)),
        strs(sorted@).to_multiset() == strs(names@).to_multiset(),
{
    let mut sorted: Vec<&'static str> = Vec::new();
    let mut i: usize = 0;
    assert(strs(sorted@) =~= strs(names@.take(0)));
    while i < names.len()
        invariant
            i <= names.len(),
            ascending(strs(sorted@)),
            strs(sorted@).to_multiset() == strs(names@.take(i as int)).to_multiset(),
        decreases names.len() - i,
    {
        let name = names[i];
        let mut at: usize = 0;
        while at < sorted.len() && !comes_first(name, sorted[at])
            invariant
                at <= sorted.len(),
                forall|k: int| 0 <= k < at ==> text_le(#[trigger] strs(sorted@)[k], name@),
            decreases sorted.len() - at,
        {
            proof {
                lemma_bytes_le_total(encode_utf8(name@), encode_utf8(sorted@[at as int]@));
                assert(strs(sorted@)[at as int] == sorted@[at as int]@);
            }
            at += 1;
        }
        let ghost before = strs(sorted@);
        sorted.insert(at, name);
        proof {
            let after = strs(sorted@);
            assert(after =~= before.insert(at as int, name@));
            lemma_insert_to_multiset(before, at as int, name@);
            let taken = strs(names@.take(i as int));
            assert(strs(names@.take(i + 1)) =~= taken.push(name@));
            taken.to_multiset_ensures();
            assert forall|a: int, b: int| 0 <= a < b < after.len() implies text_le(
                #[trigger] after[a],
                #[trigger] after[b],
            ) by {
                if b < at {
                    assert(after[a] == before[a] && after[b] == before[b]);
                } else if b == at {
                    assert(after[a] == before[a]);
                } else if a == at {
                    assert(after[b] == before[b - 1]);
                    assert(text_le(name@, before[at as int]));
                    if b - 1 > at {
                        lemma_bytes_le_transitive(
                            encode_utf8(name@),
                            encode_utf8(before[at as int]),
                            encode_utf8(before[b - 1]),
                        );
                    }
                } else if a > at {
                    assert(after[a] == before[a - 1] && after[b] == before[b - 1]);
                } else {
                    assert(after[a] == before[a] && after[b] == before[b - 1]);
                }
            }
        }
        i += 1;
    }
    assert(names@.take(i as int) =~= names@);
    sorted
}

/// An ascending arrangement of distinct names is their listing.
pub proof fn lemma_sorted_names_are_listing(names: Seq<Seq<char>>, sorted: Seq<Seq<char>>)
    requires
        names.no_duplicates(),
        ascending(sorted),
        sorted.to_multiset() == names.to_multiset(),
    ensures
        is_listing_of(sorted, names.to_set()),
{
    names.to_multiset_ensures();
    sorted.to_multiset_ensures();
    names.lemma_multiset_has_no_duplicates();
    sorted.lemma_multiset_has_no_duplicates_conv();
    assert forall|name: Seq<char>| sorted.contains(name) == names.contains(name) by {
        assert(sorted.contains(name) == (sorted.to_multiset().count(name) > 0));
        assert(names.contains(name) == (names.to_multiset().count(name) > 0));
    }
    assert(sorted.to_set() =~= names.to_set());
}

/// A set of names has one listing only: in whatever order the names were
/// registered, the listing is the same.
pub proof fn lemma_listing_unique(first: Seq<Seq<char>>, second: Seq<Seq<char>>, names: Set<Seq<char>>)
    requires
        is_listing_of(first, names),
        is_listing_of(second, names),
    ensures
        first == second,
    decreases first.len(),
{
    if first.len() == 0 {
        if second.len() > 0 {
            assert(second.contains(second[0]));
            assert(first.to_set().contains(second[0]));
        }
        assert(first =~= second);
    } else {
        assert(first.contains(first[0]));
        assert(second.to_set().contains(first[0]));
        let k = choose|k: int| 0 <= k < second.len() && second[k] == first[0];
        assert(second.contains(second[0]));
        assert(first.to_set().contains(second[0]));
        let m = choose|m: int| 0 <= m < first.len() && first[m] == second[0];
        if k > 0 && m > 0 {
            lemma_text_le_antisymmetric(first[0], second[0]);
        }
        assert(first[0] == second[0]);
        let rest = names.remove(first[0]);
        assert forall|name: Seq<char>| first.drop_first().to_set().contains(name) == rest.contains(
            name,
        ) by {
            if first.drop_first().contains(name) {
                let at = choose|at: int|
                    0 <= at < first.drop_first().len() && first.drop_first()[at] == name;
                assert(first[at + 1] == name);
                assert(first.contains(name));
            }
            if rest.contains(name) {
                assert(first.to_set().contains(name));
                let at = choose|at: int| 0 <= at < first.len() && first[at] == name;
                assert(first.drop_first()[at - 1] == name);
            }
        }
        assert forall|name: Seq<char>| second.drop_first().to_set().contains(name)
            == rest.contains(name) by {
            if second.drop_first().contains(name) {
                let at = choose|at: int|
                    0 <= at < second.drop_first().len() && second.drop_first()[at] == name;
                assert(second[at + 1] == name);
                assert(second.contains(name));
            }
            if rest.contains(name) {
                assert(second.to_set().contains(name));
                let at = choose|at: int| 0 <= at < second.len() && second[at] == name;
                assert(second.drop_first()[at - 1] == name);
            }
        }
        assert(first.drop_first().to_set() =~= rest);
        assert(second.drop_first().to_set() =~= rest);
        assert(strictly_ascending(first.drop_first())) by {
            assert forall|i: int, j: int| 0 <= i < j < first.drop_first().len() implies text_le(
                #[trigger] first.drop_first()[i],
                #[trigger] first.drop_first()[j],
            ) && first.drop_first()[i] != first.drop_first()[j] by {
                assert(first.drop_first()[i] == first[i + 1]);
                assert(first.drop_first()[j] == first[j + 1]);
            }
        }
        assert(strictly_ascending(second.drop_first())) by {
            assert forall|i: int, j: int| 0 <= i < j < second.drop_first().len() implies text_le(
                #[trigger] second.drop_first()[i],
                #[trigger] second.drop_first()[j],
            ) && second.drop_first()[i] != second.drop_first()[j] by {
                assert(second.drop_first()[i] == second[i + 1]);
                assert(second.drop_first()[j] == second[j + 1]);
            }
        }
        lemma_listing_unique(first.drop_first(), second.drop_first(), rest);
        assert(first =~= seq![first[0]] + first.drop_first());
        assert(second =~= seq![second[0]] + second.drop_first());
    }
}

} // verus!
