//! The order of strings, and sorting by it.

use vstd::prelude::*;
use vstd::relations::{sorted_by, total_ordering};
use vstd::seq_lib::lemma_sorted_unique;
use crate::text::chars_of;

verus! {

/// `a` comes before `b`, or is `b`, in the order of strings: character by
/// character, a proper prefix first.
pub open spec fn text_le(a: Seq<char>, b: Seq<char>) -> bool
    decreases a.len(),
{
    if a.len() == 0 {
        true
    } else if b.len() == 0 {
        false
    } else if a[0] != b[0] {
        a[0] < b[0]
    } else {
        text_le(a.drop_first(), b.drop_first())
    }
}

/// `text_le` as a relation.
pub open spec fn text_order() -> spec_fn(Seq<char>, Seq<char>) -> bool {
    |a: Seq<char>, b: Seq<char>| text_le(a, b)
}

/// Every text is at or before itself.
pub proof fn lemma_text_le_reflexive(a: Seq<char>)
    ensures
        text_le(a, a),
    decreases a.len(),
{
    if a.len() > 0 {
        lemma_text_le_reflexive(a.drop_first());
    }
}

/// Two texts that are each at or before the other are the same text.
pub proof fn lemma_text_le_antisymmetric(a: Seq<char>, b: Seq<char>)
    requires
        text_le(a, b),
        text_le(b, a),
    ensures
        a == b,
    decreases a.len(),
{
    if a.len() == 0 || b.len() == 0 {
        assert(a =~= b);
    } else {
        lemma_text_le_antisymmetric(a.drop_first(), b.drop_first());
        assert(a =~= seq![a[0]] + a.drop_first());
        assert(b =~= seq![b[0]] + b.drop_first());
    }
}

/// The order passes along a chain.
pub proof fn lemma_text_le_transitive(a: Seq<char>, b: Seq<char>, c: Seq<char>)
    requires
        text_le(a, b),
        text_le(b, c),
    ensures
        text_le(a, c),
    decreases a.len(),
{
    if a.len() > 0 && b.len() > 0 && c.len() > 0 {
        if a[0] == b[0] && b[0] == c[0] {
            lemma_text_le_transitive(a.drop_first(), b.drop_first(), c.drop_first());
        }
    }
}

/// Of two texts, one is at or before the other.
pub proof fn lemma_text_le_connected(a: Seq<char>, b: Seq<char>)
    ensures
        text_le(a, b) || text_le(b, a),
    decreases a.len(),
{
    if a.len() > 0 && b.len() > 0 && a[0] == b[0] {
        lemma_text_le_connected(a.drop_first(), b.drop_first());
    }
}

/// The order of strings is a total order.
pub proof fn lemma_text_order_total()
    ensures
        total_ordering(text_order()),
{
    let r = text_order();
    assert forall|x: Seq<char>| #[trigger] r(x, x) by {
        lemma_text_le_reflexive(x);
    }
    assert forall|x: Seq<char>, y: Seq<char>| #[trigger] r(x, y) && #[trigger] r(y, x) implies x
        == y by {
        lemma_text_le_antisymmetric(x, y);
    }
    assert forall|x: Seq<char>, y: Seq<char>, z: Seq<char>| #[trigger]
        r(x, y) && #[trigger] r(y, z) implies r(x, z) by {
        lemma_text_le_transitive(x, y, z);
    }
    assert forall|x: Seq<char>, y: Seq<char>| #[trigger] r(x, y) || #[trigger] r(y, x) by {
        lemma_text_le_connected(x, y);
    }
}

/// The texts in ascending order.
pub open spec fn sorted_texts(items: Seq<Seq<char>>) -> Seq<Seq<char>> {
    items.sort_by(text_order())
}

/// Lists that hold the same texts, each as often, sort to the same list.
pub proof fn lemma_sorted_texts_of_permutation(a: Seq<Seq<char>>, b: Seq<Seq<char>>)
    requires
        a.to_multiset() == b.to_multiset(),
    ensures
        sorted_texts(a) == sorted_texts(b),
{
    lemma_text_order_total();
    a.lemma_sort_by_ensures(text_order());
    b.lemma_sort_by_ensures(text_order());
    lemma_sorted_unique(sorted_texts(a), sorted_texts(b), text_order());
}

/// Whether `a` comes at or before `b` in the order of strings.
pub fn str_le(a: &str, b: &str) -> (le: bool)
    ensures
        le == text_le(a@, b@),
{
    let x = chars_of(a);
    let y = chars_of(b);
    let mut i: usize = 0;
    assert(x@.skip(0) =~= x@ && y@.skip(0) =~= y@);
    while i < x.len() && i < y.len()
        invariant
            i <= x.len(),
            i <= y.len(),
            x@ == a@,
            y@ == b@,
            text_le(x@, y@) == text_le(x@.skip(i as int), y@.skip(i as int)),
        decreases x.len() - i,
    {
        let ghost xs = x@.skip(i as int);
        let ghost ys = y@.skip(i as int);
        assert(xs[0] == x@[i as int] && ys[0] == y@[i as int]);
        assert(xs.drop_first() =~= x@.skip(i + 1));
        assert(ys.drop_first() =~= y@.skip(i + 1));
        if x[i] != y[i] {
            return x[i] < y[i];
        }
        i += 1;
    }
    x.len() <= y.len()
}

/// A list in ascending order stays in ascending order where a text is put
/// in behind the texts that come at or before it and before the first that
/// does not.
proof fn lemma_insert_keeps_order(list: Seq<Seq<char>>, at: int, text: Seq<char>)
    requires
        sorted_by(list, text_order()),
        0 <= at <= list.len(),
        forall|j: int| 0 <= j < at ==> text_le(#[trigger] list[j], text),
        at < list.len() ==> !text_le(list[at], text),
    ensures
        sorted_by(list.insert(at, text), text_order()),
{
    let order = text_order();
    let after = list.insert(at, text);
    assert forall|i: int, j: int| 0 <= i < j < after.len() implies #[trigger] order(
        after[i],
        after[j],
    ) by {
        if j == at {
            assert(after[i] == list[i]);
        } else if i == at {
            assert(after[j] == list[j - 1]);
            lemma_text_le_connected(list[at], text);
            if j - 1 > at {
                assert(order(list[at], list[j - 1]));
            } else {
                lemma_text_le_reflexive(list[at]);
            }
            assert(text_le(list[at], list[j - 1]));
            lemma_text_le_transitive(text, list[at], list[j - 1]);
        } else {
            let a = if i < at { i } else { i - 1 };
            let b = if j < at { j } else { j - 1 };
            assert(after[i] == list[a] && after[j] == list[b]);
            assert(order(list[a], list[b]));
        }
    }
}

/// Sorts strings in ascending order: each string is taken from the list
/// and put in its place among those that were taken before.
pub fn sort_strings(items: &mut Vec<String>)
    ensures
        final(items).deep_view() == sorted_texts(old(items).deep_view()),
{
    let ghost before = items.deep_view();
    let mut sorted: Vec<String> = Vec::new();
    assert(sorted.deep_view() =~= Seq::<Seq<char>>::empty());
    proof {
        broadcast use vstd::seq_lib::group_to_multiset_ensures;

        assert(sorted.deep_view().to_multiset().add(items.deep_view().to_multiset())
            =~= before.to_multiset());
    }
    while items.len() > 0
        invariant
            sorted_by(sorted.deep_view(), text_order()),
            sorted.deep_view().to_multiset().add(items.deep_view().to_multiset())
                == before.to_multiset(),
        decreases items.len(),
    {
        let ghost left = items.deep_view();
        let ghost done = sorted.deep_view();
        let text = items.pop().unwrap();
        assert(items.deep_view() =~= left.drop_last());
        assert(left =~= items.deep_view().push(text@));

        let mut at: usize = 0;
        while at < sorted.len() && str_le(sorted[at].as_str(), text.as_str())
            invariant
                at <= sorted.len(),
                done == sorted.deep_view(),
                forall|j: int| 0 <= j < at ==> text_le(#[trigger] done[j], text@),
            decreases sorted.len() - at,
        {
            assert(done[at as int] == sorted[at as int]@);
            at += 1;
        }
        proof {
            if at < sorted.len() {
                assert(done[at as int] == sorted[at as int]@);
            }
            lemma_insert_keeps_order(done, at as int, text@);
            vstd::seq_lib::to_multiset_insert(done, at as int, text@);
            vstd::seq_lib::to_multiset_build(items.deep_view(), text@);
        }
        sorted.insert(at, text);
        assert(sorted.deep_view() =~= done.insert(at as int, text@));
        assert(sorted.deep_view().to_multiset().add(items.deep_view().to_multiset())
            =~= done.to_multiset().add(left.to_multiset()));
    }
    proof {
        broadcast use vstd::seq_lib::group_to_multiset_ensures;

        assert(items.deep_view() =~= Seq::<Seq<char>>::empty());
        assert(sorted.deep_view().to_multiset() =~= before.to_multiset());
        lemma_text_order_total();
        before.lemma_sort_by_ensures(text_order());
        lemma_sorted_unique(sorted.deep_view(), sorted_texts(before), text_order());
    }
    *items = sorted;
}

} // verus!
