//! Searching and counting in sequences.
use vstd::prelude::*;

verus! {

/// Position of the first element that satisfies `wanted`.
pub open spec fn first_where<T>(s: Seq<T>, wanted: spec_fn(T) -> bool) -> Option<int>
    decreases s.len(),
{
    if s.len() == 0 {
        None
    } else {
        match first_where(s.drop_last(), wanted) {
            Some(index) => Some(index),
            None => if wanted(s.last()) {
                Some(s.len() - 1)
            } else {
                None
            },
        }
    }
}

/// Sum of `count` over all elements.
pub open spec fn sum_by<T>(s: Seq<T>, count: spec_fn(T) -> nat) -> nat
    decreases s.len(),
{
    if s.len() == 0 {
        0
    } else {
        sum_by(s.drop_last(), count) + count(s.last())
    }
}

/// A number as a machine counter that stops at its maximum holds it.
pub open spec fn saturated(n: nat) -> usize {
    if n <= usize::MAX {
        n as usize
    } else {
        usize::MAX
    }
}

/// The position that `first_where` gives is in range, its element is wanted, and none before it is;
/// it gives no position only where no element is wanted.
pub proof fn lemma_first_where<T>(s: Seq<T>, wanted: spec_fn(T) -> bool)
    ensures
        match first_where(s, wanted) {
            Some(index) => {
                &&& 0 <= index < s.len()
                &&& wanted(s[index])
                &&& forall|j: int| 0 <= j < index ==> !wanted(#[trigger] s[j])
            },
            None => forall|j: int| 0 <= j < s.len() ==> !wanted(#[trigger] s[j]),
        },
    decreases s.len(),
{
    if s.len() > 0 {
        lemma_first_where(s.drop_last(), wanted);
        assert forall|j: int| 0 <= j < s.len() - 1 implies s[j] == s.drop_last()[j] by {}
        match first_where(s.drop_last(), wanted) {
            Some(index) => {
                assert(wanted(s[index]));
            },
            None => {
                assert forall|j: int| 0 <= j < s.len() - 1 implies !wanted(#[trigger] s[j]) by {
                    assert(!wanted(s.drop_last()[j]));
                }
            },
        }
    }
}

/// A position whose element is wanted, with none wanted before it, is the one that `first_where`
/// gives.
pub proof fn lemma_first_where_is<T>(s: Seq<T>, wanted: spec_fn(T) -> bool, index: int)
    requires
        0 <= index < s.len(),
        wanted(s[index]),
        forall|j: int| 0 <= j < index ==> !wanted(#[trigger] s[j]),
    ensures
        first_where(s, wanted) == Some(index),
{
    lemma_first_where(s, wanted);
    let found = first_where(s, wanted);
    if found is None {
        assert(!wanted(s[index]));
    } else if found->0 < index {
        assert(!wanted(s[found->0]));
    } else if index < found->0 {
        assert(!wanted(s[index]));
    }
}

/// Whether positions grow, and lie in a sequence of length `n`.
pub open spec fn is_increasing(positions: Seq<int>, n: nat) -> bool {
    &&& forall|k: int| 0 <= k < positions.len() ==> 0 <= #[trigger] positions[k] < n
    &&& forall|j: int, k: int|
        0 <= j < k < positions.len() ==> #[trigger] positions[j] < #[trigger] positions[k]
}

/// Whether `kept` is made of the elements of `s` at the positions `from`, in their order.
pub open spec fn is_selection<T>(s: Seq<T>, kept: Seq<T>, from: Seq<int>) -> bool {
    &&& from.len() == kept.len()
    &&& is_increasing(from, s.len())
    &&& forall|k: int| 0 <= k < kept.len() ==> #[trigger] kept[k] == s[from[k]]
}

/// Whether `kept` is `s` without the elements that are not wanted: each wanted element once, in the
/// order of `s`, and nothing else.
pub open spec fn selects_exactly<T>(s: Seq<T>, kept: Seq<T>, wanted: spec_fn(T) -> bool) -> bool {
    exists|from: Seq<int>| #[trigger]
        is_selection(s, kept, from) && forall|i: int|
            0 <= i < s.len() ==> (wanted(#[trigger] s[i]) <==> from.contains(i))
}

/// A filter selects exactly the wanted elements. The result is their positions.
pub proof fn lemma_filter_selects<T>(s: Seq<T>, wanted: spec_fn(T) -> bool) -> (from: Seq<int>)
    ensures
        is_selection(s, s.filter(wanted), from),
        forall|i: int| 0 <= i < s.len() ==> (wanted(#[trigger] s[i]) <==> from.contains(i)),
        selects_exactly(s, s.filter(wanted), wanted),
    decreases s.len(),
{
    reveal(Seq::filter);
    if s.len() == 0 {
        let from = Seq::<int>::empty();
        assert(is_selection(s, s.filter(wanted), from));
        from
    } else {
        let rest = s.drop_last();
        let last = s.len() - 1;
        let before = lemma_filter_selects(rest, wanted);
        let from = if wanted(s[last]) {
            before.push(last)
        } else {
            before
        };
        assert forall|i: int| 0 <= i < s.len() implies (wanted(#[trigger] s[i])
            <==> from.contains(i)) by {
            if i < last {
                assert(rest[i] == s[i]);
                if before.contains(i) {
                    let k = choose|k: int| 0 <= k < before.len() && before[k] == i;
                    assert(from[k] == i);
                }
                if from.contains(i) {
                    let k = choose|k: int| 0 <= k < from.len() && from[k] == i;
                    assert(before[k] == i);
                }
            } else {
                if wanted(s[last]) {
                    assert(from[from.len() - 1] == last);
                } else if from.contains(i) {
                    let k = choose|k: int| 0 <= k < from.len() && from[k] == i;
                    assert(before[k] < rest.len());
                }
            }
        }
        assert forall|k: int| 0 <= k < from.len() implies #[trigger] s.filter(wanted)[k]
            == s[from[k]] by {
            if k < before.len() {
                assert(rest.filter(wanted)[k] == rest[before[k]]);
            }
        }
        assert(is_selection(s, s.filter(wanted), from));
        from
    }
}

} // verus!
