//! The order in which accounts are shown.
use vstd::prelude::*;

use crate::text;
use crate::text::comes_before;

verus! {

/// What an account is placed by: lower values come first, and ids break ties.
#[derive(Clone, Debug, PartialEq, Eq)]
pub struct SortKey {
    /// Whether the account comes after all accounts of the first rank.
    pub second_rank: bool,
    pub priority: u32,
    pub id: String,
}

impl SortKey {
    pub open spec fn lt(self, other: SortKey) -> bool {
        if self.second_rank != other.second_rank {
            other.second_rank
        } else if self.priority != other.priority {
            self.priority < other.priority
        } else {
            text::text_lt(self.id@, other.id@)
        }
    }

    fn is_less(&self, other: &SortKey) -> (less: bool)
        ensures
            less == self.lt(*other),
    {
        if self.second_rank != other.second_rank {
            other.second_rank
        } else if self.priority != other.priority {
            self.priority < other.priority
        } else {
            comes_before(self.id.as_str(), other.id.as_str())
        }
    }
}

/// Whether the element at `i` is shown before the one at `j`: by key, and by position where the keys
/// are equal.
pub open spec fn precedes(keys: Seq<SortKey>, i: int, j: int) -> bool {
    keys[i].lt(keys[j]) || (!keys[j].lt(keys[i]) && i < j)
}

/// Whether `order` lists every position once, in the order in which the elements are shown.
pub open spec fn is_shown_order(keys: Seq<SortKey>, order: Seq<usize>) -> bool {
    &&& order.len() == keys.len()
    &&& forall|a: int| 0 <= a < order.len() ==> (#[trigger] order[a]) < keys.len()
    &&& forall|a: int, b: int|
        0 <= a < b < order.len() ==> #[trigger] precedes(keys, order[a] as int, order[b] as int)
}

proof fn lemma_key_order(a: SortKey, b: SortKey, c: SortKey)
    ensures
        !a.lt(a),
        a.lt(b) ==> !b.lt(a),
        a.lt(b) && !c.lt(b) ==> a.lt(c),
        a.lt(b) && b.lt(c) ==> a.lt(c),
{
    text::law_text_order_is_total(a.id@, b.id@, c.id@);
    text::law_text_order_is_total(c.id@, b.id@, a.id@);
    text::law_text_order_is_total(b.id@, c.id@, a.id@);
}

/// Nothing is shown before itself, so an order that lists positions in the order in which they are
/// shown lists none twice.
pub proof fn law_shown_order_has_no_repeats(keys: Seq<SortKey>, order: Seq<usize>, a: int, b: int)
    requires
        is_shown_order(keys, order),
        0 <= a < b < order.len(),
    ensures
        order[a] != order[b],
{
    lemma_key_order(keys[order[a] as int], keys[order[a] as int], keys[order[a] as int]);
    assert(precedes(keys, order[a] as int, order[b] as int));
}

/// Of two positions one is shown before the other, and never both.
proof fn lemma_precedes_is_strict_and_total(keys: Seq<SortKey>, i: int, j: int)
    ensures
        !(precedes(keys, i, j) && precedes(keys, j, i)),
        i != j ==> precedes(keys, i, j) || precedes(keys, j, i),
{
    lemma_key_order(keys[i], keys[j], keys[i]);
    lemma_key_order(keys[j], keys[i], keys[j]);
}

/// An order in which elements are shown lists every position.
proof fn lemma_shown_order_is_complete(keys: Seq<SortKey>, order: Seq<usize>, i: int) -> (at: int)
    requires
        is_shown_order(keys, order),
        0 <= i < keys.len(),
    ensures
        0 <= at < order.len(),
        order[at] == i,
{
    let positions = Seq::new(order.len(), |a: int| order[a] as int);
    assert forall|a: int, b: int|
        0 <= a < positions.len() && 0 <= b < positions.len() && a != b implies positions[a]
        != positions[b] by {
        if a < b {
            law_shown_order_has_no_repeats(keys, order, a, b);
        } else {
            law_shown_order_has_no_repeats(keys, order, b, a);
        }
    }
    positions.unique_seq_to_set();
    let all = vstd::set_lib::set_int_range(0, keys.len() as int);
    vstd::set_lib::lemma_int_range(0, keys.len() as int);
    assert(positions.to_set().subset_of(all)) by {
        assert forall|x: int| #[trigger] positions.to_set().contains(x) implies all.contains(x) by {
            let a = choose|a: int| 0 <= a < positions.len() && positions[a] == x;
            assert(order[a] < keys.len());
        }
    }
    vstd::set_lib::lemma_subset_equality(positions.to_set(), all);
    assert(all.contains(i));
    assert(positions.to_set().contains(i));
    choose|at: int| 0 <= at < positions.len() && positions[at] == i
}

proof fn lemma_shown_orders_agree(keys: Seq<SortKey>, a: Seq<usize>, b: Seq<usize>, k: int)
    requires
        is_shown_order(keys, a),
        is_shown_order(keys, b),
        0 <= k < a.len(),
        forall|j: int| 0 <= j < k ==> a[j] == b[j],
        precedes(keys, a[k] as int, b[k] as int),
    ensures
        a[k] == b[k],
{
    let m = lemma_shown_order_is_complete(keys, b, a[k] as int);
    if m < k {
        law_shown_order_has_no_repeats(keys, a, m, k);
    } else if m > k {
        assert(precedes(keys, b[k] as int, b[m] as int));
        lemma_precedes_is_strict_and_total(keys, a[k] as int, b[k] as int);
    }
}

/// There is one order only in which elements are shown, so that all pages of a list come from one and
/// the same list.
pub proof fn law_shown_order_is_unique(keys: Seq<SortKey>, a: Seq<usize>, b: Seq<usize>)
    requires
        is_shown_order(keys, a),
        is_shown_order(keys, b),
    ensures
        a == b,
{
    lemma_same_prefix(keys, a, b, a.len() as int);
    assert(a =~= b);
}

proof fn lemma_same_prefix(keys: Seq<SortKey>, a: Seq<usize>, b: Seq<usize>, n: int)
    requires
        is_shown_order(keys, a),
        is_shown_order(keys, b),
        0 <= n <= a.len(),
    ensures
        forall|j: int| 0 <= j < n ==> a[j] == b[j],
    decreases n,
{
    if n > 0 {
        let k = n - 1;
        lemma_same_prefix(keys, a, b, k);
        lemma_precedes_is_strict_and_total(keys, a[k] as int, b[k] as int);
        if precedes(keys, a[k] as int, b[k] as int) {
            lemma_shown_orders_agree(keys, a, b, k);
        } else if precedes(keys, b[k] as int, a[k] as int) {
            lemma_shown_orders_agree(keys, b, a, k);
        }
    }
}

/// The positions of the keys in the order in which their elements are shown.
pub fn shown_order(keys: &Vec<SortKey>) -> (order: Vec<usize>)
    ensures
        is_shown_order(keys@, order@),
{
    let mut order: Vec<usize> = Vec::new();
    let mut i: usize = 0;
    while i < keys.len()
        invariant
            i <= keys@.len(),
            order@.len() == i,
            forall|a: int| 0 <= a < order@.len() ==> (#[trigger] order@[a]) < i,
            forall|a: int, b: int|
                0 <= a < b < order@.len() ==> #[trigger] precedes(
                    keys@,
                    order@[a] as int,
                    order@[b] as int,
                ),
        decreases keys@.len() - i,
    {
        let mut p: usize = 0;
        while p < order.len() && !keys[i].is_less(&keys[order[p]])
            invariant
                p <= order@.len(),
                i < keys@.len(),
                forall|a: int| 0 <= a < order@.len() ==> (#[trigger] order@[a]) < i,
                forall|a: int|
                    0 <= a < p ==> !keys@[i as int].lt(keys@[#[trigger] order@[a] as int]),
            decreases order@.len() - p,
        {
            p = p + 1;
        }
        let ghost before = order@;
        order.insert(p, i);
        proof {
            assert forall|a: int, b: int| 0 <= a < b < order@.len() implies #[trigger] precedes(
                keys@,
                order@[a] as int,
                order@[b] as int,
            ) by {
                if b < p {
                    assert(precedes(keys@, before[a] as int, before[b] as int));
                } else if b == p {
                    assert(order@[a] == before[a]);
                } else if a == p {
                    let first = before[p as int] as int;
                    let later = before[b - 1] as int;
                    assert(keys@[i as int].lt(keys@[first]));
                    lemma_key_order(keys@[i as int], keys@[first], keys@[later]);
                    if p < b - 1 {
                        assert(precedes(keys@, first, later));
                        lemma_key_order(keys@[first], keys@[later], keys@[first]);
                    }
                } else if a < p {
                    assert(precedes(keys@, before[a] as int, before[b - 1] as int));
                } else {
                    assert(precedes(keys@, before[a - 1] as int, before[b - 1] as int));
                }
            }
        }
        i = i + 1;
    }
    order
}

} // verus!
