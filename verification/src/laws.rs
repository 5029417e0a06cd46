//! Laws of the queue's buffer discipline, stated over the sequence view
//! that the contracts of [`crate::buffer::Buffer`] use.

use vstd::prelude::*;

use crate::buffer::drop_front;

verus! {

/// The buffer's contents after `k` front removals, with no pushes in
/// between, starting from contents `s`.
pub open spec fn after_pops<I>(s: Seq<I>, k: int) -> Seq<I> {
    s.subrange(k, s.len() as int)
}

/// First-in first-out: starting from contents `s`, after any `k` front
/// removals the next front removal yields `s[k]` — the `k`-th item appended
/// — and leaves the items behind it, still in order.
pub proof fn lemma_fifo_order<I>(s: Seq<I>, k: int)
    requires
        0 <= k < s.len(),
    ensures
        after_pops(s, k).len() > 0,
        after_pops(s, k)[0] == s[k],
        drop_front(after_pops(s, k)) =~= after_pops(s, k + 1),
{
}

/// Appending never reorders or disturbs what is already buffered: every
/// buffered item keeps its position, and the new item stands last.
pub proof fn lemma_push_preserves_order<I>(s: Seq<I>, item: I)
    ensures
        s.push(item).len() == s.len() + 1,
        forall|i: int| 0 <= i < s.len() ==> #[trigger] s.push(item)[i] == s[i],
        s.push(item)[s.len() as int] == item,
{
}

/// The emptiness probe over one push/pop cycle: an empty buffer becomes
/// non-empty after one push; removing the front again leaves it empty, and
/// what was removed is exactly the item pushed.
pub proof fn lemma_probe_cycle<I>(s: Seq<I>, item: I)
    requires
        s.len() == 0,
    ensures
        s.push(item).len() != 0,
        s.push(item)[0] == item,
        drop_front(s.push(item)).len() == 0,
{
}

/// Conservation, one operation at a time: a push adds exactly one instance
/// of the pushed item to the buffered multiset, and a front removal takes
/// exactly one instance of the front item.  No operation duplicates or
/// drops anything else.
pub proof fn lemma_conservation<I>(s: Seq<I>, item: I)
    ensures
        s.push(item).to_multiset() =~= s.to_multiset().insert(item),
        s.len() > 0 ==> drop_front(s).to_multiset() =~= s.to_multiset().remove(s[0]),
{
    broadcast use vstd::seq_lib::group_to_multiset_ensures;

    if s.len() > 0 {
        assert(drop_front(s) =~= s.remove(0));
    }
}

/// Conservation over any run of front removals: the `k` items already
/// removed and the items still buffered together make up exactly the items
/// that were pushed — every item is delivered at most once, and none is
/// duplicated or silently dropped.
pub proof fn lemma_no_item_lost_or_duplicated<I>(s: Seq<I>, k: int)
    requires
        0 <= k <= s.len(),
    ensures
        s.subrange(0, k).to_multiset().add(after_pops(s, k).to_multiset()) =~= s.to_multiset(),
        s.subrange(0, k).len() + after_pops(s, k).len() == s.len(),
{
    vstd::seq_lib::lemma_multiset_commutative(s.subrange(0, k), after_pops(s, k));
    assert(s.subrange(0, k) + after_pops(s, k) =~= s);
}

} // verus!
