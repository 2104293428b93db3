//! What all entity pools share: members that are live or not, and the
//! compaction at the end of a frame that keeps the live ones.

use vstd::prelude::*;

verus! {

/// A member of a pool.
pub trait Pooled {
    /// The member is still in play.
    spec fn live_spec(&self) -> bool;

    fn live(&self) -> (b: bool)
        ensures
            b == self.live_spec(),
    ;
}

/// The live members of `s`, in their order.
pub open spec fn survivors<T: Pooled>(s: Seq<T>) -> Seq<T> {
    s.filter(|e: T| e.live_spec())
}

/// Compaction loses no live member, keeps no other, and never makes a pool
/// longer.
pub proof fn lemma_survivors<T: Pooled>(s: Seq<T>)
    ensures
        survivors(s).len() <= s.len(),
        forall|i: int| 0 <= i < survivors(s).len() ==> (#[trigger] survivors(s)[i]).live_spec(),
        forall|i: int| 0 <= i < s.len() && (#[trigger] s[i]).live_spec() ==> survivors(s).contains(s[i]),
        forall|i: int| 0 <= i < survivors(s).len() ==> s.contains(#[trigger] survivors(s)[i]),
{
    let pred = |e: T| e.live_spec();
    s.lemma_filter_len(pred);
    assert forall|i: int| 0 <= i < survivors(s).len() implies (#[trigger] survivors(
        s,
    )[i]).live_spec() by {
        s.lemma_filter_pred(pred, i);
    }
    assert forall|i: int| 0 <= i < s.len() && (#[trigger] s[i]).live_spec() implies survivors(
        s,
    ).contains(s[i]) by {
        s.lemma_filter_contains(pred, i);
    }
    assert forall|i: int| 0 <= i < survivors(s).len() implies s.contains(
        #[trigger] survivors(s)[i],
    ) by {
        assert(s.filter(pred).contains(survivors(s)[i]));
        s.lemma_filter_contains_rev(pred, survivors(s)[i]);
    }
}

/// A pool whose members are all live is left as it is.
pub proof fn lemma_survivors_all_live<T: Pooled>(s: Seq<T>)
    requires
        forall|i: int| 0 <= i < s.len() ==> (#[trigger] s[i]).live_spec(),
    ensures
        survivors(s) == s,
    decreases s.len(),
{
    let pred = |e: T| e.live_spec();
    reveal(Seq::filter);
    if s.len() > 0 {
        lemma_survivors_all_live(s.drop_last());
        assert(s.drop_last().push(s.last()) =~= s);
    } else {
        assert(s.filter(pred) =~= s);
    }
}

/// Removes from the pool every member that is no longer live.
pub fn retain_active<T: Pooled>(pool: &mut Vec<T>)
    ensures
        final(pool)@ == survivors(old(pool)@),
{
    let ghost pred = |e: T| e.live_spec();
    let ghost before = pool@;
    let mut i: usize = 0;
    let mut seen: usize = 0;
    let total: usize = pool.len();
    proof {
        reveal(Seq::filter);
        assert(before.take(0).filter(pred) =~= Seq::<T>::empty());
        assert(pool@ =~= before.take(0).filter(pred) + before.skip(0));
    }
    while seen < total
        invariant
            before == old(pool)@,
            total == before.len(),
            seen <= total,
            pred == |e: T| e.live_spec(),
            i == before.take(seen as int).filter(pred).len(),
            pool@ == before.take(seen as int).filter(pred) + before.skip(seen as int),
        decreases total - seen,
    {
        proof {
            assert(before.take(seen + 1) =~= before.take(seen as int).push(before[seen as int]));
            before.take(seen as int).lemma_filter_push(before[seen as int], pred);
            assert(pool@[i as int] == before[seen as int]);
        }
        if pool[i].live() {
            assert(pool@ =~= before.take(seen + 1).filter(pred) + before.skip(seen + 1));
            i += 1;
        } else {
            pool.remove(i);
            assert(pool@ =~= before.take(seen + 1).filter(pred) + before.skip(seen + 1));
        }
        seen += 1;
    }
    assert(before.take(total as int) =~= before);
    assert(pool@ =~= before.filter(pred));
}

} // verus!
