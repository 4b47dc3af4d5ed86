use vstd::prelude::*;

verus! {

/// The last `cap` elements of `s` (all of `s` when it is no longer than `cap`).
pub open spec fn keep_last<T>(s: Seq<T>, cap: nat) -> Seq<T> {
    if s.len() > cap {
        s.subrange(s.len() - cap, s.len() as int)
    } else {
        s
    }
}

/// Appends `item` to `log` and then drops the oldest entries so that at most
/// `cap` remain.
pub fn push_bounded<T>(log: &mut Vec<T>, item: T, cap: usize)
    requires
        old(log).len() < usize::MAX,
    ensures
        final(log)@ == keep_last(old(log)@.push(item), cap as nat),
{
    log.push(item);
    if log.len() > cap {
        let d = log.len() - cap;
        let ghost full = log@;
        let mut k: usize = 0;
        while k < d
            invariant
                d == full.len() - cap,
                k <= d,
                log@ == full.subrange(k as int, full.len() as int),
            decreases d - k,
        {
            log.remove(0);
            k = k + 1;
        }
    }
}

/// Law: after a bounded push the log holds at most `cap` entries (or exactly
/// one more than before, when there was room), the newest entry is last, and
/// every earlier survivor keeps its relative order.
pub proof fn lemma_push_bounded_shape<T>(s: Seq<T>, item: T, cap: nat)
    requires
        cap > 0,
    ensures
        keep_last(s.push(item), cap).len() == if s.len() + 1 > cap { cap } else { s.len() + 1 },
        keep_last(s.push(item), cap).last() == item,
        forall|i: int|
            0 <= i < keep_last(s.push(item), cap).len() - 1 ==> #[trigger] keep_last(
                s.push(item),
                cap,
            )[i] == s[s.len() + 1 - keep_last(s.push(item), cap).len() + i],
{
}

/// Law: pushing into a log that is already at capacity keeps its length.
pub proof fn lemma_full_log_stays_full<T>(s: Seq<T>, item: T, cap: nat)
    requires
        s.len() == cap,
    ensures
        keep_last(s.push(item), cap).len() == cap,
{
}

} // verus!
