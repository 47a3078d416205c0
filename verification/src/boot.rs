//! Bringing up the harts.
use vstd::prelude::*;

verus! {

/// Number of harts booted.
pub const SMP: usize = 4;

/// The harts that the boot hart `hartid` starts, in the order it starts them:
/// every hart below `SMP` except itself, in increasing order.  (It waits for
/// each to check in before starting the next.)
pub fn harts_to_start(hartid: usize) -> (v: Vec<usize>)
    ensures
        v@.len() == (if hartid < SMP { SMP - 1 } else { SMP as int }),
        forall|k: int|
            0 <= k < v@.len() ==> #[trigger] v@[k] == (if k < hartid { k } else { k + 1 }),
{
    let mut v: Vec<usize> = Vec::new();
    if SMP > 1 {
        let mut i: usize = 0;
        while i < SMP
            invariant
                i <= SMP,
                v@.len() == (if hartid < i { i - 1 } else { i as int }),
                forall|k: int|
                    0 <= k < v@.len() ==> #[trigger] v@[k] == (if k < hartid { k } else { k + 1 }),
            decreases SMP - i,
        {
            if i != hartid {
                v.push(i);
            }
            i = i + 1;
        }
    }
    v
}

/// Every hart other than the boot hart is started exactly once.
pub proof fn lemma_each_other_hart_started_once(hartid: usize, started: Seq<usize>, h: usize)
    requires
        started.len() == (if hartid < SMP { SMP - 1 } else { SMP as int }),
        forall|k: int|
            0 <= k < started.len() ==> #[trigger] started[k] == (if k < hartid { k } else { k + 1 }),
        h < SMP,
    ensures
        h == hartid ==> !started.contains(h),
        h != hartid ==> started.contains(h) && (forall|k1: int, k2: int|
            0 <= k1 < k2 < started.len() ==> started[k1] != started[k2]),
{
    if h == hartid {
        if started.contains(h) {
            let k = choose|k: int| 0 <= k < started.len() && started[k] == h;
            assert(started[k] == (if k < hartid { k } else { k + 1 }));
        }
    } else {
        let k: int = if h < hartid { h as int } else { h - 1 };
        assert(started[k] == h);
        assert forall|k1: int, k2: int| 0 <= k1 < k2 < started.len() implies started[k1]
            != started[k2] by {
            assert(started[k1] == (if k1 < hartid { k1 } else { k1 + 1 }));
            assert(started[k2] == (if k2 < hartid { k2 } else { k2 + 1 }));
        }
    }
}

} // verus!
