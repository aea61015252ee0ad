use vstd::prelude::*;

verus! {

/// Whether the change at index `i` is the last of its burst: no later change
/// follows it within the quiet window.
pub open spec fn ends_burst(times: Seq<u64>, window: u64, i: int) -> bool {
    i == times.len() - 1 || times[i + 1] >= times[i] + window
}

/// The times, among the first `k` changes, at which a notification is due.
pub open spec fn notifications_upto(times: Seq<u64>, window: u64, k: int) -> Seq<u64>
    decreases k,
{
    if k <= 0 {
        Seq::empty()
    } else if ends_burst(times, window, k - 1) {
        notifications_upto(times, window, k - 1).push(times[k - 1])
    } else {
        notifications_upto(times, window, k - 1)
    }
}

/// One notification for each burst of changes, at the time of the burst's
/// last change. A change that follows the one before it by less than the
/// quiet window belongs to the same burst.
pub open spec fn notifications(times: Seq<u64>, window: u64) -> Seq<u64> {
    notifications_upto(times, window, times.len() as int)
}

/// Collapse the changes observed at `times` (in the order they were seen)
/// into the notifications that are due, one per burst of rapid changes.
pub fn coalesce(times: &Vec<u64>, window: u64) -> (r: Vec<u64>)
    ensures
        r@ == notifications(times@, window),
{
    let n = times.len();
    let mut r: Vec<u64> = Vec::new();
    let mut i: usize = 0;
    while i < n
        invariant
            n == times@.len(),
            0 <= i <= n,
            r@ == notifications_upto(times@, window, i as int),
        decreases n - i,
    {
        let last = i + 1 == n;
        let ends = if last {
            true
        } else {
            times[i + 1] >= times[i] && times[i + 1] - times[i] >= window
        };
        if ends {
            r.push(times[i]);
        }
        i = i + 1;
    }
    r
}

proof fn lemma_notifications_upto_len(times: Seq<u64>, window: u64, k: int)
    requires
        0 <= k <= times.len(),
    ensures
        notifications_upto(times, window, k).len() <= k,
    decreases k,
{
    if k > 0 {
        lemma_notifications_upto_len(times, window, k - 1);
    }
}

/// However many changes arrive, a burst yields no more notifications than
/// there were changes and at least one, and the last notification is at the
/// time of the last change, so the final reload follows the final rebuild.
pub proof fn lemma_coalesced_count(times: Seq<u64>, window: u64)
    ensures
        notifications(times, window).len() <= times.len(),
        times.len() > 0 ==> notifications(times, window).len() >= 1,
        times.len() > 0 ==> notifications(times, window).last() == times.last(),
{
    lemma_notifications_upto_len(times, window, times.len() as int);
}

/// Changes that each follow the one before within the quiet window form a
/// single burst and yield exactly one notification.
pub proof fn lemma_rapid_changes_coalesce(times: Seq<u64>, window: u64)
    requires
        times.len() > 0,
        forall|i: int| 0 <= i < times.len() - 1 ==> #[trigger] times[i + 1] < times[i] + window,
    ensures
        notifications(times, window) == seq![times.last()],
{
    assert forall|k: int| 0 <= k < times.len() implies #[trigger] notifications_upto(times, window, k)
        == Seq::<u64>::empty() by {
        lemma_rapid_prefix(times, window, k);
    }
    assert(notifications_upto(times, window, times.len() - 1) == Seq::<u64>::empty());
    assert(Seq::<u64>::empty().push(times[times.len() - 1]) =~= seq![times.last()]);
}

proof fn lemma_rapid_prefix(times: Seq<u64>, window: u64, k: int)
    requires
        0 <= k < times.len(),
        forall|i: int| 0 <= i < times.len() - 1 ==> #[trigger] times[i + 1] < times[i] + window,
    ensures
        notifications_upto(times, window, k) == Seq::<u64>::empty(),
    decreases k,
{
    if k > 0 {
        lemma_rapid_prefix(times, window, k - 1);
        assert(times[(k - 1) + 1] < times[k - 1] + window);
    }
}

} // verus!
