//! What holds of every fixed-window counter, whatever the calls made on it.

use crate::window::Window;
use vstd::prelude::*;

verus! {

/// A decision keeps the counter within its quota: the quota and the width of
/// the window stay as they were made, the count stays within the quota, and
/// the end of the window never moves back. Where it moves, it moves by at
/// least the width of a window.
pub proof fn lemma_step_keeps_quota(s: Window, now: nat)
    requires
        s.wf(),
    ensures
        s.step(now).wf(),
        s.step(now).limit == s.limit,
        s.step(now).period == s.period,
        s.step(now).deadline == s.deadline || s.step(now).deadline >= s.deadline + s.period,
{
}

/// However many decisions are taken, and at whatever instants, the count
/// never exceeds the quota, and the end of the window never moves back.
pub proof fn lemma_run_keeps_quota(s: Window, nows: Seq<nat>)
    requires
        s.wf(),
    ensures
        s.run(nows).wf(),
        s.run(nows).limit == s.limit,
        s.run(nows).period == s.period,
        s.run(nows).deadline >= s.deadline,
    decreases nows.len(),
{
    if nows.len() > 0 {
        lemma_run_keeps_quota(s, nows.drop_last());
        lemma_step_keeps_quota(s.run(nows.drop_last()), nows.last());
    }
}

/// A wait is never clamped: it is the time left in the window, counted from
/// the caller's arrival, and more than nothing. The counter stays as it was,
/// and the next decision that is taken once the wait is over finds the window
/// ended.
pub proof fn lemma_wait_is_time_left(s: Window, now: nat, wait: nat)
    requires
        s.wf(),
        s.wait(now) == Some(wait),
    ensures
        wait > 0,
        wait == s.deadline - now,
        s.step(now) == s,
        forall|later: nat| later >= now + wait ==> s.step(now).expired(later),
{
}

/// Once the window is over, the next decision lets its caller go ahead and
/// opens a window in which that caller is the only one admitted so far,
/// however long the old window has been over and whatever was left of its
/// quota: two counters of one make that both find their window over are
/// the same counter afterwards.
pub proof fn lemma_rollover_starts_anew(s: Window, other: Window, now: nat)
    requires
        s.wf(),
        other.wf(),
        other.limit == s.limit,
        other.period == s.period,
        now >= s.deadline,
        now >= other.deadline,
    ensures
        s.wait(now) is None,
        s.step(now).count == 1,
        s.step(now).deadline == now + s.period,
        s.step(now) == other.step(now),
{
}

/// The instant at which a window ends belongs to the next window: a decision
/// taken exactly then lets its caller go ahead and opens the new window.
pub proof fn lemma_deadline_opens_window(s: Window)
    requires
        s.wf(),
    ensures
        s.wait(s.deadline) is None,
        s.step(s.deadline) == (Window { deadline: s.deadline + s.period, count: 1, ..s }),
{
}

/// While a window is open it grants what is left of its quota and no more:
/// of any decisions taken before the window ends, in whatever order their
/// instants come, the first ones are admitted until the quota is used up, and
/// none after that. The window itself stays where it is.
pub proof fn lemma_open_window_grants_its_quota(s: Window, nows: Seq<nat>)
    requires
        s.wf(),
        forall|i: int| 0 <= i < nows.len() ==> nows[i] < s.deadline,
    ensures
        s.run(nows).deadline == s.deadline,
        s.run(nows).count == s.count + s.admitted(nows),
        s.admitted(nows) == if nows.len() <= s.limit - s.count {
            nows.len() as int
        } else {
            s.limit - s.count
        },
        s.count + s.admitted(nows) <= s.limit,
    decreases nows.len(),
{
    if nows.len() > 0 {
        let earlier = nows.drop_last();
        lemma_open_window_grants_its_quota(s, earlier);
        lemma_run_keeps_quota(s, earlier);
    }
}

/// No window admits more than the quota, and none inherits what an earlier
/// one left unused: count the caller that opens a window, after however long
/// a pause, and any callers that come before that window ends, and the
/// admitted among them are the quota at most.
pub proof fn lemma_window_never_exceeds_quota(s: Window, now: nat, nows: Seq<nat>)
    requires
        s.wf(),
        s.expired(now),
        forall|i: int| 0 <= i < nows.len() ==> nows[i] < now + s.period,
    ensures
        1 + s.step(now).admitted(nows) <= s.limit,
{
    lemma_open_window_grants_its_quota(s.step(now), nows);
}

/// The counter in the middle of its first window: after `done` decisions,
/// the first of them taken once the old window was over and the others before
/// the new one ends, the new window holds `done` admissions.
proof fn lemma_window_fills(s: Window, nows: Seq<nat>, done: int)
    requires
        s.wf(),
        1 <= done <= s.limit,
        done <= nows.len(),
        s.expired(nows[0]),
        forall|i: int| 0 <= i < nows.len() ==> #[trigger] nows[i] < nows[0] + s.period,
    ensures
        s.run(nows.take(done)) == (Window {
            deadline: nows[0] + s.period,
            count: done as nat,
            ..s
        }),
    decreases done,
{
    let calls = nows.take(done);
    assert(calls.drop_last() == nows.take(done - 1));
    assert(s.run(calls) == s.run(nows.take(done - 1)).step(nows[done - 1]));
    if done > 1 {
        lemma_window_fills(s, nows, done - 1);
    }
}

/// A window admits exactly its quota. Take one call more than the quota, at
/// instants that grow from call to call and all lie less than one period
/// after the first, and let the first find the old window over, as the first
/// call on a new limiter always does. Then every call but the last is
/// admitted, and the last is told to wait for what is left of the period
/// that began with the first call, which is more than nothing.
pub proof fn lemma_window_admits_its_quota(s: Window, nows: Seq<nat>)
    requires
        s.wf(),
        nows.len() == s.limit + 1,
        s.expired(nows[0]),
        forall|i: int, j: int| 0 <= i < j < nows.len() ==> nows[i] < nows[j],
        forall|i: int| 0 <= i < nows.len() ==> #[trigger] nows[i] < nows[0] + s.period,
    ensures
        forall|i: int| 0 <= i < s.limit ==> (#[trigger] s.run(nows.take(i))).wait(nows[i]) is None,
        nows[0] + s.period - nows[s.limit as int] > 0,
        s.run(nows.take(s.limit as int)).wait(nows[s.limit as int]) == Some(
            (nows[0] + s.period - nows[s.limit as int]) as nat,
        ),
{
    assert forall|i: int| 0 <= i < s.limit implies (#[trigger] s.run(nows.take(i))).wait(
        nows[i],
    ) is None by {
        if i > 0 {
            lemma_window_fills(s, nows, i);
        }
    }
    lemma_window_fills(s, nows, s.limit as int);
}

} // verus!
