use vstd::prelude::*;

verus! {

/// The mathematical model of a pair of decode counters: `(success, error)`.
pub type CountsModel = (int, int);

/// The counters after one decode attempt that succeeded (`ok`) or failed.
pub open spec fn record(c: CountsModel, ok: bool) -> CountsModel {
    if ok {
        (c.0 + 1, c.1)
    } else {
        (c.0, c.1 + 1)
    }
}

/// The counters after a run of decode attempts, in order.
pub open spec fn replay(c: CountsModel, attempts: Seq<bool>) -> CountsModel
    decreases attempts.len(),
{
    if attempts.len() == 0 {
        c
    } else {
        record(replay(c, attempts.drop_last()), attempts.last())
    }
}

/// How many of the attempts succeeded.
pub open spec fn num_ok(attempts: Seq<bool>) -> int
    decreases attempts.len(),
{
    if attempts.len() == 0 {
        0
    } else {
        num_ok(attempts.drop_last()) + if attempts.last() { 1int } else { 0int }
    }
}

/// How many of the attempts failed.
pub open spec fn num_failed(attempts: Seq<bool>) -> int
    decreases attempts.len(),
{
    if attempts.len() == 0 {
        0
    } else {
        num_failed(attempts.drop_last()) + if attempts.last() { 0int } else { 1int }
    }
}

/// What publishing counters adds to the global metrics: a count is added only
/// where it is positive.
pub open spec fn published(c: CountsModel) -> (Option<int>, Option<int>) {
    (
        if c.0 > 0 { Some(c.0) } else { None },
        if c.1 > 0 { Some(c.1) } else { None },
    )
}

/// Replaying attempts from some counters adds the successes to the success
/// count and the failures to the error count.
pub proof fn lemma_replay_adds(c: CountsModel, attempts: Seq<bool>)
    ensures
        replay(c, attempts) == (c.0 + num_ok(attempts), c.1 + num_failed(attempts)),
        num_ok(attempts) >= 0,
        num_failed(attempts) >= 0,
        num_ok(attempts) + num_failed(attempts) == attempts.len(),
    decreases attempts.len(),
{
    if attempts.len() > 0 {
        lemma_replay_adds(c, attempts.drop_last());
    }
}

/// After a reset, any sequence of decode attempts followed by publishing
/// publishes exactly the successes and the failures counted since the reset,
/// Publishing reads the counters and leaves them as they are, so publishing
/// again without a reset publishes the same counts again.
pub proof fn lemma_publish_counts_since_reset(attempts: Seq<bool>)
    ensures
        published(replay((0, 0), attempts)) == (
            if num_ok(attempts) > 0 { Some(num_ok(attempts)) } else { None },
            if num_failed(attempts) > 0 { Some(num_failed(attempts)) } else { None },
        ),
{
    lemma_replay_adds((0, 0), attempts);
}

} // verus!
