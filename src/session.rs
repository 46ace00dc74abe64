use vstd::prelude::*;

verus! {

/// What a remote session does after one attempt to open its connection.
pub enum ConnectStep {
    /// The connection is open: go on with the handshake.
    Proceed,
    /// Not reachable yet: wait this many milliseconds and try again.
    RetryAfter(u64),
    /// Not reachable before the deadline: fail with a connect timeout.
    GiveUp,
}

pub open spec fn connect_step_spec(
    retry_ms: u64,
    deadline_ms: u64,
    elapsed_ms: u64,
    connected: bool,
) -> ConnectStep {
    if connected {
        ConnectStep::Proceed
    } else if elapsed_ms > deadline_ms {
        ConnectStep::GiveUp
    } else {
        ConnectStep::RetryAfter(retry_ms)
    }
}

/// Decides after one connect attempt made `elapsed_ms` after the first one.
pub fn next_connect_step(retry_ms: u64, deadline_ms: u64, elapsed_ms: u64, connected: bool) -> (r:
    ConnectStep)
    ensures
        r == connect_step_spec(retry_ms, deadline_ms, elapsed_ms, connected),
{
    if connected {
        ConnectStep::Proceed
    } else if elapsed_ms > deadline_ms {
        ConnectStep::GiveUp
    } else {
        ConnectStep::RetryAfter(retry_ms)
    }
}

/// A host that turns reachable at `up_at_ms`, no later than the deadline, is
/// connected to: every attempt before it is up leads to a retry, and with
/// attempts `retry_ms` apart, attempt `k`, the first one made once it is up,
/// proceeds.
pub proof fn lemma_connect_reaches_late_host(retry_ms: u64, deadline_ms: u64, up_at_ms: u64) -> (k:
    u64)
    requires
        retry_ms > 0,
        up_at_ms <= deadline_ms,
        deadline_ms + retry_ms <= u64::MAX,
    ensures
        k * retry_ms >= up_at_ms,
        k * retry_ms <= deadline_ms + retry_ms,
        forall|e: u64|
            e < up_at_ms ==> #[trigger] connect_step_spec(retry_ms, deadline_ms, e, false)
                == ConnectStep::RetryAfter(retry_ms),
        connect_step_spec(retry_ms, deadline_ms, (k * retry_ms) as u64, true)
            == ConnectStep::Proceed,
{
    let k: u64 = if up_at_ms % retry_ms == 0 {
        up_at_ms / retry_ms
    } else {
        (up_at_ms / retry_ms + 1) as u64
    };
    assert(up_at_ms == retry_ms * (up_at_ms / retry_ms) + up_at_ms % retry_ms) by (nonlinear_arith)
        requires
            retry_ms > 0,
    ;
    assert(k * retry_ms >= up_at_ms && k * retry_ms < up_at_ms + retry_ms) by (nonlinear_arith)
        requires
            up_at_ms == retry_ms * (up_at_ms / retry_ms) + up_at_ms % retry_ms,
            0 <= up_at_ms % retry_ms < retry_ms,
            up_at_ms % retry_ms == 0 ==> k == up_at_ms / retry_ms,
            up_at_ms % retry_ms != 0 ==> k == up_at_ms / retry_ms + 1,
    ;
    k
}

/// A host that never turns reachable is given up on: every attempt up to the
/// deadline retries, and with attempts `retry_ms` apart, attempt `k`, the
/// first one past the deadline, gives up.
pub proof fn lemma_connect_gives_up(retry_ms: u64, deadline_ms: u64) -> (k: u64)
    requires
        retry_ms > 0,
        deadline_ms + retry_ms <= u64::MAX,
    ensures
        k * retry_ms > deadline_ms,
        k * retry_ms <= deadline_ms + retry_ms,
        forall|e: u64|
            e <= deadline_ms ==> #[trigger] connect_step_spec(retry_ms, deadline_ms, e, false)
                == ConnectStep::RetryAfter(retry_ms),
        connect_step_spec(retry_ms, deadline_ms, (k * retry_ms) as u64, false)
            == ConnectStep::GiveUp,
{
    let k: u64 = (deadline_ms / retry_ms + 1) as u64;
    assert(deadline_ms == retry_ms * (deadline_ms / retry_ms) + deadline_ms % retry_ms)
        by (nonlinear_arith)
        requires
            retry_ms > 0,
    ;
    assert(k * retry_ms > deadline_ms && k * retry_ms <= deadline_ms + retry_ms)
        by (nonlinear_arith)
        requires
            deadline_ms == retry_ms * (deadline_ms / retry_ms) + deadline_ms % retry_ms,
            0 <= deadline_ms % retry_ms < retry_ms,
            k == deadline_ms / retry_ms + 1,
    ;
    k
}

} // verus!
