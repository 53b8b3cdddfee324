use vstd::prelude::*;

verus! {

/// Length of one market window, in seconds.
pub const WINDOW_SECS: u64 = 300;

/// Seconds to wait past the start of a window before fetching it.
pub const START_BUFFER_SECS: u64 = 3;

/// Start of the first window that begins strictly after `now`.
pub open spec fn spec_next_window(now: nat) -> nat {
    (now / WINDOW_SECS as nat) * WINDOW_SECS as nat + WINDOW_SECS as nat
}

/// When to wake up for the next window.
#[derive(Debug, Clone, Copy, PartialEq, Eq, Structural)]
pub struct WindowPlan {
    /// Start of the next window (Unix seconds), which also names its market.
    pub next_window: u64,
    /// Seconds to sleep before fetching the window's event.
    pub sleep_secs: u64,
}

/// Plans the next window from the current Unix time: the next multiple of
/// the window length after `now`, and a sleep until a few seconds past it.
pub fn plan_next_window(now: u64) -> (plan: WindowPlan)
    requires
        spec_next_window(now as nat) <= u64::MAX,
    ensures
        plan.next_window == spec_next_window(now as nat),
        plan.sleep_secs == plan.next_window - now + START_BUFFER_SECS,
        plan.next_window % WINDOW_SECS == 0,
        now < plan.next_window <= now + WINDOW_SECS,
        START_BUFFER_SECS < plan.sleep_secs <= WINDOW_SECS + START_BUFFER_SECS,
{
    let current_window = (now / WINDOW_SECS) * WINDOW_SECS;
    let next_window = current_window + WINDOW_SECS;
    let sleep_secs = (next_window - now) + START_BUFFER_SECS;
    WindowPlan { next_window, sleep_secs }
}

/// End of the window that starts at `window_start`.
pub open spec fn spec_window_end(window_start: nat) -> nat {
    window_start + WINDOW_SECS as nat
}

/// Seconds left until the window that starts at `window_start` ends, or 0
/// when it has already ended.
pub fn stream_seconds(window_start: u64, now: u64) -> (secs: u64)
    requires
        spec_window_end(window_start as nat) <= u64::MAX,
    ensures
        secs == if spec_window_end(window_start as nat) > now {
            spec_window_end(window_start as nat) - now
        } else {
            0
        },
{
    let window_end = window_start + WINDOW_SECS;
    window_end.saturating_sub(now)
}

/// The collector moves on: once the clock has reached a planned window,
/// the next plan names a window at least one window length later.
pub proof fn lemma_windows_advance(now: nat, later: nat)
    requires
        later >= spec_next_window(now),
    ensures
        spec_next_window(later) >= spec_next_window(now) + WINDOW_SECS,
{
    let k = now / 300;
    let j = later / 300;
    assert(later >= k * 300 + 300);
    assert(j * 300 <= later < j * 300 + 300) by (nonlinear_arith)
        requires
            j == later / 300,
    ;
    assert(j >= k + 1) by (nonlinear_arith)
        requires
            later >= k * 300 + 300,
            later < j * 300 + 300,
    ;
    assert(j * 300 >= k * 300 + 300) by (nonlinear_arith)
        requires
            j >= k + 1,
    ;
}

} // verus!
