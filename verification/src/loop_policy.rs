//! Pure decisions of the event loop: render coalescing, Esc routing,
//! resize handling, and viewport clamping.
use vstd::prelude::*;

verus! {

#[verifier::external_type_specification]
#[verifier::external_body]
pub struct ExInstant(std::time::Instant);

/// Minimum interval, in milliseconds, between successive full draws driven
/// by the event loop. User-facing events bypass it (`priority`).
pub const DRAW_MIN_INTERVAL_MS: u64 = 50;

/// Whether the post-select draw block should run this iteration.
#[derive(Debug, Clone, Copy, PartialEq, Eq, Structural)]
pub enum DrawDecision {
    /// Run the snapshot/draw pipeline now.
    DrawNow,
    /// Skip the draw: nothing needs an immediate repaint and the frame
    /// cadence has not elapsed yet.
    Defer,
}

/// The coalescing rule: priority always draws; otherwise draw once the
/// cadence interval has elapsed since the last draw.
pub open spec fn decide_draw(elapsed_nanos: nat, priority: bool, min_interval_nanos: nat) -> DrawDecision {
    if priority || elapsed_nanos >= min_interval_nanos {
        DrawDecision::DrawNow
    } else {
        DrawDecision::Defer
    }
}

/// Coalescing decision from the time elapsed since the last draw and the
/// minimum interval, both in nanoseconds.
pub fn draw_decision(elapsed_nanos: u128, priority: bool, min_interval_nanos: u128) -> (d: DrawDecision)
    ensures
        d == decide_draw(elapsed_nanos as nat, priority, min_interval_nanos as nat),
{
    if priority || elapsed_nanos >= min_interval_nanos {
        DrawDecision::DrawNow
    } else {
        DrawDecision::Defer
    }
}

/// Nanoseconds elapsed since `at` (`Instant::elapsed`, read as
/// `Duration::as_nanos`). Nothing is stated of the value: it depends on the
/// clock.
#[verifier::external_body]
fn nanos_since(at: &std::time::Instant) -> u128 {
    at.elapsed().as_nanos()
}

/// Whole nanoseconds of a duration (`Duration::as_nanos`). Nothing is stated
/// of the value: the duration is opaque here.
#[verifier::external_body]
fn duration_nanos(d: &core::time::Duration) -> u128 {
    d.as_nanos()
}

/// Pure coalescing decision: `priority` (user input) always wins; otherwise
/// the draw runs once `min_interval` has elapsed since `last_draw_at`.
/// Without `priority` the outcome rests on the clock, so the contract states
/// only the priority case; `draw_decision` states the rule for every
/// elapsed time.
pub fn coalesce_draw(
    last_draw_at: std::time::Instant,
    priority: bool,
    min_interval: core::time::Duration,
) -> (d: DrawDecision)
    ensures
        priority ==> d == DrawDecision::DrawNow,
{
    let elapsed = nanos_since(&last_draw_at);
    let min = duration_nanos(&min_interval);
    draw_decision(elapsed, priority, min)
}

/// Where an Esc-driven cancel goes.
#[derive(Debug, Clone, Copy, PartialEq, Eq, Structural)]
pub enum CancelRoute {
    /// A stream is running: abort it through the interrupt path.
    Interrupt,
    /// Idle: instant one-press quit.
    Exit,
}

/// Esc while streaming aborts the stream; Esc while idle quits at once.
pub fn route_cancel(is_streaming: bool) -> (r: CancelRoute)
    ensures
        r == (if is_streaming { CancelRoute::Interrupt } else { CancelRoute::Exit }),
{
    if is_streaming {
        CancelRoute::Interrupt
    } else {
        CancelRoute::Exit
    }
}

/// Whether the event loop keeps running.
#[derive(Debug, Clone, Copy, PartialEq, Eq, Structural)]
pub enum LoopOutcome {
    Continue,
    Exit,
}

/// Whether the host scrollback must be wiped and rebuilt after a resize:
/// only a width change invalidates rows printed at the old width, and a
/// previous width of `0` means no width was ever measured.
pub fn should_rebuild_scrollback(prev_w: u16, new_w: u16, prev_h: u16, new_h: u16) -> (r: bool)
    ensures
        r == (prev_w != 0 && prev_w != new_w),
{
    prev_w != 0 && prev_w != new_w
}

/// Force-flush boundary used at exit: every display row commits.
pub fn plan_full_flush(display_len: usize) -> (r: usize)
    ensures
        r == display_len,
{
    display_len
}

/// The first visible row for a scroll `offset` (`usize::MAX` follows the
/// tail) over `total` rows in a `viewport`-row window.
pub open spec fn clamped_offset(offset: nat, total: nat, viewport: nat) -> nat {
    let max_start: nat = if total >= viewport { (total - viewport) as nat } else { 0 };
    if offset == usize::MAX as nat {
        max_start
    } else if offset < max_start {
        offset
    } else {
        max_start
    }
}

/// Resolve the follow-tail sentinel and clamp `offset` into
/// `[0, total - viewport]`.
pub fn effective_scroll_offset(offset: usize, total: usize, viewport: usize) -> (r: usize)
    ensures
        r == clamped_offset(offset as nat, total as nat, viewport as nat),
{
    let max_start = total.saturating_sub(viewport);
    if offset == usize::MAX {
        return max_start;
    }
    if offset < max_start {
        offset
    } else {
        max_start
    }
}

/// The spinner frame for `elapsed_ms` milliseconds since the animation
/// epoch with a `period_ms` frame period (a zero period counts as one
/// millisecond). Keyed on wall-clock time, so back-to-back draws within one
/// period show the same frame.
pub fn animation_frame(elapsed_ms: u64, period_ms: u64) -> (f: u64)
    ensures
        f == elapsed_ms / (if period_ms == 0 { 1 } else { period_ms }),
{
    let p = if period_ms == 0 { 1 } else { period_ms };
    elapsed_ms / p
}

} // verus!
