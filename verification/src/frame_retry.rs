//! Retry of failed frame presentations.
//!
//! A failed presentation must survive the frame loop clearing its own "needs present" flag, so
//! the failure is remembered here and turned into a frame request. After ten consecutive failures
//! the retries stop, so a permanently unavailable surface cannot spin forever.
use vstd::prelude::*;

verus! {

/// Consecutive failed presentations after which no retry is requested any more.
pub const MAX_FAILED_PRESENTS: u8 = 10;

/// The abstract state of a [`FrameRetry`].
pub struct FrameRetryView {
    /// Consecutive failed presentations, saturating at `u8::MAX`.
    pub failures: nat,
    /// `Some(force_render)` while a retry is pending.
    pub pending: Option<bool>,
}

/// The consecutive-failure count after one more presentation attempt.
pub open spec fn failures_after(failures: nat, presented: bool) -> nat {
    if presented {
        0
    } else if failures < u8::MAX {
        failures + 1
    } else {
        failures
    }
}

/// The state after recording one presentation attempt.
///
/// A retry is pending unless the device is lost or the failure budget is spent; a failure keeps
/// (or opens) a retry and accumulates the request to bypass cached sprites, while a success only
/// leaves a request behind when a full redraw is still needed.
pub open spec fn after_record(
    v: FrameRetryView,
    presented: bool,
    needs_redraw: bool,
    device_lost: bool,
) -> FrameRetryView {
    let failures = failures_after(v.failures, presented);
    let pending = if device_lost || failures >= MAX_FAILED_PRESENTS {
        None
    } else if presented {
        if needs_redraw {
            Some(true)
        } else {
            None
        }
    } else {
        Some(v.pending == Some(true) || needs_redraw)
    };
    FrameRetryView { failures, pending }
}

/// Retry bookkeeping for one window's presentations.
pub struct FrameRetry {
    failures: u8,
    pending: Option<bool>,
}

impl View for FrameRetry {
    type V = FrameRetryView;

    closed spec fn view(&self) -> FrameRetryView {
        FrameRetryView { failures: self.failures as nat, pending: self.pending }
    }
}

impl Default for FrameRetry {
    fn default() -> (r: Self)
        ensures
            r@ == (FrameRetryView { failures: 0, pending: None }),
    {
        FrameRetry { failures: 0, pending: None }
    }
}

impl FrameRetry {
    /// Records the outcome of one presentation and returns whether a retry is pending.
    pub fn record(&mut self, presented: bool, needs_redraw: bool, device_lost: bool) -> (retry:
        bool)
        ensures
            final(self)@ == after_record(old(self)@, presented, needs_redraw, device_lost),
            retry == final(self)@.pending is Some,
    {
        if presented {
            self.failures = 0;
            self.pending = None;
        } else {
            self.failures = self.failures.saturating_add(1);
        }
        if device_lost || self.failures >= MAX_FAILED_PRESENTS {
            self.pending = None;
        } else if !presented || needs_redraw {
            self.pending = Some(self.pending.unwrap_or(false) || needs_redraw);
        }
        self.pending.is_some()
    }

    /// Takes the pending request: `Some(force_render)` retries presentation; `None` is an
    /// ordinary frame request.
    pub fn take_request(&mut self) -> (request: Option<bool>)
        ensures
            request == old(self)@.pending,
            final(self)@ == (FrameRetryView { failures: old(self)@.failures, pending: None }),
    {
        self.pending.take()
    }
}

/// The state after a run of failed presentations without device loss, one per entry of
/// `redraws` (whether that attempt also asked for a full redraw), with no request taken between.
pub open spec fn after_failed_presents(v: FrameRetryView, redraws: Seq<bool>) -> FrameRetryView
    decreases redraws.len(),
{
    if redraws.len() == 0 {
        v
    } else {
        after_record(after_failed_presents(v, redraws.drop_last()), false, redraws.last(), false)
    }
}

/// Persistent failure is bounded: counting from a successful presentation, a run of failures
/// keeps a retry pending for the first nine failures and for none from the tenth on, and the
/// failure count saturates instead of wrapping.
pub proof fn lemma_failure_budget(v: FrameRetryView, redraws: Seq<bool>)
    requires
        v.failures == 0,
        redraws.len() > 0,
    ensures
        after_failed_presents(v, redraws).failures == (if redraws.len() < u8::MAX {
            redraws.len()
        } else {
            u8::MAX as nat
        }),
        after_failed_presents(v, redraws).pending is Some <==> redraws.len()
            < MAX_FAILED_PRESENTS,
    decreases redraws.len(),
{
    let prior = redraws.drop_last();
    if prior.len() == 0 {
        assert(after_failed_presents(v, prior) == v);
    } else {
        lemma_failure_budget(v, prior);
    }
}

/// A success resets the budget and clears whatever retry was pending: afterwards a request is
/// pending only if a full redraw is still needed, and a failure right after it on a live device
/// asks for a retry again.
pub proof fn lemma_success_resets_budget(
    v: FrameRetryView,
    needs_redraw: bool,
    redraw_on_failure: bool,
)
    ensures
        after_record(v, true, needs_redraw, false).failures == 0,
        after_record(v, true, false, false).pending is None,
        after_record(v, true, true, false).pending == Some(true),
        after_record(after_record(v, true, needs_redraw, false), false, redraw_on_failure, false).pending
            is Some,
{
}

/// Device loss stops pending retries, whatever was pending before.
pub proof fn lemma_device_loss_stops_retries(
    v: FrameRetryView,
    presented: bool,
    needs_redraw: bool,
)
    ensures
        after_record(v, presented, needs_redraw, true).pending is None,
{
}

/// A request to bypass cached sprites survives further failed presentations until it is taken,
/// as long as the budget lasts and the device is live.
pub proof fn lemma_force_render_survives_failures(v: FrameRetryView, needs_redraw: bool)
    requires
        v.pending == Some(true),
        failures_after(v.failures, false) < MAX_FAILED_PRESENTS,
    ensures
        after_record(v, false, needs_redraw, false).pending == Some(true),
{
}

} // verus!
