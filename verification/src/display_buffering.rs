//! Device-local presentation-buffering preference and per-window stall detection.
//!
//! Times are nanoseconds on one monotonic clock; durations are nanoseconds.
use std::sync::atomic::{AtomicU8, Ordering};
use vstd::prelude::*;

verus! {

/// A wait for a drawable longer than this counts as a stall.
pub const STALL_WAIT_NANOS: u64 = 20_000_000;

/// A frame that starts more than this after the previous frame ended follows an idle gap.
pub const IDLE_GAP_NANOS: u64 = 250_000_000;

/// Stalls only accumulate within an interval of active drawing this long.
pub const STALL_INTERVAL_NANOS: u64 = 2_000_000_000;

/// Stalls within one interval that promote an `Auto` window to three buffers.
pub const STALLS_TO_PROMOTE: u8 = 6;

/// Presentation policy for native windows. Other backends ignore this preference.
#[derive(Clone, Copy, Debug, PartialEq, Eq, Structural)]
pub enum DisplayBuffering {
    /// Start with two buffers and promote after repeated drawable-acquisition stalls.
    Auto,
    /// Always request two buffers.
    Double,
    /// Always request three buffers.
    Triple,
}

impl Default for DisplayBuffering {
    fn default() -> (mode: Self)
        ensures
            mode == DisplayBuffering::Auto,
    {
        DisplayBuffering::Auto
    }
}

impl DisplayBuffering {
    /// The byte that stands for this mode in the process-wide preference.
    pub open spec fn code_of(self) -> u8 {
        match self {
            DisplayBuffering::Auto => 0,
            DisplayBuffering::Double => 1,
            DisplayBuffering::Triple => 2,
        }
    }

    /// The mode that a stored byte stands for; unknown bytes read as `Auto`.
    pub open spec fn from_code_of(code: u8) -> DisplayBuffering {
        if code == 1 {
            DisplayBuffering::Double
        } else if code == 2 {
            DisplayBuffering::Triple
        } else {
            DisplayBuffering::Auto
        }
    }

    /// Encodes the mode for the process-wide preference.
    pub fn code(self) -> (code: u8)
        ensures
            code == self.code_of(),
    {
        match self {
            DisplayBuffering::Auto => 0,
            DisplayBuffering::Double => 1,
            DisplayBuffering::Triple => 2,
        }
    }

    /// Decodes a stored preference byte.
    pub fn from_code(code: u8) -> (mode: DisplayBuffering)
        ensures
            mode == DisplayBuffering::from_code_of(code),
    {
        match code {
            1 => DisplayBuffering::Double,
            2 => DisplayBuffering::Triple,
            _ => DisplayBuffering::Auto,
        }
    }
}

/// Decoding gives back every encoded mode, and the zeroed preference reads as the default,
/// `Auto`.
pub proof fn lemma_code_round_trip(mode: DisplayBuffering)
    ensures
        DisplayBuffering::from_code_of(mode.code_of()) == mode,
        DisplayBuffering::from_code_of(0) == DisplayBuffering::Auto,
{
}

/// Sets the process-wide preference held in `preference`. Windows apply it on their next draw.
///
/// The byte stored is `mode.code()`; the atomic's contents are not modelled.
pub fn set_display_buffering(preference: &AtomicU8, mode: DisplayBuffering) {
    preference.store(mode.code(), Ordering::Relaxed);
}

/// Reads the process-wide preference held in `preference`, without allocating or performing
/// I/O.
///
/// The byte read is decoded by [`DisplayBuffering::from_code`]; which byte another thread stored
/// last is not modelled, so any mode may come back.
pub fn display_buffering(preference: &AtomicU8) -> DisplayBuffering {
    DisplayBuffering::from_code(preference.load(Ordering::Relaxed))
}

/// The abstract state of a [`DisplayBufferingState`].
pub struct DisplayBufferingView {
    pub mode: DisplayBuffering,
    /// Whether an `Auto` window has been promoted to three buffers.
    pub promoted: bool,
    /// When the previous frame finished waiting for its drawable.
    pub last_frame: Option<int>,
    /// When the current stall-counting interval began.
    pub interval_start: Option<int>,
    /// Stalls counted in the current interval.
    pub stalls: nat,
}

/// The state of a window that has just started, or whose mode has just changed, at `mode`.
pub open spec fn fresh_state(mode: DisplayBuffering) -> DisplayBufferingView {
    DisplayBufferingView {
        mode,
        promoted: false,
        last_frame: None,
        interval_start: None,
        stalls: 0,
    }
}

impl DisplayBufferingView {
    /// Promotion happens exactly at the sixth stall, and only `Auto` windows are promoted.
    pub open spec fn wf(self) -> bool {
        &&& self.promoted ==> self.mode == DisplayBuffering::Auto && self.stalls
            == STALLS_TO_PROMOTE
        &&& !self.promoted ==> self.stalls < STALLS_TO_PROMOTE
    }

    /// The number of drawables the window asks for.
    pub open spec fn drawable_count(self) -> nat {
        if self.mode == DisplayBuffering::Triple || self.promoted {
            3
        } else {
            2
        }
    }

    /// A frame at `now` follows an idle gap (or is the first frame).
    pub open spec fn is_idle_at(self, now: int) -> bool {
        match self.last_frame {
            None => true,
            Some(last) => now - last > IDLE_GAP_NANOS,
        }
    }

    /// A frame at `now` falls outside the current stall-counting interval (or there is none).
    pub open spec fn interval_expired_at(self, now: int) -> bool {
        match self.interval_start {
            None => true,
            Some(start) => now - start > STALL_INTERVAL_NANOS,
        }
    }

    /// The state after a frame at `now` waited `wait` for its drawable.
    ///
    /// Fixed modes and promoted windows ignore waits. Otherwise the frame's end is remembered; a
    /// frame after an idle gap, or outside the current interval, starts a new interval with no
    /// stalls; and a wait over the stall threshold by a frame that does not follow an idle gap
    /// counts as a stall, promoting the window at the sixth.
    pub open spec fn after_wait(self, now: int, wait: int) -> DisplayBufferingView {
        if self.mode != DisplayBuffering::Auto || self.promoted {
            self
        } else {
            let idle = self.is_idle_at(now);
            let restart = idle || self.interval_expired_at(now);
            let base: nat = if restart {
                0
            } else {
                self.stalls
            };
            let counted = !idle && wait > STALL_WAIT_NANOS;
            let stalls: nat = if counted {
                base + 1
            } else {
                base
            };
            DisplayBufferingView {
                mode: self.mode,
                promoted: stalls >= STALLS_TO_PROMOTE,
                last_frame: Some(now + wait),
                interval_start: if restart {
                    Some(now)
                } else {
                    self.interval_start
                },
                stalls,
            }
        }
    }
}

/// The state after a run of frames, each given as `(now, wait)`, in order.
pub open spec fn after_waits(
    v: DisplayBufferingView,
    frames: Seq<(int, int)>,
) -> DisplayBufferingView
    decreases frames.len(),
{
    if frames.len() == 0 {
        v
    } else {
        after_waits(v, frames.drop_last()).after_wait(frames.last().0, frames.last().1)
    }
}

/// Constant-size per-window policy. Auto promotion lasts until the mode changes or the window
/// closes. Six waits over 20 ms within two seconds of active drawing trigger promotion. The
/// first frame after an idle gap (over 250 ms) is ignored, so wakeup and isolated resize stalls
/// do not accumulate.
#[derive(Debug)]
pub struct DisplayBufferingState {
    mode: DisplayBuffering,
    promoted: bool,
    last_frame: Option<u64>,
    interval_start: Option<u64>,
    stalls: u8,
}

/// A time as an unbounded integer.
pub open spec fn time_of(t: Option<u64>) -> Option<int> {
    match t {
        Some(t) => Some(t as int),
        None => None,
    }
}

impl View for DisplayBufferingState {
    type V = DisplayBufferingView;

    closed spec fn view(&self) -> DisplayBufferingView {
        DisplayBufferingView {
            mode: self.mode,
            promoted: self.promoted,
            last_frame: time_of(self.last_frame),
            interval_start: time_of(self.interval_start),
            stalls: self.stalls as nat,
        }
    }
}

impl DisplayBufferingState {
    #[verifier::type_invariant]
    closed spec fn inv(self) -> bool {
        self@.wf()
    }

    /// Starts a new window at the requested policy.
    pub fn new(mode: DisplayBuffering) -> (state: Self)
        ensures
            state@ == fresh_state(mode),
    {
        DisplayBufferingState {
            mode,
            promoted: false,
            last_frame: None,
            interval_start: None,
            stalls: 0,
        }
    }

    /// Applies an explicit policy change, resetting Auto's observation history; setting the
    /// current mode again changes nothing.
    pub fn set_mode(&mut self, mode: DisplayBuffering)
        ensures
            final(self)@ == (if old(self)@.mode != mode {
                fresh_state(mode)
            } else {
                old(self)@
            }),
            final(self)@.wf(),
    {
        proof {
            use_type_invariant(&*self);
        }
        if self.mode != mode {
            *self = Self::new(mode);
        }
        proof {
            use_type_invariant(&*self);
        }
    }

    /// The requested drawable count: two, or three for `Triple` and promoted `Auto` windows.
    pub fn drawable_count(&self) -> (count: u64)
        ensures
            count == self@.drawable_count(),
            count == 2 || count == 3,
    {
        if self.mode == DisplayBuffering::Triple || self.promoted {
            3
        } else {
            2
        }
    }

    /// Records the time a frame starting at `now` spent blocked acquiring a drawable (`wait`),
    /// not CPU rendering or idle time.
    pub fn observe_wait(&mut self, now: u64, wait: u64)
        requires
            old(self)@.mode == DisplayBuffering::Auto && !old(self)@.promoted ==> now + wait
                <= u64::MAX,
        ensures
            final(self)@ == old(self)@.after_wait(now as int, wait as int),
            final(self)@.wf(),
    {
        proof {
            use_type_invariant(&*self);
        }
        if self.mode != DisplayBuffering::Auto || self.promoted {
            return;
        }
        let idle = match self.last_frame {
            None => true,
            Some(last) => now >= last && now - last > IDLE_GAP_NANOS,
        };
        // The time spent blocked is excluded from the next frame's idle-gap calculation.
        let last_frame = Some(now + wait);
        let restart = idle || match self.interval_start {
            None => true,
            Some(start) => now >= start && now - start > STALL_INTERVAL_NANOS,
        };
        let interval_start = if restart {
            Some(now)
        } else {
            self.interval_start
        };
        let mut stalls = if restart {
            0
        } else {
            self.stalls
        };
        if !idle && wait > STALL_WAIT_NANOS {
            stalls = stalls + 1;
        }
        *self = DisplayBufferingState {
            mode: self.mode,
            promoted: stalls >= STALLS_TO_PROMOTE,
            last_frame,
            interval_start,
            stalls,
        };
        proof {
            use_type_invariant(&*self);
        }
    }
}

/// Every frame keeps the state well formed: promotion happens exactly at the sixth stall.
pub proof fn lemma_after_wait_wf(v: DisplayBufferingView, now: int, wait: int)
    requires
        v.wf(),
    ensures
        v.after_wait(now, wait).wf(),
{
}

/// Promotion is sticky: once promoted, no frame demotes the window again (only a change of mode
/// does), so it keeps asking for three drawables.
pub proof fn lemma_promotion_is_sticky(v: DisplayBufferingView, now: int, wait: int)
    requires
        v.promoted,
    ensures
        v.after_wait(now, wait) == v,
        v.after_wait(now, wait).drawable_count() == 3,
{
}

/// Fixed modes ignore waits: `Double` always asks for two drawables and `Triple` for three.
pub proof fn lemma_fixed_modes_ignore_waits(v: DisplayBufferingView, now: int, wait: int)
    requires
        v.wf(),
        v.mode != DisplayBuffering::Auto,
    ensures
        v.after_wait(now, wait) == v,
        v.mode == DisplayBuffering::Double ==> v.drawable_count() == 2,
        v.mode == DisplayBuffering::Triple ==> v.drawable_count() == 3,
{
}

/// The first frame after an idle gap is ignored: however long it waited, it only starts a new
/// interval with no stalls, and the window stays at two drawables.
pub proof fn lemma_idle_frame_is_ignored(v: DisplayBufferingView, now: int, wait: int)
    requires
        v.wf(),
        v.mode == DisplayBuffering::Auto,
        !v.promoted,
        v.is_idle_at(now),
    ensures
        v.after_wait(now, wait).stalls == 0,
        v.after_wait(now, wait).interval_start == Some(now),
        !v.after_wait(now, wait).promoted,
        v.after_wait(now, wait).drawable_count() == 2,
{
}

/// An expired interval restarts at the frame that finds it over: a frame that does not follow an
/// idle gap but comes more than two seconds after the current interval began opens a new interval
/// at its own start, counting only itself (if it stalled), and does not promote.
pub proof fn lemma_expired_interval_restarts(v: DisplayBufferingView, now: int, wait: int)
    requires
        v.wf(),
        v.mode == DisplayBuffering::Auto,
        !v.promoted,
        !v.is_idle_at(now),
        v.interval_expired_at(now),
    ensures
        v.after_wait(now, wait).interval_start == Some(now),
        v.after_wait(now, wait).stalls == (if wait > STALL_WAIT_NANOS {
            1nat
        } else {
            0nat
        }),
        !v.after_wait(now, wait).promoted,
        v.after_wait(now, wait).last_frame == Some(now + wait),
{
}

/// Within a running interval, a frame that closely follows the previous one adds one stall when
/// it waits over 20 ms and none otherwise, and keeps the interval's start.
pub proof fn lemma_stall_counts_within_interval(v: DisplayBufferingView, now: int, wait: int)
    requires
        v.wf(),
        v.mode == DisplayBuffering::Auto,
        !v.promoted,
        !v.is_idle_at(now),
        !v.interval_expired_at(now),
    ensures
        v.after_wait(now, wait).interval_start == v.interval_start,
        v.after_wait(now, wait).stalls == v.stalls + (if wait > STALL_WAIT_NANOS {
            1nat
        } else {
            0nat
        }),
        v.after_wait(now, wait).promoted == (v.after_wait(now, wait).stalls
            == STALLS_TO_PROMOTE),
{
}

/// A wait of at most 20 ms never promotes a window.
pub proof fn lemma_short_wait_never_promotes(v: DisplayBufferingView, now: int, wait: int)
    requires
        v.wf(),
        !v.promoted,
        wait <= STALL_WAIT_NANOS,
    ensures
        !v.after_wait(now, wait).promoted,
{
}

/// After the first `k` frames of a run that starts after an idle gap and continues with stalls
/// that each follow the previous frame closely and stay within one interval of the first frame.
proof fn lemma_stall_run_prefix(v: DisplayBufferingView, frames: Seq<(int, int)>, k: int)
    requires
        v.wf(),
        v.mode == DisplayBuffering::Auto,
        !v.promoted,
        frames.len() == 7,
        1 <= k <= 7,
        v.is_idle_at(frames[0].0) || (v.interval_expired_at(frames[0].0) && frames[0].1
            <= STALL_WAIT_NANOS),
        forall|i: int|
            1 <= i < 7 ==> #[trigger] frames[i].0 - (frames[i - 1].0 + frames[i - 1].1)
                <= IDLE_GAP_NANOS,
        forall|i: int| 1 <= i < 7 ==> #[trigger] frames[i].0 - frames[0].0 <= STALL_INTERVAL_NANOS,
        forall|i: int| 1 <= i < 7 ==> #[trigger] frames[i].1 > STALL_WAIT_NANOS,
    ensures
        after_waits(v, frames.take(k)).mode == DisplayBuffering::Auto,
        after_waits(v, frames.take(k)).stalls == k - 1,
        after_waits(v, frames.take(k)).promoted == (k == 7),
        after_waits(v, frames.take(k)).interval_start == Some(frames[0].0),
        after_waits(v, frames.take(k)).last_frame == Some(frames[k - 1].0 + frames[k - 1].1),
    decreases k,
{
    let prefix = frames.take(k);
    assert(prefix.drop_last() =~= frames.take(k - 1));
    assert(prefix.last() == frames[k - 1]);
    if k == 1 {
        assert(after_waits(v, frames.take(0)) == v);
    } else {
        lemma_stall_run_prefix(v, frames, k - 1);
        let i = k - 1;
        assert(frames[i].0 - (frames[i - 1].0 + frames[i - 1].1) <= IDLE_GAP_NANOS);
        assert(frames[i].0 - frames[0].0 <= STALL_INTERVAL_NANOS);
        assert(frames[i].1 > STALL_WAIT_NANOS);
    }
}

/// Six stalls promote: after a frame that starts a new interval without stalling (it follows an
/// idle gap, or finds the current two-second interval over after continuous drawing), six more
/// frames that each wait over 20 ms, start within 250 ms of the previous frame's end and within
/// two seconds of that first frame promote an `Auto` window to three drawables, and not one frame
/// earlier.
pub proof fn lemma_six_stalls_promote(v: DisplayBufferingView, frames: Seq<(int, int)>)
    requires
        v.wf(),
        v.mode == DisplayBuffering::Auto,
        !v.promoted,
        frames.len() == 7,
        v.is_idle_at(frames[0].0) || (v.interval_expired_at(frames[0].0) && frames[0].1
            <= STALL_WAIT_NANOS),
        forall|i: int|
            1 <= i < 7 ==> #[trigger] frames[i].0 - (frames[i - 1].0 + frames[i - 1].1)
                <= IDLE_GAP_NANOS,
        forall|i: int| 1 <= i < 7 ==> #[trigger] frames[i].0 - frames[0].0 <= STALL_INTERVAL_NANOS,
        forall|i: int| 1 <= i < 7 ==> #[trigger] frames[i].1 > STALL_WAIT_NANOS,
    ensures
        after_waits(v, frames).promoted,
        after_waits(v, frames).drawable_count() == 3,
        forall|k: int| 1 <= k < 7 ==> !(#[trigger] after_waits(v, frames.take(k))).promoted,
{
    assert forall|k: int| 1 <= k < 7 implies !(#[trigger] after_waits(
        v,
        frames.take(k),
    )).promoted by {
        lemma_stall_run_prefix(v, frames, k);
    }
    lemma_stall_run_prefix(v, frames, 7);
    assert(frames.take(7) =~= frames);
}

} // verus!
