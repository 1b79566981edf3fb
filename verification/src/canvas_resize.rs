//! Sizing decisions of a browser window that renders into a canvas.
//!
//! A resize observer reports the canvas's display size in device pixels. The first size is
//! applied at once; later changes are applied on every tick while a resize is in flight (so
//! cached layers only composite their stale texture) and once more, crisply, when a quiet
//! debounce period ends. The logical size and pixel ratio that go with a size (`L`) are carried
//! through unchanged.
use vstd::prelude::*;

verus! {

/// What the window does with one resize-observer report.
#[derive(Clone, Copy, Debug, PartialEq, Eq, Structural)]
pub enum ResizeAction {
    /// Neither the size nor the pixel ratio changed: nothing to do.
    Unchanged,
    /// The canvas is not displayed: report an empty size and skip rendering.
    Hidden,
    /// The first frame: apply this drawable size at once, outside any resize loop.
    Apply { width: u32, height: u32 },
    /// A resize is in flight: apply this drawable size now and (re)start the debounce timer.
    ApplyAndDebounce { width: u32, height: u32 },
}

/// The abstract state of a [`ResizeTracker`].
pub struct ResizeTrackerView<L> {
    /// The last physical size the observer reported.
    pub last_physical_size: (u32, u32),
    /// The pixel ratio changed since the last report.
    pub notify_scale: bool,
    /// The first frame has been sized.
    pub has_rendered: bool,
    /// A resize is in flight.
    pub resizing: bool,
    /// The drawable size the next draw adopts.
    pub pending_physical_size: Option<(u32, u32)>,
    /// The latest size seen mid-resize, applied again when the debounce ends.
    pub pending_resize: Option<(u32, u32, L)>,
}

/// The smaller of two sizes.
pub open spec fn min_u32(a: u32, b: u32) -> u32 {
    if a < b {
        a
    } else {
        b
    }
}

/// The state and action after the observer reports a physical size of `width` by `height`
/// device pixels, with `layout` the logical size and pixel ratio that go with it.
pub open spec fn after_observe<L>(
    v: ResizeTrackerView<L>,
    width: u32,
    height: u32,
    max_texture_dimension: u32,
    layout: L,
) -> (ResizeTrackerView<L>, ResizeAction) {
    if !v.notify_scale && v.last_physical_size == (width, height) {
        (v, ResizeAction::Unchanged)
    } else {
        let seen = ResizeTrackerView {
            last_physical_size: (width, height),
            notify_scale: false,
            ..v
        };
        if width == 0 || height == 0 {
            (seen, ResizeAction::Hidden)
        } else {
            let w = min_u32(width, max_texture_dimension);
            let h = min_u32(height, max_texture_dimension);
            if !v.has_rendered {
                (
                    ResizeTrackerView {
                        has_rendered: true,
                        resizing: false,
                        pending_physical_size: Some((w, h)),
                        ..seen
                    },
                    ResizeAction::Apply { width: w, height: h },
                )
            } else {
                (
                    ResizeTrackerView {
                        resizing: true,
                        pending_physical_size: Some((w, h)),
                        pending_resize: Some((w, h, layout)),
                        ..seen
                    },
                    ResizeAction::ApplyAndDebounce { width: w, height: h },
                )
            }
        }
    }
}

/// The state after the debounce period ends: the resize is over and the latest size seen
/// mid-resize, if any, is queued for the next draw.
pub open spec fn after_debounce<L>(v: ResizeTrackerView<L>) -> ResizeTrackerView<L> {
    ResizeTrackerView {
        resizing: false,
        pending_resize: None,
        pending_physical_size: match v.pending_resize {
            Some(p) => Some((p.0, p.1)),
            None => v.pending_physical_size,
        },
        ..v
    }
}

/// The resize bookkeeping of one canvas window.
pub struct ResizeTracker<L> {
    last_physical_size: (u32, u32),
    notify_scale: bool,
    has_rendered: bool,
    resizing: bool,
    pending_physical_size: Option<(u32, u32)>,
    pending_resize: Option<(u32, u32, L)>,
}

impl<L> View for ResizeTracker<L> {
    type V = ResizeTrackerView<L>;

    closed spec fn view(&self) -> ResizeTrackerView<L> {
        ResizeTrackerView {
            last_physical_size: self.last_physical_size,
            notify_scale: self.notify_scale,
            has_rendered: self.has_rendered,
            resizing: self.resizing,
            pending_physical_size: self.pending_physical_size,
            pending_resize: self.pending_resize,
        }
    }
}

impl<L> ResizeTracker<L> {
    /// A window that has not been sized yet.
    pub fn new() -> (tracker: Self)
        ensures
            tracker@ == (ResizeTrackerView::<L> {
                last_physical_size: (0, 0),
                notify_scale: false,
                has_rendered: false,
                resizing: false,
                pending_physical_size: None,
                pending_resize: None,
            }),
    {
        ResizeTracker {
            last_physical_size: (0, 0),
            notify_scale: false,
            has_rendered: false,
            resizing: false,
            pending_physical_size: None,
            pending_resize: None,
        }
    }

    /// Handles one resize-observer report of the canvas's display size in device pixels,
    /// clamping what is drawn to the largest texture the device supports.
    pub fn observe(&mut self, width: u32, height: u32, max_texture_dimension: u32, layout: L) -> (
        action: ResizeAction)
        ensures
            (final(self)@, action) == after_observe(
                old(self)@,
                width,
                height,
                max_texture_dimension,
                layout,
            ),
    {
        let scale_changed = self.notify_scale;
        self.notify_scale = false;
        let size_changed = self.last_physical_size.0 != width || self.last_physical_size.1
            != height;
        if !scale_changed && !size_changed {
            return ResizeAction::Unchanged;
        }
        self.last_physical_size = (width, height);
        if width == 0 || height == 0 {
            return ResizeAction::Hidden;
        }
        let w = if width < max_texture_dimension {
            width
        } else {
            max_texture_dimension
        };
        let h = if height < max_texture_dimension {
            height
        } else {
            max_texture_dimension
        };
        self.pending_physical_size = Some((w, h));
        if !self.has_rendered {
            self.has_rendered = true;
            self.resizing = false;
            ResizeAction::Apply { width: w, height: h }
        } else {
            self.resizing = true;
            self.pending_resize = Some((w, h, layout));
            ResizeAction::ApplyAndDebounce { width: w, height: h }
        }
    }

    /// The device pixel ratio changed: the next report is handled even if the size did not.
    pub fn scale_changed(&mut self)
        ensures
            final(self)@ == (ResizeTrackerView { notify_scale: true, ..old(self)@ }),
    {
        self.notify_scale = true;
    }

    /// Forgets the last reported size, so the next report is delivered again (used when the
    /// resize handler is registered after the first report).
    pub fn forget_observed_size(&mut self)
        ensures
            final(self)@ == (ResizeTrackerView { last_physical_size: (0, 0), ..old(self)@ }),
    {
        self.last_physical_size = (0, 0);
    }

    /// The debounce period ended: ends the resize and returns the latest size seen mid-resize
    /// (with its layout), now queued for the next draw, for the window to apply once more.
    pub fn debounce_elapsed(&mut self) -> (latest: Option<(u32, u32, L)>)
        ensures
            latest == old(self)@.pending_resize,
            final(self)@ == after_debounce(old(self)@),
    {
        self.resizing = false;
        let latest = self.pending_resize.take();
        match latest {
            Some(p) => {
                self.pending_physical_size = Some((p.0, p.1));
                Some(p)
            },
            None => None,
        }
    }

    /// True while a resize is in flight (until the debounce settles).
    pub fn is_in_resize_loop(&self) -> (resizing: bool)
        ensures
            resizing == self@.resizing,
    {
        self.resizing
    }

    /// Takes the drawable size queued for the next draw, if any.
    pub fn take_drawable_size(&mut self) -> (size: Option<(u32, u32)>)
        ensures
            size == old(self)@.pending_physical_size,
            final(self)@ == (ResizeTrackerView { pending_physical_size: None, ..old(self)@ }),
    {
        self.pending_physical_size.take()
    }
}

/// The drawable size taken from the canvas's displayed size when no size is queued, clamped to
/// the largest texture the device supports.
pub fn clamp_drawable_size(width: u32, height: u32, max_texture_dimension: u32) -> (size: (
    u32,
    u32,
))
    ensures
        size == (min_u32(width, max_texture_dimension), min_u32(height, max_texture_dimension)),
{
    let w = if width < max_texture_dimension {
        width
    } else {
        max_texture_dimension
    };
    let h = if height < max_texture_dimension {
        height
    } else {
        max_texture_dimension
    };
    (w, h)
}

/// Whether a draw at `width` by `height` must first resize a canvas whose buffer is
/// `canvas_width` by `canvas_height`: only for a non-empty size that differs.
pub fn canvas_needs_resize(width: u32, height: u32, canvas_width: u32, canvas_height: u32) -> (
    resize: bool)
    ensures
        resize == (width > 0 && height > 0 && (canvas_width != width || canvas_height != height)),
{
    width > 0 && height > 0 && (canvas_width != width || canvas_height != height)
}

/// What is drawn never exceeds the largest texture: every size the observer applies or queues
/// is the reported size clamped to the maximum texture dimension.
pub proof fn lemma_applied_sizes_are_clamped<L>(
    v: ResizeTrackerView<L>,
    width: u32,
    height: u32,
    max_texture_dimension: u32,
    layout: L,
)
    ensures
        ({
            let (w, action) = after_observe(v, width, height, max_texture_dimension, layout);
            &&& action matches ResizeAction::Apply { width: aw, height: ah } ==> aw <= max_texture_dimension
                && ah <= max_texture_dimension && aw == min_u32(width, max_texture_dimension)
                && ah == min_u32(height, max_texture_dimension)
            &&& action matches ResizeAction::ApplyAndDebounce { width: aw, height: ah } ==> aw
                <= max_texture_dimension && ah <= max_texture_dimension && aw == min_u32(
                width,
                max_texture_dimension,
            ) && ah == min_u32(height, max_texture_dimension)
            &&& w.pending_physical_size != v.pending_physical_size ==> w.pending_physical_size
                == Some((min_u32(width, max_texture_dimension), min_u32(height, max_texture_dimension)))
        }),
{
}

/// The first visible size is applied at once and outside a resize loop; every later change of
/// size is applied and debounced inside one, and (whether or not a resize was already in
/// flight) that report's clamped size and layout are what the end of the debounce applies.
pub proof fn lemma_first_size_is_immediate<L>(
    v: ResizeTrackerView<L>,
    width: u32,
    height: u32,
    max_texture_dimension: u32,
    layout: L,
)
    requires
        width > 0,
        height > 0,
        v.last_physical_size != (width, height),
    ensures
        ({
            let (w, action) = after_observe(v, width, height, max_texture_dimension, layout);
            &&& !v.has_rendered ==> action is Apply && !w.resizing && w.has_rendered
            &&& v.has_rendered ==> action is ApplyAndDebounce && w.resizing
            &&& v.has_rendered ==> w.pending_resize == Some(
                (
                    min_u32(width, max_texture_dimension),
                    min_u32(height, max_texture_dimension),
                    layout,
                ),
            )
            &&& v.has_rendered ==> after_debounce(w).pending_physical_size == Some(
                (min_u32(width, max_texture_dimension), min_u32(height, max_texture_dimension)),
            )
        }),
{
}

/// Every report that is not ignored records its size as the last one seen, a hidden (empty) one
/// included, so a canvas shown again after being hidden is sized again even at its old size.
pub proof fn lemma_reports_record_their_size<L>(
    v: ResizeTrackerView<L>,
    width: u32,
    height: u32,
    max_texture_dimension: u32,
    layout: L,
    shown_width: u32,
    shown_height: u32,
    shown_layout: L,
)
    ensures
        ({
            let (w, action) = after_observe(v, width, height, max_texture_dimension, layout);
            &&& action != ResizeAction::Unchanged ==> w.last_physical_size == (width, height)
            &&& action == ResizeAction::Hidden && shown_width > 0 && shown_height > 0 ==> after_observe(
                w,
                shown_width,
                shown_height,
                max_texture_dimension,
                shown_layout,
            ).1 != ResizeAction::Unchanged
        }),
{
}

/// A report of the size already seen, without a change of pixel ratio, changes nothing.
pub proof fn lemma_repeated_report_is_ignored<L>(
    v: ResizeTrackerView<L>,
    max_texture_dimension: u32,
    layout: L,
)
    requires
        !v.notify_scale,
    ensures
        after_observe(
            v,
            v.last_physical_size.0,
            v.last_physical_size.1,
            max_texture_dimension,
            layout,
        ) == (v, ResizeAction::Unchanged),
{
}

/// A change of pixel ratio, or forgetting the last size, makes the next report of any visible
/// size count again.
pub proof fn lemma_notices_redeliver<L>(
    v: ResizeTrackerView<L>,
    width: u32,
    height: u32,
    max_texture_dimension: u32,
    layout: L,
)
    requires
        width > 0,
        height > 0,
    ensures
        after_observe(
            ResizeTrackerView { notify_scale: true, ..v },
            width,
            height,
            max_texture_dimension,
            layout,
        ).1 != ResizeAction::Unchanged,
        after_observe(
            ResizeTrackerView { last_physical_size: (0, 0), ..v },
            width,
            height,
            max_texture_dimension,
            layout,
        ).1 != ResizeAction::Unchanged,
{
}

/// The debounce applies the latest size: after two reports in a resize loop, the end of the
/// debounce leaves the loop and queues the second size, with its layout, for the next draw.
pub proof fn lemma_debounce_applies_latest<L>(
    v: ResizeTrackerView<L>,
    first: (u32, u32),
    second: (u32, u32),
    max_texture_dimension: u32,
    first_layout: L,
    second_layout: L,
)
    requires
        v.has_rendered,
        first.0 > 0 && first.1 > 0,
        second.0 > 0 && second.1 > 0,
        first != v.last_physical_size,
        second != first,
    ensures
        ({
            let a = after_observe(v, first.0, first.1, max_texture_dimension, first_layout).0;
            let b = after_observe(a, second.0, second.1, max_texture_dimension, second_layout).0;
            let w = min_u32(second.0, max_texture_dimension);
            let h = min_u32(second.1, max_texture_dimension);
            &&& b.resizing
            &&& b.pending_resize == Some((w, h, second_layout))
            &&& !after_debounce(b).resizing
            &&& after_debounce(b).pending_physical_size == Some((w, h))
        }),
{
}

} // verus!
