//! Out-of-band queue for compositing remote-window video frames.
//!
//! An element pushes frames here during paint and the renderer drains and composites them on
//! top of the scene each frame. Paint and draw run one after the other on one thread, so the
//! queue is owned by that thread and handed to these functions.
use std::sync::Arc;
use vstd::prelude::*;

verus! {

/// One remote-window frame to composite this draw: a BGRA image and where to place it.
pub struct RemoteSurface<B> {
    /// Destination rectangle on the swapchain, in device pixels.
    pub bounds: B,
    pub width: u32,
    pub height: u32,
    /// Bytes per row of `bgra` (may exceed `width * 4`).
    pub stride: u32,
    pub bgra: Arc<Vec<u8>>,
}

/// Queues a frame to be composited on the next draw. Call from an element's paint.
pub fn push_surface<B>(pending: &mut Vec<RemoteSurface<B>>, surface: RemoteSurface<B>)
    ensures
        final(pending)@ == old(pending)@.push(surface),
{
    pending.push(surface);
}

/// Drains the queued frames, oldest first, leaving the queue empty (called by the renderer).
pub fn take_surfaces<B>(pending: &mut Vec<RemoteSurface<B>>) -> (surfaces: Vec<
    RemoteSurface<B>,
>)
    ensures
        surfaces@ == old(pending)@,
        final(pending)@ == Seq::<RemoteSurface<B>>::empty(),
{
    let mut surfaces = Vec::new();
    std::mem::swap(&mut surfaces, pending);
    surfaces
}

/// The queue after pushing `pushed`, one surface after another, onto `queue`.
pub open spec fn queued_after<B>(
    queue: Seq<RemoteSurface<B>>,
    pushed: Seq<RemoteSurface<B>>,
) -> Seq<RemoteSurface<B>>
    decreases pushed.len(),
{
    if pushed.len() == 0 {
        queue
    } else {
        queued_after(queue, pushed.drop_last()).push(pushed.last())
    }
}

/// Frames come out in the order they were queued: pushing a run of surfaces appends exactly that
/// run, so the drain after an earlier drain returns the run itself.
pub proof fn lemma_drain_returns_pushed<B>(
    queue: Seq<RemoteSurface<B>>,
    pushed: Seq<RemoteSurface<B>>,
)
    ensures
        queued_after(queue, pushed) == queue + pushed,
        queued_after(Seq::empty(), pushed) == pushed,
    decreases pushed.len(),
{
    if pushed.len() > 0 {
        lemma_drain_returns_pushed(queue, pushed.drop_last());
        assert(queue + pushed =~= (queue + pushed.drop_last()).push(pushed.last()));
    }
    lemma_drain_returns_pushed_from_empty(pushed);
}

proof fn lemma_drain_returns_pushed_from_empty<B>(pushed: Seq<RemoteSurface<B>>)
    ensures
        queued_after(Seq::empty(), pushed) == pushed,
    decreases pushed.len(),
{
    if pushed.len() > 0 {
        lemma_drain_returns_pushed_from_empty(pushed.drop_last());
        assert(pushed.drop_last().push(pushed.last()) =~= pushed);
    }
}

} // verus!
