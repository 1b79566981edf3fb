# gpui_platform

Platform policies of a GPU-accelerated UI toolkit, verified with Verus.

- `src/display_buffering.rs`: the double/triple buffering preference and the per-window stall
  detector that promotes an `Auto` window to three drawables.
- `src/frame_retry.rs`: retries of failed frame presentations, bounded to ten failures.
- `src/menu_actions.rs`: native menu actions under monotonic tags.
- `src/remote_surface.rs`: the queue of remote-window frames composited on each draw.
- `src/glyph_blur.rs`: the separable Gaussian blur of glyph coverage masks for text shadows;
  the caller supplies the kernel and the sample arithmetic.
- `src/canvas_resize.rs`: sizing decisions of a window that renders into a browser canvas.

`app/` holds what the verified library cannot: the process-wide preference, the thread-local
surface queue, serde, the floating-point blur arithmetic and the Windows dark-mode call.
