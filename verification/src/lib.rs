//! Platform policies of a GPU-accelerated UI toolkit: presentation buffering with stall
//! detection, retry of failed frame presentations, monotonic native-menu action tags, the
//! remote-surface compositing queue, glyph-shadow blur geometry and browser canvas resizing.
pub mod frame_retry;
pub mod display_buffering;
pub mod menu_actions;
pub mod remote_surface;
pub mod glyph_blur;
pub mod canvas_resize;
