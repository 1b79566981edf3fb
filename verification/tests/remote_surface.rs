use gpui_platform::remote_surface::{push_surface, take_surfaces, RemoteSurface};
use std::sync::Arc;

fn surface(width: u32) -> RemoteSurface<(i32, i32)> {
    RemoteSurface {
        bounds: (width as i32, 0),
        width,
        height: 2,
        stride: width * 4 + 8,
        bgra: Arc::new(vec![0; (width * 4 + 8) as usize * 2]),
    }
}

#[test]
fn frames_are_drained_in_the_order_they_were_queued() {
    let mut pending = Vec::new();
    push_surface(&mut pending, surface(1));
    push_surface(&mut pending, surface(2));
    push_surface(&mut pending, surface(3));
    let drained = take_surfaces(&mut pending);
    let widths: Vec<u32> = drained.iter().map(|s| s.width).collect();
    assert_eq!(widths, vec![1, 2, 3]);
    assert_eq!(drained[1].bounds, (2, 0));
    assert!(pending.is_empty());
    assert!(take_surfaces(&mut pending).is_empty());
    push_surface(&mut pending, surface(4));
    assert_eq!(take_surfaces(&mut pending).len(), 1);
}
