use bevy_ratatui::windowed_context::plugin::{
    copy_rgb_into_rgba, pixmap_extent, plan_frame_update, FrameUpdate,
};

#[test]
fn same_size_copies_pixels() {
    assert_eq!(
        plan_frame_update(80, 24, 80, 24),
        FrameUpdate::CopyPixels { width: 80, height: 24 }
    );
}

#[test]
fn other_width_resizes() {
    assert_eq!(plan_frame_update(80, 24, 100, 24), FrameUpdate::Resize { width: 100, height: 24 });
}

#[test]
fn other_height_resizes() {
    assert_eq!(plan_frame_update(80, 24, 80, 30), FrameUpdate::Resize { width: 80, height: 30 });
}

#[test]
fn resize_then_copy() {
    let first = plan_frame_update(1, 1, 640, 480);
    assert_eq!(first, FrameUpdate::Resize { width: 640, height: 480 });
    if let FrameUpdate::Resize { width, height } = first {
        assert_eq!(
            plan_frame_update(width, height, 640, 480),
            FrameUpdate::CopyPixels { width: 640, height: 480 }
        );
    }
}

#[test]
fn extent_truncates_to_u32() {
    assert_eq!(pixmap_extent(640, 480), (640, 480));
    if usize::BITS > 32 {
        let big = (1usize << 32) + 5;
        assert_eq!(pixmap_extent(big, 7), (5, 7));
    }
}

#[test]
fn copy_keeps_alpha() {
    let rgb = vec![1, 2, 3, 4, 5, 6, 7, 8, 9, 10, 11, 12];
    let mut rgba = vec![0, 0, 0, 255, 0, 0, 0, 128, 0, 0, 0, 255, 0, 0, 0, 7];
    copy_rgb_into_rgba(&rgb, &mut rgba, 2, 2);
    assert_eq!(rgba, vec![1, 2, 3, 255, 4, 5, 6, 128, 7, 8, 9, 255, 10, 11, 12, 7]);
}

#[test]
fn copy_leaves_bytes_past_the_frame() {
    let rgb = vec![9, 8, 7, 6, 5, 4, 100, 100, 100];
    let mut rgba = vec![0, 0, 0, 1, 0, 0, 0, 2, 50, 51, 52, 53];
    copy_rgb_into_rgba(&rgb, &mut rgba, 2, 1);
    assert_eq!(rgba, vec![9, 8, 7, 1, 6, 5, 4, 2, 50, 51, 52, 53]);
}

#[test]
fn empty_frame_copies_nothing() {
    let mut rgba = vec![1, 2, 3, 4];
    copy_rgb_into_rgba(&[], &mut rgba, 0, 5);
    assert_eq!(rgba, vec![1, 2, 3, 4]);
}
