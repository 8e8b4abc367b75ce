use iced_winit::backend::{
    flush, present, Draw, FlushPlan, FrameStep, LayerContent, Rectangle, ARROW_DOWN_ICON,
    CHECKMARK_ICON,
};

fn layer(width: u32, height: u32, quads: usize, meshes: usize, images: usize) -> LayerContent {
    LayerContent {
        bounds: Rectangle { x: 0, y: 0, width, height },
        quads,
        meshes,
        images,
        text: 0,
    }
}

#[test]
fn empty_bounds_skip_layer() {
    assert_eq!(flush(&layer(0, 10, 3, 3, 3), true), None);
    assert_eq!(flush(&layer(10, 0, 3, 3, 3), true), None);
}

#[test]
fn pipelines_follow_content() {
    assert_eq!(
        flush(&layer(1, 1, 2, 0, 1), true),
        Some(FlushPlan { quads: true, meshes: false, images: true, text: false })
    );
    assert_eq!(
        flush(&layer(8, 8, 0, 5, 1), false),
        Some(FlushPlan { quads: false, meshes: true, images: false, text: false })
    );
    let with_text = LayerContent { text: 3, ..layer(2, 2, 0, 0, 0) };
    assert_eq!(
        flush(&with_text, true),
        Some(FlushPlan { quads: false, meshes: false, images: false, text: true })
    );
}

#[test]
fn draws_run_in_order() {
    let all = FlushPlan { quads: true, meshes: true, images: true, text: true };
    assert_eq!(all.draws(), vec![Draw::Quads, Draw::Meshes, Draw::Images, Draw::Text]);
    let some = FlushPlan { quads: false, meshes: true, images: false, text: true };
    assert_eq!(some.draws(), vec![Draw::Meshes, Draw::Text]);
    let none = FlushPlan { quads: false, meshes: false, images: false, text: false };
    assert!(none.draws().is_empty());
}

#[test]
fn overlay_is_flushed_last_then_cache_trimmed() {
    let layers = vec![layer(4, 4, 1, 0, 0), layer(0, 0, 1, 1, 1)];
    let overlay = LayerContent { text: 2, ..layer(4, 4, 0, 0, 0) };
    let overlay_plan = FlushPlan { quads: false, meshes: false, images: false, text: true };
    let steps = present(&layers, &overlay, false);
    assert_eq!(
        steps,
        vec![
            FrameStep::Flush(FlushPlan { quads: true, meshes: false, images: false, text: false }),
            FrameStep::Skip,
            FrameStep::Flush(overlay_plan),
        ]
    );
    let steps = present(&layers, &overlay, true);
    assert_eq!(steps.len(), 4);
    assert_eq!(steps[2], FrameStep::Flush(overlay_plan));
    assert_eq!(steps[3], FrameStep::TrimImageCache);
    assert_eq!(
        present(&Vec::new(), &overlay, true),
        vec![FrameStep::Flush(overlay_plan), FrameStep::TrimImageCache]
    );
}

#[test]
fn icon_characters() {
    assert_eq!(CHECKMARK_ICON, '✓');
    assert_eq!(ARROW_DOWN_ICON, '▼');
}
