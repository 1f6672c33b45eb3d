use vst3_skeleton::view::{editor_rect, rect_size, ViewRect, EDITOR_H, EDITOR_W};

#[test]
fn editor_size() {
    assert_eq!(editor_rect(), ViewRect { left: 0, top: 0, right: 800, bottom: 600 });
    assert_eq!((EDITOR_W, EDITOR_H), (800, 600));
}

#[test]
fn sizes_of_rects() {
    assert_eq!(rect_size(&ViewRect { left: 10, top: 20, right: 110, bottom: 70 }), (100, 50));
    assert_eq!(rect_size(&ViewRect { left: 10, top: 20, right: 0, bottom: 0 }), (-10, -20));
}
