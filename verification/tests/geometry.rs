use service_views::geometry::{effective_height, translate, Bounds, Origin, Units};

#[test]
fn embedded_pane_is_measured_from_the_main_window() {
    let bounds = Bounds { x: 10, y: 20, width: 300, height: 200 };
    let placement = translate(bounds, true, Some(Origin { x: 100, y: 100 }), 28);
    assert_eq!(placement.rect.x, 110);
    assert_eq!(placement.rect.y, 148);
    assert_eq!(placement.rect.width, 300);
    assert_eq!(placement.rect.height, 172);
    assert_eq!(placement.units, Units::Physical);
}

#[test]
fn independent_pane_keeps_the_requested_bounds() {
    let bounds = Bounds { x: 10, y: 20, width: 300, height: 200 };
    let placement = translate(bounds, false, Some(Origin { x: 100, y: 100 }), 28);
    assert_eq!(placement.rect.x, 10);
    assert_eq!(placement.rect.y, 20);
    assert_eq!(placement.rect.width, 300);
    assert_eq!(placement.rect.height, 200);
    assert_eq!(placement.units, Units::Logical);
}

#[test]
fn embedded_pane_without_a_main_window_keeps_the_requested_bounds() {
    let bounds = Bounds { x: -5, y: 7, width: 640, height: 480 };
    let placement = translate(bounds, true, None, 60);
    assert_eq!(placement.rect.x, -5);
    assert_eq!(placement.rect.y, 7);
    assert_eq!(placement.rect.width, 640);
    assert_eq!(placement.rect.height, 480);
    assert_eq!(placement.units, Units::Logical);
}

#[test]
fn short_pane_keeps_its_height() {
    let bounds = Bounds { x: 0, y: 0, width: 300, height: 28 };
    let placement = translate(bounds, true, Some(Origin { x: 5, y: 6 }), 28);
    assert_eq!(placement.rect.x, 5);
    assert_eq!(placement.rect.y, 34);
    assert_eq!(placement.rect.height, 28);

    let shorter = Bounds { x: 0, y: 0, width: 300, height: 10 };
    assert_eq!(translate(shorter, true, Some(Origin { x: 5, y: 6 }), 28).rect.height, 10);
}

#[test]
fn pane_one_pixel_taller_than_the_chrome_is_reduced() {
    let bounds = Bounds { x: 0, y: 0, width: 300, height: 29 };
    assert_eq!(translate(bounds, true, Some(Origin { x: 0, y: 0 }), 28).rect.height, 1);
}

#[test]
fn zero_offset_changes_neither_height_nor_row() {
    let bounds = Bounds { x: 3, y: 4, width: 50, height: 60 };
    let placement = translate(bounds, true, Some(Origin { x: -100, y: -200 }), 0);
    assert_eq!(placement.rect.x, -97);
    assert_eq!(placement.rect.y, -196);
    assert_eq!(placement.rect.width, 50);
    assert_eq!(placement.rect.height, 60);
}

#[test]
fn sums_at_the_ends_of_the_range_do_not_wrap() {
    let far = Bounds { x: i32::MAX, y: i32::MAX, width: u32::MAX, height: u32::MAX };
    let placement = translate(far, true, Some(Origin { x: i32::MAX, y: i32::MAX }), u32::MAX);
    assert_eq!(placement.rect.x, 2 * (i32::MAX as i64));
    assert_eq!(placement.rect.y, 2 * (i32::MAX as i64) + u32::MAX as i64);
    assert_eq!(placement.rect.width, u32::MAX);
    assert_eq!(placement.rect.height, u32::MAX);

    let near = Bounds { x: i32::MIN, y: i32::MIN, width: 1, height: 1 };
    let placement = translate(near, true, Some(Origin { x: i32::MIN, y: i32::MIN }), 0);
    assert_eq!(placement.rect.x, 2 * (i32::MIN as i64));
    assert_eq!(placement.rect.y, 2 * (i32::MIN as i64));
}

#[test]
fn pane_follows_the_main_window() {
    let bounds = Bounds { x: 10, y: 20, width: 300, height: 200 };
    let before = translate(bounds, true, Some(Origin { x: 100, y: 100 }), 60);
    let after = translate(bounds, true, Some(Origin { x: 130, y: 90 }), 60);
    assert_eq!(after.rect.x - before.rect.x, 30);
    assert_eq!(after.rect.y - before.rect.y, -10);
    assert_eq!(after.rect.width, before.rect.width);
    assert_eq!(after.rect.height, before.rect.height);
    assert_eq!(after.rect.height, 140);
}

#[test]
fn effective_height_by_cases() {
    assert_eq!(effective_height(200, 60), 140);
    assert_eq!(effective_height(61, 60), 1);
    assert_eq!(effective_height(60, 60), 60);
    assert_eq!(effective_height(0, 60), 0);
    assert_eq!(effective_height(200, 0), 200);
}
