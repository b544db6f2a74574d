use gallery_core::windower::ItemExtents;

#[test]
fn five_uniform_rows_offset_forty_covers_rows_one_through_three() {
    let extents = ItemExtents::new(vec![32, 32, 32, 32, 32]);
    let range = extents.visible_range(40, 64);
    // Window 40..104: row 1 spans 32..64, row 2 spans 64..96, row 3
    // spans 96..128.
    assert_eq!(range.first, 1);
    assert_eq!(range.last, 4);
}

#[test]
fn empty_item_set_yields_empty_range() {
    let extents = ItemExtents::new(vec![]);
    let range = extents.visible_range(0, 100);
    assert_eq!(range.first, 0);
    assert_eq!(range.last, 0);
    let padded = extents.visible_range_with_margin(50, 100);
    assert_eq!(padded.first, 0);
    assert_eq!(padded.last, 0);
}

#[test]
fn scroll_past_end_clamps_to_last_row() {
    let extents = ItemExtents::new(vec![10, 20, 30]);
    assert_eq!(extents.total_extent(), 60);
    let range = extents.visible_range(100, 50);
    assert_eq!(range.first, 2);
    assert_eq!(range.last, 3);
}

#[test]
fn heterogeneous_rows_are_not_assumed_uniform() {
    let extents = ItemExtents::new(vec![10, 20, 30]);
    // Window 15..35: row 1 spans 10..30, row 2 spans 30..60.
    let range = extents.visible_range(15, 20);
    assert_eq!(range.first, 1);
    assert_eq!(range.last, 3);
}

#[test]
fn viewport_taller_than_content_shows_everything() {
    let extents = ItemExtents::new(vec![32, 32, 32, 32, 32]);
    let range = extents.visible_range(0, 1000);
    assert_eq!(range.first, 0);
    assert_eq!(range.last, 5);
}

#[test]
fn uniform_builder_matches_explicit_extents() {
    let uniform = ItemExtents::uniform(40, 32);
    assert_eq!(uniform.len(), 40);
    assert_eq!(uniform.total_extent(), 1280);
    let explicit = ItemExtents::new(vec![32; 40]);
    let a = uniform.visible_range(200, 180);
    let b = explicit.visible_range(200, 180);
    assert_eq!(a, b);
}

#[test]
fn margin_extends_one_row_each_side_within_bounds() {
    let extents = ItemExtents::new(vec![32, 32, 32, 32, 32]);
    let padded = extents.visible_range_with_margin(40, 64);
    assert_eq!(padded.first, 0);
    assert_eq!(padded.last, 5);
    let at_start = extents.visible_range_with_margin(0, 32);
    assert_eq!(at_start.first, 0);
    assert_eq!(at_start.last, 2);
}

#[test]
fn zero_extent_rows_are_skipped_at_the_window_start() {
    let extents = ItemExtents::new(vec![0, 0, 32, 32]);
    let range = extents.visible_range(0, 10);
    assert_eq!(range.first, 2);
    assert_eq!(range.last, 3);
}
