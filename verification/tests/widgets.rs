use gallery_core::widgets::{
    sample_tree_items, DateModel, InputModel, ListModel, SelectModel, SliderModel, TableModel,
};
use gallery_core::CoreError;

#[test]
fn input_builders_set_shape() {
    let input = InputModel::new("Type here...".to_string());
    assert_eq!(input.text, "");
    assert_eq!(input.placeholder, "Type here...");
    assert!(!input.multi_line);
    let area = InputModel::new("Write something...".to_string()).multi_line(4);
    assert!(area.multi_line);
    assert_eq!(area.rows, 4);
}

#[test]
fn input_text_can_be_replaced() {
    let mut input = InputModel::new("Name".to_string());
    input.set_text("Ada Lovelace".to_string());
    assert_eq!(input.text, "Ada Lovelace");
    assert_eq!(input.placeholder, "Name");
}

#[test]
fn date_picker_commits_a_day() {
    let mut picker = DateModel::new();
    assert_eq!(picker.selected_day, None);
    picker.set_day(20_089);
    assert_eq!(picker.selected_day, Some(20_089));
}

#[test]
fn select_tracks_a_valid_selection() {
    let mut select = SelectModel::new(vec![
        "Option A".to_string(),
        "Option B".to_string(),
        "Option C".to_string(),
    ])
    .searchable();
    assert!(select.searchable);
    assert_eq!(select.selected_value(), None);
    select.select(1).unwrap();
    assert_eq!(select.selected_value().unwrap(), "Option B");
    assert_eq!(select.select(3), Err(CoreError::NotFound));
    assert_eq!(select.selected_value().unwrap(), "Option B");
    select.clear_selection();
    assert_eq!(select.selected_value(), None);
}

#[test]
fn slider_clamps_into_its_bounds() {
    let mut slider = SliderModel::new().default_value(35);
    assert_eq!((slider.min, slider.max, slider.step, slider.value), (0, 100, 1, 35));
    slider.set_value(150);
    assert_eq!(slider.value, 100);
    slider.set_value(42);
    assert_eq!(slider.value, 42);
}

#[test]
fn list_selection_drives_row_rendering() {
    let mut list = ListModel::new(12);
    assert_eq!(list.items_count(), 12);
    assert!(list.row_exists(11));
    assert!(!list.row_exists(12));
    assert!(!list.row_selected(3));
    list.set_selected_index(Some(3));
    assert!(list.row_selected(3));
    assert!(!list.row_selected(4));
    list.set_selected_index(None);
    assert!(!list.row_selected(3));
}

#[test]
fn sample_table_has_three_columns_and_eight_rows() {
    let table = TableModel::sample();
    assert_eq!(table.columns_count(), 3);
    assert_eq!(table.rows_count(), 8);
    assert_eq!(table.column(0).label, "ID");
    assert_eq!(table.column(0).width, 60);
    assert_eq!(table.column(1).label, "Name");
    assert_eq!(table.column(1).width, 140);
    assert_eq!(table.column(2).label, "Status");
    assert_eq!(table.column(2).width, 120);
}

#[test]
fn table_rows_alternate_active_and_pending() {
    let table = TableModel::sample();
    for row in 0..table.rows_count() {
        assert_eq!(table.row_id(row), row + 1);
        assert_eq!(table.row_active(row), (row + 1) % 2 == 0);
    }
}

#[test]
fn sample_tree_is_flattened_in_preorder() {
    let tree = sample_tree_items();
    assert_eq!(tree.node_count(), 6);
    let shape: Vec<(&str, u64)> =
        tree.nodes.iter().map(|n| (n.label.as_str(), n.depth)).collect();
    assert_eq!(
        shape,
        vec![
            ("src", 0),
            ("lib.rs", 1),
            ("main.rs", 1),
            ("assets", 0),
            ("logo.png", 1),
            ("README.md", 0),
        ]
    );
}
