use gallery_core::gallery::{Gallery, MenuMessage, WidgetEvent, WidgetState};
use gallery_core::layout::{Layout, Viewport};
use gallery_core::CoreError;

fn viewport(width: u64, scroll_offset: u64) -> Viewport {
    Viewport { width, height: 800, scroll_offset }
}

#[test]
fn construction_establishes_the_initial_state() {
    let gallery = Gallery::new();
    let state = gallery.snapshot();
    assert!(state.checkbox_checked);
    assert!(!state.switch_on);
    assert!(state.radio_checked);
    assert_eq!(state.rating_value, 3);
    assert_eq!(state.stepper_step, 1);
    assert_eq!(state.pagination_page, 2);
    assert_eq!(state.tab_index, 0);
    assert!(!state.collapsible_open);
    assert_eq!(state.slider_value, 35);
    assert_eq!(state.progress_value, 35);
    assert!(state.form_subscribe);
    assert!(!state.sidebar_collapsed);
    assert!(!state.sidebar_side_right);
    assert_eq!(state.menu_message, MenuMessage::Idle);
    assert!(!state.markdown_ready);
}

#[test]
fn construction_wires_the_widget_entities() {
    let gallery = Gallery::new();
    match gallery.read_widget(gallery.slider).unwrap() {
        WidgetState::Slider(m) => {
            assert_eq!((m.min, m.max, m.step, m.value), (0, 100, 1, 35));
        }
        _ => panic!("slider handle does not own a slider"),
    }
    match gallery.read_widget(gallery.input).unwrap() {
        WidgetState::Input(m) => assert_eq!(m.placeholder, "Type here..."),
        _ => panic!("input handle does not own an input"),
    }
    match gallery.read_widget(gallery.select_widget).unwrap() {
        WidgetState::Select(m) => {
            assert!(m.searchable);
            assert_eq!(m.options, vec!["Option A", "Option B", "Option C"]);
        }
        _ => panic!("select handle does not own a select"),
    }
    match gallery.read_widget(gallery.list).unwrap() {
        WidgetState::List(m) => assert_eq!(m.item_count, 12),
        _ => panic!("list handle does not own a list"),
    }
    let settings = gallery.settings.get().unwrap();
    assert!(!settings.notifications);
    assert_eq!(settings.username, "");
}

#[test]
fn slider_move_updates_volume_and_progress_through_the_router() {
    let mut gallery = Gallery::new();
    let delivered = gallery.slider_moved(60);
    assert_eq!(delivered, 1);
    let state = gallery.snapshot();
    assert_eq!(state.slider_value, 60);
    assert_eq!(state.progress_value, 60);
}

#[test]
fn slider_move_clamps_to_the_slider_bounds() {
    let mut gallery = Gallery::new();
    gallery.slider_moved(250);
    let state = gallery.snapshot();
    assert_eq!(state.slider_value, 100);
    assert_eq!(state.progress_value, 100);
}

#[test]
fn color_commit_requests_a_repaint_without_touching_state() {
    let mut gallery = Gallery::new();
    let before = gallery.snapshot();
    let delivered = gallery.color_committed(0x336699ff);
    assert_eq!(delivered, 1);
    assert_eq!(gallery.snapshot(), before);
    match gallery.read_widget(gallery.color_picker).unwrap() {
        WidgetState::Color(c) => assert_eq!(c.rgba, Some(0x336699ff)),
        _ => panic!("color handle does not own a color picker"),
    }
    // The repaint request shows up as a dirty notification.
    let plan = gallery.render_pass(viewport(900, 0));
    assert!(plan.dirty.contains(&gallery.root));
}

#[test]
fn events_from_unobserved_sources_deliver_nothing() {
    let mut gallery = Gallery::new();
    let before = gallery.snapshot();
    let delivered =
        gallery.handle_widget_event(gallery.input, WidgetEvent::SliderChanged { value: 7 });
    assert_eq!(delivered, 0);
    assert_eq!(gallery.snapshot(), before);
}

#[test]
fn click_handlers_update_the_gallery_state() {
    let mut gallery = Gallery::new();
    assert!(gallery.set_checkbox(false));
    assert!(gallery.set_switch(true));
    assert!(gallery.set_radio(false));
    assert!(gallery.set_rating(5));
    assert!(gallery.set_stepper_step(2));
    assert!(gallery.set_pagination_page(7));
    assert!(gallery.set_tab_index(1));
    assert!(gallery.toggle_collapsible());
    assert!(gallery.set_form_subscribe(false));
    assert!(gallery.toggle_sidebar_collapsed());
    assert!(gallery.toggle_sidebar_side());
    assert!(gallery.set_menu_message(MenuMessage::Copied));
    let state = gallery.snapshot();
    assert!(!state.checkbox_checked);
    assert!(state.switch_on);
    assert!(!state.radio_checked);
    assert_eq!(state.rating_value, 5);
    assert_eq!(state.stepper_step, 2);
    assert_eq!(state.pagination_page, 7);
    assert_eq!(state.tab_index, 1);
    assert!(state.collapsible_open);
    assert!(!state.form_subscribe);
    assert!(state.sidebar_collapsed);
    assert!(state.sidebar_side_right);
    assert_eq!(state.menu_message, MenuMessage::Copied);
}

#[test]
fn render_pass_picks_one_arrangement_from_the_width() {
    let mut gallery = Gallery::new();
    let compact = gallery.render_pass(viewport(600, 0));
    assert_eq!(compact.layout, Layout::Compact);
    let wide = gallery.render_pass(viewport(900, 0));
    assert_eq!(wide.layout, Layout::Wide);
    let boundary = gallery.render_pass(viewport(680, 0));
    assert_eq!(boundary.layout, Layout::Compact);
}

#[test]
fn render_pass_windows_the_virtual_list() {
    let mut gallery = Gallery::new();
    // 40 rows of 32 px; a 180 px region at offset 0 needs rows 0..6, and
    // the margin over-renders one more.
    let plan = gallery.render_pass(viewport(900, 0));
    assert_eq!(plan.rows.first, 0);
    assert_eq!(plan.rows.last, 7);
    // Scrolled to 200 px: rows 6..12 intersect, margin widens to 5..13.
    let scrolled = gallery.render_pass(viewport(900, 200));
    assert_eq!(scrolled.rows.first, 5);
    assert_eq!(scrolled.rows.last, 13);
}

#[test]
fn render_pass_clamps_a_scroll_past_the_content() {
    let mut gallery = Gallery::new();
    // 40 rows of 32 px end at 1280; an offset far beyond clamps to the
    // last row instead of failing, and the margin adds one row above.
    let plan = gallery.render_pass(viewport(900, 5000));
    assert_eq!(plan.rows.first, 38);
    assert_eq!(plan.rows.last, 40);
}

#[test]
fn dirty_notifications_come_in_creation_order() {
    let mut gallery = Gallery::new();
    gallery.slider_moved(50);
    let plan = gallery.render_pass(viewport(900, 0));
    // The slider entity was created before the gallery's own state
    // entity; both changed.
    assert_eq!(plan.dirty, vec![gallery.slider, gallery.root]);
}

#[test]
fn updates_before_a_render_pass_coalesce_into_one_notification() {
    let mut gallery = Gallery::new();
    gallery.set_rating(4);
    gallery.set_rating(5);
    let plan = gallery.render_pass(viewport(900, 0));
    let root_notifications =
        plan.dirty.iter().filter(|h| **h == gallery.root).count();
    assert_eq!(root_notifications, 1);
    assert_eq!(plan.dirty, vec![gallery.root]);
    assert_eq!(gallery.snapshot().rating_value, 5);
    // The pass consumed the notifications; a quiet frame sees none.
    let quiet = gallery.render_pass(viewport(900, 0));
    assert!(quiet.dirty.is_empty());
}

#[test]
fn destroy_silences_every_subscription() {
    let mut gallery = Gallery::new();
    let slider = gallery.slider;
    gallery.destroy();
    let delivered = gallery.handle_widget_event(slider, WidgetEvent::SliderChanged { value: 9 });
    assert_eq!(delivered, 0);
    assert_eq!(gallery.slider_moved(9), 0);
    assert!(matches!(gallery.read_widget(gallery.root), Err(CoreError::NotFound)));
    assert!(!gallery.set_rating(1));
}

#[test]
fn destroy_is_safe_to_repeat() {
    let mut gallery = Gallery::new();
    gallery.destroy();
    gallery.destroy();
    assert!(!gallery.active());
}

#[test]
fn deferred_timer_marks_markdown_ready() {
    let mut gallery = Gallery::new();
    assert!(gallery.markdown_pending());
    gallery.markdown_timer_fired();
    assert!(!gallery.markdown_pending());
    assert!(gallery.snapshot().markdown_ready);
}

#[test]
fn deferred_timer_after_destroy_is_a_silent_no_op() {
    let mut gallery = Gallery::new();
    gallery.destroy();
    // The continuation fires after its owner is gone: nothing happens,
    // nothing panics.
    gallery.markdown_timer_fired();
    assert!(!gallery.active());
    assert!(matches!(gallery.read_widget(gallery.root), Err(CoreError::NotFound)));
}
