use cli_framework::view::view_trait::HelpItem;
use cli_framework::widget::empty_state::{EmptyState, LoadingIndicator};
use cli_framework::widget::grid::GridView;
use cli_framework::widget::help::HelpOverlay;
use cli_framework::widget::log::{display_line, LogView, DEFAULT_MAX_LINES, VISIBLE_LINES};
use cli_framework::widget::view_header::ViewHeader;

fn lines(n: usize) -> Vec<String> {
    (0..n).map(|i| format!("line {i}")).collect()
}

#[test]
fn log_keeps_only_the_newest_lines() {
    let mut v = LogView::with_max_lines(3);
    v.add_lines(lines(5));
    assert_eq!(v.line_count(), 3);
    let f = v.frame(10);
    assert_eq!(f.rows, vec!["line 2", "line 3", "line 4"]);
    assert_eq!(LogView::new().line_count(), 0);
    assert_eq!(DEFAULT_MAX_LINES, 10000);
}

#[test]
fn follow_mode_stays_at_the_bottom() {
    let mut v = LogView::new();
    v.add_lines(lines(50));
    assert!(v.is_follow_mode());
    assert_eq!(v.scroll_position(), 50 - VISIBLE_LINES);
    v.add_line("more".to_string());
    assert_eq!(v.scroll_position(), 51 - VISIBLE_LINES);
}

#[test]
fn scrolling_by_hand_leaves_follow_mode() {
    let mut v = LogView::new();
    v.add_lines(lines(50));
    v.scroll_up();
    assert!(!v.is_follow_mode());
    assert_eq!(v.scroll_position(), 29);
    v.add_line("more".to_string());
    assert_eq!(v.scroll_position(), 29);
    v.scroll_down();
    v.scroll_down();
    v.scroll_down();
    assert_eq!(v.scroll_position(), 31);
    v.scroll_down();
    assert_eq!(v.scroll_position(), 31);
}

#[test]
fn paging_stops_at_the_ends_and_reaching_the_bottom_follows_again() {
    let mut v = LogView::new();
    v.add_lines(lines(50));
    v.page_up();
    assert_eq!(v.scroll_position(), 10);
    assert!(!v.is_follow_mode());
    v.page_up();
    assert_eq!(v.scroll_position(), 0);
    v.page_down();
    assert_eq!(v.scroll_position(), 20);
    assert!(!v.is_follow_mode());
    v.page_down();
    assert_eq!(v.scroll_position(), 30);
    assert!(v.is_follow_mode());
    v.scroll_to_top();
    assert_eq!(v.scroll_position(), 0);
    assert!(!v.is_follow_mode());
    v.scroll_to_bottom();
    assert_eq!(v.scroll_position(), 30);
}

#[test]
fn filter_is_case_insensitive() {
    let mut v = LogView::new();
    v.add_lines(vec!["ERROR disk".to_string(), "info ok".to_string(), "an error".to_string()]);
    v.set_filter(Some("error".to_string()));
    assert_eq!(v.filter(), Some("error"));
    let f = v.frame(10);
    assert_eq!(f.rows, vec!["ERROR disk", "an error"]);
    assert_eq!(f.title, "Logs [filter: error] [follow]");
    v.add_line("Error again".to_string());
    assert_eq!(v.frame(10).rows.len(), 3);
    v.set_filter(None);
    assert_eq!(v.frame(10).rows.len(), 4);
    assert_eq!(v.frame(10).title, "Logs [follow]");
}

#[test]
fn setting_a_filter_outside_follow_mode_goes_to_the_top() {
    let mut v = LogView::new();
    v.add_lines(lines(50));
    v.set_follow_mode(false);
    v.set_filter(Some("line 4".to_string()));
    assert_eq!(v.scroll_position(), 0);
    assert_eq!(v.frame(30).rows.len(), 11);
    v.toggle_follow_mode();
    assert!(v.is_follow_mode());
}

#[test]
fn frame_clamps_the_position_and_reports_a_scrollbar() {
    let mut v = LogView::new();
    v.add_lines(lines(50));
    let f = v.frame(42);
    assert_eq!(f.viewport, 40);
    assert_eq!(f.position, 10);
    assert_eq!(f.rows.len(), 40);
    assert_eq!(f.scrollbar_total, Some(50));
    let f = v.frame(100);
    assert_eq!(f.position, 0);
    assert_eq!(f.scrollbar_total, None);
    assert_eq!(v.frame(1).viewport, 0);
}

#[test]
fn clearing_keeps_filter_and_follow_mode() {
    let mut v = LogView::new();
    v.add_lines(lines(30));
    v.set_filter(Some("1".to_string()));
    v.clear();
    assert_eq!(v.line_count(), 0);
    assert_eq!(v.scroll_position(), 0);
    assert_eq!(v.filter(), Some("1"));
    assert!(v.is_follow_mode());
}

#[test]
fn display_lines_are_cut_to_the_width() {
    assert_eq!(display_line("abcdef", 4), "abcd");
    assert_eq!(display_line("abc", 4), "abc");
    assert_eq!(display_line("a\u{e9}b", 2), "a");
    assert_eq!(display_line("a\u{e9}b", 3), "a\u{e9}");
}

#[test]
fn grid_selection_wraps_both_ways() {
    let mut g = GridView::new();
    g.next(3);
    assert_eq!(g.selected(), Some(0));
    g.previous(3);
    assert_eq!(g.selected(), Some(2));
    g.next(3);
    assert_eq!(g.selected(), Some(0));
    g.select(Some(1));
    g.next(0);
    assert_eq!(g.selected(), Some(1));
    g.select(None);
    g.previous(4);
    assert_eq!(g.selected(), Some(0));
}

#[test]
fn help_overlay_toggles() {
    let mut h = HelpOverlay::new();
    assert!(!h.is_visible());
    h.toggle();
    assert!(h.is_visible());
    h.close();
    assert!(!h.is_visible());
    h.show();
    h.set_items(vec![HelpItem { key: "q".to_string(), description: "Quit".to_string() }]);
    assert_eq!(h.items().len(), 1);
    assert!(h.is_visible());
}

#[test]
fn spinner_wraps_after_its_last_frame() {
    let mut l = LoadingIndicator::new("Loading clusters".to_string());
    assert_eq!(l.spinner(), '⠋');
    for _ in 0..10 {
        l.tick();
    }
    assert_eq!(l.spinner(), '⠋');
    l.tick();
    assert_eq!(l.spinner(), '⠙');
    assert_eq!(l.message(), "Loading clusters");
    let e = EmptyState::new("No data available".to_string()).with_details("try again".to_string());
    assert_eq!(e.details.as_deref(), Some("try again"));
}

#[test]
fn header_lists_five_keys_at_most() {
    let help: Vec<HelpItem> = (0..7)
        .map(|i| HelpItem { key: format!("{i}"), description: "d".to_string() })
        .collect();
    let h = ViewHeader::new("Clusters".to_string()).with_help(help);
    assert_eq!(h.help.as_ref().map(|v| v.len()), Some(5));
    assert_eq!(h.height(), 6);
    let h = ViewHeader::new("x".to_string()).with_help(Vec::new());
    assert!(h.help.is_none());
    assert_eq!(h.height(), 2);
    let h = h.with_info(vec![("a".to_string(), "b".to_string()); 3]);
    assert_eq!(h.height(), 4);
}
