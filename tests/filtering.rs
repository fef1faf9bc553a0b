use pane_filter::config::PluginConfig;
use pane_filter::filter::Matcher;
use pane_filter::state::{keep_flagged, visible_panes, PaneInfo, State};

fn pane(id: u32, title: &str) -> PaneInfo {
    PaneInfo {
        id,
        title: title.to_string(),
        is_focused: false,
        is_plugin: false,
        terminal_command: None,
    }
}

fn config_with(patterns: &[&str]) -> PluginConfig {
    let mut c = PluginConfig::default();
    c.pane_filters = patterns.iter().map(|p| p.to_string()).collect();
    c
}

fn ids(panes: &[PaneInfo]) -> Vec<u32> {
    panes.iter().map(|p| p.id).collect()
}

#[test]
fn prod_pattern_keeps_only_matching_pane() {
    let mut s = State::new();
    s.update_config(config_with(&["prod"]));
    s.update_panes(vec![pane(1, "k9s-prod"), pane(2, "scratch")]);
    assert_eq!(ids(&s.filtered_panes), vec![1]);
    assert_eq!(s.filtered_panes[0].title, "k9s-prod");
}

#[test]
fn no_patterns_show_every_pane() {
    let mut s = State::new();
    s.update_panes(vec![pane(3, "a"), pane(1, "b"), pane(2, "c")]);
    assert_eq!(ids(&s.filtered_panes), vec![3, 1, 2]);
}

#[test]
fn visible_keeps_snapshot_order() {
    let ms = vec![Matcher::compile("^a").unwrap(), Matcher::compile("z$").unwrap()];
    let panes = vec![pane(1, "xyz"), pane(2, "abc"), pane(3, "mid"), pane(4, "az")];
    assert_eq!(ids(&visible_panes(&panes, &ms)), vec![1, 2, 4]);
}

#[test]
fn invalid_pattern_does_not_hide_valid_matches() {
    let mut s = State::new();
    s.update_config(config_with(&["(", "prod"]));
    assert_eq!(s.compiled_filters.len(), 1);
    assert_eq!(s.compiled_filters[0].as_str(), "prod");
    let msg = s.status_message.clone().unwrap();
    assert!(msg.starts_with("Invalid regex '(': "), "{}", msg);
    s.update_panes(vec![pane(1, "k9s-prod"), pane(2, "scratch")]);
    assert_eq!(ids(&s.filtered_panes), vec![1]);
}

#[test]
fn only_invalid_patterns_show_every_pane() {
    let mut s = State::new();
    s.update_config(config_with(&["[unclosed"]));
    assert!(s.compiled_filters.is_empty());
    s.update_panes(vec![pane(1, "one"), pane(2, "two")]);
    assert_eq!(ids(&s.filtered_panes), vec![1, 2]);
}

#[test]
fn config_change_refilters_panes() {
    let mut s = State::new();
    s.update_panes(vec![pane(1, "k9s-prod"), pane(2, "scratch")]);
    assert_eq!(s.filtered_panes.len(), 2);
    s.update_config(config_with(&["scr"]));
    assert_eq!(ids(&s.filtered_panes), vec![2]);
}

#[test]
fn cursor_clamps_to_last_visible_pane() {
    let mut s = State::new();
    s.update_panes(vec![pane(1, "a"), pane(2, "b"), pane(3, "c")]);
    s.move_selection_down();
    s.move_selection_down();
    assert_eq!(s.selected_pane_index, 2);
    s.update_panes(vec![pane(1, "a"), pane(2, "b")]);
    assert_eq!(s.selected_pane_index, 1);
    s.update_panes(vec![]);
    assert_eq!(s.selected_pane_index, 0);
    assert!(s.get_selected_pane().is_none());
}

#[test]
fn cursor_moves_within_bounds() {
    let mut s = State::new();
    s.update_panes(vec![pane(1, "a"), pane(2, "b")]);
    s.move_selection_up();
    assert_eq!(s.selected_pane_index, 0);
    s.move_selection_down();
    s.move_selection_down();
    assert_eq!(s.selected_pane_index, 1);
    assert_eq!(s.get_selected_pane().unwrap().id, 2);
}

#[test]
fn matcher_reports_compile_errors() {
    assert!(Matcher::compile("(").is_err());
    let ms = vec![Matcher::compile("pro+d").unwrap()];
    let panes = vec![pane(1, "k9s-prooood"), pane(2, "scratch")];
    assert_eq!(ids(&visible_panes(&panes, &ms)), vec![1]);
}

#[test]
fn flags_select_panes_in_order() {
    let panes = vec![pane(1, "a"), pane(2, "b"), pane(3, "c")];
    assert_eq!(ids(&keep_flagged(&panes, &vec![true, false, true])), vec![1, 3]);
    assert_eq!(ids(&keep_flagged(&panes, &vec![false, false, false])), Vec::<u32>::new());
}
