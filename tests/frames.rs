use pane_filter::config::{Method, MethodsConfig, PluginConfig};
use pane_filter::state::{PaneInfo, State};
use pane_filter::ui::{render, TextLine};

fn pane(id: u32, title: &str, focused: bool) -> PaneInfo {
    PaneInfo {
        id,
        title: title.to_string(),
        is_focused: focused,
        is_plugin: false,
        terminal_command: None,
    }
}

fn texts(lines: &[TextLine]) -> Vec<String> {
    lines.iter().map(|l| l.text.clone()).collect()
}

#[test]
fn empty_state_frame() {
    let s = State::new();
    let f = render(&s, 20, 60);
    let t = texts(&f);
    assert_eq!(t[0], "━".repeat(60));
    assert_eq!(t[1], " PANE FILTER ");
    assert_eq!(f[1].width, 15);
    assert_eq!(t[3], "No panes found");
    assert_eq!((f[3].x, f[3].y, f[3].color), (2, 4, Some(2)));
    assert_eq!(f.len(), 4);
}

#[test]
fn pane_list_frame_with_filters() {
    let mut s = State::new();
    let mut c = PluginConfig::default();
    c.pane_filters = vec!["prod".to_string(), "k9s".to_string()];
    s.update_config(c);
    s.update_panes(vec![pane(1, "k9s-prod", true), pane(2, "scratch", false)]);
    let f = render(&s, 20, 60);
    let t = texts(&f);
    assert_eq!(t[3], "Filters: prod, k9s | Showing 1/2 panes");
    assert_eq!(t[4], "▶ ● [TERM] 1 - k9s-prod");
    assert_eq!((f[4].y, f[4].color), (4, Some(0)));
}

#[test]
fn tiny_screen_does_not_panic() {
    let mut s = State::new();
    s.update_panes(vec![pane(1, "a", false)]);
    s.set_error("oops".to_string());
    let f = render(&s, 0, 0);
    let t = texts(&f);
    assert_eq!(t.last().unwrap(), " oops ");
}

#[test]
fn method_list_and_confirmation_frames() {
    let mut s = State::new();
    s.update_panes(vec![pane(3, "shell", false)]);
    let m = Method {
        id: "wipe".to_string(),
        name: "Wipe".to_string(),
        description: "a very long description that will not fit".to_string(),
        docker_image: None,
        command: "rm".to_string(),
        args: vec![],
        env: vec![],
        requires_confirmation: true,
    };
    s.load_methods(MethodsConfig { version: "1".to_string(), methods: vec![m] });
    s.enter_method_selection();
    let f = render(&s, 20, 30);
    let t = texts(&f);
    assert_eq!(t[3], "Selected pane: 3 - shell");
    assert_eq!(t[4], "Available methods: 1");
    assert_eq!(t[5], "▶ Wipe");
    assert_eq!(t[6], "    a very long descrip...");
    s.execute_selected_method();
    let f = render(&s, 20, 80);
    let t = texts(&f);
    assert_eq!(t[1], " CONFIRM ACTION ");
    assert!(t[5].starts_with("│ Execute: Wipe"));
    assert_eq!(f[3].y, 7);
}
