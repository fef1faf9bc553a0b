use pane_filter::config::{Method, MethodsConfig};
use pane_filter::input::KeyInput;
use pane_filter::plugin::Request;
use pane_filter::state::{Mode, PaneInfo, State};

fn pane(id: u32, title: &str) -> PaneInfo {
    PaneInfo {
        id,
        title: title.to_string(),
        is_focused: false,
        is_plugin: false,
        terminal_command: None,
    }
}

fn method(id: &str, command: &str, args: &[&str], image: Option<&str>, confirm: bool) -> Method {
    Method {
        id: id.to_string(),
        name: id.to_string(),
        description: String::new(),
        docker_image: image.map(|s| s.to_string()),
        command: command.to_string(),
        args: args.iter().map(|s| s.to_string()).collect(),
        env: vec![],
        requires_confirmation: confirm,
    }
}

fn ready_state(m: Method) -> State {
    let mut s = State::new();
    s.update_panes(vec![pane(1, "k9s-prod")]);
    s.load_methods(MethodsConfig { version: "1".to_string(), methods: vec![m] });
    s.enter_method_selection();
    assert_eq!(s.mode, Mode::SelectMethod);
    s
}

#[test]
fn lint_runs_without_confirmation() {
    let m = method("lint", "golangci-lint", &["run"], None, false);
    assert_eq!(m.command_line(), vec!["golangci-lint", "run"]);
    let mut s = ready_state(m);
    let inv = s.execute_selected_method().expect("one invocation");
    assert_eq!(inv.argv, vec!["golangci-lint", "run"]);
    assert_eq!(inv.pane_id, 1);
    assert_eq!(s.mode, Mode::SelectMethod);
    assert_eq!(s.status_message.as_deref(), Some("Executed 'lint' on pane 1"));
}

#[test]
fn container_method_wraps_command() {
    let mut m = method("scan", "trivy", &["fs", "."], Some("alpine"), false);
    m.env = vec![("X".to_string(), "1".to_string())];
    assert_eq!(
        m.command_line(),
        vec!["docker", "run", "--rm", "-i", "-e", "X=1", "alpine", "trivy", "fs", "."]
    );
}

#[test]
fn container_method_without_env() {
    let m = method("sh", "ls", &[], Some("busybox"), false);
    assert_eq!(m.command_line(), vec!["docker", "run", "--rm", "-i", "busybox", "ls"]);
}

#[test]
fn confirmation_gate_then_decline() {
    let mut s = ready_state(method("wipe", "rm", &["-rf", "x"], None, true));
    assert!(s.execute_selected_method().is_none());
    assert_eq!(s.mode, Mode::Confirm);
    assert!(s.confirm(false).is_none());
    assert_eq!(s.mode, Mode::SelectMethod);
}

#[test]
fn confirmation_gate_then_accept() {
    let mut s = ready_state(method("wipe", "rm", &["-rf", "x"], None, true));
    let (render, req) = s.handle_key(KeyInput::Enter);
    assert!(render);
    assert!(matches!(req, Request::Nothing));
    assert_eq!(s.mode, Mode::Confirm);
    let (_, req) = s.handle_key(KeyInput::Char('y'));
    match req {
        Request::Run(inv) => assert_eq!(inv.argv, vec!["rm", "-rf", "x"]),
        other => panic!("expected a run, got {:?}", other),
    }
    assert_eq!(s.mode, Mode::BrowsePanes);
    assert!(s.status_message.is_none());
}

#[test]
fn no_methods_reports_status() {
    let mut s = State::new();
    s.update_panes(vec![pane(1, "a")]);
    s.enter_method_selection();
    assert_eq!(s.mode, Mode::BrowsePanes);
    assert_eq!(s.status_message.as_deref(), Some("No methods configured"));
}

#[test]
fn load_methods_reports_count() {
    let mut s = State::new();
    s.is_loading = true;
    let methods = vec![method("a", "a", &[], None, false), method("b", "b", &[], None, false)];
    s.load_methods(MethodsConfig { version: "2".to_string(), methods });
    assert!(!s.is_loading);
    assert_eq!(s.status_message.as_deref(), Some("Loaded 2 methods"));
}

#[test]
fn keys_in_browse_mode() {
    let mut s = State::new();
    s.update_panes(vec![pane(4, "a"), pane(5, "b")]);
    assert_eq!(s.handle_key(KeyInput::Char('j')).0, true);
    assert_eq!(s.selected_pane_index, 1);
    let (render, req) = s.handle_key(KeyInput::Char('f'));
    assert!(!render);
    assert!(matches!(req, Request::FocusAndClose(5)));
    assert!(matches!(s.handle_key(KeyInput::Esc).1, Request::Close));
    assert!(matches!(s.handle_key(KeyInput::Char('r')).1, Request::Nothing));
}

#[test]
fn escape_from_method_list() {
    let mut s = ready_state(method("lint", "golangci-lint", &["run"], None, false));
    s.handle_key(KeyInput::Char('q'));
    assert_eq!(s.mode, Mode::BrowsePanes);
}

#[test]
fn fetch_errors_are_reported() {
    let mut s = State::new();
    s.handle_fetch_error("timeout");
    assert_eq!(s.status_message.as_deref(), Some("Failed to fetch methods: timeout"));
    s.handle_methods_response(Err("bad json".to_string()));
    assert_eq!(s.status_message.as_deref(), Some("Failed to parse methods: bad json"));
    assert!(!s.is_loading);
}
