use pane_filter::analyzer::{icon_for_lowered, pane_icon, Analyzer, Phase, Stage};
use pane_filter::context::PipelineContext;
use pane_filter::input::KeyInput;
use pane_filter::state::PaneInfo;

fn pane(id: u32, title: &str, plugin: bool) -> PaneInfo {
    PaneInfo {
        id,
        title: title.to_string(),
        is_focused: false,
        is_plugin: plugin,
        terminal_command: None,
    }
}

fn ctx(pairs: &[(&str, &str)]) -> PipelineContext {
    PipelineContext {
        entries: pairs.iter().map(|(k, v)| (k.to_string(), v.to_string())).collect(),
    }
}

fn started() -> (Analyzer, PipelineContext) {
    let mut a = Analyzer::new("summarize".to_string());
    a.update_panes(vec![pane(7, "k9s", false), pane(8, "plugin", true)]);
    let launch = a.start_analysis(1700000000).expect("dump launched");
    assert_eq!(launch.focus, Some(7));
    assert_eq!(
        launch.argv,
        vec!["sh", "-c", "sleep 0.1 && zellij action dump-screen --full /tmp/k9s-dump-1700000000.txt"]
    );
    assert_eq!(launch.context.get("stage").map(|s| s.as_str()), Some("dump"));
    assert_eq!(
        launch.context.get("logfile").map(|s| s.as_str()),
        Some("/tmp/k9s-dump-1700000000.txt")
    );
    assert_eq!(launch.context.get("pane_id").map(|s| s.as_str()), Some("7"));
    (a, launch.context)
}

#[test]
fn dump_ok_then_analyze_fails() {
    let (mut a, dump_ctx) = started();
    let (handled, next) = a.handle_command_result(Some(0), String::new(), String::new(), &dump_ctx);
    assert!(handled);
    let next = next.expect("analysis launched");
    assert_eq!(next.argv, vec!["bash", "-c", "summarize < /tmp/k9s-dump-1700000000.txt"]);
    assert!(next.focus.is_none());
    let (handled, none) =
        a.handle_command_result(Some(1), String::new(), "boom".to_string(), &next.context);
    assert!(handled);
    assert!(none.is_none());
    match &a.phase {
        Phase::Failed { stage, message, .. } => {
            assert_eq!(*stage, Stage::Analyze);
            assert_eq!(stage.name(), "analyze");
            assert_eq!(message, "boom");
        }
        other => panic!("unexpected phase {:?}", other),
    }
}

#[test]
fn every_stage_succeeds() {
    let (mut a, dump_ctx) = started();
    let (_, next) = a.handle_command_result(Some(0), String::new(), String::new(), &dump_ctx);
    let next = next.unwrap();
    a.handle_command_result(Some(0), "all good".to_string(), String::new(), &next.context);
    match &a.phase {
        Phase::Succeeded { pane_id, result } => {
            assert_eq!(*pane_id, 7);
            assert_eq!(result, "all good");
        }
        other => panic!("unexpected phase {:?}", other),
    }
    a.handle_key(KeyInput::Char('b'), 0);
    assert!(matches!(a.phase, Phase::PaneList));
}

#[test]
fn dump_failure_ends_pipeline() {
    let (mut a, dump_ctx) = started();
    let (handled, next) = a.handle_command_result(None, String::new(), "no tty".to_string(), &dump_ctx);
    assert!(handled && next.is_none());
    match &a.phase {
        Phase::Failed { stage, message, .. } => {
            assert_eq!(*stage, Stage::Dump);
            assert_eq!(message, "no tty");
        }
        other => panic!("unexpected phase {:?}", other),
    }
}

#[test]
fn stale_stage_is_ignored() {
    let (mut a, _) = started();
    let (handled, next) =
        a.handle_command_result(Some(0), "old".to_string(), String::new(), &ctx(&[("stage", "analyze")]));
    assert!(!handled && next.is_none());
    assert!(matches!(a.phase, Phase::Running { pane_id: 7, stage: Stage::Dump }));
    let (handled, _) = a.handle_command_result(Some(0), String::new(), String::new(), &ctx(&[]));
    assert!(!handled);
}

#[test]
fn no_second_pipeline_while_running() {
    let (mut a, _) = started();
    assert!(a.start_analysis(5).is_none());
    assert_eq!(a.handle_key(KeyInput::Enter, 5).0, false);
}

#[test]
fn no_panes_gives_notice() {
    let mut a = Analyzer::new("summarize".to_string());
    a.update_panes(vec![pane(1, "p", true)]);
    assert!(a.available_panes.is_empty());
    assert!(a.start_analysis(1).is_none());
    assert_eq!(a.notice.as_deref(), Some("No panes available to analyze"));
}

#[test]
fn analyzer_cursor_clamps() {
    let mut a = Analyzer::new("summarize".to_string());
    a.update_panes(vec![pane(1, "a", false), pane(2, "b", false), pane(3, "c", false)]);
    a.handle_key(KeyInput::Down, 0);
    a.handle_key(KeyInput::Down, 0);
    a.handle_key(KeyInput::Down, 0);
    assert_eq!(a.selected_index, 2);
    a.update_panes(vec![pane(1, "a", false)]);
    assert_eq!(a.selected_index, 0);
}

#[test]
fn icons_follow_title() {
    assert_eq!(icon_for_lowered("k9s-prod"), "\u{1f534}");
    assert_eq!(icon_for_lowered("staging"), "\u{1f7e1}");
    assert_eq!(icon_for_lowered("dev box"), "\u{1f7e2}");
    assert_eq!(icon_for_lowered("k8s"), "\u{2638}\u{fe0f}");
    assert_eq!(icon_for_lowered("notes"), "\u{1f4c4}");
    assert_eq!(pane_icon(&pane(1, "PROD cluster", false)), "\u{1f534}");
}

#[test]
fn screens_follow_phase() {
    let mut a = Analyzer::new("summarize".to_string());
    let lines = a.screen(20, 20);
    assert_eq!(lines[0], format!("╔{}╗", "═".repeat(18)));
    assert_eq!(lines[4], "No panes available");
    a.update_panes(vec![pane(7, "", false)]);
    let lines = a.screen(20, 20);
    assert_eq!(lines[6], "▶ 📄 Untitled");
    let launch = a.start_analysis(1).unwrap();
    let lines = a.screen(20, 20);
    assert_eq!(lines[4], "Pane ID: 7");
    assert_eq!(lines[6], "⏳ Dumping pane content...");
    a.handle_command_result(Some(2), String::new(), "denied".to_string(), &launch.context);
    let lines = a.screen(20, 20);
    assert_eq!(lines[4], "Dump failed: denied");
}

#[test]
fn result_screen_splits_and_cuts_lines() {
    let (mut a, dump_ctx) = started();
    let (_, next) = a.handle_command_result(Some(0), String::new(), String::new(), &dump_ctx);
    let out = "first line is long\r\nsecond\n".to_string();
    a.handle_command_result(Some(0), out, String::new(), &next.unwrap().context);
    let lines = a.screen(10, 10);
    assert_eq!(lines[4], "first line");
    assert_eq!(lines[5], "second");
    assert_eq!(lines[6], "");
    assert_eq!(lines.len(), 9);
}
