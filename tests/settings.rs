use pane_filter::config::{default_branch, default_methods_path, default_methods_repo, PluginConfig};
use pane_filter::plugin::{catalog_url, parse_configuration};
use pane_filter::state::State;
use pane_filter::text::{contains, decimal_string, split_list, trim_text};

fn entries(pairs: &[(&str, &str)]) -> Vec<(String, String)> {
    pairs.iter().map(|(k, v)| (k.to_string(), v.to_string())).collect()
}

#[test]
fn defaults() {
    assert_eq!(default_methods_repo(), "");
    assert_eq!(default_branch(), "main");
    assert_eq!(default_methods_path(), "methods.json");
    let c = PluginConfig::default();
    assert!(c.pane_filters.is_empty());
    assert_eq!(c.methods_branch, "main");
}

#[test]
fn manual_configuration_overrides_defaults() {
    let c = parse_configuration(
        None,
        &entries(&[("pane_filters", " prod , ,k9s,"), ("methods_repo", "me/tools")]),
    );
    assert_eq!(c.pane_filters, vec!["prod", "k9s"]);
    assert_eq!(c.methods_repo, "me/tools");
    assert_eq!(c.methods_branch, "main");
    assert_eq!(c.methods_path, "methods.json");
}

#[test]
fn whole_document_wins() {
    let mut doc = PluginConfig::default();
    doc.methods_branch = "dev".to_string();
    let c = parse_configuration(Some(doc), &entries(&[("methods_branch", "other")]));
    assert_eq!(c.methods_branch, "dev");
}

#[test]
fn repo_reference_url() {
    let mut c = PluginConfig::default();
    c.methods_repo = "owner/repo".to_string();
    assert_eq!(catalog_url(&c), "https://raw.githubusercontent.com/owner/repo/main/methods.json");
}

#[test]
fn full_url_is_normalized() {
    let mut c = PluginConfig::default();
    c.methods_repo = "https://github.com/o/r/blob/main/m.json".to_string();
    assert_eq!(catalog_url(&c), "https://raw.githubusercontent.com/o/r/main/m.json");
}

#[test]
fn fetch_marks_loading() {
    let mut s = State::new();
    let mut c = PluginConfig::default();
    c.methods_repo = "a/b".to_string();
    s.update_config(c);
    let url = s.fetch_methods();
    assert!(s.is_loading);
    assert_eq!(s.status_message.as_deref(), Some("Loading methods..."));
    assert_eq!(url, "https://raw.githubusercontent.com/a/b/main/methods.json");
}

#[test]
fn text_helpers() {
    assert_eq!(decimal_string(0), "0");
    assert_eq!(decimal_string(907), "907");
    assert_eq!(decimal_string(u64::MAX), "18446744073709551615");
    assert_eq!(trim_text("\t a b \u{3000}"), "a b");
    assert_eq!(split_list(""), Vec::<String>::new());
    assert_eq!(split_list("x"), vec!["x"]);
    assert!(contains("k9s-prod", "prod"));
    assert!(!contains("pro", "prod"));
}
