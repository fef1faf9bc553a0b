use vstd::prelude::*;
use crate::config::{MethodsConfig, PluginConfig};
use crate::context::{find_entry, lookup, pairs_view};
use crate::input::KeyInput;
use crate::state::{views, Invocation, Mode, State};
use crate::text::{comma_list, has_prefix, join2, replace, replace_all, split_list, starts_with};

verus! {

/// What the host is asked to do after an event.
#[derive(Debug, Clone)]
pub enum Request {
    Nothing,
    /// Close the extension.
    Close,
    /// Fetch the method catalog from this address.
    FetchMethods(String),
    /// Run a command line, then focus its pane.
    Run(Invocation),
    /// Focus this pane, then close the extension.
    FocusAndClose(u32),
}

/// The value of `key` in the host's configuration entries, or `default`.
pub open spec fn setting_or(
    entries: Seq<(String, String)>,
    key: Seq<char>,
    default: Seq<char>,
) -> Seq<char> {
    match lookup(pairs_view(entries), key) {
        Some(v) => v,
        None => default,
    }
}

/// Builds the configuration: a whole document already read from the "_json"
/// entry wins; otherwise each entry present overrides its default, the
/// filter patterns given as one comma-separated list.
pub fn parse_configuration(json: Option<PluginConfig>, entries: &Vec<(String, String)>) -> (r:
    PluginConfig)
    ensures
        json matches Some(c) ==> r == c,
        json is None ==> views(r.pane_filters@) == match lookup(
            pairs_view(entries@),
            "pane_filters"@,
        ) {
            Some(f) => comma_list(f),
            None => Seq::empty(),
        },
        json is None ==> r.methods_repo@ == setting_or(entries@, "methods_repo"@, Seq::empty()),
        json is None ==> r.methods_branch@ == setting_or(entries@, "methods_branch"@, "main"@),
        json is None ==> r.methods_path@ == setting_or(
            entries@,
            "methods_path"@,
            "methods.json"@,
        ),
{
    if let Some(config) = json {
        return config;
    }
    let mut config = PluginConfig::default();
    assert(views(config.pane_filters@) =~= Seq::empty());
    if let Some(filters) = find_entry(entries, "pane_filters") {
        let list = split_list(filters.as_str());
        assert(views(list@) =~= list@.map_values(|t: String| t@));
        config.pane_filters = list;
    }
    if let Some(repo) = find_entry(entries, "methods_repo") {
        config.methods_repo = repo.clone();
    }
    if let Some(branch) = find_entry(entries, "methods_branch") {
        config.methods_branch = branch.clone();
    }
    if let Some(path) = find_entry(entries, "methods_path") {
        config.methods_path = path.clone();
    }
    config
}

/// Where the catalog is fetched from. A full address has its web host and
/// "/blob/" segment turned into the raw-content form; an "owner/repo"
/// reference gets the raw-content address of the path on the branch.
pub open spec fn methods_url(repo: Seq<char>, branch: Seq<char>, path: Seq<char>) -> Seq<char> {
    if has_prefix(repo, "http"@) {
        replace_all(
            replace_all(repo, "github.com"@, "raw.githubusercontent.com"@),
            "/blob/"@,
            "/"@,
        )
    } else {
        "https://raw.githubusercontent.com/"@ + repo + "/"@ + branch + "/"@ + path
    }
}

/// The address of the catalog that `config` names.
pub fn catalog_url(config: &PluginConfig) -> (r: String)
    ensures
        r@ == methods_url(config.methods_repo@, config.methods_branch@, config.methods_path@),
{
    let repo = config.methods_repo.as_str();
    if starts_with(repo, "http") {
        proof {
            reveal_strlit("github.com");
            reveal_strlit("/blob/");
        }
        let raw = replace(repo, "github.com", "raw.githubusercontent.com");
        replace(raw.as_str(), "/blob/", "/")
    } else {
        let url = join2("https://raw.githubusercontent.com/", repo);
        let url = join2(url.as_str(), "/");
        let url = join2(url.as_str(), config.methods_branch.as_str());
        let url = join2(url.as_str(), "/");
        join2(url.as_str(), config.methods_path.as_str())
    }
}

impl State {
    /// Marks a catalog fetch as started and returns the address to fetch.
    pub fn fetch_methods(&mut self) -> (r: String)
        requires
            old(self).wf(),
        ensures
            final(self).wf(),
            r@ == methods_url(
                old(self).config.methods_repo@,
                old(self).config.methods_branch@,
                old(self).config.methods_path@,
            ),
            final(self).status_message matches Some(s) && s@ == "Loading methods..."@,
            (*final(self) == (State {
                is_loading: true,
                status_message: final(self).status_message,
                ..*old(self)
            })),
    {
        self.is_loading = true;
        self.status_message = Some(String::from_str("Loading methods..."));
        catalog_url(&self.config)
    }

    /// Takes a fetched catalog, or the reason it could not be read.
    pub fn handle_methods_response(&mut self, parsed: Result<MethodsConfig, String>)
        requires
            old(self).wf(),
        ensures
            final(self).wf(),
            !final(self).is_loading,
            parsed matches Ok(c) ==> final(self).methods == c.methods,
            parsed matches Ok(c) ==> (final(self).status_message matches Some(s) && s@ == "Loaded "@
                + crate::text::decimal(c.methods@.len()) + " methods"@),
            parsed matches Err(e) ==> (final(self).methods == old(self).methods),
            parsed matches Err(e) ==> (final(self).status_message matches Some(s) && s@
                == "Failed to parse methods: "@ + e@),
    {
        match parsed {
            Ok(c) => self.load_methods(c),
            Err(e) => self.set_error(join2("Failed to parse methods: ", e.as_str())),
        }
    }

    /// Reports a catalog fetch that failed.
    pub fn handle_fetch_error(&mut self, reason: &str)
        requires
            old(self).wf(),
        ensures
            final(self).wf(),
            final(self).status_message matches Some(s) && s@ == "Failed to fetch methods: "@
                + reason@,
            (*final(self) == (State {
                status_message: final(self).status_message,
                is_loading: false,
                ..*old(self)
            })),
    {
        self.set_error(join2("Failed to fetch methods: ", reason));
    }

    /// Reacts to a key in the current mode. Returns whether to redraw and
    /// what the host should do.
    ///
    /// Browsing panes: up/`k` and down/`j` move the cursor, Enter or space
    /// open the method list, Esc or `q` close, `r` fetches the catalog again
    /// when a repository is configured, `f` focuses the selected pane and
    /// closes. Selecting a method: up/`k` and down/`j` move the cursor, Enter
    /// or space run the method (or ask for confirmation), Esc or `q` go back
    /// to the panes. Confirming: `y` runs the method and goes back to the
    /// panes, `n` or Esc go back to the methods.
    pub fn handle_key(&mut self, key: KeyInput) -> (r: (bool, Request))
        requires
            old(self).wf(),
        ensures
            final(self).wf(),
            is_up(key) && old(self).mode != Mode::Confirm ==> r.0 && r.1 is Nothing,
            is_down(key) && old(self).mode != Mode::Confirm ==> r.0 && r.1 is Nothing,
            old(self).mode == Mode::BrowsePanes && is_up(key) ==> (*final(self) == (State {
                selected_pane_index: if old(self).selected_pane_index > 0 {
                    (old(self).selected_pane_index - 1) as usize
                } else {
                    0
                },
                ..*old(self)
            })),
            old(self).mode == Mode::BrowsePanes && is_down(key) ==> (*final(self) == (State {
                selected_pane_index: if old(self).selected_pane_index + 1
                    < old(self).filtered_panes@.len() {
                    (old(self).selected_pane_index + 1) as usize
                } else {
                    old(self).selected_pane_index
                },
                ..*old(self)
            })),
            old(self).mode == Mode::SelectMethod && is_up(key) ==> (*final(self) == (State {
                selected_method_index: if old(self).selected_method_index > 0
                    && old(self).methods@.len() > 0 {
                    (old(self).selected_method_index - 1) as usize
                } else {
                    old(self).selected_method_index
                },
                ..*old(self)
            })),
            old(self).mode == Mode::SelectMethod && is_down(key) ==> (*final(self) == (State {
                selected_method_index: if old(self).selected_method_index + 1
                    < old(self).methods@.len() {
                    (old(self).selected_method_index + 1) as usize
                } else {
                    old(self).selected_method_index
                },
                ..*old(self)
            })),
            old(self).mode == Mode::BrowsePanes && is_enter(key) ==> r.0 && r.1 is Nothing && (
            final(self).mode == if old(self).filtered_panes@.len() > 0 && old(self).methods@.len()
                > 0 {
                Mode::SelectMethod
            } else {
                Mode::BrowsePanes
            }),
            old(self).mode == Mode::BrowsePanes && is_quit(key) ==> !r.0 && r.1 is Close
                && *final(self) == *old(self),
            old(self).mode == Mode::BrowsePanes && key == KeyInput::Char('r') ==> r.0 && if old(self).config.methods_repo@.len() > 0 {
                final(self).is_loading && (r.1 matches Request::FetchMethods(url) && url@
                    == methods_url(
                    old(self).config.methods_repo@,
                    old(self).config.methods_branch@,
                    old(self).config.methods_path@,
                ))
            } else {
                r.1 is Nothing && *final(self) == *old(self)
            },
            old(self).mode == Mode::BrowsePanes && key == KeyInput::Char('f') ==> !r.0 && *final(self) == *old(self) && match old(self).selected_pane() {
                Some(p) => r.1 == Request::FocusAndClose(p.id),
                None => r.1 is Nothing,
            },
            old(self).mode == Mode::SelectMethod && is_enter(key) ==> r.0 && if old(self).planned() is Some && !old(self).gated() {
                r.1 matches Request::Run(inv) && inv@ == old(self).planned().unwrap()
            } else {
                r.1 is Nothing && (old(self).planned() is Some ==> final(self).mode == Mode::Confirm)
            },
            old(self).mode == Mode::SelectMethod && is_quit(key) ==> r.0 && r.1 is Nothing && (
            *final(self) == (State { mode: Mode::BrowsePanes, status_message: None, ..*old(self) })),
            old(self).mode == Mode::Confirm && (key == KeyInput::Char('y') || key
                == KeyInput::Char('Y')) ==> r.0 && final(self).mode == Mode::BrowsePanes && match old(self).planned() {
                Some(plan) => r.1 matches Request::Run(inv) && inv@ == plan,
                None => r.1 is Nothing,
            },
            old(self).mode == Mode::Confirm && (key == KeyInput::Char('n') || key
                == KeyInput::Char('N') || key == KeyInput::Esc) ==> r.0 && r.1 is Nothing && (
            *final(self) == (State { mode: Mode::SelectMethod, ..*old(self) })),
    {
        match self.mode {
            Mode::BrowsePanes => {
                if is_up_key(key) {
                    self.move_selection_up();
                    (true, Request::Nothing)
                } else if is_down_key(key) {
                    self.move_selection_down();
                    (true, Request::Nothing)
                } else if is_enter_key(key) {
                    self.enter_method_selection();
                    (true, Request::Nothing)
                } else if is_quit_key(key) {
                    (false, Request::Close)
                } else if key == KeyInput::Char('r') {
                    if self.config.methods_repo.unicode_len() > 0 {
                        let url = self.fetch_methods();
                        (true, Request::FetchMethods(url))
                    } else {
                        (true, Request::Nothing)
                    }
                } else if key == KeyInput::Char('f') {
                    match self.get_selected_pane() {
                        Some(p) => (false, Request::FocusAndClose(p.id)),
                        None => (false, Request::Nothing),
                    }
                } else {
                    (false, Request::Nothing)
                }
            },
            Mode::SelectMethod => {
                if is_up_key(key) {
                    self.move_selection_up();
                    (true, Request::Nothing)
                } else if is_down_key(key) {
                    self.move_selection_down();
                    (true, Request::Nothing)
                } else if is_enter_key(key) {
                    match self.execute_selected_method() {
                        Some(inv) => (true, Request::Run(inv)),
                        None => (true, Request::Nothing),
                    }
                } else if is_quit_key(key) {
                    self.back_to_pane_browsing();
                    (true, Request::Nothing)
                } else {
                    (false, Request::Nothing)
                }
            },
            Mode::Confirm => {
                if key == KeyInput::Char('y') || key == KeyInput::Char('Y') {
                    match self.confirm(true) {
                        Some(inv) => (true, Request::Run(inv)),
                        None => (true, Request::Nothing),
                    }
                } else if key == KeyInput::Char('n') || key == KeyInput::Char('N') || key
                    == KeyInput::Esc {
                    self.confirm(false);
                    (true, Request::Nothing)
                } else {
                    (false, Request::Nothing)
                }
            },
        }
    }
}

pub open spec fn is_up(key: KeyInput) -> bool {
    key == KeyInput::Up || key == KeyInput::Char('k')
}

pub open spec fn is_down(key: KeyInput) -> bool {
    key == KeyInput::Down || key == KeyInput::Char('j')
}

pub open spec fn is_enter(key: KeyInput) -> bool {
    key == KeyInput::Enter || key == KeyInput::Char(' ')
}

pub open spec fn is_quit(key: KeyInput) -> bool {
    key == KeyInput::Esc || key == KeyInput::Char('q')
}

fn is_up_key(key: KeyInput) -> (r: bool)
    ensures
        r == is_up(key),
{
    key == KeyInput::Up || key == KeyInput::Char('k')
}

fn is_down_key(key: KeyInput) -> (r: bool)
    ensures
        r == is_down(key),
{
    key == KeyInput::Down || key == KeyInput::Char('j')
}

fn is_enter_key(key: KeyInput) -> (r: bool)
    ensures
        r == is_enter(key),
{
    key == KeyInput::Enter || key == KeyInput::Char(' ')
}

fn is_quit_key(key: KeyInput) -> (r: bool)
    ensures
        r == is_quit(key),
{
    key == KeyInput::Esc || key == KeyInput::Char('q')
}

} // verus!
