use vstd::prelude::*;
use crate::config::{Method, MethodsConfig, PluginConfig};
use crate::filter::{
    compiled_patterns, is_subsequence, picks, matches_any, pattern_compiles, pattern_matches, patterns_of,
    Matcher,
};
use crate::text::{decimal, decimal_string, has_prefix, join2};

verus! {

/// A pane as reported by the host.
#[derive(Debug, Clone)]
pub struct PaneInfo {
    pub id: u32,
    pub title: String,
    pub is_focused: bool,
    pub is_plugin: bool,
    pub terminal_command: Option<String>,
}

impl PaneInfo {
    /// A field-by-field copy.
    pub fn copied(&self) -> (r: PaneInfo)
        ensures
            r == *self,
    {
        let terminal_command = match &self.terminal_command {
            Some(c) => Some(c.clone()),
            None => None,
        };
        PaneInfo {
            id: self.id,
            title: self.title.clone(),
            is_focused: self.is_focused,
            is_plugin: self.is_plugin,
            terminal_command,
        }
    }
}

/// Which list the user is working in.
#[derive(Debug, Clone, Copy, PartialEq, Eq, Structural)]
pub enum Mode {
    /// Browsing panes.
    BrowsePanes,
    /// Selecting a method to apply.
    SelectMethod,
    /// Confirming method execution.
    Confirm,
}

/// The views of a list of strings.
pub open spec fn views(v: Seq<String>) -> Seq<Seq<char>> {
    v.map_values(|s: String| s@)
}

/// The panes of `panes` whose title some pattern of `ps` matches, in order.
pub open spec fn matching(panes: Seq<PaneInfo>, ps: Seq<Seq<char>>) -> Seq<PaneInfo>
    decreases panes.len(),
{
    if panes.len() == 0 {
        panes
    } else if matches_any(ps, panes.last().title@) {
        matching(panes.drop_last(), ps).push(panes.last())
    } else {
        matching(panes.drop_last(), ps)
    }
}

/// The panes shown under the active patterns `ps`: all of them when there is
/// no active pattern.
pub open spec fn visible(panes: Seq<PaneInfo>, ps: Seq<Seq<char>>) -> Seq<PaneInfo> {
    if ps.len() == 0 {
        panes
    } else {
        matching(panes, ps)
    }
}

/// Where a cursor at `i` goes when its list now has `n` entries.
pub open spec fn clamp_cursor(i: nat, n: nat) -> nat {
    if n == 0 {
        0
    } else if i >= n {
        (n - 1) as nat
    } else {
        i
    }
}

/// A cursor at `i` is valid for a list of `n` entries.
pub open spec fn cursor_ok(i: nat, n: nat) -> bool {
    i < n || (n == 0 && i == 0)
}

/// Whether some matcher of `ms` matches `label`.
pub fn any_matches(ms: &Vec<Matcher>, label: &str) -> (r: bool)
    ensures
        r == matches_any(patterns_of(ms@), label@),
{
    let mut i: usize = 0;
    while i < ms.len()
        invariant
            i <= ms@.len(),
            forall|k: int|
                0 <= k < i ==> !crate::filter::pattern_matches(
                    #[trigger] patterns_of(ms@)[k],
                    label@,
                ),
        decreases ms@.len() - i,
    {
        if ms[i].is_match(label) {
            assert(crate::filter::pattern_matches(patterns_of(ms@)[i as int], label@));
            return true;
        }
        i = i + 1;
    }
    false
}

/// The panes of `panes` whose flag in `flags` is set, in order.
pub open spec fn flagged(panes: Seq<PaneInfo>, flags: Seq<bool>) -> Seq<PaneInfo>
    decreases panes.len(),
{
    if panes.len() == 0 {
        panes
    } else if flags[panes.len() - 1] {
        flagged(panes.drop_last(), flags).push(panes.last())
    } else {
        flagged(panes.drop_last(), flags)
    }
}

/// The panes of `panes` whose flag in `flags` is set, in order.
pub fn keep_flagged(panes: &Vec<PaneInfo>, flags: &Vec<bool>) -> (r: Vec<PaneInfo>)
    requires
        flags@.len() == panes@.len(),
    ensures
        r@ == flagged(panes@, flags@),
{
    let mut out: Vec<PaneInfo> = Vec::new();
    let mut i: usize = 0;
    while i < panes.len()
        invariant
            i <= panes@.len(),
            flags@.len() == panes@.len(),
            out@ == flagged(panes@.take(i as int), flags@),
        decreases panes@.len() - i,
    {
        assert(panes@.take(i + 1).drop_last() =~= panes@.take(i as int));
        if flags[i] {
            out.push(panes[i].copied());
        }
        i = i + 1;
    }
    assert(panes@.take(panes@.len() as int) =~= panes@);
    out
}

/// Flagging each pane by whether a pattern matches its title selects the
/// matching panes.
proof fn lemma_flagged_matching(panes: Seq<PaneInfo>, flags: Seq<bool>, ps: Seq<Seq<char>>)
    requires
        flags.len() >= panes.len(),
        forall|i: int| 0 <= i < panes.len() ==> flags[i] == matches_any(ps, #[trigger] panes[i].title@),
    ensures
        flagged(panes, flags) == matching(panes, ps),
    decreases panes.len(),
{
    if panes.len() > 0 {
        let rest = panes.drop_last();
        assert forall|i: int| 0 <= i < rest.len() implies flags[i] == matches_any(
            ps,
            #[trigger] rest[i].title@,
        ) by {
            assert(rest[i] == panes[i]);
        }
        lemma_flagged_matching(rest, flags, ps);
        assert(flags[panes.len() - 1] == matches_any(ps, panes[panes.len() - 1].title@));
    }
}

/// Whether a pane is shown under the active patterns `ps`.
pub open spec fn shown_by(ps: Seq<Seq<char>>, p: PaneInfo) -> bool {
    ps.len() == 0 || matches_any(ps, p.title@)
}

/// The panes of `panes` that the matchers `ms` let through.
pub fn visible_panes(panes: &Vec<PaneInfo>, ms: &Vec<Matcher>) -> (r: Vec<PaneInfo>)
    ensures
        r@ == visible(panes@, patterns_of(ms@)),
{
    let mut flags: Vec<bool> = Vec::new();
    let mut i: usize = 0;
    while i < panes.len()
        invariant
            i <= panes@.len(),
            flags@.len() == i,
            forall|k: int| 0 <= k < i ==> flags@[k] == #[trigger] shown_by(patterns_of(ms@), panes@[k]),
        decreases panes@.len() - i,
    {
        assert(patterns_of(ms@).len() == ms@.len());
        let keep = ms.len() == 0 || any_matches(ms, panes[i].title.as_str());
        let ghost before = flags@;
        flags.push(keep);
        assert(forall|k: int| 0 <= k < i ==> flags@[k] == before[k]);
        assert(flags@[i as int] == keep);
        assert(keep == shown_by(patterns_of(ms@), panes@[i as int]));
        i = i + 1;
    }
    let r = keep_flagged(panes, &flags);
    proof {
        if patterns_of(ms@).len() == 0 {
            assert forall|k: int| 0 <= k < panes@.len() implies #[trigger] flags@[k] by {
                assert(flags@[k] == shown_by(patterns_of(ms@), panes@[k]));
            }
            lemma_flagged_all(panes@, flags@);
        } else {
            assert forall|k: int| 0 <= k < panes@.len() implies flags@[k] == matches_any(
                patterns_of(ms@),
                #[trigger] panes@[k].title@,
            ) by {
                assert(flags@[k] == shown_by(patterns_of(ms@), panes@[k]));
            }
            lemma_flagged_matching(panes@, flags@, patterns_of(ms@));
        }
    }
    r
}

/// With every flag set, all panes are kept.
proof fn lemma_flagged_all(panes: Seq<PaneInfo>, flags: Seq<bool>)
    requires
        flags.len() >= panes.len(),
        forall|i: int| 0 <= i < panes.len() ==> #[trigger] flags[i],
    ensures
        flagged(panes, flags) == panes,
    decreases panes.len(),
{
    if panes.len() > 0 {
        lemma_flagged_all(panes.drop_last(), flags);
        assert(panes.drop_last().push(panes.last()) =~= panes);
    }
}

/// The status text for a filter pattern that does not compile begins with
/// this.
pub open spec fn invalid_pattern_prefix(p: Seq<char>) -> Seq<char> {
    "Invalid regex '"@ + p + "': "@
}

/// The last pattern of `ps` that does not compile, if any.
pub open spec fn last_invalid(ps: Seq<Seq<char>>) -> Option<Seq<char>>
    decreases ps.len(),
{
    if ps.len() == 0 {
        None
    } else if !crate::filter::pattern_compiles(ps.last()) {
        Some(ps.last())
    } else {
        last_invalid(ps.drop_last())
    }
}

/// The whole state of the pane filter.
pub struct State {
    /// Plugin configuration.
    pub config: PluginConfig,
    /// The patterns of the configuration that compiled, in order.
    pub compiled_filters: Vec<Matcher>,
    /// All panes of the last snapshot.
    pub all_panes: Vec<PaneInfo>,
    /// The panes that the filters let through.
    pub filtered_panes: Vec<PaneInfo>,
    /// Cursor into `filtered_panes`.
    pub selected_pane_index: usize,
    pub mode: Mode,
    /// The method catalog.
    pub methods: Vec<Method>,
    /// Cursor into `methods`.
    pub selected_method_index: usize,
    /// Status or error text shown at the bottom.
    pub status_message: Option<String>,
    /// A catalog fetch is in flight.
    pub is_loading: bool,
    pub current_tab_index: usize,
}

impl State {
    /// The active patterns.
    pub open spec fn active(&self) -> Seq<Seq<char>> {
        patterns_of(self.compiled_filters@)
    }

    /// The filters are those of the configuration that compile, the visible
    /// panes are recomputed from them, and the pane cursor is valid.
    pub open spec fn wf(&self) -> bool {
        &&& self.active() == compiled_patterns(views(self.config.pane_filters@))
        &&& self.filtered_panes@ == visible(self.all_panes@, self.active())
        &&& cursor_ok(self.selected_pane_index as nat, self.filtered_panes@.len())
    }

    pub fn new() -> (r: Self)
        ensures
            r.wf(),
            r.config.is_default(),
            r.all_panes@.len() == 0,
            r.filtered_panes@.len() == 0,
            r.selected_pane_index == 0,
            r.mode == Mode::BrowsePanes,
            r.methods@.len() == 0,
            r.selected_method_index == 0,
            r.status_message is None,
            !r.is_loading,
            r.current_tab_index == 0,
    {
        let r = State {
            config: PluginConfig::default(),
            compiled_filters: Vec::new(),
            all_panes: Vec::new(),
            filtered_panes: Vec::new(),
            selected_pane_index: 0,
            mode: Mode::BrowsePanes,
            methods: Vec::new(),
            selected_method_index: 0,
            status_message: None,
            is_loading: false,
            current_tab_index: 0,
        };
        assert(views(r.config.pane_filters@) =~= Seq::empty());
        assert(r.active() =~= Seq::empty());
        r
    }

    /// Recomputes the visible panes from all panes and the active filters,
    /// and brings the pane cursor back into range.
    pub fn filter_panes(&mut self)
        ensures
            final(self).filtered_panes@ == visible(old(self).all_panes@, old(self).active()),
            final(self).selected_pane_index as nat == clamp_cursor(
                old(self).selected_pane_index as nat,
                final(self).filtered_panes@.len(),
            ),
            final(self).config == old(self).config,
            final(self).compiled_filters == old(self).compiled_filters,
            final(self).all_panes == old(self).all_panes,
            final(self).mode == old(self).mode,
            final(self).methods == old(self).methods,
            final(self).selected_method_index == old(self).selected_method_index,
            final(self).status_message == old(self).status_message,
            final(self).is_loading == old(self).is_loading,
            final(self).current_tab_index == old(self).current_tab_index,
    {
        self.filtered_panes = visible_panes(&self.all_panes, &self.compiled_filters);
        let n = self.filtered_panes.len();
        if n == 0 {
            self.selected_pane_index = 0;
        } else if self.selected_pane_index >= n {
            self.selected_pane_index = n - 1;
        }
    }

    /// Replaces all panes by a new snapshot and recomputes the visible ones.
    pub fn update_panes(&mut self, panes: Vec<PaneInfo>)
        requires
            old(self).wf(),
        ensures
            final(self).wf(),
            cursor_ok(final(self).selected_pane_index as nat, final(self).filtered_panes@.len()),
            final(self).all_panes@ == panes@,
            final(self).filtered_panes@ == visible(panes@, old(self).active()),
            final(self).selected_pane_index as nat == clamp_cursor(
                old(self).selected_pane_index as nat,
                final(self).filtered_panes@.len(),
            ),
            final(self).config == old(self).config,
            final(self).compiled_filters == old(self).compiled_filters,
            final(self).mode == old(self).mode,
            final(self).methods == old(self).methods,
            final(self).selected_method_index == old(self).selected_method_index,
            final(self).status_message == old(self).status_message,
            final(self).is_loading == old(self).is_loading,
    {
        self.all_panes = panes;
        self.filter_panes();
    }

    /// Takes a new configuration: compiles each filter pattern on its own,
    /// keeps those that compile, reports the last one that does not, and
    /// recomputes the visible panes.
    pub fn update_config(&mut self, config: PluginConfig)
        requires
            old(self).wf(),
        ensures
            final(self).wf(),
            final(self).config == config,
            final(self).active() == compiled_patterns(views(config.pane_filters@)),
            final(self).all_panes == old(self).all_panes,
            final(self).filtered_panes@ == visible(old(self).all_panes@, final(self).active()),
            final(self).selected_pane_index as nat == clamp_cursor(
                old(self).selected_pane_index as nat,
                final(self).filtered_panes@.len(),
            ),
            last_invalid(views(config.pane_filters@)) is None ==> final(self).status_message
                == old(self).status_message,
            last_invalid(views(config.pane_filters@)) matches Some(p) ==> (
            final(self).status_message matches Some(m) && has_prefix(
                m@,
                invalid_pattern_prefix(p),
            )),
            final(self).mode == old(self).mode,
            final(self).methods == old(self).methods,
            final(self).selected_method_index == old(self).selected_method_index,
            final(self).is_loading == old(self).is_loading,
    {
        let ghost ps = views(config.pane_filters@);
        let mut compiled: Vec<Matcher> = Vec::new();
        let mut i: usize = 0;
        while i < config.pane_filters.len()
            invariant
                i <= config.pane_filters@.len(),
                ps == views(config.pane_filters@),
                patterns_of(compiled@) == compiled_patterns(ps.take(i as int)),
                last_invalid(ps.take(i as int)) is None ==> self.status_message == old(self).status_message,
                last_invalid(ps.take(i as int)) matches Some(p) ==> (self.status_message matches Some(
                    m,
                ) && has_prefix(m@, invalid_pattern_prefix(p))),
                self.all_panes == old(self).all_panes,
                self.selected_pane_index == old(self).selected_pane_index,
                self.mode == old(self).mode,
                self.methods == old(self).methods,
                self.selected_method_index == old(self).selected_method_index,
                self.is_loading == old(self).is_loading,
            decreases config.pane_filters@.len() - i,
        {
            let pattern = config.pane_filters[i].as_str();
            assert(ps.take(i + 1).drop_last() =~= ps.take(i as int));
            assert(ps.take(i + 1).last() == pattern@);
            match Matcher::compile(pattern) {
                Ok(m) => {
                    compiled.push(m);
                    assert(patterns_of(compiled@) =~= patterns_of(compiled@.drop_last()).push(
                        pattern@,
                    ));
                },
                Err(e) => {
                    let head = join2("Invalid regex '", pattern);
                    let head = join2(head.as_str(), "': ");
                    let msg = join2(head.as_str(), e.as_str());
                    assert(msg@.take(head@.len() as int) =~= head@);
                    self.status_message = Some(msg);
                },
            }
            i = i + 1;
        }
        assert(ps.take(i as int) =~= ps);
        self.compiled_filters = compiled;
        self.config = config;
        self.filter_panes();
    }

    /// The pane under the cursor.
    pub open spec fn selected_pane(&self) -> Option<PaneInfo> {
        if self.selected_pane_index < self.filtered_panes@.len() {
            Some(self.filtered_panes@[self.selected_pane_index as int])
        } else {
            None
        }
    }

    /// The method under the cursor.
    pub open spec fn selected_method(&self) -> Option<Method> {
        if self.selected_method_index < self.methods@.len() {
            Some(self.methods@[self.selected_method_index as int])
        } else {
            None
        }
    }

    /// The command line and pane that running the selected method would use.
    pub open spec fn planned(&self) -> Option<(Seq<Seq<char>>, u32)> {
        match (self.selected_pane(), self.selected_method()) {
            (Some(p), Some(m)) => Some((m.invocation(), p.id)),
            _ => None,
        }
    }

    /// Running the selected method must first be confirmed.
    pub open spec fn gated(&self) -> bool {
        self.selected_method() matches Some(m) && m.requires_confirmation && self.mode
            != Mode::Confirm
    }

    pub fn move_selection_up(&mut self)
        requires
            old(self).wf(),
        ensures
            final(self).wf(),
            old(self).mode == Mode::BrowsePanes && old(self).selected_pane_index > 0 ==> (*final(self)
                == (State {
                selected_pane_index: (old(self).selected_pane_index - 1) as usize,
                ..*old(self)
            })),
            old(self).mode == Mode::SelectMethod && old(self).methods@.len() > 0
                && old(self).selected_method_index > 0 ==> (*final(self) == (State {
                selected_method_index: (old(self).selected_method_index - 1) as usize,
                ..*old(self)
            })),
            old(self).mode == Mode::Confirm || (old(self).mode == Mode::BrowsePanes
                && old(self).selected_pane_index == 0) || (old(self).mode == Mode::SelectMethod
                && (old(self).methods@.len() == 0 || old(self).selected_method_index == 0))
                ==> *final(self) == *old(self),
    {
        match self.mode {
            Mode::BrowsePanes => {
                if self.filtered_panes.len() > 0 && self.selected_pane_index > 0 {
                    self.selected_pane_index = self.selected_pane_index - 1;
                }
            },
            Mode::SelectMethod => {
                if self.methods.len() > 0 && self.selected_method_index > 0 {
                    self.selected_method_index = self.selected_method_index - 1;
                }
            },
            Mode::Confirm => {},
        }
    }

    pub fn move_selection_down(&mut self)
        requires
            old(self).wf(),
        ensures
            final(self).wf(),
            old(self).mode == Mode::BrowsePanes && old(self).selected_pane_index + 1
                < old(self).filtered_panes@.len() ==> (*final(self) == (State {
                selected_pane_index: (old(self).selected_pane_index + 1) as usize,
                ..*old(self)
            })),
            old(self).mode == Mode::SelectMethod && old(self).selected_method_index + 1
                < old(self).methods@.len() ==> (*final(self) == (State {
                selected_method_index: (old(self).selected_method_index + 1) as usize,
                ..*old(self)
            })),
            old(self).mode == Mode::Confirm || (old(self).mode == Mode::BrowsePanes
                && old(self).selected_pane_index + 1 >= old(self).filtered_panes@.len()) || (old(self).mode == Mode::SelectMethod && old(self).selected_method_index + 1
                >= old(self).methods@.len()) ==> *final(self) == *old(self),
    {
        match self.mode {
            Mode::BrowsePanes => {
                if self.selected_pane_index < self.filtered_panes.len()
                    && self.selected_pane_index + 1 < self.filtered_panes.len() {
                    self.selected_pane_index = self.selected_pane_index + 1;
                }
            },
            Mode::SelectMethod => {
                if self.selected_method_index < self.methods.len()
                    && self.selected_method_index + 1 < self.methods.len() {
                    self.selected_method_index = self.selected_method_index + 1;
                }
            },
            Mode::Confirm => {},
        }
    }

    pub fn get_selected_pane(&self) -> (r: Option<&PaneInfo>)
        ensures
            r matches Some(p) ==> self.selected_pane() == Some(*p),
            r is None ==> self.selected_pane() is None,
    {
        if self.selected_pane_index < self.filtered_panes.len() {
            Some(&self.filtered_panes[self.selected_pane_index])
        } else {
            None
        }
    }

    pub fn get_selected_method(&self) -> (r: Option<&Method>)
        ensures
            r matches Some(m) ==> self.selected_method() == Some(*m),
            r is None ==> self.selected_method() is None,
    {
        if self.selected_method_index < self.methods.len() {
            Some(&self.methods[self.selected_method_index])
        } else {
            None
        }
    }

    /// Opens the method list for the selected pane, with the first method
    /// under the cursor; reports an empty catalog instead.
    pub fn enter_method_selection(&mut self)
        requires
            old(self).wf(),
        ensures
            final(self).wf(),
            old(self).filtered_panes@.len() > 0 && old(self).methods@.len() > 0 ==> (*final(self)
                == (State { mode: Mode::SelectMethod, selected_method_index: 0, ..*old(self) })),
            old(self).methods@.len() == 0 ==> (final(self).status_message matches Some(s) && s@
                == "No methods configured"@),
            old(self).methods@.len() == 0 ==> (*final(self) == (State {
                status_message: final(self).status_message,
                ..*old(self)
            })),
            old(self).filtered_panes@.len() == 0 && old(self).methods@.len() > 0 ==> *final(self)
                == *old(self),
    {
        if self.filtered_panes.len() > 0 && self.methods.len() > 0 {
            self.mode = Mode::SelectMethod;
            self.selected_method_index = 0;
        } else if self.methods.len() == 0 {
            self.status_message = Some(String::from_str("No methods configured"));
        }
    }

    /// Back to the pane list, clearing the status line.
    pub fn back_to_pane_browsing(&mut self)
        requires
            old(self).wf(),
        ensures
            final(self).wf(),
            *final(self) == (State { mode: Mode::BrowsePanes, status_message: None, ..*old(self) }),
    {
        self.mode = Mode::BrowsePanes;
        self.status_message = None;
    }

    /// Replaces the whole catalog by a freshly loaded one.
    pub fn load_methods(&mut self, methods_config: MethodsConfig)
        requires
            old(self).wf(),
        ensures
            final(self).wf(),
            final(self).methods == methods_config.methods,
            !final(self).is_loading,
            final(self).status_message matches Some(s) && s@ == "Loaded "@ + decimal(
                methods_config.methods@.len(),
            ) + " methods"@,
            *final(self) == (State {
                methods: final(self).methods,
                is_loading: false,
                status_message: final(self).status_message,
                ..*old(self)
            }),
    {
        self.methods = methods_config.methods;
        self.is_loading = false;
        let count = decimal_string(self.methods.len() as u64);
        let head = join2("Loaded ", count.as_str());
        self.status_message = Some(join2(head.as_str(), " methods"));
    }

    /// Shows `message` and ends any catalog fetch.
    pub fn set_error(&mut self, message: String)
        requires
            old(self).wf(),
        ensures
            final(self).wf(),
            *final(self) == (State { status_message: Some(message), is_loading: false, ..*old(self) }),
    {
        self.status_message = Some(message);
        self.is_loading = false;
    }

    /// Runs the selected method on the selected pane. A method that needs
    /// confirmation, outside the confirmation step, only opens that step.
    pub fn execute_selected_method(&mut self) -> (r: Option<Invocation>)
        requires
            old(self).wf(),
        ensures
            final(self).wf(),
            old(self).planned() is None ==> r is None && *final(self) == *old(self),
            old(self).planned() is Some && old(self).gated() ==> r is None && (*final(self) == (
            State { mode: Mode::Confirm, ..*old(self) })),
            old(self).planned() is Some && !old(self).gated() ==> (r matches Some(inv) && inv@
                == old(self).planned().unwrap()),
            old(self).planned() is Some && !old(self).gated() ==> (final(self).status_message matches Some(
                s,
            ) && s@ == executed_message(
                old(self).selected_method().unwrap().name@,
                old(self).selected_pane().unwrap().id,
            )),
            old(self).planned() is Some && !old(self).gated() ==> (*final(self) == (State {
                status_message: final(self).status_message,
                ..*old(self)
            })),
    {
        let (pane_id, argv, name) = match (self.get_selected_pane(), self.get_selected_method()) {
            (Some(pane), Some(method)) => {
                if method.requires_confirmation && self.mode != Mode::Confirm {
                    self.mode = Mode::Confirm;
                    return None;
                }
                (pane.id, method.command_line(), method.name.clone())
            },
            _ => {
                return None;
            },
        };
        let head = join2("Executed '", name.as_str());
        let head = join2(head.as_str(), "' on pane ");
        let id_text = decimal_string(pane_id as u64);
        self.status_message = Some(join2(head.as_str(), id_text.as_str()));
        Some(Invocation { argv, pane_id })
    }

    /// Answers the confirmation step: on yes the method runs and the pane list
    /// comes back; on no the method list comes back and nothing runs.
    /// Outside the confirmation step nothing happens.
    pub fn confirm(&mut self, accept: bool) -> (r: Option<Invocation>)
        requires
            old(self).wf(),
        ensures
            final(self).wf(),
            old(self).mode != Mode::Confirm ==> r is None && *final(self) == *old(self),
            old(self).mode == Mode::Confirm && !accept ==> r is None && (*final(self) == (State {
                mode: Mode::SelectMethod,
                ..*old(self)
            })),
            old(self).mode == Mode::Confirm && accept ==> (*final(self) == (State {
                mode: Mode::BrowsePanes,
                status_message: None,
                ..*old(self)
            })),
            old(self).mode == Mode::Confirm && accept ==> match old(self).planned() {
                Some(plan) => r matches Some(inv) && inv@ == plan,
                None => r is None,
            },
    {
        if self.mode != Mode::Confirm {
            return None;
        }
        if !accept {
            self.mode = Mode::SelectMethod;
            return None;
        }
        let r = self.execute_selected_method();
        self.back_to_pane_browsing();
        r
    }
}

/// The status text after a method ran on a pane.
pub open spec fn executed_message(name: Seq<char>, pane_id: u32) -> Seq<char> {
    "Executed '"@ + name + "' on pane "@ + decimal(pane_id as nat)
}

/// A command line to run, and the pane it is meant for.
#[derive(Debug, Clone)]
pub struct Invocation {
    pub argv: Vec<String>,
    pub pane_id: u32,
}

impl View for Invocation {
    type V = (Seq<Seq<char>>, u32);

    open spec fn view(&self) -> (Seq<Seq<char>>, u32) {
        (self.argv@.map_values(|t: String| t@), self.pane_id)
    }
}

/// The panes that the filter shows are the snapshot with some panes left
/// out, in snapshot order; with no active pattern they are the whole
/// snapshot.
pub proof fn lemma_visible_subsequence(panes: Seq<PaneInfo>, ps: Seq<Seq<char>>)
    ensures
        is_subsequence(visible(panes, ps), panes),
        ps.len() == 0 ==> visible(panes, ps) == panes,
{
    if ps.len() == 0 {
        let idx = Seq::new(panes.len(), |i: int| i);
        assert(picks(panes, panes, idx));
    } else {
        lemma_matching_subsequence(panes, ps);
    }
}

proof fn lemma_matching_subsequence(panes: Seq<PaneInfo>, ps: Seq<Seq<char>>)
    ensures
        is_subsequence(matching(panes, ps), panes),
    decreases panes.len(),
{
    if panes.len() == 0 {
        let idx = Seq::<int>::empty();
        assert(picks(matching(panes, ps), panes, idx));
    } else {
        let rest = panes.drop_last();
        lemma_matching_subsequence(rest, ps);
        let sub = matching(rest, ps);
        let idx = choose|idx: Seq<int>| picks(sub, rest, idx);
        if matches_any(ps, panes.last().title@) {
            let idx2 = idx.push(panes.len() - 1);
            let sub2 = matching(panes, ps);
            assert(sub2 == sub.push(panes.last()));
            assert forall|i: int| 0 <= i < idx2.len() implies 0 <= #[trigger] idx2[i] < panes.len()
                && sub2[i] == panes[idx2[i]] by {
                if i < idx.len() {
                    assert(idx2[i] == idx[i]);
                }
            }
            assert(forall|i: int, j: int| 0 <= i < j < idx2.len() ==> idx2[i] < idx2[j]);
            assert(picks(sub2, panes, idx2));
        } else {
            assert forall|i: int| 0 <= i < idx.len() implies 0 <= #[trigger] idx[i] < panes.len()
                && sub[i] == panes[idx[i]] by {}
            assert(picks(matching(panes, ps), panes, idx));
        }
    }
}

/// A pattern that compiles is among the compiled patterns.
proof fn lemma_compiled_contains(ps: Seq<Seq<char>>, i: int)
    requires
        0 <= i < ps.len(),
        pattern_compiles(ps[i]),
    ensures
        compiled_patterns(ps).contains(ps[i]),
    decreases ps.len(),
{
    if i == ps.len() - 1 {
        assert(compiled_patterns(ps).last() == ps[i]);
    } else {
        lemma_compiled_contains(ps.drop_last(), i);
        let k = choose|k: int|
            0 <= k < compiled_patterns(ps.drop_last()).len() && compiled_patterns(
                ps.drop_last(),
            )[k] == ps[i];
        if pattern_compiles(ps.last()) {
            assert(compiled_patterns(ps)[k] == ps[i]);
        }
    }
}

/// A pane whose title some pattern of `ps` matches is kept.
proof fn lemma_matching_contains(panes: Seq<PaneInfo>, ps: Seq<Seq<char>>, j: int)
    requires
        0 <= j < panes.len(),
        matches_any(ps, panes[j].title@),
    ensures
        matching(panes, ps).contains(panes[j]),
    decreases panes.len(),
{
    if j == panes.len() - 1 {
        assert(matching(panes, ps).last() == panes[j]);
    } else {
        lemma_matching_contains(panes.drop_last(), ps, j);
        let k = choose|k: int|
            0 <= k < matching(panes.drop_last(), ps).len() && matching(panes.drop_last(), ps)[k]
                == panes[j];
        if matches_any(ps, panes.last().title@) {
            assert(matching(panes, ps)[k] == panes[j]);
        }
    }
}

/// Patterns that fail to compile do not hide what a pattern that compiles
/// matches: each pane whose title it matches stays visible.
pub proof fn lemma_valid_pattern_kept(panes: Seq<PaneInfo>, ps: Seq<Seq<char>>, i: int, j: int)
    requires
        0 <= i < ps.len(),
        pattern_compiles(ps[i]),
        0 <= j < panes.len(),
        pattern_matches(ps[i], panes[j].title@),
    ensures
        visible(panes, compiled_patterns(ps)).contains(panes[j]),
{
    lemma_compiled_contains(ps, i);
    let cps = compiled_patterns(ps);
    let k = choose|k: int| 0 <= k < cps.len() && cps[k] == ps[i];
    assert(pattern_matches(cps[k], panes[j].title@));
    assert(matches_any(cps, panes[j].title@));
    lemma_matching_contains(panes, cps, j);
}

} // verus!
