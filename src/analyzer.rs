use vstd::prelude::*;
use crate::context::{lookup, PipelineContext};
use crate::input::KeyInput;
use crate::state::{clamp_cursor, cursor_ok, PaneInfo};
use crate::text::{contains, decimal, decimal_string, has_infix, join2};

verus! {

/// A stage of the analysis pipeline: first the pane's screen is dumped to a
/// file, then the file is analyzed.
#[derive(Debug, Clone, Copy, PartialEq, Eq, Structural)]
pub enum Stage {
    Dump,
    Analyze,
}

impl Stage {
    /// The name carried under "stage" in the context of the stage's command.
    pub open spec fn label(self) -> Seq<char> {
        match self {
            Stage::Dump => "dump"@,
            Stage::Analyze => "analyze"@,
        }
    }

    pub fn name(&self) -> (r: &'static str)
        ensures
            r@ == self.label(),
    {
        match self {
            Stage::Dump => "dump",
            Stage::Analyze => "analyze",
        }
    }
}

/// Where the analysis of a pane stands.
#[derive(Debug, Clone)]
pub enum Phase {
    /// Choosing a pane.
    PaneList,
    /// One command of the pipeline is out, for the given stage.
    Running { pane_id: u32, stage: Stage },
    /// The last stage succeeded with this output.
    Succeeded { pane_id: u32, result: String },
    /// A stage failed with this error text.
    Failed { pane_id: u32, stage: Stage, message: String },
}

/// A command of the pipeline to launch, with the pane to focus first, if any.
#[derive(Debug, Clone)]
pub struct StageLaunch {
    pub focus: Option<u32>,
    pub argv: Vec<String>,
    pub context: PipelineContext,
}

impl StageLaunch {
    pub open spec fn argv_view(&self) -> Seq<Seq<char>> {
        self.argv@.map_values(|t: String| t@)
    }
}

/// The panes that can be analyzed: all but extension panes, in order.
pub open spec fn selectable(panes: Seq<PaneInfo>) -> Seq<PaneInfo>
    decreases panes.len(),
{
    if panes.len() == 0 {
        panes
    } else if panes.last().is_plugin {
        selectable(panes.drop_last())
    } else {
        selectable(panes.drop_last()).push(panes.last())
    }
}

/// The file a dump started at `timestamp` writes to.
pub open spec fn logfile_for(timestamp: u64) -> Seq<char> {
    "/tmp/k9s-dump-"@ + decimal(timestamp as nat) + ".txt"@
}

/// The command that dumps the focused pane's screen to `logfile`.
pub open spec fn dump_argv(logfile: Seq<char>) -> Seq<Seq<char>> {
    seq!["sh"@, "-c"@, "sleep 0.1 && zellij action dump-screen --full "@ + logfile]
}

/// The command that feeds the contents of `logfile` to the analysis
/// command `command`.
pub open spec fn analyze_argv(command: Seq<char>, logfile: Seq<char>) -> Seq<Seq<char>> {
    seq!["bash"@, "-c"@, command + " < "@ + logfile]
}

/// Whether a result with context `ctx` answers the command that `phase` waits
/// for.
pub open spec fn expects(phase: Phase, ctx: Seq<(Seq<char>, Seq<char>)>) -> bool {
    match phase {
        Phase::Running { stage, .. } => lookup(ctx, "stage"@) == Some(stage.label()),
        _ => false,
    }
}

/// The phase after a command result arrives. A result that the phase does not
/// wait for changes nothing; a failed stage ends the pipeline with its error
/// text; a successful dump moves on to the analysis of the file its context
/// names (without one, the dump counts as failed); a successful analysis ends
/// the pipeline with its output.
pub open spec fn next_phase(
    phase: Phase,
    exit_code: Option<i32>,
    stdout: String,
    stderr: String,
    ctx: Seq<(Seq<char>, Seq<char>)>,
) -> Phase {
    if !expects(phase, ctx) {
        phase
    } else {
        match phase {
            Phase::Running { pane_id, stage } => {
                if exit_code != Some(0i32) {
                    Phase::Failed { pane_id, stage, message: stderr }
                } else {
                    match stage {
                        Stage::Dump => if lookup(ctx, "logfile"@) is Some {
                            Phase::Running { pane_id, stage: Stage::Analyze }
                        } else {
                            Phase::Failed { pane_id, stage: Stage::Dump, message: stderr }
                        },
                        Stage::Analyze => Phase::Succeeded { pane_id, result: stdout },
                    }
                }
            },
            _ => phase,
        }
    }
}

/// The state of the pane analyzer.
pub struct Analyzer {
    /// The panes that can be analyzed.
    pub available_panes: Vec<PaneInfo>,
    /// Cursor into `available_panes`.
    pub selected_index: usize,
    pub phase: Phase,
    /// A notice for the pane list, such as a request with no pane to analyze.
    pub notice: Option<String>,
    /// The shell command that reads a dump on its standard input and prints
    /// its analysis.
    pub analysis_command: String,
}

impl Analyzer {
    /// The cursor is valid.
    pub open spec fn wf(&self) -> bool {
        cursor_ok(self.selected_index as nat, self.available_panes@.len())
    }

    pub fn new(analysis_command: String) -> (r: Analyzer)
        ensures
            r.wf(),
            r.analysis_command == analysis_command,
            r.available_panes@.len() == 0,
            r.selected_index == 0,
            r.phase is PaneList,
            r.notice is None,
    {
        Analyzer {
            available_panes: Vec::new(),
            selected_index: 0,
            phase: Phase::PaneList,
            notice: None,
            analysis_command,
        }
    }

    /// Takes a new snapshot of the panes, keeping those that can be analyzed,
    /// and brings the cursor back into range.
    pub fn update_panes(&mut self, panes: Vec<PaneInfo>)
        requires
            old(self).wf(),
        ensures
            final(self).wf(),
            final(self).available_panes@ == selectable(panes@),
            cursor_ok(final(self).selected_index as nat, final(self).available_panes@.len()),
            final(self).selected_index as nat == clamp_cursor(
                old(self).selected_index as nat,
                final(self).available_panes@.len(),
            ),
            final(self).phase == old(self).phase,
            final(self).notice == old(self).notice,
    {
        let mut kept: Vec<PaneInfo> = Vec::new();
        let mut i: usize = 0;
        while i < panes.len()
            invariant
                i <= panes@.len(),
                kept@ == selectable(panes@.take(i as int)),
            decreases panes@.len() - i,
        {
            assert(panes@.take(i + 1).drop_last() =~= panes@.take(i as int));
            if !panes[i].is_plugin {
                kept.push(panes[i].copied());
            }
            i = i + 1;
        }
        assert(panes@.take(panes@.len() as int) =~= panes@);
        self.available_panes = kept;
        let n = self.available_panes.len();
        if n == 0 {
            self.selected_index = 0;
        } else if self.selected_index >= n {
            self.selected_index = n - 1;
        }
    }

    /// The pipeline is waiting for a command.
    pub open spec fn is_running(&self) -> bool {
        self.phase is Running
    }

    /// Starts the analysis of the selected pane: focuses it and dumps its
    /// screen to a file named after `timestamp`. Nothing starts while a
    /// pipeline runs; with no pane a notice says so.
    pub fn start_analysis(&mut self, timestamp: u64) -> (r: Option<StageLaunch>)
        requires
            old(self).wf(),
        ensures
            final(self).wf(),
            old(self).is_running() ==> r is None && *final(self) == *old(self),
            !old(self).is_running() && old(self).available_panes@.len() == 0 ==> r is None && (
            final(self).notice matches Some(n) && n@ == "No panes available to analyze"@),
            !old(self).is_running() && old(self).available_panes@.len() == 0 ==> (*final(self)
                == (Analyzer { notice: final(self).notice, ..*old(self) })),
            !old(self).is_running() && old(self).available_panes@.len() > 0 ==> (*final(self)
                == (Analyzer {
                phase: Phase::Running {
                    pane_id: old(self).available_panes@[old(self).selected_index as int].id,
                    stage: Stage::Dump,
                },
                notice: None,
                ..*old(self)
            })),
            !old(self).is_running() && old(self).available_panes@.len() > 0 ==> (r matches Some(
                l,
            ) && l.focus == Some(old(self).available_panes@[old(self).selected_index as int].id)
                && l.argv_view() == dump_argv(logfile_for(timestamp)) && l.context.value_of(
                "stage"@,
            ) == Some("dump"@) && l.context.value_of("logfile"@) == Some(logfile_for(timestamp))
                && l.context.value_of("pane_id"@) == Some(
                decimal(old(self).available_panes@[old(self).selected_index as int].id as nat),
            )),
    {
        if let Phase::Running { .. } = self.phase {
            return None;
        }
        if self.available_panes.len() == 0 {
            self.notice = Some(String::from_str("No panes available to analyze"));
            return None;
        }
        let pane_id = self.available_panes[self.selected_index].id;
        self.phase = Phase::Running { pane_id, stage: Stage::Dump };
        self.notice = None;
        let stamp = decimal_string(timestamp);
        let logfile = join2("/tmp/k9s-dump-", stamp.as_str());
        let logfile = join2(logfile.as_str(), ".txt");
        let mut context = PipelineContext::new();
        proof {
            reveal_strlit("stage");
            reveal_strlit("logfile");
            reveal_strlit("pane_id");
        }
        context.insert(String::from_str("stage"), String::from_str("dump"));
        assert("logfile"@[0] != "stage"@[0]);
        context.insert(String::from_str("logfile"), logfile.clone());
        assert("pane_id"@[0] != "stage"@[0]);
        assert("pane_id"@[0] != "logfile"@[0]);
        context.insert(String::from_str("pane_id"), decimal_string(pane_id as u64));
        let command = join2("sleep 0.1 && zellij action dump-screen --full ", logfile.as_str());
        let mut argv: Vec<String> = Vec::new();
        argv.push(String::from_str("sh"));
        argv.push(String::from_str("-c"));
        argv.push(command);
        assert(argv@.map_values(|t: String| t@) =~= dump_argv(logfile@));
        Some(StageLaunch { focus: Some(pane_id), argv, context })
    }

    /// Takes the result of a pipeline command: see `next_phase`. After a
    /// successful dump the analysis command is launched. Returns whether the
    /// result was one the pipeline waited for, and the command to launch.
    pub fn handle_command_result(
        &mut self,
        exit_code: Option<i32>,
        stdout: String,
        stderr: String,
        context: &PipelineContext,
    ) -> (r: (bool, Option<StageLaunch>))
        requires
            old(self).wf(),
        ensures
            final(self).wf(),
            (*final(self) == (Analyzer {
                phase: next_phase(old(self).phase, exit_code, stdout, stderr, context@),
                ..*old(self)
            })),
            r.0 == expects(old(self).phase, context@),
            r.1 is Some <==> (expects(old(self).phase, context@) && (old(self).phase matches Phase::Running {
                stage: Stage::Dump,
                ..
            }) && exit_code == Some(0i32) && context.value_of("logfile"@) is Some),
            r.1 matches Some(l) ==> (l.focus is None && l.argv_view() == analyze_argv(
                old(self).analysis_command@,
                context.value_of("logfile"@).unwrap(),
            ) && l.context.value_of("stage"@) == Some("analyze"@)),
    {
        let (pane_id, stage) = match self.phase {
            Phase::Running { pane_id, stage } => (pane_id, stage),
            _ => {
                return (false, None);
            },
        };
        let live = match context.get("stage") {
            Some(name) => crate::text::same_text(name.as_str(), stage.name()),
            None => false,
        };
        if !live {
            return (false, None);
        }
        let succeeded = match exit_code {
            Some(code) => code == 0,
            None => false,
        };
        if !succeeded {
            self.phase = Phase::Failed { pane_id, stage, message: stderr };
            return (true, None);
        }
        match stage {
            Stage::Dump => match context.get("logfile") {
                Some(logfile) => {
                    self.phase = Phase::Running { pane_id, stage: Stage::Analyze };
                    let command = join2(self.analysis_command.as_str(), " < ");
                    let command = join2(command.as_str(), logfile.as_str());
                    let mut argv: Vec<String> = Vec::new();
                    argv.push(String::from_str("bash"));
                    argv.push(String::from_str("-c"));
                    argv.push(command);
                    assert(argv@.map_values(|t: String| t@) =~= analyze_argv(
                        self.analysis_command@,
                        logfile@,
                    ));
                    let mut next = PipelineContext::new();
                    next.insert(String::from_str("stage"), String::from_str("analyze"));
                    (true, Some(StageLaunch { focus: None, argv, context: next }))
                },
                None => {
                    self.phase = Phase::Failed { pane_id, stage, message: stderr };
                    (true, None)
                },
            },
            Stage::Analyze => {
                self.phase = Phase::Succeeded { pane_id, result: stdout };
                (true, None)
            },
        }
    }

    /// Leaves a finished pipeline for the pane list, dropping its result or
    /// error. Does nothing in any other phase.
    pub fn reset(&mut self)
        requires
            old(self).wf(),
        ensures
            final(self).wf(),
            (old(self).phase is Succeeded || old(self).phase is Failed) ==> (*final(self) == (
            Analyzer { phase: Phase::PaneList, ..*old(self) })),
            !(old(self).phase is Succeeded || old(self).phase is Failed) ==> *final(self) == *old(self),
    {
        match self.phase {
            Phase::Succeeded { .. } | Phase::Failed { .. } => {
                self.phase = Phase::PaneList;
            },
            _ => {},
        }
    }

    /// Reacts to a key: in the pane list the arrows move the cursor and Enter
    /// starts an analysis; on a finished pipeline Esc, `b` or `q` go back to
    /// the list and `r` analyzes again; while a pipeline runs keys do
    /// nothing. Returns whether anything changed, and the command to launch.
    pub fn handle_key(&mut self, key: KeyInput, timestamp: u64) -> (r: (bool, Option<StageLaunch>))
        requires
            old(self).wf(),
        ensures
            final(self).wf(),
            old(self).phase is PaneList && key == KeyInput::Down ==> if old(self).selected_index
                + 1 < old(self).available_panes@.len() {
                r.0 && r.1 is None && (*final(self) == (Analyzer {
                    selected_index: (old(self).selected_index + 1) as usize,
                    ..*old(self)
                }))
            } else {
                !r.0 && r.1 is None && *final(self) == *old(self)
            },
            old(self).phase is PaneList && key == KeyInput::Up ==> if old(self).selected_index > 0 {
                r.0 && r.1 is None && (*final(self) == (Analyzer {
                    selected_index: (old(self).selected_index - 1) as usize,
                    ..*old(self)
                }))
            } else {
                !r.0 && r.1 is None && *final(self) == *old(self)
            },
            (old(self).phase is PaneList && key == KeyInput::Enter) || ((old(self).phase is Succeeded
                || old(self).phase is Failed) && key == KeyInput::Char('r')) ==> r.0 && (r.1 is Some
                <==> old(self).available_panes@.len() > 0) && (old(self).available_panes@.len() > 0
                ==> final(self).phase == (Phase::Running {
                pane_id: old(self).available_panes@[old(self).selected_index as int].id,
                stage: Stage::Dump,
            })),
            (old(self).phase is Succeeded || old(self).phase is Failed) && (key == KeyInput::Esc
                || key == KeyInput::Char('b') || key == KeyInput::Char('q')) ==> r.0 && r.1 is None
                && (*final(self) == (Analyzer { phase: Phase::PaneList, ..*old(self) })),
            old(self).is_running() ==> !r.0 && r.1 is None && *final(self) == *old(self),
    {
        match self.phase {
            Phase::PaneList => match key {
                KeyInput::Down => {
                    if self.selected_index < self.available_panes.len()
                        && self.selected_index + 1 < self.available_panes.len() {
                        self.selected_index = self.selected_index + 1;
                        return (true, None);
                    }
                    (false, None)
                },
                KeyInput::Up => {
                    if self.selected_index > 0 {
                        self.selected_index = self.selected_index - 1;
                        return (true, None);
                    }
                    (false, None)
                },
                KeyInput::Enter => (true, self.start_analysis(timestamp)),
                _ => (false, None),
            },
            Phase::Succeeded { .. } | Phase::Failed { .. } => match key {
                KeyInput::Esc | KeyInput::Char('b') | KeyInput::Char('q') => {
                    self.reset();
                    (true, None)
                },
                KeyInput::Char('r') => (true, self.start_analysis(timestamp)),
                _ => (false, None),
            },
            Phase::Running { .. } => (false, None),
        }
    }
}

/// A result whose context names another stage than the one the pipeline
/// waits for leaves the phase as it is.
pub proof fn lemma_stale_result_ignored(
    phase: Phase,
    exit_code: Option<i32>,
    stdout: String,
    stderr: String,
    ctx: Seq<(Seq<char>, Seq<char>)>,
)
    requires
        !expects(phase, ctx),
    ensures
        next_phase(phase, exit_code, stdout, stderr, ctx) == phase,
{
}

/// The pipeline's outcome. From a started dump of a pane, when the results
/// come back with the contexts their commands were launched with: if every
/// stage succeeds the pipeline ends in success with the analysis output; if a
/// stage fails it ends in failure at that stage with that stage's error text.
/// Later results change nothing.
pub proof fn lemma_pipeline_outcome(
    pane_id: u32,
    dump_ctx: Seq<(Seq<char>, Seq<char>)>,
    analyze_ctx: Seq<(Seq<char>, Seq<char>)>,
    dump_exit: Option<i32>,
    dump_out: String,
    dump_err: String,
    analyze_exit: Option<i32>,
    analyze_out: String,
    analyze_err: String,
    late_exit: Option<i32>,
    late_out: String,
    late_err: String,
    late_ctx: Seq<(Seq<char>, Seq<char>)>,
)
    requires
        lookup(dump_ctx, "stage"@) == Some("dump"@),
        lookup(dump_ctx, "logfile"@) is Some,
        lookup(analyze_ctx, "stage"@) == Some("analyze"@),
    ensures
        ({
            let start = Phase::Running { pane_id, stage: Stage::Dump };
            let after_dump = next_phase(start, dump_exit, dump_out, dump_err, dump_ctx);
            let done = next_phase(after_dump, analyze_exit, analyze_out, analyze_err, analyze_ctx);
            &&& dump_exit == Some(0i32) && analyze_exit == Some(0i32) ==> done == (Phase::Succeeded {
                pane_id,
                result: analyze_out,
            })
            &&& dump_exit != Some(0i32) ==> after_dump == (Phase::Failed {
                pane_id,
                stage: Stage::Dump,
                message: dump_err,
            })
            &&& dump_exit == Some(0i32) && analyze_exit != Some(0i32) ==> done == (Phase::Failed {
                pane_id,
                stage: Stage::Analyze,
                message: analyze_err,
            })
            &&& dump_exit != Some(0i32) ==> done == after_dump
            &&& next_phase(done, late_exit, late_out, late_err, late_ctx) == done
        }),
{
    reveal_strlit("dump");
    reveal_strlit("analyze");
    assert("dump"@ != "analyze"@) by {
        assert("dump"@[0] != "analyze"@[0]);
    }
}

/// The lower-case form of a text.
pub uninterp spec fn lower_of(s: Seq<char>) -> Seq<char>;

/// Relies on str::to_lowercase: the result depends on the characters alone.
#[verifier::external_body]
fn lowercase(s: &str) -> (r: String)
    ensures
        r@ == lower_of(s@),
{
    s.to_lowercase()
}

/// The icon for a pane whose lower-cased title is `lower`: production,
/// staging, development, cluster tools, anything else.
pub open spec fn icon_for(lower: Seq<char>) -> Seq<char> {
    if has_infix(lower, "prod"@) {
        "\u{1f534}"@
    } else if has_infix(lower, "stag"@) {
        "\u{1f7e1}"@
    } else if has_infix(lower, "dev"@) {
        "\u{1f7e2}"@
    } else if has_infix(lower, "k9s"@) || has_infix(lower, "k8s"@) {
        "\u{2638}\u{fe0f}"@
    } else {
        "\u{1f4c4}"@
    }
}

/// The icon for a lower-cased pane title.
pub fn icon_for_lowered(lower: &str) -> (r: &'static str)
    ensures
        r@ == icon_for(lower@),
{
    if contains(lower, "prod") {
        "\u{1f534}"
    } else if contains(lower, "stag") {
        "\u{1f7e1}"
    } else if contains(lower, "dev") {
        "\u{1f7e2}"
    } else if contains(lower, "k9s") || contains(lower, "k8s") {
        "\u{2638}\u{fe0f}"
    } else {
        "\u{1f4c4}"
    }
}

/// The icon for a pane, from its title in any case.
pub fn pane_icon(pane: &PaneInfo) -> (r: &'static str)
    ensures
        r@ == icon_for(lower_of(pane.title@)),
{
    let lower = lowercase(pane.title.as_str());
    icon_for_lowered(lower.as_str())
}

} // verus!
