use vstd::prelude::*;
use crate::analyzer::{icon_for, lower_of, pane_icon, Analyzer, Phase, Stage};
use crate::state::{views, PaneInfo};
use crate::text::{decimal, decimal_string, join2, split_lines, text_lines};
use crate::ui::{clip, minus};

verus! {

/// `n` copies of `c`.
pub open spec fn repeat(c: char, n: nat) -> Seq<char> {
    Seq::new(n, |i: int| c)
}

/// `n` copies of the one character of `unit`.
pub fn repeat_text(unit: &str, n: usize) -> (r: String)
    requires
        unit@.len() == 1,
    ensures
        r@ == repeat(unit@[0], n as nat),
{
    let mut r = String::new();
    let mut i: usize = 0;
    while i < n
        invariant
            i <= n,
            unit@.len() == 1,
            r@ == repeat(unit@[0], i as nat),
        decreases n - i,
    {
        r.append(unit);
        assert(r@ =~= repeat(unit@[0], (i + 1) as nat));
        i = i + 1;
    }
    r
}

/// A framed title across `cols` columns, then an empty line.
pub open spec fn banner(title: Seq<char>, cols: usize) -> Seq<Seq<char>> {
    let inner = minus(cols as nat, 2);
    seq![
        "\u{2554}"@ + repeat('\u{2550}', inner) + "\u{2557}"@,
        "\u{2551} "@ + title + repeat(' ', minus(inner, title.len() + 1)) + "\u{2551}"@,
        "\u{255a}"@ + repeat('\u{2550}', inner) + "\u{255d}"@,
        Seq::empty(),
    ]
}

/// A thin rule one column short of the width.
pub open spec fn thin_rule(cols: usize) -> Seq<char> {
    repeat('\u{2500}', minus(cols as nat, 1))
}

/// The line of a pane in the analyzer's list.
pub open spec fn pane_entry(p: PaneInfo, selected: bool) -> Seq<char> {
    (if selected {
        "\u{25b6}"@
    } else {
        " "@
    }) + " "@ + icon_for(lower_of(p.title@)) + " "@ + (if p.title@.len() == 0 {
        "Untitled"@
    } else {
        p.title@
    })
}

/// The pane list: the notice, if any, then the panes or a hint when there is
/// none.
pub open spec fn list_screen(a: Analyzer, cols: usize) -> Seq<Seq<char>> {
    let notice = match a.notice {
        Some(n) => seq![n@, Seq::empty()],
        None => Seq::empty(),
    };
    let panes = a.available_panes@;
    banner("\u{1f4ca} AI Analyzer"@, cols) + notice + if panes.len() == 0 {
        seq![
            "No panes available"@,
            Seq::empty(),
            "Open k9s or other terminals"@,
            "to see them listed here."@,
        ]
    } else {
        seq!["Available Panes:"@, thin_rule(cols)] + Seq::new(
            panes.len(),
            |i: int| pane_entry(panes[i], i == a.selected_index),
        ) + seq![
            Seq::empty(),
            thin_rule(cols),
            "\u{2191}\u{2193}     Navigate"@,
            "Alt+a  Analyze selected"@,
            "Enter  Analyze selected"@,
        ]
    }
}

/// Progress of a running pipeline.
pub open spec fn running_screen(pane_id: u32, stage: Stage, cols: usize) -> Seq<Seq<char>> {
    banner("\u{1f916} Analyzing..."@, cols) + seq!["Pane ID: "@ + decimal(pane_id as nat), Seq::empty()]
        + match stage {
        Stage::Dump => seq!["\u{23f3} Dumping pane content..."@],
        Stage::Analyze => seq!["\u{2705} Dump complete"@, "\u{1f916} Analyzing..."@],
    }
}

/// A failed pipeline: which stage failed, and its error text.
pub open spec fn failure_screen(stage: Stage, message: Seq<char>, cols: usize) -> Seq<Seq<char>> {
    banner("\u{274c} Error"@, cols) + seq![
        match stage {
            Stage::Dump => "Dump failed: "@,
            Stage::Analyze => "Analysis failed: "@,
        } + message,
        Seq::empty(),
        thin_rule(cols),
        "[Esc/b] Back to list"@,
    ]
}

/// A finished pipeline: as many lines of its output as fit, each cut to the
/// width.
pub open spec fn result_screen(result: Seq<char>, rows: usize, cols: usize) -> Seq<Seq<char>> {
    let all = text_lines(result);
    let fit = minus(rows as nat, 8);
    let shown = if all.len() < fit {
        all.len()
    } else {
        fit
    };
    banner("\u{2705} Analysis Complete"@, cols) + Seq::new(shown, |i: int| clip(all[i], cols as nat))
        + seq![Seq::empty(), thin_rule(cols), "[Esc/b/q] Back  [r] Re-analyze"@]
}

/// What the analyzer shows in its current phase.
pub open spec fn screen(a: Analyzer, rows: usize, cols: usize) -> Seq<Seq<char>> {
    match a.phase {
        Phase::PaneList => list_screen(a, cols),
        Phase::Running { pane_id, stage } => running_screen(pane_id, stage, cols),
        Phase::Succeeded { result, .. } => result_screen(result@, rows, cols),
        Phase::Failed { stage, message, .. } => failure_screen(stage, message@, cols),
    }
}

fn push_str(out: &mut Vec<String>, s: &str)
    ensures
        views(final(out)@) == views(old(out)@).push(s@),
{
    out.push(String::from_str(s));
    assert(views(final(out)@) =~= views(old(out)@).push(s@));
}

fn push_string(out: &mut Vec<String>, s: String)
    ensures
        views(final(out)@) == views(old(out)@).push(s@),
{
    let ghost v = s@;
    out.push(s);
    assert(views(final(out)@) =~= views(old(out)@).push(v));
}

fn banner_lines(out: &mut Vec<String>, title: &str, cols: usize)
    ensures
        views(final(out)@) == views(old(out)@) + banner(title@, cols),
{
    proof {
        reveal_strlit("\u{2550}");
        reveal_strlit(" ");
    }
    let inner = if cols >= 2 {
        cols - 2
    } else {
        0
    };
    let bar = repeat_text("\u{2550}", inner);
    let tl = title.unicode_len();
    let pad = if tl < inner {
        inner - (tl + 1)
    } else {
        0
    };
    let top = join2("\u{2554}", bar.as_str());
    push_string(out, join2(top.as_str(), "\u{2557}"));
    let mid = join2("\u{2551} ", title);
    let spaces = repeat_text(" ", pad);
    let mid = join2(mid.as_str(), spaces.as_str());
    push_string(out, join2(mid.as_str(), "\u{2551}"));
    let bottom = join2("\u{255a}", bar.as_str());
    push_string(out, join2(bottom.as_str(), "\u{255d}"));
    push_string(out, String::new());
    assert(views(final(out)@) =~= views(old(out)@) + banner(title@, cols));
}

fn thin_rule_text(cols: usize) -> (r: String)
    ensures
        r@ == thin_rule(cols),
{
    proof {
        reveal_strlit("\u{2500}");
    }
    repeat_text(
        "\u{2500}",
        if cols >= 1 {
            cols - 1
        } else {
            0
        },
    )
}

impl Analyzer {
    /// The lines the analyzer shows, for any screen size.
    pub fn screen(&self, rows: usize, cols: usize) -> (r: Vec<String>)
        ensures
            views(r@) == screen(*self, rows, cols),
    {
        let mut out: Vec<String> = Vec::new();
        assert(views(out@) =~= Seq::empty());
        match &self.phase {
            Phase::PaneList => {
                banner_lines(&mut out, "\u{1f4ca} AI Analyzer", cols);
                if let Some(n) = &self.notice {
                    push_string(&mut out, n.clone());
                    push_string(&mut out, String::new());
                }
                let ghost head = views(out@);
                if self.available_panes.len() == 0 {
                    push_str(&mut out, "No panes available");
                    push_string(&mut out, String::new());
                    push_str(&mut out, "Open k9s or other terminals");
                    push_str(&mut out, "to see them listed here.");
                } else {
                    push_str(&mut out, "Available Panes:");
                    push_string(&mut out, thin_rule_text(cols));
                    let ghost top = views(out@);
                    let panes = &self.available_panes;
                    let mut i: usize = 0;
                    while i < panes.len()
                        invariant
                            i <= panes@.len(),
                            panes == &self.available_panes,
                            views(out@) == top + Seq::new(
                                i as nat,
                                |k: int| pane_entry(panes@[k], k == self.selected_index),
                            ),
                        decreases panes@.len() - i,
                    {
                        let p = &panes[i];
                        let selected = i == self.selected_index;
                        let line = join2(
                            if selected {
                                "\u{25b6}"
                            } else {
                                " "
                            },
                            " ",
                        );
                        let line = join2(line.as_str(), pane_icon(p));
                        let line = join2(line.as_str(), " ");
                        let title = if p.title.unicode_len() == 0 {
                            "Untitled"
                        } else {
                            p.title.as_str()
                        };
                        let line = join2(line.as_str(), title);
                        let ghost lv = line@;
                        push_string(&mut out, line);
                        assert(views(out@) =~= top + Seq::new(
                            (i + 1) as nat,
                            |k: int| pane_entry(panes@[k], k == self.selected_index),
                        ));
                        i = i + 1;
                    }
                    push_string(&mut out, String::new());
                    push_string(&mut out, thin_rule_text(cols));
                    push_str(&mut out, "\u{2191}\u{2193}     Navigate");
                    push_str(&mut out, "Alt+a  Analyze selected");
                    push_str(&mut out, "Enter  Analyze selected");
                }
                assert(views(out@) =~= screen(*self, rows, cols));
            },
            Phase::Running { pane_id, stage } => {
                banner_lines(&mut out, "\u{1f916} Analyzing...", cols);
                let id = decimal_string(*pane_id as u64);
                push_string(&mut out, join2("Pane ID: ", id.as_str()));
                push_string(&mut out, String::new());
                match stage {
                    Stage::Dump => push_str(&mut out, "\u{23f3} Dumping pane content..."),
                    Stage::Analyze => {
                        push_str(&mut out, "\u{2705} Dump complete");
                        push_str(&mut out, "\u{1f916} Analyzing...");
                    },
                }
                assert(views(out@) =~= screen(*self, rows, cols));
            },
            Phase::Failed { stage, message, .. } => {
                banner_lines(&mut out, "\u{274c} Error", cols);
                let what = match stage {
                    Stage::Dump => "Dump failed: ",
                    Stage::Analyze => "Analysis failed: ",
                };
                push_string(&mut out, join2(what, message.as_str()));
                push_string(&mut out, String::new());
                push_string(&mut out, thin_rule_text(cols));
                push_str(&mut out, "[Esc/b] Back to list");
                assert(views(out@) =~= screen(*self, rows, cols));
            },
            Phase::Succeeded { result, .. } => {
                banner_lines(&mut out, "\u{2705} Analysis Complete", cols);
                let all = split_lines(result.as_str());
                assert(views(all@) =~= all@.map_values(|t: String| t@));
                let fit = if rows >= 8 {
                    rows - 8
                } else {
                    0
                };
                let shown = if all.len() < fit {
                    all.len()
                } else {
                    fit
                };
                let ghost top = views(out@);
                let ghost texts = text_lines(result@);
                let mut i: usize = 0;
                while i < shown
                    invariant
                        i <= shown,
                        shown <= all@.len(),
                        views(all@) == texts,
                        views(out@) == top + Seq::new(i as nat, |k: int| clip(texts[k], cols as nat)),
                    decreases shown - i,
                {
                    let line = all[i].as_str();
                    let cut = if line.unicode_len() > cols {
                        String::from_str(line.substring_char(0, cols))
                    } else {
                        String::from_str(line)
                    };
                    assert(line@ == texts[i as int]);
                    push_string(&mut out, cut);
                    assert(views(out@) =~= top + Seq::new(
                        (i + 1) as nat,
                        |k: int| clip(texts[k], cols as nat),
                    ));
                    i = i + 1;
                }
                push_string(&mut out, String::new());
                push_string(&mut out, thin_rule_text(cols));
                push_str(&mut out, "[Esc/b/q] Back  [r] Re-analyze");
                assert(views(out@) =~= screen(*self, rows, cols));
            },
        }
        out
    }
}

} // verus!
