use vstd::prelude::*;
use crate::config::Method;
use crate::state::{Mode, PaneInfo, State};
use crate::text::{decimal, decimal_string, join2};

verus! {

/// One piece of text placed on the screen: its text, column, row, width and
/// the palette index it is drawn in, if any.
#[derive(Debug, Clone)]
pub struct TextLine {
    pub text: String,
    pub x: usize,
    pub y: usize,
    pub width: usize,
    pub color: Option<usize>,
}

impl View for TextLine {
    type V = (Seq<char>, usize, usize, usize, Option<usize>);

    open spec fn view(&self) -> (Seq<char>, usize, usize, usize, Option<usize>) {
        (self.text@, self.x, self.y, self.width, self.color)
    }
}

/// The views of a list of lines.
pub open spec fn lines_view(v: Seq<TextLine>) -> Seq<(Seq<char>, usize, usize, usize, Option<usize>)> {
    v.map_values(|l: TextLine| l@)
}

fn text_line(text: String, x: usize, y: usize, width: usize, color: Option<usize>) -> (r: TextLine)
    ensures
        r@ == (text@, x, y, width, color),
{
    TextLine { text, x, y, width, color }
}

/// A horizontal rule `n` characters wide.
pub open spec fn rule(n: nat) -> Seq<char> {
    Seq::new(n, |i: int| '\u{2501}')
}

/// A horizontal rule `n` characters wide.
pub fn rule_text(n: usize) -> (r: String)
    ensures
        r@ == rule(n as nat),
{
    let mut r = String::new();
    let mut i: usize = 0;
    while i < n
        invariant
            i <= n,
            r@ == rule(i as nat),
        decreases n - i,
    {
        proof {
            reveal_strlit("\u{2501}");
        }
        r.append("\u{2501}");
        assert(r@ =~= rule((i + 1) as nat));
        i = i + 1;
    }
    r
}

/// The items of `items` with `sep` between each two.
pub open spec fn joined(items: Seq<Seq<char>>, sep: Seq<char>) -> Seq<char>
    decreases items.len(),
{
    if items.len() == 0 {
        Seq::empty()
    } else if items.len() == 1 {
        items[0]
    } else {
        joined(items.drop_last(), sep) + sep + items.last()
    }
}

/// The strings of `items` with `sep` between each two.
pub fn join_all(items: &Vec<String>, sep: &str) -> (r: String)
    ensures
        r@ == joined(crate::state::views(items@), sep@),
{
    let ghost all = crate::state::views(items@);
    let mut r = String::new();
    let mut i: usize = 0;
    while i < items.len()
        invariant
            i <= items@.len(),
            all == crate::state::views(items@),
            r@ == joined(all.take(i as int), sep@),
        decreases items@.len() - i,
    {
        assert(all.take(i + 1).drop_last() =~= all.take(i as int));
        if i > 0 {
            r.append(sep);
        }
        r.append(items[i].as_str());
        i = i + 1;
    }
    assert(all.take(i as int) =~= all);
    r
}

/// The title shown in the ribbon for each mode.
pub open spec fn ribbon_title(mode: Mode) -> Seq<char> {
    match mode {
        Mode::BrowsePanes => "PANE FILTER"@,
        Mode::SelectMethod => "SELECT METHOD"@,
        Mode::Confirm => "CONFIRM ACTION"@,
    }
}

/// The key help shown in the ribbon for each mode.
pub open spec fn ribbon_help(mode: Mode) -> Seq<char> {
    match mode {
        Mode::BrowsePanes => "\u{2191}/\u{2193}: Navigate | Enter: Select | q: Quit"@,
        Mode::SelectMethod => "\u{2191}/\u{2193}: Navigate | Enter: Execute | Esc: Back"@,
        Mode::Confirm => "y: Confirm | n: Cancel"@,
    }
}

/// `n - k`, or 0 when `k` exceeds `n`.
pub open spec fn minus(n: nat, k: nat) -> nat {
    if n >= k {
        (n - k) as nat
    } else {
        0
    }
}

/// The top ribbon: a rule across the screen, the mode's title at the left
/// and its key help at the right.
pub open spec fn ribbon(mode: Mode, cols: usize) -> Seq<(Seq<char>, usize, usize, usize, Option<usize>)> {
    let title = ribbon_title(mode);
    let help = ribbon_help(mode);
    seq![
        (rule(cols as nat), 0usize, 0usize, cols, None),
        (" "@ + title + " "@, 2usize, 0usize, (title.len() + 4) as usize, Some(0usize)),
        (
            " "@ + help + " "@,
            minus(cols as nat, help.len() + 4) as usize,
            0usize,
            (help.len() + 4) as usize,
            Some(3usize),
        ),
    ]
}

fn mode_texts(mode: Mode) -> (r: (&'static str, &'static str))
    ensures
        r.0@ == ribbon_title(mode),
        r.1@ == ribbon_help(mode),
        r.0@.len() < 100,
        r.1@.len() < 100,
{
    proof {
        reveal_strlit("PANE FILTER");
        reveal_strlit("SELECT METHOD");
        reveal_strlit("CONFIRM ACTION");
        reveal_strlit("\u{2191}/\u{2193}: Navigate | Enter: Select | q: Quit");
        reveal_strlit("\u{2191}/\u{2193}: Navigate | Enter: Execute | Esc: Back");
        reveal_strlit("y: Confirm | n: Cancel");
    }
    match mode {
        Mode::BrowsePanes => ("PANE FILTER", "\u{2191}/\u{2193}: Navigate | Enter: Select | q: Quit"),
        Mode::SelectMethod => (
            "SELECT METHOD",
            "\u{2191}/\u{2193}: Navigate | Enter: Execute | Esc: Back",
        ),
        Mode::Confirm => ("CONFIRM ACTION", "y: Confirm | n: Cancel"),
    }
}

/// `s` with one space on each side.
fn padded(s: &str) -> (r: String)
    ensures
        r@ == " "@ + s@ + " "@,
{
    let r = join2(" ", s);
    join2(r.as_str(), " ")
}

/// The top ribbon.
pub fn ribbon_lines(mode: Mode, cols: usize) -> (r: Vec<TextLine>)
    ensures
        lines_view(r@) == ribbon(mode, cols),
{
    let (title, help) = mode_texts(mode);
    let tl = title.unicode_len();
    let hl = help.unicode_len();
    let help_x = if cols >= hl + 4 {
        cols - (hl + 4)
    } else {
        0
    };
    let mut r: Vec<TextLine> = Vec::new();
    r.push(text_line(rule_text(cols), 0, 0, cols, None));
    r.push(text_line(padded(title), 2, 0, tl + 4, Some(0)));
    r.push(text_line(padded(help), help_x, 0, hl + 4, Some(3)));
    assert(lines_view(r@) =~= ribbon(mode, cols));
    r
}

/// The line of a pane in the pane list.
pub open spec fn pane_row(p: PaneInfo, selected: bool) -> Seq<char> {
    (if selected {
        "\u{25b6} "@
    } else {
        "  "@
    }) + (if p.is_focused {
        "\u{25cf}"@
    } else {
        "\u{25cb}"@
    }) + " "@ + (if p.is_plugin {
        "[PLUGIN]"@
    } else {
        "[TERM]"@
    }) + " "@ + decimal(p.id as nat) + " - "@ + p.title@
}

/// The palette index of a list entry.
pub open spec fn entry_color(selected: bool) -> Option<usize> {
    if selected {
        Some(0usize)
    } else {
        Some(3usize)
    }
}

/// The first `count` panes of `panes`, one line each from row `start`.
pub open spec fn pane_rows(
    panes: Seq<PaneInfo>,
    sel: usize,
    start: usize,
    width: usize,
    count: nat,
) -> Seq<(Seq<char>, usize, usize, usize, Option<usize>)> {
    Seq::new(
        count,
        |i: int| (pane_row(panes[i], i == sel), 2usize, (start + i) as usize, width, entry_color(i == sel)),
    )
}

/// The body of the pane list: a notice when nothing is visible, otherwise
/// the active filters and as many visible panes as fit.
pub open spec fn pane_list(state: State, rows: usize, cols: usize) -> Seq<
    (Seq<char>, usize, usize, usize, Option<usize>),
> {
    let w = minus(cols as nat, 4) as usize;
    let filters = crate::state::views(state.config.pane_filters@);
    let n = state.filtered_panes@.len();
    if n == 0 {
        seq![
            (
                if state.all_panes@.len() == 0 {
                    "No panes found"@
                } else {
                    "No panes match the filters"@
                },
                2usize,
                4usize,
                w,
                Some(2usize),
            ),
        ] + if filters.len() > 0 {
            seq![("Active filters: "@ + joined(filters, ", "@), 2usize, 6usize, w, Some(3usize))]
        } else {
            Seq::empty()
        }
    } else {
        let fit = minus(rows as nat, 4);
        let count = if n < fit {
            n
        } else {
            fit
        };
        if filters.len() > 0 {
            seq![
                (
                    "Filters: "@ + joined(filters, ", "@) + " | Showing "@ + decimal(n) + "/"@
                        + decimal(state.all_panes@.len()) + " panes"@,
                    2usize,
                    2usize,
                    w,
                    Some(3usize),
                ),
            ] + pane_rows(state.filtered_panes@, state.selected_pane_index, 4, w, count)
        } else {
            pane_rows(state.filtered_panes@, state.selected_pane_index, 2, w, count)
        }
    }
}

fn pane_row_text(p: &PaneInfo, selected: bool) -> (r: String)
    ensures
        r@ == pane_row(*p, selected),
{
    let r = join2(
        if selected {
            "\u{25b6} "
        } else {
            "  "
        },
        if p.is_focused {
            "\u{25cf}"
        } else {
            "\u{25cb}"
        },
    );
    let r = join2(r.as_str(), " ");
    let r = join2(
        r.as_str(),
        if p.is_plugin {
            "[PLUGIN]"
        } else {
            "[TERM]"
        },
    );
    let r = join2(r.as_str(), " ");
    let id = decimal_string(p.id as u64);
    let r = join2(r.as_str(), id.as_str());
    let r = join2(r.as_str(), " - ");
    join2(r.as_str(), p.title.as_str())
}

/// The body of the pane list.
pub fn pane_list_lines(state: &State, rows: usize, cols: usize) -> (r: Vec<TextLine>)
    ensures
        lines_view(r@) == pane_list(*state, rows, cols),
{
    let w = if cols >= 4 {
        cols - 4
    } else {
        0
    };
    let mut r: Vec<TextLine> = Vec::new();
    let has_filters = state.config.pane_filters.len() > 0;
    let n = state.filtered_panes.len();
    if n == 0 {
        let msg = if state.all_panes.len() == 0 {
            "No panes found"
        } else {
            "No panes match the filters"
        };
        r.push(text_line(String::from_str(msg), 2, 4, w, Some(2)));
        if has_filters {
            let list = join_all(&state.config.pane_filters, ", ");
            r.push(text_line(join2("Active filters: ", list.as_str()), 2, 6, w, Some(3)));
        }
        assert(lines_view(r@) =~= pane_list(*state, rows, cols));
        return r;
    }
    let fit = if rows >= 4 {
        rows - 4
    } else {
        0
    };
    let count = if n < fit {
        n
    } else {
        fit
    };
    let start: usize = if has_filters {
        4
    } else {
        2
    };
    if has_filters {
        let list = join_all(&state.config.pane_filters, ", ");
        let t = join2("Filters: ", list.as_str());
        let t = join2(t.as_str(), " | Showing ");
        let shown = decimal_string(n as u64);
        let t = join2(t.as_str(), shown.as_str());
        let t = join2(t.as_str(), "/");
        let total = decimal_string(state.all_panes.len() as u64);
        let t = join2(t.as_str(), total.as_str());
        let t = join2(t.as_str(), " panes");
        r.push(text_line(t, 2, 2, w, Some(3)));
    }
    let ghost head = lines_view(r@);
    let mut i: usize = 0;
    while i < count
        invariant
            i <= count,
            count <= n,
            n == state.filtered_panes@.len(),
            count <= fit,
            fit == minus(rows as nat, 4),
            start <= 4,
            lines_view(r@) == head + pane_rows(
                state.filtered_panes@,
                state.selected_pane_index,
                start,
                w,
                i as nat,
            ),
        decreases count - i,
    {
        let selected = i == state.selected_pane_index;
        let line = text_line(
            pane_row_text(&state.filtered_panes[i], selected),
            2,
            start + i,
            w,
            if selected {
                Some(0)
            } else {
                Some(3)
            },
        );
        let ghost o = r@;
        r.push(line);
        assert(lines_view(r@) =~= lines_view(o).push(line@));
        assert(pane_rows(
            state.filtered_panes@,
            state.selected_pane_index,
            start,
            w,
            (i + 1) as nat,
        ) =~= pane_rows(state.filtered_panes@, state.selected_pane_index, start, w, i as nat).push(
            line@,
        ));
        assert(lines_view(r@) =~= head + pane_rows(
            state.filtered_panes@,
            state.selected_pane_index,
            start,
            w,
            (i + 1) as nat,
        ));
        i = i + 1;
    }
    assert(lines_view(r@) =~= pane_list(*state, rows, cols));
    r
}

/// A description cut to fit `cols` columns, ending in "..." when cut.
pub open spec fn fitted(desc: Seq<char>, cols: usize) -> Seq<char> {
    if desc.len() > minus(cols as nat, 8) {
        desc.take(minus(cols as nat, 11) as int) + "..."@
    } else {
        desc
    }
}

/// The two lines of each of the first `count` methods: its name, then its
/// description, from row 6 on.
pub open spec fn method_rows(
    methods: Seq<Method>,
    sel: usize,
    width: usize,
    cols: usize,
    count: nat,
) -> Seq<(Seq<char>, usize, usize, usize, Option<usize>)>
    decreases count,
{
    if count == 0 {
        Seq::empty()
    } else {
        let i = count - 1;
        let m = methods[i];
        method_rows(methods, sel, width, cols, i as nat) + seq![
            (
                (if i == sel {
                    "\u{25b6} "@
                } else {
                    "  "@
                }) + m.name@,
                2usize,
                (6 + 2 * i) as usize,
                width,
                entry_color(i == sel),
            ),
            ("    "@ + fitted(m.description@, cols), 2usize, (7 + 2 * i) as usize, width, Some(3usize)),
        ]
    }
}

/// The body of the method list: the selected pane, then the methods that
/// fit, or a notice when there is none.
pub open spec fn method_list(state: State, rows: usize, cols: usize) -> Seq<
    (Seq<char>, usize, usize, usize, Option<usize>),
> {
    let w = minus(cols as nat, 4) as usize;
    let head = match state.selected_pane() {
        Some(p) => seq![
            ("Selected pane: "@ + decimal(p.id as nat) + " - "@ + p.title@, 2usize, 2usize, w, Some(0usize)),
        ],
        None => Seq::empty(),
    };
    let n = state.methods@.len();
    if n == 0 {
        head + seq![("No methods configured"@, 2usize, 4usize, w, Some(2usize))] + if state.config.methods_repo@.len() > 0 {
            seq![("Methods repo: "@ + state.config.methods_repo@, 2usize, 6usize, w, Some(3usize))]
        } else {
            Seq::empty()
        }
    } else {
        let fit = minus(rows as nat, 7) / 2;
        let count = if n < fit {
            n
        } else {
            fit
        };
        head + seq![("Available methods: "@ + decimal(n), 2usize, 4usize, w, Some(3usize))] + method_rows(
            state.methods@,
            state.selected_method_index,
            w,
            cols,
            count,
        )
    }
}

fn fitted_text(desc: &str, cols: usize) -> (r: String)
    ensures
        r@ == fitted(desc@, cols),
{
    let room = if cols >= 8 {
        cols - 8
    } else {
        0
    };
    if desc.unicode_len() > room {
        let keep = if cols >= 11 {
            cols - 11
        } else {
            0
        };
        join2(desc.substring_char(0, keep), "...")
    } else {
        String::from_str(desc)
    }
}

/// The body of the method list.
pub fn method_list_lines(state: &State, rows: usize, cols: usize) -> (r: Vec<TextLine>)
    requires
        state.wf(),
    ensures
        lines_view(r@) == method_list(*state, rows, cols),
{
    let w = if cols >= 4 {
        cols - 4
    } else {
        0
    };
    let mut r: Vec<TextLine> = Vec::new();
    if let Some(p) = state.get_selected_pane() {
        let id = decimal_string(p.id as u64);
        let t = join2("Selected pane: ", id.as_str());
        let t = join2(t.as_str(), " - ");
        let t = join2(t.as_str(), p.title.as_str());
        r.push(text_line(t, 2, 2, w, Some(0)));
    }
    let n = state.methods.len();
    if n == 0 {
        r.push(text_line(String::from_str("No methods configured"), 2, 4, w, Some(2)));
        if state.config.methods_repo.unicode_len() > 0 {
            let t = join2("Methods repo: ", state.config.methods_repo.as_str());
            r.push(text_line(t, 2, 6, w, Some(3)));
        }
        assert(lines_view(r@) =~= method_list(*state, rows, cols));
        return r;
    }
    let count_text = decimal_string(n as u64);
    r.push(text_line(join2("Available methods: ", count_text.as_str()), 2, 4, w, Some(3)));
    let fit = if rows >= 7 {
        (rows - 7) / 2
    } else {
        0
    };
    let count = if n < fit {
        n
    } else {
        fit
    };
    let ghost head = lines_view(r@);
    let mut i: usize = 0;
    while i < count
        invariant
            i <= count,
            count <= n,
            n == state.methods@.len(),
            count <= fit,
            fit == minus(rows as nat, 7) / 2,
            lines_view(r@) == head + method_rows(
                state.methods@,
                state.selected_method_index,
                w,
                cols,
                i as nat,
            ),
        decreases count - i,
    {
        let m = &state.methods[i];
        let selected = i == state.selected_method_index;
        let name = join2(
            if selected {
                "\u{25b6} "
            } else {
                "  "
            },
            m.name.as_str(),
        );
        let desc = fitted_text(m.description.as_str(), cols);
        let name_line = text_line(
            name,
            2,
            6 + 2 * i,
            w,
            if selected {
                Some(0)
            } else {
                Some(3)
            },
        );
        let desc_line = text_line(join2("    ", desc.as_str()), 2, 7 + 2 * i, w, Some(3));
        let ghost o = r@;
        r.push(name_line);
        r.push(desc_line);
        assert(lines_view(r@) =~= lines_view(o) + seq![name_line@, desc_line@]);
        i = i + 1;
    }
    assert(lines_view(r@) =~= method_list(*state, rows, cols));
    r
}

/// `s` cut to its first `n` characters.
pub open spec fn clip(s: Seq<char>, n: nat) -> Seq<char> {
    if s.len() > n {
        s.take(n as int)
    } else {
        s
    }
}

/// The texts of the confirmation box for running the method `name` on the
/// pane `title`, the two named lines cut to `room` characters.
pub open spec fn confirm_box(name: Seq<char>, title: Seq<char>, room: nat) -> Seq<Seq<char>> {
    seq![
        "\u{250c}\u{2500} CONFIRM ACTION \u{2500}\u{2500}\u{2500}\u{2500}\u{2500}\u{2500}\u{2500}\u{2500}\u{2500}\u{2500}\u{2500}\u{2500}\u{2500}\u{2500}\u{2500}\u{2500}\u{2500}\u{2510}"@,
        "\u{2502}                                  \u{2502}"@,
        clip("\u{2502} Execute: "@ + name + "                    \u{2502}"@, room),
        clip("\u{2502} On pane: "@ + title + "                    \u{2502}"@, room),
        "\u{2502}                                  \u{2502}"@,
        "\u{2502}    Press 'y' to confirm          \u{2502}"@,
        "\u{2502}    Press 'n' to cancel           \u{2502}"@,
        "\u{2502}                                  \u{2502}"@,
        "\u{2514}\u{2500}\u{2500}\u{2500}\u{2500}\u{2500}\u{2500}\u{2500}\u{2500}\u{2500}\u{2500}\u{2500}\u{2500}\u{2500}\u{2500}\u{2500}\u{2500}\u{2500}\u{2500}\u{2500}\u{2500}\u{2500}\u{2500}\u{2500}\u{2500}\u{2500}\u{2500}\u{2500}\u{2500}\u{2500}\u{2500}\u{2500}\u{2500}\u{2500}\u{2500}\u{2518}"@,
    ]
}

/// The body of the confirmation step: the box, centred, when a pane and a
/// method are selected.
pub open spec fn confirmation(state: State, rows: usize, cols: usize) -> Seq<
    (Seq<char>, usize, usize, usize, Option<usize>),
> {
    match (state.selected_pane(), state.selected_method()) {
        (Some(p), Some(m)) => {
            let room = if minus(cols as nat, 4) < 40 {
                minus(cols as nat, 4)
            } else {
                40
            };
            let texts = confirm_box(m.name@, p.title@, room);
            let top = minus((rows / 2) as nat, 3);
            Seq::new(
                9,
                |i: int| (texts[i], minus((cols / 2) as nat, 20) as usize, (top + i) as usize, 40usize, Some(2usize)),
            )
        },
        _ => Seq::empty(),
    }
}

fn clip_text(s: &str, n: usize) -> (r: String)
    ensures
        r@ == clip(s@, n as nat),
{
    if s.unicode_len() > n {
        String::from_str(s.substring_char(0, n))
    } else {
        String::from_str(s)
    }
}

/// The body of the confirmation step.
pub fn confirmation_lines(state: &State, rows: usize, cols: usize) -> (r: Vec<TextLine>)
    ensures
        lines_view(r@) == confirmation(*state, rows, cols),
{
    let mut r: Vec<TextLine> = Vec::new();
    let (p, m) = match (state.get_selected_pane(), state.get_selected_method()) {
        (Some(p), Some(m)) => (p, m),
        _ => {
            assert(lines_view(r@) =~= confirmation(*state, rows, cols));
            return r;
        },
    };
    let w4 = if cols >= 4 {
        cols - 4
    } else {
        0
    };
    let room = if w4 < 40 {
        w4
    } else {
        40
    };
    let exec_line = join2("\u{2502} Execute: ", m.name.as_str());
    let exec_line = join2(exec_line.as_str(), "                    \u{2502}");
    let pane_line = join2("\u{2502} On pane: ", p.title.as_str());
    let pane_line = join2(pane_line.as_str(), "                    \u{2502}");
    let mut texts: Vec<String> = Vec::new();
    texts.push(String::from_str("\u{250c}\u{2500} CONFIRM ACTION \u{2500}\u{2500}\u{2500}\u{2500}\u{2500}\u{2500}\u{2500}\u{2500}\u{2500}\u{2500}\u{2500}\u{2500}\u{2500}\u{2500}\u{2500}\u{2500}\u{2500}\u{2510}"));
    texts.push(String::from_str("\u{2502}                                  \u{2502}"));
    texts.push(clip_text(exec_line.as_str(), room));
    texts.push(clip_text(pane_line.as_str(), room));
    texts.push(String::from_str("\u{2502}                                  \u{2502}"));
    texts.push(String::from_str("\u{2502}    Press 'y' to confirm          \u{2502}"));
    texts.push(String::from_str("\u{2502}    Press 'n' to cancel           \u{2502}"));
    texts.push(String::from_str("\u{2502}                                  \u{2502}"));
    texts.push(String::from_str("\u{2514}\u{2500}\u{2500}\u{2500}\u{2500}\u{2500}\u{2500}\u{2500}\u{2500}\u{2500}\u{2500}\u{2500}\u{2500}\u{2500}\u{2500}\u{2500}\u{2500}\u{2500}\u{2500}\u{2500}\u{2500}\u{2500}\u{2500}\u{2500}\u{2500}\u{2500}\u{2500}\u{2500}\u{2500}\u{2500}\u{2500}\u{2500}\u{2500}\u{2500}\u{2500}\u{2518}"));
    let ghost tv = crate::state::views(texts@);
    assert(tv =~= confirm_box(m.name@, p.title@, room as nat));
    let half = rows / 2;
    let top = if half >= 3 {
        half - 3
    } else {
        0
    };
    let half_cols = cols / 2;
    let x = if half_cols >= 20 {
        half_cols - 20
    } else {
        0
    };
    let mut i: usize = 0;
    while i < 9
        invariant
            i <= 9,
            texts@.len() == 9,
            tv == crate::state::views(texts@),
            top == minus((rows / 2) as nat, 3),
            top <= rows / 2,
            x == minus((cols / 2) as nat, 20),
            lines_view(r@) == Seq::new(
                i as nat,
                |k: int| (tv[k], x, (top + k) as usize, 40usize, Some(2usize)),
            ),
        decreases 9 - i,
    {
        let line = text_line(texts[i].clone(), x, top + i, 40, Some(2));
        let ghost o = r@;
        r.push(line);
        assert(line@ == (tv[i as int], x, (top + i) as usize, 40usize, Some(2usize)));
        assert(lines_view(r@) =~= lines_view(o).push(line@));
        assert(lines_view(r@) =~= Seq::new(
            (i + 1) as nat,
            |k: int| (tv[k], x, (top + k) as usize, 40usize, Some(2usize)),
        ));
        i = i + 1;
    }
    assert(lines_view(r@) =~= confirmation(*state, rows, cols));
    r
}

/// The status line at the bottom, under a rule, when there is a status; a
/// fetch in flight is marked.
pub open spec fn status_line(state: State, rows: usize, cols: usize) -> Seq<
    (Seq<char>, usize, usize, usize, Option<usize>),
> {
    match state.status_message {
        Some(msg) => {
            let text = if state.is_loading {
                "\u{27f3} "@ + msg@
            } else {
                msg@
            };
            let row = minus(rows as nat, 1);
            seq![
                (rule(cols as nat), 0usize, minus(row, 1) as usize, cols, None),
                (" "@ + text + " "@, 2usize, row as usize, minus(cols as nat, 4) as usize, Some(3usize)),
            ]
        },
        None => Seq::empty(),
    }
}

/// The status line.
pub fn status_lines(state: &State, rows: usize, cols: usize) -> (r: Vec<TextLine>)
    ensures
        lines_view(r@) == status_line(*state, rows, cols),
{
    let mut r: Vec<TextLine> = Vec::new();
    if let Some(msg) = &state.status_message {
        let text = if state.is_loading {
            join2("\u{27f3} ", msg.as_str())
        } else {
            msg.clone()
        };
        let row = if rows >= 1 {
            rows - 1
        } else {
            0
        };
        let above = if row >= 1 {
            row - 1
        } else {
            0
        };
        let w = if cols >= 4 {
            cols - 4
        } else {
            0
        };
        r.push(text_line(rule_text(cols), 0, above, cols, None));
        r.push(text_line(padded(text.as_str()), 2, row, w, Some(3)));
    }
    assert(lines_view(r@) =~= status_line(*state, rows, cols));
    r
}

/// The whole frame for the current state: the ribbon, the body of the
/// current mode, and the status line.
pub open spec fn frame(state: State, rows: usize, cols: usize) -> Seq<
    (Seq<char>, usize, usize, usize, Option<usize>),
> {
    ribbon(state.mode, cols) + match state.mode {
        Mode::BrowsePanes => pane_list(state, rows, cols),
        Mode::SelectMethod => method_list(state, rows, cols),
        Mode::Confirm => confirmation(state, rows, cols),
    } + status_line(state, rows, cols)
}

/// The whole frame for the current state, for any screen size.
pub fn render(state: &State, rows: usize, cols: usize) -> (r: Vec<TextLine>)
    requires
        state.wf(),
    ensures
        lines_view(r@) == frame(*state, rows, cols),
{
    let mut r = ribbon_lines(state.mode, cols);
    let mut body = match state.mode {
        Mode::BrowsePanes => pane_list_lines(state, rows, cols),
        Mode::SelectMethod => method_list_lines(state, rows, cols),
        Mode::Confirm => confirmation_lines(state, rows, cols),
    };
    let mut status = status_lines(state, rows, cols);
    let ghost a = r@;
    let ghost b = body@;
    let ghost c = status@;
    r.append(&mut body);
    r.append(&mut status);
    assert(r@ == a + b + c);
    assert(lines_view(r@) =~= lines_view(a) + lines_view(b) + lines_view(c));
    r
}

} // verus!
