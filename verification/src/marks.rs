//! Selecting everything at once: every line of the open file, or every
//! entry of the active pane (never `..`).
use vstd::prelude::*;

use crate::actions::{marks_range_added, message_only};
use crate::count::{decimal, decimal_chars};
use crate::lang::{tr_spec, Lang};
use crate::state::{lemma_take_put, says, App, Entry, Pane, Popup};
use crate::text::{cat, chars_of, push_chars};

verus! {

/// How many of `es` are real entries (not `..`).
pub open spec fn real_entries(es: Seq<Entry>) -> nat
    decreases es.len(),
{
    if es.len() == 0 {
        0
    } else {
        real_entries(es.drop_last()) + if es.last().is_parent {
            0nat
        } else {
            1nat
        }
    }
}

proof fn lemma_real_entries_bound(es: Seq<Entry>)
    ensures
        real_entries(es) <= es.len(),
    decreases es.len(),
{
    if es.len() > 0 {
        lemma_real_entries_bound(es.drop_last());
    }
}

/// The line that says how many lines were selected.
pub open spec fn lines_selected_text(lang: Lang, n: nat) -> Seq<char> {
    tr_spec(
        lang,
        "all "@ + decimal(n) + " line(s) selected — y copies, Esc clears"@,
        decimal(n) + " 行すべて選択（y でコピー、Esc で解除）"@,
    )
}

/// The line that says how many entries were marked.
pub open spec fn marked_text(lang: Lang, n: nat) -> Seq<char> {
    tr_spec(
        lang,
        decimal(n) + " marked — Space unmarks one, Esc clears them"@,
        decimal(n) + " 件マーク（Space で個別解除、Esc で全解除）"@,
    )
}

/// `b` is `a` after "select all": in the file viewer every line becomes a
/// line selection; over the panes every real entry of the active pane is
/// marked. Either way the message says how many.
pub open spec fn all_selected(a: App, b: App) -> bool {
    match a.popup {
        Popup::Viewer { title, path, lines, find_input, sub_input, block_input, editing, .. } => {
            let n = lines@.len();
            if n == 0 {
                b == a
            } else {
                &&& b == (App { popup: b.popup, message: b.message, ..a })
                &&& b.popup == (Popup::Viewer {
                    title,
                    path,
                    lines,
                    find_input,
                    sub_input,
                    block_input,
                    editing,
                    anchor: (0, 0),
                    line: (n - 1) as usize,
                    col: 0,
                    goal: 0,
                    visual_lines: true,
                })
                &&& says(b.message, lines_selected_text(a.lang, n))
            }
        },
        _ => match a.active() {
            None => message_only(a, b) && says(b.message, marked_text(a.lang, 0)),
            Some(p) => {
                &&& b.active() is Some
                &&& (App { message: b.message, ..a }).active_becomes(b, b.active()->0)
                &&& p.entries@.len() > 0 ==> marks_range_added(p, b.active()->0, 0, p.entries@.len() - 1)
                &&& p.entries@.len() == 0 ==> b.active()->0 == p
                &&& says(b.message, marked_text(a.lang, real_entries(p.entries@)))
            },
        },
    }
}

/// `b` is `a` after select-all in visual mode: with entries to select,
/// the selection runs from the first to the last (the cursor); otherwise
/// nothing changes.
pub open spec fn visual_all_selected(a: App, b: App) -> bool {
    match a.active() {
        Some(p) => if p.entries@.len() > 0 {
            &&& (App { visual_anchor: Some(0), ..a }).active_becomes(
                b,
                Pane { cursor: (p.entries@.len() - 1) as usize, ..p },
            )
            &&& b.visual_anchor == Some(0usize)
        } else {
            b == a
        },
        None => b == a,
    }
}

fn count_real(es: &Vec<Entry>) -> (n: usize)
    ensures
        n == real_entries(es@),
{
    let mut n: usize = 0;
    let mut i: usize = 0;
    while i < es.len()
        invariant
            i <= es@.len(),
            n == real_entries(es@.take(i as int)),
            n <= i,
        decreases es@.len() - i,
    {
        assert(es@.take(i as int + 1).drop_last() =~= es@.take(i as int));
        if !es[i].is_parent {
            n += 1;
        }
        i += 1;
    }
    assert(es@.take(es@.len() as int) =~= es@);
    n
}

impl App {
    /// `Ctrl+A` over the panes or the viewer: select everything.
    pub fn mark_all(&mut self)
        ensures
            all_selected(*old(self), *final(self)),
    {
        let ja = self.lang == Lang::Ja;
        let viewer_lines: Option<usize> = match &self.popup {
            Popup::Viewer { lines, .. } => Some(lines.len()),
            _ => None,
        };
        match viewer_lines {
            Some(n) => {
                if n == 0 {
                    return ;
                }
                let mut p = Popup::Closed;
                std::mem::swap(&mut p, &mut self.popup);
                match p {
                    Popup::Viewer { title, path, lines, find_input, sub_input, block_input, editing, .. } => {
                        self.popup = Popup::Viewer {
                            title,
                            path,
                            lines,
                            find_input,
                            sub_input,
                            block_input,
                            editing,
                            anchor: (0, 0),
                            line: n - 1,
                            col: 0,
                            goal: 0,
                            visual_lines: true,
                        };
                    },
                    _ => {},
                }
                let d = decimal_chars(n);
                let m = if ja {
                    let mut m = crate::text::string_of(d.as_slice());
                    push_chars(&mut m, chars_of(" 行すべて選択（y でコピー、Esc で解除）").as_slice());
                    m
                } else {
                    let mut m = cat("all ", d.as_slice());
                    push_chars(&mut m, chars_of(" line(s) selected — y copies, Esc clears").as_slice());
                    m
                };
                self.message = Some(m);
                return ;
            },
            None => {},
        }
        let ghost start = *self;
        let n = match self.take_active() {
            Some(mut p) => {
                let ghost taken = *self;
                let ghost p0 = p;
                let n = count_real(&p.entries);
                if p.entries.len() > 0 {
                    let last = p.entries.len() - 1;
                    p.mark_range(0, last);
                }
                self.put_active(p);
                proof {
                    lemma_take_put(start, taken, *self, p);
                }
                n
            },
            None => 0,
        };
        let ghost marked = *self;
        let d = decimal_chars(n);
        let mut m = crate::text::string_of(d.as_slice());
        if ja {
            push_chars(&mut m, chars_of(" 件マーク（Space で個別解除、Esc で全解除）").as_slice());
        } else {
            push_chars(&mut m, chars_of(" marked — Space unmarks one, Esc clears them").as_slice());
        }
        self.message = Some(m);
        proof {
            reveal(App::same_but_active);
        }
    }

    /// `Ctrl+A` in visual mode: the selection runs from the first entry to
    /// the last.
    pub fn visual_select_all(&mut self)
        ensures
            visual_all_selected(*old(self), *final(self)),
    {
        let last = match self.active_pane() {
            Some(p) => if p.entries.len() > 0 {
                p.entries.len() - 1
            } else {
                return ;
            },
            None => return ,
        };
        self.visual_anchor = Some(0);
        self.set_active_cursor(last);
        proof {
            reveal(App::same_but_active);
        }
    }
}

/// Marking everything twice marks the same set as marking it once.
pub proof fn law_mark_all_twice(a: App, b: App, c: App)
    requires
        !(a.popup is Viewer),
        a.active() is Some,
        all_selected(a, b),
        all_selected(b, c),
    ensures
        forall|x: Seq<char>| #[trigger] c.active()->0.has_mark(x) == b.active()->0.has_mark(x),
{
    reveal(App::same_but_active);
    let p = a.active()->0;
    let q = b.active()->0;
    assert(q.entries == p.entries);
    assert forall|x: Seq<char>| #[trigger] c.active()->0.has_mark(x) == b.active()->0.has_mark(x) by {
        if p.entries@.len() > 0 {
            if c.active()->0.has_mark(x) && !q.has_mark(x) {
                let i = choose|i: int|
                    0 <= i <= q.entries@.len() - 1 && 0 <= i < q.entries@.len() && !q.entries@[i].is_parent
                        && q.entries@[i].path@ == x;
                assert(0 <= i <= p.entries@.len() - 1 && 0 <= i < p.entries@.len() && !p.entries@[i].is_parent
                    && p.entries@[i].path@ == x);
            }
        }
    }
}

} // verus!
