//! Steering the desktop-shaped views (the icon grid and the detail list):
//! letters jump to the file that starts with them, the arrows walk the grid,
//! and the mouse hits tiles, buttons, crumbs, tabs and sidebar places.
use vstd::prelude::*;

use crate::actions::{is_prompt, message_only, popup_only};
use crate::lang::{tr_spec, tr_string};
use crate::state::{
    says, App, Effect, FileTabs, FocusedPane, GridButton, GridState, InputKind, NavTarget, Pane, Popup,
    Rect,
};
use crate::text::{chars_of, lowercase, starts_with, string_of, to_lowercase};

verus! {

/// How long a typed prefix stays live, in milliseconds.
pub const PATIENCE_MS: u64 = 900;

/// The first character of `c`'s lowercase mapping (`char::to_lowercase`).
pub uninterp spec fn char_lowercase_first(c: char) -> Option<char>;

/// `char::is_alphanumeric` (Unicode letters and numbers).
pub uninterp spec fn alphanumeric(c: char) -> bool;

/// `c.to_lowercase().next()`.
#[verifier::external_body]
fn lowercase_first(c: char) -> (r: Option<char>)
    ensures
        r == char_lowercase_first(c),
{
    c.to_lowercase().next()
}

/// `char::is_alphanumeric`.
#[verifier::external_body]
fn is_alphanumeric(c: char) -> (b: bool)
    ensures
        b == alphanumeric(c),
{
    c.is_alphanumeric()
}

/// `c` lowercased for comparing keystrokes: the first character of its
/// lowercase mapping.
pub open spec fn lower_spec(c: char) -> char {
    match char_lowercase_first(c) {
        Some(l) => l,
        None => c,
    }
}

/// Lowercase a keystroke for comparison (the first of a multi-character
/// lowering is kept).
pub fn lower(c: char) -> (r: char)
    ensures
        r == lower_spec(c),
{
    match lowercase_first(c) {
        Some(l) => l,
        None => c,
    }
}

/// The letters the detail view gives up to type-ahead: cian's one-letter
/// commands that act on a file, and vim's `g`/`G`.
pub open spec fn given_up() -> Seq<char> {
    seq!['h', 'q', 'c', 'p', 'g', 'G', 'P', 'r', 'j', 'k', 'a', 'A', 's', 'u', 't', 'd', 'z', 'v', 'm', 'b']
}

/// Is (`col`, `row`) inside `r`?
pub open spec fn in_rect(r: Rect, col: u16, row: u16) -> bool {
    r.x <= col && col < r.x + r.width && r.y <= row && row < r.y + r.height
}

/// `hit_rect`.
pub fn hit_rect(r: Rect, col: u16, row: u16) -> (b: bool)
    ensures
        b == in_rect(r, col, row),
{
    let right = r.x as u32 + r.width as u32;
    let bottom = r.y as u32 + r.height as u32;
    r.x <= col && (col as u32) < right && r.y <= row && (row as u32) < bottom
}

/// The first index `from + k` (round the listing, `k < total`) whose name
/// starts with `prefix`.
pub open spec fn first_from(names: Seq<Seq<char>>, prefix: Seq<char>, from: int, k: nat) -> Option<int>
    decreases names.len() - k,
{
    if k >= names.len() {
        None
    } else {
        let i = (from + k) % (names.len() as int);
        if starts_with(names[i], prefix) {
            Some(i)
        } else {
            first_from(names, prefix, from, k + 1)
        }
    }
}

/// The entries' names, lowercased.
pub open spec fn lowered_names(es: Seq<crate::state::Entry>) -> Seq<Seq<char>> {
    Seq::new(es.len(), |i: int| lowercase(es[i].name@))
}

fn first_from_exec(names: &Vec<Vec<char>>, prefix: &Vec<char>, from: u128) -> (r: Option<usize>)
    requires
        names@.len() > 0,
    ensures
        match r {
            Some(i) => i < names@.len() && first_from(crate::text::seqs_of(names@), prefix@, from as int, 0)
                == Some(i as int),
            None => first_from(crate::text::seqs_of(names@), prefix@, from as int, 0) is None,
        },
{
    let total = names.len();
    let ghost nv = crate::text::seqs_of(names@);
    let start = (from % (total as u128)) as usize;
    let mut k: usize = 0;
    while k < total
        invariant
            k <= total,
            total == names@.len(),
            total > 0,
            nv == crate::text::seqs_of(names@),
            start == from % (total as u128),
            first_from(nv, prefix@, from as int, 0) == first_from(nv, prefix@, from as int, k as nat),
        decreases total - k,
    {
        let i = if start < total - k {
            start + k
        } else {
            k - (total - start)
        };
        proof {
            vstd::arithmetic::div_mod::lemma_fundamental_div_mod(from as int, total as int);
            let q = (from as int) / (total as int);
            let r = (from as int) % (total as int);
            assert(from as int == q * total + r) by (nonlinear_arith)
                requires
                    from as int == total * q + r,
            ;
            if start < total - k {
                vstd::arithmetic::div_mod::lemma_fundamental_div_mod_converse_mod(from + k, total as int, q, r + k);
            } else {
                assert(from + k == (q + 1) * total + (r + k - total)) by (nonlinear_arith)
                    requires
                        from as int == q * total + r,
                ;
                vstd::arithmetic::div_mod::lemma_fundamental_div_mod_converse_mod(
                    from + k,
                    total as int,
                    q + 1,
                    r + k - total,
                );
            }
            assert(i == (from + k) % (total as int));
        }
        if crate::text::has_prefix(names[i].as_slice(), prefix.as_slice()) {
            return Some(i);
        }
        k += 1;
    }
    None
}

impl App {
    /// Does this key mean "go to the file that starts with it"? The grid
    /// gives up every letter and digit; the detail view the digits and a
    /// named set of letters.
    pub fn typing_moves(&self, c: char) -> (b: bool)
        ensures
            b == if self.grid.icon_view {
                alphanumeric(c)
            } else {
                ('0' <= c && c <= '9') || given_up().contains(c)
            },
    {
        if self.grid.icon_view {
            return is_alphanumeric(c);
        }
        if '0' <= c && c <= '9' {
            return true;
        }
        let given: [char; 20] = [
            'h', 'q', 'c', 'p', 'g', 'G', 'P', 'r', 'j', 'k', 'a', 'A', 's', 'u', 't', 'd', 'z', 'v', 'm', 'b',
        ];
        assert(given@ =~= given_up());
        let mut i: usize = 0;
        while i < 20
            invariant
                i <= 20,
                given@ == given_up(),
                !self.grid.icon_view,
                forall|j: int| 0 <= j < i ==> given_up()[j] != c,
            decreases 20 - i,
        {
            if given[i] == c {
                assert(given_up()[i as int] == c);
                return true;
            }
            i += 1;
        }
        false
    }

    /// Step the cursor by `by` entries, stopping at the ends; a letter typed
    /// afterwards starts a new search.
    pub fn grid_move(&mut self, by: isize)
        ensures
            old(self).active() is None ==> *final(self) == *old(self),
            old(self).active() matches Some(p) ==> {
                &&& final(self).grid == (GridState { type_ahead: final(self).grid.type_ahead, ..old(self).grid })
                &&& final(self).grid.type_ahead@.len() == 0
                &&& old(self).active_becomes(
                    App { grid: old(self).grid, ..*final(self) },
                    Pane {
                        cursor: if p.entries@.len() == 0 {
                            0
                        } else {
                            crate::state::clamp(p.cursor + by, 0, p.entries@.len() - 1) as usize
                        },
                        ..p
                    },
                )
            },
    {
        if self.active_pane().is_none() {
            return ;
        }
        let ghost before = *self;
        let mut p = self.take_active().unwrap();
        let ghost taken = *self;
        p.move_cursor(by);
        self.put_active(p);
        proof {
            crate::state::lemma_take_put(before, taken, *self, p);
            reveal(App::same_but_active);
        }
        let ghost mid = *self;
        self.grid.type_ahead = String::new();
        proof {
            reveal(App::same_but_active);
            assert(App { grid: before.grid, ..*self } == mid);
        }
    }
}

/// The typed prefix after the letter `c` at `now`: a pause longer than the
/// patience starts afresh; the same single letter again is a repeat (it
/// walks the files starting with it) and is not added.
pub open spec fn typed_prefix(g: GridState, c: char, now: u64) -> (Seq<char>, bool) {
    let ta0 = if now > g.type_ahead_at && now - g.type_ahead_at > PATIENCE_MS {
        seq![]
    } else {
        g.type_ahead@
    };
    let repeat = ta0.len() == 1 && lower_spec(ta0[0]) == lower_spec(c);
    (if repeat {
        ta0
    } else {
        ta0.push(c)
    }, repeat)
}

/// Where type-ahead puts the cursor in `p` after typing `ta` (`repeat` when
/// it was the same letter again), and the prefix it leaves: the next entry
/// round the listing starting with the prefix; failing that, with a longer
/// prefix, the first entry starting with just `c` (and the prefix drops back
/// to `c`).
pub open spec fn type_ahead_target(p: Pane, ta: Seq<char>, repeat: bool, c: char) -> (Option<int>, Seq<char>) {
    let names = lowered_names(p.entries@);
    let prefix = lowercase(ta);
    let from = if repeat {
        p.cursor + 1
    } else {
        0
    };
    let found = if names.len() == 0 {
        None
    } else {
        first_from(names, prefix, from, 0)
    };
    match found {
        Some(i) => (Some(i), ta),
        None => if prefix.len() > 1 {
            (if names.len() == 0 {
                None
            } else {
                first_from(names, lowercase(seq![c]), 0, 0)
            }, seq![c])
        } else {
            (None, ta)
        },
    }
}

fn lowered_entry_names(es: &Vec<crate::state::Entry>) -> (out: Vec<Vec<char>>)
    ensures
        crate::text::seqs_of(out@) == lowered_names(es@),
{
    let mut out: Vec<Vec<char>> = Vec::new();
    let mut i: usize = 0;
    while i < es.len()
        invariant
            i <= es@.len(),
            crate::text::seqs_of(out@) == lowered_names(es@).take(i as int),
        decreases es.len() - i,
    {
        let l = chars_of(to_lowercase(es[i].name.as_str()).as_str());
        let ghost before = crate::text::seqs_of(out@);
        out.push(l);
        assert(crate::text::seqs_of(out@) =~= before.push(lowercase(es@[i as int].name@)));
        assert(crate::text::seqs_of(out@) =~= lowered_names(es@).take(i + 1));
        i += 1;
    }
    assert(lowered_names(es@).take(i as int) =~= lowered_names(es@));
    out
}

impl App {
    /// Go to the file this letter names (the jump outside the grid, too).
    pub fn type_ahead_jump(&mut self, c: char, now: u64)
        ensures
            Self::typed_ahead(*old(self), *final(self), c, now),
    {
        self.type_ahead(c, now);
    }

    /// `b` is `a` after type-ahead with `c` at `now`.
    pub open spec fn typed_ahead(a: App, b: App, c: char, now: u64) -> bool {
        let (ta, repeat) = typed_prefix(a.grid, c, now);
        match a.active() {
            None => {
                &&& b == (App { grid: b.grid, ..a })
                &&& b.grid == (GridState { type_ahead: b.grid.type_ahead, type_ahead_at: now, ..a.grid })
                &&& b.grid.type_ahead@ == ta
            },
            Some(p) => {
                let (target, left) = type_ahead_target(p, ta, repeat, c);
                &&& b.grid == (GridState { type_ahead: b.grid.type_ahead, type_ahead_at: now, ..a.grid })
                &&& b.grid.type_ahead@ == left
                &&& match target {
                    Some(i) => a.active_becomes(App { grid: a.grid, ..b }, Pane { cursor: i as usize, ..p }),
                    None => b == (App { grid: b.grid, ..a }),
                }
            },
        }
    }

    fn advance_prefix(&mut self, c: char, now: u64) -> (repeat: bool)
        ensures
            *final(self) == (App { grid: final(self).grid, ..*old(self) }),
            final(self).grid == (GridState {
                type_ahead: final(self).grid.type_ahead,
                type_ahead_at: now,
                ..old(self).grid
            }),
            (final(self).grid.type_ahead@, repeat) == typed_prefix(old(self).grid, c, now),
    {
        if now > self.grid.type_ahead_at && now - self.grid.type_ahead_at > PATIENCE_MS {
            self.grid.type_ahead = String::new();
        }
        self.grid.type_ahead_at = now;
        let ta0 = chars_of(self.grid.type_ahead.as_str());
        let repeat = ta0.len() == 1 && lower(ta0[0]) == lower(c);
        if !repeat {
            crate::text::push_char(&mut self.grid.type_ahead, c);
        }
        repeat
    }

    /// Type-ahead: a letter jumps to the next file starting with what has
    /// been typed; a pause ends the word.
    #[verifier::rlimit(40)]
    pub fn type_ahead(&mut self, c: char, now: u64)
        ensures
            Self::typed_ahead(*old(self), *final(self), c, now),
    {
        let ghost start = *self;
        let repeat = self.advance_prefix(c, now);
        let ta = chars_of(self.grid.type_ahead.as_str());
        let (target, reset) = match self.active_pane() {
            Some(p) => type_ahead_pick(p, &ta, repeat, c),
            None => return ,
        };
        if reset {
            self.grid.type_ahead = String::new();
            crate::text::push_char(&mut self.grid.type_ahead, c);
            assert(self.grid.type_ahead@ =~= seq![c]);
        }
        let ghost mid = *self;
        assert(mid == (App { grid: mid.grid, ..start }));
        match target {
            Some(i) => {
                self.set_active_cursor(i);
                proof {
                    lemma_grid_only(start, mid, *self, Pane { cursor: i, ..start.active().unwrap() });
                }
            },
            None => {},
        }
    }
}

/// Type-ahead's choice for the pane `p` with the typed `ta`: the entry to
/// go to, and whether the prefix drops back to just `c`.
fn type_ahead_pick(p: &Pane, ta: &Vec<char>, repeat: bool, c: char) -> (r: (Option<usize>, bool))
    ensures
        ({
            let (target, left) = type_ahead_target(*p, ta@, repeat, c);
            &&& match r.0 {
                Some(i) => target == Some(i as int),
                None => target is None,
            }
            &&& r.1 ==> left == seq![c]
            &&& !r.1 ==> left == ta@
        }),
{
    let names = lowered_entry_names(&p.entries);
    let ta_s = string_of(ta.as_slice());
    let prefix = chars_of(to_lowercase(ta_s.as_str()).as_str());
    if names.len() == 0 {
        return (None, prefix.len() > 1);
    }
    let from: u128 = if repeat {
        p.cursor as u128 + 1
    } else {
        0
    };
    match first_from_exec(&names, &prefix, from) {
        Some(i) => (Some(i), false),
        None => {
            if prefix.len() > 1 {
                let mut one_s = String::new();
                crate::text::push_char(&mut one_s, c);
                assert(one_s@ =~= seq![c]);
                let one = chars_of(to_lowercase(one_s.as_str()).as_str());
                (first_from_exec(&names, &one, 0), true)
            } else {
                (None, false)
            }
        },
    }
}

proof fn lemma_grid_only(a: App, mid: App, b: App, p: Pane)
    requires
        mid == (App { grid: mid.grid, ..a }),
        mid.active_becomes(b, p),
    ensures
        a.active_becomes(App { grid: a.grid, ..b }, p),
        b.grid == mid.grid,
{
    reveal(App::same_but_active);
}

/// `b` is `a` with the active pane's marks dropped (nothing else changes;
/// without a file pane nothing does).
pub open spec fn marks_dropped(a: App, b: App) -> bool {
    match a.active() {
        None => b == a,
        Some(p) => {
            &&& a.same_but_active(b)
            &&& b.active() matches Some(q) && q == (Pane { marks: q.marks, ..p }) && q.marks@.len() == 0
        },
    }
}

/// `b` is `a` after asking the active pane to go to `to`.
pub open spec fn navigation_asked(a: App, b: App, to: NavTarget) -> bool {
    &&& b == (App { effects: b.effects, ..a })
    &&& b.effects@ == a.effects@.push(Effect::Navigate { to })
}

impl App {
    /// Drop the active pane's marks: leaving a directory ends what was
    /// chosen in it.
    pub fn clear_marks(&mut self)
        ensures
            marks_dropped(*old(self), *final(self)),
    {
        if self.active_pane().is_none() {
            return ;
        }
        let ghost before = *self;
        let mut p = self.take_active().unwrap();
        let ghost taken = *self;
        p.clear_marks();
        self.put_active(p);
        proof {
            crate::state::lemma_take_put(before, taken, *self, p);
        }
    }

    /// After a step back through the active pane's history (`moved` says
    /// whether there was one to take): where it landed, or that there was
    /// nowhere to go.
    pub fn pane_go_back(&mut self, moved: bool)
        ensures
            message_only(*old(self), *final(self)),
            moved ==> says(final(self).message, "◀ "@ + match old(self).active() {
                Some(p) => p.cwd@,
                None => seq![],
            }),
            !moved ==> says(
                final(self).message,
                tr_spec(old(self).lang, "no earlier directory"@, "戻れる履歴がありません"@),
            ),
    {
        if moved {
            let cwd = match self.active_pane() {
                Some(p) => chars_of(p.cwd.as_str()),
                None => Vec::new(),
            };
            self.message = Some(crate::text::cat("◀ ", cwd.as_slice()));
        } else {
            self.message = Some(tr_string(self.lang, "no earlier directory", "戻れる履歴がありません"));
        }
    }

    /// After a step forward again (`moved` as for `pane_go_back`).
    pub fn pane_go_forward(&mut self, moved: bool)
        ensures
            message_only(*old(self), *final(self)),
            moved ==> says(final(self).message, "▶ "@ + match old(self).active() {
                Some(p) => p.cwd@,
                None => seq![],
            }),
            !moved ==> says(
                final(self).message,
                tr_spec(old(self).lang, "nothing to go forward to"@, "進める履歴がありません"@),
            ),
    {
        if moved {
            let cwd = match self.active_pane() {
                Some(p) => chars_of(p.cwd.as_str()),
                None => Vec::new(),
            };
            self.message = Some(crate::text::cat("▶ ", cwd.as_slice()));
        } else {
            self.message = Some(
                tr_string(self.lang, "nothing to go forward to", "進める履歴がありません"),
            );
        }
    }

    /// Which place in the sidebar is on this row, if any.
    pub fn sidebar_at(&self, row: u16) -> (r: Option<String>)
        ensures
            crate::chat::opt_view(r) == place_at(self.grid.sidebar_rows@, row),
    {
        let rows = &self.grid.sidebar_rows;
        let mut i: usize = 0;
        assert(rows@.skip(0) =~= rows@);
        while i < rows.len()
            invariant
                i <= rows@.len(),
                *rows == self.grid.sidebar_rows,
                place_at(rows@, row) == place_at(rows@.skip(i as int), row),
            decreases rows.len() - i,
        {
            assert(rows@.skip(i as int)[0] == rows@[i as int]);
            assert(rows@.skip(i as int).drop_first() =~= rows@.skip(i + 1));
            if rows[i].1 == row {
                return Some(rows[i].0.clone());
            }
            i += 1;
        }
        assert(rows@.skip(i as int) =~= seq![]);
        None
    }

    /// Which toolbar button is under this cell, if any (the first listed).
    pub fn grid_button_at(&self, col: u16, row: u16) -> (r: Option<GridButton>)
        ensures
            r == button_at(self.grid.buttons@, col, row),
    {
        let bs = &self.grid.buttons;
        let mut i: usize = 0;
        assert(bs@.skip(0) =~= bs@);
        while i < bs.len()
            invariant
                i <= bs@.len(),
                *bs == self.grid.buttons,
                button_at(bs@, col, row) == button_at(bs@.skip(i as int), col, row),
            decreases bs.len() - i,
        {
            assert(bs@.skip(i as int)[0] == bs@[i as int]);
            assert(bs@.skip(i as int).drop_first() =~= bs@.skip(i + 1));
            if hit_rect(bs[i].1, col, row) {
                return Some(bs[i].0);
            }
            i += 1;
        }
        assert(bs@.skip(i as int) =~= seq![]);
        None
    }

    /// Which entry's tile is under this cell, if any: only tiles that hold
    /// an entry answer. The page shown is the one the cursor is on.
    pub open spec fn grid_entry_spec(self, col: u16, row: u16) -> Option<int> {
        match (self.grid.area, self.active()) {
            (Some(area), Some(p)) => if !in_rect(area, col, row) || self.grid.tile_w == 0 || self.grid.tile_h == 0 {
                None
            } else {
                let cols: int = if self.grid.icon_cols < 1 { 1 } else { self.grid.icon_cols as int };
                let cx = ((col - area.x) / (self.grid.tile_w as int)) as int;
                let cy = ((row - area.y) / (self.grid.tile_h as int)) as int;
                let rows_shown = (area.height / self.grid.tile_h) as int;
                let per_page = cols * if rows_shown < 1 { 1 } else { rows_shown };
                let start = (p.cursor as int / per_page) * per_page;
                let i = start + cy * cols + cx;
                if cx >= cols || i >= p.entries@.len() {
                    None
                } else {
                    Some(i)
                }
            },
            _ => None,
        }
    }

    /// `App::grid_entry_at`.
    pub fn grid_entry_at(&self, col: u16, row: u16) -> (r: Option<usize>)
        ensures
            match r {
                Some(i) => self.grid_entry_spec(col, row) == Some(i as int),
                None => self.grid_entry_spec(col, row) is None,
            },
    {
        let area = match self.grid.area {
            Some(a) => a,
            None => return None,
        };
        let p = match self.active_pane() {
            Some(p) => p,
            None => return None,
        };
        if !hit_rect(area, col, row) || self.grid.tile_w == 0 || self.grid.tile_h == 0 {
            return None;
        }
        let cols: u128 = if self.grid.icon_cols < 1 { 1 } else { self.grid.icon_cols as u128 };
        let cx = ((col - area.x) / self.grid.tile_w) as u128;
        let cy = ((row - area.y) / self.grid.tile_h) as u128;
        if cx >= cols {
            return None;
        }
        let rows_shown = (area.height / self.grid.tile_h) as u128;
        let rs: u128 = if rows_shown < 1 { 1 } else { rows_shown };
        assert(cols * rs <= 18446744073709551615 * 65535) by (nonlinear_arith)
            requires
                cols <= 18446744073709551615,
                rs <= 65535,
                cols >= 1,
                rs >= 1,
        ;
        let per_page: u128 = cols * rs;
        assert(per_page >= 1) by (nonlinear_arith)
            requires
                cols >= 1,
                rs >= 1,
                per_page == cols * rs,
        ;
        let page = p.cursor as u128 / per_page;
        assert(page * per_page <= p.cursor as u128) by (nonlinear_arith)
            requires
                per_page >= 1,
                page == p.cursor as u128 / per_page,
        ;
        let start = page * per_page;
        assert(cy * cols <= 65536 * 18446744073709551616) by (nonlinear_arith)
            requires
                cy <= 65535,
                cols <= 18446744073709551615,
        ;
        let i = start + cy * cols + cx;
        if i >= p.entries.len() as u128 {
            return None;
        }
        Some(i as usize)
    }
}

/// What a click at (`col`, `row`) lands on in the desktop-shaped views, in
/// the order they are asked: the address bar (a crumb, or the bar itself),
/// a toolbar button, a tab label, the sidebar's add row or a place in it,
/// then — in the icon grid only — a tile or the background.
pub ghost enum ClickTarget {
    NotMine,
    Crumb(Seq<char>),
    AddressBar,
    Button(GridButton),
    Tab(FocusedPane, usize),
    SidebarAdd,
    Place(Seq<char>),
    Tile(int),
    Background,
    Nothing,
}

/// The first crumb whose columns hold `col`.
pub open spec fn crumb_at(crumbs: Seq<(String, Rect)>, col: u16) -> Option<Seq<char>>
    decreases crumbs.len(),
{
    if crumbs.len() == 0 {
        None
    } else if crumbs[0].1.x <= col && col < crumbs[0].1.x + crumbs[0].1.width {
        Some(crumbs[0].0@)
    } else {
        crumb_at(crumbs.drop_first(), col)
    }
}

/// The first tab label on this cell.
pub open spec fn tab_at(tabs: Seq<(FocusedPane, usize, Rect)>, col: u16, row: u16) -> Option<(FocusedPane, usize)>
    decreases tabs.len(),
{
    if tabs.len() == 0 {
        None
    } else if tabs[0].2.x <= col && col < tabs[0].2.x + tabs[0].2.width && row == tabs[0].2.y {
        Some((tabs[0].0, tabs[0].1))
    } else {
        tab_at(tabs.drop_first(), col, row)
    }
}

/// The first button on this cell.
pub open spec fn button_at(bs: Seq<(GridButton, Rect)>, col: u16, row: u16) -> Option<GridButton>
    decreases bs.len(),
{
    if bs.len() == 0 {
        None
    } else if in_rect(bs[0].1, col, row) {
        Some(bs[0].0)
    } else {
        button_at(bs.drop_first(), col, row)
    }
}

/// The first sidebar place on this row.
pub open spec fn place_at(rows: Seq<(String, u16)>, row: u16) -> Option<Seq<char>>
    decreases rows.len(),
{
    if rows.len() == 0 {
        None
    } else if rows[0].1 == row {
        Some(rows[0].0@)
    } else {
        place_at(rows.drop_first(), row)
    }
}

impl App {
    /// What a click lands on.
    pub open spec fn click_target(self, col: u16, row: u16) -> ClickTarget {
        let g = self.grid;
        if !g.single_pane_view {
            ClickTarget::NotMine
        } else if g.address matches Some(r) && row == r.y && r.x <= col && col < r.x + r.width {
            match crumb_at(g.crumbs@, col) {
                Some(p) => ClickTarget::Crumb(p),
                None => ClickTarget::AddressBar,
            }
        } else if button_at(g.buttons@, col, row) is Some {
            ClickTarget::Button(button_at(g.buttons@, col, row)->0)
        } else if tab_at(g.tab_rects@, col, row) is Some {
            let t = tab_at(g.tab_rects@, col, row)->0;
            ClickTarget::Tab(t.0, t.1)
        } else if col < g.sidebar_w + 1 && (g.sidebar_add matches Some(r) && row == r.y) {
            ClickTarget::SidebarAdd
        } else if col < g.sidebar_w + 1 && place_at(g.sidebar_rows@, row) is Some {
            ClickTarget::Place(place_at(g.sidebar_rows@, row)->0)
        } else if !g.icon_view {
            ClickTarget::Nothing
        } else if self.grid_entry_spec(col, row) is Some {
            ClickTarget::Tile(self.grid_entry_spec(col, row)->0)
        } else if (g.area matches Some(a) && in_rect(a, col, row)) {
            ClickTarget::Background
        } else {
            ClickTarget::Nothing
        }
    }
}

/// `b` is `a` after pressing the toolbar button `which`: back, forward and
/// up drop the marks and ask the pane to move; the view buttons say which
/// view was asked for.
pub open spec fn button_pressed(a: App, b: App, which: GridButton) -> bool {
    match which {
        GridButton::Back => exists|mid: App|
            #![trigger marks_dropped(a, mid)]
            marks_dropped(a, mid) && navigation_asked(mid, b, NavTarget::Back),
        GridButton::Forward => exists|mid: App|
            #![trigger marks_dropped(a, mid)]
            marks_dropped(a, mid) && navigation_asked(mid, b, NavTarget::Forward),
        GridButton::Up => exists|mid: App|
            #![trigger marks_dropped(a, mid)]
            marks_dropped(a, mid) && navigation_asked(mid, b, NavTarget::Parent),
        GridButton::ViewIcons => b == (App { grid: GridState { view_request: Some(true), ..a.grid }, ..a }),
        GridButton::ViewDetails => b == (App { grid: GridState { view_request: Some(false), ..a.grid }, ..a }),
    }
}

impl App {
    /// A toolbar button. Which view is showing is the front end's business,
    /// so the view buttons only say which was asked for.
    #[verifier::rlimit(40)]
    pub fn grid_button(&mut self, which: GridButton)
        ensures
            button_pressed(*old(self), *final(self), which),
    {
        match which {
            GridButton::Back => {
                self.clear_marks();
                let ghost mid = *self;
                self.effects.push(Effect::Navigate { to: NavTarget::Back });
                assert(navigation_asked(mid, *self, NavTarget::Back));
            },
            GridButton::Forward => {
                self.clear_marks();
                let ghost mid = *self;
                self.effects.push(Effect::Navigate { to: NavTarget::Forward });
                assert(navigation_asked(mid, *self, NavTarget::Forward));
            },
            GridButton::Up => {
                self.clear_marks();
                let ghost mid = *self;
                self.effects.push(Effect::Navigate { to: NavTarget::Parent });
                assert(navigation_asked(mid, *self, NavTarget::Parent));
            },
            GridButton::ViewIcons => {
                self.grid.view_request = Some(true);
            },
            GridButton::ViewDetails => {
                self.grid.view_request = Some(false);
            },
        }
    }
}

impl FileTabs {
    /// Show the tab at `idx`, if there is one.
    pub fn select(&mut self, idx: usize)
        ensures
            idx < old(self).tabs@.len() ==> *final(self) == (FileTabs { active: idx, ..*old(self) }),
            idx >= old(self).tabs@.len() ==> *final(self) == *old(self),
    {
        if idx < self.tabs.len() {
            self.active = idx;
        }
    }
}

/// The marks before the click's toggle: with `adding` and nothing marked
/// yet, the entry already under the cursor (what the eye takes as selected)
/// joins first, unless the click is on it.
pub open spec fn premarked(p: Pane, i: int, adding: bool, x: Seq<char>) -> bool {
    p.has_mark(x) || (adding && p.marks@.len() == 0 && p.cursor != i && p.cursor < p.entries@.len()
        && !p.entries@[p.cursor as int].is_parent && x == p.entries@[p.cursor as int].path@)
}

/// `q` is the pane `p` after a click on tile `i`: the cursor goes there;
/// with `adding` (Ctrl or Command held) the tile's mark flips too.
pub open spec fn tile_clicked(p: Pane, q: Pane, i: int, adding: bool) -> bool {
    &&& q == (Pane { marks: q.marks, cursor: i as usize, ..p })
    &&& !adding ==> q.marks == p.marks
    &&& adding ==> forall|x: Seq<char>|
        q.has_mark(x) <==> if x == p.entries@[i].path@ {
            !premarked(p, i, adding, x) && !p.entries@[i].is_parent
        } else {
            premarked(p, i, adding, x)
        }
}

proof fn lemma_first_mark(p: Pane, p1: Pane, i: int)
    requires
        p1 == (Pane { marks: p1.marks, ..p }),
        p.marks@.len() == 0 && p.cursor != i ==> ((p.cursor < p.entries@.len() && !p.entries@[p.cursor as int].is_parent
            && !p.marked_at(p.cursor as int)) ==> p1.marks@ == p.marks@.push(p.entries@[p.cursor as int].path))
            && (!(p.cursor < p.entries@.len() && !p.entries@[p.cursor as int].is_parent
            && !p.marked_at(p.cursor as int)) ==> p1.marks@ == p.marks@),
        !(p.marks@.len() == 0 && p.cursor != i) ==> p1.marks == p.marks,
    ensures
        forall|x: Seq<char>| p1.has_mark(x) <==> premarked(p, i, true, x),
{
    if p.marks@.len() == 0 {
        assert(crate::state::path_views(p.marks@) =~= seq![]);
    }
    if p.marks@.len() == 0 && p.cursor != i && p.cursor < p.entries@.len()
        && !p.entries@[p.cursor as int].is_parent {
        assert(!p.marked_at(p.cursor as int));
        assert(crate::state::path_views(p1.marks@) =~= seq![p.entries@[p.cursor as int].path@]);
    }
    assert forall|x: Seq<char>| p1.has_mark(x) <==> premarked(p, i, true, x) by {
        if p.marks@.len() == 0 && p.cursor != i && p.cursor < p.entries@.len()
            && !p.entries@[p.cursor as int].is_parent {
            assert(!p.has_mark(x));
            if x == p.entries@[p.cursor as int].path@ {
                assert(crate::state::path_views(p1.marks@)[0] == x);
            }
        }
    }
}

proof fn lemma_toggled(p2: Pane, q: Pane, i: int)
    requires
        0 <= i < p2.entries@.len(),
        q == (Pane { marks: q.marks, ..p2 }),
        p2.marked_at(i) ==> crate::state::path_views(q.marks@) == crate::state::path_views(p2.marks@).filter(
            |y: Seq<char>| y != p2.entries@[i].path@,
        ),
        !p2.marked_at(i) && !p2.entries@[i].is_parent ==> q.marks@ == p2.marks@.push(p2.entries@[i].path),
        !p2.marked_at(i) && p2.entries@[i].is_parent ==> q.marks@ == p2.marks@,
    ensures
        forall|x: Seq<char>|
            q.has_mark(x) <==> if x == p2.entries@[i].path@ {
                !p2.has_mark(x) && !p2.entries@[i].is_parent
            } else {
                p2.has_mark(x)
            },
{
    let pi = p2.entries@[i].path@;
    let pv = crate::state::path_views(p2.marks@);
    let qv = crate::state::path_views(q.marks@);
    assert forall|x: Seq<char>|
        q.has_mark(x) <==> if x == pi {
            !p2.has_mark(x) && !p2.entries@[i].is_parent
        } else {
            p2.has_mark(x)
        } by {
        if p2.marked_at(i) {
            if qv.contains(x) {
                pv.lemma_filter_contains_rev(|y: Seq<char>| y != p2.entries@[i].path@, x);
                let k = choose|k: int| 0 <= k < qv.len() && qv[k] == x;
                pv.lemma_filter_pred(|y: Seq<char>| y != p2.entries@[i].path@, k);
            }
            if x != pi && pv.contains(x) {
                let k = choose|k: int| 0 <= k < pv.len() && pv[k] == x;
                pv.lemma_filter_contains(|y: Seq<char>| y != p2.entries@[i].path@, k);
            }
        } else if !p2.entries@[i].is_parent {
            assert(qv =~= pv.push(pi));
            if pv.contains(x) {
                let k = choose|k: int| 0 <= k < pv.len() && pv[k] == x;
                assert(qv[k] == x);
            }
            if x == pi {
                assert(qv[pv.len() as int] == x);
            }
            if qv.contains(x) && x != pi {
                let k = choose|k: int| 0 <= k < qv.len() && qv[k] == x;
                assert(k < pv.len());
                assert(pv[k] == x);
            }
        } else {
            assert(qv =~= pv);
        }
    }
}

impl Pane {
    /// A click on tile `i` of the grid.
    pub fn click_tile(&mut self, i: usize, adding: bool)
        requires
            i < old(self).entries@.len(),
        ensures
            tile_clicked(*old(self), *final(self), i as int, adding),
    {
        let ghost p0 = *self;
        if adding && self.marks.len() == 0 {
            let was = self.cursor;
            if was != i {
                self.set_mark_at(was);
            }
        }
        let ghost p1 = *self;
        proof {
            if adding {
                lemma_first_mark(p0, p1, i as int);
            }
        }
        self.cursor = i;
        let ghost p2 = *self;
        if adding {
            self.toggle_mark_at(i);
            proof {
                lemma_toggled(p2, *self, i as int);
                assert forall|x: Seq<char>| p2.has_mark(x) == p1.has_mark(x) by {}
            }
        }
    }
}

/// `b` is `a` after a click that takes the active pane to `path`: the marks
/// go, the pane is asked to move, and the typed prefix ends.
pub open spec fn went_to(a: App, b: App, path: Seq<char>) -> bool {
    exists|mid: App|
        #![trigger marks_dropped(a, mid)]
        {
            &&& marks_dropped(a, mid)
            &&& b == (App {
                effects: b.effects,
                grid: GridState { type_ahead: b.grid.type_ahead, ..a.grid },
                ..mid
            })
            &&& mid.grid == a.grid
            &&& b.grid.type_ahead@.len() == 0
            &&& b.effects@.len() == mid.effects@.len() + 1
            &&& b.effects@.drop_last() == mid.effects@
            &&& b.effects@.last() matches Effect::Navigate { to: NavTarget::Path(t) } && t@ == path
        }
}

/// `b` is `a` after a click on the label of tab `idx` of `side`.
pub open spec fn tab_chosen(a: App, b: App, side: FocusedPane, idx: usize) -> bool {
    let f = if side != FocusedPane::Shell {
        App { focused: side, last_file_pane: side, ..a }
    } else {
        App { focused: side, ..a }
    };
    match side {
        FocusedPane::Left => b == (App { left: b.left, ..f }) && (if idx < a.left.tabs@.len() {
            b.left == (FileTabs { active: idx, ..a.left })
        } else {
            b.left == a.left
        }),
        FocusedPane::Right => b == (App { right: b.right, ..f }) && (if idx < a.right.tabs@.len() {
            b.right == (FileTabs { active: idx, ..a.right })
        } else {
            b.right == a.right
        }),
        FocusedPane::Shell => b == f,
    }
}

/// `b` is `a` after a click on tile `i`: the active pane takes it, and the
/// typed prefix ends.
pub open spec fn tile_click_done(a: App, b: App, i: int, adding: bool) -> bool {
    &&& b.grid == (GridState { type_ahead: b.grid.type_ahead, ..a.grid })
    &&& b.grid.type_ahead@.len() == 0
    &&& a.active() is Some
    &&& exists|q: Pane|
        #![trigger tile_clicked(a.active()->0, q, i, adding)]
        tile_clicked(a.active()->0, q, i, adding) && a.active_becomes(App { grid: a.grid, ..b }, q)
}

/// `b` is `a` after a click that lands where `target` says (`adding` when
/// Ctrl or Command is held); `handled` says whether the click was the
/// grid's.
pub open spec fn clicked(a: App, b: App, target: ClickTarget, adding: bool, handled: bool) -> bool {
    match target {
        ClickTarget::NotMine => !handled && b == a,
        ClickTarget::Nothing => !handled && b == a,
        ClickTarget::Crumb(path) => handled && went_to(a, b, path),
        ClickTarget::Place(path) => handled && went_to(a, b, path),
        ClickTarget::AddressBar => handled && App::jump_prompt_opened(a, b),
        ClickTarget::Button(w) => handled && button_pressed(a, b, w),
        ClickTarget::Tab(side, idx) => handled && tab_chosen(a, b, side, idx),
        ClickTarget::SidebarAdd => {
            &&& handled
            &&& popup_only(a, b)
            &&& is_prompt(b.popup, "new shortcut — name"@, "name:"@, seq![])
            &&& b.popup matches Popup::TextInput { kind, .. } && kind matches InputKind::ShortcutName {
                path,
                edit_idx: None,
                group: false,
            } && path@.len() == 0
        },
        ClickTarget::Tile(i) => handled && tile_click_done(a, b, i, adding),
        ClickTarget::Background => {
            &&& handled
            &&& b.grid == (GridState { type_ahead: b.grid.type_ahead, ..a.grid })
            &&& b.grid.type_ahead@.len() == 0
            &&& marks_dropped(a, App { grid: a.grid, ..b })
        },
    }
}

fn crumb_at_exec(crumbs: &Vec<(String, Rect)>, col: u16) -> (r: Option<String>)
    ensures
        crate::chat::opt_view(r) == crumb_at(crumbs@, col),
{
    let mut i: usize = 0;
    assert(crumbs@.skip(0) =~= crumbs@);
    while i < crumbs.len()
        invariant
            i <= crumbs@.len(),
            crumb_at(crumbs@, col) == crumb_at(crumbs@.skip(i as int), col),
        decreases crumbs.len() - i,
    {
        assert(crumbs@.skip(i as int)[0] == crumbs@[i as int]);
        assert(crumbs@.skip(i as int).drop_first() =~= crumbs@.skip(i + 1));
        let r = crumbs[i].1;
        if r.x <= col && (col as u32) < r.x as u32 + r.width as u32 {
            return Some(crumbs[i].0.clone());
        }
        i += 1;
    }
    assert(crumbs@.skip(i as int) =~= seq![]);
    None
}

fn tab_at_exec(tabs: &Vec<(FocusedPane, usize, Rect)>, col: u16, row: u16) -> (r: Option<(FocusedPane, usize)>)
    ensures
        r == tab_at(tabs@, col, row),
{
    let mut i: usize = 0;
    assert(tabs@.skip(0) =~= tabs@);
    while i < tabs.len()
        invariant
            i <= tabs@.len(),
            tab_at(tabs@, col, row) == tab_at(tabs@.skip(i as int), col, row),
        decreases tabs.len() - i,
    {
        assert(tabs@.skip(i as int)[0] == tabs@[i as int]);
        assert(tabs@.skip(i as int).drop_first() =~= tabs@.skip(i + 1));
        let r = tabs[i].2;
        if r.x <= col && (col as u32) < r.x as u32 + r.width as u32 && row == r.y {
            return Some((tabs[i].0, tabs[i].1));
        }
        i += 1;
    }
    assert(tabs@.skip(i as int) =~= seq![]);
    None
}

impl App {
    fn went_to_path(&mut self, path: String)
        ensures
            went_to(*old(self), *final(self), path@),
    {
        self.clear_marks();
        let ghost mid = *self;
        proof {
            reveal(App::same_but_active);
        }
        let ghost e0 = self.effects@;
        self.effects.push(Effect::Navigate { to: NavTarget::Path(path) });
        self.grid.type_ahead = String::new();
        assert(self.effects@.drop_last() =~= e0);
        assert(marks_dropped(*old(self), mid));
    }

    /// A click in the desktop-shaped views, with Ctrl (or Command) held
    /// when `adding`: a crumb goes to that folder and the rest of the
    /// address bar opens the path prompt; a button is pressed; a tab label
    /// shows that tab; the sidebar adds a bookmark or goes to a place; in
    /// the grid a tile takes the cursor (Ctrl adds to the selection) and the
    /// background drops the selection. Says whether the click was the
    /// grid's.
    #[verifier::rlimit(40)]
    pub fn grid_click_mods(&mut self, col: u16, row: u16, adding: bool) -> (handled: bool)
        ensures
            clicked(*old(self), *final(self), old(self).click_target(col, row), adding, handled),
    {
        if !self.grid.single_pane_view {
            return false;
        }
        match self.grid.address {
            Some(r) => {
                if row == r.y && r.x <= col && (col as u32) < r.x as u32 + r.width as u32 {
                    match crumb_at_exec(&self.grid.crumbs, col) {
                        Some(path) => self.went_to_path(path),
                        None => self.start_jump_path(),
                    }
                    return true;
                }
            },
            None => {},
        }
        match self.grid_button_at(col, row) {
            Some(b) => {
                self.grid_button(b);
                return true;
            },
            None => {},
        }
        match tab_at_exec(&self.grid.tab_rects, col, row) {
            Some((side, idx)) => {
                self.focus(side);
                match side {
                    FocusedPane::Left => self.left.select(idx),
                    FocusedPane::Right => self.right.select(idx),
                    FocusedPane::Shell => {},
                }
                return true;
            },
            None => {},
        }
        if (col as u32) < self.grid.sidebar_w as u32 + 1 {
            match self.grid.sidebar_add {
                Some(r) => {
                    if row == r.y {
                        self.start_shortcut_add(Vec::new(), false);
                        return true;
                    }
                },
                None => {},
            }
            match self.sidebar_at(row) {
                Some(path) => {
                    self.went_to_path(path);
                    return true;
                },
                None => {},
            }
        }
        if !self.grid.icon_view {
            return false;
        }
        match self.grid_entry_at(col, row) {
            Some(i) => {
                let ghost a = *self;
                let mut p = self.take_active().unwrap();
                let ghost taken = *self;
                let ghost p0 = p;
                p.click_tile(i, adding);
                self.put_active(p);
                proof {
                    crate::state::lemma_take_put(a, taken, *self, p);
                    reveal(App::same_but_active);
                }
                let ghost mid = *self;
                self.grid.type_ahead = String::new();
                proof {
                    assert(App { grid: a.grid, ..*self } == mid);
                    assert(tile_clicked(p0, p, i as int, adding));
                    assert(a == *old(self));
                    assert(a.grid_entry_spec(col, row) == Some(i as int));
                    assert(old(self).click_target(col, row) == ClickTarget::Tile(i as int));
                    assert(a.active() == Some(p0));
                    assert(a.active_becomes(App { grid: a.grid, ..*self }, p));
                    assert(self.grid == (GridState { type_ahead: self.grid.type_ahead, ..a.grid }));
                    assert(self.grid.type_ahead@.len() == 0);
                    assert(exists|q: Pane| #[trigger] tile_clicked(p0, q, i as int, adding) && a.active_becomes(App { grid: a.grid, ..*self }, q));
                    assert(tile_click_done(*old(self), *self, i as int, adding));
                }
                return true;
            },
            None => {},
        }
        let inside = match self.grid.area {
            Some(a) => hit_rect(a, col, row),
            None => false,
        };
        if inside {
            let ghost a = *self;
            self.clear_marks();
            let ghost mid = *self;
            proof {
                reveal(App::same_but_active);
            }
            self.grid.type_ahead = String::new();
            proof {
                assert(App { grid: a.grid, ..*self } == mid);
            }
        }
        inside
    }

    /// A plain click, with nothing held.
    pub fn grid_click(&mut self, col: u16, row: u16) -> (handled: bool)
        ensures
            clicked(*old(self), *final(self), old(self).click_target(col, row), false, handled),
    {
        self.grid_click_mods(col, row, false)
    }
}


/// `x` round a listing of `n`, for `x` below `2n`.
proof fn lemma_wrap(x: int, n: int)
    requires
        0 < n,
        0 <= x < 2 * n,
    ensures
        x % n == if x < n {
            x
        } else {
            x - n
        },
{
    if x < n {
        vstd::arithmetic::div_mod::lemma_fundamental_div_mod_converse_mod(x, n, 0, x);
    } else {
        vstd::arithmetic::div_mod::lemma_fundamental_div_mod_converse_mod(x, n, 1, x - n);
    }
}

/// Scanning on from step `k`, a name starting with `prefix` at step `kj`
/// is found, at that step or before it.
proof fn lemma_first_from_reaches(names: Seq<Seq<char>>, prefix: Seq<char>, from: int, k: nat, kj: nat) -> (m: nat)
    requires
        k <= kj < names.len(),
        starts_with(names[(from + kj) % (names.len() as int)], prefix),
    ensures
        k <= m <= kj,
        first_from(names, prefix, from, k) == Some((from + m) % (names.len() as int)),
    decreases kj - k,
{
    let i = (from + k) % (names.len() as int);
    if !starts_with(names[i], prefix) {
        lemma_first_from_reaches(names, prefix, from, k + 1, kj)
    } else {
        k
    }
}

/// What `first_from` finds starts with the prefix.
proof fn lemma_first_from_matches(names: Seq<Seq<char>>, prefix: Seq<char>, from: int, k: nat)
    requires
        names.len() > 0,
    ensures
        first_from(names, prefix, from, k) matches Some(i) ==> 0 <= i < names.len() && starts_with(names[i], prefix),
    decreases names.len() - k,
{
    if k < names.len() {
        lemma_first_from_matches(names, prefix, from, k + 1);
    }
}

/// Typing the same single letter again walks on: when some entry other
/// than the one under the cursor starts with what was typed (case
/// ignored), the cursor moves to such an entry, never staying where it is.
pub proof fn law_repeat_walks_on(p: Pane, ta: Seq<char>, c: char, j: int)
    requires
        p.cursor < p.entries@.len(),
        0 <= j < p.entries@.len(),
        j != p.cursor,
        starts_with(lowercase(p.entries@[j].name@), lowercase(ta)),
    ensures
        type_ahead_target(p, ta, true, c).0 matches Some(i) && i != p.cursor && 0 <= i < p.entries@.len()
            && starts_with(lowercase(p.entries@[i].name@), lowercase(ta)),
{
    let names = lowered_names(p.entries@);
    let prefix = lowercase(ta);
    let n = names.len() as int;
    let cur = p.cursor as int;
    let from = cur + 1;
    let kj: nat = if j > cur {
        (j - cur - 1) as nat
    } else {
        (j + n - cur - 1) as nat
    };
    lemma_wrap(from + kj, n);
    assert((from + kj) % n == j);
    assert(names[j] == lowercase(p.entries@[j].name@));
    let m = lemma_first_from_reaches(names, prefix, from, 0, kj);
    lemma_first_from_matches(names, prefix, from, 0);
    let i = (from + m) % n;
    lemma_wrap(from + m, n);
    assert(i != cur);
    assert(names[i] == lowercase(p.entries@[i].name@));
}

} // verus!
