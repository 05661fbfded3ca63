//! Visual mode over a pane: moving the end of the selection, and
//! committing or dropping it.
use vstd::prelude::*;

use crate::actions::{visual_cleared, visual_committed};
use crate::marks::visual_all_selected;
use crate::state::{clamp, App, KeyCode, Pane};

verus! {

/// Where the cursor of `p` lands after moving by `delta` rows.
pub open spec fn moved_cursor(p: Pane, delta: int) -> usize {
    if p.entries@.len() == 0 {
        0
    } else {
        clamp(p.cursor + delta, 0, p.entries@.len() - 1) as usize
    }
}

/// `post` is `pre` with the active pane's cursor at `c(p)` (nothing without
/// an active pane).
pub open spec fn cursor_set(pre: App, post: App, c: spec_fn(Pane) -> usize) -> bool {
    match pre.active() {
        Some(p) => pre.active_becomes(post, Pane { cursor: c(p), ..p }),
        None => post == pre,
    }
}

/// `post` is `pre` after `key` in visual mode. `gg` goes to the top; Esc
/// drops the selection and the marks; Enter or `v` marks the selection;
/// `j`/`k` and the arrows, `D`/`U` and the page keys move by one row or
/// ten; `a` stretches the selection over everything; `G`/End and Home go to
/// the last or the first row.
pub open spec fn visual_keyed(pre: App, post: App, key: KeyCode) -> bool {
    if pre.pending_g && key == KeyCode::Char('g') {
        cursor_set(App { pending_g: false, ..pre }, post, |p: Pane| 0usize)
    } else {
        let a = App { pending_g: false, ..pre };
        match key {
            KeyCode::Esc => visual_cleared(a, post),
            KeyCode::Enter | KeyCode::Char('v') => visual_committed(a, post),
            KeyCode::Char('j') | KeyCode::Down => cursor_set(a, post, |p: Pane| moved_cursor(p, 1)),
            KeyCode::Char('k') | KeyCode::Up => cursor_set(a, post, |p: Pane| moved_cursor(p, -1)),
            KeyCode::Char('D') | KeyCode::PageDown => cursor_set(a, post, |p: Pane| moved_cursor(p, 10)),
            KeyCode::Char('U') | KeyCode::PageUp => cursor_set(a, post, |p: Pane| moved_cursor(p, -10)),
            KeyCode::Char('a') => visual_all_selected(a, post),
            KeyCode::Char('g') => post == (App { pending_g: true, ..a }),
            KeyCode::Char('G') | KeyCode::End => cursor_set(
                a,
                post,
                |p: Pane|
                    if p.entries@.len() > 0 {
                        (p.entries@.len() - 1) as usize
                    } else {
                        p.cursor
                    },
            ),
            KeyCode::Home => cursor_set(a, post, |p: Pane| 0usize),
            _ => post == a,
        }
    }
}

impl App {
    /// Move the active pane's cursor by `delta` rows, held to the listing.
    pub(crate) fn move_active(&mut self, delta: isize)
        ensures
            cursor_set(*old(self), *final(self), |p: Pane| moved_cursor(p, delta as int)),
    {
        let c = match self.active_pane() {
            Some(p) => {
                let n = p.entries.len();
                if n == 0 {
                    0
                } else {
                    let last = (n - 1) as i128;
                    let want = p.cursor as i128 + delta as i128;
                    let c = if want < 0 {
                        0
                    } else if want > last {
                        last
                    } else {
                        want
                    };
                    c as usize
                }
            },
            None => return ,
        };
        self.set_active_cursor(c);
    }

    /// A key in visual mode.
    pub fn handle_visual_key(&mut self, key: KeyCode)
        ensures
            visual_keyed(*old(self), *final(self), key),
    {
        if self.pending_g {
            self.pending_g = false;
            if key == KeyCode::Char('g') {
                if self.active_pane().is_some() {
                    self.set_active_cursor(0);
                }
                return ;
            }
        }
        match key {
            KeyCode::Esc => self.visual_cancel_and_clear_all(),
            KeyCode::Enter | KeyCode::Char('v') => self.visual_commit(),
            KeyCode::Char('j') | KeyCode::Down => self.move_active(1),
            KeyCode::Char('k') | KeyCode::Up => self.move_active(-1),
            KeyCode::Char('D') | KeyCode::PageDown => self.move_active(10),
            KeyCode::Char('U') | KeyCode::PageUp => self.move_active(-10),
            KeyCode::Char('a') => self.visual_select_all(),
            KeyCode::Char('g') => {
                self.pending_g = true;
            },
            KeyCode::Char('G') | KeyCode::End => {
                let last = match self.active_pane() {
                    Some(p) => if p.entries.len() > 0 {
                        p.entries.len() - 1
                    } else {
                        p.cursor
                    },
                    None => return ,
                };
                self.set_active_cursor(last);
            },
            KeyCode::Home => {
                if self.active_pane().is_some() {
                    self.set_active_cursor(0);
                }
            },
            _ => {},
        }
    }
}

} // verus!
