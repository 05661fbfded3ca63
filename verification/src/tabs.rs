//! The tabs of a file pane: stepping through them, opening one (asking
//! first) and closing one (asking first from the F-key).
use vstd::prelude::*;

use crate::prompt::effect_added;
use crate::state::{App, Effect, FileTabs, FocusedPane, KeyCode, Pane, Popup};

verus! {

/// The tab after `active` of `len`, going round.
pub open spec fn next_index(active: usize, len: nat) -> usize {
    let n = len as int;
    if n == 0 {
        active
    } else {
        ((active as int % n + 1) % n) as usize
    }
}

/// The tab before `active` of `len`, going round.
pub open spec fn prev_index(active: usize, len: nat) -> usize {
    let n = len as int;
    if n == 0 {
        active
    } else if active as int % n == 0 {
        (n - 1) as usize
    } else {
        (active as int % n - 1) as usize
    }
}

/// `b` is `a` with the shown tab closed: it goes, and the one after it
/// (or, for the last, the one before) is shown. The only tab, or a shown
/// index past the end, stays.
pub open spec fn tab_closed_in(a: FileTabs, b: FileTabs) -> bool {
    let n = a.tabs@.len();
    if n <= 1 || a.active >= n {
        b == a
    } else {
        &&& b.tabs@ == a.tabs@.remove(a.active as int)
        &&& b.active == if a.active == n - 1 {
            (a.active - 1) as usize
        } else {
            a.active
        }
    }
}

impl FileTabs {
    /// Show the next tab, going round.
    pub fn next_tab(&mut self)
        ensures
            final(self).tabs == old(self).tabs,
            final(self).active == next_index(old(self).active, old(self).tabs@.len()),
    {
        let n = self.tabs.len();
        if n == 0 {
            return ;
        }
        let a = self.active % n;
        proof {
            if a + 1 < n {
                vstd::arithmetic::div_mod::lemma_small_mod((a + 1) as nat, n as nat);
            } else {
                vstd::arithmetic::div_mod::lemma_mod_self_0(n as int);
            }
        }
        self.active = if a + 1 == n {
            0
        } else {
            a + 1
        };
    }

    /// Show the previous tab, going round.
    pub fn prev_tab(&mut self)
        ensures
            final(self).tabs == old(self).tabs,
            final(self).active == prev_index(old(self).active, old(self).tabs@.len()),
    {
        let n = self.tabs.len();
        if n == 0 {
            return ;
        }
        let a = self.active % n;
        self.active = if a == 0 {
            n - 1
        } else {
            a - 1
        };
    }

    /// Close the shown tab (never the only one).
    pub fn close_active(&mut self)
        ensures
            tab_closed_in(*old(self), *final(self)),
    {
        let n = self.tabs.len();
        if n <= 1 || self.active >= n {
            return ;
        }
        let i = self.active;
        self.tabs.remove(i);
        if i == n - 1 {
            self.active = i - 1;
        }
    }

    /// Add `p` as a tab and show it.
    pub fn add_tab(&mut self, p: Pane)
        ensures
            final(self).tabs@ == old(self).tabs@.push(p),
            final(self).active == old(self).tabs@.len(),
    {
        self.tabs.push(p);
        self.active = self.tabs.len() - 1;
    }
}

/// The file pane the keyboard is on, or (from the shell) was last on.
pub open spec fn side_of(a: App) -> FocusedPane {
    match a.focused {
        FocusedPane::Shell => a.last_file_pane,
        p => p,
    }
}

/// `post` is `pre` with the tabs of `side` changed as `f` says and nothing
/// else.
pub open spec fn tabs_now(pre: App, post: App, side: FocusedPane, f: spec_fn(FileTabs, FileTabs) -> bool) -> bool {
    match side {
        FocusedPane::Left => post == (App { left: post.left, ..pre }) && f(pre.left, post.left),
        FocusedPane::Right => post == (App { right: post.right, ..pre }) && f(pre.right, post.right),
        FocusedPane::Shell => post == pre,
    }
}

/// `post` is `pre` after stepping the tabs of the pane with the keyboard
/// (`forward`: to the next).
pub open spec fn tab_switched(pre: App, post: App, forward: bool) -> bool {
    tabs_now(
        pre,
        post,
        pre.focused,
        |a: FileTabs, b: FileTabs|
            b.tabs == a.tabs && b.active == if forward {
                next_index(a.active, a.tabs@.len())
            } else {
                prev_index(a.active, a.tabs@.len())
            },
    )
}

/// `post` is `pre` after closing the shown tab of the pane with the
/// keyboard.
pub open spec fn tab_closed(pre: App, post: App) -> bool {
    tabs_now(pre, post, pre.focused, |a: FileTabs, b: FileTabs| tab_closed_in(a, b))
}

/// `post` is `pre` after `key` over the question whether to close a tab:
/// `y` or Enter closes it, `n` or Esc backs out.
pub open spec fn close_tab_keyed(pre: App, post: App, key: KeyCode) -> bool {
    let closed = App { popup: Popup::Closed, ..pre };
    match key {
        KeyCode::Char('y') | KeyCode::Enter => tabs_now(
            closed,
            post,
            pre.popup->ConfirmCloseTab_side,
            |a: FileTabs, b: FileTabs| tab_closed_in(a, b),
        ),
        KeyCode::Char('n') | KeyCode::Esc => post == closed,
        _ => post == pre,
    }
}

/// The directory shown on `side`, where it has one.
pub open spec fn cwd_of(a: App, side: FocusedPane) -> Option<Seq<char>> {
    match side {
        FocusedPane::Left => match a.left.current() {
            Some(p) => Some(p.cwd@),
            None => None,
        },
        FocusedPane::Right => match a.right.current() {
            Some(p) => Some(p.cwd@),
            None => None,
        },
        FocusedPane::Shell => None,
    }
}

/// `post` is `pre` after `key` over the question whether to open a tab:
/// `y` or Enter asks the front end for a tab of the same directory, `n`
/// or Esc backs out.
pub open spec fn new_tab_keyed(pre: App, post: App, key: KeyCode) -> bool {
    let side = pre.popup->ConfirmNewTab_side;
    let closed = App { popup: Popup::Closed, ..pre };
    match key {
        KeyCode::Char('y') | KeyCode::Enter => match cwd_of(pre, side) {
            Some(c) => effect_added(
                closed,
                post,
                |e: Effect| e matches Effect::OpenTab { side: s, cwd } && s == side && cwd@ == c,
            ),
            None => post == closed,
        },
        KeyCode::Char('n') | KeyCode::Esc => post == closed,
        _ => post == pre,
    }
}

impl App {
    /// Shift+F1 / Shift+F2, Shift+Tab: the previous or next tab of the pane
    /// with the keyboard.
    pub fn switch_file_tab(&mut self, forward: bool)
        ensures
            tab_switched(*old(self), *final(self), forward),
    {
        match self.focused {
            FocusedPane::Left => if forward {
                self.left.next_tab()
            } else {
                self.left.prev_tab()
            },
            FocusedPane::Right => if forward {
                self.right.next_tab()
            } else {
                self.right.prev_tab()
            },
            FocusedPane::Shell => {},
        }
    }

    /// `w`: close the shown tab of the pane with the keyboard.
    pub fn close_file_tab(&mut self)
        ensures
            tab_closed(*old(self), *final(self)),
    {
        match self.focused {
            FocusedPane::Left => self.left.close_active(),
            FocusedPane::Right => self.right.close_active(),
            FocusedPane::Shell => {},
        }
    }

    /// Shift+F10: ask before closing the shown tab.
    pub fn ask_close_tab(&mut self)
        ensures
            *final(self) == (App { popup: Popup::ConfirmCloseTab { side: side_of(*old(self)) }, ..*old(self) }),
    {
        let side = match self.focused {
            FocusedPane::Shell => self.last_file_pane,
            p => p,
        };
        self.popup = Popup::ConfirmCloseTab { side };
    }

    /// A key over the question whether to close a tab.
    pub fn close_tab_key(&mut self, key: KeyCode)
        requires
            old(self).popup is ConfirmCloseTab,
        ensures
            close_tab_keyed(*old(self), *final(self), key),
    {
        let side = match self.popup {
            Popup::ConfirmCloseTab { side } => side,
            _ => return ,
        };
        match key {
            KeyCode::Char('y') | KeyCode::Enter => {
                self.popup = Popup::Closed;
                match side {
                    FocusedPane::Left => self.left.close_active(),
                    FocusedPane::Right => self.right.close_active(),
                    FocusedPane::Shell => {},
                }
            },
            KeyCode::Char('n') | KeyCode::Esc => {
                self.popup = Popup::Closed;
            },
            _ => {},
        }
    }

    /// A key over the question whether to open a tab.
    pub fn new_tab_key(&mut self, key: KeyCode)
        requires
            old(self).popup is ConfirmNewTab,
        ensures
            new_tab_keyed(*old(self), *final(self), key),
    {
        let side = match self.popup {
            Popup::ConfirmNewTab { side } => side,
            _ => return ,
        };
        match key {
            KeyCode::Char('y') | KeyCode::Enter => {
                self.popup = Popup::Closed;
                let tabs = match side {
                    FocusedPane::Left => &self.left,
                    FocusedPane::Right => &self.right,
                    FocusedPane::Shell => return ,
                };
                if tabs.active < tabs.tabs.len() {
                    let cwd = tabs.tabs[tabs.active].cwd.clone();
                    let ghost e0 = self.effects@;
                    self.effects.push(Effect::OpenTab { side, cwd });
                    assert(self.effects@.drop_last() =~= e0);
                }
            },
            KeyCode::Char('n') | KeyCode::Esc => {
                self.popup = Popup::Closed;
            },
            _ => {},
        }
    }

    /// The pane for a tab opened on `side` (after `Effect::OpenTab`): it is
    /// added and shown.
    pub fn add_tab(&mut self, side: FocusedPane, p: Pane)
        ensures
            side == FocusedPane::Left ==> *final(self) == (App { left: final(self).left, ..*old(self) })
                && final(self).left.tabs@ == old(self).left.tabs@.push(p) && final(self).left.active
                == old(self).left.tabs@.len(),
            side == FocusedPane::Right ==> *final(self) == (App { right: final(self).right, ..*old(self) })
                && final(self).right.tabs@ == old(self).right.tabs@.push(p) && final(self).right.active
                == old(self).right.tabs@.len(),
            side == FocusedPane::Shell ==> *final(self) == *old(self),
    {
        match side {
            FocusedPane::Left => self.left.add_tab(p),
            FocusedPane::Right => self.right.add_tab(p),
            FocusedPane::Shell => {},
        }
    }
}

} // verus!
