//! Two keys of the file panes that work on the listing itself: Shift+V
//! turns every mark over, and Backspace peels back a layer — the filter
//! first, then a search listing, then the directory.
use vstd::prelude::*;

use crate::actions::filter_set;
use crate::prompt::effect_added;
use crate::actions::message_only;
use crate::lang::{tr_spec, tr_string};
use crate::state::{mark_toggled, says, App, Effect, FocusedPane, KeyCode, KeyPress, NavTarget, Pane};

verus! {

/// Step `i` of `chain` toggles the mark of entry `i`.
pub open spec fn toggle_step(chain: Seq<Pane>, i: int) -> bool {
    mark_toggled(chain[i], chain[i + 1], i as usize)
}

/// `chain` takes `old` to `new` by toggling each entry's mark in turn.
pub open spec fn inverted_by(old: Pane, new: Pane, chain: Seq<Pane>) -> bool {
    &&& chain.len() == old.entries@.len() + 1
    &&& chain[0] == old
    &&& chain.last() == new
    &&& forall|i: int| 0 <= i < old.entries@.len() ==> #[trigger] toggle_step(chain, i)
}

/// `new` is `old` with every entry's mark turned over, one entry after
/// another from the top.
pub open spec fn marks_inverted(old: Pane, new: Pane) -> bool {
    exists|chain: Seq<Pane>| #[trigger] inverted_by(old, new, chain)
}

impl Pane {
    /// Turn every entry's mark over.
    pub fn invert_marks(&mut self)
        ensures
            marks_inverted(*old(self), *final(self)),
    {
        let n = self.entries.len();
        let ghost mut chain: Seq<Pane> = seq![*self];
        let mut i: usize = 0;
        while i < n
            invariant
                i <= n,
                n == old(self).entries@.len(),
                self.entries == old(self).entries,
                chain.len() == i + 1,
                chain[0] == *old(self),
                chain.last() == *self,
                forall|j: int| 0 <= j < i ==> #[trigger] toggle_step(chain, j),
            decreases n - i,
        {
            self.toggle_mark_at(i);
            proof {
                let c0 = chain;
                chain = chain.push(*self);
                assert forall|j: int| 0 <= j < i + 1 implies #[trigger] toggle_step(chain, j) by {
                    if j < i {
                        assert(toggle_step(c0, j));
                        assert(chain[j] == c0[j] && chain[j + 1] == c0[j + 1]);
                    } else {
                        assert(chain[j] == c0.last());
                    }
                }
            }
            i += 1;
        }
        assert(inverted_by(*old(self), *self, chain));
    }
}

/// `post` is `pre` after Shift+V: the active pane's marks turned over.
pub open spec fn marks_flipped(pre: App, post: App) -> bool {
    match pre.active() {
        Some(p) => exists|m: Pane| #[trigger] marks_inverted(p, m) && pre.active_becomes(post, m),
        None => post == pre,
    }
}

/// `post` is `pre` after Backspace over the panes: a filter is dropped
/// first; with none, a search listing is left, or else the pane goes up a
/// directory.
pub open spec fn backed_up(pre: App, post: App) -> bool {
    match pre.active() {
        Some(p) => if p.filter@.len() > 0 {
            exists|mid: App|
                #![trigger filter_set(mid, post, seq![])]
                mid == (App { filter_buffer: mid.filter_buffer, ..pre }) && mid.filter_buffer@.len() == 0
                    && filter_set(mid, post, seq![])
        } else if p.flat {
            effect_added(pre, post, |e: Effect| e == Effect::Navigate { to: NavTarget::LeaveListing })
        } else {
            effect_added(pre, post, |e: Effect| e == Effect::Navigate { to: NavTarget::Parent })
        },
        None => post == pre,
    }
}

/// `post` is `pre` after Esc over the panes: out of a search listing
/// first; in a directory, the marks and the filter go.
pub open spec fn pane_escaped(pre: App, post: App) -> bool {
    match pre.active() {
        Some(p) => if p.flat {
            effect_added(pre, post, |e: Effect| e == Effect::Navigate { to: NavTarget::LeaveListing })
        } else {
            exists|m: Pane|
                #[trigger] pre.active_becomes(post, m) && m == (Pane { marks: m.marks, filter: m.filter, ..p })
                    && m.marks@.len() == 0 && m.filter@.len() == 0
        },
        None => post == pre,
    }
}

/// `post` is `pre` after moving the keyboard towards `dir`: `h` the left
/// pane, `l` the right one, `j` down to the shell, `k` back up to the file
/// pane last used; any other character changes nothing.
pub open spec fn focus_moved(pre: App, post: App, dir: char) -> bool {
    if dir == 'h' {
        post == (App { focused: FocusedPane::Left, last_file_pane: FocusedPane::Left, ..pre })
    } else if dir == 'l' {
        post == (App { focused: FocusedPane::Right, last_file_pane: FocusedPane::Right, ..pre })
    } else if dir == 'j' {
        post == (App { focused: FocusedPane::Shell, ..pre })
    } else if dir == 'k' {
        post == (App { focused: pre.last_file_pane, ..pre })
    } else {
        post == pre
    }
}


/// What a key does in a remote (SFTP) pane, over the connection.
#[derive(Clone, Copy, Debug, PartialEq, Eq, Structural)]
pub enum RemoteKey {
    /// Into the folder under the cursor.
    Enter,
    /// Up a folder.
    Parent,
    /// Out of the remote pane.
    Leave,
    /// A new folder on the server.
    Mkdir,
    /// A new file on the server.
    Touch,
    /// Rename on the server.
    Rename,
    /// Delete on the server.
    Delete,
}

/// How a key reads in a remote pane: one of its own keys, a copy or move
/// across the connection, one of the keys not wired there, or an ordinary
/// key (moving, marks, filter).
#[derive(Clone, Copy, Debug, PartialEq, Eq, Structural)]
pub enum RemoteReading {
    Act { action: RemoteKey },
    Transfer { moving: bool },
    Unwired,
    Pass,
}

/// How `k` reads in a remote pane.
pub open spec fn remote_reading(k: KeyPress) -> RemoteReading {
    match k.code {
        KeyCode::Enter | KeyCode::Char('l') => RemoteReading::Act { action: RemoteKey::Enter },
        KeyCode::Char('-') | KeyCode::Backspace => RemoteReading::Act { action: RemoteKey::Parent },
        KeyCode::Esc | KeyCode::Char('q') => RemoteReading::Act { action: RemoteKey::Leave },
        KeyCode::Char('c') if !k.ctrl => RemoteReading::Transfer { moving: false },
        KeyCode::Char('m') if !k.ctrl => RemoteReading::Transfer { moving: true },
        KeyCode::Char('A') if !k.ctrl => RemoteReading::Act { action: RemoteKey::Mkdir },
        KeyCode::Char('a') if !k.ctrl => RemoteReading::Act { action: RemoteKey::Touch },
        KeyCode::Char('r') if !k.ctrl => RemoteReading::Act { action: RemoteKey::Rename },
        KeyCode::Char('d') if !k.ctrl => RemoteReading::Act { action: RemoteKey::Delete },
        KeyCode::Char('x') if !k.ctrl => RemoteReading::Unwired,
        KeyCode::Char('b') if !k.ctrl => RemoteReading::Unwired,
        KeyCode::Char('=') if !k.ctrl => RemoteReading::Unwired,
        _ => RemoteReading::Pass,
    }
}

/// `remote_reading`.
pub fn remote_reading_of(k: KeyPress) -> (r: RemoteReading)
    ensures
        r == remote_reading(k),
{
    match k.code {
        KeyCode::Enter | KeyCode::Char('l') => RemoteReading::Act { action: RemoteKey::Enter },
        KeyCode::Char('-') | KeyCode::Backspace => RemoteReading::Act { action: RemoteKey::Parent },
        KeyCode::Esc | KeyCode::Char('q') => RemoteReading::Act { action: RemoteKey::Leave },
        KeyCode::Char('c') if !k.ctrl => RemoteReading::Transfer { moving: false },
        KeyCode::Char('m') if !k.ctrl => RemoteReading::Transfer { moving: true },
        KeyCode::Char('A') if !k.ctrl => RemoteReading::Act { action: RemoteKey::Mkdir },
        KeyCode::Char('a') if !k.ctrl => RemoteReading::Act { action: RemoteKey::Touch },
        KeyCode::Char('r') if !k.ctrl => RemoteReading::Act { action: RemoteKey::Rename },
        KeyCode::Char('d') if !k.ctrl => RemoteReading::Act { action: RemoteKey::Delete },
        KeyCode::Char('x') if !k.ctrl => RemoteReading::Unwired,
        KeyCode::Char('b') if !k.ctrl => RemoteReading::Unwired,
        KeyCode::Char('=') if !k.ctrl => RemoteReading::Unwired,
        _ => RemoteReading::Pass,
    }
}

/// `post` is `pre` after a key that reads as `r` (not `Pass`) in a remote
/// pane.
pub open spec fn remote_keyed(pre: App, post: App, r: RemoteReading) -> bool {
    match r {
        RemoteReading::Act { action } => effect_added(pre, post, |e: Effect| e == Effect::RemoteKey { action }),
        RemoteReading::Transfer { moving } => effect_added(pre, post, |e: Effect| e == Effect::RemoteTransfer { moving }),
        _ => message_only(pre, post) && says(
            post.message,
            tr_spec(
                pre.lang,
                "remote pane: not available (c copy, m move, A/a/r/d write)"@,
                "リモートペイン: 未対応（c コピー, m 移動, A/a/r/d 書込）"@,
            ),
        ),
    }
}

impl App {
    /// A key that reads as `r` (not `Pass`) in a remote pane.
    pub fn remote_key(&mut self, r: RemoteReading)
        ensures
            remote_keyed(*old(self), *final(self), r),
    {
        match r {
            RemoteReading::Act { action } => {
                let ghost e0 = self.effects@;
                self.effects.push(Effect::RemoteKey { action });
                assert(self.effects@.drop_last() =~= e0);
            },
            RemoteReading::Transfer { moving } => {
                let ghost e0 = self.effects@;
                self.effects.push(Effect::RemoteTransfer { moving });
                assert(self.effects@.drop_last() =~= e0);
            },
            _ => {
                self.message = Some(
                    tr_string(
                        self.lang,
                        "remote pane: not available (c copy, m move, A/a/r/d write)",
                        "リモートペイン: 未対応（c コピー, m 移動, A/a/r/d 書込）",
                    ),
                );
            },
        }
    }

    /// Ask the front end to move the active pane to `to`.
    pub fn ask_navigation(&mut self, to: NavTarget)
        ensures
            crate::grid::navigation_asked(*old(self), *final(self), to),
    {
        self.effects.push(Effect::Navigate { to });
    }

    /// Shift+H/J/K/L, Ctrl+h/j/k/l: move the keyboard between the panes
    /// and the shell.
    pub fn focus_direction(&mut self, dir: char)
        ensures
            focus_moved(*old(self), *final(self), dir),
    {
        if dir == 'h' {
            self.focus(FocusedPane::Left);
        } else if dir == 'l' {
            self.focus(FocusedPane::Right);
        } else if dir == 'j' {
            self.focus(FocusedPane::Shell);
        } else if dir == 'k' {
            let p = self.last_file_pane;
            self.focused = p;
        }
    }

    /// Esc over the panes.
    pub fn escape_pane(&mut self)
        ensures
            pane_escaped(*old(self), *final(self)),
    {
        let flat = match self.active_pane() {
            Some(p) => p.flat,
            None => return ,
        };
        if flat {
            let ghost e0 = self.effects@;
            self.effects.push(Effect::Navigate { to: NavTarget::LeaveListing });
            assert(self.effects@.drop_last() =~= e0);
            return ;
        }
        let ghost start = *self;
        if let Some(mut p) = self.take_active() {
            let ghost taken = *self;
            p.clear_marks();
            p.filter = String::new();
            self.put_active(p);
            proof {
                crate::state::lemma_take_put(start, taken, *self, p);
            }
        }
    }

    /// Shift+V: turn over every mark of the active pane.
    pub fn invert_active_marks(&mut self)
        ensures
            marks_flipped(*old(self), *final(self)),
    {
        let ghost start = *self;
        if let Some(mut p) = self.take_active() {
            let ghost taken = *self;
            let ghost p0 = p;
            p.invert_marks();
            self.put_active(p);
            proof {
                crate::state::lemma_take_put(start, taken, *self, p);
                assert(marks_inverted(p0, p));
            }
        }
    }

    /// Backspace over the panes.
    pub fn back_up(&mut self)
        ensures
            backed_up(*old(self), *final(self)),
    {
        let (filtered, flat) = match self.active_pane() {
            Some(p) => (p.filter.unicode_len() > 0, p.flat),
            None => return ,
        };
        if filtered {
            self.filter_buffer = String::new();
            let ghost mid = *self;
            self.set_active_filter(String::new());
            assert(filter_set(mid, *self, seq![]));
        } else {
            let to = if flat {
                NavTarget::LeaveListing
            } else {
                NavTarget::Parent
            };
            let ghost e0 = self.effects@;
            self.effects.push(Effect::Navigate { to });
            assert(self.effects@.drop_last() =~= e0);
        }
    }
}

} // verus!
