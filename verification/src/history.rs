//! The list of directories the active pane has visited: moving through
//! it, going back to one, and bookmarking one.
use vstd::prelude::*;

use crate::actions::popup_only;
use crate::shortcuts::start_shortcut_add_spec;
use crate::state::{App, Effect, KeyCode, NavTarget, Popup};

verus! {

/// `b` is `a` after Enter in the history list: the list closes and the
/// active pane goes to the entry under its cursor.
pub open spec fn history_finished(a: App, b: App) -> bool {
    let closed = App { popup: Popup::Closed, ..a };
    match a.popup {
        Popup::History { entries, cursor } => if cursor < entries@.len() {
            &&& b == (App { effects: b.effects, ..closed })
            &&& b.effects@.len() == a.effects@.len() + 1
            &&& b.effects@.drop_last() == a.effects@
            &&& b.effects@.last() matches Effect::Navigate { to: NavTarget::Path(p) } && p == entries@[cursor as int]
        } else {
            b == closed
        },
        _ => b == closed,
    }
}

/// `b` is `a` after `key` in the history list: Esc closes it, Enter goes
/// to the entry, `j`/`k` and the arrows move, and `a` closes it to make a
/// bookmark of the entry.
pub open spec fn history_keyed(a: App, b: App, key: KeyCode) -> bool {
    let entries = a.popup->History_entries;
    let cursor = a.popup->History_cursor;
    let moved = |c: usize| b == (App { popup: Popup::History { entries, cursor: c }, ..a });
    match key {
        KeyCode::Esc => b == (App { popup: Popup::Closed, ..a }),
        KeyCode::Enter => history_finished(a, b),
        KeyCode::Down | KeyCode::Char('j') => moved(if cursor + 1 < entries@.len() { (cursor + 1) as usize } else { cursor }),
        KeyCode::Up | KeyCode::Char('k') => moved(if cursor > 0 { (cursor - 1) as usize } else { cursor }),
        KeyCode::Char('a') => if cursor < entries@.len() {
            let m = App {
                popup: Popup::Closed,
                pending_shortcut_target: Some(entries@[cursor as int]),
                ..a
            };
            start_shortcut_add_spec(m, b, seq![], false)
        } else {
            b == (App { popup: Popup::Closed, ..a })
        },
        _ => b == a,
    }
}

impl App {
    /// Enter in the history list.
    pub fn finish_history(&mut self)
        ensures
            history_finished(*old(self), *final(self)),
    {
        let mut p = Popup::Closed;
        std::mem::swap(&mut p, &mut self.popup);
        let (entries, cursor) = match p {
            Popup::History { entries, cursor } => (entries, cursor),
            _ => return ,
        };
        if cursor >= entries.len() {
            return ;
        }
        let target = entries[cursor].clone();
        let ghost e0 = self.effects@;
        self.effects.push(Effect::Navigate { to: NavTarget::Path(target) });
        assert(self.effects@.drop_last() =~= e0);
    }

    /// A key in the history list.
    pub fn history_key(&mut self, key: KeyCode)
        requires
            old(self).popup is History,
        ensures
            history_keyed(*old(self), *final(self), key),
    {
        match key {
            KeyCode::Esc => {
                self.popup = Popup::Closed;
            },
            KeyCode::Enter => self.finish_history(),
            KeyCode::Down | KeyCode::Char('j') | KeyCode::Up | KeyCode::Char('k') => {
                let mut p = Popup::Closed;
                std::mem::swap(&mut p, &mut self.popup);
                match p {
                    Popup::History { entries, cursor } => {
                        let down = key == KeyCode::Down || key == KeyCode::Char('j');
                        let c = if down {
                            if cursor < entries.len() && cursor + 1 < entries.len() {
                                cursor + 1
                            } else {
                                cursor
                            }
                        } else if cursor > 0 {
                            cursor - 1
                        } else {
                            cursor
                        };
                        self.popup = Popup::History { entries, cursor: c };
                    },
                    other => {
                        self.popup = other;
                    },
                }
            },
            KeyCode::Char('a') => {
                let target = match &self.popup {
                    Popup::History { entries, cursor } => if *cursor < entries.len() {
                        Some(entries[*cursor].clone())
                    } else {
                        None
                    },
                    _ => None,
                };
                self.popup = Popup::Closed;
                match target {
                    Some(t) => {
                        self.pending_shortcut_target = Some(t);
                        self.start_shortcut_add(Vec::new(), false);
                    },
                    None => {},
                }
            },
            _ => {},
        }
    }
}

/// Moving through the history list keeps its cursor on an entry.
pub proof fn law_history_cursor_in_range(a: App, b: App, key: KeyCode)
    requires
        a.popup matches Popup::History { entries, cursor } && cursor < entries@.len(),
        history_keyed(a, b, key),
        b.popup is History,
    ensures
        b.popup->History_cursor < b.popup->History_entries@.len(),
{
}

} // verus!
