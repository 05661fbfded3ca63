//! The keys of the shell pane. What a key means there is decided here; the
//! terminal sessions that carry it out belong to the front end.
use vstd::prelude::*;

use crate::commands::command_mode_entered;
use crate::count::decimal_chars;
use crate::lang::{tr_around, tr_spec, tr_string};
use crate::count::decimal;
use crate::prompt::effect_added;
use crate::state::{App, Effect, KeyCode, KeyPress};

verus! {

/// What a key in the shell pane is read as.
#[derive(Clone, Copy, Debug, PartialEq, Eq, Structural)]
pub enum ShellKey {
    /// Scroll back through past output by `by` lines (negative: forward).
    ScrollBack { by: isize },
    /// Back to the file pane last used.
    FocusFiles,
    /// Open the `:` command line.
    CommandLine,
    /// Open the shell's context menu.
    ContextMenu,
    /// The previous split pane of the tab.
    PrevPane,
    /// The next split pane of the tab.
    NextPane,
    /// Split the active pane, side by side or one above the other.
    Split { left_right: bool },
    /// Ask before closing the active split pane.
    CloseSplit,
    /// Show the tab at `index`.
    SelectTab { index: usize },
    /// Open a new shell tab.
    NewTab,
    /// Ask before closing the shell tab.
    CloseTab,
    /// Copy the dragged selection.
    CopySelection,
    /// Paste the clipboard into the shell.
    Paste,
    /// Send the key on to the shell (to every pane when broadcasting).
    Forward,
}

/// Lines in a page of scrollback for a shell area `height` rows high.
pub open spec fn page_of(height: u16) -> isize {
    if height >= 3 {
        (height - 2) as isize
    } else {
        1
    }
}

/// The scroll that Shift with `code` asks for, outside a full-screen app.
pub open spec fn scroll_by(code: KeyCode, page: isize) -> Option<isize> {
    match code {
        KeyCode::PageUp => Some(page),
        KeyCode::PageDown => Some((-page) as isize),
        KeyCode::Up => Some(1isize),
        KeyCode::Down => Some(-1isize),
        KeyCode::Home => Some((isize::MAX / 2) as isize),
        KeyCode::End => Some((isize::MIN / 2) as isize),
        _ => None,
    }
}

/// The F-key bindings of the shell pane (Shift: the split panes; plain:
/// the tabs).
pub open spec fn f_key_action(n: u8, shift: bool) -> Option<ShellKey> {
    if shift {
        if n == 1 {
            Some(ShellKey::PrevPane)
        } else if n == 2 {
            Some(ShellKey::NextPane)
        } else if n == 8 {
            Some(ShellKey::Split { left_right: true })
        } else if n == 9 {
            Some(ShellKey::Split { left_right: false })
        } else if n == 10 {
            Some(ShellKey::CloseSplit)
        } else {
            None
        }
    } else if 1 <= n <= 8 {
        Some(ShellKey::SelectTab { index: (n - 1) as usize })
    } else if n == 9 {
        Some(ShellKey::NewTab)
    } else if n == 10 {
        Some(ShellKey::CloseTab)
    } else {
        None
    }
}

/// What `key` means in the shell pane. A full-screen app (`alt_screen`)
/// keeps Esc, the Enter chords, the F-keys and the scroll keys for itself;
/// Ctrl+C copies only when a selection was dragged, and is the interrupt
/// otherwise.
pub open spec fn shell_action(key: KeyPress, alt_screen: bool, dragged: bool, height: u16) -> ShellKey {
    let scroll = if !alt_screen && key.shift {
        scroll_by(key.code, page_of(height))
    } else {
        None
    };
    let fk = match key.code {
        KeyCode::F(n) => if alt_screen {
            None
        } else {
            f_key_action(n, key.shift)
        },
        _ => None,
    };
    if scroll is Some {
        ShellKey::ScrollBack { by: scroll->0 }
    } else if key.code == KeyCode::Esc && !alt_screen {
        ShellKey::FocusFiles
    } else if key.code == KeyCode::Enter && key.ctrl && !key.shift && !alt_screen {
        ShellKey::CommandLine
    } else if key.code == KeyCode::Enter && key.shift && !alt_screen {
        ShellKey::ContextMenu
    } else if fk is Some {
        fk->0
    } else if key.ctrl && (key.code == KeyCode::Char('c') || key.code == KeyCode::Char('C')) && dragged {
        ShellKey::CopySelection
    } else if key.ctrl && (key.code == KeyCode::Char('v') || key.code == KeyCode::Char('V')) {
        ShellKey::Paste
    } else {
        ShellKey::Forward
    }
}

/// Read `key` in the shell pane.
pub fn shell_key_action(key: KeyPress, alt_screen: bool, dragged: bool, height: u16) -> (r: ShellKey)
    ensures
        r == shell_action(key, alt_screen, dragged, height),
{
    let page: isize = if height >= 3 {
        (height - 2) as isize
    } else {
        1
    };
    let scroll: Option<isize> = if !alt_screen && key.shift {
        match key.code {
            KeyCode::PageUp => Some(page),
            KeyCode::PageDown => Some(-page),
            KeyCode::Up => Some(1),
            KeyCode::Down => Some(-1),
            KeyCode::Home => Some(isize::MAX / 2),
            KeyCode::End => Some(isize::MIN / 2),
            _ => None,
        }
    } else {
        None
    };
    if let Some(by) = scroll {
        return ShellKey::ScrollBack { by };
    }
    if key.code == KeyCode::Esc && !alt_screen {
        return ShellKey::FocusFiles;
    }
    if key.code == KeyCode::Enter && key.ctrl && !key.shift && !alt_screen {
        return ShellKey::CommandLine;
    }
    if key.code == KeyCode::Enter && key.shift && !alt_screen {
        return ShellKey::ContextMenu;
    }
    if !alt_screen {
        if let KeyCode::F(n) = key.code {
            let fk = if key.shift {
                if n == 1 {
                    Some(ShellKey::PrevPane)
                } else if n == 2 {
                    Some(ShellKey::NextPane)
                } else if n == 8 {
                    Some(ShellKey::Split { left_right: true })
                } else if n == 9 {
                    Some(ShellKey::Split { left_right: false })
                } else if n == 10 {
                    Some(ShellKey::CloseSplit)
                } else {
                    None
                }
            } else if 1 <= n && n <= 8 {
                Some(ShellKey::SelectTab { index: (n - 1) as usize })
            } else if n == 9 {
                Some(ShellKey::NewTab)
            } else if n == 10 {
                Some(ShellKey::CloseTab)
            } else {
                None
            };
            if let Some(a) = fk {
                return a;
            }
        }
    }
    if key.ctrl && (key.code == KeyCode::Char('c') || key.code == KeyCode::Char('C')) && dragged {
        return ShellKey::CopySelection;
    }
    if key.ctrl && (key.code == KeyCode::Char('v') || key.code == KeyCode::Char('V')) {
        return ShellKey::Paste;
    }
    ShellKey::Forward
}

/// `post` is `pre` after `key` in the shell pane: Esc gives the keyboard
/// back to the last file pane, Ctrl+Enter opens the command line, and every
/// other reading goes to the front end with the key.
pub open spec fn shell_keyed(pre: App, post: App, key: KeyPress, alt_screen: bool, dragged: bool, height: u16) -> bool {
    let action = shell_action(key, alt_screen, dragged, height);
    match action {
        ShellKey::FocusFiles => post == (App { focused: pre.last_file_pane, ..pre }),
        ShellKey::CommandLine => command_mode_entered(pre, post),
        _ => effect_added(pre, post, |e: Effect| e == Effect::ShellKey { action, key }),
    }
}

/// The message after scrolling back: how far back the view is, or that it
/// is live again.
pub open spec fn scroll_message(lang: crate::lang::Lang, at: usize) -> Seq<char> {
    if at == 0 {
        tr_spec(lang, "live output"@, "最新の出力"@)
    } else {
        tr_spec(
            lang,
            decimal(at as nat) + " lines back — typing returns to the end"@,
            decimal(at as nat) + " 行さかのぼり中 — 何か入力すると戻ります"@,
        )
    }
}

impl App {
    /// A key in the shell pane: `alt_screen` is whether a full-screen app
    /// runs there, `dragged` whether a selection was dragged out before
    /// the key, `height` the rows of the shell area.
    pub fn handle_shell_key(&mut self, key: KeyPress, alt_screen: bool, dragged: bool, height: u16)
        ensures
            shell_keyed(*old(self), *final(self), key, alt_screen, dragged, height),
    {
        let action = shell_key_action(key, alt_screen, dragged, height);
        match action {
            ShellKey::FocusFiles => {
                let p = self.last_file_pane;
                self.focused = p;
            },
            ShellKey::CommandLine => self.enter_command_mode(),
            _ => {
                let ghost e0 = self.effects@;
                self.effects.push(Effect::ShellKey { action, key });
                assert(self.effects@.drop_last() =~= e0);
            },
        }
    }

    /// The shell's view now stands `at` lines back from the live end.
    pub fn after_scroll_back(&mut self, at: usize)
        ensures
            *final(self) == (App { message: final(self).message, ..*old(self) }),
            final(self).message matches Some(m) && m@ == scroll_message(old(self).lang, at),
    {
        let m = if at == 0 {
            tr_string(self.lang, "live output", "最新の出力")
        } else {
            let d = decimal_chars(at);
            tr_around(
                self.lang,
                ("", " lines back — typing returns to the end"),
                ("", " 行さかのぼり中 — 何か入力すると戻ります"),
                d.as_slice(),
            )
        };
        proof {
            reveal_strlit("");
        }
        self.message = Some(m);
    }
}

} // verus!
