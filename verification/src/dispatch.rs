//! Where a key goes: the gates ahead of everything (a running operation,
//! the font keys, Tab, the resize chords), then the popup on screen, then
//! the mode and the pane with the focus.
use vstd::prelude::*;

use crate::actions::filter_keyed;
use crate::command_run::command_keyed;
use crate::dialogs::dialog_keyed;
use crate::font::font_stepped;
use crate::history::history_keyed;
use crate::ime::ime_noticed;
use crate::lang::{tr_spec, tr_string};
use crate::layout::resized;
use crate::normal_keys::normal_keyed;
use crate::ops::{dest_picker_keyed, op_cancelled};
use crate::popup_keys::{ai_history_keyed, notice_keyed, queue_keyed, search_keyed};
use crate::prompt::{effect_added, text_keyed};
use crate::shell::{snippets_keyed, snippets_opened};
use crate::shell_keys::shell_keyed;
use crate::shortcut_keys::shortcuts_keyed;
use crate::key_probe::{key_report, key_report_text};
use crate::tabs::{close_tab_keyed, new_tab_keyed};
use crate::state::{path_views, says, App, Effect, FocusedPane, KeyCode, KeyPress, Mode, OpState, Popup, Shortcut};
use crate::visual::visual_keyed;

verus! {

/// What the front end knows at the moment of a key and the handlers ask
/// for.
pub struct KeyContext {
    /// The clipboard's text, for the keys that paste.
    pub clipboard: Option<String>,
    /// The time, in seconds, to stamp what is started.
    pub now: u64,
    /// What a confirmed copy would create at its destination.
    pub made: Vec<String>,
    /// A full-screen program runs in the shell.
    pub alt_screen: bool,
    /// A selection was dragged out in the shell before this key.
    pub dragged: bool,
    /// The rows of the shell area.
    pub shell_height: u16,
    /// The shell tab has a side-by-side split to resize.
    pub split_across: bool,
    /// The shell tab has an over-and-under split to resize.
    pub split_stacked: bool,
}

/// A key is read as a command rather than typed as text: over the panes
/// outside the command line, the filter and the shell, or in the viewer
/// with none of its prompts open and not editing.
pub open spec fn key_is_command(a: App) -> bool {
    match a.popup {
        Popup::Closed => a.mode != Mode::Command && a.mode != Mode::Filter && a.focused != FocusedPane::Shell,
        Popup::Viewer { find_input, sub_input, block_input, editing, .. } => !find_input && !sub_input
            && !block_input && !editing,
        _ => false,
    }
}

/// The viewer is up and being typed into as an editor.
pub open spec fn viewer_editing(p: Popup) -> bool {
    (p matches Popup::Viewer { editing, .. } && editing)
}

/// One of the viewer's prompts is taking text.
pub open spec fn viewer_prompt_open(p: Popup) -> bool {
    (p matches Popup::Viewer { find_input, sub_input, block_input, .. } && (find_input || sub_input || block_input))
}

/// The viewer sits docked in the pane without the focus, so the keys
/// belong to the listing.
pub open spec fn docked_elsewhere(a: App) -> bool {
    &&& a.popup is Viewer
    &&& (a.viewer_dock matches Some(p) && p != a.focused)
}

/// Ctrl with `-`, `_`, `+` or `=`: a step of the terminal's font.
pub open spec fn font_key(code: KeyCode) -> bool {
    code == KeyCode::Char('-') || code == KeyCode::Char('+') || code == KeyCode::Char('=') || code
        == KeyCode::Char('_')
}

/// An arrow key.
pub open spec fn arrow(code: KeyCode) -> bool {
    code == KeyCode::Left || code == KeyCode::Right || code == KeyCode::Up || code == KeyCode::Down
}

/// A font step can be taken from `a`: the configured range is a range and
/// the level stays an `i64`.
pub open spec fn font_fits(a: App, step: i64) -> bool {
    &&& a.config.font matches Some(cfg) ==> cfg.min <= cfg.max
    &&& i64::MIN <= a.font_level + step <= i64::MAX
}

/// Tab crosses to the other file pane: not in the shell, not in a prompt
/// or an editor, and not over a floating viewer.
pub open spec fn tab_crosses(a: App, key: KeyPress) -> bool {
    &&& key.code == KeyCode::Tab && !key.ctrl && !key.alt
    &&& (a.popup is Closed || a.popup is Viewer)
    &&& !viewer_editing(a.popup)
    &&& !viewer_prompt_open(a.popup)
    &&& a.focused != FocusedPane::Shell
    &&& a.mode != Mode::Command
    &&& a.mode != Mode::Filter
    &&& !(a.popup is Viewer && a.viewer_dock is None)
}

/// Shift+Tab over a viewer docked where the focus is: the viewer's tab
/// strip.
pub open spec fn back_tab_steps(a: App, key: KeyPress) -> bool {
    &&& key.code == KeyCode::BackTab && !key.ctrl && !key.alt
    &&& a.popup is Viewer
    &&& !viewer_editing(a.popup)
    &&& !viewer_prompt_open(a.popup)
    &&& a.viewer_dock == Some(a.focused)
}

/// F12 zooms: not while a full-screen program in the focused shell wants
/// the key, and with Shift only from the shell.
pub open spec fn zoom_applies(a: App, key: KeyPress, alt_screen: bool) -> bool {
    let full = a.focused == FocusedPane::Shell && alt_screen;
    &&& key.code == KeyCode::F(12)
    &&& if key.shift {
        a.focused == FocusedPane::Shell && !full
    } else {
        !full
    }
}

/// The text of a prompt can take one more character, and the clipboard.
pub open spec fn text_fits(len: nat, clipboard: Option<String>) -> bool {
    &&& len + 1 < usize::MAX
    &&& clipboard matches Some(t) ==> len + t@.len() < usize::MAX
}

/// Whether the shell tab has a split along the axis of `code`.
pub open spec fn split_along(ctx: KeyContext, code: KeyCode) -> bool {
    if code == KeyCode::Left || code == KeyCode::Right {
        ctx.split_across
    } else {
        ctx.split_stacked
    }
}

/// `post` is `pre` after `key` over the popup on screen. The popups with a
/// keymap here answer it; the yes/no dialogs share theirs; the others
/// (the viewer, the chat, the review lists, ...) hand the key to the front
/// end. A prompt whose text could not grow is left as it is.
pub open spec fn popup_keyed<F: Fn(&Vec<Shortcut>) -> Result<(), String>>(
    pre: App,
    post: App,
    key: KeyPress,
    ctx: KeyContext,
    save: F,
) -> bool {
    match pre.popup {
        Popup::OpQueue { .. } => queue_keyed(pre, post, key.code, ctx.now),
        Popup::AiHistory { .. } => ai_history_keyed(pre, post, key.code),
        Popup::Snippets { cursor, .. } => if cursor < usize::MAX {
            snippets_keyed(pre, post, key.code)
        } else {
            post == pre
        },
        Popup::DestPicker { .. } => dest_picker_keyed(pre, post, key.code),
        Popup::TextInput { buffer, .. } => if text_fits(buffer@.len(), ctx.clipboard) {
            text_keyed(pre, post, key, ctx.clipboard, ctx.now, save)
        } else {
            post == pre
        },
        Popup::Search { buffer } => if buffer@.len() + 1 < usize::MAX {
            search_keyed(pre, post, key)
        } else {
            post == pre
        },
        Popup::Notice { .. } => notice_keyed(pre, post, key.code),
        Popup::History { .. } => history_keyed(pre, post, key.code),
        Popup::Shortcuts { .. } => shortcuts_keyed(pre, post, key.code),
        Popup::ConfirmCloseTab { .. } => close_tab_keyed(pre, post, key.code),
        Popup::ConfirmNewTab { .. } => new_tab_keyed(pre, post, key.code),
        Popup::ConfirmQuit
        | Popup::ConfirmDelete { .. }
        | Popup::ConfirmSnippet { .. }
        | Popup::ConfirmTransfer { .. }
        | Popup::ConfirmDiscard { .. }
        | Popup::ConfirmDiffCopy { .. }
        | Popup::ConfirmShortcutDelete { .. }
        | Popup::ConfirmDirSync { .. }
        | Popup::TransferRetry { .. } => dialog_keyed(pre, post, key.code, ctx.now, path_views(ctx.made@), save),
        Popup::Closed => post == pre,
        _ => effect_added(pre, post, |e: Effect| e == Effect::PopupKey { key }),
    }
}

/// `a` is `pre` after a character arrives where a command was expected:
/// an ASCII one clears the input-method warning, any other shows that an
/// input method is on.
pub open spec fn ime_step(pre: App, a: App, key: KeyPress) -> bool {
    match key.code {
        KeyCode::Char(c) => if key_is_command(pre) {
            if (c as u32) < 128 {
                a == (App { ime_warned: false, ..pre })
            } else {
                ime_noticed(pre, a)
            }
        } else {
            a == pre
        },
        _ => a == pre,
    }
}

/// `post` is `a` after `key`, once the input method has been looked at.
pub open spec fn key_gated<F: Fn(&Vec<Shortcut>) -> Result<(), String>>(
    a: App,
    post: App,
    key: KeyPress,
    ctx: KeyContext,
    save: F,
) -> bool {
    if a.ops.job is Some && !a.ops.bar_hidden {
        if key.code == KeyCode::Esc {
            op_cancelled(a, post, ctx.now)
        } else if key.code == KeyCode::Char('b') || key.code == KeyCode::Enter {
            &&& post == (App { ops: OpState { bar_hidden: true, ..a.ops }, message: post.message, ..a })
            &&& says(
                post.message,
                tr_spec(a.lang, "running in the background — :queue to manage"@, "バックグラウンドで実行中 — :queue で管理"@),
            )
        } else {
            post == a
        }
    } else if key.ctrl && font_key(key.code) && !viewer_editing(a.popup) {
        let step: i64 = if key.code == KeyCode::Char('+') || key.code == KeyCode::Char('=') {
            1i64
        } else {
            -1i64
        };
        if font_fits(a, step) {
            font_stepped(a, post, step)
        } else {
            post == a
        }
    } else if tab_crosses(a, key) {
        let other = if a.focused == FocusedPane::Left {
            FocusedPane::Right
        } else {
            FocusedPane::Left
        };
        post == (App { focused: other, last_file_pane: other, ..a })
    } else if back_tab_steps(a, key) {
        effect_added(a, post, |e: Effect| e == Effect::PopupKey { key })
    } else if key.ctrl && key.shift && arrow(key.code) {
        if a.layout.wf() {
            resized(a, post, key.code, split_along(ctx, key.code))
        } else {
            post == a
        }
    } else if !(a.popup is Closed) && !docked_elsewhere(a) {
        popup_keyed(a, post, key, ctx, save)
    } else if key_is_command(a) && ((key.code == KeyCode::Char('.') && key.ctrl) || (key.code == KeyCode::Char(
        '?',
    ) && !key.ctrl)) {
        effect_added(a, post, |e: Effect| e == Effect::OpenManual)
    } else if key.code == KeyCode::Enter && key.ctrl && key.shift {
        snippets_opened(a, post)
    } else if zoom_applies(a, key, ctx.alt_screen) {
        effect_added(a, post, |e: Effect| e == Effect::Zoom { pane_only: key.shift })
    } else if a.mode == Mode::Command {
        command_keyed(a, post, key, ctx.clipboard)
    } else if a.mode == Mode::Filter {
        filter_keyed(a, post, key.code)
    } else if a.focused == FocusedPane::Shell {
        shell_keyed(a, post, key, ctx.alt_screen, ctx.dragged, ctx.shell_height)
    } else if a.mode == Mode::Visual {
        visual_keyed(a, post, key.code)
    } else {
        normal_keyed(a, post, key)
    }
}

/// `post` is `pre` after `key` has gone where it belongs.
#[verifier::opaque]
pub open spec fn key_routed<F: Fn(&Vec<Shortcut>) -> Result<(), String>>(
    pre: App,
    post: App,
    key: KeyPress,
    ctx: KeyContext,
    save: F,
) -> bool {
    exists|a: App| #![trigger ime_step(pre, a, key)] ime_step(pre, a, key) && key_gated(a, post, key, ctx, save)
}

/// `pre` with no message on screen.
pub open spec fn unsaid(pre: App) -> App {
    App { message: None, ..pre }
}

/// `post` is `pre` after `key`: the key is routed with the message taken
/// down; a message it gives is fresh, and where it gives none the old
/// message stays, no longer fresh. While keys are being reported (`:key`)
/// the message is the report of this key.
pub open spec fn key_handled<F: Fn(&Vec<Shortcut>) -> Result<(), String>>(
    pre: App,
    post: App,
    key: KeyPress,
    ctx: KeyContext,
    save: F,
) -> bool {
    exists|m: App|
        #![trigger key_routed(unsaid(pre), m, key, ctx, save)]
        {
            &&& key_routed(unsaid(pre), m, key, ctx, save)
            &&& post == (App { message: post.message, message_fresh: m.message is Some, ..m })
            &&& if m.keys.probe {
                says(post.message, key_report(key))
            } else {
                post.message == if m.message is Some {
                    m.message
                } else {
                    pre.message
                }
            }
        }
}

impl App {
    /// Whether a key is read as a command rather than typed as text.
    pub fn key_is_a_command(&self) -> (b: bool)
        ensures
            b == key_is_command(*self),
    {
        match &self.popup {
            Popup::Closed => self.mode != Mode::Command && self.mode != Mode::Filter && self.focused
                != FocusedPane::Shell,
            Popup::Viewer { find_input, sub_input, block_input, editing, .. } => !*find_input && !*sub_input
                && !*block_input && !*editing,
            _ => false,
        }
    }

    fn viewer_is_editing(&self) -> (b: bool)
        ensures
            b == viewer_editing(self.popup),
    {
        match &self.popup {
            Popup::Viewer { editing, .. } => *editing,
            _ => false,
        }
    }

    fn viewer_prompt_is_open(&self) -> (b: bool)
        ensures
            b == viewer_prompt_open(self.popup),
    {
        match &self.popup {
            Popup::Viewer { find_input, sub_input, block_input, .. } => *find_input || *sub_input || *block_input,
            _ => false,
        }
    }

    fn queue_popup_key(&mut self, key: KeyPress)
        ensures
            effect_added(*old(self), *final(self), |e: Effect| e == Effect::PopupKey { key }),
    {
        let ghost e0 = self.effects@;
        self.effects.push(Effect::PopupKey { key });
        assert(self.effects@.drop_last() =~= e0);
    }

    fn queue_effect(&mut self, e: Effect)
        ensures
            effect_added(*old(self), *final(self), |x: Effect| x == e),
    {
        let ghost e0 = self.effects@;
        self.effects.push(e);
        assert(self.effects@.drop_last() =~= e0);
    }

    /// A key over the popup on screen.
    pub fn handle_popup_key<F: Fn(&Vec<Shortcut>) -> Result<(), String>>(
        &mut self,
        key: KeyPress,
        ctx: KeyContext,
        save: F,
    )
        requires
            forall|v: &Vec<Shortcut>| call_requires(save, (v,)),
        ensures
            popup_keyed(*old(self), *final(self), key, ctx, save),
    {
        let KeyContext { clipboard, now, made, .. } = ctx;
        match &self.popup {
            Popup::OpQueue { .. } => self.op_queue_key(key.code, now),
            Popup::AiHistory { .. } => self.ai_history_key(key.code),
            Popup::Snippets { cursor, .. } => {
                if *cursor < usize::MAX {
                    self.snippets_key(key.code);
                }
            },
            Popup::DestPicker { .. } => self.dest_picker_key(key.code),
            Popup::TextInput { buffer, .. } => {
                let n = buffer.unicode_len();
                let fits = n < usize::MAX - 1 && match &clipboard {
                    Some(t) => t.unicode_len() < usize::MAX - n,
                    None => true,
                };
                if fits {
                    self.text_input_key(key, clipboard, now, save);
                }
            },
            Popup::Search { buffer } => {
                if buffer.unicode_len() < usize::MAX - 1 {
                    self.search_key(key);
                }
            },
            Popup::Notice { .. } => self.notice_key(key.code),
            Popup::History { .. } => self.history_key(key.code),
            Popup::Shortcuts { .. } => self.shortcuts_key(key.code),
            Popup::ConfirmCloseTab { .. } => self.close_tab_key(key.code),
            Popup::ConfirmNewTab { .. } => self.new_tab_key(key.code),
            Popup::ConfirmQuit
            | Popup::ConfirmDelete { .. }
            | Popup::ConfirmSnippet { .. }
            | Popup::ConfirmTransfer { .. }
            | Popup::ConfirmDiscard { .. }
            | Popup::ConfirmDiffCopy { .. }
            | Popup::ConfirmShortcutDelete { .. }
            | Popup::ConfirmDirSync { .. }
            | Popup::TransferRetry { .. } => self.confirm_dialog_key(key.code, now, made, save),
            Popup::Closed => {},
            _ => self.queue_popup_key(key),
        }
    }

    /// Route `key`, once the input method has been looked at.
    fn route_key<F: Fn(&Vec<Shortcut>) -> Result<(), String>>(&mut self, key: KeyPress, ctx: KeyContext, save: F)
        requires
            forall|v: &Vec<Shortcut>| call_requires(save, (v,)),
        ensures
            key_gated(*old(self), *final(self), key, ctx, save),
    {
        if self.ops.job.is_some() && !self.ops.bar_hidden {
            if key.code == KeyCode::Esc {
                self.cancel_op_job(ctx.now);
            } else if key.code == KeyCode::Char('b') || key.code == KeyCode::Enter {
                self.ops.bar_hidden = true;
                self.message = Some(
                    tr_string(
                        self.lang,
                        "running in the background — :queue to manage",
                        "バックグラウンドで実行中 — :queue で管理",
                    ),
                );
            }
            return ;
        }
        let fk = key.code == KeyCode::Char('-') || key.code == KeyCode::Char('+') || key.code == KeyCode::Char('=')
            || key.code == KeyCode::Char('_');
        if key.ctrl && fk && !self.viewer_is_editing() {
            let step: i64 = if key.code == KeyCode::Char('+') || key.code == KeyCode::Char('=') {
                1
            } else {
                -1
            };
            let range_ok = match &self.config.font {
                Some(cfg) => cfg.min <= cfg.max,
                None => true,
            };
            let level_ok = if step > 0 {
                self.font_level < i64::MAX
            } else {
                self.font_level > i64::MIN
            };
            if range_ok && level_ok {
                self.font_step(step);
            }
            return ;
        }
        let in_popup = match &self.popup {
            Popup::Closed => 0u8,
            Popup::Viewer { .. } => 1u8,
            _ => 2u8,
        };
        let editing = self.viewer_is_editing();
        let prompting = self.viewer_prompt_is_open();
        if key.code == KeyCode::Tab && !key.ctrl && !key.alt && in_popup < 2 && !editing && !prompting
            && self.focused != FocusedPane::Shell && self.mode != Mode::Command && self.mode != Mode::Filter && !(
        in_popup == 1 && self.viewer_dock.is_none()) {
            let other = if self.focused == FocusedPane::Left {
                FocusedPane::Right
            } else {
                FocusedPane::Left
            };
            self.focus(other);
            return ;
        }
        if key.code == KeyCode::BackTab && !key.ctrl && !key.alt && in_popup == 1 && !editing && !prompting
            && self.viewer_dock == Some(self.focused) {
            self.queue_popup_key(key);
            return ;
        }
        let arrow = key.code == KeyCode::Left || key.code == KeyCode::Right || key.code == KeyCode::Up || key.code
            == KeyCode::Down;
        if key.ctrl && key.shift && arrow {
            if self.layout.main_pct <= 100 && self.layout.panes_pct <= 100 && self.layout.min_pct <= 50 {
                let inner = if key.code == KeyCode::Left || key.code == KeyCode::Right {
                    ctx.split_across
                } else {
                    ctx.split_stacked
                };
                self.resize_split(key.code, inner);
            }
            return ;
        }
        let elsewhere = in_popup == 1 && match self.viewer_dock {
            Some(p) => p != self.focused,
            None => false,
        };
        if in_popup != 0 && !elsewhere {
            self.handle_popup_key(key, ctx, save);
            return ;
        }
        if self.key_is_a_command() && ((key.code == KeyCode::Char('.') && key.ctrl) || (key.code == KeyCode::Char(
            '?',
        ) && !key.ctrl)) {
            self.queue_effect(Effect::OpenManual);
            return ;
        }
        if key.code == KeyCode::Enter && key.ctrl && key.shift {
            self.start_snippets();
            return ;
        }
        if key.code == KeyCode::F(12) {
            let full = self.focused == FocusedPane::Shell && ctx.alt_screen;
            let zoom = if key.shift {
                self.focused == FocusedPane::Shell && !full
            } else {
                !full
            };
            if zoom {
                self.queue_effect(Effect::Zoom { pane_only: key.shift });
                return ;
            }
        }
        if self.mode == Mode::Command {
            self.handle_command_key(key, ctx.clipboard);
        } else if self.mode == Mode::Filter {
            self.handle_filter_key(key.code);
        } else if self.focused == FocusedPane::Shell {
            self.handle_shell_key(key, ctx.alt_screen, ctx.dragged, ctx.shell_height);
        } else if self.mode == Mode::Visual {
            self.handle_visual_key(key.code);
        } else {
            self.handle_normal_key(key);
        }
    }

    /// Send `key` where it belongs.
    fn handle_key_inner<F: Fn(&Vec<Shortcut>) -> Result<(), String>>(
        &mut self,
        key: KeyPress,
        ctx: KeyContext,
        save: F,
    )
        requires
            forall|v: &Vec<Shortcut>| call_requires(save, (v,)),
        ensures
            key_routed(*old(self), *final(self), key, ctx, save),
    {
        if let KeyCode::Char(c) = key.code {
            if self.key_is_a_command() {
                if (c as u32) < 128 {
                    self.ime_warned = false;
                } else {
                    self.note_ime_is_on();
                }
            }
        }
        let ghost a = *self;
        assert(ime_step(*old(self), a, key));
        self.route_key(key, ctx, save);
        proof {
            reveal(key_routed);
        }
    }

    /// After a key: the message it gave, fresh; or the message from before
    /// it (`before`), not fresh; or, while keys are being reported, the
    /// report of `key`.
    fn settle_message(&mut self, before: Option<String>, key: KeyPress)
        ensures
            *final(self) == (App {
                message: final(self).message,
                message_fresh: old(self).message is Some,
                ..*old(self)
            }),
            old(self).keys.probe ==> says(final(self).message, key_report(key)),
            !old(self).keys.probe ==> final(self).message == if old(self).message is Some {
                old(self).message
            } else {
                before
            },
    {
        let fresh = self.message.is_some();
        if self.keys.probe {
            self.message = Some(key_report_text(key));
        } else if !fresh {
            self.message = before;
        }
        self.message_fresh = fresh;
    }

    /// A key: the message on screen is taken down, the key is routed, and
    /// the old message comes back where the key said nothing.
    #[verifier::rlimit(40)]
    pub fn handle_key<F: Fn(&Vec<Shortcut>) -> Result<(), String>>(&mut self, key: KeyPress, ctx: KeyContext, save: F)
        requires
            forall|v: &Vec<Shortcut>| call_requires(save, (v,)),
        ensures
            key_handled(*old(self), *final(self), key, ctx, save),
    {
        let before = self.message.take();
        assert(*self == unsaid(*old(self)));
        self.handle_key_inner(key, ctx, save);
        let ghost m = *self;
        self.settle_message(before, key);
        assert(key_routed(unsaid(*old(self)), m, key, ctx, save));
    }
}

} // verus!
