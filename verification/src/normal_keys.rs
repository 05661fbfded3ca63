//! The keys of normal mode over the file panes: moving, marking, the
//! prompts and lists, undo and redo. Keys bound to features outside this
//! library go to the front end's own key map.
use vstd::prelude::*;

use crate::actions::{
    delete_asked, filter_started, find_prompted, grep_prompted, jump_prompted, match_jumped, new_dir_asked,
    new_file_asked, new_tab_asked, quit_asked, rename_asked, search_started, visual_started, history_opened,
};
use crate::commands::command_mode_entered;
use crate::keymap::{action_executed, bound_action};
use crate::tabs::{side_of, tab_closed, tab_switched};
use crate::transfer_start::transfer_started;
use crate::pane_keys::{backed_up, focus_moved, marks_flipped, pane_escaped, remote_keyed, remote_reading, remote_reading_of, RemoteReading};
use crate::clipboard::{clip_pasted, file_refs_copied, paths_copied, targets_clipped};
use crate::grid::navigation_asked;
use crate::marks::all_selected;
use crate::prompt::effect_added;
use crate::shortcuts::shortcuts_opened;
use crate::state::{mark_toggled, App, Effect, FocusedPane, KeyCode, KeyPress, NavTarget, Pane, PendingOp, Popup};
use crate::undo::{redo_taken, undo_taken};
use crate::visual::{cursor_set, moved_cursor};

verus! {

/// The key `c` without Ctrl (Shift and Alt as they may be).
pub open spec fn plain(k: KeyPress, c: char) -> bool {
    !k.ctrl && k.code == KeyCode::Char(c)
}

/// The key `c` with neither Ctrl nor Shift.
pub open spec fn bare(k: KeyPress, c: char) -> bool {
    plain(k, c) && !k.shift
}

/// The key `c` with Shift and without Ctrl.
pub open spec fn shifted(k: KeyPress, c: char) -> bool {
    plain(k, c) && k.shift
}

/// The direction a focus key points: Shift+H/J/K/L, or Ctrl with
/// h/j/k/l.
pub open spec fn focus_key(k: KeyPress) -> Option<char> {
    if !k.ctrl {
        match k.code {
            KeyCode::Char('H') => Some('h'),
            KeyCode::Char('J') => Some('j'),
            KeyCode::Char('K') => Some('k'),
            KeyCode::Char('L') => Some('l'),
            _ => None,
        }
    } else {
        match k.code {
            KeyCode::Char('h') => Some('h'),
            KeyCode::Char('j') => Some('j'),
            KeyCode::Char('k') => Some('k'),
            KeyCode::Char('l') => Some('l'),
            _ => None,
        }
    }
}

fn focus_key_exec(k: KeyPress) -> (r: Option<char>)
    ensures
        r == focus_key(k),
{
    if !k.ctrl {
        match k.code {
            KeyCode::Char('H') => Some('h'),
            KeyCode::Char('J') => Some('j'),
            KeyCode::Char('K') => Some('k'),
            KeyCode::Char('L') => Some('l'),
            _ => None,
        }
    } else {
        match k.code {
            KeyCode::Char('h') => Some('h'),
            KeyCode::Char('j') => Some('j'),
            KeyCode::Char('k') => Some('k'),
            KeyCode::Char('l') => Some('l'),
            _ => None,
        }
    }
}

/// `c` with Ctrl held.
pub open spec fn ctrl(k: KeyPress, c: char) -> bool {
    k.ctrl && k.code == KeyCode::Char(c)
}

/// `post` is `pre` after taking the newest step off the undo (`redo`:
/// redo) stack and handing it to the front end to carry out.
pub open spec fn step_handed(pre: App, post: App, redo: bool) -> bool {
    exists|m: App, r: Option<crate::state::UndoAction>|
        #![trigger undo_taken(pre, m, r)]
        #![trigger redo_taken(pre, m, r)]
        {
            &&& if redo {
                redo_taken(pre, m, r)
            } else {
                undo_taken(pre, m, r)
            }
            &&& r is None ==> post == m
            &&& r matches Some(a) ==> effect_added(
                m,
                post,
                |e: Effect|
                    if redo {
                        e == Effect::Redo { action: a }
                    } else {
                        e == Effect::Undo { action: a }
                    },
            )
        }
}

/// `post` is `pre` after Space (backwards with Shift): the entry under the
/// cursor is marked or unmarked and the cursor moves on.
pub open spec fn space_marked(pre: App, post: App, delta: int) -> bool {
    match pre.active() {
        None => post == pre,
        Some(p) => exists|m: Pane|
            #![trigger mark_toggled(p, m, p.cursor)]
            mark_toggled(p, m, p.cursor) && pre.active_becomes(post, Pane { cursor: moved_cursor(m, delta), ..m }),
    }
}

/// `post` is `pre` after `key` (already folded to ASCII) in normal mode
/// over the panes.
pub open spec fn normal_table(pre: App, post: App, key: KeyPress) -> bool {
    if pre.pending_g && plain(key, 'g') {
        cursor_set(App { pending_g: false, ..pre }, post, |p: Pane| 0usize)
    } else {
        let a = App { pending_g: false, ..pre };
        if (key.code matches KeyCode::Char(c) && bound_action(a.keys.keymap@, c, key.ctrl, key.alt) is Some) {
            action_executed(a, post, bound_action(a.keys.keymap@, key.code->Char_0, key.ctrl, key.alt)->0)
        } else if (a.active() matches Some(p) && p.remote) && remote_reading(key) != RemoteReading::Pass {
            remote_keyed(a, post, remote_reading(key))
        } else if key.alt && (key.code == KeyCode::Left || key.code == KeyCode::Char('h')) {
            navigation_asked(a, post, NavTarget::Back)
        } else if key.alt && (key.code == KeyCode::Right || key.code == KeyCode::Char('l')) {
            navigation_asked(a, post, NavTarget::Forward)
        } else if plain(key, 'q') {
            quit_asked(a, post)
        } else if plain(key, ':') {
            command_mode_entered(a, post)
        } else if bare(key, 't') {
            new_tab_asked(a, post)
        } else if bare(key, 'f') {
            search_started(a, post)
        } else if plain(key, '/') {
            filter_started(a, post)
        } else if shifted(key, 'F') {
            find_prompted(a, post)
        } else if ctrl(key, 'a') {
            all_selected(a, post)
        } else if ctrl(key, 'f') || ctrl(key, 'g') {
            grep_prompted(a, post)
        } else if bare(key, 'z') {
            jump_prompted(a, post)
        } else if plain(key, 'n') {
            match_jumped(a, post, true)
        } else if plain(key, 'N') {
            match_jumped(a, post, false)
        } else if bare(key, 'h') {
            history_opened(a, post)
        } else if bare(key, 's') {
            shortcuts_opened(a, post)
        } else if bare(key, 'g') {
            post == (App { pending_g: true, ..a })
        } else if plain(key, 'G') {
            cursor_set(
                a,
                post,
                |p: Pane|
                    if p.entries@.len() > 0 {
                        (p.entries@.len() - 1) as usize
                    } else {
                        p.cursor
                    },
            )
        } else if plain(key, 'U') {
            cursor_set(a, post, |p: Pane| moved_cursor(p, -10))
        } else if plain(key, 'D') {
            cursor_set(a, post, |p: Pane| moved_cursor(p, 10))
        } else if plain(key, ' ') {
            space_marked(a, post, if key.shift { -1 } else { 1 })
        } else if bare(key, 'v') {
            visual_started(a, post)
        } else if bare(key, 'd') {
            delete_asked(a, post)
        } else if bare(key, 'u') || ctrl(key, 'z') {
            step_handed(a, post, false)
        } else if ctrl(key, 'y') || ctrl(key, 'Z') || ctrl(key, 'r') {
            step_handed(a, post, true)
        } else if bare(key, 'r') {
            rename_asked(a, post)
        } else if bare(key, 'a') {
            new_file_asked(a, post)
        } else if shifted(key, 'A') {
            new_dir_asked(a, post)
        } else if (bare(key, 'j') || key.code == KeyCode::Down) {
            cursor_set(a, post, |p: Pane| moved_cursor(p, 1))
        } else if (bare(key, 'k') || key.code == KeyCode::Up) {
            cursor_set(a, post, |p: Pane| moved_cursor(p, -1))
        } else if key.code == KeyCode::Left && !key.alt {
            post == (App { focused: FocusedPane::Left, last_file_pane: FocusedPane::Left, ..a })
        } else if key.code == KeyCode::Right && !key.alt {
            post == (App { focused: FocusedPane::Right, last_file_pane: FocusedPane::Right, ..a })
        } else if shifted(key, 'V') {
            marks_flipped(a, post)
        } else if key.code == KeyCode::Esc && !key.ctrl {
            pane_escaped(a, post)
        } else if key.code == KeyCode::Enter && !key.ctrl && !key.shift {
            effect_added(a, post, |e: Effect| e == Effect::OpenSelected)
        } else if key.code == KeyCode::Backspace {
            backed_up(a, post)
        } else if bare(key, 'c') {
            transfer_started(a, post, PendingOp::Copy)
        } else if bare(key, 'm') {
            transfer_started(a, post, PendingOp::Move)
        } else if bare(key, 'w') {
            tab_closed(a, post)
        } else if key.code == KeyCode::BackTab || (!key.ctrl && key.code == KeyCode::F(2)) {
            tab_switched(a, post, true)
        } else if !key.ctrl && key.code == KeyCode::F(1) {
            tab_switched(a, post, false)
        } else if !key.ctrl && key.code == KeyCode::F(9) {
            new_tab_asked(a, post)
        } else if !key.ctrl && key.code == KeyCode::F(10) {
            post == (App { popup: Popup::ConfirmCloseTab { side: side_of(a) }, ..a })
        } else if focus_key(key) is Some {
            focus_moved(a, post, focus_key(key)->0)
        } else if bare(key, 'p') {
            paths_copied(a, post)
        } else if shifted(key, 'P') {
            file_refs_copied(a, post)
        } else if bare(key, 'y') || (ctrl(key, 'v') && !key.shift) {
            clip_pasted(a, post)
        } else if ctrl(key, 'c') && !key.shift {
            targets_clipped(a, post, false)
        } else if ctrl(key, 'x') && !key.shift {
            targets_clipped(a, post, true)
        } else {
            effect_added(a, post, |e: Effect| e == Effect::NormalKey { key })
        }
    }
}


/// A full-width character (全角英数, U+FF01 to U+FF5E, and the ideographic
/// space) read as the ASCII one it stands for; any other key as it is.
pub open spec fn folded(k: KeyPress) -> KeyPress {
    match k.code {
        KeyCode::Char(c) => if 0xFF01 <= (c as u32) <= 0xFF5E {
            KeyPress { code: KeyCode::Char(((c as u32) - 0xFEE0) as char), ..k }
        } else if c == '\u{3000}' {
            KeyPress { code: KeyCode::Char(' '), ..k }
        } else {
            k
        },
        _ => k,
    }
}

/// `folded`.
pub fn fold_key(k: KeyPress) -> (r: KeyPress)
    ensures
        r == folded(k),
{
    match k.code {
        KeyCode::Char(c) => {
            let u = c as u32;
            if 0xFF01 <= u && u <= 0xFF5E {
                let b = (u - 0xFEE0) as u8;
                KeyPress { code: KeyCode::Char(b as char), ..k }
            } else if c == '\u{3000}' {
                KeyPress { code: KeyCode::Char(' '), ..k }
            } else {
                k
            }
        },
        _ => k,
    }
}

/// `post` is `pre` after `key` in normal mode over the panes: a full-width
/// key counts as its ASCII one.
pub open spec fn normal_keyed(pre: App, post: App, key: KeyPress) -> bool {
    normal_table(pre, post, folded(key))
}

impl App {
    fn hand_over_step(&mut self, redo: bool)
        ensures
            step_handed(*old(self), *final(self), redo),
    {
        let r = if redo {
            self.redo_last()
        } else {
            self.undo_last()
        };
        let ghost m = *self;
        let ghost rg = r;
        match r {
            Some(action) => {
                let ghost e0 = self.effects@;
                if redo {
                    self.effects.push(Effect::Redo { action });
                } else {
                    self.effects.push(Effect::Undo { action });
                }
                assert(self.effects@.drop_last() =~= e0);
            },
            None => {},
        }
        if redo {
            assert(redo_taken(*old(self), m, rg));
        } else {
            assert(undo_taken(*old(self), m, rg));
        }
    }

    pub(crate) fn space_mark(&mut self, back: bool)
        ensures
            space_marked(*old(self), *final(self), if back { -1 } else { 1 }),
    {
        let ghost start = *self;
        if let Some(mut p) = self.take_active() {
            let ghost taken = *self;
            let ghost p0 = p;
            let i = p.cursor;
            p.toggle_mark_at(i);
            let ghost m = p;
            p.move_cursor(if back { -1 } else { 1 });
            self.put_active(p);
            proof {
                crate::state::lemma_take_put(start, taken, *self, p);
                assert(mark_toggled(p0, m, p0.cursor));
            }
        }
    }

    /// A key in normal mode over the panes.
    #[verifier::rlimit(80)]
    pub fn handle_normal_key(&mut self, key: KeyPress)
        ensures
            normal_keyed(*old(self), *final(self), key),
    {
        let key = fold_key(key);
        let plain_c = !key.ctrl;
        if self.pending_g {
            self.pending_g = false;
            if plain_c && key.code == KeyCode::Char('g') {
                if self.active_pane().is_some() {
                    self.set_active_cursor(0);
                }
                return ;
            }
        }
        let c = match key.code {
            KeyCode::Char(c) => Some(c),
            _ => None,
        };
        let is = |ch: char| -> (b: bool)
            ensures
                b == plain(key, ch),
            { plain_c && c == Some(ch) };
        let is_bare = |ch: char| -> (b: bool)
            ensures
                b == bare(key, ch),
            { plain_c && !key.shift && c == Some(ch) };
        let is_shift = |ch: char| -> (b: bool)
            ensures
                b == shifted(key, ch),
            { plain_c && key.shift && c == Some(ch) };
        let is_ctrl = |ch: char| -> (b: bool)
            ensures
                b == ctrl(key, ch),
            { key.ctrl && c == Some(ch) };
        let bound = match c {
            Some(ch) => self.bound_key(ch, key.ctrl, key.alt),
            None => None,
        };
        let remote_here = match self.active_pane() {
            Some(p) => p.remote,
            None => false,
        };
        let rr = remote_reading_of(key);
        if let Some(action) = bound {
            self.execute_action(action);
        } else if remote_here && rr != RemoteReading::Pass {
            self.remote_key(rr);
        } else if key.alt && (key.code == KeyCode::Left || key.code == KeyCode::Char('h')) {
            self.ask_navigation(NavTarget::Back);
        } else if key.alt && (key.code == KeyCode::Right || key.code == KeyCode::Char('l')) {
            self.ask_navigation(NavTarget::Forward);
        } else if is('q') {
            self.start_quit_confirm();
        } else if is(':') {
            self.enter_command_mode();
        } else if is_bare('t') {
            self.ask_new_tab();
        } else if is_bare('f') {
            self.start_search();
        } else if is('/') {
            self.start_filter();
        } else if is_shift('F') {
            self.start_find_prompt();
        } else if is_ctrl('a') {
            self.mark_all();
        } else if is_ctrl('f') || is_ctrl('g') {
            self.start_grep_prompt();
        } else if is_bare('z') {
            self.start_jump_path();
        } else if is('n') {
            self.jump_to_next_match(true);
        } else if is('N') {
            self.jump_to_next_match(false);
        } else if is_bare('h') {
            self.start_history();
        } else if is_bare('s') {
            self.start_shortcuts();
        } else if is_bare('g') {
            self.pending_g = true;
        } else if is('G') {
            let last = match self.active_pane() {
                Some(p) => if p.entries.len() > 0 {
                    p.entries.len() - 1
                } else {
                    p.cursor
                },
                None => return ,
            };
            self.set_active_cursor(last);
        } else if is('U') {
            self.move_active(-10);
        } else if is('D') {
            self.move_active(10);
        } else if is(' ') {
            self.space_mark(key.shift);
        } else if is_bare('v') {
            self.visual_start();
        } else if is_bare('d') {
            self.start_delete();
        } else if is_bare('u') || is_ctrl('z') {
            self.hand_over_step(false);
        } else if is_ctrl('y') || is_ctrl('Z') || is_ctrl('r') {
            self.hand_over_step(true);
        } else if is_bare('r') {
            self.start_rename();
        } else if is_bare('a') {
            self.start_new_file();
        } else if is_shift('A') {
            self.start_new_dir();
        } else if is_bare('j') || key.code == KeyCode::Down {
            self.move_active(1);
        } else if is_bare('k') || key.code == KeyCode::Up {
            self.move_active(-1);
        } else if key.code == KeyCode::Left && !key.alt {
            self.focus(FocusedPane::Left);
        } else if key.code == KeyCode::Right && !key.alt {
            self.focus(FocusedPane::Right);
        } else if is_shift('V') {
            self.invert_active_marks();
        } else if key.code == KeyCode::Esc && !key.ctrl {
            self.escape_pane();
        } else if key.code == KeyCode::Enter && !key.ctrl && !key.shift {
            let ghost e0 = self.effects@;
            self.effects.push(Effect::OpenSelected);
            assert(self.effects@.drop_last() =~= e0);
        } else if key.code == KeyCode::Backspace {
            self.back_up();
        } else if is_bare('c') {
            self.start_transfer(PendingOp::Copy);
        } else if is_bare('m') {
            self.start_transfer(PendingOp::Move);
        } else if is_bare('w') {
            self.close_file_tab();
        } else if key.code == KeyCode::BackTab || (!key.ctrl && key.code == KeyCode::F(2)) {
            self.switch_file_tab(true);
        } else if !key.ctrl && key.code == KeyCode::F(1) {
            self.switch_file_tab(false);
        } else if !key.ctrl && key.code == KeyCode::F(9) {
            self.ask_new_tab();
        } else if !key.ctrl && key.code == KeyCode::F(10) {
            self.ask_close_tab();
        } else if let Some(d) = focus_key_exec(key) {
            self.focus_direction(d);
        } else if is_bare('p') {
            self.copy_paths_to_clipboard();
        } else if is_shift('P') {
            self.copy_file_refs_to_clipboard();
        } else if is_bare('y') || (is_ctrl('v') && !key.shift) {
            self.paste_clip();
        } else if is_ctrl('c') && !key.shift {
            self.clip_targets(false);
        } else if is_ctrl('x') && !key.shift {
            self.clip_targets(true);
        } else {
            let ghost e0 = self.effects@;
            self.effects.push(Effect::NormalKey { key });
            assert(self.effects@.drop_last() =~= e0);
        }
    }
}

} // verus!
