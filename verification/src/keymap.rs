//! The actions a key can be bound to, what each does, and the user's key
//! map: bindings laid over the default keys (`cian.set_keymap("x",
//! "delete")`), the later of two bindings of one key winning.
use vstd::prelude::*;

use crate::actions::{
    delete_asked, filter_started, find_prompted, grep_prompted, history_opened, jump_prompted, match_jumped,
    new_dir_asked, new_file_asked, new_tab_asked, quit_asked, rename_asked, search_started,
    visual_started,
};
use crate::commands::command_mode_entered;
use crate::lang::{tr_spec, tr_string};
use crate::marks::all_selected;
use crate::normal_keys::space_marked;
use crate::pane_keys::marks_flipped;
use crate::clipboard::{clip_pasted, file_refs_copied, paths_copied, targets_clipped};
use crate::prompt::effect_added;
use crate::shortcuts::shortcuts_opened;
use crate::state::{says, App, Effect, NavTarget, Pane, PendingOp};
use crate::tabs::tab_closed;
use crate::transfer_start::transfer_started;
use crate::visual::{cursor_set, moved_cursor};

verus! {

/// What a key can be bound to.
#[derive(Clone, Copy, Debug, PartialEq, Eq, Structural)]
pub enum Action {
    CursorDown,
    CursorUp,
    CursorTop,
    CursorBottom,
    PageUp,
    PageDown,
    Parent,
    EnterDir,
    Quit,
    Search,
    SearchNext,
    SearchPrev,
    History,
    Shortcuts,
    Copy,
    Move,
    Paste,
    Cut,
    Delete,
    Rename,
    NewFile,
    NewDir,
    OpenOther,
    OpenOtherTab,
    SyncFromOther,
    SyncToOther,
    OpenExternal,
    CopyPath,
    CopyFileRef,
    MarkDown,
    MarkUp,
    InvertMarks,
    MarkAll,
    Visual,
    Command,
    Filter,
    FindRecursive,
    GrepRecursive,
    Sort,
    JumpPath,
    View,
    Diff,
    Refresh,
    Menu,
    Ssh,
    NewTab,
    CloseTab,
    Manual,
    Nop,
}

/// One binding of the user's key map: the character with Ctrl and Alt as
/// given (Shift is carried by the character itself).
#[derive(Clone, Copy, Debug, PartialEq, Eq, Structural)]
pub struct KeyBinding {
    pub key: char,
    pub ctrl: bool,
    pub alt: bool,
    pub action: Action,
}

/// The action bound to `c` with these modifiers: the last binding of it.
pub open spec fn bound_action(map: Seq<KeyBinding>, c: char, ctrl: bool, alt: bool) -> Option<Action>
    decreases map.len(),
{
    if map.len() == 0 {
        None
    } else if map.last().key == c && map.last().ctrl == ctrl && map.last().alt == alt {
        Some(map.last().action)
    } else {
        bound_action(map.drop_last(), c, ctrl, alt)
    }
}

/// `post` is `pre` after `action`, as its default key does it.
pub open spec fn action_executed(pre: App, post: App, action: Action) -> bool {
    match action {
        Action::CursorDown => cursor_set(pre, post, |p: Pane| moved_cursor(p, 1)),
        Action::CursorUp => cursor_set(pre, post, |p: Pane| moved_cursor(p, -1)),
        Action::CursorTop => cursor_set(pre, post, |p: Pane| 0usize),
        Action::CursorBottom => cursor_set(
            pre,
            post,
            |p: Pane|
                if p.entries@.len() > 0 {
                    (p.entries@.len() - 1) as usize
                } else {
                    p.cursor
                },
        ),
        Action::PageUp => cursor_set(pre, post, |p: Pane| moved_cursor(p, -10)),
        Action::PageDown => cursor_set(pre, post, |p: Pane| moved_cursor(p, 10)),
        Action::Parent => effect_added(pre, post, |e: Effect| e == Effect::Navigate { to: NavTarget::Parent }),
        Action::EnterDir => match pre.active() {
            Some(p) => if p.cursor < p.entries@.len() && p.entries@[p.cursor as int].is_dir {
                if p.in_archive {
                    effect_added(pre, post, |e: Effect| e == Effect::OpenSelected)
                } else {
                    effect_added(
                        pre,
                        post,
                        |e: Effect|
                            e matches Effect::Navigate { to: NavTarget::Path(x) } && x@ == p.entries@[p.cursor as int].path@,
                    )
                }
            } else {
                post == pre
            },
            None => post == pre,
        },
        Action::Quit => quit_asked(pre, post),
        Action::Search => search_started(pre, post),
        Action::SearchNext => match_jumped(pre, post, true),
        Action::SearchPrev => match_jumped(pre, post, false),
        Action::History => history_opened(pre, post),
        Action::Shortcuts => shortcuts_opened(pre, post),
        Action::Copy => transfer_started(pre, post, PendingOp::Copy),
        Action::Move => transfer_started(pre, post, PendingOp::Move),
        Action::Delete => delete_asked(pre, post),
        Action::Rename => rename_asked(pre, post),
        Action::NewFile => new_file_asked(pre, post),
        Action::NewDir => new_dir_asked(pre, post),
        Action::MarkDown => space_marked(pre, post, 1),
        Action::MarkUp => space_marked(pre, post, -1),
        Action::InvertMarks => marks_flipped(pre, post),
        Action::CopyPath => paths_copied(pre, post),
        Action::CopyFileRef => file_refs_copied(pre, post),
        Action::Paste => clip_pasted(pre, post),
        Action::Cut => targets_clipped(pre, post, true),
        Action::MarkAll => all_selected(pre, post),
        Action::Visual => visual_started(pre, post),
        Action::Command => command_mode_entered(pre, post),
        Action::Filter => filter_started(pre, post),
        Action::FindRecursive => find_prompted(pre, post),
        Action::GrepRecursive => grep_prompted(pre, post),
        Action::JumpPath => jump_prompted(pre, post),
        Action::Refresh => {
            &&& post == (App { message: post.message, effects: post.effects, ..pre })
            &&& post.effects@ == pre.effects@.push(Effect::ReloadPanes)
            &&& says(post.message, tr_spec(pre.lang, "refreshed"@, "更新しました"@))
        },
        Action::NewTab => new_tab_asked(pre, post),
        Action::CloseTab => tab_closed(pre, post),
        Action::Manual => effect_added(pre, post, |e: Effect| e == Effect::OpenManual),
        Action::Nop => post == pre,
        _ => effect_added(pre, post, |e: Effect| e == Effect::RunAction { action }),
    }
}

/// Binding `c` (with `ctrl`, `alt`) to `action` makes it the key's action
/// and leaves every other key's as it was.
pub proof fn law_binding_wins(map: Seq<KeyBinding>, b: KeyBinding, c: char, ctrl: bool, alt: bool)
    ensures
        bound_action(map.push(b), b.key, b.ctrl, b.alt) == Some(b.action),
        !(c == b.key && ctrl == b.ctrl && alt == b.alt) ==> bound_action(map.push(b), c, ctrl, alt)
            == bound_action(map, c, ctrl, alt),
{
    assert(map.push(b).drop_last() =~= map);
}

impl App {
    fn hand_over(&mut self, e: Effect)
        ensures
            effect_added(*old(self), *final(self), |x: Effect| x == e),
    {
        let ghost e0 = self.effects@;
        self.effects.push(e);
        assert(self.effects@.drop_last() =~= e0);
    }

    /// Run `action` as its default key would.
    pub fn execute_action(&mut self, action: Action)
        ensures
            action_executed(*old(self), *final(self), action),
    {
        match action {
            Action::CursorDown => self.move_active(1),
            Action::CursorUp => self.move_active(-1),
            Action::CursorTop => {
                if self.active_pane().is_some() {
                    self.set_active_cursor(0);
                }
            },
            Action::CursorBottom => {
                let last = match self.active_pane() {
                    Some(p) => if p.entries.len() > 0 {
                        p.entries.len() - 1
                    } else {
                        p.cursor
                    },
                    None => return ,
                };
                self.set_active_cursor(last);
            },
            Action::PageUp => self.move_active(-10),
            Action::PageDown => self.move_active(10),
            Action::Parent => self.hand_over(Effect::Navigate { to: NavTarget::Parent }),
            Action::EnterDir => {
                let (dir, in_archive, path) = match self.active_pane() {
                    Some(p) => if p.cursor < p.entries.len() && p.entries[p.cursor].is_dir {
                        (true, p.in_archive, p.entries[p.cursor].path.clone())
                    } else {
                        return ;
                    },
                    None => return ,
                };
                if dir {
                    if in_archive {
                        self.hand_over(Effect::OpenSelected);
                    } else {
                        let ghost e0 = self.effects@;
                        self.effects.push(Effect::Navigate { to: NavTarget::Path(path) });
                        assert(self.effects@.drop_last() =~= e0);
                    }
                }
            },
            Action::Quit => self.start_quit_confirm(),
            Action::Search => self.start_search(),
            Action::SearchNext => self.jump_to_next_match(true),
            Action::SearchPrev => self.jump_to_next_match(false),
            Action::History => self.start_history(),
            Action::Shortcuts => self.start_shortcuts(),
            Action::Copy => self.start_transfer(PendingOp::Copy),
            Action::Move => self.start_transfer(PendingOp::Move),
            Action::Delete => self.start_delete(),
            Action::Rename => self.start_rename(),
            Action::NewFile => self.start_new_file(),
            Action::NewDir => self.start_new_dir(),
            Action::MarkDown => self.space_mark(false),
            Action::MarkUp => self.space_mark(true),
            Action::InvertMarks => self.invert_active_marks(),
            Action::CopyPath => self.copy_paths_to_clipboard(),
            Action::CopyFileRef => self.copy_file_refs_to_clipboard(),
            Action::Paste => self.paste_clip(),
            Action::Cut => self.clip_targets(true),
            Action::MarkAll => self.mark_all(),
            Action::Visual => self.visual_start(),
            Action::Command => self.enter_command_mode(),
            Action::Filter => self.start_filter(),
            Action::FindRecursive => self.start_find_prompt(),
            Action::GrepRecursive => self.start_grep_prompt(),
            Action::JumpPath => self.start_jump_path(),
            Action::Refresh => {
                let ghost e0 = self.effects@;
                self.effects.push(Effect::ReloadPanes);
                assert(self.effects@.drop_last() =~= e0);
                self.message = Some(tr_string(self.lang, "refreshed", "更新しました"));
            },
            Action::NewTab => self.ask_new_tab(),
            Action::CloseTab => self.close_file_tab(),
            Action::Manual => self.hand_over(Effect::OpenManual),
            Action::Nop => {},
            _ => self.hand_over(Effect::RunAction { action }),
        }
    }

    /// The action the user's key map binds to `c` with these modifiers.
    pub fn bound_key(&self, c: char, ctrl: bool, alt: bool) -> (r: Option<Action>)
        ensures
            r == bound_action(self.keys.keymap@, c, ctrl, alt),
    {
        let mut i = self.keys.keymap.len();
        assert(self.keys.keymap@.subrange(0, i as int) =~= self.keys.keymap@);
        while i > 0
            invariant
                i <= self.keys.keymap@.len(),
                bound_action(self.keys.keymap@, c, ctrl, alt) == bound_action(self.keys.keymap@.subrange(0, i as int), c, ctrl, alt),
            decreases i,
        {
            let b = self.keys.keymap[i - 1];
            assert(self.keys.keymap@.subrange(0, i as int).drop_last() =~= self.keys.keymap@.subrange(0, i - 1));
            if b.key == c && b.ctrl == ctrl && b.alt == alt {
                return Some(b.action);
            }
            i -= 1;
        }
        assert(self.keys.keymap@.subrange(0, 0) =~= Seq::<KeyBinding>::empty());
        None
    }

    /// `cian.set_keymap`: bind `key` (with `ctrl`, `alt`) to `action`, over
    /// its default and any earlier binding.
    pub fn bind_key(&mut self, key: char, ctrl: bool, alt: bool, action: Action)
        ensures
            *final(self) == (App { keys: crate::state::KeyState { keymap: final(self).keys.keymap, ..old(self).keys }, ..*old(self) }),
            final(self).keys.keymap@ == old(self).keys.keymap@.push(KeyBinding { key, ctrl, alt, action }),
    {
        self.keys.keymap.push(KeyBinding { key, ctrl, alt, action });
    }
}

} // verus!
