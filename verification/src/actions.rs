//! Commands on the application state that do not belong to a bigger feature:
//! visual selection, the delete/rename/create prompts, search and filter,
//! sending commands to the shell, snippets, the destination picker, the
//! operation queue and undo history.
use vstd::prelude::*;

use crate::count::{decimal, decimal_chars};
use crate::lang::{tr, tr_spec, tr_string, tr_with, Lang};
use crate::state::{
    lemma_take_put, path_views, says, App, ChatMode, Effect, Entry, FocusedPane, InputKind, KeyCode,
    Mode, Pane, PendingOp, Popup,
};
use crate::text::{
    chars_of, contains_chars, contains_seq, lowercase, string_of, to_lowercase, trim, trim_chars,
};

verus! {

/// `new` is `old` with only the popup changed.
pub open spec fn popup_only(old: App, new: App) -> bool {
    new == (App { popup: new.popup, ..old })
}

/// `new` is `old` with only the message changed.
pub open spec fn message_only(old: App, new: App) -> bool {
    new == (App { message: new.message, ..old })
}

/// A text prompt with this title, prompt line and starting text, the
/// caret at the end of the text and nothing selected.
pub open spec fn is_prompt(p: Popup, title: Seq<char>, prompt: Seq<char>, buffer: Seq<char>) -> bool {
    p matches Popup::TextInput { title: t, prompt: q, buffer: b, cursor: c, select_all: s, .. } && t@ == title
        && q@ == prompt && b@ == buffer && c == buffer.len() && !s
}

/// A text prompt.
pub fn text_input(title: &str, prompt: &str, buffer: String, kind: InputKind) -> (p: Popup)
    ensures
        p matches Popup::TextInput { title: t, prompt: q, buffer: b, cursor: c, select_all: s, kind: k }
            && t@ == title@ && q@ == prompt@ && b == buffer && k == kind && c == buffer@.len() && !s,
{
    let cursor = crate::text::chars_of(buffer.as_str()).len();
    Popup::TextInput { title: title.to_owned(), prompt: prompt.to_owned(), buffer, cursor, select_all: false, kind }
}

/// `p` with exactly the marks of `old` plus the entries `lo..=hi` (never `..`).
pub open spec fn marks_range_added(old: Pane, p: Pane, lo: int, hi: int) -> bool {
    &&& p == (Pane { marks: p.marks, ..old })
    &&& forall|x: Seq<char>| p.has_mark(x) <==> (old.has_mark(x) || exists|i: int|
        lo <= i <= hi && 0 <= i < old.entries@.len() && !old.entries@[i].is_parent
            && old.entries@[i].path@ == x)
}

impl Pane {
    /// Mark the entries `a..=b` (never `..`).
    pub fn mark_range(&mut self, a: usize, b: usize)
        requires
            a <= b,
        ensures
            marks_range_added(*old(self), *final(self), a as int, b as int),
    {
        let ghost p0 = *self;
        let mut i = a;
        loop
            invariant
                a <= i <= b,
                p0 == *old(self),
                marks_range_added(p0, *self, a as int, i - 1),
            decreases b - i,
        {
            let ghost before = *self;
            self.set_mark_at(i);
            proof {
                lemma_mark_step(p0, before, *self, a as int, i as int);
            }
            if i == b {
                return;
            }
            i = i + 1;
        }
    }
}

proof fn lemma_mark_step(p0: Pane, before: Pane, p: Pane, a: int, i: int)
    requires
        0 <= a <= i,
        marks_range_added(p0, before, a, i - 1),
        p == (Pane { marks: p.marks, ..before }),
        (i < before.entries@.len() && !before.entries@[i].is_parent && !before.marked_at(i))
            ==> p.marks@ == before.marks@.push(before.entries@[i].path),
        !(i < before.entries@.len() && !before.entries@[i].is_parent && !before.marked_at(i))
            ==> p.marks@ == before.marks@,
    ensures
        marks_range_added(p0, p, a, i),
{
    assert forall|x: Seq<char>| p.has_mark(x) <== (p0.has_mark(x) || exists|k: int|
        a <= k <= i && 0 <= k < p0.entries@.len() && !p0.entries@[k].is_parent
            && p0.entries@[k].path@ == x) by {
        if p0.has_mark(x) || exists|k: int| a <= k <= i - 1 && 0 <= k < p0.entries@.len()
            && !p0.entries@[k].is_parent && p0.entries@[k].path@ == x {
            assert(before.has_mark(x));
            lemma_push_keeps_marks(before, p, x);
        } else if i < p0.entries@.len() && !p0.entries@[i].is_parent && p0.entries@[i].path@ == x {
            if before.marked_at(i) {
            } else {
                assert(path_views(p.marks@)[before.marks@.len() as int] == x);
            }
        }
    }
    assert forall|x: Seq<char>| p.has_mark(x) ==> (p0.has_mark(x) || exists|k: int|
        a <= k <= i && 0 <= k < p0.entries@.len() && !p0.entries@[k].is_parent
            && p0.entries@[k].path@ == x) by {
        if p.has_mark(x) && !before.has_mark(x) {
            lemma_new_mark_is_entry(before, p, i, x);
        }
    }
}

/// `post` is `pre` after Enter (or `v`) in visual mode: back to normal
/// mode, with the entries between the anchor and the cursor added to the
/// marks.
pub open spec fn visual_committed(pre: App, post: App) -> bool {
    &&& pre.visual_anchor is None ==> post == (App { mode: Mode::Normal, ..pre })
    &&& pre.visual_anchor matches Some(a) ==> (pre.active() matches Some(p) ==> {
        &&& (App { visual_anchor: None, mode: Mode::Normal, ..pre }).active_becomes(
            post,
            post.active().unwrap(),
        )
        &&& marks_range_added(
            p,
            post.active().unwrap(),
            if a <= p.cursor { a as int } else { p.cursor as int },
            if a <= p.cursor { p.cursor as int } else { a as int },
        )
    })
    &&& pre.visual_anchor is Some && pre.active() is None ==> post == (App {
        visual_anchor: None,
        mode: Mode::Normal,
        ..pre
    })
}

/// `post` is `pre` after Esc in visual mode: back to normal mode, every
/// mark dropped.
pub open spec fn visual_cleared(pre: App, post: App) -> bool {
    &&& pre.active() matches Some(p) ==> (App { visual_anchor: None, mode: Mode::Normal, ..pre }).active_becomes(
        post,
        Pane { marks: post.active().unwrap().marks, ..p },
    ) && post.active().unwrap().marks@.len() == 0
    &&& pre.active() is None ==> post == (App {
        visual_anchor: None,
        mode: Mode::Normal,
        ..pre
    })
}

/// `post` is `pre` after `App::visual_start`.
pub open spec fn visual_started(pre: App, post: App) -> bool {
    &&& pre.active() matches Some(p) ==> post == (App {
        visual_anchor: Some(p.cursor),
        mode: Mode::Visual,
        ..pre
    })
    &&& pre.active() is None ==> post == pre
}

impl App {
    /// `v`: start a visual selection at the cursor.
    pub fn visual_start(&mut self)
        ensures
            visual_started(*old(self), *final(self)),
    {
        if let Some(p) = self.active_pane() {
            let c = p.cursor;
            self.visual_anchor = Some(c);
            self.mode = Mode::Visual;
        }
    }

    /// Mark everything between the anchor and the cursor, and leave visual mode.
    pub fn visual_commit(&mut self)
        ensures
            visual_committed(*old(self), *final(self)),
    {
        let anchor = match self.visual_anchor {
            Some(a) => a,
            None => {
                self.mode = Mode::Normal;
                return;
            },
        };
        self.visual_anchor = None;
        self.mode = Mode::Normal;
        let ghost mid = *self;
        if let Some(mut p) = self.take_active() {
            let ghost after_take = *self;
            let cur = p.cursor;
            let (a, b) = if anchor <= cur { (anchor, cur) } else { (cur, anchor) };
            p.mark_range(a, b);
            self.put_active(p);
            proof {
                lemma_take_put(mid, after_take, *self, p);
            }
        }
    }

    /// Esc in visual mode: drop the selection and every mark.
    pub fn visual_cancel_and_clear_all(&mut self)
        ensures
            visual_cleared(*old(self), *final(self)),
    {
        self.visual_anchor = None;
        self.mode = Mode::Normal;
        let ghost mid = *self;
        if let Some(mut p) = self.take_active() {
            let ghost after_take = *self;
            p.clear_marks();
            self.put_active(p);
            proof {
                lemma_take_put(mid, after_take, *self, p);
            }
        }
    }
}

/// `post` is `pre` after `.`: dotfiles shown or hidden in the active pane.
pub open spec fn hidden_toggled(pre: App, post: App) -> bool {
    &&& pre.active() matches Some(p) ==> (App { message: post.message, ..pre }).active_becomes(
        post,
        Pane { show_hidden: !p.show_hidden, ..p },
    ) && says(
        post.message,
        if !p.show_hidden { "showing dotfiles"@ } else { "hiding dotfiles"@ },
    )
    &&& pre.active() is None ==> post == pre
}

/// `post` is `pre` with the active pane's history listed (or the message
/// saying there is none).
pub open spec fn history_opened(pre: App, post: App) -> bool {
    &&& (pre.active() matches Some(p) && p.history@.len() > 0) ==> {
        &&& popup_only(pre, post)
        &&& post.popup matches Popup::History { entries, cursor }
        &&& cursor == 0
        &&& entries@ == pre.active().unwrap().history@
    }
    &&& !(pre.active() matches Some(p) && p.history@.len() > 0) ==> post == (App {
        message: post.message,
        ..pre
    }) && says(post.message, tr_spec(pre.lang, "no history yet"@, "履歴がまだありません"@))
}

/// `post` is `pre` after `App::start_quit_confirm`.
pub open spec fn quit_asked(pre: App, post: App) -> bool {
    &&& post == (App { popup: Popup::ConfirmQuit, ..pre })
}

/// `post` is `pre` after `App::ask_new_tab`.
pub open spec fn new_tab_asked(pre: App, post: App) -> bool {
    &&& post == (App { popup: Popup::ConfirmNewTab { side: pre.here() }, ..pre })
}

/// `post` is `pre` after `App::start_search`.
pub open spec fn search_started(pre: App, post: App) -> bool {
    &&& post == (App { popup: post.popup, mode: Mode::Search, ..pre })
    &&& post.popup matches Popup::Search { buffer } && buffer@.len() == 0
}

/// `post` is `pre` after `App::start_filter`.
pub open spec fn filter_started(pre: App, post: App) -> bool {
    &&& post == (App { filter_buffer: post.filter_buffer, mode: Mode::Filter, ..pre })
    &&& pre.active() matches Some(p) ==> post.filter_buffer@ == p.filter@
    &&& pre.active() is None ==> post.filter_buffer@.len() == 0
}

/// `post` is `pre` after `App::start_find_prompt`.
pub open spec fn find_prompted(pre: App, post: App) -> bool {
    &&& post == (App { popup: post.popup, ..pre })
    &&& is_prompt(post.popup, "find (recursive)"@,
        "name contains   (Ctrl+V paste, Ctrl+A select all):"@, seq![])
    &&& post.popup->kind is FindRecursive
}

/// `post` is `pre` after `App::start_grep_prompt`.
pub open spec fn grep_prompted(pre: App, post: App) -> bool {
    &&& post == (App { popup: post.popup, ..pre })
    &&& is_prompt(post.popup, "grep (recursive)"@,
        "text inside files   (Ctrl+V paste, Ctrl+A select all):"@, seq![])
    &&& post.popup->kind is GrepRecursive
}

/// `post` is `pre` after `App::start_jump_path`.
pub open spec fn jump_prompted(pre: App, post: App) -> bool {
    &&& App::jump_prompt_opened(pre, post)
}

/// `post` is `pre` after `App::start_delete`.
pub open spec fn delete_asked(pre: App, post: App) -> bool {
    &&& pre.in_archive() ==> post == (App { effects: post.effects, ..pre })
        && post.effects@ == pre.effects@.push(Effect::ArchiveDelete)
    &&& !pre.in_archive() && pre.active() is None ==> post == pre
    &&& !pre.in_archive() && pre.active() is Some && pre.targets().len() == 0
        ==> post == (App { message: post.message, ..pre }) && says(
        post.message,
        tr_spec(pre.lang, "nothing to delete"@, "削除する対象がありません"@),
    )
    &&& !pre.in_archive() && pre.active() is Some && pre.targets().len() > 0
        ==> {
        &&& popup_only(pre, post)
        &&& post.popup matches Popup::ConfirmDelete { targets }
        &&& path_views(targets@) == pre.targets()
    }
}

/// `post` is `pre` after `App::start_rename`.
pub open spec fn rename_asked(pre: App, post: App) -> bool {
    &&& pre.in_archive() ==> post == (App { effects: post.effects, ..pre })
        && post.effects@ == pre.effects@.push(Effect::ArchiveRenameStart)
    &&& !pre.in_archive() && (pre.active() matches Some(p) && p.cursor
        < p.entries@.len()) ==> {
        let e = pre.active().unwrap().entries@[pre.active().unwrap().cursor as int];
        &&& popup_only(pre, post)
        &&& is_prompt(post.popup, "rename"@, "new name:"@, e.name@)
        &&& post.popup->kind matches InputKind::Rename { original }
        &&& original@ == e.path@
    }
    &&& !pre.in_archive() && !(pre.active() matches Some(p) && p.cursor
        < p.entries@.len()) ==> post == pre
}

/// `post` is `pre` after `App::start_new_file`.
pub open spec fn new_file_asked(pre: App, post: App) -> bool {
    &&& pre.active() matches Some(p) ==> {
        &&& popup_only(pre, post)
        &&& is_prompt(post.popup, "new file"@, "name:"@, seq![])
        &&& post.popup->kind matches InputKind::NewFile { parent }
        &&& parent@ == p.cwd@
    }
    &&& pre.active() is None ==> post == pre
}

/// `post` is `pre` after `App::start_new_dir`.
pub open spec fn new_dir_asked(pre: App, post: App) -> bool {
    &&& pre.active() matches Some(p) ==> {
        &&& popup_only(pre, post)
        &&& is_prompt(post.popup, "new directory"@, "name:"@, seq![])
        &&& post.popup->kind matches InputKind::NewDir { parent }
        &&& parent@ == p.cwd@
    }
    &&& pre.active() is None ==> post == pre
}

impl App {
    /// Is the active pane browsing inside an archive?
    pub open spec fn in_archive(self) -> bool {
        self.active() matches Some(p) && p.in_archive
    }

    fn in_archive_exec(&self) -> (b: bool)
        ensures
            b == self.in_archive(),
    {
        match self.active_pane() {
            Some(p) => p.in_archive,
            None => false,
        }
    }

    /// `d`: ask before deleting the targets.
    pub fn start_delete(&mut self)
        ensures
            delete_asked(*old(self), *final(self)),
    {
        if self.in_archive_exec() {
            self.effect(Effect::ArchiveDelete);
            return;
        }
        let targets = match self.active_pane() {
            Some(p) => p.target_paths(),
            None => return,
        };
        if targets.len() == 0 {
            self.message = Some(tr_string(self.lang, "nothing to delete", "削除する対象がありません"));
            return;
        }
        self.open_popup(Popup::ConfirmDelete { targets });
    }

    /// `r`: prompt for a new name for the entry under the cursor.
    pub fn start_rename(&mut self)
        ensures
            rename_asked(*old(self), *final(self)),
    {
        if self.in_archive_exec() {
            self.effect(Effect::ArchiveRenameStart);
            return;
        }
        let Some(p) = self.active_pane() else { return };
        let Some(e) = p.selected() else { return };
        let name = e.name.clone();
        let original = e.path.clone();
        self.open_popup(text_input("rename", "new name:", name, InputKind::Rename { original }));
    }

    /// `:renamepattern`: prompt for a pattern to rename the targets by.
    pub fn start_bulk_rename(&mut self)
        ensures
            old(self).targets().len() == 0 ==> *final(self) == (App { message: final(self).message, ..*old(self) })
                && says(
                final(self).message,
                tr_spec(old(self).lang, "nothing selected to rename"@, "リネーム対象がありません"@),
            ),
            old(self).targets().len() > 0 ==> {
                &&& popup_only(*old(self), *final(self))
                &&& is_prompt(final(self).popup, "bulk rename"@,
                    "pattern:  {name}_{n3}.{ext}   or   s/regex/replacement/gi"@, seq![])
                &&& final(self).popup->kind matches InputKind::BulkRenamePattern { targets }
                &&& path_views(targets@) == old(self).targets()
            },
    {
        let targets = self.target_paths();
        if targets.len() == 0 {
            self.message = Some(tr_string(self.lang, "nothing selected to rename", "リネーム対象がありません"));
            return;
        }
        self.open_popup(
            text_input(
                "bulk rename",
                "pattern:  {name}_{n3}.{ext}   or   s/regex/replacement/gi",
                String::new(),
                InputKind::BulkRenamePattern { targets },
            ),
        );
    }

    /// Prompt for the name of a new file in the active pane's directory.
    pub fn start_new_file(&mut self)
        ensures
            new_file_asked(*old(self), *final(self)),
    {
        let Some(p) = self.active_pane() else { return };
        let parent = p.cwd.clone();
        self.open_popup(text_input("new file", "name:", String::new(), InputKind::NewFile { parent }));
    }

    /// Prompt for the name of a new directory in the active pane's directory.
    pub fn start_new_dir(&mut self)
        ensures
            new_dir_asked(*old(self), *final(self)),
    {
        let Some(p) = self.active_pane() else { return };
        let parent = p.cwd.clone();
        self.open_popup(
            text_input("new directory", "name:", String::new(), InputKind::NewDir { parent }),
        );
    }

    /// `/`: open the search prompt.
    pub fn start_search(&mut self)
        ensures
            search_started(*old(self), *final(self)),
    {
        self.open_popup(Popup::Search { buffer: String::new() });
        self.mode = Mode::Search;
    }

    /// `:history` / the history list of the active pane.
    pub fn start_history(&mut self)
        ensures
            history_opened(*old(self), *final(self)),
    {
        let entries = match self.active_pane() {
            Some(p) => p.history.clone(),
            None => Vec::new(),
        };
        if entries.len() == 0 {
            self.message = Some(tr_string(self.lang, "no history yet", "履歴がまだありません"));
            return;
        }
        self.open_popup(Popup::History { entries, cursor: 0 });
    }

    /// `f`: start narrowing the listing, from the pane's current filter.
    pub fn start_filter(&mut self)
        ensures
            filter_started(*old(self), *final(self)),
    {
        self.filter_buffer = match self.active_pane() {
            Some(p) => p.filter.clone(),
            None => String::new(),
        };
        self.mode = Mode::Filter;
    }

    /// Apply the filter being typed to the active pane.
    pub fn apply_filter_buffer(&mut self)
        ensures
            old(self).active() matches Some(p) ==> old(self).active_becomes(
                *final(self),
                Pane { filter: final(self).active().unwrap().filter, ..p },
            ) && final(self).active().unwrap().filter@ == old(self).filter_buffer@,
            old(self).active() is None ==> *final(self) == *old(self),
    {
        let buf = self.filter_buffer.clone();
        let ghost start = *self;
        if let Some(mut p) = self.take_active() {
            let ghost taken = *self;
            p.filter = buf;
            self.put_active(p);
            proof {
                lemma_take_put(start, taken, *self, p);
            }
        }
    }

    /// `:find` prompt.
    pub fn start_find_prompt(&mut self)
        ensures
            find_prompted(*old(self), *final(self)),
    {
        self.open_popup(
            text_input(
                "find (recursive)",
                "name contains   (Ctrl+V paste, Ctrl+A select all):",
                String::new(),
                InputKind::FindRecursive,
            ),
        );
    }

    /// `:grep` prompt.
    pub fn start_grep_prompt(&mut self)
        ensures
            grep_prompted(*old(self), *final(self)),
    {
        self.open_popup(
            text_input(
                "grep (recursive)",
                "text inside files   (Ctrl+V paste, Ctrl+A select all):",
                String::new(),
                InputKind::GrepRecursive,
            ),
        );
    }

    /// `b` is `a` with the prompt for a path to jump to open, seeded with
    /// where the pane is.
    pub open spec fn jump_prompt_opened(a: App, b: App) -> bool {
        &&& b == (App { popup: b.popup, ..a })
        &&& is_prompt(
            b.popup,
            "go to path"@,
            "directory to enter, or file to open:"@,
            match a.active() {
                Some(p) => p.cwd@,
                None => seq![],
            },
        )
        &&& b.popup->kind is JumpPath
    }

    /// Prompt for a path to jump to, seeded with where the pane is.
    pub fn start_jump_path(&mut self)
        ensures
            jump_prompted(*old(self), *final(self)),
    {
        let here = match self.active_pane() {
            Some(p) => p.cwd.clone(),
            None => String::new(),
        };
        self.open_popup(
            text_input("go to path", "directory to enter, or file to open:", here, InputKind::JumpPath),
        );
    }

    /// `q`: ask before quitting.
    pub fn start_quit_confirm(&mut self)
        ensures
            quit_asked(*old(self), *final(self)),
    {
        self.open_popup(Popup::ConfirmQuit);
    }

    /// Ask before opening a tab on the side being worked in.
    pub fn ask_new_tab(&mut self)
        ensures
            new_tab_asked(*old(self), *final(self)),
    {
        let side = match self.focused {
            FocusedPane::Shell => self.last_file_pane,
            p => p,
        };
        self.open_popup(Popup::ConfirmNewTab { side });
    }

    /// `.`: show or hide dotfiles in the active pane.
    pub fn toggle_hidden(&mut self)
        ensures
            hidden_toggled(*old(self), *final(self)),
    {
        let ghost start = *self;
        if let Some(mut p) = self.take_active() {
            let ghost taken = *self;
            let show = !p.show_hidden;
            p.show_hidden = show;
            self.put_active(p);
            proof {
                lemma_take_put(start, taken, *self, p);
            }
            let ghost before_msg = *self;
            self.message = Some(if show { "showing dotfiles".to_owned() } else { "hiding dotfiles".to_owned() });
            proof {
                reveal(App::same_but_active);
            }
        }
    }
}

/// `new` holds exactly the effects of `old` and one more, at the end.
pub open spec fn one_more(old: Seq<Effect>, new: Seq<Effect>) -> bool {
    new.len() == old.len() + 1 && new.take(old.len() as int) == old
}

/// The first entry whose lowercased name contains `ql`.
pub open spec fn first_hit(es: Seq<Entry>, ql: Seq<char>) -> Option<int>
    decreases es.len(),
{
    if es.len() == 0 {
        None
    } else if contains_seq(lowercase(es[0].name@), ql) {
        Some(0)
    } else {
        match first_hit(es.drop_first(), ql) {
            Some(i) => Some(i + 1),
            None => None,
        }
    }
}

/// One step round a listing of `n` entries, either way, wrapping.
pub open spec fn wrap_step(i: int, n: int, forward: bool) -> int {
    if forward {
        (i + 1) % n
    } else {
        (i + n - 1) % n
    }
}

/// Where the `k`-th step from `start` lands.
pub open spec fn probe(start: int, n: int, forward: bool, k: nat) -> int
    decreases k,
{
    if k == 0 {
        start
    } else {
        wrap_step(probe(start, n, forward, (k - 1) as nat), n, forward)
    }
}

/// The first of steps `k..=n` from `start` that lands on a match.
pub open spec fn next_hit(es: Seq<Entry>, ql: Seq<char>, start: int, forward: bool, k: nat) -> Option<int>
    decreases es.len() + 1 - k,
{
    if k > es.len() || k == 0 {
        None
    } else {
        let i = probe(start, es.len() as int, forward, k);
        if 0 <= i < es.len() && contains_seq(lowercase(es[i].name@), ql) {
            Some(i)
        } else {
            next_hit(es, ql, start, forward, k + 1)
        }
    }
}

fn lowered_chars(s: &String) -> (out: Vec<char>)
    ensures
        out@ == lowercase(s@),
{
    let l = to_lowercase(s.as_str());
    chars_of(l.as_str())
}

fn first_hit_exec(es: &Vec<Entry>, ql: &Vec<char>) -> (r: Option<usize>)
    ensures
        r matches Some(i) ==> first_hit(es@, ql@) == Some(i as int),
        r is None ==> first_hit(es@, ql@) is None,
{
    let mut i: usize = 0;
    assert(es@.skip(0) =~= es@);
    while i < es.len()
        invariant
            i <= es.len(),
            first_hit(es@, ql@) == match first_hit(es@.skip(i as int), ql@) {
                Some(k) => Some(k + i),
                None => None,
            },
        decreases es.len() - i,
    {
        let name = lowered_chars(&es[i].name);
        let ghost rest = es@.skip(i as int);
        assert(rest[0] == es@[i as int]);
        assert(rest.drop_first() =~= es@.skip(i + 1));
        if contains_chars(name.as_slice(), ql.as_slice()) {
            return Some(i);
        }
        i += 1;
    }
    None
}

/// `post` is `pre` after Enter in the search box: it closes, and a
/// non-blank query is remembered and the cursor goes to the first entry
/// whose name contains it (ignoring case), or the message says none does.
pub open spec fn search_finished(pre: App, post: App) -> bool {
    &&& !(pre.popup is Search) ==> post == (App { popup: Popup::Closed, ..pre })
    &&& pre.popup matches Popup::Search { buffer } ==> {
        let q = trim(buffer@);
        let mid = App {
            popup: Popup::Closed,
            mode: Mode::Normal,
            last_search_query: post.last_search_query,
            ..pre
        };
        &&& q.len() == 0 ==> post == (App { popup: Popup::Closed, mode: Mode::Normal, ..pre })
        &&& q.len() > 0 ==> {
            &&& post.last_search_query matches Some(l) && l@ == q
            &&& mid.active() is None ==> post == mid
            &&& (mid.active() matches Some(p) ==> match first_hit(p.entries@, lowercase(q)) {
                Some(i) => mid.active_becomes(post, Pane { cursor: i as usize, ..p }),
                None => message_only(mid, post) && says(
                    post.message,
                    tr_spec(mid.lang, "pattern not found: "@ + q, "パターンが見つかりません: "@ + q),
                ),
            })
        }
    }
}

/// `post` is `pre` after `n` (`forward`) or `N`: the cursor goes to the next
/// (or previous) entry matching the last search, wrapping around.
pub open spec fn match_jumped(pre: App, post: App, forward: bool) -> bool {
    &&& pre.last_search_query is None ==> message_only(pre, post) && says(
        post.message,
        tr_spec(pre.lang, "no previous search"@, "直前の検索がありません"@),
    )
    &&& pre.last_search_query matches Some(q) ==> (pre.active() matches Some(p) ==> {
        let n = p.entries@.len();
        &&& n == 0 ==> post == pre
        &&& n > 0 ==> match next_hit(p.entries@, lowercase(q@), p.cursor as int, forward, 1) {
            Some(i) => pre.active_becomes(post, Pane { cursor: i as usize, ..p }),
            None => message_only(pre, post) && says(
                post.message,
                tr_spec(pre.lang, "pattern not found: "@ + q@, "パターンが見つかりません: "@ + q@),
            ),
        }
    })
    &&& pre.last_search_query is Some && pre.active() is None ==> post == pre
}

impl App {
    /// Enter in the search prompt: remember the query and put the cursor on
    /// the first entry whose name contains it (ignoring case).
    pub fn finish_search(&mut self)
        ensures
            search_finished(*old(self), *final(self)),
    {
        let mut popup = Popup::Closed;
        std::mem::swap(&mut popup, &mut self.popup);
        let buffer = match popup {
            Popup::Search { buffer } => buffer,
            _ => return,
        };
        self.mode = Mode::Normal;
        let qc = trim_chars(chars_of(buffer.as_str()).as_slice());
        if qc.len() == 0 {
            return;
        }
        let q = string_of(qc.as_slice());
        self.last_search_query = Some(q.clone());
        let ql = lowered_chars(&q);
        let hit = match self.active_pane() {
            Some(p) => Some(first_hit_exec(&p.entries, &ql)),
            None => None,
        };
        let ghost mid = *self;
        match hit {
            None => {},
            Some(Some(i)) => {
                self.set_active_cursor(i);
                proof {
                    reveal(App::same_but_active);
                    assert(self.last_search_query == mid.last_search_query);
                }
            },
            Some(None) => {
                self.message = Some(
                    tr_with(self.lang, "pattern not found: ", "パターンが見つかりません: ", qc.as_slice()),
                );
            },
        }
    }

    /// `n` / `N`: the next (or previous) entry matching the last search,
    /// wrapping round the listing.
    pub fn jump_to_next_match(&mut self, forward: bool)
        ensures
            match_jumped(*old(self), *final(self), forward),
    {
        let query = match &self.last_search_query {
            Some(q) => q.clone(),
            None => {
                self.message = Some(tr_string(self.lang, "no previous search", "直前の検索がありません"));
                return;
            },
        };
        let ql = lowered_chars(&query);
        let hit = match self.active_pane() {
            Some(p) => {
                if p.entries.len() == 0 {
                    return;
                }
                next_hit_exec(&p.entries, &ql, p.cursor, forward)
            },
            None => return,
        };
        match hit {
            Some(i) => self.set_active_cursor(i),
            None => {
                let qv = chars_of(query.as_str());
                self.message = Some(
                    tr_with(self.lang, "pattern not found: ", "パターンが見つかりません: ", qv.as_slice()),
                );
            },
        }
    }
}

/// Walk round the listing from `start`, one step at a time in the given
/// direction, and give the first entry whose lowercased name contains `ql`.
fn next_hit_exec(es: &Vec<Entry>, ql: &Vec<char>, start: usize, forward: bool) -> (r: Option<usize>)
    requires
        es@.len() > 0,
    ensures
        r matches Some(i) ==> i < es@.len() && next_hit(es@, ql@, start as int, forward, 1) == Some(i as int),
        r is None ==> next_hit(es@, ql@, start as int, forward, 1) is None,
{
    let n = es.len();
    let s0 = start % n;
    let mut i = if forward {
        if s0 + 1 == n { 0 } else { s0 + 1 }
    } else {
        if s0 == 0 { n - 1 } else { s0 - 1 }
    };
    proof {
        lemma_mod_small(start as int, n as int, forward);
        assert(probe(start as int, n as int, forward, 0) == start);
        assert(i == probe(start as int, n as int, forward, 1));
    }
    let mut j: usize = 0;
    while j < n
        invariant
            j <= n,
            n == es@.len(),
            n > 0,
            i < n,
            j < n ==> i == probe(start as int, n as int, forward, (j + 1) as nat),
            next_hit(es@, ql@, start as int, forward, 1) == next_hit(es@, ql@, start as int, forward, (j + 1) as nat),
        decreases n - j,
    {
        let name = lowered_chars(&es[i].name);
        if contains_chars(name.as_slice(), ql.as_slice()) {
            return Some(i);
        }
        let ghost old_i = i;
        i = if forward {
            if i + 1 == n { 0 } else { i + 1 }
        } else {
            if i == 0 { n - 1 } else { i - 1 }
        };
        proof {
            lemma_mod_small(old_i as int, n as int, forward);
            vstd::arithmetic::div_mod::lemma_small_mod(old_i as nat, n as nat);
        }
        j += 1;
    }
    None
}

proof fn lemma_mod_small(i: int, n: int, forward: bool)
    requires
        n > 0,
        i >= 0,
    ensures
        forward ==> wrap_step(i, n, forward) == (if i % n + 1 == n { 0 } else { i % n + 1 }),
        !forward ==> wrap_step(i, n, forward) == (if i % n == 0 { n - 1 } else { i % n - 1 }),
{
    vstd::arithmetic::div_mod::lemma_fundamental_div_mod(i, n);
    vstd::arithmetic::div_mod::lemma_mod_pos_bound(i, n);
    let q = i / n;
    let r = i % n;
    assert(i == q * n + r) by (nonlinear_arith)
        requires
            i == n * (i / n) + i % n,
            q == i / n,
            r == i % n,
    ;
    if forward {
        if r + 1 < n {
            vstd::arithmetic::div_mod::lemma_fundamental_div_mod_converse_mod(i + 1, n, q, r + 1);
        } else {
            assert(i + 1 == (q + 1) * n + 0) by (nonlinear_arith)
                requires
                    i == q * n + r,
                    r + 1 == n,
            ;
            vstd::arithmetic::div_mod::lemma_fundamental_div_mod_converse_mod(i + 1, n, q + 1, 0);
        }
    } else {
        if r == 0 {
            vstd::arithmetic::div_mod::lemma_fundamental_div_mod_converse_mod(i + n - 1, n, q, n - 1);
        } else {
            assert(i + n - 1 == (q + 1) * n + (r - 1)) by (nonlinear_arith)
                requires
                    i == q * n + r,
            ;
            vstd::arithmetic::div_mod::lemma_fundamental_div_mod_converse_mod(i + n - 1, n, q + 1, r - 1);
        }
    }
}

proof fn lemma_push_keeps_marks(before: Pane, after: Pane, x: Seq<char>)
    requires
        before.has_mark(x),
        after.marks@ == before.marks@ || (after.marks@.len() == before.marks@.len() + 1 && forall|
            j: int,
        | 0 <= j < before.marks@.len() ==> after.marks@[j] == before.marks@[j]),
    ensures
        after.has_mark(x),
{
    let j = choose|j: int| 0 <= j < before.marks@.len() && path_views(before.marks@)[j] == x;
    assert(path_views(after.marks@)[j] == x);
}

proof fn lemma_new_mark_is_entry(before: Pane, after: Pane, i: int, x: Seq<char>)
    requires
        after.has_mark(x),
        !before.has_mark(x),
        (i < before.entries@.len() && !before.entries@[i].is_parent && !before.marked_at(i))
            ==> after.marks@ == before.marks@.push(before.entries@[i].path),
        !(i < before.entries@.len() && !before.entries@[i].is_parent && !before.marked_at(i))
            ==> after.marks@ == before.marks@,
        0 <= i,
    ensures
        i < before.entries@.len() && !before.entries@[i].is_parent && before.entries@[i].path@ == x,
{
    let j = choose|j: int| 0 <= j < after.marks@.len() && path_views(after.marks@)[j] == x;
    if j < before.marks@.len() {
        assert(path_views(before.marks@)[j] == x);
    }
}

/// `b` is `a` with the active pane's filter set to `f` (without a file
/// pane, `b` is `a`).
pub open spec fn filter_set(a: App, b: App, f: Seq<char>) -> bool {
    match a.active() {
        Some(p) => a.active_becomes(b, Pane { filter: b.active().unwrap().filter, ..p })
            && b.active().unwrap().filter@ == f,
        None => b == a,
    }
}

/// `post` is `pre` after `key` in filter mode: typing narrows the listing as it goes, Esc drops the filter, Enter keeps it.
pub open spec fn filter_keyed(pre: App, post: App, key: KeyCode) -> bool {
    &&& ({
        let a = pre;
        let b = post;
        match key {
            KeyCode::Esc => exists|mid: App|
                #![trigger filter_set(mid, b, seq![])]
                mid == (App { filter_buffer: mid.filter_buffer, mode: Mode::Normal, ..a })
                    && mid.filter_buffer@.len() == 0 && filter_set(mid, b, seq![]),
            KeyCode::Enter => b == (App { mode: Mode::Normal, ..a }),
            KeyCode::Backspace => {
                let nb = if a.filter_buffer@.len() > 0 {
                    a.filter_buffer@.drop_last()
                } else {
                    seq![]
                };
                &&& b.filter_buffer@ == nb
                &&& filter_set(App { filter_buffer: b.filter_buffer, ..a }, b, nb)
            },
            KeyCode::Up => match a.active() {
                Some(p) => a.active_becomes(
                    b,
                    Pane {
                        cursor: if p.entries@.len() == 0 {
                            0
                        } else {
                            crate::state::clamp(p.cursor - 1, 0, p.entries@.len() - 1) as usize
                        },
                        ..p
                    },
                ),
                None => b == a,
            },
            KeyCode::Down => match a.active() {
                Some(p) => a.active_becomes(
                    b,
                    Pane {
                        cursor: if p.entries@.len() == 0 {
                            0
                        } else {
                            crate::state::clamp(p.cursor + 1, 0, p.entries@.len() - 1) as usize
                        },
                        ..p
                    },
                ),
                None => b == a,
            },
            KeyCode::Char(c) => if c == '/' && a.filter_buffer@.len() == 0 {
                exists|mid: App|
                    #![trigger filter_set(mid, App { mode: a.mode, effects: a.effects, ..b }, seq![])]
                    {
                        &&& mid == (App { filter_buffer: mid.filter_buffer, ..a })
                        &&& mid.filter_buffer@.len() == 0
                        &&& filter_set(mid, App { mode: a.mode, effects: a.effects, ..b }, seq![])
                        &&& b.mode == Mode::Normal
                        &&& b.effects@ == a.effects@.push(Effect::StartFileFinder)
                    }
            } else {
                &&& b.filter_buffer@ == a.filter_buffer@.push(c)
                &&& filter_set(App { filter_buffer: b.filter_buffer, ..a }, b, a.filter_buffer@.push(c))
            },
            _ => b == a,
        }
    })
}

impl App {
    pub(crate) fn set_active_filter(&mut self, f: String)
        ensures
            filter_set(*old(self), *final(self), f@),
    {
        let ghost start = *self;
        if let Some(mut p) = self.take_active() {
            let ghost taken = *self;
            p.filter = f;
            self.put_active(p);
            proof {
                lemma_take_put(start, taken, *self, p);
            }
        }
    }

    /// A key while the filter is being typed: Esc drops the narrowing, Enter
    /// keeps it and returns to normal keys, Backspace and letters edit it
    /// (applied as it is typed), ↑/↓ move the cursor, and a `/` as the first
    /// character opens the recursive file finder instead.
    pub fn handle_filter_key(&mut self, key: KeyCode)
        ensures
            filter_keyed(*old(self), *final(self), key),
    {
        match key {
            KeyCode::Esc => {
                self.filter_buffer = String::new();
                self.mode = Mode::Normal;
                let ghost mid = *self;
                self.set_active_filter(String::new());
                assert(filter_set(mid, *self, seq![]));
            },
            KeyCode::Enter => {
                self.mode = Mode::Normal;
            },
            KeyCode::Backspace => {
                let cs = chars_of(self.filter_buffer.as_str());
                let n = cs.len();
                let kept = if n > 0 {
                    crate::text::slice_vec(cs.as_slice(), 0, n - 1)
                } else {
                    Vec::new()
                };
                assert(n > 0 ==> kept@ =~= cs@.drop_last());
                self.filter_buffer = string_of(kept.as_slice());
                let f = self.filter_buffer.clone();
                let ghost mid = *self;
                self.set_active_filter(f);
                proof {
                    reveal(App::same_but_active);
                    assert(self.filter_buffer == mid.filter_buffer);
                }
            },
            KeyCode::Up => {
                let ghost start = *self;
                if let Some(mut p) = self.take_active() {
                    let ghost taken = *self;
                    p.move_cursor(-1);
                    self.put_active(p);
                    proof {
                        lemma_take_put(start, taken, *self, p);
                    }
                }
            },
            KeyCode::Down => {
                let ghost start = *self;
                if let Some(mut p) = self.take_active() {
                    let ghost taken = *self;
                    p.move_cursor(1);
                    self.put_active(p);
                    proof {
                        lemma_take_put(start, taken, *self, p);
                    }
                }
            },
            KeyCode::Char(c) => {
                if c == '/' && self.filter_buffer.as_str().is_empty() {
                    self.filter_buffer = String::new();
                    let ghost mid = *self;
                    self.set_active_filter(String::new());
                    let ghost after = *self;
                    proof {
                        reveal(App::same_but_active);
                    }
                    self.mode = Mode::Normal;
                    self.effects.push(Effect::StartFileFinder);
                    assert(filter_set(mid, App { mode: old(self).mode, effects: old(self).effects, ..*self }, seq![])) by {
                        reveal(App::same_but_active);
                        assert(App { mode: old(self).mode, effects: old(self).effects, ..*self } == after);
                    }
                    assert(mid == (App { filter_buffer: mid.filter_buffer, ..*old(self) }));
                    assert(mid.filter_buffer@.len() == 0);
                    assert(self.mode == Mode::Normal);
                    assert(self.effects@ == old(self).effects@.push(Effect::StartFileFinder));
                } else {
                    crate::text::push_char(&mut self.filter_buffer, c);
                    let f = self.filter_buffer.clone();
                    let ghost mid = *self;
                    self.set_active_filter(f);
                    proof {
                        reveal(App::same_but_active);
                        assert(self.filter_buffer == mid.filter_buffer);
                    }
                }
            },
            _ => {},
        }
    }
}


/// The search lands on the first entry whose name, with case ignored (the
/// name lowercased), holds the lowercased query `ql`; with none, it lands
/// nowhere.
pub proof fn law_first_hit_is_first_match(es: Seq<Entry>, ql: Seq<char>)
    ensures
        first_hit(es, ql) matches Some(i) ==> 0 <= i < es.len() && contains_seq(lowercase(es[i].name@), ql) && (
        forall|j: int| 0 <= j < i ==> !contains_seq(lowercase(#[trigger] es[j].name@), ql)),
        first_hit(es, ql) is None ==> forall|j: int|
            0 <= j < es.len() ==> !contains_seq(lowercase(#[trigger] es[j].name@), ql),
    decreases es.len(),
{
    if es.len() > 0 {
        let rest = es.drop_first();
        law_first_hit_is_first_match(rest, ql);
        assert forall|j: int| 0 < j < es.len() implies #[trigger] es[j] == rest[j - 1] by {}
        if !contains_seq(lowercase(es[0].name@), ql) {
            match first_hit(rest, ql) {
                Some(k) => {
                    assert forall|j: int| 0 <= j < k + 1 implies !contains_seq(lowercase(#[trigger] es[j].name@), ql) by {
                        if j > 0 {
                            assert(es[j] == rest[j - 1]);
                        }
                    }
                },
                None => {
                    assert forall|j: int| 0 <= j < es.len() implies !contains_seq(lowercase(#[trigger] es[j].name@), ql) by {
                        if j > 0 {
                            assert(es[j] == rest[j - 1]);
                        }
                    }
                },
            }
        }
    }
}

} // verus!
