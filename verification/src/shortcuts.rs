//! Bookmarks ("shortcuts"): the list and its folders, adding, renaming and
//! removing one, and writing them out — a bookmark is something the user
//! made, so a failed save is always said.
use vstd::prelude::*;

use crate::actions::{is_prompt, message_only, popup_only, text_input};
use crate::lang::{tr, tr_spec, tr_string};
use crate::state::{says, App, InputKind, Popup, Shortcut};
use crate::text::{chars_of, push_line, views};

verus! {

impl Shortcut {
    /// Is this a folder of bookmarks?
    pub open spec fn is_group_spec(self) -> bool {
        self.children is Some
    }

    /// `Shortcut::is_group`.
    pub fn is_group(&self) -> (b: bool)
        ensures
            b == self.is_group_spec(),
    {
        self.children.is_some()
    }
}

/// The bookmarks in the folder reached by following `path` (indices, one
/// per level) from the top; nothing when the path leads nowhere.
pub open spec fn sc_level(entries: Seq<Shortcut>, path: Seq<usize>) -> Seq<Shortcut>
    decreases path.len(),
{
    if path.len() == 0 {
        entries
    } else if path[0] < entries.len() && entries[path[0] as int].children is Some {
        sc_level(entries[path[0] as int].children->0@, path.drop_first())
    } else {
        seq![]
    }
}

/// `sc_level`, over a slice.
pub fn sc_level_exec<'a>(entries: &'a [Shortcut], path: &[usize]) -> (r: &'a [Shortcut])
    ensures
        r@ == sc_level(entries@, path@),
    decreases path@.len(),
{
    if path.len() == 0 {
        return entries;
    }
    let i = path[0];
    if i < entries.len() {
        match &entries[i].children {
            Some(ch) => {
                let rest = slice_tail(path);
                assert(rest@ == path@.drop_first());
                sc_level_exec(ch.as_slice(), rest)
            },
            None => &[],
        }
    } else {
        &[]
    }
}

fn slice_tail(path: &[usize]) -> (r: &[usize])
    requires
        path@.len() > 0,
    ensures
        r@ == path@.drop_first(),
{
    let (_, tail) = path.split_at(1);
    assert(tail@ =~= path@.drop_first());
    tail
}

/// `b` is `a` with the prompt for a new bookmark's name in the folder at
/// `path` open (`group`: a folder's).
pub open spec fn start_shortcut_add_spec(a: App, b: App, path: Seq<usize>, group: bool) -> bool {
    &&& popup_only(a, b)
    &&& is_prompt(
        b.popup,
        if group {
            "new folder — name"@
        } else {
            "new shortcut — name"@
        },
        "name:"@,
        seq![],
    )
    &&& b.popup matches Popup::TextInput { kind, .. }
    &&& b.popup->TextInput_kind matches InputKind::ShortcutName { path: p, edit_idx, group: g }
    &&& b.popup->TextInput_kind->ShortcutName_path@ == path
    &&& b.popup->TextInput_kind->ShortcutName_edit_idx is None
    &&& b.popup->TextInput_kind->ShortcutName_group == group
}

impl App {
    /// Prompt for a new bookmark's name in the folder at `path`; `group`
    /// makes a folder (name only, no target step).
    pub fn start_shortcut_add(&mut self, path: Vec<usize>, group: bool)
        ensures
            start_shortcut_add_spec(*old(self), *final(self), path@, group),
    {
        let title = if group {
            "new folder — name"
        } else {
            "new shortcut — name"
        };
        let p = text_input(title, "name:", String::new(), InputKind::ShortcutName { path, edit_idx: None, group });
        self.open_popup(p);
    }
}

/// `new` is the bookmark tree `old` with the entry `idx` of the folder at
/// `path` removed (when there is one), and nothing else changed.
pub open spec fn level_removed(old: Seq<Shortcut>, new: Seq<Shortcut>, path: Seq<usize>, idx: usize) -> bool
    decreases path.len(),
{
    if path.len() == 0 {
        if idx < old.len() {
            new == old.remove(idx as int)
        } else {
            new == old
        }
    } else if path[0] < old.len() && old[path[0] as int].children is Some {
        let p0 = path[0] as int;
        &&& new.len() == old.len()
        &&& forall|j: int| 0 <= j < old.len() && j != p0 ==> new[j] == old[j]
        &&& new[p0].name == old[p0].name
        &&& new[p0].target == old[p0].target
        &&& new[p0].children is Some
        &&& level_removed(old[p0].children->0@, new[p0].children->0@, path.drop_first(), idx)
    } else {
        new == old
    }
}

fn remove_in(entries: &mut Vec<Shortcut>, path: &[usize], idx: usize)
    ensures
        level_removed(old(entries)@, final(entries)@, path@, idx),
    decreases path@.len(),
{
    if path.len() == 0 {
        if idx < entries.len() {
            entries.remove(idx);
        }
        return ;
    }
    let i = path[0];
    if i >= entries.len() {
        return ;
    }
    if entries[i].children.is_none() {
        return ;
    }
    let ghost before = entries@;
    let mut e = Shortcut { name: String::new(), target: String::new(), children: None };
    std::mem::swap(&mut e, &mut entries[i]);
    let mut ch = match e.children {
        Some(c) => c,
        None => Vec::new(),
    };
    let rest = slice_tail(path);
    remove_in(&mut ch, rest, idx);
    entries.set(i, Shortcut { name: e.name, target: e.target, children: Some(ch) });
}

/// `post` is `pre` after `App::start_shortcuts`.
pub open spec fn shortcuts_opened(pre: App, post: App) -> bool {
    &&& popup_only(pre, post)
    &&& post.popup matches Popup::Shortcuts { cursor, path } && cursor == 0 && path@.len() == 0
}

/// `post` is `pre` with the prompt to rename the bookmark at `idx` of the folder at `path` open (nothing when there is no such bookmark).
pub open spec fn shortcut_edit_started(pre: App, post: App, path: Vec<usize>, idx: usize) -> bool {
    &&& idx >= sc_level(pre.shortcuts@, path@).len() ==> post == pre
    &&& idx < sc_level(pre.shortcuts@, path@).len() ==> {
        let s = sc_level(pre.shortcuts@, path@)[idx as int];
        &&& popup_only(pre, post)
        &&& is_prompt(post.popup, "edit shortcut — name"@, "name:"@, s.name@)
        &&& post.popup matches Popup::TextInput { kind, .. } && kind == (InputKind::ShortcutName {
            path,
            edit_idx: Some(idx),
            group: s.children is Some,
        })
    }
}

impl App {
    /// `b`: open the bookmark list at its top.
    pub fn start_shortcuts(&mut self)
        ensures
            shortcuts_opened(*old(self), *final(self)),
    {
        self.open_popup(Popup::Shortcuts { cursor: 0, path: Vec::new() });
    }

    /// Show the bookmark list again at `path`, the cursor at `cursor` (held
    /// to the folder's last entry).
    pub fn reopen_shortcuts(&mut self, path: Vec<usize>, cursor: usize)
        ensures
            popup_only(*old(self), *final(self)),
            ({
                let n = sc_level(old(self).shortcuts@, path@).len();
                final(self).popup == (Popup::Shortcuts {
                    cursor: if n == 0 {
                        0
                    } else if cursor < n {
                        cursor
                    } else {
                        (n - 1) as usize
                    },
                    path,
                })
            }),
    {
        let n = sc_level_exec(self.shortcuts.as_slice(), path.as_slice()).len();
        let c = if n == 0 {
            0
        } else if cursor < n {
            cursor
        } else {
            n - 1
        };
        self.open_popup(Popup::Shortcuts { cursor: c, path });
    }

    /// Prompt to rename the bookmark at `idx` of the folder at `path`.
    pub fn start_shortcut_edit(&mut self, path: Vec<usize>, idx: usize)
        ensures
            shortcut_edit_started(*old(self), *final(self), path, idx),
    {
        let (name, group) = {
            let level = sc_level_exec(self.shortcuts.as_slice(), path.as_slice());
            if idx >= level.len() {
                return ;
            }
            (level[idx].name.clone(), level[idx].is_group())
        };
        let p = text_input(
            "edit shortcut — name",
            "name:",
            name,
            InputKind::ShortcutName { path, edit_idx: Some(idx), group },
        );
        self.open_popup(p);
    }
}

/// Does `path` lead to a folder (the top level when empty)?
pub open spec fn level_exists(entries: Seq<Shortcut>, path: Seq<usize>) -> bool
    decreases path.len(),
{
    if path.len() == 0 {
        true
    } else if path[0] < entries.len() && entries[path[0] as int].children is Some {
        level_exists(entries[path[0] as int].children->0@, path.drop_first())
    } else {
        false
    }
}

/// `new` is the tree `old` with the folder at `path` changed as `f` says
/// (when there is such a folder), and nothing else changed.
pub open spec fn level_changed(
    old: Seq<Shortcut>,
    new: Seq<Shortcut>,
    path: Seq<usize>,
    f: spec_fn(Seq<Shortcut>, Seq<Shortcut>) -> bool,
) -> bool
    decreases path.len(),
{
    if path.len() == 0 {
        f(old, new)
    } else if path[0] < old.len() && old[path[0] as int].children is Some {
        let p0 = path[0] as int;
        &&& new.len() == old.len()
        &&& forall|j: int| 0 <= j < old.len() && j != p0 ==> new[j] == old[j]
        &&& new[p0].name == old[p0].name
        &&& new[p0].target == old[p0].target
        &&& new[p0].children is Some
        &&& level_changed(old[p0].children->0@, new[p0].children->0@, path.drop_first(), f)
    } else {
        new == old
    }
}

/// A folder's entries after naming a folder `name`: the one at `edit_idx`
/// is renamed when there is one, else a new empty folder goes at the end.
pub open spec fn group_named(o: Seq<Shortcut>, n: Seq<Shortcut>, edit_idx: Option<usize>, name: Seq<char>) -> bool {
    if edit_idx matches Some(i) && i < o.len() {
        let i = edit_idx->0 as int;
        &&& n.len() == o.len()
        &&& forall|j: int| 0 <= j < o.len() && j != i ==> n[j] == o[j]
        &&& n[i].name@ == name
        &&& n[i].target == o[i].target
        &&& n[i].children == o[i].children
    } else {
        &&& n.len() == o.len() + 1
        &&& n.drop_last() == o
        &&& n.last().name@ == name
        &&& n.last().target@.len() == 0
        &&& n.last().children matches Some(c) && c@.len() == 0
    }
}

/// A folder's entries after putting the bookmark `e`: over the one at
/// `edit_idx` when there is one, else at the end.
pub open spec fn entry_put(o: Seq<Shortcut>, n: Seq<Shortcut>, edit_idx: Option<usize>, e: Shortcut) -> bool {
    if edit_idx matches Some(i) && i < o.len() {
        n == o.update(edit_idx->0 as int, e)
    } else {
        n == o.push(e)
    }
}

fn take_children(entries: &mut Vec<Shortcut>, i: usize) -> (r: (String, String, Vec<Shortcut>))
    requires
        i < old(entries)@.len(),
        old(entries)@[i as int].children is Some,
    ensures
        final(entries)@.len() == old(entries)@.len(),
        forall|j: int| 0 <= j < old(entries)@.len() && j != i ==> final(entries)@[j] == old(entries)@[j],
        r.0 == old(entries)@[i as int].name,
        r.1 == old(entries)@[i as int].target,
        r.2 == old(entries)@[i as int].children->0,
{
    let mut e = Shortcut { name: String::new(), target: String::new(), children: None };
    std::mem::swap(&mut e, &mut entries[i]);
    let ch = match e.children {
        Some(c) => c,
        None => Vec::new(),
    };
    (e.name, e.target, ch)
}

fn name_group_in(entries: &mut Vec<Shortcut>, path: &[usize], edit_idx: Option<usize>, name: String)
    ensures
        level_changed(
            old(entries)@,
            final(entries)@,
            path@,
            |o: Seq<Shortcut>, n: Seq<Shortcut>| group_named(o, n, edit_idx, name@),
        ),
    decreases path@.len(),
{
    if path.len() == 0 {
        match edit_idx {
            Some(i) => {
                if i < entries.len() {
                    let (_, target, ch) = take_children_any(entries, i);
                    entries.set(i, Shortcut { name, target, children: ch });
                    return ;
                }
            },
            None => {},
        }
        let ghost before = entries@;
        let fresh: Vec<Shortcut> = Vec::new();
        entries.push(Shortcut { name, target: String::new(), children: Some(fresh) });
        assert(entries@.drop_last() =~= before);
        return ;
    }
    let i = path[0];
    if i >= entries.len() || entries[i].children.is_none() {
        return ;
    }
    let (n0, t0, mut ch) = take_children(entries, i);
    let rest = slice_tail(path);
    name_group_in(&mut ch, rest, edit_idx, name);
    entries.set(i, Shortcut { name: n0, target: t0, children: Some(ch) });
}

fn take_children_any(entries: &mut Vec<Shortcut>, i: usize) -> (r: (String, String, Option<Vec<Shortcut>>))
    requires
        i < old(entries)@.len(),
    ensures
        final(entries)@.len() == old(entries)@.len(),
        forall|j: int| 0 <= j < old(entries)@.len() && j != i ==> final(entries)@[j] == old(entries)@[j],
        r.0 == old(entries)@[i as int].name,
        r.1 == old(entries)@[i as int].target,
        r.2 == old(entries)@[i as int].children,
{
    let mut e = Shortcut { name: String::new(), target: String::new(), children: None };
    std::mem::swap(&mut e, &mut entries[i]);
    (e.name, e.target, e.children)
}

fn put_in(entries: &mut Vec<Shortcut>, path: &[usize], edit_idx: Option<usize>, e: Shortcut)
    ensures
        level_changed(
            old(entries)@,
            final(entries)@,
            path@,
            |o: Seq<Shortcut>, n: Seq<Shortcut>| entry_put(o, n, edit_idx, e),
        ),
    decreases path@.len(),
{
    if path.len() == 0 {
        match edit_idx {
            Some(i) => {
                if i < entries.len() {
                    entries.set(i, e);
                    return ;
                }
            },
            None => {},
        }
        entries.push(e);
        return ;
    }
    let i = path[0];
    if i >= entries.len() || entries[i].children.is_none() {
        return ;
    }
    let (n0, t0, mut ch) = take_children(entries, i);
    let rest = slice_tail(path);
    put_in(&mut ch, rest, edit_idx, e);
    entries.set(i, Shortcut { name: n0, target: t0, children: Some(ch) });
}

proof fn lemma_level_changed_len(
    old: Seq<Shortcut>,
    new: Seq<Shortcut>,
    path: Seq<usize>,
    f: spec_fn(Seq<Shortcut>, Seq<Shortcut>) -> bool,
)
    requires
        level_changed(old, new, path, f),
        level_exists(old, path),
    ensures
        f(sc_level(old, path), sc_level(new, path)),
        level_exists(new, path),
    decreases path.len(),
{
    if path.len() > 0 {
        let p0 = path[0] as int;
        lemma_level_changed_len(old[p0].children->0@, new[p0].children->0@, path.drop_first(), f);
    }
}

/// Whether `path` leads to a folder.
fn level_exists_exec(entries: &[Shortcut], path: &[usize]) -> (b: bool)
    ensures
        b == level_exists(entries@, path@),
    decreases path@.len(),
{
    if path.len() == 0 {
        return true;
    }
    let i = path[0];
    if i < entries.len() {
        match &entries[i].children {
            Some(ch) => {
                let rest = slice_tail(path);
                level_exists_exec(ch.as_slice(), rest)
            },
            None => false,
        }
    } else {
        false
    }
}

/// `b` is `a` after writing the bookmarks out (`result` is what the write
/// said): on success the list comes back at `path`/`cursor` (after `said`,
/// when there is something to say); on failure a notice says the change is
/// for this session only.
pub open spec fn shortcuts_saved(
    a: App,
    b: App,
    path: Vec<usize>,
    cursor: usize,
    said: Seq<char>,
    result: Result<(), String>,
) -> bool {
    match result {
        Ok(_) => {
            let n = sc_level(a.shortcuts@, path@).len();
            &&& b == (App { popup: b.popup, message: b.message, ..a })
            &&& said.len() > 0 ==> says(b.message, said)
            &&& said.len() == 0 ==> b.message == a.message
            &&& b.popup == (Popup::Shortcuts {
                cursor: if n == 0 {
                    0
                } else if cursor < n {
                    cursor
                } else {
                    (n - 1) as usize
                },
                path,
            })
        },
        Err(e) => {
            &&& popup_only(a, b)
            &&& b.popup matches Popup::Notice { lines } && views(lines@) == seq![
                tr_spec(a.lang, "the bookmarks could not be saved:"@, "ブックマークを保存できませんでした:"@),
                e@,
                ""@,
                tr_spec(
                    a.lang,
                    "The change is in this session only. `:where` says which file it would go to"@,
                    "変更はこのセッション限りです。保存場所は `:where` で確認できます"@,
                ),
            ]
        },
    }
}

/// `post` is `pre` after no to removing a bookmark: the list comes back.
pub open spec fn shortcut_delete_cancelled(pre: App, post: App) -> bool {
    &&& pre.popup matches Popup::ConfirmShortcutDelete { back, .. } ==> post == (App {
        popup: *back,
        ..pre
    })
    &&& !(pre.popup is ConfirmShortcutDelete) ==> post == (App {
        popup: Popup::Closed,
        ..pre
    })
}

/// `post` is `pre` after yes to removing a bookmark: it goes from its
/// folder, and the bookmarks are written out with `save`.
pub open spec fn shortcut_delete_confirmed<F: Fn(&Vec<Shortcut>) -> Result<(), String>>(pre: App, post: App, save: F) -> bool {
    &&& !(pre.popup is ConfirmShortcutDelete) ==> post == (App { popup: Popup::Closed, ..pre })
    &&& pre.popup matches Popup::ConfirmShortcutDelete { path, idx, back } ==> exists|
        mid: App,
        result: Result<(), String>,
    |
        #![trigger shortcuts_saved(mid, post, path, idx, seq![], result)]
        {
            &&& mid == (App { popup: Popup::Closed, shortcuts: mid.shortcuts, ..pre })
            &&& level_removed(pre.shortcuts@, mid.shortcuts@, path@, idx)
            &&& call_ensures(save, (&mid.shortcuts,), result)
            &&& shortcuts_saved(mid, post, path, idx, seq![], result)
        }
}

impl App {
    /// Write the bookmarks out with `save` (the store's own write) and put
    /// the list back on screen — or say why they could not be written.
    pub fn save_shortcuts<F: Fn(&Vec<Shortcut>) -> Result<(), String>>(
        &mut self,
        path: Vec<usize>,
        cursor: usize,
        said: &str,
        save: F,
    ) -> (result: Result<(), String>)
        requires
            forall|v: &Vec<Shortcut>| call_requires(save, (v,)),
        ensures
            call_ensures(save, (&old(self).shortcuts,), result),
            shortcuts_saved(*old(self), *final(self), path, cursor, said@, result),
    {
        let r = save(&self.shortcuts);
        match &r {
            Ok(()) => {
                if !said.is_empty() {
                    self.message = Some(said.to_owned());
                }
                self.reopen_shortcuts(path, cursor);
            },
            Err(e) => {
                let mut lines: Vec<String> = Vec::new();
                assert(views(lines@) =~= seq![]);
                push_line(
                    &mut lines,
                    tr(self.lang, "the bookmarks could not be saved:", "ブックマークを保存できませんでした:").to_owned(),
                );
                push_line(&mut lines, e.clone());
                push_line(&mut lines, String::new());
                push_line(
                    &mut lines,
                    tr(
                        self.lang,
                        "The change is in this session only. `:where` says which file it would go to",
                        "変更はこのセッション限りです。保存場所は `:where` で確認できます",
                    ).to_owned(),
                );
                proof {
                    reveal_strlit("");
                    assert(""@ =~= Seq::<char>::empty());
                }
                assert(views(lines@) =~= seq![
                    tr_spec(self.lang, "the bookmarks could not be saved:"@, "ブックマークを保存できませんでした:"@),
                    e@,
                    ""@,
                    tr_spec(
                        self.lang,
                        "The change is in this session only. `:where` says which file it would go to"@,
                        "変更はこのセッション限りです。保存場所は `:where` で確認できます"@,
                    ),
                ]);
                self.open_popup(Popup::Notice { lines });
            },
        }
        r
    }

    /// Leave the bookmark alone and go back to the list.
    pub fn cancel_shortcut_delete(&mut self)
        ensures
            shortcut_delete_cancelled(*old(self), *final(self)),
    {
        let mut popup = Popup::Closed;
        std::mem::swap(&mut popup, &mut self.popup);
        match popup {
            Popup::ConfirmShortcutDelete { back, .. } => {
                self.popup = *back;
            },
            _ => {},
        }
    }

    /// Remove the bookmark the confirmation was about, write the list out
    /// with `save`, and go back to the list (or say why it could not be
    /// written).
    pub fn confirm_shortcut_delete<F: Fn(&Vec<Shortcut>) -> Result<(), String>>(&mut self, save: F)
        requires
            forall|v: &Vec<Shortcut>| call_requires(save, (v,)),
        ensures
            shortcut_delete_confirmed(*old(self), *final(self), save),
    {
        let mut popup = Popup::Closed;
        std::mem::swap(&mut popup, &mut self.popup);
        let (path, idx) = match popup {
            Popup::ConfirmShortcutDelete { path, idx, .. } => (path, idx),
            _ => return ,
        };
        remove_in(&mut self.shortcuts, path.as_slice(), idx);
        let ghost mid = *self;
        proof {
            reveal_strlit("");
        }
        let result = self.save_shortcuts(path, idx, "", save);
        assert(shortcuts_saved(mid, *self, path, idx, seq![], result));
    }
}

/// Where the list opens after a change at `edit_idx` in a folder now
/// holding `n` entries: on the edited one, or on the last.
pub open spec fn cursor_after(edit_idx: Option<usize>, n: nat) -> usize {
    match edit_idx {
        Some(i) => i,
        None => if n == 0 {
            0
        } else {
            (n - 1) as usize
        },
    }
}

/// The target a bookmark's target prompt starts with: the edited one's,
/// when it has one, else the entry under the cursor.
pub open spec fn target_start(a: App, path: Seq<usize>, edit_idx: Option<usize>) -> Seq<char> {
    let lvl = sc_level(a.shortcuts@, path);
    let here = match a.pending_shortcut_target {
        Some(t) => t@,
        None => match a.active() {
            Some(p) => if p.cursor < p.entries@.len() {
                p.entries@[p.cursor as int].path@
            } else {
                seq![]
            },
            None => seq![],
        },
    };
    if edit_idx matches Some(i) && i < lvl.len() && lvl[edit_idx->0 as int].target@.len() > 0 {
        lvl[edit_idx->0 as int].target@
    } else {
        here
    }
}

/// `b` is `a` after the name prompt of a bookmark answered `name`: a
/// folder is named (or made) and the bookmarks written out with `save`,
/// whose answer was `r`; a bookmark goes on to ask for its target, starting
/// from the target chosen for it elsewhere, which is then used up.
pub open spec fn shortcut_named<F: Fn(&Vec<Shortcut>) -> Result<(), String>>(
    a: App,
    b: App,
    path: Vec<usize>,
    edit_idx: Option<usize>,
    group: bool,
    name: Seq<char>,
    save: F,
    r: Result<(), String>,
) -> bool {
    if group {
        let mid = App { shortcuts: b.shortcuts, ..a };
        &&& level_changed(
            a.shortcuts@,
            b.shortcuts@,
            path@,
            |o: Seq<Shortcut>, n: Seq<Shortcut>| group_named(o, n, edit_idx, name),
        )
        &&& call_ensures(save, (&mid.shortcuts,), r)
        &&& shortcuts_saved(
            mid,
            b,
            path,
            cursor_after(edit_idx, sc_level(b.shortcuts@, path@).len()),
            seq![],
            r,
        )
    } else {
        &&& b == (App { popup: b.popup, pending_shortcut_target: None, ..a })
        &&& is_prompt(
            b.popup,
            "shortcut — target"@,
            "URL / path / app   (Ctrl+V paste, Ctrl+A select all):"@,
            target_start(a, path@, edit_idx),
        )
        &&& b.popup matches Popup::TextInput { kind, .. } && kind matches InputKind::ShortcutTarget {
            path: p,
            edit_idx: e,
            name: n,
        } && p == path && e == edit_idx && n@ == name
    }
}

/// `b` is `a` after the target prompt of the bookmark `name` answered
/// `target`: the bookmark is put in its folder and the bookmarks written
/// out with `save`, whose answer was `r`.
pub open spec fn shortcut_targeted<F: Fn(&Vec<Shortcut>) -> Result<(), String>>(
    a: App,
    b: App,
    path: Vec<usize>,
    edit_idx: Option<usize>,
    name: Seq<char>,
    target: Seq<char>,
    save: F,
    r: Result<(), String>,
) -> bool {
    let mid = App { shortcuts: b.shortcuts, ..a };
    let before = sc_level(a.shortcuts@, path@);
    let cursor: usize = if !level_exists(a.shortcuts@, path@) {
        0
    } else if edit_idx matches Some(i) && i < before.len() {
        edit_idx->0
    } else {
        before.len() as usize
    };
    &&& level_changed(
        a.shortcuts@,
        b.shortcuts@,
        path@,
        |o: Seq<Shortcut>, n: Seq<Shortcut>|
            {
                &&& n.len() == (if edit_idx matches Some(i) && i < o.len() { o.len() } else { o.len() + 1 })
                &&& exists|e: Shortcut|
                    #![trigger entry_put(o, n, edit_idx, e)]
                    entry_put(o, n, edit_idx, e) && e.name@ == name && e.target@ == target
                        && e.children is None
            },
    )
    &&& call_ensures(save, (&mid.shortcuts,), r)
    &&& shortcuts_saved(
        mid,
        b,
        path,
        cursor,
        tr_spec(a.lang, "shortcut saved"@, "ショートカットを保存しました"@),
        r,
    )
}

impl App {
    /// The name prompt of a bookmark was answered `name`.
    pub fn finish_shortcut_name<F: Fn(&Vec<Shortcut>) -> Result<(), String>>(
        &mut self,
        path: Vec<usize>,
        edit_idx: Option<usize>,
        group: bool,
        name: String,
        save: F,
    ) -> (r: Result<(), String>)
        requires
            forall|v: &Vec<Shortcut>| call_requires(save, (v,)),
        ensures
            shortcut_named(*old(self), *final(self), path, edit_idx, group, name@, save, r),
    {
        if group {
            let ghost n = name@;
            name_group_in(&mut self.shortcuts, path.as_slice(), edit_idx, name);
            let cursor = match edit_idx {
                Some(i) => i,
                None => {
                    let len = sc_level_exec(self.shortcuts.as_slice(), path.as_slice()).len();
                    if len == 0 {
                        0
                    } else {
                        len - 1
                    }
                },
            };
            proof {
                reveal_strlit("");
                assert(""@ =~= Seq::<char>::empty());
            }
            return self.save_shortcuts(path, cursor, "", save);
        }
        let mut pending: Option<String> = None;
        std::mem::swap(&mut pending, &mut self.pending_shortcut_target);
        let here = match pending {
            Some(t) => t,
            None => match self.active_pane() {
                Some(p) => if p.cursor < p.entries.len() {
                    p.entries[p.cursor].path.clone()
                } else {
                    String::new()
                },
                None => String::new(),
            },
        };
        let prev = {
            let lvl = sc_level_exec(self.shortcuts.as_slice(), path.as_slice());
            match edit_idx {
                Some(i) => if i < lvl.len() && !lvl[i].target.as_str().is_empty() {
                    lvl[i].target.clone()
                } else {
                    here
                },
                None => here,
            }
        };
        proof {
            reveal_strlit("");
        }
        let p = text_input(
            "shortcut — target",
            "URL / path / app   (Ctrl+V paste, Ctrl+A select all):",
            prev,
            InputKind::ShortcutTarget { path, edit_idx, name },
        );
        self.open_popup(p);
        Ok(())
    }

    /// The target prompt of the bookmark `name` was answered `target`.
    pub fn finish_shortcut_target<F: Fn(&Vec<Shortcut>) -> Result<(), String>>(
        &mut self,
        path: Vec<usize>,
        edit_idx: Option<usize>,
        name: String,
        target: String,
        save: F,
    ) -> (r: Result<(), String>)
        requires
            forall|v: &Vec<Shortcut>| call_requires(save, (v,)),
        ensures
            shortcut_targeted(*old(self), *final(self), path, edit_idx, name@, target@, save, r),
    {
        let found = level_exists_exec(self.shortcuts.as_slice(), path.as_slice());
        let before = sc_level_exec(self.shortcuts.as_slice(), path.as_slice()).len();
        let cursor: usize = if !found {
            0
        } else {
            match edit_idx {
                Some(i) => if i < before {
                    i
                } else {
                    before
                },
                None => before,
            }
        };
        let e = Shortcut { name, target, children: None };
        let ghost eg = e;
        let ghost old_sc = self.shortcuts@;
        put_in(&mut self.shortcuts, path.as_slice(), edit_idx, e);
        proof {
            let f = |o: Seq<Shortcut>, n: Seq<Shortcut>| entry_put(o, n, edit_idx, eg);
            let g = |o: Seq<Shortcut>, n: Seq<Shortcut>|
                {
                    &&& n.len() == (if edit_idx matches Some(i) && i < o.len() { o.len() } else { o.len() + 1 })
                    &&& exists|e: Shortcut|
                        #![trigger entry_put(o, n, edit_idx, e)]
                        entry_put(o, n, edit_idx, e) && e.name@ == name@ && e.target@ == target@
                            && e.children is None
                };
            lemma_level_changed_weaken(old_sc, self.shortcuts@, path@, f, g);
        }
        self.save_shortcuts(path, cursor, tr(self.lang, "shortcut saved", "ショートカットを保存しました"), save)
    }
}

proof fn lemma_level_changed_weaken(
    old: Seq<Shortcut>,
    new: Seq<Shortcut>,
    path: Seq<usize>,
    f: spec_fn(Seq<Shortcut>, Seq<Shortcut>) -> bool,
    g: spec_fn(Seq<Shortcut>, Seq<Shortcut>) -> bool,
)
    requires
        level_changed(old, new, path, f),
        forall|o: Seq<Shortcut>, n: Seq<Shortcut>| #[trigger] f(o, n) ==> g(o, n),
    ensures
        level_changed(old, new, path, g),
    decreases path.len(),
{
    if path.len() > 0 && path[0] < old.len() && old[path[0] as int].children is Some {
        let p0 = path[0] as int;
        lemma_level_changed_weaken(old[p0].children->0@, new[p0].children->0@, path.drop_first(), f, g);
    }
}

} // verus!
