//! The keys of the bookmark list: moving, going into and out of folders,
//! opening, adding, renaming, removing and copying a bookmark.
use vstd::prelude::*;

use crate::prompt::effect_added;
use crate::shortcuts::{sc_level, sc_level_exec, shortcut_edit_started, start_shortcut_add_spec};
use crate::state::{App, Effect, KeyCode, Popup};
use crate::text::{cat, chars_of, has_prefix, starts_with, string_of};

verus! {

/// A bookmark target that is a web or file address, for the system's
/// opener rather than the pane.
pub open spec fn is_address(t: Seq<char>) -> bool {
    starts_with(t, "http://"@) || starts_with(t, "https://"@) || starts_with(t, "file://"@)
}

/// `post` is `pre` with the bookmark list at folder `path`, the cursor at
/// `cursor`.
pub open spec fn list_at(pre: App, post: App, cursor: usize, path: Seq<usize>) -> bool {
    &&& post == (App { popup: post.popup, ..pre })
    &&& post.popup matches Popup::Shortcuts { cursor: c, path: p } && c == cursor && p@ == path
}

/// `post` is `pre` after `key` over the bookmark list. Esc, `q`, Left or
/// `h` climb out of a folder, or close the list at the top; Enter, Right or
/// `l` go into a folder, and Enter opens a bookmark; `j`/`k` and the arrows
/// move; `a` and `A` add a bookmark or a folder here; `d` asks before
/// removing the one under the cursor, `r` renames it, `p` copies its
/// target.
pub open spec fn shortcuts_keyed(pre: App, post: App, key: KeyCode) -> bool {
    let cursor = pre.popup->Shortcuts_cursor;
    let path = pre.popup->Shortcuts_path@;
    let level = sc_level(pre.shortcuts@, path);
    let n = level.len();
    let here = cursor < n;
    let group = here && level[cursor as int].children is Some;
    let closed = App { popup: Popup::Closed, ..pre };
    match key {
        KeyCode::Esc | KeyCode::Char('q') | KeyCode::Left | KeyCode::Char('h') => if path.len() > 0 {
            list_at(pre, post, 0, path.drop_last())
        } else {
            post == closed
        },
        KeyCode::Enter | KeyCode::Right | KeyCode::Char('l') => if n == 0 {
            post == pre
        } else if group {
            list_at(pre, post, 0, path.push(cursor))
        } else if key == KeyCode::Enter {
            if here {
                let s = level[cursor as int];
                effect_added(
                    closed,
                    post,
                    |e: Effect|
                        e == Effect::OpenShortcut { name: s.name, target: s.target, url: is_address(s.target@) },
                )
            } else {
                post == closed
            }
        } else {
            post == pre
        },
        KeyCode::Char('j') | KeyCode::Down => if n > 0 && cursor + 1 < n {
            list_at(pre, post, (cursor + 1) as usize, path)
        } else {
            post == pre
        },
        KeyCode::Char('k') | KeyCode::Up => list_at(
            pre,
            post,
            if cursor > 0 {
                (cursor - 1) as usize
            } else {
                0
            },
            path,
        ),
        KeyCode::Char('a') => start_shortcut_add_spec(closed, post, path, false),
        KeyCode::Char('A') => start_shortcut_add_spec(closed, post, path, true),
        KeyCode::Char('d') => if n > 0 {
            &&& post == (App { popup: post.popup, ..pre })
            &&& post.popup matches Popup::ConfirmShortcutDelete { path: p, idx, back }
            &&& post.popup->ConfirmShortcutDelete_path@ == path
            &&& post.popup->ConfirmShortcutDelete_idx == cursor
            &&& *post.popup->ConfirmShortcutDelete_back == pre.popup
        } else {
            post == pre
        },
        KeyCode::Char('r') => if n > 0 {
            exists|v: Vec<usize>|
                #![trigger shortcut_edit_started(closed, post, v, cursor)]
                v@ == path && shortcut_edit_started(closed, post, v, cursor)
        } else {
            post == pre
        },
        KeyCode::Char('p') => if here && !group {
            effect_added(pre, post, |e: Effect| e == Effect::CopyShortcutTarget { target: level[cursor as int].target })
        } else {
            post == pre
        },
        _ => post == pre,
    }
}

fn copy_path(v: &Vec<usize>) -> (r: Vec<usize>)
    ensures
        r@ == v@,
{
    let mut r: Vec<usize> = Vec::new();
    let mut i: usize = 0;
    while i < v.len()
        invariant
            i <= v.len(),
            r@ == v@.subrange(0, i as int),
        decreases v.len() - i,
    {
        r.push(v[i]);
        i += 1;
    }
    r
}

impl App {
    fn shortcut_list_at(&mut self, cursor: usize, path: Vec<usize>)
        ensures
            list_at(*old(self), *final(self), cursor, path@),
    {
        self.popup = Popup::Shortcuts { cursor, path };
    }

    /// A key over the bookmark list.
    pub fn shortcuts_key(&mut self, key: KeyCode)
        requires
            old(self).popup is Shortcuts,
        ensures
            shortcuts_keyed(*old(self), *final(self), key),
    {
        let (cursor, path) = match &self.popup {
            Popup::Shortcuts { cursor, path } => (*cursor, copy_path(path)),
            _ => return ,
        };
        let (n, group) = {
            let level = sc_level_exec(self.shortcuts.as_slice(), path.as_slice());
            (level.len(), cursor < level.len() && level[cursor].is_group())
        };
        match key {
            KeyCode::Esc | KeyCode::Char('q') | KeyCode::Left | KeyCode::Char('h') => {
                if path.len() > 0 {
                    let mut up = path;
                    up.pop();
                    self.shortcut_list_at(0, up);
                } else {
                    self.popup = Popup::Closed;
                }
            },
            KeyCode::Enter | KeyCode::Right | KeyCode::Char('l') => {
                if n == 0 {
                    return ;
                }
                if group {
                    let mut down = path;
                    down.push(cursor);
                    self.shortcut_list_at(0, down);
                } else if key == KeyCode::Enter {
                    self.popup = Popup::Closed;
                    let found = {
                        let level = sc_level_exec(self.shortcuts.as_slice(), path.as_slice());
                        if cursor < level.len() {
                            Some((level[cursor].name.clone(), level[cursor].target.clone()))
                        } else {
                            None
                        }
                    };
                    if let Some((name, target)) = found {
                        let t = chars_of(target.as_str());
                        let url = has_prefix(t.as_slice(), chars_of("http://").as_slice()) || has_prefix(
                            t.as_slice(),
                            chars_of("https://").as_slice(),
                        ) || has_prefix(t.as_slice(), chars_of("file://").as_slice());
                        let ghost e0 = self.effects@;
                        self.effects.push(Effect::OpenShortcut { name, target, url });
                        assert(self.effects@.drop_last() =~= e0);
                    }
                }
            },
            KeyCode::Char('j') | KeyCode::Down => {
                if n > 0 && cursor < n - 1 {
                    self.shortcut_list_at(cursor + 1, path);
                }
            },
            KeyCode::Char('k') | KeyCode::Up => {
                let c = if cursor > 0 {
                    cursor - 1
                } else {
                    0
                };
                self.shortcut_list_at(c, path);
            },
            KeyCode::Char('a') => {
                self.popup = Popup::Closed;
                self.start_shortcut_add(path, false);
            },
            KeyCode::Char('A') => {
                self.popup = Popup::Closed;
                self.start_shortcut_add(path, true);
            },
            KeyCode::Char('d') => {
                if n > 0 {
                    let mut back = Popup::Closed;
                    std::mem::swap(&mut back, &mut self.popup);
                    self.popup = Popup::ConfirmShortcutDelete { path, idx: cursor, back: Box::new(back) };
                }
            },
            KeyCode::Char('r') => {
                if n > 0 {
                    self.popup = Popup::Closed;
                    let ghost v = path;
                    self.start_shortcut_edit(path, cursor);
                    assert(shortcut_edit_started(App { popup: Popup::Closed, ..*old(self) }, *self, v, cursor));
                }
            },
            KeyCode::Char('p') => {
                if cursor < n && !group {
                    let target = {
                        let level = sc_level_exec(self.shortcuts.as_slice(), path.as_slice());
                        level[cursor].target.clone()
                    };
                    let ghost e0 = self.effects@;
                    self.effects.push(Effect::CopyShortcutTarget { target });
                    assert(self.effects@.drop_last() =~= e0);
                }
            },
            _ => {},
        }
    }

    /// Report on opening the bookmark `name`: its name, or why it failed.
    pub fn after_shortcut_open(&mut self, name: &str, result: Result<(), String>)
        ensures
            *final(self) == (App { message: final(self).message, ..*old(self) }),
            final(self).message matches Some(m) && m@ == match result {
                Ok(()) => "◂ "@ + name@,
                Err(e) => "shortcut failed: "@ + e@,
            },
    {
        let m = match result {
            Ok(()) => cat("◂ ", chars_of(name).as_slice()),
            Err(e) => cat("shortcut failed: ", chars_of(e.as_str()).as_slice()),
        };
        self.message = Some(m);
    }
}


/// Where a bookmark leads: a web or file address for the system's opener,
/// or a place on disk (`app_bundle`: an application bundle, which is
/// launched rather than entered).
#[derive(Debug)]
pub enum ShortcutPlan {
    Address,
    Place { path: String, app_bundle: bool },
}

/// `~` and `~/...` stand for the home directory.
pub open spec fn expand_tilde(t: Seq<char>, home: Seq<char>) -> Seq<char> {
    if t == seq!['~'] {
        home
    } else if starts_with(t, seq!['~', '/']) {
        home + t.drop_first()
    } else {
        t
    }
}

/// `p` without trailing `/`s.
pub open spec fn trim_slashes(p: Seq<char>) -> Seq<char>
    decreases p.len(),
{
    if p.len() > 0 && p.last() == '/' {
        trim_slashes(p.drop_last())
    } else {
        p
    }
}

/// The last part of `p` has the extension `app` (in any case).
pub open spec fn app_path(p: Seq<char>) -> bool {
    let q = trim_slashes(p);
    let n = q.len();
    &&& n >= 5
    &&& q[n - 5] != '/'
    &&& q[n - 4] == '.'
    &&& (q[n - 3] == 'a' || q[n - 3] == 'A')
    &&& (q[n - 2] == 'p' || q[n - 2] == 'P')
    &&& (q[n - 1] == 'p' || q[n - 1] == 'P')
}

/// Where the bookmark `target` leads, with `home` the home directory.
pub open spec fn shortcut_planned(target: Seq<char>, home: Seq<char>) -> (ShortcutPlanView) {
    if is_address(target) {
        ShortcutPlanView::Address
    } else {
        let p = expand_tilde(target, home);
        ShortcutPlanView::Place { path: p, app_bundle: app_path(p) }
    }
}

/// `ShortcutPlan` with its path as characters.
pub enum ShortcutPlanView {
    Address,
    Place { path: Seq<char>, app_bundle: bool },
}

impl ShortcutPlan {
    pub open spec fn view_of(self) -> ShortcutPlanView {
        match self {
            ShortcutPlan::Address => ShortcutPlanView::Address,
            ShortcutPlan::Place { path, app_bundle } => ShortcutPlanView::Place { path: path@, app_bundle },
        }
    }
}

fn trimmed_len(cs: &[char]) -> (n: usize)
    ensures
        n <= cs@.len(),
        trim_slashes(cs@) == cs@.take(n as int),
{
    let mut n = cs.len();
    assert(cs@.take(n as int) =~= cs@);
    while n > 0 && cs[n - 1] == '/'
        invariant
            n <= cs@.len(),
            trim_slashes(cs@) == trim_slashes(cs@.take(n as int)),
        decreases n,
    {
        assert(cs@.take(n as int).drop_last() =~= cs@.take(n - 1));
        n -= 1;
    }
    n
}

/// Where the bookmark `target` leads, with `home` the home directory.
pub fn shortcut_plan(target: &str, home: &str) -> (p: ShortcutPlan)
    ensures
        p.view_of() == shortcut_planned(target@, home@),
{
    let t = chars_of(target);
    if has_prefix(t.as_slice(), chars_of("http://").as_slice()) || has_prefix(t.as_slice(), chars_of("https://").as_slice())
        || has_prefix(t.as_slice(), chars_of("file://").as_slice()) {
        return ShortcutPlan::Address;
    }
    let path: Vec<char> = if t.len() == 1 && t[0] == '~' {
        assert(t@ =~= seq!['~']);
        chars_of(home)
    } else if t.len() >= 2 && t[0] == '~' && t[1] == '/' {
        assert(t@.take(2) =~= seq!['~', '/']);
        assert(starts_with(t@, seq!['~', '/']));
        let mut h = chars_of(home);
        let rest = crate::text::slice_vec(t.as_slice(), 1, t.len());
        assert(rest@ =~= t@.drop_first());
        crate::text::extend_chars(&mut h, rest.as_slice());
        h
    } else {
        proof {
            if starts_with(t@, seq!['~', '/']) {
                assert(t@[0] == seq!['~', '/'][0]);
                assert(t@.take(2)[1] == '/');
            }
        }
        t
    };
    assert(path@ == expand_tilde(target@, home@));
    let n = trimmed_len(path.as_slice());
    let app = n >= 5 && path[n - 5] != '/' && path[n - 4] == '.' && (path[n - 3] == 'a' || path[n - 3] == 'A')
        && (path[n - 2] == 'p' || path[n - 2] == 'P') && (path[n - 1] == 'p' || path[n - 1] == 'P');
    ShortcutPlan::Place { path: string_of(path.as_slice()), app_bundle: app }
}

} // verus!
