//! The one-field prompt: editing its text, and what each kind of prompt
//! does with the answer. Work on the disk or with other programs leaves as
//! an effect; its outcome comes back through the `after_*` functions here.
use vstd::prelude::*;

use crate::actions::message_only;
use crate::ai_ask::{ai_rename_started, ai_search_started};
use crate::chat::{shell_cmd_asked, shell_cmd_refined};
use crate::lang::{tr, tr_spec};
use crate::ops::op_started;
use crate::shortcuts::{shortcut_named, shortcut_targeted};
use crate::count::decimal;
use crate::state::{says, App, Effect, InputKind, KeyCode, KeyPress, NavTarget, OpWork, PathKind, Popup, Shortcut, UndoAction, Vcs};
use crate::text::{cat, chars_of, string_of, trim, trim_chars, views};

verus! {

/// `b` is `a` with one more effect queued, one that `p` describes.
pub open spec fn effect_added(a: App, b: App, p: spec_fn(Effect) -> bool) -> bool {
    &&& b == (App { effects: b.effects, ..a })
    &&& b.effects@.len() == a.effects@.len() + 1
    &&& b.effects@.drop_last() == a.effects@
    &&& p(b.effects@.last())
}

/// `b` is `a` after a prompt of kind `kind` was answered `name` (already
/// trimmed, and not empty unless the kind takes an empty answer).
pub open spec fn prompt_answered<F: Fn(&Vec<Shortcut>) -> Result<(), String>>(
    a: App,
    b: App,
    kind: InputKind,
    name: Seq<char>,
    now: u64,
    save: F,
) -> bool {
    match kind {
        InputKind::Rename { original } => effect_added(
            a,
            b,
            |e: Effect| e matches Effect::RenameInPlace { original: o, name: n } && o == original && n@ == name,
        ),
        InputKind::NewFile { parent } => effect_added(
            a,
            b,
            |e: Effect| e matches Effect::Create { parent: p, name: n, dir } && p == parent && n@ == name && !dir,
        ),
        InputKind::NewDir { parent } => effect_added(
            a,
            b,
            |e: Effect| e matches Effect::Create { parent: p, name: n, dir } && p == parent && n@ == name && dir,
        ),
        InputKind::JumpPath => effect_added(a, b, |e: Effect| e matches Effect::JumpPath { raw } && raw@ == name),
        InputKind::FindRecursive => effect_added(
            a,
            b,
            |e: Effect| e matches Effect::StartFind { query, content } && query@ == name && !content,
        ),
        InputKind::GrepRecursive => effect_added(
            a,
            b,
            |e: Effect| e matches Effect::StartFind { query, content } && query@ == name && content,
        ),
        InputKind::AiShellCmd => shell_cmd_asked(a, b, name),
        InputKind::AiShellRefine { description, rejected } => shell_cmd_refined(
            a,
            b,
            description@,
            rejected@,
            name,
        ),
        InputKind::AiRename => ai_rename_started(a, b, name),
        InputKind::AiSearch => ai_search_started(a, b, name),
        InputKind::SvnCommit { paths } => effect_added(
            a,
            b,
            |e: Effect| e matches Effect::SvnCommit { paths: p, message } && p == paths && message@ == name,
        ),
        InputKind::BulkRenamePattern { targets } => crate::review::bulk_rename_built(a, b, targets, name),
        InputKind::TransferAs { op, src, dest_dir } => effect_added(
            a,
            b,
            |e: Effect|
                e matches Effect::TransferAs { op: o, src: s, dest_dir: d, name: n } && o == op && s == src && d
                    == dest_dir && n@ == name,
        ),
        InputKind::DestPath { op, targets } => effect_added(
            a,
            b,
            |e: Effect| e matches Effect::CheckDest { op: o, targets: t, raw } && o == op && t == targets && raw@ == name,
        ),
        InputKind::ShortcutName { path, edit_idx, group } => exists|r: Result<(), String>|
            #[trigger] shortcut_named(a, b, path, edit_idx, group, name, save, r),
        InputKind::ShortcutTarget { path, edit_idx, name: stored } => exists|r: Result<(), String>|
            #[trigger] shortcut_targeted(a, b, path, edit_idx, stored@, name, save, r),
        InputKind::ExtractPassword { archive, members, dest, strip } => op_started(
            a,
            b,
            "extracting"@,
            |w: OpWork|
                w matches OpWork::Extract { archive: x, members: m, dest: d, password: Some(pw), strip: s }
                    && x == archive && m == members && d == dest && pw@ == name && s == strip,
            now,
        ),
        InputKind::ZipPassword { dest, sources } => op_started(
            a,
            b,
            "zipping"@,
            |w: OpWork|
                w matches OpWork::Zip { dest: d, sources: s, password: Some(pw) } && d == dest && s == sources
                    && pw@ == name,
            now,
        ),
    }
}

/// `b` is `a` after Enter in its prompt: the prompt closes; an empty
/// answer cancels (except where empty means something); otherwise the
/// answer, trimmed, goes where the prompt's kind sends it.
pub open spec fn text_finished<F: Fn(&Vec<Shortcut>) -> Result<(), String>>(a: App, b: App, now: u64, save: F) -> bool {
    let closed = App { popup: Popup::Closed, ..a };
    match a.popup {
        Popup::TextInput { buffer, kind, .. } => {
            let name = trim(buffer@);
            if name.len() == 0 && !(kind is AiShellRefine) {
                message_only(closed, b) && says(
                    b.message,
                    tr_spec(a.lang, "cancelled (empty name)"@, "中止しました（名前が空）"@),
                )
            } else {
                prompt_answered(closed, b, kind, name, now, save)
            }
        },
        _ => b == closed,
    }
}

pub proof fn lemma_op_started_weaken(
    a: App,
    b: App,
    label: Seq<char>,
    f: spec_fn(OpWork) -> bool,
    g: spec_fn(OpWork) -> bool,
    now: u64,
)
    requires
        op_started(a, b, label, f, now),
        forall|w: OpWork| #[trigger] f(w) ==> g(w),
    ensures
        op_started(a, b, label, g, now),
{
    if a.ops.job is None {
        let w = b.effects@.last()->SpawnOp_work;
        assert(f(w));
    } else {
        assert(f(b.ops.queue@[a.ops.queue@.len() as int].work));
    }
}

impl App {
    /// Queue `e`, one more effect.
    fn push_effect(&mut self, e: Effect)
        ensures
            *final(self) == (App { effects: final(self).effects, ..*old(self) }),
            final(self).effects@.len() == old(self).effects@.len() + 1,
            final(self).effects@.drop_last() == old(self).effects@,
            final(self).effects@.last() == e,
    {
        let ghost e0 = self.effects@;
        self.effects.push(e);
        assert(self.effects@.drop_last() =~= e0);
    }

    /// Send the answer `name` where a prompt of kind `kind` sends it.
    fn answer_prompt<F: Fn(&Vec<Shortcut>) -> Result<(), String>>(
        &mut self,
        kind: InputKind,
        name: String,
        now: u64,
        save: F,
    )
        requires
            forall|v: &Vec<Shortcut>| call_requires(save, (v,)),
        ensures
            prompt_answered(*old(self), *final(self), kind, name@, now, save),
    {
        match kind {
            InputKind::Rename { original } => self.push_effect(Effect::RenameInPlace { original, name }),
            InputKind::NewFile { parent } => self.push_effect(Effect::Create { parent, name, dir: false }),
            InputKind::NewDir { parent } => self.push_effect(Effect::Create { parent, name, dir: true }),
            InputKind::JumpPath => self.push_effect(Effect::JumpPath { raw: name }),
            InputKind::FindRecursive => self.push_effect(Effect::StartFind { query: name, content: false }),
            InputKind::GrepRecursive => self.push_effect(Effect::StartFind { query: name, content: true }),
            InputKind::AiShellCmd => self.start_ai_shell_cmd(name.as_str()),
            InputKind::AiShellRefine { description, rejected } => self.start_ai_shell_refine(
                description.as_str(),
                rejected.as_str(),
                name.as_str(),
            ),
            InputKind::AiRename => self.start_ai_rename(name.as_str()),
            InputKind::AiSearch => self.start_ai_search(name.as_str()),
            InputKind::SvnCommit { paths } => self.push_effect(Effect::SvnCommit { paths, message: name }),
            InputKind::BulkRenamePattern { targets } => self.build_bulk_rename(targets, name),
            InputKind::DestPath { op, targets } => self.push_effect(Effect::CheckDest { op, targets, raw: name }),
            InputKind::TransferAs { op, src, dest_dir } => self.push_effect(
                Effect::TransferAs { op, src, dest_dir, name },
            ),
            InputKind::ShortcutName { path, edit_idx, group } => {
                let ghost (p0, e0, g0, n0) = (path, edit_idx, group, name@);
                let r = self.finish_shortcut_name(path, edit_idx, group, name, save);
                assert(shortcut_named(*old(self), *self, p0, e0, g0, n0, save, r));
            },
            InputKind::ShortcutTarget { path, edit_idx, name: stored } => {
                let ghost (p0, e0, s0, n0) = (path, edit_idx, stored@, name@);
                let r = self.finish_shortcut_target(path, edit_idx, stored, name, save);
                assert(shortcut_targeted(*old(self), *self, p0, e0, s0, n0, save, r));
            },
            InputKind::ExtractPassword { archive, members, dest, strip } => {
                let ghost (x, m, d, s, n) = (archive, members, dest, strip, name@);
                let work = OpWork::Extract { archive, members, dest, password: Some(name), strip };
                let ghost wg = work;
                self.start_op("extracting", work, now);
                proof {
                    lemma_op_started_weaken(
                        *old(self),
                        *self,
                        "extracting"@,
                        |w: OpWork| w == wg,
                        |w: OpWork|
                            w matches OpWork::Extract { archive: x2, members: m2, dest: d2, password: Some(pw), strip: s2 }
                                && x2 == x && m2 == m && d2 == d && pw@ == n && s2 == s,
                        now,
                    );
                }
            },
            InputKind::ZipPassword { dest, sources } => {
                let ghost (d, s, n) = (dest, sources, name@);
                let work = OpWork::Zip { dest, sources, password: Some(name) };
                let ghost wg = work;
                self.start_op("zipping", work, now);
                proof {
                    lemma_op_started_weaken(
                        *old(self),
                        *self,
                        "zipping"@,
                        |w: OpWork| w == wg,
                        |w: OpWork|
                            w matches OpWork::Zip { dest: d2, sources: s2, password: Some(pw) } && d2 == d && s2 == s
                                && pw@ == n,
                        now,
                    );
                }
            },
        }
    }

    /// Enter in a prompt: close it and act on the trimmed answer; an empty
    /// one cancels, except where empty means something (adjusting a
    /// proposed command with nothing goes back to it). `save` writes the
    /// bookmarks out; `now` stamps an operation started here.
    pub fn finish_text_input<F: Fn(&Vec<Shortcut>) -> Result<(), String>>(&mut self, now: u64, save: F)
        requires
            forall|v: &Vec<Shortcut>| call_requires(save, (v,)),
        ensures
            text_finished(*old(self), *final(self), now, save),
    {
        let mut popup = Popup::Closed;
        std::mem::swap(&mut popup, &mut self.popup);
        let (buffer, kind) = match popup {
            Popup::TextInput { buffer, kind, .. } => (buffer, kind),
            _ => return ,
        };
        let nc = trim_chars(chars_of(buffer.as_str()).as_slice());
        let empty_means_something = match &kind {
            InputKind::AiShellRefine { .. } => true,
            _ => false,
        };
        if nc.len() == 0 && !empty_means_something {
            self.message = Some(tr(self.lang, "cancelled (empty name)", "中止しました（名前が空）").to_owned());
            return ;
        }
        let name = string_of(nc.as_slice());
        self.answer_prompt(kind, name, now, save);
    }
}

/// `b` is `a` after a rename or a creation made in a prompt came back as
/// `result`: the active listing is reloaded; on success the step is
/// remembered for undo (as `undo` of the new path) and `done` + the new path is said, on
/// failure a notice shows why.
pub open spec fn fs_edit_reported(
    a: App,
    b: App,
    result: Result<String, String>,
    undo: spec_fn(String) -> UndoAction,
    done: Seq<char>,
) -> bool {
    match result {
        Ok(p) => {
            &&& crate::ops::undo_recorded(a, App { effects: a.effects, message: a.message, ..b }, undo(p))
            &&& b.effects@ == a.effects@.push(Effect::ReloadActive)
            &&& says(b.message, done + p@)
        },
        Err(e) => {
            &&& b == (App { effects: b.effects, popup: b.popup, ..a })
            &&& b.effects@ == a.effects@.push(Effect::ReloadActive)
            &&& b.popup matches Popup::Notice { lines } && views(lines@) == seq![e@]
        },
    }
}

/// `b` is `a` after the typed path `path` turned out to be `kind`.
pub open spec fn jumped(a: App, b: App, path: Seq<char>, kind: PathKind) -> bool {
    match kind {
        PathKind::Missing => message_only(a, b) && says(
            b.message,
            tr_spec(a.lang, "no such path: "@ + path, "そのようなパスはありません: "@ + path),
        ),
        PathKind::Dir => {
            &&& b == (App { effects: b.effects, message: b.message, ..a })
            &&& b.effects@.len() == a.effects@.len() + 1
            &&& b.effects@.drop_last() == a.effects@
            &&& b.effects@.last() matches Effect::Navigate { to: NavTarget::Path(p) } && p@ == path
            &&& says(b.message, "→ "@ + path)
        },
        PathKind::File => {
            &&& b == (App { effects: b.effects, ..a })
            &&& b.effects@.len() == a.effects@.len() + 2
            &&& b.effects@.take(a.effects@.len() as int) == a.effects@
            &&& b.effects@[a.effects@.len() as int] matches Effect::Navigate { to: NavTarget::Reveal(p) } && p@ == path
            &&& b.effects@.last() == Effect::OpenSelected
        },
    }
}

/// `b` is `a` after `svn commit` of `paths` was asked for, `commit` being
/// the commit itself and `probe` the direct look at the directory.
pub open spec fn svn_committed<F: Fn(&String, &Vec<String>, &String) -> Result<(), String>>(
    a: App,
    b: App,
    paths: Vec<String>,
    message: String,
    probe: Option<Vcs>,
    commit: F,
) -> bool {
    match a.vcs_dir_spec(probe) {
        None => b == a,
        Some((dir, _k)) => if paths@.len() == 0 {
            message_only(a, b) && says(
                b.message,
                tr_spec(a.lang, "nothing selected to commit"@, "コミットする対象が選択されていません"@),
            )
        } else {
            exists|d: String, r: Result<(), String>|
                #![trigger call_ensures(commit, (&d, &paths, &message), r)]
                {
                    &&& d@ == dir
                    &&& call_ensures(commit, (&d, &paths, &message), r)
                    &&& match r {
                        Ok(_) => {
                            &&& b == (App {
                                message: b.message,
                                effects: b.effects,
                                git: (None, None),
                                disk_known: (false, false),
                                ..a
                            })
                            &&& b.effects@ == a.effects@.push(Effect::ReloadActive)
                            &&& says(b.message, "● committed "@ + decimal(paths@.len()) + " path(s)"@)
                        },
                        Err(e) => message_only(a, b) && says(b.message, "svn commit: "@ + e@),
                    }
                }
        },
    }
}

impl App {
    /// A rename asked for in a prompt came back: `result` is the new path,
    /// or why not.
    pub fn after_rename(&mut self, original: String, result: Result<String, String>)
        ensures
            fs_edit_reported(
                *old(self),
                *final(self),
                result,
                |p: String| UndoAction::Rename { from: original, to: p },
                "renamed: "@,
            ),
    {
        match result {
            Ok(p) => {
                let said = cat("renamed: ", chars_of(p.as_str()).as_slice());
                self.record_undo(UndoAction::Rename { from: original, to: p });
                self.effects.push(Effect::ReloadActive);
                self.message = Some(said);
            },
            Err(e) => {
                self.effects.push(Effect::ReloadActive);
                let lines = vec![e];
                assert(views(lines@) =~= seq![lines@[0]@]);
                self.popup = Popup::Notice { lines };
            },
        }
    }

    /// A file (or, with `dir`, a directory) asked for in a prompt came
    /// back: `result` is its path, or why not.
    pub fn after_create(&mut self, dir: bool, result: Result<String, String>)
        ensures
            fs_edit_reported(
                *old(self),
                *final(self),
                result,
                |p: String| UndoAction::Created { path: p },
                if dir {
                    "mkdir: "@
                } else {
                    "created: "@
                },
            ),
    {
        match result {
            Ok(p) => {
                let said = if dir {
                    cat("mkdir: ", chars_of(p.as_str()).as_slice())
                } else {
                    cat("created: ", chars_of(p.as_str()).as_slice())
                };
                self.record_undo(UndoAction::Created { path: p });
                self.effects.push(Effect::ReloadActive);
                self.message = Some(said);
            },
            Err(e) => {
                self.effects.push(Effect::ReloadActive);
                let lines = vec![e];
                assert(views(lines@) =~= seq![lines@[0]@]);
                self.popup = Popup::Notice { lines };
            },
        }
    }

    /// The jump prompt's path, expanded, turned out to be `kind`: a
    /// directory is gone to; a file is shown in its directory and opened
    /// the way Enter opens it.
    pub fn finish_jump_path(&mut self, path: String, kind: PathKind)
        ensures
            jumped(*old(self), *final(self), path@, kind),
    {
        match kind {
            PathKind::Missing => {
                self.message = Some(
                    crate::lang::tr_with(
                        self.lang,
                        "no such path: ",
                        "そのようなパスはありません: ",
                        chars_of(path.as_str()).as_slice(),
                    ),
                );
            },
            PathKind::Dir => {
                let said = cat("→ ", chars_of(path.as_str()).as_slice());
                self.push_effect(Effect::Navigate { to: NavTarget::Path(path) });
                self.message = Some(said);
            },
            PathKind::File => {
                let ghost e0 = self.effects@;
                self.effects.push(Effect::Navigate { to: NavTarget::Reveal(path) });
                self.effects.push(Effect::OpenSelected);
                assert(self.effects@.take(e0.len() as int) =~= e0);
            },
        }
    }

    /// `svn commit` the paths with `message`, `commit` doing the commit in
    /// the working copy's directory.
    pub fn svn_commit<F: Fn(&String, &Vec<String>, &String) -> Result<(), String>>(
        &mut self,
        paths: Vec<String>,
        message: String,
        probe: Option<Vcs>,
        commit: F,
    )
        requires
            forall|d: &String, p: &Vec<String>, m: &String| call_requires(commit, (d, p, m)),
        ensures
            svn_committed(*old(self), *final(self), paths, message, probe, commit),
    {
        let dir = match self.vcs_dir(probe) {
            Some((d, _k)) => d,
            None => return ,
        };
        if paths.len() == 0 {
            self.message = Some(
                tr(self.lang, "nothing selected to commit", "コミットする対象が選択されていません").to_owned(),
            );
            return ;
        }
        let r = commit(&dir, &paths, &message);
        match r {
            Ok(()) => {
                let mut m = cat("● committed ", crate::count::decimal_chars(paths.len()).as_slice());
                crate::text::push_chars(&mut m, chars_of(" path(s)").as_slice());
                self.message = Some(m);
                self.invalidate_git();
                self.effects.push(Effect::ReloadActive);
            },
            Err(e) => {
                self.message = Some(cat("svn commit: ", chars_of(e.as_str()).as_slice()));
            },
        }
    }
}

/// The caret held to the text: at most its length.
pub open spec fn caret(c: usize, len: nat) -> nat {
    if c <= len {
        c as nat
    } else {
        len
    }
}

/// `s` put into `b` at the caret `c`: the new text and the caret after it.
pub open spec fn insert_text(b: Seq<char>, c: usize, s: Seq<char>) -> (Seq<char>, nat) {
    let p = caret(c, b.len());
    (b.take(p as int) + s + b.skip(p as int), p + s.len())
}

/// Backspace at the caret `c`.
pub open spec fn backspace_text(b: Seq<char>, c: usize) -> (Seq<char>, nat) {
    let p = caret(c, b.len());
    if p > 0 {
        (b.take(p - 1) + b.skip(p as int), (p - 1) as nat)
    } else {
        (b, p)
    }
}

/// Delete at the caret `c`.
pub open spec fn delete_text(b: Seq<char>, c: usize) -> (Seq<char>, nat) {
    let p = caret(c, b.len());
    if p < b.len() {
        (b.take(p as int) + b.skip((p + 1) as int), p)
    } else {
        (b, p)
    }
}

/// `s` without the line breaks at its end.
pub open spec fn strip_breaks_end(s: Seq<char>) -> Seq<char>
    decreases s.len(),
{
    if s.len() > 0 && (s.last() == '\r' || s.last() == '\n') {
        strip_breaks_end(s.drop_last())
    } else {
        s
    }
}

proof fn lemma_strip_breaks_end_len(s: Seq<char>)
    ensures
        strip_breaks_end(s).len() <= s.len(),
    decreases s.len(),
{
    if s.len() > 0 && (s.last() == '\r' || s.last() == '\n') {
        lemma_strip_breaks_end_len(s.drop_last());
    }
}

/// Does a prompt of this kind take several lines?
pub open spec fn multiline_kind(k: InputKind) -> bool {
    k is SvnCommit
}

/// `b` is `a` with its prompt now holding `buf`, the caret at `cur` and
/// the selection `sel`; nothing else changed.
pub open spec fn input_now(a: App, b: App, buf: Seq<char>, cur: nat, sel: bool) -> bool {
    &&& b == (App { popup: b.popup, ..a })
    &&& a.popup matches Popup::TextInput { title, prompt, kind, .. }
    &&& b.popup matches Popup::TextInput { title: t, prompt: q, buffer: bb, cursor: cc, select_all: ss, kind: k }
    &&& t == a.popup->TextInput_title && q == a.popup->TextInput_prompt && k == a.popup->TextInput_kind
    &&& bb@ == buf && cc == cur && ss == sel
}

/// `b` is `a` after `key` in its prompt (`clipboard` is the clipboard's
/// text, for `Ctrl+V`).
pub open spec fn text_keyed<F: Fn(&Vec<Shortcut>) -> Result<(), String>>(
    a: App,
    b: App,
    key: KeyPress,
    clipboard: Option<String>,
    now: u64,
    save: F,
) -> bool {
    let bu = a.popup->TextInput_buffer@;
    let cu = a.popup->TextInput_cursor;
    let sa = a.popup->TextInput_select_all;
    let kind = a.popup->TextInput_kind;
    let len = bu.len();
    let ml = multiline_kind(kind);
    if key.ctrl && (key.code == KeyCode::Char('v') || key.code == KeyCode::Char('V')) {
        match clipboard {
            Some(t) => {
                let r = insert_text(bu, cu, strip_breaks_end(t@));
                input_now(a, b, r.0, r.1, sa)
            },
            None => message_only(a, b) && says(
                b.message,
                tr_spec(a.lang, "clipboard has no text"@, "クリップボードにテキストがありません"@),
            ),
        }
    } else if key.ctrl && (key.code == KeyCode::Char('c') || key.code == KeyCode::Char('C')) {
        if len == 0 {
            b == a
        } else {
            effect_added(a, b, |e: Effect| e matches Effect::SetClipboard { text } && text@ == bu)
        }
    } else if key.ctrl && (key.code == KeyCode::Char('x') || key.code == KeyCode::Char('X')) {
        if len == 0 {
            b == a
        } else {
            let m = App { popup: b.popup, ..a };
            &&& input_now(a, m, seq![], 0, false)
            &&& effect_added(m, b, |e: Effect| e matches Effect::SetClipboard { text } && text@ == bu)
        }
    } else if key.code == KeyCode::Esc {
        match kind {
            InputKind::AiShellRefine { description, rejected } => b == (App {
                popup: Popup::AiShellConfirm { command: rejected, description },
                ..a
            }),
            _ => b == (App { popup: Popup::Closed, ..a }),
        }
    } else if key.code == KeyCode::Enter && !(ml && (key.shift || key.alt)) {
        text_finished(a, b, now, save)
    } else {
        text_edited(a, b, key)
    }
}

/// `b` is `a` after an editing key in its prompt: a typed character (or,
/// where the prompt takes several lines, a newline) replaces the selection
/// or goes in at the caret; the caret moves; Backspace and Delete remove
/// the selection or one character; any edit ends the selection.
pub open spec fn text_edited(a: App, b: App, key: KeyPress) -> bool {
    let bu = a.popup->TextInput_buffer@;
    let cu = a.popup->TextInput_cursor;
    let sa = a.popup->TextInput_select_all;
    let kind = a.popup->TextInput_kind;
    let len = bu.len();
    let ml = multiline_kind(kind);
    let base = if sa {
        seq![]
    } else {
        bu
    };
    let bc: usize = if sa {
        0
    } else {
        cu
    };
    if (key.code == KeyCode::Enter && ml && (key.shift || key.alt)) || (key.code == KeyCode::Char('j') && ml
        && key.ctrl) {
        let r = insert_text(base, bc, seq!['\n']);
        input_now(a, b, r.0, r.1, false)
    } else if key.code == KeyCode::Left {
        input_now(a, b, bu, if cu > 0 { (cu - 1) as nat } else { 0 }, false)
    } else if key.code == KeyCode::Right {
        input_now(a, b, bu, if cu + 1 <= len { (cu + 1) as nat } else { len }, false)
    } else if key.code == KeyCode::Home {
        input_now(a, b, bu, 0, false)
    } else if key.code == KeyCode::End {
        input_now(a, b, bu, len, false)
    } else if key.ctrl && (key.code == KeyCode::Char('a') || key.code == KeyCode::Char('A')) {
        input_now(a, b, bu, len, len > 0)
    } else if sa && (key.code == KeyCode::Backspace || key.code == KeyCode::Delete) {
        input_now(a, b, seq![], 0, false)
    } else if key.code == KeyCode::Backspace {
        let r = backspace_text(bu, cu);
        input_now(a, b, r.0, r.1, false)
    } else if key.code == KeyCode::Delete {
        let r = delete_text(bu, cu);
        input_now(a, b, r.0, r.1, false)
    } else if key.code matches KeyCode::Char(c) {
        if key.ctrl {
            input_now(a, b, bu, cu as nat, false)
        } else {
            let r = insert_text(base, bc, seq![key.code->Char_0]);
            input_now(a, b, r.0, r.1, false)
        }
    } else {
        input_now(a, b, bu, cu as nat, false)
    }
}

/// `s` put into `cs` at the caret `c`.
pub(crate) fn insert_chars_pub(cs: &[char], c: usize, s: &[char]) -> (r: (Vec<char>, usize))
    requires
        cs@.len() + s@.len() < usize::MAX,
    ensures
        r.0@ == insert_text(cs@, c, s@).0,
        r.1 == insert_text(cs@, c, s@).1,
{
    insert_chars(cs, c, s)
}

/// `s` put into `cs` at the caret `c`.
fn insert_chars(cs: &[char], c: usize, s: &[char]) -> (r: (Vec<char>, usize))
    requires
        cs@.len() + s@.len() < usize::MAX,
    ensures
        r.0@ == insert_text(cs@, c, s@).0,
        r.1 == insert_text(cs@, c, s@).1,
{
    let p = if c <= cs.len() {
        c
    } else {
        cs.len()
    };
    let mut out = crate::text::slice_vec(cs, 0, p);
    crate::text::extend_chars(&mut out, s);
    let tail = crate::text::slice_vec(cs, p, cs.len());
    crate::text::extend_chars(&mut out, tail.as_slice());
    assert(cs@.subrange(0, p as int) =~= cs@.take(p as int));
    assert(cs@.subrange(p as int, cs@.len() as int) =~= cs@.skip(p as int));
    (out, p + s.len())
}

fn backspace_chars(cs: &[char], c: usize) -> (r: (Vec<char>, usize))
    ensures
        r.0@ == backspace_text(cs@, c).0,
        r.1 == backspace_text(cs@, c).1,
{
    let p = if c <= cs.len() {
        c
    } else {
        cs.len()
    };
    if p == 0 {
        let out = crate::text::slice_vec(cs, 0, cs.len());
        assert(out@ =~= cs@);
        return (out, 0);
    }
    let mut out = crate::text::slice_vec(cs, 0, p - 1);
    let tail = crate::text::slice_vec(cs, p, cs.len());
    crate::text::extend_chars(&mut out, tail.as_slice());
    assert(cs@.subrange(0, p - 1) =~= cs@.take(p - 1));
    assert(cs@.subrange(p as int, cs@.len() as int) =~= cs@.skip(p as int));
    (out, p - 1)
}

fn delete_chars(cs: &[char], c: usize) -> (r: (Vec<char>, usize))
    ensures
        r.0@ == delete_text(cs@, c).0,
        r.1 == delete_text(cs@, c).1,
{
    let p = if c <= cs.len() {
        c
    } else {
        cs.len()
    };
    if p >= cs.len() {
        let out = crate::text::slice_vec(cs, 0, cs.len());
        assert(out@ =~= cs@);
        return (out, p);
    }
    let mut out = crate::text::slice_vec(cs, 0, p);
    let tail = crate::text::slice_vec(cs, p + 1, cs.len());
    crate::text::extend_chars(&mut out, tail.as_slice());
    assert(cs@.subrange(0, p as int) =~= cs@.take(p as int));
    assert(cs@.subrange(p + 1, cs@.len() as int) =~= cs@.skip(p + 1));
    (out, p)
}

fn strip_breaks_end_exec(cs: &[char]) -> (out: Vec<char>)
    ensures
        out@ == strip_breaks_end(cs@),
{
    let mut n = cs.len();
    assert(cs@.take(n as int) =~= cs@);
    while n > 0 && (cs[n - 1] == '\r' || cs[n - 1] == '\n')
        invariant
            n <= cs.len(),
            strip_breaks_end(cs@) == strip_breaks_end(cs@.take(n as int)),
        decreases n,
    {
        assert(cs@.take(n as int).drop_last() =~= cs@.take(n - 1));
        n -= 1;
    }
    assert(cs@.take(n as int) =~= cs@.subrange(0, n as int));
    crate::text::slice_vec(cs, 0, n)
}

impl App {
    /// A key in a prompt: editing at the caret, select-all, copy, cut and
    /// paste (`clipboard` is the clipboard's text), a newline where the
    /// prompt takes several lines, Esc to back out and Enter to finish
    /// (with `now` and `save` as `finish_text_input` takes them).
    #[verifier::rlimit(40)]
    pub fn text_input_key<F: Fn(&Vec<Shortcut>) -> Result<(), String>>(
        &mut self,
        key: KeyPress,
        clipboard: Option<String>,
        now: u64,
        save: F,
    )
        requires
            old(self).popup is TextInput,
            old(self).popup->TextInput_buffer@.len() + 1 < usize::MAX,
            clipboard matches Some(t) ==> old(self).popup->TextInput_buffer@.len() + t@.len() < usize::MAX,
            forall|v: &Vec<Shortcut>| call_requires(save, (v,)),
        ensures
            text_keyed(*old(self), *final(self), key, clipboard, now, save),
    {
        let mut p = Popup::Closed;
        std::mem::swap(&mut p, &mut self.popup);
        let (title, prompt, buffer, cursor, select_all, kind) = match p {
            Popup::TextInput { title, prompt, buffer, cursor, select_all, kind } => (
                title,
                prompt,
                buffer,
                cursor,
                select_all,
                kind,
            ),
            _ => {
                return ;
            },
        };
        let ghost a = *old(self);
        let bc = chars_of(buffer.as_str());
        let len = bc.len();
        proof {
            vstd::std_specs::vec::axiom_spec_len(&bc);
        }
        if key.ctrl && (key.code == KeyCode::Char('v') || key.code == KeyCode::Char('V')) {
            match clipboard {
                Some(t) => {
                    let add = strip_breaks_end_exec(chars_of(t.as_str()).as_slice());
                    proof {
                        lemma_strip_breaks_end_len(t@);
                    }
                    let (nb, nc) = insert_chars(bc.as_slice(), cursor, add.as_slice());
                    self.popup = Popup::TextInput {
                        title,
                        prompt,
                        buffer: string_of(nb.as_slice()),
                        cursor: nc,
                        select_all,
                        kind,
                    };
                },
                None => {
                    self.popup = Popup::TextInput { title, prompt, buffer, cursor, select_all, kind };
                    self.message = Some(
                        tr(self.lang, "clipboard has no text", "クリップボードにテキストがありません").to_owned(),
                    );
                },
            }
            return ;
        }
        if key.ctrl && (key.code == KeyCode::Char('c') || key.code == KeyCode::Char('C')) {
            let text = buffer.clone();
            self.popup = Popup::TextInput { title, prompt, buffer, cursor, select_all, kind };
            if len > 0 {
                self.push_effect(Effect::SetClipboard { text });
            }
            return ;
        }
        if key.ctrl && (key.code == KeyCode::Char('x') || key.code == KeyCode::Char('X')) {
            if len == 0 {
                self.popup = Popup::TextInput { title, prompt, buffer, cursor, select_all, kind };
                return ;
            }
            self.popup = Popup::TextInput { title, prompt, buffer: String::new(), cursor: 0, select_all: false, kind };
            self.push_effect(Effect::SetClipboard { text: buffer });
            return ;
        }
        if key.code == KeyCode::Esc {
            match kind {
                InputKind::AiShellRefine { description, rejected } => {
                    self.popup = Popup::AiShellConfirm { command: rejected, description };
                },
                _ => {},
            }
            return ;
        }
        let ml = match &kind {
            InputKind::SvnCommit { .. } => true,
            _ => false,
        };
        if key.code == KeyCode::Enter && !(ml && (key.shift || key.alt)) {
            self.popup = Popup::TextInput { title, prompt, buffer, cursor, select_all: false, kind };
            self.finish_text_input(now, save);
            return ;
        }
        self.popup = Popup::TextInput { title, prompt, buffer, cursor, select_all, kind };
        self.edit_input(key);
    }

    /// An editing key in the prompt on screen.
    fn edit_input(&mut self, key: KeyPress)
        requires
            old(self).popup is TextInput,
            old(self).popup->TextInput_buffer@.len() + 1 < usize::MAX,
        ensures
            text_edited(*old(self), *final(self), key),
    {
        let mut p = Popup::Closed;
        std::mem::swap(&mut p, &mut self.popup);
        let (title, prompt, buffer, cursor, select_all, kind) = match p {
            Popup::TextInput { title, prompt, buffer, cursor, select_all, kind } => (
                title,
                prompt,
                buffer,
                cursor,
                select_all,
                kind,
            ),
            _ => {
                return ;
            },
        };
        let bc = chars_of(buffer.as_str());
        let len = bc.len();
        let ml = match &kind {
            InputKind::SvnCommit { .. } => true,
            _ => false,
        };
        let (base, base_cursor) = if select_all {
            (Vec::new(), 0)
        } else {
            (bc, cursor)
        };
        proof {
            vstd::std_specs::vec::axiom_spec_len(&base);
        }
        assert(base@ =~= (if select_all {
            Seq::<char>::empty()
        } else {
            buffer@
        }));
        if (key.code == KeyCode::Enter && ml && (key.shift || key.alt)) || (key.code == KeyCode::Char('j')
            && ml && key.ctrl) {
            let nl = vec!['\n'];
            assert(nl@ =~= seq!['\n']);
            let (nb, nc) = insert_chars(base.as_slice(), base_cursor, nl.as_slice());
            self.popup = Popup::TextInput { title, prompt, buffer: string_of(nb.as_slice()), cursor: nc, select_all: false, kind };
            return ;
        }
        if key.code == KeyCode::Left {
            let nc = if cursor > 0 {
                cursor - 1
            } else {
                0
            };
            self.popup = Popup::TextInput { title, prompt, buffer, cursor: nc, select_all: false, kind };
        } else if key.code == KeyCode::Right {
            let nc = if cursor < len {
                cursor + 1
            } else {
                len
            };
            self.popup = Popup::TextInput { title, prompt, buffer, cursor: nc, select_all: false, kind };
        } else if key.code == KeyCode::Home {
            self.popup = Popup::TextInput { title, prompt, buffer, cursor: 0, select_all: false, kind };
        } else if key.code == KeyCode::End {
            self.popup = Popup::TextInput { title, prompt, buffer, cursor: len, select_all: false, kind };
        } else if key.ctrl && (key.code == KeyCode::Char('a') || key.code == KeyCode::Char('A')) {
            self.popup = Popup::TextInput { title, prompt, buffer, cursor: len, select_all: len > 0, kind };
        } else if select_all && (key.code == KeyCode::Backspace || key.code == KeyCode::Delete) {
            self.popup = Popup::TextInput { title, prompt, buffer: String::new(), cursor: 0, select_all: false, kind };
        } else if key.code == KeyCode::Backspace {
            let (v, c) = backspace_chars(base.as_slice(), cursor);
            self.popup = Popup::TextInput { title, prompt, buffer: string_of(v.as_slice()), cursor: c, select_all: false, kind };
        } else if key.code == KeyCode::Delete {
            let (v, c) = delete_chars(base.as_slice(), cursor);
            self.popup = Popup::TextInput { title, prompt, buffer: string_of(v.as_slice()), cursor: c, select_all: false, kind };
        } else {
            match key.code {
                KeyCode::Char(c) => {
                    if key.ctrl {
                        self.popup = Popup::TextInput { title, prompt, buffer, cursor, select_all: false, kind };
                    } else {
                        let one = vec![c];
                        assert(one@ =~= seq![c]);
                        let (v, k) = insert_chars(base.as_slice(), base_cursor, one.as_slice());
                        self.popup = Popup::TextInput { title, prompt, buffer: string_of(v.as_slice()), cursor: k, select_all: false, kind };
                    }
                },
                _ => {
                    self.popup = Popup::TextInput { title, prompt, buffer, cursor, select_all: false, kind };
                },
            }
        }
    }
}

/// A character typed and then erased with Backspace leaves the prompt as it
/// was (with no selection to begin with), the caret back where it was
/// (held to the text).
pub proof fn law_type_then_erase(a: App, m: App, b: App, x: char)
    requires
        a.popup is TextInput,
        !a.popup->TextInput_select_all,
        a.popup->TextInput_buffer@.len() + 1 < usize::MAX,
        text_edited(a, m, (KeyPress { code: KeyCode::Char(x), ctrl: false, shift: false, alt: false })),
        text_edited(m, b, (KeyPress { code: KeyCode::Backspace, ctrl: false, shift: false, alt: false })),
    ensures
        b == (App { popup: b.popup, ..a }),
        b.popup->TextInput_buffer@ == a.popup->TextInput_buffer@,
        b.popup->TextInput_cursor == caret(a.popup->TextInput_cursor, a.popup->TextInput_buffer@.len()),
        b.popup->TextInput_kind == a.popup->TextInput_kind,
{
    let bu = a.popup->TextInput_buffer@;
    let p = caret(a.popup->TextInput_cursor, bu.len());
    let t = bu.take(p as int) + seq![x] + bu.skip(p as int);
    assert(t.take(p as int) + t.skip((p + 1) as int) =~= bu);
}

/// Whatever editing key is pressed, the caret stays within the text.
pub proof fn law_caret_stays_in_text(a: App, b: App, key: KeyPress)
    requires
        a.popup is TextInput,
        a.popup->TextInput_cursor <= a.popup->TextInput_buffer@.len(),
        text_edited(a, b, key),
    ensures
        b.popup is TextInput,
        b.popup->TextInput_cursor <= b.popup->TextInput_buffer@.len(),
{
}

} // verus!
