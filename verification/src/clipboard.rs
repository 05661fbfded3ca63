//! The clipboard keys of the file panes: copying the targets' paths or
//! the files themselves, cutting, and pasting into the active pane (always
//! through the copy/move confirmation).
use vstd::prelude::*;

use crate::actions::{message_only, popup_only};
use crate::count::decimal;
use crate::count::decimal_chars;
use crate::lang::{tr_spec, tr_string};
use crate::prompt::effect_added;
use crate::state::{path_views, says, App, Effect, KeyState, PendingOp, Popup};
use crate::text::{cat, cat3, chars_of, join, join_strings, views};
use crate::transfer_start::said;

verus! {

/// Files waiting on the clipboard to be pasted; `cut` moves them.
#[derive(Debug)]
pub struct FileClip {
    pub cut: bool,
    pub paths: Vec<String>,
}

/// `post` is `pre` after `p`: the active pane's target paths, one a line,
/// go to the clipboard; with none, it says there is nothing to copy.
pub open spec fn paths_copied(pre: App, post: App) -> bool {
    match pre.active() {
        None => post == pre,
        Some(_) => if pre.targets().len() == 0 {
            said(pre, post, "nothing to copy"@, "コピーする対象がありません"@)
        } else {
            effect_added(
                pre,
                post,
                |e: Effect|
                    e matches Effect::CopyPaths { text, count } && text@ == join(pre.targets(), seq!['\n'])
                        && count == pre.targets().len(),
            )
        },
    }
}

/// `post` is `pre` after `P`: the active pane's targets go to the
/// clipboard as files; with none, it says there is nothing to copy.
pub open spec fn file_refs_copied(pre: App, post: App) -> bool {
    match pre.active() {
        None => post == pre,
        Some(_) => if pre.targets().len() == 0 {
            said(pre, post, "nothing to copy"@, "コピーする対象がありません"@)
        } else {
            effect_added(
                pre,
                post,
                |e: Effect| e matches Effect::ClipboardFileRefs { paths } && path_views(paths@) == pre.targets(),
            )
        },
    }
}

/// `post` is `pre` after Ctrl+C (`cut`: Ctrl+X): the active pane's targets
/// are kept to be pasted (and moved, when cut), and go to the system
/// clipboard as files; with none, it says there is nothing to copy.
pub open spec fn targets_clipped(pre: App, post: App, cut: bool) -> bool {
    match pre.active() {
        None => post == pre,
        Some(_) => if pre.targets().len() == 0 {
            said(pre, post, "nothing to copy"@, "コピーする対象がありません"@)
        } else {
            &&& post == (App { keys: KeyState { file_clip: post.keys.file_clip, ..pre.keys }, effects: post.effects, ..pre })
            &&& post.keys.file_clip matches Some(c) && c.cut == cut && path_views(c.paths@) == pre.targets()
            &&& post.effects@.len() == pre.effects@.len() + 1
            &&& post.effects@.drop_last() == pre.effects@
            &&& post.effects@.last() matches Effect::ClipboardFileRefs { paths } && path_views(paths@)
                == pre.targets()
        },
    }
}

/// `post` is `pre` with the copy (`cut`: move) of `paths` into the active
/// pane's directory waiting to be confirmed.
pub open spec fn paste_offered(pre: App, post: App, paths: Seq<Seq<char>>, cut: bool) -> bool {
    &&& post.popup matches Popup::ConfirmTransfer { op, targets, dest }
    &&& post.popup->ConfirmTransfer_op == if cut {
        PendingOp::Move
    } else {
        PendingOp::Copy
    }
    &&& path_views(post.popup->ConfirmTransfer_targets@) == paths
    &&& post.popup->ConfirmTransfer_dest@ == pre.active()->0.cwd@
}

/// `post` is `pre` after `y` or Ctrl+V: files kept with Ctrl+C / Ctrl+X are
/// offered for copying (moving, when cut — and then they are no longer
/// kept) into the active pane; with none kept, the front end reads the
/// system clipboard.
pub open spec fn clip_pasted(pre: App, post: App) -> bool {
    match pre.active() {
        None => post == pre,
        Some(_) => match pre.keys.file_clip {
            Some(c) => {
                &&& post == (App { popup: post.popup, keys: KeyState { file_clip: post.keys.file_clip, ..pre.keys }, ..pre })
                &&& paste_offered(pre, post, path_views(c.paths@), c.cut)
                &&& if c.cut {
                    post.keys.file_clip is None
                } else {
                    post.keys.file_clip == pre.keys.file_clip
                }
            },
            None => effect_added(pre, post, |e: Effect| e == Effect::PasteFiles),
        },
    }
}

/// `post` is `pre` after the files `paths` read from the system clipboard
/// came back: their copy into the active pane waits to be confirmed; with
/// none, it says there is nothing to paste.
pub open spec fn paths_pasted(pre: App, post: App, paths: Seq<Seq<char>>) -> bool {
    match pre.active() {
        None => post == pre,
        Some(_) => if paths.len() == 0 {
            said(pre, post, "nothing to paste"@, "貼り付けるものがありません"@)
        } else {
            popup_only(pre, post) && paste_offered(pre, post, paths, false)
        },
    }
}

/// The report after putting `n` paths on the clipboard: `None` when there
/// is no clipboard.
pub open spec fn clipboard_report(lang: crate::lang::Lang, n: usize, r: Option<Result<(), String>>) -> Seq<char> {
    match r {
        None => tr_spec(lang, "clipboard unavailable"@, "クリップボードを利用できません"@),
        Some(Ok(())) => "◂ copied "@ + decimal(n as nat) + " path(s) to clipboard"@,
        Some(Err(e)) => "clipboard error: "@ + e@,
    }
}

/// The report after putting `n` files on the clipboard.
pub open spec fn file_refs_report(n: usize, r: Result<(), String>) -> Seq<char> {
    match r {
        Ok(()) => "◂ copied "@ + decimal(n as nat) + " file ref(s) to clipboard"@,
        Err(e) => "file-ref clipboard failed: "@ + e@,
    }
}

impl App {
    fn active_dir(&self) -> (r: Option<String>)
        ensures
            r matches Some(d) ==> self.active() matches Some(p) && d@ == p.cwd@,
            r is None ==> self.active() is None,
    {
        match self.active_pane() {
            Some(p) => Some(p.cwd.clone()),
            None => None,
        }
    }

    /// `p`: copy the targets' paths to the clipboard.
    pub fn copy_paths_to_clipboard(&mut self)
        ensures
            paths_copied(*old(self), *final(self)),
    {
        if self.active_pane().is_none() {
            return ;
        }
        let paths = self.target_paths();
        if paths.len() == 0 {
            self.message = Some(tr_string(self.lang, "nothing to copy", "コピーする対象がありません"));
            return ;
        }
        let text = join_strings(paths.as_slice(), "\n");
        proof {
            reveal_strlit("\n");
            assert("\n"@ =~= seq!['\n']);
            assert(views(paths@) =~= path_views(paths@));
        }
        let count = paths.len();
        let ghost e0 = self.effects@;
        self.effects.push(Effect::CopyPaths { text, count });
        assert(self.effects@.drop_last() =~= e0);
    }

    /// `P`: copy the targets to the clipboard as files.
    pub fn copy_file_refs_to_clipboard(&mut self)
        ensures
            file_refs_copied(*old(self), *final(self)),
    {
        if self.active_pane().is_none() {
            return ;
        }
        let paths = self.target_paths();
        if paths.len() == 0 {
            self.message = Some(tr_string(self.lang, "nothing to copy", "コピーする対象がありません"));
            return ;
        }
        let ghost e0 = self.effects@;
        self.effects.push(Effect::ClipboardFileRefs { paths });
        assert(self.effects@.drop_last() =~= e0);
    }

    /// Ctrl+C / Ctrl+X (`cut`): keep the targets to paste, and put them on
    /// the system clipboard.
    pub fn clip_targets(&mut self, cut: bool)
        ensures
            targets_clipped(*old(self), *final(self), cut),
    {
        if self.active_pane().is_none() {
            return ;
        }
        let paths = self.target_paths();
        if paths.len() == 0 {
            self.message = Some(tr_string(self.lang, "nothing to copy", "コピーする対象がありません"));
            return ;
        }
        let again = self.target_paths();
        self.keys.file_clip = Some(FileClip { cut, paths });
        let ghost e0 = self.effects@;
        self.effects.push(Effect::ClipboardFileRefs { paths: again });
        assert(self.effects@.drop_last() =~= e0);
    }

    /// `y` / Ctrl+V: paste what was copied or cut.
    pub fn paste_clip(&mut self)
        ensures
            clip_pasted(*old(self), *final(self)),
    {
        let dest = match self.active_dir() {
            Some(d) => d,
            None => return ,
        };
        let clip = self.keys.file_clip.take();
        match clip {
            Some(c) => {
                let op = if c.cut {
                    PendingOp::Move
                } else {
                    PendingOp::Copy
                };
                let cut = c.cut;
                if cut {
                    self.popup = Popup::ConfirmTransfer { op, targets: c.paths, dest };
                } else {
                    let kept = crate::ops::copy_strings(&c.paths);
                    self.keys.file_clip = Some(c);
                    self.popup = Popup::ConfirmTransfer { op, targets: kept, dest };
                }
            },
            None => {
                let ghost e0 = self.effects@;
                self.effects.push(Effect::PasteFiles);
                assert(self.effects@.drop_last() =~= e0);
            },
        }
    }

    /// The files read from the system clipboard: offer to copy them into
    /// the active pane.
    pub fn paste_paths(&mut self, paths: Vec<String>)
        ensures
            paths_pasted(*old(self), *final(self), path_views(paths@)),
    {
        let dest = match self.active_dir() {
            Some(d) => d,
            None => return ,
        };
        if paths.len() == 0 {
            self.message = Some(tr_string(self.lang, "nothing to paste", "貼り付けるものがありません"));
            return ;
        }
        self.popup = Popup::ConfirmTransfer { op: PendingOp::Copy, targets: paths, dest };
    }

    /// Report on putting `n` paths on the clipboard (`None`: there is no
    /// clipboard).
    pub fn after_clipboard(&mut self, n: usize, r: Option<Result<(), String>>)
        ensures
            *final(self) == (App { message: final(self).message, ..*old(self) }),
            says(final(self).message, clipboard_report(old(self).lang, n, r)),
    {
        let m = match r {
            None => tr_string(self.lang, "clipboard unavailable", "クリップボードを利用できません"),
            Some(Ok(())) => {
                let d = decimal_chars(n);
                cat3("◂ copied ", d.as_slice(), " path(s) to clipboard")
            },
            Some(Err(e)) => cat("clipboard error: ", chars_of(e.as_str()).as_slice()),
        };
        self.message = Some(m);
    }

    /// Report on putting `n` files on the clipboard.
    pub fn after_file_refs(&mut self, n: usize, r: Result<(), String>)
        ensures
            *final(self) == (App { message: final(self).message, ..*old(self) }),
            says(final(self).message, file_refs_report(n, r)),
    {
        let m = match r {
            Ok(()) => {
                let d = decimal_chars(n);
                cat3("◂ copied ", d.as_slice(), " file ref(s) to clipboard")
            },
            Err(e) => cat("file-ref clipboard failed: ", chars_of(e.as_str()).as_slice()),
        };
        self.message = Some(m);
    }
}

} // verus!
