//! `c` and `m`: starting a copy or a move from the active pane to the other
//! one. Out of an archive a copy is an extraction; into a zip the other pane
//! is browsing, a copy adds to it; otherwise the user confirms the targets
//! and the destination.
use vstd::prelude::*;

use crate::actions::{message_only, popup_only};
use crate::lang::{tr_spec, tr_string};
use crate::prompt::effect_added;
use crate::state::{path_views, says, App, Effect, FocusedPane, Pane, PendingOp, Popup};

verus! {

/// `post` is `pre` with only the message changed, to `en` (or `ja`).
pub open spec fn said(pre: App, post: App, en: Seq<char>, ja: Seq<char>) -> bool {
    message_only(pre, post) && says(post.message, tr_spec(pre.lang, en, ja))
}

/// `post` is `pre` after asking to copy (or move) the active pane's
/// targets to the other pane.
pub open spec fn transfer_started(pre: App, post: App, op: PendingOp) -> bool {
    if pre.in_archive() {
        if op == PendingOp::Move {
            said(
                pre,
                post,
                "an archive cannot be moved out of. copy extracts instead"@,
                "アーカイブ内から移動はできません。コピーで展開してください"@,
            )
        } else {
            match pre.opposite() {
                Some(o) => effect_added(pre, post, |e: Effect| e matches Effect::ArchiveCopyOut { dest } && dest@ == o.cwd@),
                None => post == pre,
            }
        }
    } else if pre.opposite() matches Some(o) && o.in_archive {
        if op == PendingOp::Move {
            said(pre, post, "copy adds to the zip; move is not supported"@, "zipへはコピー（追加）のみ — 移動は未対応"@)
        } else if pre.targets().len() == 0 {
            said(pre, post, "nothing to operate on"@, "操作する対象がありません"@)
        } else {
            effect_added(pre, post, |e: Effect| e matches Effect::ZipAdd { sources } && path_views(sources@) == pre.targets())
        }
    } else if (pre.active() matches Some(p) && p.remote) || (pre.opposite() matches Some(o) && o.remote) {
        effect_added(pre, post, |e: Effect| e == Effect::RemoteTransfer { moving: op == PendingOp::Move })
    } else if pre.opposite() is None || pre.active() is None {
        post == pre
    } else if pre.targets().len() == 0 {
        said(pre, post, "nothing to operate on"@, "操作する対象がありません"@)
    } else {
        &&& popup_only(pre, post)
        &&& post.popup matches Popup::ConfirmTransfer { op: o, targets, dest }
        &&& post.popup->ConfirmTransfer_op == op
        &&& path_views(post.popup->ConfirmTransfer_targets@) == pre.targets()
        &&& post.popup->ConfirmTransfer_dest@ == pre.opposite()->0.cwd@
    }
}

impl App {
    /// The other file pane's shown tab, when a file pane has the keyboard.
    pub fn opposite_pane(&self) -> (r: Option<&Pane>)
        ensures
            r matches Some(p) ==> self.opposite() == Some(*p),
            r is None ==> self.opposite() is None,
    {
        match self.focused {
            FocusedPane::Left => if self.right.active < self.right.tabs.len() {
                Some(&self.right.tabs[self.right.active])
            } else {
                None
            },
            FocusedPane::Right => if self.left.active < self.left.tabs.len() {
                Some(&self.left.tabs[self.left.active])
            } else {
                None
            },
            FocusedPane::Shell => None,
        }
    }

    fn queue(&mut self, e: Effect)
        ensures
            effect_added(*old(self), *final(self), |x: Effect| x == e),
    {
        let ghost e0 = self.effects@;
        self.effects.push(e);
        assert(self.effects@.drop_last() =~= e0);
    }

    fn say_tr(&mut self, en: &str, ja: &str)
        ensures
            said(*old(self), *final(self), en@, ja@),
    {
        self.message = Some(tr_string(self.lang, en, ja));
    }

    /// `c` / `m`: copy or move the active pane's targets to the other pane.
    pub fn start_transfer(&mut self, op: PendingOp)
        ensures
            transfer_started(*old(self), *final(self), op),
    {
        let in_archive = match self.active_pane() {
            Some(p) => p.in_archive,
            None => false,
        };
        let dest = self.opposite_cwd();
        if in_archive {
            if op == PendingOp::Move {
                self.say_tr(
                    "an archive cannot be moved out of. copy extracts instead",
                    "アーカイブ内から移動はできません。コピーで展開してください",
                );
            } else if let Some(d) = dest {
                self.queue(Effect::ArchiveCopyOut { dest: d });
            }
            return ;
        }
        let (other_zip, other_remote) = match self.opposite_pane() {
            Some(o) => (o.in_archive, o.remote),
            None => (false, false),
        };
        if other_zip {
            if op == PendingOp::Move {
                self.say_tr("copy adds to the zip; move is not supported", "zipへはコピー（追加）のみ — 移動は未対応");
                return ;
            }
            let sources = self.target_paths();
            if sources.len() == 0 {
                self.say_tr("nothing to operate on", "操作する対象がありません");
                return ;
            }
            let ghost e0 = self.effects@;
            self.effects.push(Effect::ZipAdd { sources });
            assert(self.effects@.drop_last() =~= e0);
            return ;
        }
        let here_remote = match self.active_pane() {
            Some(p) => p.remote,
            None => false,
        };
        if here_remote || other_remote {
            self.queue(Effect::RemoteTransfer { moving: op == PendingOp::Move });
            return ;
        }
        let d = match dest {
            Some(d) => d,
            None => return ,
        };
        if self.active_pane().is_none() {
            return ;
        }
        let targets = self.target_paths();
        if targets.len() == 0 {
            self.say_tr("nothing to operate on", "操作する対象がありません");
            return ;
        }
        self.open_popup(Popup::ConfirmTransfer { op, targets, dest: d });
    }
}

} // verus!
