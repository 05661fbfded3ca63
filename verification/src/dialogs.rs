//! The yes/no dialogs: what `y` (or Enter), `a`, `r` and `n` (or Esc) do
//! over each of them.
use vstd::prelude::*;

use crate::actions::{is_prompt, message_only, popup_only};
use crate::compare::{diff_copy_cancelled, diff_copy_confirmed, dir_sync_cancelled};
use crate::lang::{tr, tr_spec};
use crate::ops::op_started;
use crate::shortcuts::{shortcut_delete_cancelled, shortcut_delete_confirmed};
use crate::state::{path_views, says, App, Conflict, Effect, InputKind, KeyCode, OpWork, PendingOp, Popup, Shortcut};
use crate::transfer::transfer_confirmed;

verus! {

/// The "copy as" / "move as" prompt's title.
pub open spec fn as_title(op: PendingOp) -> Seq<char> {
    match op {
        PendingOp::Move => "move as"@,
        PendingOp::Copy => "copy as"@,
    }
}

/// `post` is `pre` after `key` over a yes/no dialog (`now` stamps what is
/// started, `made` is what a confirmed copy would create, `save` writes
/// the bookmarks out). Over the quit question `y` leaves. Otherwise `n` or
/// Esc backs out (to the comparison or the bookmark list where the dialog
/// came from one); `y` or Enter says yes to what was asked; `a` is the
/// strong yes (delete for good, overwrite); `r` renames a single item on
/// its way.
pub open spec fn dialog_keyed<F: Fn(&Vec<Shortcut>) -> Result<(), String>>(
    pre: App,
    post: App,
    key: KeyCode,
    now: u64,
    made: Seq<Seq<char>>,
    save: F,
) -> bool {
    let closed = App { popup: Popup::Closed, ..pre };
    let yes = key == KeyCode::Char('y') || key == KeyCode::Enter;
    let no = key == KeyCode::Char('n') || key == KeyCode::Esc;
    if pre.popup is ConfirmQuit {
        if yes {
            &&& post == (App { effects: post.effects, ..closed })
            &&& post.effects@ == pre.effects@.push(Effect::Quit)
        } else if no {
            post == closed
        } else {
            post == pre
        }
    } else if no {
        match pre.popup {
            Popup::ConfirmDiffCopy { .. } => diff_copy_cancelled(pre, post),
            Popup::ConfirmShortcutDelete { .. } => shortcut_delete_cancelled(pre, post),
            Popup::ConfirmDirSync { .. } => dir_sync_cancelled(pre, post),
            _ => post == closed,
        }
    } else if yes {
        match pre.popup {
            Popup::ConfirmDelete { targets } => op_started(
                closed,
                post,
                "deleting"@,
                |w: OpWork| w == (OpWork::Delete { targets, permanent: false }),
                now,
            ),
            Popup::ConfirmTransfer { .. } => transfer_confirmed(pre, post, Conflict::Skip, now, made),
            Popup::ConfirmDiscard { targets, dir } => {
                &&& post == (App { effects: post.effects, ..closed })
                &&& post.effects@ == pre.effects@.push(Effect::GitDiscard { targets, dir })
            },
            Popup::ConfirmDiffCopy { .. } => diff_copy_confirmed(pre, post),
            Popup::ConfirmShortcutDelete { .. } => shortcut_delete_confirmed(pre, post, save),
            Popup::ConfirmDirSync { ops, .. } => op_started(
                closed,
                post,
                "syncing"@,
                |w: OpWork| w == (OpWork::Sync { ops }),
                now,
            ),
            Popup::ConfirmSnippet { cmd, enter, .. } => App::delivered(closed, post, cmd@, enter),
            Popup::Notice { .. } => post == closed,
            _ => post == pre,
        }
    } else if key == KeyCode::Char('a') {
        match pre.popup {
            Popup::ConfirmDelete { targets } => op_started(
                closed,
                post,
                "deleting"@,
                |w: OpWork| w == (OpWork::Delete { targets, permanent: true }),
                now,
            ),
            Popup::ConfirmTransfer { .. } => transfer_confirmed(pre, post, Conflict::Overwrite, now, made),
            _ => post == pre,
        }
    } else if key == KeyCode::Char('r') {
        match pre.popup {
            Popup::ConfirmTransfer { op, targets, dest } => if targets@.len() == 1 {
                let name = match crate::chat::path_file_name(targets@[0]@) {
                    Some(n) => n,
                    None => seq![],
                };
                &&& popup_only(pre, post)
                &&& is_prompt(post.popup, as_title(op), "new name in the destination:"@, name)
                &&& post.popup->TextInput_kind matches InputKind::TransferAs { op: o, src, dest_dir }
                &&& post.popup->TextInput_kind->TransferAs_op == op
                &&& post.popup->TextInput_kind->TransferAs_src@ == targets@[0]@
                &&& post.popup->TextInput_kind->TransferAs_dest_dir@ == dest@
            } else {
                message_only(pre, post) && says(
                    post.message,
                    tr_spec(pre.lang, "rename applies to a single item"@, "リネームは1件ずつです"@),
                )
            },
            _ => post == pre,
        }
    } else {
        post == pre
    }
}

impl App {
    /// A key over a yes/no dialog.
    pub fn confirm_dialog_key<F: Fn(&Vec<Shortcut>) -> Result<(), String>>(
        &mut self,
        key: KeyCode,
        now: u64,
        made: Vec<String>,
        save: F,
    )
        requires
            forall|v: &Vec<Shortcut>| call_requires(save, (v,)),
        ensures
            dialog_keyed(*old(self), *final(self), key, now, path_views(made@), save),
    {
        let yes = key == KeyCode::Char('y') || key == KeyCode::Enter;
        let no = key == KeyCode::Char('n') || key == KeyCode::Esc;
        let quit = match self.popup {
            Popup::ConfirmQuit => true,
            _ => false,
        };
        if quit {
            if yes {
                self.popup = Popup::Closed;
                self.effects.push(Effect::Quit);
            } else if no {
                self.popup = Popup::Closed;
            }
            return ;
        }
        if no {
            match self.popup {
                Popup::ConfirmDiffCopy { .. } => self.cancel_diff_copy(),
                Popup::ConfirmShortcutDelete { .. } => self.cancel_shortcut_delete(),
                Popup::ConfirmDirSync { .. } => self.cancel_dir_sync(),
                _ => {
                    self.popup = Popup::Closed;
                },
            }
            return ;
        }
        if yes {
            match self.popup {
                Popup::ConfirmDelete { .. } => self.finish_delete(false, now),
                Popup::ConfirmTransfer { .. } => self.finish_transfer(Conflict::Skip, now, made),
                Popup::ConfirmDiscard { .. } => {
                    let mut p = Popup::Closed;
                    std::mem::swap(&mut p, &mut self.popup);
                    if let Popup::ConfirmDiscard { targets, dir } = p {
                        self.effects.push(Effect::GitDiscard { targets, dir });
                    }
                },
                Popup::ConfirmDiffCopy { .. } => self.confirm_diff_copy(),
                Popup::ConfirmShortcutDelete { .. } => self.confirm_shortcut_delete(save),
                Popup::ConfirmDirSync { .. } => self.confirm_dir_sync(now),
                Popup::ConfirmSnippet { .. } => {
                    let mut p = Popup::Closed;
                    std::mem::swap(&mut p, &mut self.popup);
                    if let Popup::ConfirmSnippet { cmd, enter, .. } = p {
                        self.deliver_snippet(cmd.as_str(), enter);
                    }
                },
                Popup::Notice { .. } => {
                    self.popup = Popup::Closed;
                },
                _ => {},
            }
            return ;
        }
        if key == KeyCode::Char('a') {
            match self.popup {
                Popup::ConfirmDelete { .. } => self.finish_delete(true, now),
                Popup::ConfirmTransfer { .. } => self.finish_transfer(Conflict::Overwrite, now, made),
                _ => {},
            }
            return ;
        }
        if key == KeyCode::Char('r') {
            let (op, src, dest, single) = match &self.popup {
                Popup::ConfirmTransfer { op, targets, dest } => if targets.len() == 1 {
                    (*op, targets[0].clone(), dest.clone(), true)
                } else {
                    (*op, String::new(), String::new(), false)
                },
                _ => return ,
            };
            if !single {
                self.message = Some(tr(self.lang, "rename applies to a single item", "リネームは1件ずつです").to_owned());
                return ;
            }
            let name = match crate::chat::file_name(src.as_str()) {
                Some(n) => n,
                None => String::new(),
            };
            proof {
                reveal_strlit("");
                assert(""@ =~= Seq::<char>::empty());
            }
            let title = match op {
                PendingOp::Move => "move as",
                PendingOp::Copy => "copy as",
            };
            let p = crate::actions::text_input(
                title,
                "new name in the destination:",
                name,
                InputKind::TransferAs { op, src, dest_dir: dest },
            );
            self.open_popup(p);
        }
    }
}

} // verus!
