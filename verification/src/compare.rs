//! Copying across in the comparison views: the file diff (`>` / `<`) and
//! the folder comparison, with the confirmation before an overwrite and the
//! tidy-up afterwards.
use vstd::prelude::*;

use crate::lang::{tr_spec, tr_string};
use crate::state::{says, App, CompareEntry, Effect, Popup};

verus! {

/// The comparison after one of its entries was reconciled: the folder
/// comparison loses the entry under its cursor (closing, with a message,
/// once none is left), the file diff closes, anything else stays.
pub open spec fn reconciled(a: App, b: App) -> bool {
    &&& b == (App {
        popup: b.popup,
        message: b.message,
        git: (None, None),
        disk_known: (false, false),
        effects: b.effects,
        ..a
    })
    &&& b.effects@ == a.effects@.push(Effect::ReloadPanes)
    &&& match a.popup {
        Popup::DirCompare { entries, cursor } => {
            let es = if cursor < entries@.len() {
                entries@.remove(cursor as int)
            } else {
                entries@
            };
            if es.len() > 0 {
                &&& b.message == a.message
                &&& b.popup matches Popup::DirCompare { entries: e2, cursor: c2 } && e2@ == es && c2
                    == if cursor < es.len() {
                    cursor as int
                } else {
                    es.len() - 1
                }
            } else {
                &&& b.popup is Closed
                &&& says(
                    b.message,
                    tr_spec(a.lang, "folders reconciled"@, "ディレクトリを同期しました"@),
                )
            }
        },
        Popup::Diff { .. } => b.popup is Closed && b.message == a.message,
        _ => b.popup == a.popup && b.message == a.message,
    }
}

/// `post` is `pre` after yes to copying across in a comparison: the copy
/// is queued and the comparison comes back, brought up to date.
pub open spec fn diff_copy_confirmed(pre: App, post: App) -> bool {
    &&& !(pre.popup is ConfirmDiffCopy) ==> post == (App {
        popup: Popup::Closed,
        ..pre
    })
    &&& pre.popup matches Popup::ConfirmDiffCopy { src, dst, is_dir, back } ==> exists|
        mid: App,
    |
        #![trigger reconciled(mid, post)]
        mid == (App { effects: mid.effects, popup: *back, ..pre }) && mid.effects@
            == pre.effects@.push(Effect::DiffCopy { src, dst, is_dir }) && reconciled(
            mid,
            post,
        )
}

/// `post` is `pre` after no to copying across: the comparison comes back.
pub open spec fn diff_copy_cancelled(pre: App, post: App) -> bool {
    &&& pre.popup matches Popup::ConfirmDiffCopy { back, .. } ==> post == (App {
        popup: *back,
        ..pre
    })
    &&& !(pre.popup is ConfirmDiffCopy) ==> post == (App {
        popup: Popup::Closed,
        ..pre
    })
}

/// `post` is `pre` after no to a folder sync: the comparison comes back.
pub open spec fn dir_sync_cancelled(pre: App, post: App) -> bool {
    &&& pre.popup matches Popup::ConfirmDirSync { back, .. } ==> post == (App {
        popup: *back,
        ..pre
    })
    &&& !(pre.popup is ConfirmDirSync) ==> post == (App {
        popup: Popup::Closed,
        ..pre
    })
}

impl App {
    /// Folder sync called off: the comparison comes back.
    pub fn cancel_dir_sync(&mut self)
        ensures
            dir_sync_cancelled(*old(self), *final(self)),
    {
        let mut popup = Popup::Closed;
        std::mem::swap(&mut popup, &mut self.popup);
        match popup {
            Popup::ConfirmDirSync { back, .. } => {
                self.popup = *back;
            },
            _ => {},
        }
    }

    /// Overwrite called off: the comparison comes back.
    pub fn cancel_diff_copy(&mut self)
        ensures
            diff_copy_cancelled(*old(self), *final(self)),
    {
        let mut popup = Popup::Closed;
        std::mem::swap(&mut popup, &mut self.popup);
        match popup {
            Popup::ConfirmDiffCopy { back, .. } => {
                self.popup = *back;
            },
            _ => {},
        }
    }

    /// After a copy across: refresh the comparison, forget the repository
    /// state and reload both listings.
    pub fn after_diff_copy(&mut self)
        ensures
            reconciled(*old(self), *final(self)),
    {
        let lang = self.lang;
        let mut popup = Popup::Closed;
        std::mem::swap(&mut popup, &mut self.popup);
        match popup {
            Popup::DirCompare { entries, cursor } => {
                let mut entries = entries;
                if cursor < entries.len() {
                    entries.remove(cursor);
                }
                if entries.len() > 0 {
                    let c = if cursor < entries.len() {
                        cursor
                    } else {
                        entries.len() - 1
                    };
                    self.popup = Popup::DirCompare { entries, cursor: c };
                } else {
                    self.message = Some(
                        tr_string(lang, "folders reconciled", "ディレクトリを同期しました"),
                    );
                }
            },
            Popup::Diff { .. } => {},
            other => {
                self.popup = other;
            },
        }
        self.invalidate_git();
        self.effects.push(Effect::ReloadPanes);
    }

    /// Copy `src` onto `dst`: straight away when nothing is there
    /// (`dst_exists` is the caller's look), else only after a confirmation,
    /// with the comparison kept to come back to.
    pub fn begin_diff_copy(&mut self, src: String, dst: String, is_dir: bool, dst_exists: bool)
        ensures
            dst_exists ==> *final(self) == (App {
                popup: Popup::ConfirmDiffCopy { src, dst, is_dir, back: Box::new(old(self).popup) },
                ..*old(self)
            }),
            !dst_exists ==> exists|mid: App|
                #![trigger reconciled(mid, *final(self))]
                mid == (App { effects: mid.effects, ..*old(self) }) && mid.effects@ == old(
                    self,
                ).effects@.push(Effect::DiffCopy { src, dst, is_dir }) && reconciled(
                    mid,
                    *final(self),
                ),
    {
        if dst_exists {
            let mut back = Popup::Closed;
            std::mem::swap(&mut back, &mut self.popup);
            self.popup = Popup::ConfirmDiffCopy { src, dst, is_dir, back: Box::new(back) };
        } else {
            self.effects.push(Effect::DiffCopy { src, dst, is_dir });
            let ghost mid = *self;
            self.after_diff_copy();
            assert(reconciled(mid, *self));
        }
    }

    /// `>` / `<` in the file diff: copy one side's file over the other.
    pub fn diff_copy(&mut self, to_right: bool, dst_exists: bool)
        ensures
            !(old(self).popup is Diff) ==> *final(self) == *old(self),
            old(self).popup matches Popup::Diff { left_path, right_path } ==> ({
                let (src, dst) = if to_right {
                    (left_path, right_path)
                } else {
                    (right_path, left_path)
                };
                &&& dst_exists ==> *final(self) == (App {
                    popup: Popup::ConfirmDiffCopy {
                        src,
                        dst,
                        is_dir: false,
                        back: Box::new(old(self).popup),
                    },
                    ..*old(self)
                })
                &&& !dst_exists ==> exists|mid: App|
                    #![trigger reconciled(mid, *final(self))]
                    mid == (App { effects: mid.effects, ..*old(self) }) && mid.effects@ == old(
                        self,
                    ).effects@.push(Effect::DiffCopy { src, dst, is_dir: false }) && reconciled(
                        mid,
                        *final(self),
                    )
            }),
    {
        let (src, dst) = match &self.popup {
            Popup::Diff { left_path, right_path } => if to_right {
                (left_path.clone(), right_path.clone())
            } else {
                (right_path.clone(), left_path.clone())
            },
            _ => return,
        };
        self.begin_diff_copy(src, dst, false, dst_exists);
    }

    /// Overwrite confirmed: the comparison comes back, the copy is done and
    /// the comparison refreshed.
    pub fn confirm_diff_copy(&mut self)
        ensures
            diff_copy_confirmed(*old(self), *final(self)),
    {
        let mut popup = Popup::Closed;
        std::mem::swap(&mut popup, &mut self.popup);
        match popup {
            Popup::ConfirmDiffCopy { src, dst, is_dir, back } => {
                self.popup = *back;
                self.effects.push(Effect::DiffCopy { src, dst, is_dir });
                let ghost mid = *self;
                self.after_diff_copy();
                assert(reconciled(mid, *self));
            },
            _ => {},
        }
    }
}

} // verus!
