//! Saying yes to a copy, a move, a delete or a folder sync: the work goes
//! to the operation runner, with what it takes to undo it, and the yes/no
//! keys of the confirmation dialogs.
use vstd::prelude::*;

use crate::chat::path_file_name;
use crate::ops::{dests_after, op_started};
use crate::state::{
    path_views, App, Conflict, ElevationOffer, Effect, KeyCode, OpJob, OpState, OpWork, PendingOp, Popup,
    UndoAction, UndoView,
};
use crate::text::{join_path, path_join, views};

verus! {

/// What undoes a move of `targets` into `dest`: each target that has a
/// name, from where it landed back to where it was.
pub open spec fn move_undo_pairs(targets: Seq<Seq<char>>, dest: Seq<char>, k: int) -> Seq<(Seq<char>, Seq<char>)>
    decreases k,
{
    if k <= 0 {
        seq![]
    } else {
        let rest = move_undo_pairs(targets, dest, k - 1);
        match path_file_name(targets[k - 1]) {
            Some(n) => rest.push((path_join(dest, n), targets[k - 1])),
            None => rest,
        }
    }
}

/// What undoes a transfer of `targets` into `dest`, as the runner's job
/// carries it: a move is moved back; a copy takes back `made`, what it
/// creates (nothing to undo when it creates nothing).
pub open spec fn transfer_undo(op: PendingOp, targets: Seq<Seq<char>>, dest: Seq<char>, made: Seq<Seq<char>>) -> Option<UndoView> {
    match op {
        PendingOp::Move => Some(UndoView::Moved { pairs: move_undo_pairs(targets, dest, targets.len() as int) }),
        PendingOp::Copy => if made.len() == 0 {
            None
        } else {
            Some(UndoView::Copied { srcs: targets, dest, paths: made })
        },
    }
}

/// The view of an optional undo step.
pub open spec fn undo_view_of(u: Option<UndoAction>) -> Option<UndoView> {
    match u {
        Some(a) => Some(a@),
        None => None,
    }
}

/// `post` is `pre` after yes to "copy/move these to `dest`?" with
/// `conflict` for names already there, at `now`; `made` is what a copy
/// would create. The destination becomes a recent one, the transfer is
/// kept to be offered again with more rights, and it goes to the runner
/// (the running job, if any, carrying what undoes it).
pub open spec fn transfer_confirmed(pre: App, post: App, conflict: Conflict, now: u64, made: Seq<Seq<char>>) -> bool {
    match pre.popup {
        Popup::ConfirmTransfer { op, targets, dest } => exists|m: App, s: App|
            #![trigger transfer_via(pre, m, s, post, conflict, now, made)]
            transfer_via(pre, m, s, post, conflict, now, made),
        _ => post == (App { popup: Popup::Closed, ..pre }),
    }
}

/// The steps of a confirmed transfer: `m` after the bookkeeping, `s` after
/// the runner took it, `post` with the undo step on the running job.
pub open spec fn transfer_via(
    pre: App,
    m: App,
    s: App,
    post: App,
    conflict: Conflict,
    now: u64,
    made: Seq<Seq<char>>,
) -> bool {
    let op = pre.popup->ConfirmTransfer_op;
    let targets = pre.popup->ConfirmTransfer_targets;
    let dest = pre.popup->ConfirmTransfer_dest;
    let undo = transfer_undo(op, path_views(targets@), dest@, made);
    &&& views(m.ops.dest_history@) == dests_after(
        views(pre.ops.dest_history@),
        dest@,
        pre.ops.dest_history_cap as nat,
    )
    &&& m.ops.pending_elevation matches Some(e)
    &&& m.ops.pending_elevation->0.op == op
    &&& path_views(m.ops.pending_elevation->0.targets@) == path_views(targets@)
    &&& m.ops.pending_elevation->0.dest@ == dest@
    &&& m.ops.pending_elevation->0.conflict == conflict
    &&& m == (App {
        popup: Popup::Closed,
        ops: OpState { dest_history: m.ops.dest_history, pending_elevation: m.ops.pending_elevation, ..pre.ops },
        ..pre
    })
    &&& op_started(m, s, transfer_label(op), transfer_work(op, targets, dest, conflict), now)
    &&& s.ops.job is None ==> post == s
    &&& s.ops.job matches Some(j) ==> {
        &&& post == (App { ops: OpState { job: post.ops.job, ..s.ops }, ..s })
        &&& post.ops.job matches Some(j2)
        &&& post.ops.job->0 == (OpJob { undo: post.ops.job->0.undo, ..j })
        &&& undo_view_of(post.ops.job->0.undo) == undo
    }
}

/// The runner's label for a transfer.
pub open spec fn transfer_label(op: PendingOp) -> Seq<char> {
    match op {
        PendingOp::Copy => "copying"@,
        PendingOp::Move => "moving"@,
    }
}

/// The runner's work for a transfer, its paths taken by their text.
pub open spec fn transfer_work(op: PendingOp, targets: Vec<String>, dest: String, conflict: Conflict) -> spec_fn(OpWork) -> bool {
    |w: OpWork|
        w matches OpWork::Transfer { op: o, targets: t, dest: d, conflict: c } && o == op && path_views(t@)
            == path_views(targets@) && d@ == dest@ && c == conflict
}

fn copy_paths(v: &Vec<String>) -> (r: Vec<String>)
    ensures
        path_views(r@) == path_views(v@),
{
    crate::ops::copy_strings(v)
}

fn move_pairs(targets: &Vec<String>, dest: &String) -> (out: Vec<(String, String)>)
    ensures
        crate::state::pair_views(out@) == move_undo_pairs(path_views(targets@), dest@, targets@.len() as int),
{
    let mut out: Vec<(String, String)> = Vec::new();
    let mut i: usize = 0;
    while i < targets.len()
        invariant
            i <= targets@.len(),
            crate::state::pair_views(out@) == move_undo_pairs(path_views(targets@), dest@, i as int),
        decreases targets@.len() - i,
    {
        let ghost before = out@;
        match crate::chat::file_name(targets[i].as_str()) {
            Some(n) => {
                let landed = join_path(dest.as_str(), n.as_str());
                out.push((landed, targets[i].clone()));
                assert(crate::state::pair_views(out@) =~= crate::state::pair_views(before).push(
                    (path_join(dest@, n@), targets@[i as int]@),
                ));
            },
            None => {},
        }
        i += 1;
    }
    out
}

impl App {
    /// Yes to a copy or a move (`conflict` says what happens to names
    /// already there); `made` is what a copy would create, as the front end
    /// found it before the copy runs.
    pub fn finish_transfer(&mut self, conflict: Conflict, now: u64, made: Vec<String>)
        ensures
            transfer_confirmed(*old(self), *final(self), conflict, now, path_views(made@)),
    {
        let mut p = Popup::Closed;
        std::mem::swap(&mut p, &mut self.popup);
        let (op, targets, dest) = match p {
            Popup::ConfirmTransfer { op, targets, dest } => (op, targets, dest),
            _ => return ,
        };
        self.remember_dest(dest.as_str());
        self.ops.pending_elevation = Some(
            ElevationOffer { op, targets: copy_paths(&targets), dest: dest.clone(), conflict },
        );
        let ghost m = *self;
        let ghost made_v = path_views(made@);
        let undo = match op {
            PendingOp::Move => {
                let pairs = move_pairs(&targets, &dest);
                Some(UndoAction::Moved { pairs })
            },
            PendingOp::Copy => {
                if made.len() == 0 {
                    None
                } else {
                    Some(UndoAction::Copied { srcs: copy_paths(&targets), dest: dest.clone(), paths: made })
                }
            },
        };
        assert(undo_view_of(undo) == transfer_undo(op, path_views(targets@), dest@, made_v));
        let label = match op {
            PendingOp::Copy => "copying",
            PendingOp::Move => "moving",
        };
        let ghost (tg, dg) = (targets, dest);
        let work = OpWork::Transfer { op, targets, dest, conflict };
        let ghost wg = work;
        self.start_op(label, work, now);
        proof {
            crate::prompt::lemma_op_started_weaken(
                m,
                *self,
                transfer_label(op),
                |w: OpWork| w == wg,
                transfer_work(op, tg, dg, conflict),
                now,
            );
        }
        let ghost s = *self;
        if let Some(job) = &mut self.ops.job {
            job.undo = undo;
        }
        assert(transfer_via(*old(self), m, s, *self, conflict, now, made_v));
    }

    /// Yes to a delete: to the trash, or for good with `permanent`.
    pub fn finish_delete(&mut self, permanent: bool, now: u64)
        ensures
            match old(self).popup {
                Popup::ConfirmDelete { targets } => op_started(
                    App { popup: Popup::Closed, ..*old(self) },
                    *final(self),
                    "deleting"@,
                    |w: OpWork| w == (OpWork::Delete { targets, permanent }),
                    now,
                ),
                _ => *final(self) == (App { popup: Popup::Closed, ..*old(self) }),
            },
    {
        let mut p = Popup::Closed;
        std::mem::swap(&mut p, &mut self.popup);
        let targets = match p {
            Popup::ConfirmDelete { targets } => targets,
            _ => return ,
        };
        self.start_op("deleting", OpWork::Delete { targets, permanent }, now);
    }

    /// Yes to a folder comparison's "copy these over": each copy goes to
    /// the runner as one job.
    pub fn confirm_dir_sync(&mut self, now: u64)
        ensures
            match old(self).popup {
                Popup::ConfirmDirSync { ops, .. } => op_started(
                    App { popup: Popup::Closed, ..*old(self) },
                    *final(self),
                    "syncing"@,
                    |w: OpWork| w == (OpWork::Sync { ops }),
                    now,
                ),
                _ => *final(self) == (App { popup: Popup::Closed, ..*old(self) }),
            },
    {
        let mut p = Popup::Closed;
        std::mem::swap(&mut p, &mut self.popup);
        let ops = match p {
            Popup::ConfirmDirSync { ops, .. } => ops,
            _ => return ,
        };
        self.start_op("syncing", OpWork::Sync { ops }, now);
    }
}

} // verus!
