//! `u` and `Ctrl+Y`: taking the last file operation back, and doing it
//! again. The stacks are kept here; the work on the disk is done by the
//! front end, which reports how it went.
use vstd::prelude::*;

use crate::actions::message_only;
use crate::count::{decimal, decimal_chars};
use crate::lang::{tr, tr_spec};
use crate::state::{says, App, Effect, OpState, UndoAction};
use crate::text::{cat, chars_of, push_chars, string_of};

verus! {

/// How taking an operation back went on the disk.
#[derive(Debug)]
pub enum UndoOutcome {
    /// A rename could not be reversed: `to` is no longer there.
    RenameGone { to: String },
    /// A rename could not be reversed: `from` is taken again.
    RenameBlocked { from: String },
    /// The file was renamed back to `from`, or why not.
    RenamedBack { from: String, result: Result<(), String> },
    /// The created `path` was removed, or why not.
    Removed { path: String, result: Result<(), String> },
    /// `ok` moved files went back, `fail` could not.
    MovedBack { ok: usize, fail: usize },
    /// `ok` copies went to the trash; `errors` are what could not, and
    /// `left` the copies still there (of `srcs` copied into `dest`).
    Trashed { ok: usize, errors: Vec<String>, srcs: Vec<String>, dest: String, left: Vec<String> },
}

/// How doing an operation again went on the disk.
#[derive(Debug)]
pub enum RedoOutcome {
    /// Renamed to `to` again, or why not.
    Renamed { to: String, result: Result<(), String> },
    /// `ok` files moved again, `fail` could not.
    MovedAgain { ok: usize, fail: usize },
    /// `ok` sources copied again, `fail` could not; `made` is what the copy
    /// created.
    CopiedAgain { ok: usize, fail: usize, made: Vec<String> },
}

/// `x` then ", `n` could not be …" when anything failed.
pub open spec fn with_failures(x: Seq<char>, fail: nat, verb: Seq<char>) -> Seq<char> {
    if fail == 0 {
        x
    } else {
        x + ", "@ + decimal(fail) + " could not be "@ + verb
    }
}

/// The message after taking an operation back.
pub open spec fn undo_text(o: UndoOutcome) -> Seq<char> {
    match o {
        UndoOutcome::RenameGone { to } => "cannot undo rename: "@ + to@ + " is gone"@,
        UndoOutcome::RenameBlocked { from } => "cannot undo rename: "@ + from@ + " already exists"@,
        UndoOutcome::RenamedBack { from, result } => match result {
            Ok(_) => "undo: renamed back to "@ + from@,
            Err(e) => "undo failed: "@ + e@,
        },
        UndoOutcome::Removed { path, result } => match result {
            Ok(_) => "undo: removed "@ + path@,
            Err(e) => "undo failed: "@ + e@,
        },
        UndoOutcome::MovedBack { ok, fail } => with_failures(
            "undo: moved "@ + decimal(ok as nat) + " back"@,
            fail as nat,
            "undone"@,
        ),
        UndoOutcome::Trashed { ok, errors, left, .. } => if errors@.len() == 0 {
            "undo: "@ + decimal(ok as nat) + " copied to the trash"@
        } else {
            "undo: "@ + decimal(ok as nat) + " to the trash, "@ + decimal(left@.len()) + " left — "@ + errors@[0]@
        },
    }
}

/// The message after doing an operation again.
pub open spec fn redo_text(o: RedoOutcome) -> Seq<char> {
    match o {
        RedoOutcome::Renamed { to, result } => match result {
            Ok(_) => "redo: renamed to "@ + to@,
            Err(e) => "redo failed: "@ + e@,
        },
        RedoOutcome::MovedAgain { ok, fail } => with_failures(
            "redo: moved "@ + decimal(ok as nat) + " again"@,
            fail as nat,
            "redone"@,
        ),
        RedoOutcome::CopiedAgain { ok, fail, .. } => with_failures(
            "redo: copied "@ + decimal(ok as nat) + " again"@,
            fail as nat,
            "redone"@,
        ),
    }
}

/// `post` is `pre` after `u`: the newest operation leaves the undo stack
/// (`r`), for the front end to reverse; unless it made a file, it can be
/// done again. With nothing to undo the message says so.
pub open spec fn undo_taken(pre: App, post: App, r: Option<UndoAction>) -> bool {
    let u = pre.ops.undo_stack@;
    if u.len() == 0 {
        &&& r is None
        &&& message_only(pre, post)
        &&& says(post.message, tr_spec(pre.lang, "nothing to undo"@, "取り消せる操作はありません"@))
    } else {
        &&& r == Some(u.last())
        &&& post == (App {
            ops: OpState { undo_stack: post.ops.undo_stack, redo_stack: post.ops.redo_stack, ..pre.ops },
            ..pre
        })
        &&& post.ops.undo_stack@ == u.drop_last()
        &&& u.last() is Created ==> post.ops.redo_stack@ == pre.ops.redo_stack@
        &&& !(u.last() is Created) ==> post.ops.redo_stack@.len() == pre.ops.redo_stack@.len() + 1
            && post.ops.redo_stack@.drop_last() == pre.ops.redo_stack@ && post.ops.redo_stack@.last()@
            == u.last()@
    }
}

/// `post` is `pre` after `Ctrl+Y`: the newest undone operation goes back
/// on the undo stack (`r`), for the front end to do again; with nothing to
/// redo the message says so.
pub open spec fn redo_taken(pre: App, post: App, r: Option<UndoAction>) -> bool {
    let d = pre.ops.redo_stack@;
    if d.len() == 0 {
        &&& r is None
        &&& message_only(pre, post)
        &&& says(post.message, tr_spec(pre.lang, "nothing to redo"@, "やり直す操作はありません"@))
    } else {
        &&& r == Some(d.last())
        &&& post == (App {
            ops: OpState { undo_stack: post.ops.undo_stack, redo_stack: post.ops.redo_stack, ..pre.ops },
            ..pre
        })
        &&& post.ops.redo_stack@ == d.drop_last()
        &&& post.ops.undo_stack@.len() == pre.ops.undo_stack@.len() + 1
        &&& post.ops.undo_stack@.drop_last() == pre.ops.undo_stack@
        &&& post.ops.undo_stack@.last()@ == d.last()@
    }
}

/// `post` is `pre` after the front end reported how the undo went: the
/// panes are reloaded and the message tells; copies that could not all be
/// taken back stay undoable (and are no longer redoable).
pub open spec fn undo_finished(pre: App, post: App, o: UndoOutcome) -> bool {
    let reloaded = pre.effects@.push(Effect::ReloadPanes);
    match o {
        UndoOutcome::Trashed { ok, errors, srcs, dest, left } => if errors@.len() > 0 && left@.len() > 0 {
            &&& post == (App {
                ops: OpState { undo_stack: post.ops.undo_stack, redo_stack: post.ops.redo_stack, ..pre.ops },
                effects: post.effects,
                message: post.message,
                ..pre
            })
            &&& post.ops.redo_stack@ == (if pre.ops.redo_stack@.len() > 0 {
                pre.ops.redo_stack@.drop_last()
            } else {
                pre.ops.redo_stack@
            })
            &&& post.ops.undo_stack@ == pre.ops.undo_stack@.push(UndoAction::Copied { srcs, dest, paths: left })
            &&& post.effects@ == reloaded
            &&& says(post.message, undo_text(o))
        } else {
            &&& post == (App { effects: post.effects, message: post.message, ..pre })
            &&& post.effects@ == reloaded
            &&& says(post.message, undo_text(o))
        },
        _ => {
            &&& post == (App { effects: post.effects, message: post.message, ..pre })
            &&& post.effects@ == reloaded
            &&& says(post.message, undo_text(o))
        },
    }
}

/// `post` is `pre` after the front end reported how the redo went: the
/// panes are reloaded and the message tells; a copy done again records
/// what it made, for the next undo.
pub open spec fn redo_finished(pre: App, post: App, o: RedoOutcome) -> bool {
    let u = pre.ops.undo_stack@;
    &&& post == (App {
        ops: OpState { undo_stack: post.ops.undo_stack, ..pre.ops },
        effects: post.effects,
        message: post.message,
        ..pre
    })
    &&& post.effects@ == pre.effects@.push(Effect::ReloadPanes)
    &&& says(post.message, redo_text(o))
    &&& match o {
        RedoOutcome::CopiedAgain { made, .. } => if u.len() > 0 && u.last() is Copied {
            let c = u.last();
            post.ops.undo_stack@ == u.drop_last().push(
                UndoAction::Copied { srcs: c->Copied_srcs, dest: c->Copied_dest, paths: made },
            )
        } else {
            post.ops.undo_stack@ == u
        },
        _ => post.ops.undo_stack@ == u,
    }
}

fn failures_exec(mut m: String, fail: usize, verb: &str) -> (out: String)
    ensures
        out@ == with_failures(m@, fail as nat, verb@),
{
    if fail > 0 {
        push_chars(&mut m, chars_of(", ").as_slice());
        push_chars(&mut m, decimal_chars(fail).as_slice());
        push_chars(&mut m, chars_of(" could not be ").as_slice());
        push_chars(&mut m, chars_of(verb).as_slice());
    }
    m
}

fn count_text(a: &str, n: usize, b: &str) -> (out: String)
    ensures
        out@ == a@ + decimal(n as nat) + b@,
{
    let mut m = cat(a, decimal_chars(n).as_slice());
    push_chars(&mut m, chars_of(b).as_slice());
    m
}

impl App {
    /// `u`: take the newest operation off the undo stack and hand it back
    /// to be reversed.
    pub fn undo_last(&mut self) -> (r: Option<UndoAction>)
        ensures
            undo_taken(*old(self), *final(self), r),
    {
        if self.ops.undo_stack.len() == 0 {
            self.message = Some(tr(self.lang, "nothing to undo", "取り消せる操作はありません").to_owned());
            return None;
        }
        let action = self.ops.undo_stack.pop().unwrap();
        let made_file = match &action {
            UndoAction::Created { .. } => true,
            _ => false,
        };
        if !made_file {
            let ghost r0 = self.ops.redo_stack@;
            self.ops.redo_stack.push(action.copy());
            assert(self.ops.redo_stack@.drop_last() =~= r0);
        }
        Some(action)
    }

    /// `Ctrl+Y`: take the newest undone operation back onto the undo stack
    /// and hand it back to be done again.
    pub fn redo_last(&mut self) -> (r: Option<UndoAction>)
        ensures
            redo_taken(*old(self), *final(self), r),
    {
        if self.ops.redo_stack.len() == 0 {
            self.message = Some(tr(self.lang, "nothing to redo", "やり直す操作はありません").to_owned());
            return None;
        }
        let action = self.ops.redo_stack.pop().unwrap();
        let ghost u0 = self.ops.undo_stack@;
        self.ops.undo_stack.push(action.copy());
        assert(self.ops.undo_stack@.drop_last() =~= u0);
        Some(action)
    }

    /// The undo has been carried out, as `o` says.
    pub fn finish_undo(&mut self, o: UndoOutcome)
        ensures
            undo_finished(*old(self), *final(self), o),
    {
        let msg = match &o {
            UndoOutcome::RenameGone { to } => {
                let mut m = cat("cannot undo rename: ", chars_of(to.as_str()).as_slice());
                push_chars(&mut m, chars_of(" is gone").as_slice());
                m
            },
            UndoOutcome::RenameBlocked { from } => {
                let mut m = cat("cannot undo rename: ", chars_of(from.as_str()).as_slice());
                push_chars(&mut m, chars_of(" already exists").as_slice());
                m
            },
            UndoOutcome::RenamedBack { from, result } => match result {
                Ok(()) => cat("undo: renamed back to ", chars_of(from.as_str()).as_slice()),
                Err(e) => cat("undo failed: ", chars_of(e.as_str()).as_slice()),
            },
            UndoOutcome::Removed { path, result } => match result {
                Ok(()) => cat("undo: removed ", chars_of(path.as_str()).as_slice()),
                Err(e) => cat("undo failed: ", chars_of(e.as_str()).as_slice()),
            },
            UndoOutcome::MovedBack { ok, fail } => failures_exec(count_text("undo: moved ", *ok, " back"), *fail, "undone"),
            UndoOutcome::Trashed { ok, errors, left, .. } => if errors.len() == 0 {
                count_text("undo: ", *ok, " copied to the trash")
            } else {
                let mut m = count_text("undo: ", *ok, " to the trash, ");
                push_chars(&mut m, decimal_chars(left.len()).as_slice());
                push_chars(&mut m, chars_of(" left — ").as_slice());
                push_chars(&mut m, chars_of(errors[0].as_str()).as_slice());
                m
            },
        };
        match o {
            UndoOutcome::Trashed { ok, errors, srcs, dest, left } => {
                if errors.len() > 0 && left.len() > 0 {
                    if self.ops.redo_stack.len() > 0 {
                        let ghost r0 = self.ops.redo_stack@;
                        self.ops.redo_stack.pop();
                        assert(self.ops.redo_stack@ =~= r0.drop_last());
                    }
                    self.ops.undo_stack.push(UndoAction::Copied { srcs, dest, paths: left });
                }
            },
            _ => {},
        }
        self.effects.push(Effect::ReloadPanes);
        self.message = Some(msg);
    }

    /// The redo has been carried out, as `o` says.
    pub fn finish_redo(&mut self, o: RedoOutcome)
        ensures
            redo_finished(*old(self), *final(self), o),
    {
        let msg = match &o {
            RedoOutcome::Renamed { to, result } => match result {
                Ok(()) => cat("redo: renamed to ", chars_of(to.as_str()).as_slice()),
                Err(e) => cat("redo failed: ", chars_of(e.as_str()).as_slice()),
            },
            RedoOutcome::MovedAgain { ok, fail } => failures_exec(count_text("redo: moved ", *ok, " again"), *fail, "redone"),
            RedoOutcome::CopiedAgain { ok, fail, .. } => failures_exec(
                count_text("redo: copied ", *ok, " again"),
                *fail,
                "redone",
            ),
        };
        match o {
            RedoOutcome::CopiedAgain { made, .. } => {
                let n = self.ops.undo_stack.len();
                if n > 0 {
                    let is_copy = match &self.ops.undo_stack[n - 1] {
                        UndoAction::Copied { .. } => true,
                        _ => false,
                    };
                    if is_copy {
                        let ghost u0 = self.ops.undo_stack@;
                        let last = self.ops.undo_stack.pop().unwrap();
                        match last {
                            UndoAction::Copied { srcs, dest, .. } => {
                                self.ops.undo_stack.push(UndoAction::Copied { srcs, dest, paths: made });
                            },
                            other => {
                                self.ops.undo_stack.push(other);
                            },
                        }
                    }
                }
            },
            _ => {},
        }
        self.effects.push(Effect::ReloadPanes);
        self.message = Some(msg);
    }
}

/// Undoing an operation (one that did not make a file) and redoing it
/// leaves both stacks as they were: the same operation back on top of the
/// undo stack, and the redo stack as before.
pub proof fn law_undo_then_redo(a: App, m: App, b: App, x: Option<UndoAction>, y: Option<UndoAction>)
    requires
        a.ops.undo_stack@.len() > 0,
        !(a.ops.undo_stack@.last() is Created),
        undo_taken(a, m, x),
        redo_taken(m, b, y),
    ensures
        y matches Some(w) && w@ == a.ops.undo_stack@.last()@,
        b.ops.undo_stack@.len() == a.ops.undo_stack@.len(),
        b.ops.undo_stack@.drop_last() == a.ops.undo_stack@.drop_last(),
        b.ops.undo_stack@.last()@ == a.ops.undo_stack@.last()@,
        b.ops.redo_stack@ == a.ops.redo_stack@,
        b == (App { ops: OpState { undo_stack: b.ops.undo_stack, redo_stack: b.ops.redo_stack, ..a.ops }, ..a }),
{
}

} // verus!
