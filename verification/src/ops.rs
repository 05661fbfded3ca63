//! File operations as the interface sees them: the queue behind the runner,
//! stopping and abandoning a job, the stuck light, the undo stack, recent
//! destinations and the report shown when a job ends.
use vstd::prelude::*;

use crate::actions::{is_prompt, message_only, popup_only};
use crate::count::{decimal, decimal_chars};
use crate::lang::{tr_spec, tr_string, Lang};
use crate::state::{
    pair_views, path_views, says, App, Effect, OpJob, OpReport, OpState, OpWork, PendingOp, Popup, QueuedOp,
    InputKind, KeyCode, UndoAction,
};
use crate::text::{cat, chars_of, extend_chars, join, push_chars, str_eq, views};

verus! {

/// The undo stack keeps at most this many actions.
pub const UNDO_CAP: usize = 64;

/// Is a path other than `d`?
pub open spec fn other_than(d: Seq<char>) -> spec_fn(Seq<char>) -> bool {
    |p: Seq<char>| p != d
}

/// Recent destinations after sending something to `dest`: it goes first,
/// any older mention of it goes, and the list is cut to `cap`.

pub open spec fn dests_after(old: Seq<Seq<char>>, dest: Seq<char>, cap: nat) -> Seq<Seq<char>> {
    let full = seq![dest] + old.filter(other_than(dest));
    if full.len() > cap {
        full.take(cap as int)
    } else {
        full
    }
}

/// The destination picker's rows after `out`: each of `hist` not already
/// offered, in order.
pub open spec fn recent_rows(out: Seq<Seq<char>>, hist: Seq<Seq<char>>) -> Seq<Seq<char>>
    decreases hist.len(),
{
    if hist.len() == 0 {
        out
    } else {
        let next = if out.contains(hist[0]) {
            out
        } else {
            out.push(hist[0])
        };
        recent_rows(next, hist.drop_first())
    }
}

/// Seconds between two clock readings in milliseconds, as `Instant::elapsed`
/// would count them (never negative).
pub open spec fn secs_since(then: u64, now: u64) -> int {
    if now >= then {
        (now - then) / 1000
    } else {
        0
    }
}

/// The first line of a report with problems.
pub open spec fn report_head(r: OpReport) -> Seq<char> {
    decimal(r.ok as nat) + " ok · "@ + decimal(r.skipped as nat) + " skipped · "@ + decimal(
        r.errors@.len(),
    ) + " errors"@
}

/// The advice shown when the system refused access.
pub open spec fn permission_lines(windows: bool) -> Seq<Seq<char>> {
    seq![""@, "Permission denied — this location's ACL does not grant you access."@] + if windows {
        seq![
            "Retry with `b` (backup mode) to read and write past it"@,
            "as administrator, without changing any permissions."@,
        ]
    } else {
        seq!["Copy to a folder you can write to, or fix its permissions."@]
    } + seq![""@]
}

/// The lines of the report popup: the counts, the advice on a refusal, the
/// first eight problems, and how many more there were.
pub open spec fn report_lines(r: OpReport, windows: bool) -> Seq<Seq<char>> {
    let errs = views(r.errors@);
    seq![report_head(r)] + (if r.permission_denied {
        permission_lines(windows)
    } else {
        seq![]
    }) + (if errs.len() > 8 {
        errs.take(8)
    } else {
        errs
    }) + if errs.len() > 8 {
        seq!["... and "@ + decimal((errs.len() - 8) as nat) + " more"@]
    } else {
        seq![]
    }
}

/// The message after a job that went through cleanly.
pub open spec fn done_message(r: OpReport) -> Seq<char> {
    "done — "@ + decimal(r.ok as nat) + " ok · "@ + decimal(r.skipped as nat) + " skipped"@ + match r.note {
        Some(n) => " ("@ + n@ + ")"@,
        None => seq![],
    }
}

fn str_vec_push(v: &mut Vec<String>, s: &str)
    ensures
        views(final(v)@) == views(old(v)@).push(s@),
{
    let ghost before = views(v@);
    v.push(s.to_owned());
    assert(views(v@) =~= before.push(s@));
}

impl App {
    /// Note a directory as a copy/move destination: it goes to the front of
    /// the recent list, without repeats, and the list stays within its cap.
    pub fn remember_dest(&mut self, dest: &str)
        ensures
            *final(self) == (App { ops: OpState { dest_history: final(self).ops.dest_history, ..old(self).ops }, ..*old(self) }),
            views(final(self).ops.dest_history@) == dests_after(
                views(old(self).ops.dest_history@),
                dest@,
                old(self).ops.dest_history_cap as nat,
            ),
    {
        let cap = self.ops.dest_history_cap;
        let ghost old_h = views(self.ops.dest_history@);
        let mut out: Vec<String> = Vec::new();
        out.push(dest.to_owned());
        let mut i: usize = 0;
        let dstr = dest.to_owned();
        assert(old_h.take(0).filter(other_than(dest@)) =~= seq![]);
        assert(views(out@) =~= seq![dest@] + old_h.take(0).filter(other_than(dest@)));
        while i < self.ops.dest_history.len()
            invariant
                i <= self.ops.dest_history@.len(),
                old_h == views(self.ops.dest_history@),
                dstr@ == dest@,
                views(out@) == seq![dest@] + old_h.take(i as int).filter(other_than(dest@)),
            decreases self.ops.dest_history.len() - i,
        {
            proof {
                assert(old_h.take(i + 1) =~= old_h.take(i as int).push(old_h[i as int]));
                old_h.take(i as int).lemma_filter_push(old_h[i as int], other_than(dest@));
            }
            let same = self.ops.dest_history[i] == dstr;
            if !same {
                let ghost before = views(out@);
                out.push(self.ops.dest_history[i].clone());
                assert(views(out@) =~= before.push(old_h[i as int]));
            }
            i += 1;
        }
        assert(old_h.take(old_h.len() as int) =~= old_h);
        if out.len() > cap {
            let ghost full = views(out@);
            out.truncate(cap);
            assert(views(out@) =~= full.take(cap as int));
        }
        self.ops.dest_history = out;
    }

    /// Offer somewhere other than the opposite pane to send the selection.
    pub fn start_dest_picker(&mut self, op: PendingOp)
        ensures
            old(self).targets().len() == 0 ==> message_only(*old(self), *final(self)) && says(
                final(self).message,
                tr_spec(old(self).lang, "nothing selected"@, "選択されていません"@),
            ),
            old(self).targets().len() > 0 ==> {
                &&& popup_only(*old(self), *final(self))
                &&& final(self).popup matches Popup::DestPicker { op: o, targets, cursor } && o == op
                    && path_views(targets@) == old(self).targets() && cursor == 0
            },
    {
        let targets = self.target_paths();
        if targets.len() == 0 {
            self.message = Some(tr_string(self.lang, "nothing selected", "選択されていません"));
            return;
        }
        self.open_popup(Popup::DestPicker { op, targets, cursor: 0 });
    }

    /// Rows of the destination picker: the opposite pane first ("other
    /// pane"), then the recent destinations not already offered ("recent").
    pub fn dest_choices(&self) -> (out: Vec<(String, String)>)
        ensures
            ({
                let first: Seq<Seq<char>> = match self.opposite() {
                    Some(p) => seq![p.cwd@],
                    None => seq![],
                };
                &&& out@.len() == dest_rows(*self).len()
                &&& forall|i: int| 0 <= i < out@.len() ==> #[trigger] out@[i].1@ == dest_rows(*self)[i]
                &&& forall|i: int|
                    0 <= i < out@.len() ==> out@[i].0@ == if i < first.len() {
                        "other pane"@
                    } else {
                        "recent"@
                    }
            }),
    {
        let mut out: Vec<(String, String)> = Vec::new();
        let other = self.opposite_cwd();
        let ghost first: Seq<Seq<char>> = match self.opposite() {
            Some(p) => seq![p.cwd@],
            None => seq![],
        };
        match other {
            Some(c) => out.push(("other pane".to_owned(), c)),
            None => {},
        }
        assert(Seq::new(out@.len(), |k: int| out@[k].1@) =~= first);
        let ghost hist = views(self.ops.dest_history@);
        let mut i: usize = 0;
        assert(hist.skip(0) =~= hist);
        while i < self.ops.dest_history.len()
            invariant
                i <= self.ops.dest_history@.len(),
                hist == views(self.ops.dest_history@),
                out@.len() >= first.len(),
                recent_rows(Seq::new(out@.len(), |k: int| out@[k].1@), hist.skip(i as int))
                    == recent_rows(first, hist),
                forall|k: int|
                    0 <= k < out@.len() ==> out@[k].0@ == if k < first.len() {
                        "other pane"@
                    } else {
                        "recent"@
                    },
            decreases self.ops.dest_history.len() - i,
        {
            let ghost cur = Seq::new(out@.len(), |k: int| out@[k].1@);
            let ghost rest = hist.skip(i as int);
            assert(rest[0] == hist[i as int]);
            assert(rest.drop_first() =~= hist.skip(i + 1));
            let p = &self.ops.dest_history[i];
            let mut seen = false;
            let mut k: usize = 0;
            while k < out.len()
                invariant
                    k <= out@.len(),
                    cur == Seq::new(out@.len(), |j: int| out@[j].1@),
                    !seen ==> forall|j: int| 0 <= j < k ==> cur[j] != p@,
                    seen ==> cur.contains(p@),
                decreases out.len() - k,
            {
                if out[k].1 == *p {
                    assert(cur[k as int] == p@);
                    seen = true;
                }
                k += 1;
            }
            assert(seen == cur.contains(p@));
            if !seen {
                out.push(("recent".to_owned(), p.clone()));
                assert(Seq::new(out@.len(), |k: int| out@[k].1@) =~= cur.push(p@));
            } else {
                assert(Seq::new(out@.len(), |k: int| out@[k].1@) =~= cur);
            }
            i += 1;
        }
        assert(hist.skip(i as int) =~= seq![]);
        assert(Seq::new(out@.len(), |k: int| out@[k].1@) == recent_rows(first, hist));
        out
    }

    /// The cwd of the opposite pane.
    pub fn opposite_cwd(&self) -> (r: Option<String>)
        ensures
            r matches Some(c) ==> self.opposite() matches Some(p) && c@ == p.cwd@,
            r is None ==> self.opposite() is None,
    {
        match self.focused {
            crate::state::FocusedPane::Left => if self.right.active < self.right.tabs.len() {
                Some(self.right.tabs[self.right.active].cwd.clone())
            } else {
                None
            },
            crate::state::FocusedPane::Right => if self.left.active < self.left.tabs.len() {
                Some(self.left.tabs[self.left.active].cwd.clone())
            } else {
                None
            },
            crate::state::FocusedPane::Shell => None,
        }
    }
}

/// `b` is `a` after offering the runner seat to the queue at time `now`:
/// with a job running nothing happens; otherwise the first queued operation
/// starts (`started`), or, with none waiting, the progress bar comes back.
pub open spec fn next_op_started(a: App, b: App, now: u64, started: bool) -> bool {
    if a.ops.job is Some {
        !started && b == a
    } else if a.ops.queue@.len() > 0 {
        let op = a.ops.queue@[0];
        &&& started
        &&& b == (App {
            ops: OpState { queue: b.ops.queue, job: b.ops.job, ..a.ops },
            effects: b.effects,
            ..a
        })
        &&& b.ops.queue@ == a.ops.queue@.drop_first()
        &&& b.ops.job == Some(
            OpJob {
                label: op.label,
                started: now,
                cancel: false,
                cancel_requested: None,
                last_progress: now,
                latest: (0, 0),
                undo: None,
            },
        )
        &&& b.effects@ == a.effects@.push(Effect::SpawnOp { label: op.label, work: op.work, retries: op.retries })
    } else {
        &&& !started
        &&& b == (App { ops: OpState { bar_hidden: false, ..a.ops }, ..a })
    }
}

/// `b` is `a` after giving up on its running job at `now`: the worker is
/// told to stop and let go, the user is told so, and the queue moves on.
pub open spec fn abandoned(a: App, b: App, now: u64) -> bool {
    let q = a.ops.queue@;
    &&& b == (App {
        ops: OpState {
            job: b.ops.job,
            queue: b.ops.queue,
            bar_hidden: b.ops.bar_hidden,
            ..a.ops
        },
        effects: b.effects,
        message: b.message,
        ..a
    })
    &&& says(
        b.message,
        tr_spec(
            a.lang,
            "⚠ abandoned — the stuck worker may linger until cian exits; continuing with the queue"@,
            "⚠ 見捨てました — 固まったワーカーは終了まで残る場合があります。キューを続行します"@,
        ),
    )
    &&& q.len() > 0 ==> {
        &&& b.ops.queue@ == q.drop_first()
        &&& b.ops.job == Some(
            OpJob {
                label: q[0].label,
                started: now,
                cancel: false,
                cancel_requested: None,
                last_progress: now,
                latest: (0, 0),
                undo: None,
            },
        )
        &&& b.effects@ == a.effects@.push(Effect::CancelOp).push(
            Effect::SpawnOp { label: q[0].label, work: q[0].work, retries: q[0].retries },
        )
        &&& b.ops.bar_hidden == a.ops.bar_hidden
    }
    &&& q.len() == 0 ==> {
        &&& b.ops.queue == a.ops.queue
        &&& b.ops.job is None
        &&& b.effects@ == a.effects@.push(Effect::CancelOp)
        &&& !b.ops.bar_hidden
    }
}

/// `post` is `pre` after `x` on line `row` of the queue list at `now`:
/// the running operation (line 0) is asked to stop, or abandoned once the
/// grace period is over; a queued one leaves the queue.
pub open spec fn queue_row_killed(pre: App, post: App, row: usize, now: u64) -> bool {
    &&& row == 0 && pre.ops.job is None ==> message_only(pre, post)
        && says(
        post.message,
        tr_spec(
            pre.lang,
            "nothing is running — x on a queued line removes it"@,
            "実行中の操作はありません — 待機行の x で取り消せます"@,
        ),
    )
    &&& row == 0 ==> (pre.ops.job matches Some(j) ==> {
        &&& j.cancel_requested is None ==> post.ops.job == Some(
            OpJob { cancel: true, cancel_requested: Some(now), ..j },
        ) && post.effects@ == pre.effects@.push(Effect::CancelOp)
        &&& (j.cancel_requested matches Some(t) ==> {
            &&& secs_since(t, now) >= pre.ops.abandon_grace_secs ==> abandoned(
                pre,
                post,
                now,
            )
            &&& secs_since(t, now) < pre.ops.abandon_grace_secs ==> message_only(
                pre,
                post,
            ) && says(
                post.message,
                tr_spec(
                    pre.lang,
                    "stop already requested — press x again shortly to abandon"@,
                    "停止要求済み — 少し待ってもう一度 x で見捨てます"@,
                ),
            )
        })
    })
    &&& row > 0 && row - 1 < pre.ops.queue@.len() ==> post == (App {
        ops: OpState { queue: post.ops.queue, ..pre.ops },
        message: post.message,
        ..pre
    }) && post.ops.queue@ == pre.ops.queue@.remove(row - 1) && says(
        post.message,
        tr_spec(pre.lang, "removed from the queue"@, "キューから外しました"@),
    )
    &&& row > 0 && row - 1 >= pre.ops.queue@.len() ==> post == pre
}

/// `post` is `pre` with the operation queue listed (or the message saying
/// nothing runs).
pub open spec fn queue_opened(pre: App, post: App) -> bool {
    &&& pre.ops.job is None && pre.ops.queue@.len() == 0 ==> message_only(
        pre,
        post,
    ) && says(
        post.message,
        tr_spec(
            pre.lang,
            "no operations running or queued"@,
            "実行中・待機中の操作はありません"@,
        ),
    )
    &&& pre.ops.job is Some || pre.ops.queue@.len() > 0 ==> post == (App {
        popup: Popup::OpQueue { cursor: 0 },
        ..pre
    })
}

/// `post` is `pre` after asking the running operation to stop.
pub open spec fn op_cancelled(pre: App, post: App, now: u64) -> bool {
    &&& pre.ops.job is None ==> post == pre
    &&& pre.ops.job matches Some(j) ==> {
        &&& post == (App {
            ops: OpState { job: post.ops.job, ..pre.ops },
            message: post.message,
            effects: post.effects,
            ..pre
        })
        &&& post.ops.job == Some(
            OpJob {
                cancel: true,
                cancel_requested: if j.cancel_requested is None {
                    Some(now)
                } else {
                    j.cancel_requested
                },
                ..j
            },
        )
        &&& post.effects@ == pre.effects@.push(Effect::CancelOp)
        &&& says(post.message, tr_spec(pre.lang, "stopping…"@, "停止中…"@))
    }
}

impl App {
    /// Stop the running find, if there is one.
    pub fn stop_find(&mut self)
        ensures
            old(self).ops.find_running ==> *final(self) == (App {
                ops: OpState { find_running: false, ..old(self).ops },
                effects: final(self).effects,
                ..*old(self)
            }) && final(self).effects@ == old(self).effects@.push(Effect::CancelFind),
            !old(self).ops.find_running ==> *final(self) == *old(self),
    {
        if self.ops.find_running {
            self.ops.find_running = false;
            self.effects.push(Effect::CancelFind);
        }
    }

    /// Start the next queued operation if the runner seat is free; says
    /// whether one was started.
    pub fn start_next_op(&mut self, now: u64) -> (started: bool)
        ensures
            next_op_started(*old(self), *final(self), now, started),
    {
        if self.ops.job.is_some() {
            return false;
        }
        if self.ops.queue.len() > 0 {
            let op = self.ops.queue.remove(0);
            let label = op.label;
            self.effects.push(Effect::SpawnOp { label: label.clone(), work: op.work, retries: op.retries });
            self.ops.job = Some(
                OpJob {
                    label,
                    started: now,
                    cancel: false,
                    cancel_requested: None,
                    last_progress: now,
                    latest: (0, 0),
                    undo: None,
                },
            );
            true
        } else {
            self.ops.bar_hidden = false;
            false
        }
    }

    /// `:queue` — the running operation and the line behind it.
    pub fn start_op_queue(&mut self)
        ensures
            queue_opened(*old(self), *final(self)),
    {
        if self.ops.job.is_none() && self.ops.queue.len() == 0 {
            self.message = Some(
                tr_string(
                    self.lang,
                    "no operations running or queued",
                    "実行中・待機中の操作はありません",
                ),
            );
            return;
        }
        self.open_popup(Popup::OpQueue { cursor: 0 });
    }

    /// Ask the running operation to stop (the first request's time is kept).
    pub fn cancel_op_job(&mut self, now: u64)
        ensures
            op_cancelled(*old(self), *final(self), now),
    {
        let lang = self.lang;
        match &mut self.ops.job {
            Some(job) => {
                job.cancel = true;
                if job.cancel_requested.is_none() {
                    job.cancel_requested = Some(now);
                }
            },
            None => return,
        }
        self.effects.push(Effect::CancelOp);
        self.message = Some(tr_string(lang, "stopping…", "停止中…"));
    }

    /// Give up on a worker that ignores its stop request (it is told to stop
    /// and let go), and let the queue move on.
    pub fn abandon_op(&mut self, now: u64)
        ensures
            old(self).ops.job is None ==> next_op_started(
                *old(self),
                *final(self),
                now,
                old(self).ops.queue@.len() > 0,
            ),
            old(self).ops.job is Some ==> abandoned(*old(self), *final(self), now),
    {
        if self.ops.job.is_some() {
            self.ops.job = None;
            self.effects.push(Effect::CancelOp);
            self.message = Some(
                tr_string(
                    self.lang,
                    "⚠ abandoned — the stuck worker may linger until cian exits; continuing with the queue",
                    "⚠ 見捨てました — 固まったワーカーは終了まで残る場合があります。キューを続行します",
                ),
            );
        }
        self.start_next_op(now);
    }

    /// Is the running operation stuck: no progress for `stall_secs`?
    pub fn op_stalled(&self, now: u64) -> (b: bool)
        ensures
            b == (self.ops.job matches Some(j) && secs_since(j.last_progress, now)
                >= self.ops.stall_secs),
    {
        match &self.ops.job {
            Some(j) => {
                let secs = if now >= j.last_progress {
                    (now - j.last_progress) / 1000
                } else {
                    0
                };
                secs >= self.ops.stall_secs
            },
            None => false,
        }
    }

    /// Remember a reversible operation for `u`. Doing something new ends the
    /// redo chain, and the stack keeps only the newest `UNDO_CAP` actions.
    pub fn record_undo(&mut self, action: UndoAction)
        ensures
            *final(self) == (App {
                ops: OpState {
                    undo_stack: final(self).ops.undo_stack,
                    redo_stack: final(self).ops.redo_stack,
                    ..old(self).ops
                },
                ..*old(self)
            }),
            final(self).ops.redo_stack@.len() == 0,
            old(self).ops.undo_stack@.len() < UNDO_CAP ==> final(self).ops.undo_stack@ == old(
                self,
            ).ops.undo_stack@.push(action),
            old(self).ops.undo_stack@.len() >= UNDO_CAP ==> final(self).ops.undo_stack@ == old(
                self,
            ).ops.undo_stack@.push(action).drop_first(),
    {
        self.ops.redo_stack.clear();
        self.ops.undo_stack.push(action);
        if self.ops.undo_stack.len() > UNDO_CAP {
            let ghost before = self.ops.undo_stack@;
            self.ops.undo_stack.remove(0);
            assert(self.ops.undo_stack@ =~= before.drop_first());
        }
    }

    /// `x` in the queue popup. Row 0 is the running operation: the first
    /// press asks it to stop, and once the grace period has passed with the
    /// worker still going, the same key abandons it. Other rows leave the
    /// queue.
    pub fn op_queue_kill(&mut self, row: usize, now: u64)
        ensures
            queue_row_killed(*old(self), *final(self), row, now),
    {
        if row == 0 {
            let requested = match &self.ops.job {
                None => {
                    self.message = Some(
                        tr_string(
                            self.lang,
                            "nothing is running — x on a queued line removes it",
                            "実行中の操作はありません — 待機行の x で取り消せます",
                        ),
                    );
                    return;
                },
                Some(j) => j.cancel_requested,
            };
            match requested {
                None => self.cancel_op_job(now),
                Some(t) => {
                    let secs = if now >= t {
                        (now - t) / 1000
                    } else {
                        0
                    };
                    if secs >= self.ops.abandon_grace_secs {
                        self.abandon_op(now);
                    } else {
                        self.message = Some(
                            tr_string(
                                self.lang,
                                "stop already requested — press x again shortly to abandon",
                                "停止要求済み — 少し待ってもう一度 x で見捨てます",
                            ),
                        );
                    }
                },
            }
            return;
        }
        let i = row - 1;
        if i < self.ops.queue.len() {
            self.ops.queue.remove(i);
            self.message = Some(tr_string(self.lang, "removed from the queue", "キューから外しました"));
        }
    }
}

/// `b` is `a` showing how a finished operation went: with problems, a
/// popup with the counts, advice on a refusal and the first problems; else
/// a one-line message.
pub open spec fn report_shown(a: App, b: App, report: OpReport) -> bool {
    &&& report.errors@.len() > 0 ==> {
        &&& popup_only(a, b)
        &&& b.popup matches Popup::Notice { lines } && views(lines@) == report_lines(report, a.config.on_windows)
    }
    &&& report.errors@.len() == 0 ==> message_only(a, b) && says(b.message, done_message(report))
}

impl App {
    /// What a finished operation reports: with problems, a popup with the
    /// counts, advice on a refusal and the first problems; else a one-line
    /// message.
    pub fn show_op_report(&mut self, report: &OpReport)
        ensures
            report_shown(*old(self), *final(self), *report),
    {
        let n = report.errors.len();
        if n > 0 {
            let mut head = decimal_chars(report.ok);
            extend_chars(&mut head, chars_of(" ok · ").as_slice());
            extend_chars(&mut head, decimal_chars(report.skipped).as_slice());
            extend_chars(&mut head, chars_of(" skipped · ").as_slice());
            extend_chars(&mut head, decimal_chars(n).as_slice());
            extend_chars(&mut head, chars_of(" errors").as_slice());
            let mut lines: Vec<String> = Vec::new();
            lines.push(crate::text::string_of(head.as_slice()));
            assert(views(lines@) =~= seq![report_head(*report)]);
            proof {
                reveal_strlit("");
            }
            if report.permission_denied {
                let ghost h = views(lines@);
                str_vec_push(&mut lines, "");
                str_vec_push(&mut lines, "Permission denied — this location's ACL does not grant you access.");
                if self.config.on_windows {
                    str_vec_push(&mut lines, "Retry with `b` (backup mode) to read and write past it");
                    str_vec_push(&mut lines, "as administrator, without changing any permissions.");
                } else {
                    str_vec_push(&mut lines, "Copy to a folder you can write to, or fix its permissions.");
                }
                str_vec_push(&mut lines, "");
                assert(views(lines@) =~= h + permission_lines(self.config.on_windows));
            }
            proof {
                reveal_strlit("");
            }
            assert(views(lines@) =~= seq![report_head(*report)] + if report.permission_denied {
                permission_lines(self.config.on_windows)
            } else {
                seq![]
            });
            let ghost mid = views(lines@);
            let shown = if n > 8 {
                8
            } else {
                n
            };
            let mut i: usize = 0;
            while i < shown
                invariant
                    i <= shown,
                    shown <= n,
                    n == report.errors@.len(),
                    views(lines@) == mid + views(report.errors@).take(i as int),
                decreases shown - i,
            {
                let ghost before = views(lines@);
                lines.push(report.errors[i].clone());
                assert(views(report.errors@).take(i + 1) =~= views(report.errors@).take(i as int).push(
                    report.errors@[i as int]@,
                ));
                assert(views(lines@) =~= before.push(report.errors@[i as int]@));
                assert(views(lines@) =~= mid + views(report.errors@).take(i + 1));
                i += 1;
            }
            if n > 8 {
                let mut more = chars_of("... and ");
                extend_chars(&mut more, decimal_chars(n - 8).as_slice());
                extend_chars(&mut more, chars_of(" more").as_slice());
                let ghost before = views(lines@);
                lines.push(crate::text::string_of(more.as_slice()));
                assert(views(lines@) =~= before.push("... and "@ + decimal((n - 8) as nat) + " more"@));
            }
            assert(views(report.errors@).take(n as int) =~= views(report.errors@));
            assert(views(lines@) =~= report_lines(*report, self.config.on_windows));
            self.open_popup(Popup::Notice { lines });
        } else {
            let mut msg = chars_of("done — ");
            extend_chars(&mut msg, decimal_chars(report.ok).as_slice());
            extend_chars(&mut msg, chars_of(" ok · ").as_slice());
            extend_chars(&mut msg, decimal_chars(report.skipped).as_slice());
            extend_chars(&mut msg, chars_of(" skipped").as_slice());
            match &report.note {
                Some(note) => {
                    extend_chars(&mut msg, chars_of(" (").as_slice());
                    extend_chars(&mut msg, chars_of(note.as_str()).as_slice());
                    extend_chars(&mut msg, chars_of(")").as_slice());
                },
                None => {},
            }
            assert(msg@ =~= done_message(*report));
            self.message = Some(crate::text::string_of(msg.as_slice()));
        }
    }
}

/// How many whole re-runs an operation gets: transfers (where a retry can
/// fix a network blip) two, everything else none.
pub open spec fn retries_for(label: Seq<char>) -> u8 {
    if label == "uploading"@ || label == "downloading"@ {
        2
    } else {
        0
    }
}

/// `b` is `a` after asking for the operation `label`, whose work is the one
/// `work` describes, at `now`: with a job running it joins the queue (and the
/// user is told how long the queue is), else it starts; either way the popup
/// closes.
pub open spec fn op_started(a: App, b: App, label: Seq<char>, work: spec_fn(OpWork) -> bool, now: u64) -> bool {
    let n = a.ops.queue@.len();
    if a.ops.job is Some {
        &&& b == (App {
            ops: OpState { queue: b.ops.queue, ..a.ops },
            message: b.message,
            popup: Popup::Closed,
            ..a
        })
        &&& b.ops.queue@.len() == n + 1
        &&& b.ops.queue@.take(n as int) == a.ops.queue@
        &&& b.ops.queue@[n as int].label@ == label
        &&& work(b.ops.queue@[n as int].work)
        &&& b.ops.queue@[n as int].retries == retries_for(label)
        &&& says(
            b.message,
            tr_spec(
                a.lang,
                "queued — "@ + decimal(n + 1) + " waiting (:queue to manage)"@,
                "キューに追加 — "@ + decimal(n + 1) + " 件待ち（:queue で一覧）"@,
            ),
        )
    } else {
        &&& b == (App {
            ops: OpState { job: b.ops.job, ..a.ops },
            effects: b.effects,
            popup: Popup::Closed,
            ..a
        })
        &&& b.ops.job matches Some(j) && j == (OpJob {
            label: j.label,
            started: now,
            cancel: false,
            cancel_requested: None,
            last_progress: now,
            latest: (0, 0),
            undo: None,
        }) && j.label@ == label
        &&& b.effects@.len() == a.effects@.len() + 1
        &&& b.effects@.take(a.effects@.len() as int) == a.effects@
        &&& b.effects@.last() matches Effect::SpawnOp { label: l, work: w, retries: r } && l@ == label
            && work(w) && r == retries_for(label)
    }
}

impl App {
    /// Run a file operation on the worker, or queue it behind the one
    /// running.
    pub fn start_op(&mut self, label: &str, work: OpWork, now: u64)
        ensures
            op_started(*old(self), *final(self), label@, |w: OpWork| w == work, now),
    {
        let retries: u8 = if str_eq(label, "uploading") || str_eq(label, "downloading") {
            2
        } else {
            0
        };
        if self.ops.job.is_some() {
            let ghost q0 = self.ops.queue@;
            self.ops.queue.push(QueuedOp { label: label.to_owned(), work, retries });
            assert(self.ops.queue@.take(q0.len() as int) =~= q0);
            let n = self.ops.queue.len();
            let digits = decimal_chars(n);
            self.message = Some(
                crate::lang::tr_around(
                    self.lang,
                    ("queued — ", " waiting (:queue to manage)"),
                    ("キューに追加 — ", " 件待ち（:queue で一覧）"),
                    digits.as_slice(),
                ),
            );
            self.popup = Popup::Closed;
            return;
        }
        let ghost e0 = self.effects@;
        let l = label.to_owned();
        self.effects.push(Effect::SpawnOp { label: l.clone(), work, retries });
        assert(self.effects@.take(e0.len() as int) =~= e0);
        self.ops.job = Some(
            OpJob {
                label: l,
                started: now,
                cancel: false,
                cancel_requested: None,
                last_progress: now,
                latest: (0, 0),
                undo: None,
            },
        );
        self.popup = Popup::Closed;
    }
}

/// What the worker running an operation sent.
pub enum OpMsg {
    /// Nothing yet.
    Idle,
    /// Progress: bytes and files done so far.
    Tick { bytes: u64, files: u64 },
    /// The operation finished.
    Done(OpReport),
    /// The worker went away without a report.
    Gone,
}

/// The length of the word at the front of `t` (up to the first whitespace).
pub open spec fn word_len(t: Seq<char>) -> nat
    decreases t.len(),
{
    if t.len() == 0 || crate::text::is_ws(t[0]) {
        0
    } else {
        1 + word_len(t.drop_first())
    }
}

/// The second whitespace-separated word of `s`
/// (`s.split_whitespace().nth(1)`).
pub open spec fn second_word(s: Seq<char>) -> Option<Seq<char>> {
    let t1 = crate::text::trim_start(s);
    if t1.len() == 0 {
        None
    } else {
        let t2 = crate::text::trim_start(t1.skip(word_len(t1) as int));
        if t2.len() == 0 {
            None
        } else {
            Some(t2.take(word_len(t2) as int))
        }
    }
}

/// The digests a hashing run reports: the second word of each of its
/// lines that has one.
pub open spec fn digests(lines: Seq<Seq<char>>) -> Seq<Seq<char>>
    decreases lines.len(),
{
    if lines.len() == 0 {
        seq![]
    } else {
        let rest = digests(lines.drop_last());
        match second_word(lines.last()) {
            Some(w) => rest.push(w),
            None => rest,
        }
    }
}

proof fn lemma_word_len_bound(t: Seq<char>)
    ensures
        word_len(t) <= t.len(),
        forall|i: int| 0 <= i < word_len(t) ==> !crate::text::is_ws(t[i]),
        word_len(t) < t.len() ==> crate::text::is_ws(t[word_len(t) as int]),
    decreases t.len(),
{
    if t.len() > 0 && !crate::text::is_ws(t[0]) {
        lemma_word_len_bound(t.drop_first());
        assert forall|i: int| 0 <= i < word_len(t) implies !crate::text::is_ws(t[i]) by {
            if i > 0 {
                assert(t[i] == t.drop_first()[i - 1]);
            }
        }
    }
}

fn word_len_exec(cs: &[char], from: usize) -> (n: usize)
    requires
        from <= cs@.len(),
    ensures
        n == word_len(cs@.skip(from as int)),
        from + n <= cs@.len(),
{
    let mut i = from;
    proof {
        lemma_word_len_bound(cs@.skip(from as int));
    }
    while i < cs.len() && !crate::text::char_is_ws(cs[i])
        invariant
            from <= i <= cs@.len(),
            word_len(cs@.skip(from as int)) == (i - from) + word_len(cs@.skip(i as int)),
        decreases cs.len() - i,
    {
        assert(cs@.skip(i as int).drop_first() =~= cs@.skip(i + 1));
        i += 1;
    }
    i - from
}

/// The length of the word at the front of `cs`.
pub(crate) fn word_len_pub(cs: &[char]) -> (n: usize)
    ensures
        n == word_len(cs@),
        n <= cs@.len(),
{
    assert(cs@.skip(0) =~= cs@);
    word_len_exec(cs, 0)
}

/// `s.split_whitespace().nth(1)`.
fn second_word_exec(s: &str) -> (r: Option<String>)
    ensures
        crate::chat::opt_view(r) == second_word(s@),
{
    let cs = chars_of(s);
    let a = crate::text::skip_ws_start(cs.as_slice());
    if a >= cs.len() {
        return None;
    }
    let w1 = word_len_exec(cs.as_slice(), a);
    let rest = crate::text::slice_vec(cs.as_slice(), a + w1, cs.len());
    assert(rest@ =~= cs@.skip(a as int).skip(w1 as int));
    let b = crate::text::skip_ws_start(rest.as_slice());
    if b >= rest.len() {
        return None;
    }
    let w2 = word_len_exec(rest.as_slice(), b);
    let out = crate::text::slice_vec(rest.as_slice(), b, b + w2);
    assert(out@ =~= rest@.skip(b as int).take(w2 as int));
    Some(crate::text::string_of(out.as_slice()))
}

fn digests_exec(lines: &Vec<String>) -> (out: Vec<String>)
    ensures
        views(out@) == digests(views(lines@)),
{
    let mut out: Vec<String> = Vec::new();
    let mut i: usize = 0;
    assert(views(lines@).take(0) =~= seq![]);
    while i < lines.len()
        invariant
            i <= lines@.len(),
            views(out@) == digests(views(lines@).take(i as int)),
        decreases lines.len() - i,
    {
        let ghost t = views(lines@).take(i + 1);
        assert(t.drop_last() =~= views(lines@).take(i as int));
        assert(t.last() == lines@[i as int]@);
        match second_word_exec(lines[i].as_str()) {
            Some(w) => {
                let ghost before = views(out@);
                out.push(w);
                assert(views(out@) =~= before.push(w@));
            },
            None => {},
        }
        i += 1;
    }
    assert(views(lines@).take(i as int) =~= views(lines@));
    out
}

/// The undo stack after remembering `action`: the redo chain ends and the
/// stack keeps its newest `UNDO_CAP`.
pub open spec fn undo_recorded(a: App, b: App, action: UndoAction) -> bool {
    &&& b == (App {
        ops: OpState { undo_stack: b.ops.undo_stack, redo_stack: b.ops.redo_stack, ..a.ops },
        ..a
    })
    &&& b.ops.redo_stack@.len() == 0
    &&& a.ops.undo_stack@.len() < UNDO_CAP ==> b.ops.undo_stack@ == a.ops.undo_stack@.push(action)
    &&& a.ops.undo_stack@.len() >= UNDO_CAP ==> b.ops.undo_stack@ == a.ops.undo_stack@.push(action).drop_first()
}

/// The first stage of a finished job: the runner seat is freed, and a job
/// that ended cleanly (not stopped, no problems) leaves its undo behind.
pub open spec fn job_closed(a: App, b: App, j: OpJob, report: OpReport) -> bool {
    let closed = App { ops: OpState { job: None, ..a.ops }, ..a };
    if !j.cancel && report.errors@.len() == 0 && j.undo is Some {
        exists|u: UndoAction| #[trigger] undo_recorded(closed, b, u) && u@ == (j.undo->0)@
    } else {
        b == closed
    }
}

/// The second stage: both listings reload, a remote pane an upload landed
/// on is listed again, and the active pane's marks go.
pub open spec fn panes_refreshed(a: App, b: App) -> bool {
    let n = a.effects@.len();
    let relist = a.ops.remote_refresh;
    exists|mid: App|
        #![trigger crate::grid::marks_dropped(mid, b)]
        {
            &&& mid == (App {
                effects: mid.effects,
                ops: OpState { remote_refresh: None, ..a.ops },
                ..a
            })
            &&& mid.effects@.take(n as int) == a.effects@
            &&& mid.effects@[n as int] == Effect::ReloadPanes
            &&& match relist {
                Some(side) => mid.effects@.len() == n + 2 && mid.effects@[n + 1int] == (Effect::RemoteRelist { side }),
                None => mid.effects@.len() == n + 1,
            }
            &&& crate::grid::marks_dropped(mid, b)
        }
}

/// Did the system refuse the copy or move in a way another try can fix?
/// A refusal on Windows, or a failed backup-mode run — with an offer kept.
pub open spec fn retry_due(a: App, j: OpJob, report: OpReport) -> bool {
    let refused = report.permission_denied && a.config.on_windows;
    let backup_failed = j.label@ == "backup mode"@ && report.errors@.len() > 0;
    (refused || backup_failed) && a.ops.pending_elevation is Some
}

/// The line the desktop notification carries.
pub open spec fn finish_summary(j: OpJob, report: OpReport) -> Seq<char> {
    if j.label@ == "hashing"@ || report.errors@.len() == 0 {
        j.label@ + " finished — "@ + decimal(report.ok as nat) + " item(s)"@
    } else {
        j.label@ + " finished with "@ + decimal(report.errors@.len()) + " problem(s)"@
    }
}

/// After a hashing run's report: its digests go on the clipboard, and the
/// report popup says so.
pub open spec fn digests_copied(a: App, b: App, j: OpJob, report: OpReport) -> bool {
    let sums = digests(views(report.errors@));
    if j.label@ == "hashing"@ && sums.len() > 0 {
        &&& b == (App { effects: b.effects, popup: b.popup, ..a })
        &&& b.effects@.len() == a.effects@.len() + 1
        &&& b.effects@.drop_last() == a.effects@
        &&& b.effects@.last() matches Effect::SetClipboard { text } && text@ == join(sums, "\n"@)
        &&& match a.popup {
            Popup::Notice { lines } => b.popup matches Popup::Notice { lines: l2 } && views(l2@) == views(
                lines@,
            ).push(""@).push("→ copied to the clipboard"@),
            _ => b.popup == a.popup,
        }
    } else {
        b == a
    }
}

/// The last stage of a finished job: the desktop is notified of a job that
/// ran to its end (unless a retry is to be offered); then a stopped job says
/// how far it got, a refusal that more rights can fix is offered again, and
/// anything else shows its report.
pub open spec fn finish_reported(a: App, b: App, j: OpJob, report: OpReport, now: u64) -> bool {
    let retry = retry_due(a, j, report);
    let notify = !j.cancel && !retry;
    let n = a.effects@.len();
    exists|m: App|
        #![trigger finish_outcome(m, b, j, report, retry, a.ops.pending_elevation)]
        {
            &&& m == (App {
                ops: OpState {
                    pending_elevation: if retry {
                        a.ops.pending_elevation
                    } else {
                        None
                    },
                    ..a.ops
                },
                effects: m.effects,
                ..a
            })
            &&& notify ==> {
                &&& m.effects@.len() == n + 1
                &&& m.effects@.drop_last() == a.effects@
                &&& m.effects@.last() matches Effect::Notify { summary, elapsed_ms } && summary@
                    == finish_summary(j, report) && elapsed_ms == if now >= j.started {
                    (now - j.started) as u64
                } else {
                    0
                }
            }
            &&& !notify ==> m.effects == a.effects
            &&& finish_outcome(m, b, j, report, retry, a.ops.pending_elevation)
        }
}

/// The message, retry offer or report a finished job ends with.
pub open spec fn finish_outcome(
    m: App,
    b: App,
    j: OpJob,
    report: OpReport,
    retry: bool,
    offer: Option<crate::state::ElevationOffer>,
) -> bool {
    if j.cancel {
        &&& b == (App {
            ops: OpState { pending_elevation: None, ..m.ops },
            message: b.message,
            ..m
        })
        &&& says(b.message, "cancelled — "@ + decimal(report.ok as nat) + " done before stopping"@)
    } else if retry {
        let backup_failed = j.label@ == "backup mode"@ && report.errors@.len() > 0;
        &&& b == (App {
            ops: OpState { pending_elevation: None, ..m.ops },
            popup: b.popup,
            ..m
        })
        &&& offer matches Some(o) && b.popup matches Popup::TransferRetry { op, targets, dest, how, why }
            && op == o.op && targets == o.targets && dest == o.dest && how == if backup_failed {
            crate::state::RetryHow::Elevate
        } else {
            crate::state::RetryHow::Backup
        } && why@ == if report.errors@.len() > 0 {
            report.errors@[0]@
        } else {
            seq![]
        }
    } else {
        exists|m2: App|
            #![trigger report_shown(m, m2, report)]
            report_shown(m, m2, report) && digests_copied(m2, b, j, report)
    }
}

/// `b` is `a` after the job `j` finished with `report` at `now`: the seat
/// is freed (leaving its undo), the listings refresh, the outcome is shown,
/// and the next queued operation starts.
pub open spec fn job_finished(a: App, b: App, j: OpJob, report: OpReport, now: u64) -> bool {
    exists|m1: App, m2: App, m3: App|
        #![trigger job_closed(a, m1, j, report), panes_refreshed(m1, m2), finish_reported(m2, m3, j, report, now)]
        {
            &&& job_closed(a, m1, j, report)
            &&& panes_refreshed(m1, m2)
            &&& finish_reported(m2, m3, j, report, now)
            &&& next_op_started(m3, b, now, m3.ops.queue@.len() > 0)
        }
}

fn default_report() -> (r: OpReport)
    ensures
        r.ok == 0 && r.skipped == 0 && r.errors@.len() == 0 && !r.permission_denied && r.note is None,
{
    OpReport { ok: 0, skipped: 0, errors: Vec::new(), permission_denied: false, note: None }
}

/// A copy of the strings `v`.
pub fn copy_strings(v: &Vec<String>) -> (r: Vec<String>)
    ensures
        path_views(r@) == path_views(v@),
{
    let mut r: Vec<String> = Vec::new();
    let mut i: usize = 0;
    while i < v.len()
        invariant
            i <= v.len(),
            r@.len() == i,
            forall|k: int| 0 <= k < i ==> r@[k]@ == v@[k]@,
        decreases v.len() - i,
    {
        r.push(v[i].clone());
        i += 1;
    }
    assert(path_views(r@) =~= path_views(v@));
    r
}

impl UndoAction {
    /// A copy naming the same paths.
    pub fn copy(&self) -> (r: UndoAction)
        ensures
            r@ == self@,
    {
        match self {
            UndoAction::Rename { from, to } => UndoAction::Rename { from: from.clone(), to: to.clone() },
            UndoAction::Created { path } => UndoAction::Created { path: path.clone() },
            UndoAction::Moved { pairs } => {
                let mut r: Vec<(String, String)> = Vec::new();
                let mut i: usize = 0;
                while i < pairs.len()
                    invariant
                        i <= pairs.len(),
                        r@.len() == i,
                        forall|k: int| 0 <= k < i ==> r@[k].0@ == pairs@[k].0@ && r@[k].1@ == pairs@[k].1@,
                    decreases pairs.len() - i,
                {
                    let (a, b) = &pairs[i];
                    r.push((a.clone(), b.clone()));
                    i += 1;
                }
                assert(pair_views(r@) =~= pair_views(pairs@));
                UndoAction::Moved { pairs: r }
            },
            UndoAction::Copied { srcs, dest, paths } => UndoAction::Copied {
                srcs: copy_strings(srcs),
                dest: dest.clone(),
                paths: copy_strings(paths),
            },
        }
    }
}

impl App {
    fn close_job(&mut self, report: &OpReport) -> (j: OpJob)
        requires
            old(self).ops.job is Some,
        ensures
            j == old(self).ops.job->0,
            job_closed(*old(self), *final(self), j, *report),
    {
        let mut job: Option<OpJob> = None;
        std::mem::swap(&mut job, &mut self.ops.job);
        let j = job.unwrap();
        let ghost closed = *self;
        if !j.cancel && report.errors.len() == 0 {
            match &j.undo {
                Some(a) => {
                    let a2 = a.copy();
                    let ghost u = a2;
                    self.record_undo(a2);
                    assert(undo_recorded(closed, *self, u));
                },
                None => {},
            }
        }
        j
    }

    fn refresh_after_job(&mut self)
        ensures
            panes_refreshed(*old(self), *final(self)),
    {
        let ghost e0 = self.effects@;
        self.effects.push(Effect::ReloadPanes);
        let mut side: Option<crate::state::FocusedPane> = None;
        std::mem::swap(&mut side, &mut self.ops.remote_refresh);
        match side {
            Some(sd) => self.effects.push(Effect::RemoteRelist { side: sd }),
            None => {},
        }
        assert(self.effects@.take(e0.len() as int) =~= e0);
        let ghost mid = *self;
        self.clear_marks();
        assert(crate::grid::marks_dropped(mid, *self));
    }

    fn notify_finish(&mut self, j: &OpJob, report: &OpReport, now: u64) -> (retry: bool)
        ensures
            retry == retry_due(*old(self), *j, *report),
            *final(self) == (App {
                ops: OpState {
                    pending_elevation: if retry {
                        old(self).ops.pending_elevation
                    } else {
                        None
                    },
                    ..old(self).ops
                },
                effects: final(self).effects,
                ..*old(self)
            }),
            !j.cancel && !retry ==> {
                &&& final(self).effects@.len() == old(self).effects@.len() + 1
                &&& final(self).effects@.drop_last() == old(self).effects@
                &&& final(self).effects@.last() matches Effect::Notify { summary, elapsed_ms } && summary@
                    == finish_summary(*j, *report) && elapsed_ms == if now >= j.started {
                    (now - j.started) as u64
                } else {
                    0
                }
            },
            !(!j.cancel && !retry) ==> final(self).effects == old(self).effects,
    {
        let windows = self.config.on_windows;
        let refused = report.permission_denied && windows;
        let backup_failed = str_eq(j.label.as_str(), "backup mode") && report.errors.len() > 0;
        let retry = (refused || backup_failed) && self.ops.pending_elevation.is_some();
        if !retry {
            self.ops.pending_elevation = None;
        }
        if !j.cancel && !retry {
            let n = report.ok;
            let summary = if str_eq(j.label.as_str(), "hashing") || report.errors.len() == 0 {
                let mut m = j.label.clone();
                push_chars(&mut m, chars_of(" finished — ").as_slice());
                push_chars(&mut m, decimal_chars(n).as_slice());
                push_chars(&mut m, chars_of(" item(s)").as_slice());
                m
            } else {
                let mut m = j.label.clone();
                push_chars(&mut m, chars_of(" finished with ").as_slice());
                push_chars(&mut m, decimal_chars(report.errors.len()).as_slice());
                push_chars(&mut m, chars_of(" problem(s)").as_slice());
                m
            };
            let elapsed = if now >= j.started {
                now - j.started
            } else {
                0
            };
            let ghost e0 = self.effects@;
            self.effects.push(Effect::Notify { summary, elapsed_ms: elapsed });
            assert(self.effects@.drop_last() =~= e0);
        }
        retry
    }

    fn finish_outcome_exec(&mut self, j: &OpJob, report: &OpReport, retry: bool)
        requires
            retry ==> old(self).ops.pending_elevation is Some,
            retry ==> (report.permission_denied && old(self).config.on_windows) || (j.label@
                == "backup mode"@ && report.errors@.len() > 0),
        ensures
            finish_outcome(*old(self), *final(self), *j, *report, retry, old(self).ops.pending_elevation),
    {
        let ghost offer0 = self.ops.pending_elevation;
        if j.cancel {
            self.ops.pending_elevation = None;
            let mut msg = cat("cancelled — ", decimal_chars(report.ok).as_slice());
            push_chars(&mut msg, chars_of(" done before stopping").as_slice());
            self.message = Some(msg);
        } else if retry {
            let backup_failed = str_eq(j.label.as_str(), "backup mode") && report.errors.len() > 0;
            let mut offer: Option<crate::state::ElevationOffer> = None;
            std::mem::swap(&mut offer, &mut self.ops.pending_elevation);
            let o = offer.unwrap();
            let how = if backup_failed {
                crate::state::RetryHow::Elevate
            } else {
                crate::state::RetryHow::Backup
            };
            let why = if report.errors.len() > 0 {
                report.errors[0].clone()
            } else {
                String::new()
            };
            self.popup = Popup::TransferRetry { op: o.op, targets: o.targets, dest: o.dest, how, why };
        } else {
            let ghost m = *self;
            self.show_op_report(report);
            let ghost m2 = *self;
            if str_eq(j.label.as_str(), "hashing") {
                let sums = digests_exec(&report.errors);
                if sums.len() > 0 {
                    let text = crate::text::join_strings(sums.as_slice(), "\n");
                    let ghost e0 = self.effects@;
                    self.effects.push(Effect::SetClipboard { text });
                    assert(self.effects@.drop_last() =~= e0);
                    let mut popup = Popup::Closed;
                    std::mem::swap(&mut popup, &mut self.popup);
                    self.popup = match popup {
                        Popup::Notice { lines } => {
                            let mut lines = lines;
                            str_vec_push(&mut lines, "");
                            str_vec_push(&mut lines, "→ copied to the clipboard");
                            Popup::Notice { lines }
                        },
                        other => other,
                    };
                }
            }
            assert(report_shown(m, m2, *report));
            assert(digests_copied(m2, *self, *j, *report));
        }
    }

    fn report_finished(&mut self, j: &OpJob, report: &OpReport, now: u64)
        ensures
            finish_reported(*old(self), *final(self), *j, *report, now),
    {
        let ghost a = *self;
        let retry = self.notify_finish(j, report, now);
        let ghost m = *self;
        self.finish_outcome_exec(j, report, retry);
        assert(finish_outcome(m, *self, *j, *report, retry, a.ops.pending_elevation));
    }

    /// Take what the worker running the operation sent (`msg`, at `now`):
    /// progress moves the stall clock only when bytes or files moved; a
    /// finished (or vanished) worker frees the seat, refreshes the panes,
    /// shows the outcome and starts the next queued operation. Says whether
    /// the screen should be redrawn.
    pub fn poll_op_job(&mut self, msg: OpMsg, now: u64) -> (changed: bool)
        ensures
            old(self).ops.job is None ==> !changed && *final(self) == *old(self),
            old(self).ops.job matches Some(j) ==> match msg {
                OpMsg::Idle => !changed && *final(self) == *old(self),
                OpMsg::Tick { bytes, files } => changed && *final(self) == (App {
                    ops: OpState {
                        job: Some(
                            OpJob {
                                latest: (bytes, files),
                                last_progress: if (bytes, files) != j.latest {
                                    now
                                } else {
                                    j.last_progress
                                },
                                ..j
                            },
                        ),
                        ..old(self).ops
                    },
                    ..*old(self)
                }),
                OpMsg::Done(r) => changed && job_finished(*old(self), *final(self), j, r, now),
                OpMsg::Gone => changed && exists|r: OpReport|
                    #![trigger job_finished(*old(self), *final(self), j, r, now)]
                    r.ok == 0 && r.skipped == 0 && r.errors@.len() == 0 && !r.permission_denied
                        && r.note is None && job_finished(*old(self), *final(self), j, r, now),
            },
    {
        if self.ops.job.is_none() {
            return false;
        }
        let report = match msg {
            OpMsg::Idle => return false,
            OpMsg::Tick { bytes, files } => {
                match &mut self.ops.job {
                    Some(j) => {
                        if bytes != j.latest.0 || files != j.latest.1 {
                            j.last_progress = now;
                        }
                        j.latest = (bytes, files);
                    },
                    None => {},
                }
                return true;
            },
            OpMsg::Done(r) => r,
            OpMsg::Gone => default_report(),
        };
        let ghost a = *self;
        let j = self.close_job(&report);
        let ghost m1 = *self;
        self.refresh_after_job();
        let ghost m2 = *self;
        proof {
            reveal(App::same_but_active);
            assert(m2.ops.job is None);
        }
        self.report_finished(&j, &report, now);
        let ghost m3 = *self;
        assert(m3.ops.job is None);
        let started = self.start_next_op(now);
        assert(started == (m3.ops.queue@.len() > 0));
        assert(job_finished(a, *self, j, report, now));
        true
    }
}

/// Remembering an operation for undo keeps the stack within `UNDO_CAP`,
/// puts that operation on top, and ends the redo chain.
pub proof fn law_undo_stack_bounded(a: App, b: App, action: UndoAction)
    requires
        undo_recorded(a, b, action),
        a.ops.undo_stack@.len() <= UNDO_CAP,
    ensures
        b.ops.undo_stack@.len() <= UNDO_CAP,
        b.ops.undo_stack@.last() == action,
        b.ops.redo_stack@.len() == 0,
{
}

/// The destinations the picker offers: the other pane's directory, then
/// the recent ones.
pub open spec fn dest_rows(a: App) -> Seq<Seq<char>> {
    let first: Seq<Seq<char>> = match a.opposite() {
        Some(p) => seq![p.cwd@],
        None => seq![],
    };
    recent_rows(first, views(a.ops.dest_history@))
}

/// `post` is `pre` after `key` in the destination picker: Esc or `q`
/// closes it, `j`/`k` and the arrows move, `n` asks for a directory not in
/// the list (starting from the other pane's), Enter asks to confirm the
/// transfer to the one under the cursor.
pub open spec fn dest_picker_keyed(pre: App, post: App, key: KeyCode) -> bool {
    let n = dest_rows(pre).len();
    let cursor = pre.popup->DestPicker_cursor;
    let op = pre.popup->DestPicker_op;
    let targets = pre.popup->DestPicker_targets;
    let at = |c: usize| post == (App { popup: Popup::DestPicker { op, targets, cursor: c }, ..pre });
    match key {
        KeyCode::Esc | KeyCode::Char('q') => post == (App { popup: Popup::Closed, ..pre }),
        KeyCode::Char('j') | KeyCode::Down => if n > 0 {
            at(if cursor + 1 <= n - 1 { (cursor + 1) as usize } else { (n - 1) as usize })
        } else {
            post == pre
        },
        KeyCode::Char('k') | KeyCode::Up => at(if cursor > 0 { (cursor - 1) as usize } else { 0 }),
        KeyCode::Char('n') => {
            &&& popup_only(pre, post)
            &&& is_prompt(
                post.popup,
                "destination"@,
                "copy/move to which directory:"@,
                match pre.opposite() {
                    Some(p) => p.cwd@,
                    None => seq![],
                },
            )
            &&& post.popup->TextInput_kind == (InputKind::DestPath { op, targets })
        },
        KeyCode::Enter => if cursor < n {
            &&& popup_only(pre, post)
            &&& post.popup matches Popup::ConfirmTransfer { op: o, targets: t, dest }
            &&& post.popup->ConfirmTransfer_op == op && post.popup->ConfirmTransfer_targets == targets
            &&& post.popup->ConfirmTransfer_dest@ == dest_rows(pre)[cursor as int]
        } else {
            post == (App { popup: Popup::Closed, ..pre })
        },
        _ => post == pre,
    }
}

/// `post` is `pre` after the typed destination turned out to be `dest`,
/// a directory or not.
pub open spec fn dest_path_finished(pre: App, post: App, op: PendingOp, targets: Vec<String>, dest: Seq<char>, is_dir: bool) -> bool {
    if is_dir {
        &&& popup_only(pre, post)
        &&& post.popup matches Popup::ConfirmTransfer { op: o, targets: t, dest: d }
        &&& post.popup->ConfirmTransfer_op == op && post.popup->ConfirmTransfer_targets == targets
        &&& post.popup->ConfirmTransfer_dest@ == dest
    } else {
        message_only(pre, post) && says(
            post.message,
            tr_spec(pre.lang, "not a directory: "@ + dest, "ディレクトリではありません: "@ + dest),
        )
    }
}

impl App {
    /// A key in the destination picker.
    pub fn dest_picker_key(&mut self, key: KeyCode)
        requires
            old(self).popup is DestPicker,
        ensures
            dest_picker_keyed(*old(self), *final(self), key),
    {
        let choices = self.dest_choices();
        let n = choices.len();
        let mut p = Popup::Closed;
        std::mem::swap(&mut p, &mut self.popup);
        let (op, targets, cursor) = match p {
            Popup::DestPicker { op, targets, cursor } => (op, targets, cursor),
            _ => return ,
        };
        assert(choices@.len() == dest_rows(*old(self)).len());
        let ghost rows = dest_rows(*old(self));
        match key {
            KeyCode::Esc | KeyCode::Char('q') => {},
            KeyCode::Char('j') | KeyCode::Down => {
                let c = if n > 0 {
                    if cursor < n - 1 {
                        cursor + 1
                    } else {
                        n - 1
                    }
                } else {
                    cursor
                };
                self.popup = Popup::DestPicker { op, targets, cursor: c };
            },
            KeyCode::Char('k') | KeyCode::Up => {
                let c = if cursor > 0 {
                    cursor - 1
                } else {
                    0
                };
                self.popup = Popup::DestPicker { op, targets, cursor: c };
            },
            KeyCode::Char('n') => {
                let start = match self.opposite_cwd() {
                    Some(c) => c,
                    None => String::new(),
                };
                proof {
                    reveal_strlit("");
                    assert(""@ =~= Seq::<char>::empty());
                }
                let prompt = crate::actions::text_input(
                    "destination",
                    "copy/move to which directory:",
                    start,
                    InputKind::DestPath { op, targets },
                );
                self.open_popup(prompt);
            },
            KeyCode::Enter => {
                if cursor < n {
                    assert(choices@[cursor as int].1@ == dest_rows(*old(self))[cursor as int]);
                    let dest = choices[cursor].1.clone();
                    self.open_popup(Popup::ConfirmTransfer { op, targets, dest });
                }
            },
            _ => {
                self.popup = Popup::DestPicker { op, targets, cursor };
            },
        }
    }

    /// The typed destination, expanded, is `dest`; `is_dir` says whether
    /// it is a directory.
    pub fn finish_dest_path(&mut self, op: PendingOp, targets: Vec<String>, dest: String, is_dir: bool)
        ensures
            dest_path_finished(*old(self), *final(self), op, targets, dest@, is_dir),
    {
        if !is_dir {
            self.message = Some(
                crate::lang::tr_with(
                    self.lang,
                    "not a directory: ",
                    "ディレクトリではありません: ",
                    chars_of(dest.as_str()).as_slice(),
                ),
            );
            return ;
        }
        self.popup = Popup::ConfirmTransfer { op, targets, dest };
    }
}


/// Every element of `s` differs from `d`: dropping `d` from it keeps it as is.
proof fn lemma_filter_keeps_all(s: Seq<Seq<char>>, d: Seq<char>)
    requires
        forall|i: int| 0 <= i < s.len() ==> s[i] != d,
    ensures
        s.filter(other_than(d)) == s,
    decreases s.len(),
{
    reveal(Seq::filter);
    if s.len() > 0 {
        lemma_filter_keeps_all(s.drop_last(), d);
        assert(s.drop_last().push(s.last()) =~= s);
    }
}

/// Remembering a destination puts it first, once; remembering the same
/// destination again right after changes nothing.
pub proof fn law_remember_dest_twice(h: Seq<Seq<char>>, d: Seq<char>, cap: nat)
    requires
        cap >= 1,
    ensures
        dests_after(h, d, cap)[0] == d,
        forall|i: int| 1 <= i < dests_after(h, d, cap).len() ==> dests_after(h, d, cap)[i] != d,
        dests_after(dests_after(h, d, cap), d, cap) == dests_after(h, d, cap),
{
    let pred = other_than(d);
    let f = h.filter(pred);
    h.filter_lemma(pred);
    let g = if (seq![d] + f).len() > cap {
        f.take(cap - 1)
    } else {
        f
    };
    let once = dests_after(h, d, cap);
    assert(once =~= seq![d] + g);
    assert forall|i: int| 0 <= i < g.len() implies g[i] != d by {
        assert(pred(f[i]));
    }
    lemma_filter_keeps_all(g, d);
    g.lemma_filter_prepend(d, pred);
    assert((seq![d] + g).filter(pred) =~= g);
    assert(seq![d] + once.filter(pred) =~= once);
}

} // verus!
