//! One change applied to every selected file (`:chmod`, `:readonly`), and
//! the one-line account of how it went. Nothing stops early: a sweep that
//! gives up halfway leaves the selection in two states and tells of neither.
use vstd::prelude::*;

use crate::actions::message_only;
use crate::chat::opt_view;
use crate::count::{decimal, decimal_chars};
use crate::lang::{tr, tr_spec, Lang};
use crate::state::{path_views, says, App, Effect};
use crate::text::{chars_of, push_chars, views};

verus! {

/// How many of the results `rs` are successes.
pub open spec fn ok_count(rs: Seq<Result<(), String>>) -> nat
    decreases rs.len(),
{
    if rs.len() == 0 {
        0
    } else {
        ok_count(rs.drop_last()) + if rs.last() is Ok {
            1nat
        } else {
            0nat
        }
    }
}

/// The first failure among `rs` (the result for `paths[i]` at `i`), told
/// as "path: why".
pub open spec fn first_failure(paths: Seq<Seq<char>>, rs: Seq<Result<(), String>>) -> Option<
    Seq<char>,
>
    decreases rs.len(),
{
    if rs.len() == 0 {
        None
    } else {
        match first_failure(paths, rs.drop_last()) {
            Some(e) => Some(e),
            None => match rs.last() {
                Err(e) => Some(paths[rs.len() - 1] + ": "@ + e@),
                Ok(_) => None,
            },
        }
    }
}

/// `r` is what `f` may give for a file whose path is `path`.
pub open spec fn outcome_of<F: Fn(&String) -> Result<(), String>>(
    f: F,
    path: Seq<char>,
    r: Result<(), String>,
) -> bool {
    exists|p: String| p@ == path && #[trigger] call_ensures(f, (&p,), r)
}

/// The line that tells how a sweep over `total` files went: `ok` took, the
/// rest did not, and `err` is why the first one did not.
pub open spec fn each_report_text(
    lang: Lang,
    what: Seq<char>,
    ok: nat,
    total: nat,
    err: Option<Seq<char>>,
) -> Seq<char> {
    let failed: nat = if total >= ok {
        (total - ok) as nat
    } else {
        0
    };
    let okd = decimal(ok);
    let nd = decimal(failed);
    if failed == 0 {
        tr_spec(lang, what + " on "@ + okd + " item(s)"@, what + ": "@ + okd + " 件"@)
    } else {
        match err {
            Some(e) => if ok == 0 {
                tr_spec(
                    lang,
                    what + ": all "@ + nd + " failed — "@ + e,
                    what + ": "@ + nd + " 件すべて失敗 — "@ + e,
                )
            } else {
                tr_spec(
                    lang,
                    what + " on "@ + okd + " item(s) — "@ + nd + " failed: "@ + e,
                    what + ": "@ + okd + " 件成功、"@ + nd + " 件失敗 — "@ + e,
                )
            },
            None => tr_spec(
                lang,
                what + " on "@ + okd + " item(s) — "@ + nd + " failed"@,
                what + ": "@ + okd + " 件成功、"@ + nd + " 件失敗"@,
            ),
        }
    }
}

/// A sweep never counts more successes than files it tried.
pub proof fn lemma_ok_count_bound(rs: Seq<Result<(), String>>)
    ensures
        ok_count(rs) <= rs.len(),
    decreases rs.len(),
{
    if rs.len() > 0 {
        lemma_ok_count_bound(rs.drop_last());
    }
}

/// Run `f` over every path, counting what worked and keeping the first
/// complaint; every path is tried.
pub fn apply_to_each<F: Fn(&String) -> Result<(), String>>(paths: &[String], f: F) -> (r: (
    usize,
    Option<String>,
))
    requires
        forall|p: String| call_requires(f, (&p,)),
    ensures
        exists|rs: Seq<Result<(), String>>|
            #![trigger ok_count(rs)]
            {
                &&& rs.len() == paths@.len()
                &&& forall|i: int| 0 <= i < rs.len() ==> call_ensures(f, (&paths@[i],), #[trigger] rs[i])
                &&& r.0 == ok_count(rs)
                &&& opt_view(r.1) == first_failure(views(paths@), rs)
            },
{
    let mut ok: usize = 0;
    let mut err: Option<String> = None;
    let ghost mut rs: Seq<Result<(), String>> = seq![];
    let mut i: usize = 0;
    while i < paths.len()
        invariant
            0 <= i <= paths.len(),
            rs.len() == i,
            forall|p: String| call_requires(f, (&p,)),
            forall|j: int| 0 <= j < i ==> call_ensures(f, (&paths@[j],), #[trigger] rs[j]),
            ok == ok_count(rs),
            opt_view(err) == first_failure(views(paths@), rs),
        decreases paths.len() - i,
    {
        let res = f(&paths[i]);
        let ghost before = rs;
        proof {
            rs = rs.push(res);
            assert(rs.drop_last() =~= before);
            lemma_ok_count_bound(before);
        }
        match res {
            Ok(()) => {
                ok += 1;
            },
            Err(e) => {
                if err.is_none() {
                    let mut m = paths[i].clone();
                    push_chars(&mut m, chars_of(": ").as_slice());
                    push_chars(&mut m, chars_of(e.as_str()).as_slice());
                    err = Some(m);
                }
            },
        }
        i += 1;
    }
    (ok, err)
}

/// Append `n` in decimal.
fn push_count(out: &mut String, n: usize)
    ensures
        final(out)@ == old(out)@ + decimal(n as nat),
{
    let d = decimal_chars(n);
    push_chars(out, d.as_slice());
}

/// Append `s`.
fn push_text(out: &mut String, s: &str)
    ensures
        final(out)@ == old(out)@ + s@,
{
    push_chars(out, chars_of(s).as_slice());
}

impl App {
    /// What a sweep over `total` files did, in one line.
    pub fn each_report(&self, what: &str, ok: usize, total: usize, err: Option<String>) -> (out: String)
        ensures
            out@ == each_report_text(self.lang, what@, ok as nat, total as nat, opt_view(err)),
    {
        let failed: usize = if total >= ok {
            total - ok
        } else {
            0
        };
        let ja = self.lang == Lang::Ja;
        let mut out = what.to_owned();
        if failed == 0 {
            if ja {
                push_text(&mut out, ": ");
                push_count(&mut out, ok);
                push_text(&mut out, " 件");
            } else {
                push_text(&mut out, " on ");
                push_count(&mut out, ok);
                push_text(&mut out, " item(s)");
            }
            return out;
        }
        match err {
            Some(e) => {
                if ok == 0 {
                    if ja {
                        push_text(&mut out, ": ");
                        push_count(&mut out, failed);
                        push_text(&mut out, " 件すべて失敗 — ");
                    } else {
                        push_text(&mut out, ": all ");
                        push_count(&mut out, failed);
                        push_text(&mut out, " failed — ");
                    }
                } else {
                    if ja {
                        push_text(&mut out, ": ");
                        push_count(&mut out, ok);
                        push_text(&mut out, " 件成功、");
                        push_count(&mut out, failed);
                        push_text(&mut out, " 件失敗 — ");
                    } else {
                        push_text(&mut out, " on ");
                        push_count(&mut out, ok);
                        push_text(&mut out, " item(s) — ");
                        push_count(&mut out, failed);
                        push_text(&mut out, " failed: ");
                    }
                }
                push_text(&mut out, e.as_str());
            },
            None => {
                if ja {
                    push_text(&mut out, ": ");
                    push_count(&mut out, ok);
                    push_text(&mut out, " 件成功、");
                    push_count(&mut out, failed);
                    push_text(&mut out, " 件失敗");
                } else {
                    push_text(&mut out, " on ");
                    push_count(&mut out, ok);
                    push_text(&mut out, " item(s) — ");
                    push_count(&mut out, failed);
                    push_text(&mut out, " failed");
                }
            },
        }
        out
    }

    /// Apply `change` to every target and report it as `what`: with nothing
    /// selected only a message; otherwise the panes are reloaded and the
    /// message tells how many took.
    fn sweep_targets<F: Fn(&String) -> Result<(), String>>(&mut self, what: String, change: F)
        requires
            forall|p: String| call_requires(change, (&p,)),
        ensures
            swept(*old(self), *final(self), what@, change),
    {
        let paths = self.target_paths();
        if paths.len() == 0 {
            self.message = Some(tr(self.lang, "nothing selected", "選択されていません").to_owned());
            return ;
        }
        let (ok, err) = apply_to_each(paths.as_slice(), change);
        let ghost rs = choose|rs: Seq<Result<(), String>>|
            {
                &&& rs.len() == paths@.len()
                &&& forall|i: int| 0 <= i < rs.len() ==> call_ensures(change, (&paths@[i],), #[trigger] rs[i])
                &&& ok == ok_count(rs)
                &&& opt_view(err) == first_failure(views(paths@), rs)
            };
        proof {
            assert(views(paths@) =~= path_views(paths@));
            assert forall|i: int| 0 <= i < rs.len() implies outcome_of(change, self.targets()[i], #[trigger] rs[i]) by {
                assert(paths@[i]@ == self.targets()[i]);
            }
        }
        self.effects.push(Effect::ReloadPanes);
        let m = self.each_report(what.as_str(), ok, paths.len(), err);
        self.message = Some(m);
    }

    /// `:chmod <arg>`: set the mode of every target with `set_mode`, trying
    /// them all, and say how many took.
    pub fn set_attr_command<F: Fn(&String) -> Result<(), String>>(&mut self, arg: &str, set_mode: F)
        requires
            forall|p: String| call_requires(set_mode, (&p,)),
        ensures
            swept(*old(self), *final(self), "chmod "@ + arg@, set_mode),
    {
        let mut what = "chmod ".to_owned();
        push_text(&mut what, arg);
        self.sweep_targets(what, set_mode);
    }

    /// `:readonly` / `:writable`: set or clear the read-only flag of every
    /// target with `set_readonly`, and say how many took.
    pub fn set_readonly_command<F: Fn(&String) -> Result<(), String>>(&mut self, on: bool, set_readonly: F)
        requires
            forall|p: String| call_requires(set_readonly, (&p,)),
        ensures
            swept(*old(self), *final(self), readonly_what(old(self).lang, on), set_readonly),
    {
        let what = match self.lang {
            Lang::Ja => if on {
                "読み取り専用を設定".to_owned()
            } else {
                "読み取り専用を解除".to_owned()
            },
            Lang::En => if on {
                "read-only set".to_owned()
            } else {
                "read-only cleared".to_owned()
            },
        };
        self.sweep_targets(what, set_readonly);
    }
}

/// The name a read-only sweep is reported under.
pub open spec fn readonly_what(lang: Lang, on: bool) -> Seq<char> {
    if on {
        tr_spec(lang, "read-only set"@, "読み取り専用を設定"@)
    } else {
        tr_spec(lang, "read-only cleared"@, "読み取り専用を解除"@)
    }
}

/// `b` is `a` after applying `change` to each of `a`'s targets under the
/// name `what`: with no targets only the message changes; otherwise each
/// target was tried once, in order, the panes are reloaded, and the message
/// reports the results.
pub open spec fn swept<F: Fn(&String) -> Result<(), String>>(a: App, b: App, what: Seq<char>, change: F) -> bool {
    if a.targets().len() == 0 {
        message_only(a, b) && says(b.message, tr_spec(a.lang, "nothing selected"@, "選択されていません"@))
    } else {
        exists|rs: Seq<Result<(), String>>|
            #![trigger ok_count(rs)]
            {
                &&& rs.len() == a.targets().len()
                &&& forall|i: int| 0 <= i < rs.len() ==> outcome_of(change, a.targets()[i], #[trigger] rs[i])
                &&& b == (App { effects: b.effects, message: b.message, ..a })
                &&& b.effects@ == a.effects@.push(Effect::ReloadPanes)
                &&& says(
                    b.message,
                    each_report_text(a.lang, what, ok_count(rs), a.targets().len(), first_failure(a.targets(), rs)),
                )
            }
    }
}

} // verus!
