//! Asking the model about the files in the active pane: new names for them
//! (`AI rename`) and which of them answer a question (semantic search).
//! What is asked is decided here; the request itself leaves as an effect.
use vstd::prelude::*;

use crate::actions::message_only;
use crate::lang::{tr, tr_spec};
use crate::state::{says, AiPurpose, AiState, App, Effect, Entry, Pane};
use crate::text::{chars_of, extend_chars, string_of, trim, trim_chars};

verus! {

/// The files an AI rename works on, as (name, path): the marked ones when
/// something is marked, else every row; never `..`.
pub open spec fn rename_candidates(es: Seq<Entry>, p: Pane) -> Seq<(Seq<char>, Seq<char>)>
    decreases es.len(),
{
    if es.len() == 0 {
        seq![]
    } else {
        let rest = rename_candidates(es.drop_last(), p);
        let e = es.last();
        if !e.is_parent && (p.marks@.len() == 0 || p.has_mark(e.path@)) {
            rest.push((e.name@, e.path@))
        } else {
            rest
        }
    }
}

/// Each name on a line of its own.
pub open spec fn name_lines(c: Seq<(Seq<char>, Seq<char>)>) -> Seq<char>
    decreases c.len(),
{
    if c.len() == 0 {
        seq![]
    } else {
        name_lines(c.drop_last()) + c.last().0 + "\n"@
    }
}

/// At most this many names go to the model.
pub const RENAME_LISTING_CAP: usize = 400;

/// What the model is asked for an AI rename.
pub open spec fn rename_request(instruction: Seq<char>, c: Seq<(Seq<char>, Seq<char>)>) -> Seq<char> {
    let shown = if c.len() > RENAME_LISTING_CAP {
        c.take(RENAME_LISTING_CAP as int)
    } else {
        c
    };
    "Instruction: "@ + instruction + "\n\nFiles:\n"@ + name_lines(shown)
}

/// The pairs `v`, as character sequences.
pub open spec fn name_path_views(v: Seq<(String, String)>) -> Seq<(Seq<char>, Seq<char>)> {
    Seq::new(v.len(), |i: int| (v[i].0@, v[i].1@))
}

/// `b` is `a` after sending the model `request` for `purpose`: nothing
/// without a configured backend; "busy" while a request is out; else the
/// request leaves and the job is marked out.
pub open spec fn ai_requested(a: App, b: App, purpose: spec_fn(AiPurpose) -> bool, request: Seq<char>) -> bool {
    if a.config.ai is None {
        b == a
    } else if a.ai.job {
        message_only(a, b) && says(b.message, tr_spec(a.lang, "AI is busy"@, "AI は処理中です"@))
    } else {
        &&& b == (App { effects: b.effects, ai: AiState { job: true, ..a.ai }, ..a })
        &&& b.effects@.len() == a.effects@.len() + 1
        &&& b.effects@.drop_last() == a.effects@
        &&& b.effects@.last() matches Effect::AiRequest { purpose: p, request: r } && purpose(p) && r@ == request
    }
}

/// `b` is `a` after the AI-rename prompt was answered `instruction`.
pub open spec fn ai_rename_started(a: App, b: App, instruction: Seq<char>) -> bool {
    let instr = trim(instruction);
    if instr.len() == 0 {
        message_only(a, b) && says(
            b.message,
            tr_spec(a.lang, "cancelled (no instruction)"@, "中止しました（指示なし）"@),
        )
    } else {
        match a.active() {
            None => b == a,
            Some(p) => {
                let c = rename_candidates(p.entries@, p);
                if c.len() == 0 {
                    message_only(a, b) && says(
                        b.message,
                        tr_spec(a.lang, "nothing to rename"@, "リネームする対象がありません"@),
                    )
                } else {
                    exists|m: App|
                        #![trigger ai_requested(m, b, rename_purpose(c), rename_request(instr, c))]
                        {
                            &&& message_only(a, m)
                            &&& says(
                                m.message,
                                tr_spec(a.lang, "asking AI for new names…"@, "AI に新しい名前を問い合わせ中…"@),
                            )
                            &&& ai_requested(m, b, rename_purpose(c), rename_request(instr, c))
                        }
                }
            },
        }
    }
}

/// A rename request about exactly the files `c`.
pub open spec fn rename_purpose(c: Seq<(Seq<char>, Seq<char>)>) -> spec_fn(AiPurpose) -> bool {
    |pp: AiPurpose| pp matches AiPurpose::Rename { names } && name_path_views(names@) == c
}

fn candidates_exec(p: &Pane) -> (out: Vec<(String, String)>)
    ensures
        name_path_views(out@) == rename_candidates(p.entries@, *p),
{
    let any_marks = p.marks.len() > 0;
    let mut out: Vec<(String, String)> = Vec::new();
    let mut i: usize = 0;
    while i < p.entries.len()
        invariant
            i <= p.entries@.len(),
            any_marks == (p.marks@.len() > 0),
            name_path_views(out@) == rename_candidates(p.entries@.take(i as int), *p),
        decreases p.entries@.len() - i,
    {
        let e = &p.entries[i];
        let ghost before = out@;
        assert(p.entries@.take(i as int + 1).drop_last() =~= p.entries@.take(i as int));
        if !e.is_parent && (!any_marks || p.is_marked(i)) {
            out.push((e.name.clone(), e.path.clone()));
            assert(name_path_views(out@) =~= name_path_views(before).push((e.name@, e.path@)));
        }
        i += 1;
    }
    assert(p.entries@.take(p.entries@.len() as int) =~= p.entries@);
    out
}

fn listing_exec(c: &Vec<(String, String)>) -> (out: Vec<char>)
    ensures
        ({
            let v = name_path_views(c@);
            out@ == name_lines(if v.len() > RENAME_LISTING_CAP {
                v.take(RENAME_LISTING_CAP as int)
            } else {
                v
            })
        }),
{
    let ghost v = name_path_views(c@);
    let n = if c.len() > RENAME_LISTING_CAP {
        RENAME_LISTING_CAP
    } else {
        c.len()
    };
    let mut out: Vec<char> = Vec::new();
    let mut i: usize = 0;
    while i < n
        invariant
            i <= n,
            n <= c@.len(),
            v == name_path_views(c@),
            out@ == name_lines(v.take(i as int)),
        decreases n - i,
    {
        assert(v.take(i as int + 1).drop_last() =~= v.take(i as int));
        extend_chars(&mut out, chars_of(c[i].0.as_str()).as_slice());
        out.push('\n');
        proof {
            reveal_strlit("\n");
        }
        assert(out@ =~= name_lines(v.take(i as int)) + v[i as int].0 + "\n"@);
        i += 1;
    }
    if c.len() <= RENAME_LISTING_CAP {
        assert(v.take(n as int) =~= v);
    }
    out
}

impl App {
    /// Send the model `request` for `purpose`, unless there is no backend
    /// or one request is already out.
    pub fn ai_request(&mut self, purpose: AiPurpose, request: String)
        ensures
            ai_requested(*old(self), *final(self), |p: AiPurpose| p == purpose, request@),
    {
        if self.config.ai.is_none() {
            return ;
        }
        if self.ai.job {
            self.message = Some(tr(self.lang, "AI is busy", "AI は処理中です").to_owned());
            return ;
        }
        let ghost e0 = self.effects@;
        self.effects.push(Effect::AiRequest { purpose, request });
        assert(self.effects@.drop_last() =~= e0);
        self.ai.job = true;
    }

    /// The AI-rename prompt was answered `instruction`: ask the model for
    /// new names for the marked files, or for every file shown.
    pub fn start_ai_rename(&mut self, instruction: &str)
        ensures
            ai_rename_started(*old(self), *final(self), instruction@),
    {
        let instr = trim_chars(chars_of(instruction).as_slice());
        if instr.len() == 0 {
            self.message = Some(tr(self.lang, "cancelled (no instruction)", "中止しました（指示なし）").to_owned());
            return ;
        }
        let chosen = match self.active_pane() {
            Some(p) => candidates_exec(p),
            None => return ,
        };
        if chosen.len() == 0 {
            self.message = Some(tr(self.lang, "nothing to rename", "リネームする対象がありません").to_owned());
            return ;
        }
        let mut req = chars_of("Instruction: ");
        extend_chars(&mut req, instr.as_slice());
        extend_chars(&mut req, chars_of("\n\nFiles:\n").as_slice());
        let listing = listing_exec(&chosen);
        extend_chars(&mut req, listing.as_slice());
        let request = string_of(req.as_slice());
        self.message = Some(tr(self.lang, "asking AI for new names…", "AI に新しい名前を問い合わせ中…").to_owned());
        let ghost asked = *self;
        let ghost c = name_path_views(chosen@);
        let purpose = AiPurpose::Rename { names: chosen };
        let ghost pg = purpose;
        self.ai_request(purpose, request);
        assert(ai_requested(asked, *self, rename_purpose(c), rename_request(trim(instruction@), c))) by {
            assert(rename_purpose(c)(pg));
        }
    }
}

/// `b` is `a` after the semantic-search prompt was answered `query`: the
/// tree below the active pane is to be surveyed and the model asked.
pub open spec fn ai_search_started(a: App, b: App, query: Seq<char>) -> bool {
    let q = trim(query);
    if q.len() == 0 {
        message_only(a, b) && says(b.message, tr_spec(a.lang, "cancelled (no query)"@, "中止しました（検索語なし）"@))
    } else {
        match a.active() {
            None => b == a,
            Some(p) => if p.remote {
                message_only(a, b) && says(
                    b.message,
                    tr_spec(
                        a.lang,
                        "not on a remote pane — this reads the local disk"@,
                        "リモートペインでは使えません（この機能は手元のディスクを読みます）"@,
                    ),
                )
            } else {
                &&& b == (App { effects: b.effects, ..a })
                &&& b.effects@.len() == a.effects@.len() + 1
                &&& b.effects@.drop_last() == a.effects@
                &&& b.effects@.last() matches Effect::AiSearch { root, query: qq } && root@ == p.cwd@ && qq@ == q
            },
        }
    }
}

impl App {
    /// The semantic-search prompt was answered `query`.
    pub fn start_ai_search(&mut self, query: &str)
        ensures
            ai_search_started(*old(self), *final(self), query@),
    {
        let q = trim_chars(chars_of(query).as_slice());
        if q.len() == 0 {
            self.message = Some(tr(self.lang, "cancelled (no query)", "中止しました（検索語なし）").to_owned());
            return ;
        }
        let (root, remote) = match self.active_pane() {
            Some(p) => (p.cwd.clone(), p.remote),
            None => return ,
        };
        if remote {
            self.message = Some(
                tr(
                    self.lang,
                    "not on a remote pane — this reads the local disk",
                    "リモートペインでは使えません（この機能は手元のディスクを読みます）",
                ).to_owned(),
            );
            return ;
        }
        let ghost e0 = self.effects@;
        self.effects.push(Effect::AiSearch { root, query: string_of(q.as_slice()) });
        assert(self.effects@.drop_last() =~= e0);
    }
}

} // verus!
