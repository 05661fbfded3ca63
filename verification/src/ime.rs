//! Switching the system's input method with cian's mode. Driving cian (the
//! panes, reading in the viewer) is always the off source, so a command key
//! is never eaten; typing into cian gets back whatever the user was last
//! typing with. The switch itself runs on the front end's worker, in the
//! order the jobs are queued here.
use vstd::prelude::*;

use crate::actions::{message_only, popup_only};
use crate::count::decimal;
use crate::lang::{tr, tr_spec, tr_string, Lang};
use crate::shell::replace_all;
use crate::state::{says, App, Effect, FocusedPane, ImeJob, ImeOptions, Mode, Popup, SwitchLog};
use crate::text::{chars_of, contains_seq, push_chars, string_of, trim, views};

verus! {

/// Is cian taking text rather than being driven by commands? Everything
/// that reads a typed string says yes; the panes in normal mode and the
/// viewer being read say no.
pub open spec fn wants_text(a: App) -> bool {
    match a.popup {
        Popup::Closed => a.mode == Mode::Command || a.mode == Mode::Filter || a.mode == Mode::Search
            || a.focused == FocusedPane::Shell,
        Popup::Viewer { find_input, sub_input, block_input, editing, .. } => find_input || sub_input
            || block_input || editing,
        Popup::TextInput { .. } | Popup::Search { .. } | Popup::Palette | Popup::AiChat { .. }
        | Popup::CommitMessage { .. } | Popup::Snippets { .. } | Popup::GrepReplace => true,
        _ => false,
    }
}

/// `b` is `a` after collecting the news of the last switch: a failure not
/// yet shown is shown (once); the log is marked shown.
pub open spec fn failure_reported(a: App, b: App, l1: Option<SwitchLog>, l2: Option<SwitchLog>) -> bool {
    match l1 {
        Some(log) => if log.reported {
            b == a && l2 == l1
        } else {
            &&& l2 == Some(SwitchLog { reported: true, ..log })
            &&& match log.error {
                Some(e) => message_only(a, b) && says(b.message, "ime: "@ + log.cmd@ + " — "@ + e@),
                None => b == a,
            }
        },
        None => b == a && l2 == l1,
    }
}

/// The command that prints the current source: `query`, else the helper.
pub open spec fn query_cmd_spec(o: ImeOptions) -> Option<Seq<char>> {
    match o.query {
        Some(q) => Some(q@),
        None => match o.helper {
            Some(h) => Some(h@),
            None => None,
        },
    }
}

/// The command that switches to `id`: `set` with `{}` replaced by the id
/// (or the id appended), else the helper with the id as its argument.
pub open spec fn set_cmd_spec(o: ImeOptions, id: Seq<char>) -> Option<Seq<char>> {
    match o.set {
        Some(t) => if contains_seq(t@, "{}"@) {
            Some(replace_all(t@, "{}"@, id))
        } else {
            Some(t@ + " "@ + id)
        },
        None => match o.helper {
            Some(h) => Some(h@ + " "@ + id),
            None => None,
        },
    }
}

impl ImeOptions {
    /// The command that prints the current source.
    pub fn query_cmd(&self) -> (r: Option<String>)
        ensures
            crate::chat::opt_view(r) == query_cmd_spec(*self),
    {
        match &self.query {
            Some(q) => Some(q.clone()),
            None => match &self.helper {
                Some(h) => Some(h.clone()),
                None => None,
            },
        }
    }

    /// The command that switches to the source `id`.
    pub fn set_cmd(&self, id: &str) -> (r: Option<String>)
        ensures
            crate::chat::opt_view(r) == set_cmd_spec(*self, id@),
    {
        match &self.set {
            Some(t) => {
                let tc = chars_of(t.as_str());
                let braces = vec!['{', '}'];
                proof {
                    reveal_strlit("{}");
                    assert("{}"@ =~= braces@);
                }
                if crate::text::contains_chars(tc.as_slice(), braces.as_slice()) {
                    let out = crate::shell::replace_chars(tc.as_slice(), braces.as_slice(), chars_of(id).as_slice());
                    Some(string_of(out.as_slice()))
                } else {
                    let mut c = t.clone();
                    push_chars(&mut c, chars_of(" ").as_slice());
                    push_chars(&mut c, chars_of(id).as_slice());
                    Some(c)
                }
            },
            None => match &self.helper {
                Some(h) => {
                    let mut c = h.clone();
                    push_chars(&mut c, chars_of(" ").as_slice());
                    push_chars(&mut c, chars_of(id).as_slice());
                    Some(c)
                },
                None => None,
            },
        }
    }
}

/// Record what a switch did, to be shown once.
pub fn note(slot: &mut Option<SwitchLog>, cmd: &str, error: Option<String>)
    ensures
        *final(slot) matches Some(l) && l.cmd@ == cmd@ && l.error == error && !l.reported,
{
    *slot = Some(SwitchLog { cmd: cmd.to_owned(), error, reported: false });
}

/// What `:ime` shows when nothing is configured: how to set it up.
pub open spec fn not_configured_lines(lang: Lang) -> Seq<Seq<char>> {
    seq![
        tr_spec(lang, "the input-method switch is not configured"@, "日本語入力の切替は未設定です"@),
        ""@,
        tr_spec(
            lang,
            "Add this to init.lua, with a helper that prints the current input"@,
            "init.lua に次を書いてください。現在の入力ソースを表示し、引数で"@,
        ),
        tr_spec(lang, "source and switches to the one it is given:"@, "切り替えるヘルパーが必要です:"@),
        ""@,
        "  cian.ime{"@,
        "    helper = \"cian-ime\","@,
        "    off    = \"com.apple.keylayout.ABC\","@,
        "  }"@,
        ""@,
        tr_spec(
            lang,
            "macism, im-select, or cian's own examples/cian-ime.swift"@,
            "macism / im-select、または同梱の examples/cian-ime.swift"@,
        ),
    ]
}

fn push_string(v: &mut Vec<String>, s: String)
    ensures
        views(final(v)@) == views(old(v)@).push(s@),
{
    let ghost before = views(v@);
    let ghost sv = s@;
    v.push(s);
    assert(views(v@) =~= before.push(sv));
}

fn push_str(v: &mut Vec<String>, s: &str)
    ensures
        views(final(v)@) == views(old(v)@).push(s@),
{
    let ghost before = views(v@);
    v.push(s.to_owned());
    assert(views(v@) =~= before.push(s@));
}

/// The setup help shown by `:ime` when nothing is configured.
pub fn not_configured(lang: Lang) -> (out: Vec<String>)
    ensures
        views(out@) == not_configured_lines(lang),
{
    let mut v: Vec<String> = Vec::new();
    push_str(&mut v, tr(lang, "the input-method switch is not configured", "日本語入力の切替は未設定です"));
    push_str(&mut v, "");
    push_str(
        &mut v,
        tr(
            lang,
            "Add this to init.lua, with a helper that prints the current input",
            "init.lua に次を書いてください。現在の入力ソースを表示し、引数で",
        ),
    );
    push_str(&mut v, tr(lang, "source and switches to the one it is given:", "切り替えるヘルパーが必要です:"));
    push_str(&mut v, "");
    push_str(&mut v, "  cian.ime{");
    push_str(&mut v, "    helper = \"cian-ime\",");
    push_str(&mut v, "    off    = \"com.apple.keylayout.ABC\",");
    push_str(&mut v, "  }");
    push_str(&mut v, "");
    push_str(
        &mut v,
        tr(
            lang,
            "macism, im-select, or cian's own examples/cian-ime.swift",
            "macism / im-select、または同梱の examples/cian-ime.swift",
        ),
    );
    assert(views(v@) =~= not_configured_lines(lang));
    v
}

/// `post` is `pre` after noticing that an input method is on where a command was expected: said once, and switched off where `cian.ime{}` is set.
pub open spec fn ime_noticed(pre: App, post: App) -> bool {
    &&& pre.ime_warned ==> post == pre
    &&& !pre.ime_warned && pre.config.ime is None ==> post == (App {
        ime_warned: true,
        message: post.message,
        ..pre
    }) && says(
        post.message,
        tr_spec(
            pre.lang,
            "IME is on — commands need it off. cian can switch it for you: see cian.ime{} (:ime)"@,
            "IME が ON です — コマンドは OFF で。cian が自動で切替できます: cian.ime{}（:ime）"@,
        ),
    )
    &&& !pre.ime_warned && pre.config.ime is Some ==> post == (App {
        ime_warned: true,
        ime_on: Some(false),
        message: post.message,
        effects: post.effects,
        ..pre
    }) && post.effects@ == pre.effects@.push(Effect::Ime { job: ImeJob::LeaveText })
        && says(
        post.message,
        tr_spec(
            pre.lang,
            "IME was on — switched off so the keys work again"@,
            "IME が ON でした — コマンドが効くよう OFF に戻しました"@,
        ),
    )
}

impl App {
    /// `App::wants_text_input`.
    pub fn wants_text_input(&self) -> (b: bool)
        ensures
            b == wants_text(*self),
    {
        match &self.popup {
            Popup::Closed => self.mode == Mode::Command || self.mode == Mode::Filter || self.mode
                == Mode::Search || self.focused == FocusedPane::Shell,
            Popup::Viewer { find_input, sub_input, block_input, editing, .. } => *find_input
                || *sub_input || *block_input || *editing,
            Popup::TextInput { .. } | Popup::Search { .. } | Popup::Palette | Popup::AiChat { .. }
            | Popup::CommitMessage { .. } | Popup::Snippets { .. } | Popup::GrepReplace => true,
            _ => false,
        }
    }

    /// Say so when a switch failed — once per failure. `log` is the
    /// worker's record of the last switch.
    pub fn report_ime_failure(&mut self, log: &mut Option<SwitchLog>)
        ensures
            failure_reported(*old(self), *final(self), *old(log), *final(log)),
    {
        let (cmd, err) = match log {
            Some(l) => {
                if l.reported {
                    return ;
                }
                l.reported = true;
                (l.cmd.clone(), match &l.error {
                    Some(e) => Some(e.clone()),
                    None => None,
                })
            },
            None => return ,
        };
        match err {
            Some(e) => {
                let mut m = crate::text::cat("ime: ", chars_of(cmd.as_str()).as_slice());
                push_chars(&mut m, chars_of(" — ").as_slice());
                push_chars(&mut m, chars_of(e.as_str()).as_slice());
                self.message = Some(m);
            },
            None => {},
        }
    }

    /// Put the input method where this moment wants it: a job is queued
    /// only when the answer changes. Failures of earlier switches (`log`)
    /// are reported first.
    pub fn sync_ime(&mut self, log: &mut Option<SwitchLog>)
        ensures
            old(self).config.ime is None ==> *final(self) == *old(self) && *final(log) == *old(log),
            old(self).config.ime is Some ==> exists|mid: App|
                #![trigger failure_reported(*old(self), mid, *old(log), *final(log))]
                {
                    let want = wants_text(mid);
                    &&& failure_reported(*old(self), mid, *old(log), *final(log))
                    &&& want == wants_text(*old(self))
                    &&& final(self).ime_on == Some(want)
                    &&& mid.ime_on == Some(want) ==> *final(self) == mid
                    &&& mid.ime_on != Some(want) ==> {
                        &&& *final(self) == (App {
                            ime_on: Some(want),
                            effects: final(self).effects,
                            ..mid
                        })
                        &&& final(self).effects@ == mid.effects@.push(
                            Effect::Ime {
                                job: if want {
                                    ImeJob::EnterText
                                } else {
                                    ImeJob::LeaveText
                                },
                            },
                        )
                    }
                },
    {
        if self.config.ime.is_none() {
            return ;
        }
        self.report_ime_failure(log);
        let ghost mid = *self;
        let want = self.wants_text_input();
        if self.ime_on == Some(want) {
            return ;
        }
        self.ime_on = Some(want);
        self.effects.push(
            Effect::Ime {
                job: if want {
                    ImeJob::EnterText
                } else {
                    ImeJob::LeaveText
                },
            },
        );
    }

    /// On the way out: should the keyboard be handed back as it was found?
    /// Only with `restore` set and cian last having switched it off.
    pub fn release_ime(&self) -> (b: bool)
        ensures
            b == (self.config.ime matches Some(c) && c.restore && self.ime_on == Some(false)),
    {
        match &self.config.ime {
            Some(c) => c.restore && self.ime_on == Some(false),
            None => false,
        }
    }

    /// A keystroke just proved the input method is on. Once per run of
    /// them: with `cian.ime{}` it is switched off again, without it the
    /// message says how to have cian do it.
    pub fn note_ime_is_on(&mut self)
        ensures
            ime_noticed(*old(self), *final(self)),
    {
        if self.ime_warned {
            return ;
        }
        self.ime_warned = true;
        if self.config.ime.is_some() {
            self.ime_on = Some(false);
            self.effects.push(Effect::Ime { job: ImeJob::LeaveText });
            self.message = Some(
                tr_string(
                    self.lang,
                    "IME was on — switched off so the keys work again",
                    "IME が ON でした — コマンドが効くよう OFF に戻しました",
                ),
            );
        } else {
            self.message = Some(
                tr_string(
                    self.lang,
                    "IME is on — commands need it off. cian can switch it for you: see cian.ime{} (:ime)",
                    "IME が ON です — コマンドは OFF で。cian が自動で切替できます: cian.ime{}（:ime）",
                ),
            );
        }
    }
}

/// `label` padded to ten columns, then `: ` and `value` (`{:<10}: {}`).
pub open spec fn field_line(label: Seq<char>, value: Seq<char>) -> Seq<char> {
    label + Seq::new(if label.len() < 10 {
        (10 - label.len()) as nat
    } else {
        0
    }, |i: int| ' ') + ": "@ + value
}

/// What the last switch did, as `:ime` shows it.
pub open spec fn last_text(lang: Lang, last: Option<(Seq<char>, Option<Seq<char>>)>) -> Seq<char> {
    match last {
        Some((cmd, None)) => cmd + "  ✔"@,
        Some((cmd, Some(e))) => cmd + "  ⚠ "@ + e,
        None => tr_spec(lang, "(none run yet)"@, "（まだ実行されていません）"@),
    }
}

/// The `:ime` report: what is configured, what cian remembers (`remembered`)
/// and what the last switch did (`last`).
pub open spec fn ime_lines(
    a: App,
    cfg: ImeOptions,
    remembered: Option<Seq<char>>,
    last: Option<(Seq<char>, Option<Seq<char>>)>,
) -> Seq<Seq<char>> {
    let lang = a.lang;
    let state = match a.ime_on {
        Some(true) => tr_spec(lang, "typing (your own input source)"@, "入力中（記憶した入力ソース）"@),
        Some(false) => tr_spec(lang, "driving cian (off)"@, "操作中（オフ）"@),
        None => tr_spec(lang, "not set yet"@, "未適用"@),
    };
    let rem = match remembered {
        Some(r) => r,
        None => tr_spec(
            lang,
            "(nothing yet — text opens off)"@,
            "（まだ覚えていません — 入力のときもオフのまま）"@,
        ),
    };
    let dash = "—"@;
    seq![
        tr_spec(lang, "input method switching"@, "日本語入力の自動切替"@),
        ""@,
        field_line("state"@, state),
        field_line("remembered"@, rem),
        ""@,
        field_line("query"@, match query_cmd_spec(cfg) { Some(q) => q, None => dash }),
        field_line("set"@, match set_cmd_spec(cfg, "<id>"@) { Some(q) => q, None => dash }),
        field_line("off"@, match cfg.off { Some(o) => o@, None => dash }),
        field_line("restore"@, if cfg.restore { "true"@ } else { "false"@ }),
        field_line("last"@, last_text(lang, last)),
        ""@,
        tr_spec(
            lang,
            "Commands are always off. Typing gets back whatever you last"@,
            "コマンド操作中は常にオフ。入力するときは、直前に自分が使って"@,
        ),
        tr_spec(
            lang,
            "typed with — cian reads it each time it takes the keyboard back"@,
            "いた入力ソースに戻します（毎回読み取って覚えています）"@,
        ),
        tr_spec(
            lang,
            ":ime on / :ime off switch now, to check the helper works"@,
            ":ime on / :ime off でその場で切り替えて動作確認できます"@,
        ),
    ]
}

/// The last switch as text.
pub open spec fn last_view(last: Option<(String, Option<String>)>) -> Option<(Seq<char>, Option<Seq<char>>)> {
    match last {
        Some((c, e)) => Some((c@, crate::chat::opt_view(e))),
        None => None,
    }
}

spec fn report_is(a: App, lines: Seq<Seq<char>>, rem: Option<Seq<char>>, last: Option<(Seq<char>, Option<Seq<char>>)>) -> bool {
    match a.config.ime {
        Some(cfg) => lines == ime_lines(a, cfg, rem, last),
        None => true,
    }
}

fn field(label: &str, value: &[char]) -> (out: String)
    ensures
        out@ == field_line(label@, value@),
{
    let mut out = label.to_owned();
    let n = chars_of(label).len();
    let pad: usize = if n < 10 {
        10 - n
    } else {
        0
    };
    let mut j: usize = 0;
    while j < pad
        invariant
            j <= pad,
            out@ == label@ + Seq::new(j as nat, |i: int| ' '),
        decreases pad - j,
    {
        crate::text::push_char(&mut out, ' ');
        assert(out@ =~= label@ + Seq::new((j + 1) as nat, |i: int| ' '));
        j += 1;
    }
    push_chars(&mut out, chars_of(": ").as_slice());
    push_chars(&mut out, value);
    out
}

fn opt_or_dash(o: Option<String>) -> (out: Vec<char>)
    ensures
        out@ == match crate::chat::opt_view(o) {
            Some(q) => q,
            None => "—"@,
        },
{
    match o {
        Some(q) => chars_of(q.as_str()),
        None => chars_of("—"),
    }
}

impl App {
    /// `:ime` — what is configured, what cian remembers, and what the last
    /// switch did; `:ime on` / `:ime off` switch there and then. The
    /// remembered source and the last switch are the worker's, handed in.
    pub fn ime_report(&mut self, arg: &str, remembered: Option<String>, last: Option<(String, Option<String>)>)
        ensures
            old(self).config.ime is None ==> popup_only(*old(self), *final(self)) && (final(self).popup matches Popup::Notice {
                lines,
            } && views(lines@) == not_configured_lines(old(self).lang)),
            old(self).config.ime matches Some(cfg) ==> {
                let t = trim(arg@);
                &&& t == "off"@ ==> *final(self) == (App {
                    ime_on: Some(false),
                    message: final(self).message,
                    effects: final(self).effects,
                    ..*old(self)
                }) && final(self).effects@ == old(self).effects@.push(Effect::Ime { job: ImeJob::LeaveText })
                    && says(final(self).message, tr_spec(old(self).lang, "ime: off"@, "ime: オフ"@))
                &&& t == "on"@ ==> *final(self) == (App {
                    ime_on: Some(true),
                    message: final(self).message,
                    effects: final(self).effects,
                    ..*old(self)
                }) && final(self).effects@ == old(self).effects@.push(Effect::Ime { job: ImeJob::EnterText })
                    && says(
                    final(self).message,
                    tr_spec(
                        old(self).lang,
                        "ime: back to what you were typing with"@,
                        "ime: 直前の入力状態に復帰"@,
                    ),
                )
                &&& t != "off"@ && t != "on"@ ==> popup_only(*old(self), *final(self)) && (final(self).popup matches Popup::Notice {
                    lines,
                } && views(lines@) == ime_lines(
                    *old(self),
                    cfg,
                    crate::chat::opt_view(remembered),
                    last_view(last),
                ))
            },
    {
        if self.config.ime.is_none() {
            let lines = not_configured(self.lang);
            self.open_popup(Popup::Notice { lines });
            return ;
        }
        proof {
            reveal_strlit("off");
            reveal_strlit("on");
            reveal_strlit("");
        }
        let t = string_of(crate::text::trim_chars(chars_of(arg).as_slice()).as_slice());
        if crate::text::str_eq(t.as_str(), "off") {
            self.ime_on = Some(false);
            self.effects.push(Effect::Ime { job: ImeJob::LeaveText });
            self.message = Some(tr_string(self.lang, "ime: off", "ime: オフ"));
            assert(t@ == "off"@);
            assert(t@.len() == 3);
            assert(t@ != "on"@);
            return ;
        }
        if crate::text::str_eq(t.as_str(), "on") {
            self.ime_on = Some(true);
            self.effects.push(Effect::Ime { job: ImeJob::EnterText });
            self.message = Some(
                tr_string(self.lang, "ime: back to what you were typing with", "ime: 直前の入力状態に復帰"),
            );
            return ;
        }
        let ghost rem_v = crate::chat::opt_view(remembered);
        let ghost last_vw = last_view(last);
        let lang = self.lang;
        let state = match self.ime_on {
            Some(true) => tr(lang, "typing (your own input source)", "入力中（記憶した入力ソース）"),
            Some(false) => tr(lang, "driving cian (off)", "操作中（オフ）"),
            None => tr(lang, "not set yet", "未適用"),
        };
        let rem = match remembered {
            Some(r) => chars_of(r.as_str()),
            None => chars_of(
                tr(lang, "(nothing yet — text opens off)", "（まだ覚えていません — 入力のときもオフのまま）"),
            ),
        };
        let last_v = match last {
            Some((cmd, None)) => {
                let mut c = chars_of(cmd.as_str());
                crate::text::extend_chars(&mut c, chars_of("  ✔").as_slice());
                c
            },
            Some((cmd, Some(e))) => {
                let mut c = chars_of(cmd.as_str());
                crate::text::extend_chars(&mut c, chars_of("  ⚠ ").as_slice());
                crate::text::extend_chars(&mut c, chars_of(e.as_str()).as_slice());
                c
            },
            None => chars_of(tr(lang, "(none run yet)", "（まだ実行されていません）")),
        };
        let (q, st, off, restore) = match &self.config.ime {
            Some(cfg) => (
                opt_or_dash(cfg.query_cmd()),
                opt_or_dash(cfg.set_cmd("<id>")),
                opt_or_dash(match &cfg.off {
                    Some(o) => Some(o.clone()),
                    None => None,
                }),
                cfg.restore,
            ),
            None => return ,
        };
        let mut lines: Vec<String> = Vec::new();
        push_str(&mut lines, tr(lang, "input method switching", "日本語入力の自動切替"));
        push_str(&mut lines, "");
        let ghost l0 = views(lines@);
        push_string(&mut lines, field("state", chars_of(state).as_slice()));
        push_string(&mut lines, field("remembered", rem.as_slice()));
        push_str(&mut lines, "");
        push_string(&mut lines, field("query", q.as_slice()));
        push_string(&mut lines, field("set", st.as_slice()));
        push_string(&mut lines, field("off", off.as_slice()));
        push_string(&mut lines, field("restore", chars_of(if restore { "true" } else { "false" }).as_slice()));
        push_string(&mut lines, field("last", last_v.as_slice()));
        push_str(&mut lines, "");
        push_str(
            &mut lines,
            tr(
                lang,
                "Commands are always off. Typing gets back whatever you last",
                "コマンド操作中は常にオフ。入力するときは、直前に自分が使って",
            ),
        );
        push_str(
            &mut lines,
            tr(
                lang,
                "typed with — cian reads it each time it takes the keyboard back",
                "いた入力ソースに戻します（毎回読み取って覚えています）",
            ),
        );
        push_str(
            &mut lines,
            tr(
                lang,
                ":ime on / :ime off switch now, to check the helper works",
                ":ime on / :ime off でその場で切り替えて動作確認できます",
            ),
        );
        proof {
            let cfg = self.config.ime.unwrap();
            let exp = ime_lines(*self, cfg, rem_v, last_vw);
            assert(views(lines@).len() == exp.len());
            assert(views(lines@)[0] == exp[0]);
            assert(views(lines@)[2] == exp[2]);
            assert(views(lines@)[3] == exp[3]);
            assert(views(lines@)[5] == exp[5]);
            assert(views(lines@)[6] == exp[6]);
            assert(views(lines@)[7] == exp[7]);
            assert(views(lines@)[8] == exp[8]);
            assert(views(lines@)[9] == exp[9]);
            assert(views(lines@)[11] == exp[11]);
            assert(views(lines@) =~= exp);
        }
        assert(report_is(*self, views(lines@), rem_v, last_vw));
        self.open_popup(Popup::Notice { lines });
    }
}

} // verus!
