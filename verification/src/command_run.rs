//! Enter on the `:` line: the line is taken (and remembered for ↑), split
//! into a verb and the rest, and the verb is carried out. Verbs whose work
//! lies outside this library go to the front end as they are.
use vstd::prelude::*;

use crate::actions::{delete_asked, hidden_toggled, history_opened};
use crate::marks::all_selected;
use crate::ops::{queue_opened, word_len};
use crate::prompt::effect_added;
use crate::shell::{each_ran, snippets_opened};
use crate::actions::message_only;
use crate::lang::{tr, tr_spec, tr_string};
use crate::state::{says, App, CommandLine, Effect, FocusedPane, KeyCode, KeyPress, Mode, PendingOp, Popup};
use crate::transfer_start::transfer_started;
use crate::key_probe::probe_toggled;
use crate::text::{chars_of, str_eq, string_of, trim, trim_chars, views};

verus! {

/// The `:` line keeps this many lines for ↑.
pub const COMMAND_HISTORY_CAP: usize = 200;

/// The remembered lines after running `raw`: it is added unless it is
/// empty or the same as the last one, and only the newest
/// `COMMAND_HISTORY_CAP` are kept.
pub open spec fn hist_after(h: Seq<Seq<char>>, raw: Seq<char>) -> Seq<Seq<char>> {
    if raw.len() == 0 || (h.len() > 0 && h.last() == raw) {
        h
    } else if h.len() + 1 > COMMAND_HISTORY_CAP {
        h.push(raw).drop_first()
    } else {
        h.push(raw)
    }
}

/// `mid` is `pre` with its `:` line taken: empty again, back in normal
/// mode, the line remembered.
pub open spec fn command_line_taken(pre: App, mid: App) -> bool {
    &&& mid == (App { cmd: mid.cmd, mode: Mode::Normal, ..pre })
    &&& mid.cmd == (CommandLine { buffer: mid.cmd.buffer, cursor: 0, hist_at: None, history: mid.cmd.history, ..pre.cmd })
    &&& mid.cmd.buffer@.len() == 0
    &&& views(mid.cmd.history@) == hist_after(views(pre.cmd.history@), trim(pre.cmd.buffer@))
}

/// The verb of a trimmed command line: its first word.
pub open spec fn verb_of(raw: Seq<char>) -> Seq<char> {
    raw.take(word_len(raw) as int)
}

/// The rest of a trimmed command line after its verb, trimmed.
pub open spec fn rest_of(raw: Seq<char>) -> Seq<char> {
    trim(raw.skip(word_len(raw) as int))
}

/// `post` is `mid` after the command line `raw` (trimmed) was carried
/// out: nothing for an empty line; `!…` goes to the shell; the verbs
/// below do what their keys do; any other verb goes to the front end.
pub open spec fn command_dispatched(mid: App, post: App, raw: Seq<char>) -> bool {
    let verb = verb_of(raw);
    let rest = rest_of(raw);
    if raw.len() == 0 {
        post == mid
    } else if raw[0] == '!' {
        effect_added(mid, post, |e: Effect| e matches Effect::ShellEscape { command } && command@ == raw.drop_first())
    } else if verb == "q"@ || verb == "quit"@ {
        effect_added(mid, post, |e: Effect| e == Effect::Quit)
    } else if verb == "shell"@ {
        post == (App { focused: FocusedPane::Shell, ..mid })
    } else if verb == "hidden"@ {
        hidden_toggled(mid, post)
    } else if verb == "markall"@ || verb == "selectall"@ {
        all_selected(mid, post)
    } else if verb == "back"@ || verb == "history"@ {
        history_opened(mid, post)
    } else if verb == "queue"@ {
        queue_opened(mid, post)
    } else if verb == "snip"@ || verb == "snippet"@ {
        snippets_opened(mid, post)
    } else if verb == "each"@ {
        each_ran(mid, post, rest)
    } else if verb == "key"@ {
        probe_toggled(mid, post)
    } else if (verb == "cp"@ || verb == "copy"@) && rest.len() == 0 {
        transfer_started(mid, post, PendingOp::Copy)
    } else if (verb == "mv"@ || verb == "move"@) && rest.len() == 0 {
        transfer_started(mid, post, PendingOp::Move)
    } else if verb == "rm"@ || verb == "del"@ || verb == "delete"@ {
        if rest.len() > 0 {
            &&& message_only(mid, post)
            &&& says(
                post.message,
                tr_spec(
                    mid.lang,
                    "rm works on the marks, or the file under the cursor — it takes no name"@,
                    "rm はマークかカーソル位置のファイルを消します — 名前は指定できません"@,
                ),
            )
        } else {
            delete_asked(mid, post)
        }
    } else {
        effect_added(
            mid,
            post,
            |e: Effect| e matches Effect::RunCommand { verb: v, rest: r } && v@ == verb && r@ == rest,
        )
    }
}

/// `post` is `pre` after Enter on the `:` line.
pub open spec fn command_ran(pre: App, post: App) -> bool {
    exists|mid: App|
        #![trigger command_dispatched(mid, post, trim(pre.cmd.buffer@))]
        command_line_taken(pre, mid) && command_dispatched(mid, post, trim(pre.cmd.buffer@))
}

impl App {
    /// Take the `:` line: clear it, leave command mode, remember the line.
    /// Gives back the line, trimmed.
    fn take_command_line(&mut self) -> (raw: String)
        ensures
            raw@ == trim(old(self).cmd.buffer@),
            command_line_taken(*old(self), *final(self)),
    {
        let cs = trim_chars(chars_of(self.cmd.buffer.as_str()).as_slice());
        let raw = string_of(cs.as_slice());
        self.cmd.buffer = String::new();
        self.cmd.cursor = 0;
        self.cmd.hist_at = None;
        self.mode = Mode::Normal;
        let n = self.cmd.history.len();
        let same_as_last = n > 0 && str_eq(self.cmd.history[n - 1].as_str(), raw.as_str());
        if cs.len() > 0 && !same_as_last {
            let ghost h0 = views(self.cmd.history@);
            self.cmd.history.push(raw.clone());
            assert(views(self.cmd.history@) =~= h0.push(raw@));
            if self.cmd.history.len() > COMMAND_HISTORY_CAP {
                let ghost h1 = views(self.cmd.history@);
                self.cmd.history.remove(0);
                assert(views(self.cmd.history@) =~= h1.drop_first());
            }
        }
        raw
    }

    /// Carry out the command line `raw` (trimmed).
    fn dispatch_command(&mut self, raw: String)
        ensures
            command_dispatched(*old(self), *final(self), raw@),
    {
        let cs = chars_of(raw.as_str());
        if cs.len() == 0 {
            return ;
        }
        if cs[0] == '!' {
            let tail = crate::text::slice_vec(cs.as_slice(), 1, cs.len());
            assert(tail@ =~= raw@.drop_first());
            let ghost e0 = self.effects@;
            self.effects.push(Effect::ShellEscape { command: string_of(tail.as_slice()) });
            assert(self.effects@.drop_last() =~= e0);
            return ;
        }
        let w = crate::ops::word_len_pub(cs.as_slice());
        let verb_cs = crate::text::slice_vec(cs.as_slice(), 0, w);
        let after = crate::text::slice_vec(cs.as_slice(), w, cs.len());
        let rest_cs = trim_chars(after.as_slice());
        assert(verb_cs@ =~= verb_of(raw@));
        assert(after@ =~= raw@.skip(w as int));
        let verb = string_of(verb_cs.as_slice());
        let rest = string_of(rest_cs.as_slice());
        let v = verb.as_str();
        if str_eq(v, "q") || str_eq(v, "quit") {
            let ghost e0 = self.effects@;
            self.effects.push(Effect::Quit);
            assert(self.effects@.drop_last() =~= e0);
        } else if str_eq(v, "shell") {
            self.focus(FocusedPane::Shell);
        } else if str_eq(v, "hidden") {
            self.toggle_hidden();
        } else if str_eq(v, "markall") || str_eq(v, "selectall") {
            self.mark_all();
        } else if str_eq(v, "back") || str_eq(v, "history") {
            self.start_history();
        } else if str_eq(v, "queue") {
            self.start_op_queue();
        } else if str_eq(v, "snip") || str_eq(v, "snippet") {
            self.start_snippets();
        } else if str_eq(v, "each") {
            self.run_each(rest.as_str());
        } else if str_eq(v, "key") {
            self.toggle_key_probe();
        } else if (str_eq(v, "cp") || str_eq(v, "copy")) && rest_cs.len() == 0 {
            self.start_transfer(PendingOp::Copy);
        } else if (str_eq(v, "mv") || str_eq(v, "move")) && rest_cs.len() == 0 {
            self.start_transfer(PendingOp::Move);
        } else if str_eq(v, "rm") || str_eq(v, "del") || str_eq(v, "delete") {
            if rest_cs.len() > 0 {
                self.message = Some(
                    tr_string(
                        self.lang,
                        "rm works on the marks, or the file under the cursor — it takes no name",
                        "rm はマークかカーソル位置のファイルを消します — 名前は指定できません",
                    ),
                );
            } else {
                self.start_delete();
            }
        } else {
            let ghost e0 = self.effects@;
            self.effects.push(Effect::RunCommand { verb, rest });
            assert(self.effects@.drop_last() =~= e0);
        }
    }

    /// Enter on the `:` line.
    pub fn run_command(&mut self)
        ensures
            command_ran(*old(self), *final(self)),
    {
        let raw = self.take_command_line();
        let ghost mid = *self;
        self.dispatch_command(raw);
        assert(command_dispatched(mid, *self, trim(old(self).cmd.buffer@)));
    }
}

/// `post` is `pre` with the `:` line holding `line` (nothing else changed).
pub open spec fn line_now(pre: App, post: App, line: Seq<char>) -> bool {
    &&& post == (App { cmd: post.cmd, ..pre })
    &&& post.cmd == (CommandLine { buffer: post.cmd.buffer, ..pre.cmd })
    &&& post.cmd.buffer@ == line
}

/// `post` is `pre` after `key` on the `:` line (`clipboard` is the
/// clipboard's text, for `Ctrl+V`): Esc empties it and leaves, Enter runs
/// it, Backspace takes a character off, `Ctrl+U` empties it, a character
/// (without Ctrl) is added, and `Ctrl+V` pastes.
pub open spec fn command_keyed(pre: App, post: App, key: KeyPress, clipboard: Option<String>) -> bool {
    let line = pre.cmd.buffer@;
    if key.ctrl && (key.code == KeyCode::Char('v') || key.code == KeyCode::Char('V')) {
        match clipboard {
            Some(t) => crate::paste::pasted(pre, post, t@),
            None => message_only(pre, post) && says(
                post.message,
                tr_spec(pre.lang, "clipboard has no text"@, "クリップボードにテキストがありません"@),
            ),
        }
    } else {
        match key.code {
            KeyCode::Esc => post == (App { mode: Mode::Normal, cmd: post.cmd, ..pre }) && post.cmd == (CommandLine {
                buffer: post.cmd.buffer,
                ..pre.cmd
            }) && post.cmd.buffer@.len() == 0,
            KeyCode::Enter => command_ran(pre, post),
            KeyCode::Backspace => line_now(pre, post, if line.len() > 0 { line.drop_last() } else { line }),
            KeyCode::Char(c) => if key.ctrl {
                if c == 'u' || c == 'U' {
                    line_now(pre, post, seq![])
                } else {
                    post == pre
                }
            } else {
                line_now(pre, post, line.push(c))
            },
            _ => post == pre,
        }
    }
}

impl App {
    /// A key on the `:` line.
    pub fn handle_command_key(&mut self, key: KeyPress, clipboard: Option<String>)
        requires
            old(self).popup matches Popup::TextInput { buffer, .. } ==> (clipboard matches Some(t) ==> buffer@.len()
                + t@.len() < usize::MAX),
        ensures
            command_keyed(*old(self), *final(self), key, clipboard),
    {
        if key.ctrl && (key.code == KeyCode::Char('v') || key.code == KeyCode::Char('V')) {
            match clipboard {
                Some(t) => self.insert_into_active_text(t.as_str()),
                None => {
                    self.message = Some(
                        tr(self.lang, "clipboard has no text", "クリップボードにテキストがありません").to_owned(),
                    );
                },
            }
            return ;
        }
        match key.code {
            KeyCode::Esc => {
                self.cmd.buffer = String::new();
                self.mode = Mode::Normal;
            },
            KeyCode::Enter => self.run_command(),
            KeyCode::Backspace => {
                let cs = chars_of(self.cmd.buffer.as_str());
                let n = cs.len();
                if n > 0 {
                    let kept = crate::text::slice_vec(cs.as_slice(), 0, n - 1);
                    assert(kept@ =~= self.cmd.buffer@.drop_last());
                    self.cmd.buffer = string_of(kept.as_slice());
                }
            },
            KeyCode::Char(c) => {
                if key.ctrl {
                    if c == 'u' || c == 'U' {
                        self.cmd.buffer = String::new();
                    }
                } else {
                    crate::text::push_char(&mut self.cmd.buffer, c);
                }
            },
            _ => {},
        }
    }
}

} // verus!
