//! Typing into the embedded shell: commands run there, commands put at its
//! prompt for review, `:each` (one command per selected file), snippets, and
//! input held back while the shell is still starting.
use vstd::prelude::*;

use crate::count::{decimal, decimal_chars};
use crate::actions::{message_only, popup_only};
use crate::lang::{tr_spec, tr_string, Lang};
use crate::state::{path_views, says, App, Effect, FocusedPane, KeyCode, Popup, ShellState, Snippet};
use crate::text::{
    cat, chars_of, contains_chars, contains_seq, has_char, join, join_strings, lowercase, occurs_at, occurs_at_exec, push_chars,
    string_of, trim, trim_chars, views,
};

verus! {

/// `s` with every occurrence of `p` (taken left to right, never
/// overlapping) replaced by `w` (`str::replace`).
pub open spec fn replace_all(s: Seq<char>, p: Seq<char>, w: Seq<char>) -> Seq<char>
    decreases s.len(),
{
    if s.len() == 0 || p.len() == 0 {
        s
    } else if occurs_at(s, p, 0) {
        w + replace_all(s.skip(p.len() as int), p, w)
    } else {
        seq![s[0]] + replace_all(s.drop_first(), p, w)
    }
}

/// `str::replace` for a non-empty pattern.
pub fn replace_chars(s: &[char], p: &[char], w: &[char]) -> (out: Vec<char>)
    requires
        p@.len() > 0,
    ensures
        out@ == replace_all(s@, p@, w@),
{
    let mut out: Vec<char> = Vec::new();
    let mut i: usize = 0;
    assert(s@.skip(0) =~= s@);
    while i < s.len()
        invariant
            i <= s.len(),
            p@.len() > 0,
            out@ + replace_all(s@.skip(i as int), p@, w@) == replace_all(s@, p@, w@),
        decreases s.len() - i,
    {
        let ghost rest = s@.skip(i as int);
        let ghost before = out@;
        assert(occurs_at(rest, p@, 0) == occurs_at(s@, p@, i as int)) by {
            if i + p@.len() <= s@.len() {
                assert(rest.subrange(0, p@.len() as int) =~= s@.subrange(i as int, i + p@.len()));
            }
        }
        if occurs_at_exec(s, p, i) {
            out.extend_from_slice(w);
            assert(rest.skip(p@.len() as int) =~= s@.skip(i + p@.len()));
            assert(out@ =~= before + w@);
            i = i + p.len();
        } else {
            out.push(s[i]);
            assert(rest.drop_first() =~= s@.skip(i + 1));
            assert(out@ =~= before + seq![rest[0]]);
            i = i + 1;
        }
    }
    assert(s@.skip(i as int) =~= seq![]);
    out
}

/// A path the shell would read more into than its name: it holds a double
/// quote, `$`, a backtick or a line break.
pub open spec fn shell_unsafe(s: Seq<char>) -> bool {
    s.contains('"') || s.contains('$') || s.contains('`') || s.contains('\n') || s.contains('\r')
}

/// `s` in double quotes.
pub open spec fn quoted(s: Seq<char>) -> Seq<char> {
    seq!['"'] + s + seq!['"']
}

/// The `:each` command line for one path: `{}` in the template becomes the
/// quoted path; with no `{}` the quoted path is appended after a space.
pub open spec fn each_line(template: Seq<char>, path: Seq<char>) -> Seq<char> {
    if contains_seq_braces(template) {
        replace_all(template, seq!['{', '}'], quoted(path))
    } else {
        template + seq![' '] + quoted(path)
    }
}

/// Does the template hold `{}`?
pub open spec fn contains_seq_braces(t: Seq<char>) -> bool {
    crate::text::contains_seq(t, seq!['{', '}'])
}

/// The command lines for the safe paths of `paths`, in order.
pub open spec fn each_kept(template: Seq<char>, paths: Seq<Seq<char>>) -> Seq<Seq<char>>
    decreases paths.len(),
{
    if paths.len() == 0 {
        seq![]
    } else {
        let rest = each_kept(template, paths.drop_last());
        if shell_unsafe(paths.last()) {
            rest
        } else {
            rest.push(each_line(template, paths.last()))
        }
    }
}

/// How many of `paths` are left out as unsafe.
pub open spec fn each_skipped(paths: Seq<Seq<char>>) -> nat
    decreases paths.len(),
{
    if paths.len() == 0 {
        0
    } else {
        each_skipped(paths.drop_last()) + if shell_unsafe(paths.last()) {
            1nat
        } else {
            0nat
        }
    }
}

fn is_shell_unsafe(cs: &[char]) -> (b: bool)
    ensures
        b == shell_unsafe(cs@),
{
    has_char(cs, '"') || has_char(cs, '$') || has_char(cs, '`') || has_char(cs, '\n') || has_char(
        cs,
        '\r',
    )
}

/// Build the per-file command lines for `:each`, and count the paths left
/// out because quoting could not keep the shell from reading into them.
/// Every path is either given a line or counted.
pub fn each_lines(template: &str, paths: &[String]) -> (r: (Vec<String>, usize))
    ensures
        views(r.0@) == each_kept(template@, views(paths@)),
        r.1 == each_skipped(views(paths@)),
        r.0@.len() + r.1 == paths@.len(),
{
    let tc = chars_of(template);
    let braces = vec!['{', '}'];
    let has_braces = contains_chars(tc.as_slice(), braces.as_slice());
    let mut lines: Vec<String> = Vec::new();
    let mut skipped: usize = 0;
    let mut i: usize = 0;
    assert(views(paths@).take(0) =~= seq![]);
    while i < paths.len()
        invariant
            i <= paths.len(),
            tc@ == template@,
            braces@ == seq!['{', '}'],
            has_braces == contains_seq_braces(template@),
            views(lines@) == each_kept(template@, views(paths@).take(i as int)),
            skipped == each_skipped(views(paths@).take(i as int)),
            lines@.len() + skipped == i,
        decreases paths.len() - i,
    {
        let ghost t = views(paths@).take(i + 1);
        assert(t.drop_last() =~= views(paths@).take(i as int));
        assert(t.last() == paths@[i as int]@);
        let s = chars_of(paths[i].as_str());
        if is_shell_unsafe(s.as_slice()) {
            skipped += 1;
        } else {
            let mut q: Vec<char> = vec!['"'];
            q.extend_from_slice(s.as_slice());
            q.push('"');
            assert(q@ =~= quoted(s@));
            let line = if has_braces {
                string_of(replace_chars(tc.as_slice(), braces.as_slice(), q.as_slice()).as_slice())
            } else {
                let mut l = tc.clone();
                l.push(' ');
                l.extend_from_slice(q.as_slice());
                assert(l@ =~= template@ + seq![' '] + quoted(s@));
                string_of(l.as_slice())
            };
            let ghost before = views(lines@);
            lines.push(line);
            assert(views(lines@) =~= before.push(each_line(template@, s@)));
        }
        i += 1;
    }
    assert(views(paths@).take(paths.len() as int) =~= views(paths@));
    (lines, skipped)
}

/// `b` is `a` after typing `text` into the shell panel: the shell is asked
/// to start (in `a.shell.cwd`), it gets the keyboard, and the text goes to
/// the running session, or waits for it when none is up yet.
pub open spec fn typed_into_shell(a: App, b: App, text: Seq<char>) -> bool {
    let n = a.effects@.len();
    &&& b == (App { focused: FocusedPane::Shell, effects: b.effects, shell: b.shell, ..a })
    &&& b.shell == (ShellState { pending_input: b.shell.pending_input, ..a.shell })
    &&& b.effects@.take(n as int) == a.effects@
    &&& b.effects@.len() > n
    &&& b.effects@[n as int] matches Effect::EnsureShell { cwd } && cwd@ == a.shell.cwd@
    &&& a.shell.ready ==> {
        &&& b.effects@.len() == n + 2
        &&& b.effects@[n + 1int] matches Effect::WriteShell { text: t } && t@ == text
        &&& b.shell.pending_input == a.shell.pending_input
    }
    &&& !a.shell.ready ==> {
        &&& b.effects@.len() == n + 1
        &&& b.shell.pending_input matches Some(t) && t@ == text
    }
}

/// `post` is `pre` after choosing snippet `index`: one that asks first is
/// shown for confirmation, the others go to the shell.
pub open spec fn snippet_sent(pre: App, post: App, index: usize) -> bool {
    &&& index >= pre.config.snippets@.len() ==> post == pre
    &&& index < pre.config.snippets@.len() ==> ({
        let s = pre.config.snippets@[index as int];
        &&& s.confirm ==> {
            &&& popup_only(pre, post)
            &&& post.popup matches Popup::ConfirmSnippet { name, cmd, enter } && name@
                == s.name@ && cmd@ == s.cmd@ && enter == s.enter
        }
        &&& !s.confirm ==> App::delivered(pre, post, s.cmd@, s.enter)
    })
}

/// `post` is `pre` with the snippet picker open (or the message saying
/// none are configured).
pub open spec fn snippets_opened(pre: App, post: App) -> bool {
    &&& pre.config.snippets@.len() == 0 ==> message_only(pre, post) && says(
        post.message,
        tr_spec(
            pre.lang,
            "no snippets configured (cian.snippets{…} in init.lua)"@,
            "スニペット未設定（init.lua の cian.snippets{…}）"@,
        ),
    )
    &&& pre.config.snippets@.len() > 0 ==> {
        &&& popup_only(pre, post)
        &&& post.popup matches Popup::Snippets { cursor, filter } && cursor == 0
            && filter@.len() == 0
    }
}

/// `post` is `pre` after `:each template`: the template run in the shell for
/// each target, one line each (paths that cannot be quoted safely skipped).
pub open spec fn each_ran(pre: App, post: App, template: Seq<char>) -> bool {
    &&& ({
        let t = trim(template);
        let ps = pre.targets();
        let kept = each_kept(t, ps);
        &&& t.len() == 0 ==> message_only(pre, post) && says(
            post.message,
            tr_spec(
                pre.lang,
                "usage: :each <command with {} for each file>"@,
                "使い方: :each <コマンド（{} が各ファイルに展開）>"@,
            ),
        )
        &&& t.len() > 0 && ps.len() == 0 ==> message_only(pre, post) && says(
            post.message,
            tr_spec(pre.lang, "nothing selected"@, "選択なし"@),
        )
        &&& t.len() > 0 && ps.len() > 0 && kept.len() == 0 ==> message_only(
            pre,
            post,
        ) && says(
            post.message,
            tr_spec(
                pre.lang,
                "no usable paths — a name holds \" $ ` or a line break, which the shell would read"@,
                "使えるパスがありません — 名前に \" $ ` か改行があり、シェルが解釈してしまいます"@,
            ),
        )
        &&& t.len() > 0 && kept.len() > 0 ==> typed_into_shell(
            pre,
            App { message: pre.message, ..post },
            join(kept, "\n"@).push('\n'),
        ) && says(post.message, App::each_run_report(kept.len(), each_skipped(ps)))
    })
}

impl App {
    fn type_into_shell(&mut self, text: String)
        ensures
            typed_into_shell(*old(self), *final(self), text@),
    {
        let ghost n = self.effects@.len();
        let ghost start = self.effects@;
        let cwd = self.shell.cwd.clone();
        self.effects.push(Effect::EnsureShell { cwd });
        self.focus(FocusedPane::Shell);
        if self.shell.ready {
            self.effects.push(Effect::WriteShell { text });
        } else {
            self.shell.pending_input = Some(text);
        }
        assert(self.effects@.take(n as int) =~= start);
    }

    /// Send the clipboard's text (read by the caller) to the shell, as typing
    /// it would: raw, newlines included.
    pub fn paste_text_to_shell(&mut self, clipboard: Option<String>)
        ensures
            clipboard is None ==> *final(self) == (App { message: final(self).message, ..*old(self) })
                && says(
                final(self).message,
                tr_spec(old(self).lang, "clipboard has no text"@, "クリップボードにテキストがありません"@),
            ),
            clipboard matches Some(t) ==> (old(self).shell.ready ==> *final(self) == (App {
                effects: final(self).effects,
                ..*old(self)
            }) && final(self).effects@ == old(self).effects@.push(Effect::WriteShell { text: t })),
            clipboard is Some && !old(self).shell.ready ==> *final(self) == (App {
                message: final(self).message,
                ..*old(self)
            }) && says(
                final(self).message,
                tr_spec(old(self).lang, "no shell to paste into"@, "貼り付け先のシェルがありません"@),
            ),
    {
        match clipboard {
            Some(t) => {
                if self.shell.ready {
                    self.effects.push(Effect::WriteShell { text: t });
                } else {
                    self.message = Some(
                        tr_string(self.lang, "no shell to paste into", "貼り付け先のシェルがありません"),
                    );
                }
            },
            None => {
                self.message = Some(
                    tr_string(self.lang, "clipboard has no text", "クリップボードにテキストがありません"),
                );
            },
        }
    }

    /// Put a command at the shell prompt without running it: the user reviews
    /// it and presses Enter.
    pub fn insert_ai_command_at_prompt(&mut self, cmd: &str)
        ensures
            typed_into_shell(
                *old(self),
                App { message: old(self).message, ..*final(self) },
                cmd@,
            ),
            says(
                final(self).message,
                tr_spec(
                    old(self).lang,
                    "command at prompt. review and press Enter"@,
                    "プロンプトに入れました。確認して Enter"@,
                ),
            ),
    {
        self.type_into_shell(cmd.to_owned());
        self.message = Some(
            tr_string(
                self.lang,
                "command at prompt. review and press Enter",
                "プロンプトに入れました。確認して Enter",
            ),
        );
    }

    /// Send a command line to the shell panel (with its newline), starting
    /// the shell if needed.
    pub fn run_in_shell(&mut self, cmd: String)
        ensures
            typed_into_shell(*old(self), *final(self), cmd@.push('\n')),
    {
        let mut cmd = cmd;
        crate::text::push_char(&mut cmd, '\n');
        self.type_into_shell(cmd);
    }

    /// The report after `:each` sent `n` lines and left `skipped` paths out.
    pub open spec fn each_run_report(n: nat, skipped: nat) -> Seq<char> {
        "each: sent "@ + decimal(n) + " command(s)"@ + if skipped > 0 {
            ", skipped "@ + decimal(skipped)
        } else {
            seq![]
        }
    }

    /// `:each <template>` — run a shell command once per selected file (the
    /// one under the cursor when nothing is marked), all sent to the shell
    /// in order.
    pub fn run_each(&mut self, template: &str)
        ensures
            each_ran(*old(self), *final(self), template@),
    {
        let tc = trim_chars(chars_of(template).as_slice());
        if tc.len() == 0 {
            self.message = Some(
                tr_string(
                    self.lang,
                    "usage: :each <command with {} for each file>",
                    "使い方: :each <コマンド（{} が各ファイルに展開）>",
                ),
            );
            return;
        }
        let paths = self.target_paths();
        if paths.len() == 0 {
            self.message = Some(tr_string(self.lang, "nothing selected", "選択なし"));
            return;
        }
        assert(views(paths@) =~= path_views(paths@));
        let t = string_of(tc.as_slice());
        let (lines, skipped) = each_lines(t.as_str(), paths.as_slice());
        if lines.len() == 0 {
            self.message = Some(
                tr_string(
                    self.lang,
                    "no usable paths — a name holds \" $ ` or a line break, which the shell would read",
                    "使えるパスがありません — 名前に \" $ ` か改行があり、シェルが解釈してしまいます",
                ),
            );
            return;
        }
        let n = lines.len();
        let joined = join_strings(lines.as_slice(), "\n");
        self.run_in_shell(joined);
        let mut m = cat("each: sent ", decimal_chars(n).as_slice());
        push_chars(&mut m, chars_of(" command(s)").as_slice());
        if skipped > 0 {
            push_chars(&mut m, chars_of(", skipped ").as_slice());
            push_chars(&mut m, decimal_chars(skipped).as_slice());
        }
        assert(m@ =~= Self::each_run_report(n as nat, skipped as nat));
        self.message = Some(m);
    }

    /// `:snip`: open the command-snippet launcher.
    pub fn start_snippets(&mut self)
        ensures
            snippets_opened(*old(self), *final(self)),
    {
        if self.config.snippets.len() == 0 {
            self.message = Some(
                tr_string(
                    self.lang,
                    "no snippets configured (cian.snippets{…} in init.lua)",
                    "スニペット未設定（init.lua の cian.snippets{…}）",
                ),
            );
            return;
        }
        self.open_popup(Popup::Snippets { cursor: 0, filter: String::new() });
    }

    /// Send the snippet at `index` to the shell — after a confirmation when
    /// it asks for one.
    pub fn send_snippet(&mut self, index: usize)
        ensures
            snippet_sent(*old(self), *final(self), index),
    {
        if index >= self.config.snippets.len() {
            return;
        }
        let name = self.config.snippets[index].name.clone();
        let cmd = self.config.snippets[index].cmd.clone();
        let enter = self.config.snippets[index].enter;
        if self.config.snippets[index].confirm {
            self.open_popup(Popup::ConfirmSnippet { name, cmd, enter });
        } else {
            self.deliver_snippet(cmd.as_str(), enter);
        }
    }

    /// What handing a snippet to the shell does: run it (with a newline) when
    /// `enter`, else put it at the prompt for review.
    pub open spec fn delivered(a: App, b: App, cmd: Seq<char>, enter: bool) -> bool {
        &&& enter ==> typed_into_shell(a, App { message: a.message, ..b }, cmd.push('\n')) && says(
            b.message,
            tr_spec(a.lang, "snippet sent"@, "スニペットを送信"@),
        )
        &&& !enter ==> typed_into_shell(a, App { message: a.message, ..b }, cmd) && says(
            b.message,
            tr_spec(
                a.lang,
                "command at prompt. review and press Enter"@,
                "プロンプトに入れました。確認して Enter"@,
            ),
        )
    }

    /// Hand a snippet to the shell.
    pub fn deliver_snippet(&mut self, cmd: &str, enter: bool)
        ensures
            Self::delivered(*old(self), *final(self), cmd@, enter),
    {
        if enter {
            self.run_in_shell(cmd.to_owned());
            self.message = Some(tr_string(self.lang, "snippet sent", "スニペットを送信"));
        } else {
            self.insert_ai_command_at_prompt(cmd);
        }
    }

    /// Deliver input held back while the shell was starting, once a session
    /// is up; until then it stays where it is.
    pub fn flush_pending_shell_input(&mut self)
        ensures
            old(self).shell.pending_input matches Some(t) ==> (old(self).shell.ready ==> *final(self)
                == (App {
                effects: final(self).effects,
                shell: ShellState { pending_input: None, ..old(self).shell },
                ..*old(self)
            }) && final(self).effects@ == old(self).effects@.push(Effect::WriteShell { text: t })),
            old(self).shell.pending_input is None || !old(self).shell.ready ==> *final(self) == *old(
                self,
            ),
    {
        if !self.shell.ready {
            return;
        }
        let mut pending: Option<String> = None;
        std::mem::swap(&mut pending, &mut self.shell.pending_input);
        match pending {
            Some(t) => self.effects.push(Effect::WriteShell { text: t }),
            None => {},
        }
    }
}

/// Does the snippet `s` show under the lowercased filter `needle`: an
/// empty filter shows all, else its name or command must contain it
/// (ignoring case)?
pub open spec fn snippet_shows(s: Snippet, needle: Seq<char>) -> bool {
    needle.len() == 0 || contains_seq(lowercase(s.name@), needle) || contains_seq(lowercase(s.cmd@), needle)
}

/// The indices of the first `k` snippets that show under `needle`.
pub open spec fn snippet_hits(snips: Seq<Snippet>, needle: Seq<char>, k: int) -> Seq<usize>
    decreases k,
{
    if k <= 0 {
        seq![]
    } else if snippet_shows(snips[k - 1], needle) {
        snippet_hits(snips, needle, k - 1).push((k - 1) as usize)
    } else {
        snippet_hits(snips, needle, k - 1)
    }
}

/// The snippets the picker shows for `filter`.
pub open spec fn shown_snippets(a: App, filter: Seq<char>) -> Seq<usize> {
    snippet_hits(a.config.snippets@, lowercase(filter), a.config.snippets@.len() as int)
}

/// `c` kept on the `n` rows shown.
pub open spec fn keep_on(c: usize, n: nat) -> usize {
    if n == 0 {
        0
    } else if c <= n - 1 {
        c
    } else {
        (n - 1) as usize
    }
}

/// `post` is `pre` after `key` in the snippet picker: Esc closes it; the
/// arrows move; Backspace and typing change the filter and go back to the
/// top; Enter sends the snippet under the cursor (the picker closes unless
/// the snippet asks first). The cursor stays on the rows shown.
pub open spec fn snippets_keyed(pre: App, post: App, key: KeyCode) -> bool {
    let c = pre.popup->Snippets_cursor;
    let f = pre.popup->Snippets_filter@;
    let shown_at = |cur: usize, flt: Seq<char>|
        post == (App { popup: post.popup, ..pre }) && (post.popup matches Popup::Snippets { cursor, filter }
            && filter@ == flt && cursor == keep_on(cur, shown_snippets(pre, flt).len()));
    match key {
        KeyCode::Esc => post == (App { popup: Popup::Closed, ..pre }),
        KeyCode::Down => shown_at((c + 1) as usize, f),
        KeyCode::Up => shown_at(if c > 0 { (c - 1) as usize } else { 0 }, f),
        KeyCode::Backspace => shown_at(0, if f.len() > 0 { f.drop_last() } else { f }),
        KeyCode::Char(ch) => shown_at(0, f.push(ch)),
        KeyCode::Enter => {
            let hits = shown_snippets(pre, f);
            if c < hits.len() {
                exists|m: App|
                    #![trigger snippet_sent(pre, m, hits[c as int])]
                    {
                        &&& snippet_sent(pre, m, hits[c as int])
                        &&& m.popup is Snippets ==> post == (App { popup: Popup::Closed, ..m })
                        &&& !(m.popup is Snippets) ==> post == m
                    }
            } else {
                shown_at(c, f)
            }
        },
        _ => shown_at(c, f),
    }
}

impl App {
    /// The snippets shown for `filter`, by index.
    pub fn snippet_matches(&self, filter: &str) -> (out: Vec<usize>)
        ensures
            out@ == shown_snippets(*self, filter@),
    {
        let needle = crate::text::to_lowercase(filter);
        let nc = chars_of(needle.as_str());
        let mut out: Vec<usize> = Vec::new();
        let mut i: usize = 0;
        while i < self.config.snippets.len()
            invariant
                i <= self.config.snippets@.len(),
                nc@ == lowercase(filter@),
                out@ == snippet_hits(self.config.snippets@, nc@, i as int),
            decreases self.config.snippets@.len() - i,
        {
            let s = &self.config.snippets[i];
            let shows = nc.len() == 0 || crate::text::contains_chars(
                chars_of(crate::text::to_lowercase(s.name.as_str()).as_str()).as_slice(),
                nc.as_slice(),
            ) || crate::text::contains_chars(
                chars_of(crate::text::to_lowercase(s.cmd.as_str()).as_str()).as_slice(),
                nc.as_slice(),
            );
            if shows {
                out.push(i);
            }
            i += 1;
        }
        out
    }

    /// A key in the snippet picker.
    pub fn snippets_key(&mut self, key: KeyCode)
        requires
            old(self).popup is Snippets,
            old(self).popup->Snippets_cursor < usize::MAX,
        ensures
            snippets_keyed(*old(self), *final(self), key),
    {
        let (c, filter) = match &self.popup {
            Popup::Snippets { cursor, filter } => (*cursor, filter.clone()),
            _ => return ,
        };
        if key == KeyCode::Esc {
            self.popup = Popup::Closed;
            return ;
        }
        if key == KeyCode::Enter {
            let hits = self.snippet_matches(filter.as_str());
            if c < hits.len() {
                self.send_snippet(hits[c]);
                let ghost m = *self;
                let still = match self.popup {
                    Popup::Snippets { .. } => true,
                    _ => false,
                };
                if still {
                    self.popup = Popup::Closed;
                }
                assert(snippet_sent(*old(self), m, hits@[c as int]));
                return ;
            }
        }
        let (cur, flt) = match key {
            KeyCode::Down => (c + 1, filter),
            KeyCode::Up => (
                if c > 0 {
                    c - 1
                } else {
                    0
                },
                filter,
            ),
            KeyCode::Backspace => {
                let cs = chars_of(filter.as_str());
                let n = cs.len();
                let kept = if n > 0 {
                    crate::text::slice_vec(cs.as_slice(), 0, n - 1)
                } else {
                    cs
                };
                assert(n > 0 ==> filter@.subrange(0, n - 1) =~= filter@.drop_last());
                (0, string_of(kept.as_slice()))
            },
            KeyCode::Char(ch) => {
                let mut f2 = filter;
                crate::text::push_char(&mut f2, ch);
                (0, f2)
            },
            _ => (c, filter),
        };
        let n = self.snippet_matches(flt.as_str()).len();
        let kept = if n == 0 {
            0
        } else if cur <= n - 1 {
            cur
        } else {
            n - 1
        };
        self.popup = Popup::Snippets { cursor: kept, filter: flt };
    }
}


/// One of the characters that quoting cannot keep the shell from reading
/// into: a double quote, `$`, a backtick, a line feed or a carriage return.
pub proof fn law_unsafe_paths_are_those(s: Seq<char>)
    ensures
        shell_unsafe(s) <==> exists|i: int|
            0 <= i < s.len() && (s[i] == '"' || s[i] == '$' || s[i] == '`' || s[i] == '\n' || s[i] == '\r'),
{
    if shell_unsafe(s) {
        if s.contains('"') {
            let i = choose|i: int| 0 <= i < s.len() && s[i] == '"';
        } else if s.contains('$') {
            let i = choose|i: int| 0 <= i < s.len() && s[i] == '$';
        } else if s.contains('`') {
            let i = choose|i: int| 0 <= i < s.len() && s[i] == '`';
        } else if s.contains('\n') {
            let i = choose|i: int| 0 <= i < s.len() && s[i] == '\n';
        } else {
            let i = choose|i: int| 0 <= i < s.len() && s[i] == '\r';
        }
    }
}

/// `:each` on a single path gives it its command line unless it holds one
/// of the characters quoting cannot tame (a double quote, `$`, a backtick,
/// a line break); only then is it left out and counted. A space, or
/// anything else, is kept inside the quotes.
pub proof fn law_each_skips_only_those(template: Seq<char>, p: Seq<char>)
    ensures
        (forall|i: int| 0 <= i < p.len() ==> p[i] != '"' && p[i] != '$' && p[i] != '`' && p[i] != '\n' && p[i]
            != '\r') ==> each_kept(template, seq![p]) == seq![each_line(template, p)] && each_skipped(seq![p])
            == 0,
        (exists|i: int| 0 <= i < p.len() && (p[i] == '"' || p[i] == '$' || p[i] == '`' || p[i] == '\n' || p[i]
            == '\r')) ==> each_kept(template, seq![p]).len() == 0 && each_skipped(seq![p]) == 1,
{
    law_unsafe_paths_are_those(p);
    let e = Seq::<Seq<char>>::empty();
    assert(seq![p].drop_last() =~= e);
    assert(each_kept(template, e) == Seq::<Seq<char>>::empty());
    assert(each_skipped(e) == 0);
    assert(seq![p].last() == p);
    assert(seq![].push(each_line(template, p)) =~= seq![each_line(template, p)]);
}

} // verus!
