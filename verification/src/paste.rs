//! A paste goes into whichever text the user is typing in: the prompt, the
//! search box, the chat, the `:` line, the filter, or the shell.
use vstd::prelude::*;

use crate::prompt::{input_now, insert_text};
use crate::state::{App, Effect, FocusedPane, Mode, Popup};
use crate::text::{chars_of, push_chars, string_of};

verus! {

/// `s` without line breaks.
pub open spec fn one_line(s: Seq<char>) -> Seq<char> {
    s.filter(|c: char| c != '\n' && c != '\r')
}

/// `post` is `pre` after pasting `text`. Into the open file it goes whole;
/// everywhere else its line breaks are dropped first (and an empty paste
/// does nothing): into the prompt at its caret, at the end of the search
/// box, the chat input, the `:` line or the filter (which then applies),
/// and — line breaks kept — to the shell when it has the keyboard.
pub open spec fn pasted(pre: App, post: App, text: Seq<char>) -> bool {
    let clean = one_line(text);
    let n = pre.effects@.len();
    if pre.popup is Viewer {
        if text.len() == 0 {
            post == pre
        } else {
            &&& post == (App { effects: post.effects, ..pre })
            &&& post.effects@.len() == n + 1
            &&& post.effects@.drop_last() == pre.effects@
            &&& post.effects@.last() matches Effect::PasteIntoViewer { text: t } && t@ == text
        }
    } else if clean.len() == 0 {
        post == pre
    } else {
        match pre.popup {
            Popup::TextInput { buffer, cursor, select_all, .. } => {
                let r = insert_text(buffer@, cursor, clean);
                input_now(pre, post, r.0, r.1, select_all)
            },
            Popup::Search { buffer } => post == (App { popup: post.popup, ..pre }) && (post.popup matches Popup::Search {
                buffer: b,
            } && b@ == buffer@ + clean),
            Popup::AiChat { input, log, scroll, pending, sel, mode, skin } => post == (App {
                popup: post.popup,
                ..pre
            }) && (post.popup matches Popup::AiChat { input: i2, log: l2, scroll: s2, pending: p2, sel: e2, mode: m2, skin: k2 }
                && i2@ == input@ + clean && l2 == log && s2 == scroll && p2 == pending && e2 == sel && m2 == mode && k2
                == skin),
            _ => if pre.mode == Mode::Command {
                post == (App { cmd: post.cmd, ..pre }) && post.cmd == (crate::state::CommandLine {
                    buffer: post.cmd.buffer,
                    ..pre.cmd
                }) && post.cmd.buffer@ == pre.cmd.buffer@ + clean
            } else if pre.mode == Mode::Filter {
                let f = App { filter_buffer: post.filter_buffer, ..pre };
                &&& post.filter_buffer@ == pre.filter_buffer@ + clean
                &&& f.active() matches Some(p) ==> f.active_becomes(
                    post,
                    crate::state::Pane { filter: post.active()->0.filter, ..p },
                ) && post.active()->0.filter@ == post.filter_buffer@
                &&& f.active() is None ==> post == f
            } else if pre.focused == FocusedPane::Shell {
                &&& post == (App { effects: post.effects, ..pre })
                &&& post.effects@.len() == n + 1
                &&& post.effects@.drop_last() == pre.effects@
                &&& post.effects@.last() matches Effect::WriteShell { text: t } && t@ == text
            } else {
                post == pre
            },
        }
    }
}

fn one_line_exec(cs: &[char]) -> (out: Vec<char>)
    ensures
        out@ == one_line(cs@),
{
    let mut out: Vec<char> = Vec::new();
    let mut i: usize = 0;
    while i < cs.len()
        invariant
            i <= cs@.len(),
            out@ == one_line(cs@.take(i as int)),
        decreases cs@.len() - i,
    {
        let c = cs[i];
        assert(cs@.take(i as int + 1) =~= cs@.take(i as int).push(c));
        proof {
            cs@.take(i as int).lemma_filter_push(c, |c: char| c != '\n' && c != '\r');
        }
        if c != '\n' && c != '\r' {
            out.push(c);
        }
        i += 1;
    }
    assert(cs@.take(cs@.len() as int) =~= cs@);
    out
}

impl App {
    /// Paste `text` where the user is typing.
    pub fn insert_into_active_text(&mut self, text: &str)
        requires
            old(self).popup matches Popup::TextInput { buffer, .. } ==> buffer@.len() + text@.len() < usize::MAX,
        ensures
            pasted(*old(self), *final(self), text@),
    {
        let is_viewer = match self.popup {
            Popup::Viewer { .. } => true,
            _ => false,
        };
        let tc = chars_of(text);
        if is_viewer {
            if tc.len() == 0 {
                return ;
            }
            let ghost e0 = self.effects@;
            self.effects.push(Effect::PasteIntoViewer { text: text.to_owned() });
            assert(self.effects@.drop_last() =~= e0);
            return ;
        }
        let clean = one_line_exec(tc.as_slice());
        if clean.len() == 0 {
            return ;
        }
        proof {
            tc@.filter_lemma(|c: char| c != '\n' && c != '\r');
        }
        let mut p = Popup::Closed;
        std::mem::swap(&mut p, &mut self.popup);
        match p {
            Popup::TextInput { title, prompt, buffer, cursor, select_all, kind } => {
                let bc = chars_of(buffer.as_str());
                let (nb, nc) = crate::prompt::insert_chars_pub(bc.as_slice(), cursor, clean.as_slice());
                self.popup = Popup::TextInput {
                    title,
                    prompt,
                    buffer: string_of(nb.as_slice()),
                    cursor: nc,
                    select_all,
                    kind,
                };
                return ;
            },
            Popup::Search { mut buffer } => {
                push_chars(&mut buffer, clean.as_slice());
                self.popup = Popup::Search { buffer };
                return ;
            },
            Popup::AiChat { mut input, log, scroll, pending, sel, mode, skin } => {
                push_chars(&mut input, clean.as_slice());
                self.popup = Popup::AiChat { input, log, scroll, pending, sel, mode, skin };
                return ;
            },
            other => {
                self.popup = other;
            },
        }
        if self.mode == Mode::Command {
            push_chars(&mut self.cmd.buffer, clean.as_slice());
        } else if self.mode == Mode::Filter {
            push_chars(&mut self.filter_buffer, clean.as_slice());
            self.apply_filter_buffer();
            proof {
                reveal(App::same_but_active);
            }
        } else if self.focused == FocusedPane::Shell {
            let ghost e0 = self.effects@;
            self.effects.push(Effect::WriteShell { text: text.to_owned() });
            assert(self.effects@.drop_last() =~= e0);
        }
    }
}

} // verus!
