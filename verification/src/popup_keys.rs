//! The keys of the smaller popups: the search box, the operation queue
//! and the notice.
use vstd::prelude::*;

use crate::actions::{match_jumped, message_only, search_finished};
use crate::lang::{tr, tr_spec};
use crate::ops::queue_row_killed;
use crate::state::{says, App, Effect, KeyPress, KeyCode, Mode, Popup};
use crate::text::{chars_of, join, push_char, string_of, trim, trim_chars, views};

verus! {

/// Is `k` the Down arrow?
pub open spec fn is_down(k: KeyCode) -> bool {
    k == KeyCode::Down
}

/// `post` is `pre` after `key` in the search box: Esc closes it, Enter
/// searches, Backspace takes a letter off, Down and Up go to the next or
/// previous match of what is typed so far (when anything is), and a
/// letter (without Ctrl) is added.
pub open spec fn search_keyed(pre: App, post: App, key: KeyPress) -> bool {
    let buffer = pre.popup->Search_buffer@;
    match key.code {
        KeyCode::Esc => post == (App { popup: Popup::Closed, mode: Mode::Normal, ..pre }),
        KeyCode::Enter => search_finished(pre, post),
        KeyCode::Backspace => post == (App { popup: post.popup, ..pre }) && (post.popup matches Popup::Search { buffer: b }
            && b@ == (if buffer.len() > 0 { buffer.drop_last() } else { buffer })),
        KeyCode::Down | KeyCode::Up => {
            let q = trim(buffer);
            if q.len() == 0 {
                post == pre
            } else {
                exists|m: App|
                    #![trigger match_jumped(m, post, is_down(key.code))]
                    {
                        &&& m == (App { last_search_query: m.last_search_query, ..pre })
                        &&& m.last_search_query matches Some(l) && l@ == q
                        &&& match_jumped(m, post, is_down(key.code))
                    }
            }
        },
        KeyCode::Char(c) => if key.ctrl {
            post == pre
        } else {
            post == (App { popup: post.popup, ..pre }) && (post.popup matches Popup::Search { buffer: b } && b@
                == buffer.push(c))
        },
        _ => post == pre,
    }
}

/// `post` is `pre` after `key` in the operation queue list (`now` for
/// stopping): Esc or `q` closes it, `j`/`k` and the arrows move over the
/// running line and the queued ones, `x` or Delete stops or removes the
/// line under the cursor.
pub open spec fn queue_keyed(pre: App, post: App, key: KeyCode, now: u64) -> bool {
    let cursor = pre.popup->OpQueue_cursor;
    let last = pre.ops.queue@.len();
    match key {
        KeyCode::Esc | KeyCode::Char('q') => post == (App { popup: Popup::Closed, ..pre }),
        KeyCode::Char('j') | KeyCode::Down => post == (App {
            popup: Popup::OpQueue { cursor: if cursor + 1 <= last { (cursor + 1) as usize } else { last as usize } },
            ..pre
        }),
        KeyCode::Char('k') | KeyCode::Up => post == (App {
            popup: Popup::OpQueue { cursor: if cursor > 0 { (cursor - 1) as usize } else { 0 } },
            ..pre
        }),
        KeyCode::Char('x') | KeyCode::Delete => queue_row_killed(pre, post, cursor, now),
        _ => post == pre,
    }
}

/// `post` is `pre` after `key` over a notice: `y` or `c` copies its lines
/// and closes it; Enter, Esc, `n` and `q` close it.
pub open spec fn notice_keyed(pre: App, post: App, key: KeyCode) -> bool {
    let lines = views(pre.popup->Notice_lines@);
    match key {
        KeyCode::Char('y') | KeyCode::Char('c') => {
            &&& post == (App { popup: Popup::Closed, message: post.message, effects: post.effects, ..pre })
            &&& post.effects@.len() == pre.effects@.len() + 1
            &&& post.effects@.drop_last() == pre.effects@
            &&& post.effects@.last() matches Effect::SetClipboard { text } && text@ == join(lines, seq!['\n'])
            &&& says(post.message, tr_spec(pre.lang, "copied"@, "コピーしました"@))
        },
        KeyCode::Enter | KeyCode::Esc | KeyCode::Char('n') | KeyCode::Char('q') => post == (App {
            popup: Popup::Closed,
            ..pre
        }),
        _ => post == pre,
    }
}

impl App {
    /// A key in the search box.
    pub fn search_key(&mut self, key: KeyPress)
        requires
            old(self).popup is Search,
            old(self).popup->Search_buffer@.len() + 1 < usize::MAX,
        ensures
            search_keyed(*old(self), *final(self), key),
    {
        match key.code {
            KeyCode::Esc => {
                self.popup = Popup::Closed;
                self.mode = Mode::Normal;
            },
            KeyCode::Enter => self.finish_search(),
            KeyCode::Backspace => {
                let mut p = Popup::Closed;
                std::mem::swap(&mut p, &mut self.popup);
                if let Popup::Search { buffer } = p {
                    let cs = chars_of(buffer.as_str());
                    let n = cs.len();
                    let kept = if n > 0 {
                        crate::text::slice_vec(cs.as_slice(), 0, n - 1)
                    } else {
                        cs
                    };
                    assert(n > 0 ==> buffer@.subrange(0, n - 1) =~= buffer@.drop_last());
                    self.popup = Popup::Search { buffer: string_of(kept.as_slice()) };
                }
            },
            KeyCode::Down | KeyCode::Up => {
                let q = match &self.popup {
                    Popup::Search { buffer } => trim_chars(chars_of(buffer.as_str()).as_slice()),
                    _ => Vec::new(),
                };
                if q.len() == 0 {
                    return ;
                }
                self.last_search_query = Some(string_of(q.as_slice()));
                let ghost m = *self;
                self.jump_to_next_match(key.code == KeyCode::Down);
                assert(match_jumped(m, *self, is_down(key.code)));
            },
            KeyCode::Char(c) => {
                if key.ctrl {
                    return ;
                }
                let mut p = Popup::Closed;
                std::mem::swap(&mut p, &mut self.popup);
                if let Popup::Search { mut buffer } = p {
                    push_char(&mut buffer, c);
                    self.popup = Popup::Search { buffer };
                }
            },
            _ => {},
        }
    }

    /// A key in the operation queue list.
    pub fn op_queue_key(&mut self, key: KeyCode, now: u64)
        requires
            old(self).popup is OpQueue,
        ensures
            queue_keyed(*old(self), *final(self), key, now),
    {
        let last = self.ops.queue.len();
        let cursor = match self.popup {
            Popup::OpQueue { cursor } => cursor,
            _ => 0,
        };
        match key {
            KeyCode::Esc | KeyCode::Char('q') => {
                self.popup = Popup::Closed;
            },
            KeyCode::Char('j') | KeyCode::Down => {
                self.popup = Popup::OpQueue {
                    cursor: if cursor < last {
                        cursor + 1
                    } else {
                        last
                    },
                };
            },
            KeyCode::Char('k') | KeyCode::Up => {
                self.popup = Popup::OpQueue {
                    cursor: if cursor > 0 {
                        cursor - 1
                    } else {
                        0
                    },
                };
            },
            KeyCode::Char('x') | KeyCode::Delete => self.op_queue_kill(cursor, now),
            _ => {},
        }
    }

    /// A key over a notice.
    pub fn notice_key(&mut self, key: KeyCode)
        requires
            old(self).popup is Notice,
        ensures
            notice_keyed(*old(self), *final(self), key),
    {
        match key {
            KeyCode::Char('y') | KeyCode::Char('c') => {
                let text = match &self.popup {
                    Popup::Notice { lines } => crate::text::join_strings(lines.as_slice(), "\n"),
                    _ => String::new(),
                };
                proof {
                    reveal_strlit("\n");
                    assert("\n"@ =~= seq!['\n']);
                }
                let ghost e0 = self.effects@;
                self.effects.push(Effect::SetClipboard { text });
                assert(self.effects@.drop_last() =~= e0);
                self.message = Some(tr(self.lang, "copied", "コピーしました").to_owned());
                self.popup = Popup::Closed;
            },
            KeyCode::Enter | KeyCode::Esc | KeyCode::Char('n') | KeyCode::Char('q') => {
                self.popup = Popup::Closed;
            },
            _ => {},
        }
    }
}

/// `post` is `pre` after `key` in the list of stored AI conversations:
/// Esc or `q` closes it; `j`/`k`, the arrows, `g`/Home and `G`/End move;
/// Enter or `l` opens the conversation, `d` or `x` deletes it (the cursor
/// kept on the list).
pub open spec fn ai_history_keyed(pre: App, post: App, key: KeyCode) -> bool {
    let cursor = pre.popup->AiHistory_cursor;
    let n = pre.ai.history@.len();
    let at = |c: usize| post == (App { popup: Popup::AiHistory { cursor: c }, ..pre });
    match key {
        KeyCode::Esc | KeyCode::Char('q') => post == (App { popup: Popup::Closed, ..pre }),
        KeyCode::Char('j') | KeyCode::Down => if n > 0 {
            at(if cursor + 1 <= n - 1 { (cursor + 1) as usize } else { (n - 1) as usize })
        } else {
            post == pre
        },
        KeyCode::Char('k') | KeyCode::Up => at(if cursor > 0 { (cursor - 1) as usize } else { 0 }),
        KeyCode::Char('g') | KeyCode::Home => at(0),
        KeyCode::Char('G') | KeyCode::End => at(if n > 0 { (n - 1) as usize } else { 0 }),
        KeyCode::Enter | KeyCode::Char('l') => crate::chat::ai_conversation_loaded(pre, post, cursor),
        KeyCode::Char('d') | KeyCode::Char('x') => exists|m: App|
            #![trigger crate::chat::ai_conversation_deleted(pre, m, cursor)]
            {
                let len = m.ai.history@.len();
                &&& crate::chat::ai_conversation_deleted(pre, m, cursor)
                &&& m.popup is AiHistory ==> post == (App {
                    popup: Popup::AiHistory {
                        cursor: if m.popup->AiHistory_cursor <= len - 1 || len == 0 {
                            if len == 0 { 0 } else { m.popup->AiHistory_cursor }
                        } else {
                            (len - 1) as usize
                        },
                    },
                    ..m
                })
                &&& !(m.popup is AiHistory) ==> post == m
            },
        _ => post == pre,
    }
}

impl App {
    /// A key in the list of stored AI conversations.
    pub fn ai_history_key(&mut self, key: KeyCode)
        requires
            old(self).popup is AiHistory,
        ensures
            ai_history_keyed(*old(self), *final(self), key),
    {
        let n = self.ai.history.len();
        let cursor = match self.popup {
            Popup::AiHistory { cursor } => cursor,
            _ => 0,
        };
        match key {
            KeyCode::Esc | KeyCode::Char('q') => {
                self.popup = Popup::Closed;
            },
            KeyCode::Char('j') | KeyCode::Down => {
                if n > 0 {
                    self.popup = Popup::AiHistory {
                        cursor: if cursor < n - 1 {
                            cursor + 1
                        } else {
                            n - 1
                        },
                    };
                }
            },
            KeyCode::Char('k') | KeyCode::Up => {
                self.popup = Popup::AiHistory {
                    cursor: if cursor > 0 {
                        cursor - 1
                    } else {
                        0
                    },
                };
            },
            KeyCode::Char('g') | KeyCode::Home => {
                self.popup = Popup::AiHistory { cursor: 0 };
            },
            KeyCode::Char('G') | KeyCode::End => {
                self.popup = Popup::AiHistory {
                    cursor: if n > 0 {
                        n - 1
                    } else {
                        0
                    },
                };
            },
            KeyCode::Enter | KeyCode::Char('l') => self.load_ai_conversation(cursor),
            KeyCode::Char('d') | KeyCode::Char('x') => {
                self.delete_ai_conversation(cursor);
                let ghost m = *self;
                let len = self.ai.history.len();
                match self.popup {
                    Popup::AiHistory { cursor: c } => {
                        self.popup = Popup::AiHistory {
                            cursor: if len == 0 {
                                0
                            } else if c <= len - 1 {
                                c
                            } else {
                                len - 1
                            },
                        };
                    },
                    _ => {},
                }
                assert(crate::chat::ai_conversation_deleted(*old(self), m, cursor));
            },
            _ => {},
        }
    }
}

} // verus!
