//! What the model's answer does when it arrives: a chat turn joins the
//! transcript, a proposed command or commit message goes up for approval,
//! and a list of renames or hits is offered for review.
use vstd::prelude::*;

use crate::actions::{message_only, popup_only};
use crate::ai_parse::{clean_ai_command, clean_ai_commit_message, first_command, unfenced};
use crate::count::{decimal, decimal_chars};
use crate::lang::{tr, tr_spec};
use crate::state::{says, AiPurpose, AiState, App, ChatMsg, Effect, Popup, RenameItem};
use crate::text::{cat, chars_of, join, lines, push_chars, trim, views};

verus! {

/// The message for a failed request.
pub open spec fn ai_error_text(e: Seq<char>) -> Seq<char> {
    "AI: "@ + e
}

/// `b` is `a` after the answer `result` to a request for `purpose`
/// arrived (the job is no longer out).
pub open spec fn ai_answer_taken(a: App, b: App, purpose: AiPurpose, result: Result<String, String>) -> bool {
    let idle = App { ai: AiState { job: false, ..a.ai }, ..a };
    match purpose {
        AiPurpose::Chat => match a.popup {
            Popup::AiChat { input, log, sel, mode, skin, .. } => {
                let text = match result {
                    Ok(t) => t@,
                    Err(e) => "[error] "@ + e@,
                };
                &&& b == (App { popup: b.popup, ..idle })
                &&& b.popup matches Popup::AiChat {
                    input: i2,
                    log: l2,
                    scroll: s2,
                    pending: p2,
                    sel: se2,
                    mode: m2,
                    skin: k2,
                }
                &&& b.popup->AiChat_input == input && b.popup->AiChat_sel == sel && b.popup->AiChat_mode == mode
                    && b.popup->AiChat_skin == skin
                &&& b.popup->AiChat_scroll == usize::MAX && !b.popup->AiChat_pending
                &&& b.popup->AiChat_log@.drop_last() == log@
                &&& b.popup->AiChat_log@.len() == log@.len() + 1
                &&& !b.popup->AiChat_log@.last().user && b.popup->AiChat_log@.last().text@ == text
            },
            _ => b == idle,
        },
        AiPurpose::ShellCommand { description } => match result {
            Ok(t) => {
                let cmd = first_command(lines(t@));
                if cmd.len() == 0 {
                    message_only(idle, b) && says(
                        b.message,
                        tr_spec(a.lang, "AI returned no command"@, "AI からコマンドが返りませんでした"@),
                    )
                } else {
                    popup_only(idle, b) && (b.popup matches Popup::AiShellConfirm { command, description: d }
                        && command@ == cmd && d == description)
                }
            },
            Err(e) => message_only(idle, b) && says(b.message, ai_error_text(e@)),
        },
        AiPurpose::CommitMessage => match result {
            Ok(t) => {
                let msg = trim(join(unfenced(lines(t@)), seq!['\n']));
                if msg.len() == 0 {
                    message_only(idle, b) && says(
                        b.message,
                        tr_spec(a.lang, "AI returned no message"@, "AI からメッセージが返りませんでした"@),
                    )
                } else {
                    popup_only(idle, b) && (b.popup matches Popup::CommitMessage { buffer } && buffer@ == msg)
                }
            },
            Err(e) => message_only(idle, b) && says(b.message, ai_error_text(e@)),
        },
        AiPurpose::Rename { .. } | AiPurpose::SemSearch => match result {
            Ok(t) => {
                &&& b == (App { effects: b.effects, ..idle })
                &&& b.effects@.len() == a.effects@.len() + 1
                &&& b.effects@.drop_last() == a.effects@
                &&& b.effects@.last() matches Effect::ParseAiReply { purpose: p, text } && p == purpose && text
                    == t
            },
            Err(e) => message_only(idle, b) && says(b.message, ai_error_text(e@)),
        },
    }
}

impl App {
    /// The answer to the request that was out: `result` is the model's
    /// text, or why there is none.
    pub fn poll_ai_job(&mut self, purpose: AiPurpose, result: Result<String, String>)
        ensures
            ai_answer_taken(*old(self), *final(self), purpose, result),
    {
        self.ai.job = false;
        match purpose {
            AiPurpose::Chat => {
                let mut p = Popup::Closed;
                std::mem::swap(&mut p, &mut self.popup);
                match p {
                    Popup::AiChat { input, mut log, scroll, pending, sel, mode, skin } => {
                        let text = match result {
                            Ok(t) => t,
                            Err(e) => cat("[error] ", chars_of(e.as_str()).as_slice()),
                        };
                        let ghost l0 = log@;
                        log.push(ChatMsg { user: false, text });
                        assert(log@.drop_last() =~= l0);
                        self.popup = Popup::AiChat { input, log, scroll: usize::MAX, pending: false, sel, mode, skin };
                    },
                    other => {
                        self.popup = other;
                    },
                }
            },
            AiPurpose::ShellCommand { description } => match result {
                Ok(t) => {
                    let command = clean_ai_command(t.as_str());
                    if command.as_str().is_empty() {
                        self.message = Some(
                            tr(self.lang, "AI returned no command", "AI からコマンドが返りませんでした").to_owned(),
                        );
                    } else {
                        self.popup = Popup::AiShellConfirm { command, description };
                    }
                },
                Err(e) => {
                    self.message = Some(cat("AI: ", chars_of(e.as_str()).as_slice()));
                },
            },
            AiPurpose::CommitMessage => match result {
                Ok(t) => {
                    let msg = clean_ai_commit_message(t.as_str());
                    if msg.as_str().is_empty() {
                        self.message = Some(
                            tr(self.lang, "AI returned no message", "AI からメッセージが返りませんでした").to_owned(),
                        );
                    } else {
                        self.popup = Popup::CommitMessage { buffer: msg };
                    }
                },
                Err(e) => {
                    self.message = Some(cat("AI: ", chars_of(e.as_str()).as_slice()));
                },
            },
            AiPurpose::Rename { names } => match result {
                Ok(text) => {
                    let ghost e0 = self.effects@;
                    self.effects.push(Effect::ParseAiReply { purpose: AiPurpose::Rename { names }, text });
                    assert(self.effects@.drop_last() =~= e0);
                },
                Err(e) => {
                    self.message = Some(cat("AI: ", chars_of(e.as_str()).as_slice()));
                },
            },
            AiPurpose::SemSearch => match result {
                Ok(text) => {
                    let ghost e0 = self.effects@;
                    self.effects.push(Effect::ParseAiReply { purpose: AiPurpose::SemSearch, text });
                    assert(self.effects@.drop_last() =~= e0);
                },
                Err(e) => {
                    self.message = Some(cat("AI: ", chars_of(e.as_str()).as_slice()));
                },
            },
        }
    }

    /// The renames read out of the model's answer: offered for review, or
    /// the message says there were none.
    pub fn offer_ai_renames(&mut self, items: Vec<RenameItem>)
        ensures
            items@.len() == 0 ==> message_only(*old(self), *final(self)) && says(
                final(self).message,
                tr_spec(old(self).lang, "AI proposed no renames"@, "AI からリネームの提案はありません"@),
            ),
            items@.len() > 0 ==> *final(self) == (App {
                popup: Popup::RenameReview { items, cursor: 0, scroll: 0 },
                ..*old(self)
            }),
    {
        if items.len() == 0 {
            self.message = Some(tr(self.lang, "AI proposed no renames", "AI からリネームの提案はありません").to_owned());
            return ;
        }
        self.popup = Popup::RenameReview { items, cursor: 0, scroll: 0 };
    }

    /// The files the model named as relevant: listed like search results,
    /// or the message says there were none.
    pub fn show_ai_hits(&mut self, hits: Vec<String>)
        ensures
            hits@.len() == 0 ==> message_only(*old(self), *final(self)) && says(
                final(self).message,
                tr_spec(old(self).lang, "AI found no relevant files"@, "AI は該当するファイルを見つけませんでした"@),
            ),
            hits@.len() > 0 ==> {
                &&& *final(self) == (App {
                    popup: Popup::FindResults { hits, cursor: 0, scroll: 0 },
                    message: final(self).message,
                    ..*old(self)
                })
                &&& says(final(self).message, decimal(hits@.len()) + " relevant file(s) — Enter previews"@)
            },
    {
        if hits.len() == 0 {
            self.message = Some(
                tr(self.lang, "AI found no relevant files", "AI は該当するファイルを見つけませんでした").to_owned(),
            );
            return ;
        }
        let mut m = crate::text::string_of(decimal_chars(hits.len()).as_slice());
        push_chars(&mut m, chars_of(" relevant file(s) — Enter previews").as_slice());
        self.message = Some(m);
        self.popup = Popup::FindResults { hits, cursor: 0, scroll: 0 };
    }
}

} // verus!
