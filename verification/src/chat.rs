//! The AI chat as the interface holds it: whether the backend is there, the
//! chat window and its transcript, and the history of past conversations.
use vstd::prelude::*;

use crate::actions::{is_prompt, message_only, popup_only, text_input};
use crate::lang::{tr, tr_spec, tr_string, Lang};
use crate::state::{
    says, AiOptions, App, ChatMode, ChatMsg, ChatSkin, Effect, InputKind, Popup, SshHost, StoredChat,
};
use crate::text::{chars_of, contains_seq, join, lines, lowercase, push_chars, string_of, trim, views};

verus! {

/// At most this many past conversations are kept.
pub const HISTORY_CAP: usize = 30;

impl ChatSkin {
    /// The plain look with the window called `title`.
    pub fn simple(title: &str) -> (s: ChatSkin)
        ensures
            s.title@ == title@,
            s.simple,
    {
        ChatSkin { title: title.to_owned(), simple: true }
    }

    /// The default look for a backend: the local model's chat is "Chat".
    pub fn of(mode: ChatMode) -> (s: ChatSkin)
        ensures
            s.title@ == "Chat"@,
            s.simple,
    {
        match mode {
            ChatMode::Ai => ChatSkin::simple("Chat"),
        }
    }

    /// An equal copy.
    pub fn copy(&self) -> (s: ChatSkin)
        ensures
            s == *self,
    {
        ChatSkin { title: self.title.clone(), simple: self.simple }
    }
}

impl ChatMsg {
    /// An equal copy.
    pub fn copy(&self) -> (m: ChatMsg)
        ensures
            m == *self,
    {
        ChatMsg { user: self.user, text: self.text.clone() }
    }
}

/// An equal copy of a transcript.
pub fn copy_log(log: &[ChatMsg]) -> (out: Vec<ChatMsg>)
    ensures
        out@ == log@,
{
    let mut out: Vec<ChatMsg> = Vec::new();
    let mut i: usize = 0;
    while i < log.len()
        invariant
            i <= log.len(),
            out@ == log@.take(i as int),
        decreases log.len() - i,
    {
        out.push(log[i].copy());
        i += 1;
        assert(out@ =~= log@.take(i as int));
    }
    assert(log@.take(log.len() as int) =~= log@);
    out
}

/// Two transcripts with the same turns (who spoke, and the same words).
pub open spec fn same_log(a: Seq<ChatMsg>, b: Seq<ChatMsg>) -> bool {
    a.len() == b.len() && forall|i: int| 0 <= i < a.len() ==> a[i].user == b[i].user && a[i].text@ == b[i].text@
}

/// Does the transcript hold an answer?
pub open spec fn has_answer(log: Seq<ChatMsg>) -> bool {
    exists|i: int| 0 <= i < log.len() && !log[i].user
}

impl StoredChat {
    /// A conversation to keep, with the look its window had.
    pub fn new(mode: ChatMode, skin: ChatSkin, log: Vec<ChatMsg>) -> (c: StoredChat)
        ensures
            c == (StoredChat { mode, skin: Some(skin), log }),
    {
        StoredChat { mode, skin: Some(skin), log }
    }

    /// The backend it spoke to.
    pub fn mode(&self) -> (m: ChatMode)
        ensures
            m == self.mode,
    {
        self.mode
    }

    /// The transcript.
    pub fn log(&self) -> (l: &[ChatMsg])
        ensures
            l@ == self.log@,
    {
        self.log.as_slice()
    }

    /// How the window looked, or the backend's default for a conversation
    /// kept before looks were.
    pub fn skin(&self) -> (s: ChatSkin)
        ensures
            self.skin matches Some(k) ==> s == k,
            self.skin is None ==> s.title@ == "Chat"@ && s.simple,
    {
        match &self.skin {
            Some(k) => k.copy(),
            None => ChatSkin::of(self.mode),
        }
    }

    /// Is this the same conversation as `other`? The backend and the
    /// transcript decide; the window's look does not.
    pub fn same_as(&self, other: &StoredChat) -> (b: bool)
        ensures
            b == (self.mode == other.mode && same_log(self.log@, other.log@)),
    {
        if self.mode != other.mode || self.log.len() != other.log.len() {
            return false;
        }
        let mut i: usize = 0;
        while i < self.log.len()
            invariant
                i <= self.log@.len(),
                self.log@.len() == other.log@.len(),
                forall|j: int|
                    0 <= j < i ==> self.log@[j].user == other.log@[j].user && self.log@[j].text@
                        == other.log@[j].text@,
            decreases self.log.len() - i,
        {
            if self.log[i].user != other.log[i].user || self.log[i].text != other.log[i].text {
                return false;
            }
            i += 1;
        }
        true
    }
}

/// The persona text: the assistant's name and how it speaks of itself.
pub open spec fn persona_text() -> Seq<char> {
    "あなたはこの二画面ファイラ／ターミナル「cian」に組み込まれた AI アシスタントです。あなたの名前は「AI - simple」。自分を指すときは常に一人称「私」を使い、名前を尋ねられたら「私は cian の AI - simple です」と名乗ってください。(Your name is \"AI - simple\", the local model built into cian; always refer to yourself as「私」.)"@
}

/// Who the assistant is, put before every chat's instructions.
pub fn persona() -> (r: &'static str)
    ensures
        r@ == persona_text(),
{
    "あなたはこの二画面ファイラ／ターミナル「cian」に組み込まれた AI アシスタントです。あなたの名前は「AI - simple」。自分を指すときは常に一人称「私」を使い、名前を尋ねられたら「私は cian の AI - simple です」と名乗ってください。(Your name is \"AI - simple\", the local model built into cian; always refer to yourself as「私」.)"
}

/// Is a backend set up at all, and (outside mock mode) somewhere to reach?
pub open spec fn ai_reachable(c: Option<AiOptions>) -> bool {
    match c {
        None => false,
        Some(o) => o.auth_mode@ == "mock"@ || trim(o.endpoint@).len() > 0 || trim(
            o.api_base_url@,
        ).len() > 0,
    }
}

/// The chat window as it opens: empty input, scrolled to the end, nothing
/// selected.
pub open spec fn chat_opened(p: Popup, mode: ChatMode, skin: ChatSkin, log: Seq<ChatMsg>, pending: bool) -> bool {
    p matches Popup::AiChat { input, log: l, scroll, pending: pd, sel, mode: m, skin: k } && input@.len()
        == 0 && l@ == log && scroll == usize::MAX && pd == pending && sel is None && m == mode && k
        == skin
}

/// `b` is `a` after keeping the open chat in the history: a chat with an
/// answer in it goes first (unless it is the newest kept already), the
/// history stays within its cap and is written out; otherwise nothing
/// changes.
pub open spec fn chat_archived(a: App, b: App) -> bool {
    match a.popup {
        Popup::AiChat { log, mode, skin, .. } => if has_answer(log@) && !(a.ai.history@.len() > 0
            && a.ai.history@[0].mode == mode && same_log(a.ai.history@[0].log@, log@)) {
            let kept = if a.ai.history@.len() + 1 > HISTORY_CAP {
                a.ai.history@.take(HISTORY_CAP - 1)
            } else {
                a.ai.history@
            };
            &&& b == (App {
                ai: crate::state::AiState { history: b.ai.history, ..a.ai },
                effects: b.effects,
                ..a
            })
            &&& b.ai.history@.len() == kept.len() + 1
            &&& b.ai.history@[0].mode == mode
            &&& b.ai.history@[0].skin == Some(skin)
            &&& b.ai.history@[0].log@ == log@
            &&& b.ai.history@.skip(1) == kept
            &&& b.effects@ == a.effects@.push(Effect::SaveAiHistory)
        } else {
            b == a
        },
        _ => b == a,
    }
}

impl App {
    /// Is the AI backend set up and answering? The startup probe's answer;
    /// `false` until it lands. Never waits.
    pub open spec fn ai_ready_spec(self) -> bool {
        ai_reachable(self.config.ai) && self.ai.ready == Some(true)
    }

    /// `App::ai_ready`.
    pub fn ai_ready(&self) -> (b: bool)
        ensures
            b == self.ai_ready_spec(),
    {
        let c = match &self.config.ai {
            Some(c) => c,
            None => return false,
        };
        let mock = crate::text::str_eq(c.auth_mode.as_str(), "mock");
        let e = crate::text::trim_chars(chars_of(c.endpoint.as_str()).as_slice());
        let b = crate::text::trim_chars(chars_of(c.api_base_url.as_str()).as_slice());
        if !mock && e.len() == 0 && b.len() == 0 {
            return false;
        }
        match self.ai.ready {
            Some(r) => r,
            None => false,
        }
    }

    /// Take the startup probe's answer once it lands: `reply` is `None`
    /// while it is still out, `Some(None)` when the worker went away without
    /// one (taken as "not ready"). Says whether anything changed.
    pub fn poll_ai_probe(&mut self, reply: Option<Option<bool>>) -> (changed: bool)
        ensures
            !old(self).ai.probe || reply is None ==> !changed && *final(self) == *old(self),
            old(self).ai.probe && reply is Some ==> changed && *final(self) == (App {
                ai: crate::state::AiState {
                    ready: Some(
                        match reply {
                            Some(Some(r)) => r,
                            _ => false,
                        },
                    ),
                    probe: false,
                    ..old(self).ai
                },
                ..*old(self)
            }),
    {
        if !self.ai.probe {
            return false;
        }
        match reply {
            None => false,
            Some(r) => {
                self.ai.ready = Some(
                    match r {
                        Some(x) => x,
                        None => false,
                    },
                );
                self.ai.probe = false;
                true
            },
        }
    }

    /// Still starting up: under six seconds in, and either the probe is out
    /// or it is the first 1.2 seconds (`elapsed_ms` since start).
    pub fn is_starting_up(&self, elapsed_ms: u64) -> (b: bool)
        ensures
            b == (elapsed_ms < 6000 && (self.ai.probe || elapsed_ms < 1200)),
    {
        elapsed_ms < 6000 && (self.ai.probe || elapsed_ms < 1200)
    }

    /// Is a backend configured at all? Says what to add if not.
    pub fn ai_configured(&mut self) -> (b: bool)
        ensures
            b == old(self).config.ai is Some,
            b ==> *final(self) == *old(self),
            !b ==> message_only(*old(self), *final(self)) && says(
                final(self).message,
                tr_spec(
                    old(self).lang,
                    "AI not configured — add cian.ai{ endpoint = \"…\" } to init.lua"@,
                    "AI が未設定です — init.lua に cian.ai{ endpoint = \"…\" } を追加してください"@,
                ),
            ),
    {
        if self.config.ai.is_some() {
            return true;
        }
        self.message = Some(
            tr_string(
                self.lang,
                "AI not configured — add cian.ai{ endpoint = \"…\" } to init.lua",
                "AI が未設定です — init.lua に cian.ai{ endpoint = \"…\" } を追加してください",
            ),
        );
        false
    }

    /// Configured and answering: the guard every AI prompt opens with.
    pub fn ai_available(&mut self) -> (b: bool)
        ensures
            b == (old(self).config.ai is Some && old(self).ai_ready_spec()),
            b ==> *final(self) == *old(self),
            old(self).config.ai is None ==> message_only(*old(self), *final(self)) && says(
                final(self).message,
                tr_spec(
                    old(self).lang,
                    "AI not configured — add cian.ai{ endpoint = \"…\" } to init.lua"@,
                    "AI が未設定です — init.lua に cian.ai{ endpoint = \"…\" } を追加してください"@,
                ),
            ),
            old(self).config.ai is Some && !old(self).ai_ready_spec() ==> message_only(
                *old(self),
                *final(self),
            ) && says(
                final(self).message,
                tr_spec(
                    old(self).lang,
                    "AI unavailable (python, packages, or sign-in)"@,
                    "AI を利用できません（python・パッケージ・サインインのいずれか）"@,
                ),
            ),
    {
        if !self.ai_configured() {
            return false;
        }
        if !self.ai_ready() {
            self.message = Some(
                tr_string(
                    self.lang,
                    "AI unavailable (python, packages, or sign-in)",
                    "AI を利用できません（python・パッケージ・サインインのいずれか）",
                ),
            );
            return false;
        }
        true
    }

    /// Keep the open chat in the history if it holds an answer.
    #[verifier::rlimit(40)]
    pub fn archive_current_ai_chat(&mut self)
        ensures
            chat_archived(*old(self), *final(self)),
    {
        let snap = match &self.popup {
            Popup::AiChat { log, mode, skin, .. } => {
                let mut answered = false;
                let mut i: usize = 0;
                while i < log.len()
                    invariant
                        i <= log@.len(),
                        answered == exists|j: int| 0 <= j < i && !log@[j].user,
                    decreases log.len() - i,
                {
                    if !log[i].user {
                        answered = true;
                    }
                    i += 1;
                }
                if !answered {
                    return;
                }
                StoredChat::new(*mode, skin.copy(), copy_log(log.as_slice()))
            },
            _ => return,
        };
        if self.ai.history.len() > 0 && self.ai.history[0].same_as(&snap) {
            return;
        }
        let ghost h0 = self.ai.history@;
        self.ai.history.insert(0, snap);
        assert(self.ai.history@.skip(1) =~= h0);
        if self.ai.history.len() > HISTORY_CAP {
            let ghost full = self.ai.history@;
            self.ai.history.truncate(HISTORY_CAP);
            assert(self.ai.history@.skip(1) =~= h0.take(HISTORY_CAP - 1));
        }
        self.effects.push(Effect::SaveAiHistory);
    }

    /// Open a chat window, keeping the conversation open before it (if it
    /// has an answer) in the history; the new chat starts with no
    /// attachments and no earlier turns.
    pub fn start_ai_chat_as(&mut self, mode: ChatMode, skin: ChatSkin, log: Vec<ChatMsg>, pending: bool)
        ensures
            exists|mid: App|
                #![trigger chat_archived(*old(self), mid)]
                {
                    &&& chat_archived(*old(self), mid)
                    &&& *final(self) == (App {
                        ai: crate::state::AiState {
                            attachments: final(self).ai.attachments,
                            prior: final(self).ai.prior,
                            ..mid.ai
                        },
                        popup: final(self).popup,
                        ..mid
                    })
                },
            final(self).ai.attachments@.len() == 0,
            final(self).ai.prior@.len() == 0,
            chat_opened(final(self).popup, mode, skin, log@, pending),
    {
        self.archive_current_ai_chat();
        let ghost mid = *self;
        self.ai.attachments.clear();
        self.ai.prior.clear();
        self.popup = Popup::AiChat {
            input: String::new(),
            log,
            scroll: usize::MAX,
            pending,
            sel: None,
            mode,
            skin,
        };
        assert(chat_archived(*old(self), mid));
    }

    /// Open a chat window in the backend's default look.
    pub fn start_ai_chat(&mut self, mode: ChatMode, log: Vec<ChatMsg>, pending: bool)
        ensures
            exists|mid: App|
                #![trigger chat_archived(*old(self), mid)]
                {
                    &&& chat_archived(*old(self), mid)
                    &&& *final(self) == (App {
                        ai: crate::state::AiState {
                            attachments: final(self).ai.attachments,
                            prior: final(self).ai.prior,
                            ..mid.ai
                        },
                        popup: final(self).popup,
                        ..mid
                    })
                },
            final(self).ai.attachments@.len() == 0,
            final(self).ai.prior@.len() == 0,
            final(self).popup matches Popup::AiChat { skin, .. } && skin.title@ == "Chat"@
                && skin.simple,
            final(self).popup matches Popup::AiChat { skin, .. } && chat_opened(
                final(self).popup,
                mode,
                skin,
                log@,
                pending,
            ),
    {
        self.start_ai_chat_as(mode, ChatSkin::of(mode), log, pending);
    }

    /// A fresh, empty chat ("Chat").
    pub fn new_ai_chat(&mut self)
        ensures
            exists|mid: App|
                #![trigger chat_archived(*old(self), mid)]
                {
                    &&& chat_archived(*old(self), mid)
                    &&& *final(self) == (App {
                        ai: crate::state::AiState {
                            attachments: final(self).ai.attachments,
                            prior: final(self).ai.prior,
                            ..mid.ai
                        },
                        popup: final(self).popup,
                        ..mid
                    })
                },
            final(self).ai.attachments@.len() == 0,
            final(self).ai.prior@.len() == 0,
            final(self).popup matches Popup::AiChat { skin, .. } && skin.title@ == tr_spec(
                old(self).lang,
                "Chat"@,
                "チャット"@,
            ) && skin.simple && chat_opened(final(self).popup, ChatMode::Ai, skin, seq![], false),
    {
        let skin = ChatSkin::simple(tr(self.lang, "Chat", "チャット"));
        let v: Vec<ChatMsg> = Vec::new();
        self.start_ai_chat_as(ChatMode::Ai, skin, v, false);
    }

    /// Open the chat, when the backend is configured and answering.
    pub fn open_ai_chat(&mut self)
        ensures
            old(self).config.ai is None ==> message_only(*old(self), *final(self)) && says(
                final(self).message,
                tr_spec(
                    old(self).lang,
                    "AI not configured — add cian.ai{ endpoint = \"…\" } to init.lua"@,
                    "AI が未設定です — init.lua に cian.ai{ endpoint = \"…\" } を追加してください"@,
                ),
            ),
            old(self).config.ai is Some && !old(self).ai_ready_spec() ==> message_only(
                *old(self),
                *final(self),
            ) && says(final(self).message, "AI unavailable (python, packages, or sign-in) — feature hidden"@),
            old(self).config.ai is Some && old(self).ai_ready_spec() ==> {
                &&& exists|mid: App|
                    #![trigger chat_archived(*old(self), mid)]
                    chat_archived(*old(self), mid) && *final(self) == (App {
                        ai: crate::state::AiState {
                            attachments: final(self).ai.attachments,
                            prior: final(self).ai.prior,
                            ..mid.ai
                        },
                        popup: final(self).popup,
                        ..mid
                    })
                &&& final(self).popup matches Popup::AiChat { skin, .. } && skin.title@ == tr_spec(
                    old(self).lang,
                    "Chat"@,
                    "チャット"@,
                ) && chat_opened(final(self).popup, ChatMode::Ai, skin, seq![], false)
            },
    {
        if !self.ai_configured() {
            return;
        }
        if !self.ai_ready() {
            self.message = Some("AI unavailable (python, packages, or sign-in) — feature hidden".to_owned());
            return;
        }
        self.new_ai_chat();
    }
}

/// The text of the first question in a transcript.
pub open spec fn first_question(log: Seq<ChatMsg>) -> Option<Seq<char>>
    decreases log.len(),
{
    if log.len() == 0 {
        None
    } else if log[0].user {
        Some(log[0].text@)
    } else {
        first_question(log.drop_first())
    }
}

/// `t` on one line: each line break becomes a space.
pub open spec fn one_line(t: Seq<char>) -> Seq<char> {
    t.map_values(|c: char| if c == '\n' { ' ' } else { c })
}

/// The title of a kept conversation: its first question on one line, cut
/// to 60 characters with `…` when longer; `(empty)` without one.
pub open spec fn history_title(log: Seq<ChatMsg>) -> Seq<char> {
    match first_question(log) {
        None => "(empty)"@,
        Some(t) => {
            let l = one_line(t);
            if l.len() > 60 {
                l.take(60) + "…"@
            } else {
                l
            }
        },
    }
}

/// `post` is `pre` with the stored conversation `i` open in the chat.
pub open spec fn ai_conversation_loaded(pre: App, post: App, i: usize) -> bool {
    &&& i >= pre.ai.history@.len() ==> post == pre
    &&& i < pre.ai.history@.len() ==> {
        let c = pre.ai.history@[i as int];
        &&& popup_only(pre, post)
        &&& post.popup matches Popup::AiChat { skin, .. } && chat_opened(
            post.popup,
            c.mode,
            skin,
            c.log@,
            false,
        ) && (c.skin matches Some(k) ==> skin == k) && (c.skin is None ==> skin.title@
            == "Chat"@)
    }
}

/// `post` is `pre` without the stored conversation `i` (the list closes
/// when it was the last).
pub open spec fn ai_conversation_deleted(pre: App, post: App, i: usize) -> bool {
    &&& i < pre.ai.history@.len() ==> post.ai.history@ == pre.ai.history@.remove(
        i as int,
    ) && post.effects@ == pre.effects@.push(Effect::SaveAiHistory)
    &&& i >= pre.ai.history@.len() ==> post.ai.history == pre.ai.history
        && post.effects == pre.effects
    &&& post == (App {
        ai: crate::state::AiState { history: post.ai.history, ..pre.ai },
        effects: post.effects,
        popup: post.popup,
        ..pre
    })
    &&& post.ai.history@.len() == 0 ==> post.popup is Closed
    &&& post.ai.history@.len() > 0 ==> post.popup == pre.popup
}

impl App {
    /// A one-line title for a kept conversation — its first question.
    pub fn ai_history_title(log: &[ChatMsg]) -> (out: String)
        ensures
            out@ == history_title(log@),
    {
        let mut i: usize = 0;
        assert(log@.skip(0) =~= log@);
        while i < log.len()
            invariant
                i <= log@.len(),
                first_question(log@) == first_question(log@.skip(i as int)),
            decreases log.len() - i,
        {
            let ghost rest = log@.skip(i as int);
            assert(rest[0] == log@[i as int]);
            if log[i].user {
                let t = chars_of(log[i].text.as_str());
                let mut l: Vec<char> = Vec::new();
                let mut k: usize = 0;
                while k < t.len()
                    invariant
                        k <= t@.len(),
                        l@ == one_line(t@).take(k as int),
                    decreases t.len() - k,
                {
                    l.push(if t[k] == '\n' { ' ' } else { t[k] });
                    k += 1;
                    assert(l@ =~= one_line(t@).take(k as int));
                }
                assert(one_line(t@).take(t@.len() as int) =~= one_line(t@));
                if l.len() > 60 {
                    let mut out = crate::text::slice_vec(l.as_slice(), 0, 60);
                    out.push('…');
                    proof {
                        reveal_strlit("…");
                    }
                    assert(out@ =~= one_line(t@).take(60) + "…"@);
                    return string_of(out.as_slice());
                }
                return string_of(l.as_slice());
            }
            assert(rest.drop_first() =~= log@.skip(i + 1));
            i += 1;
        }
        assert(log@.skip(i as int) =~= seq![]);
        "(empty)".to_owned()
    }

    /// `Ctrl+R` in the chat: keep the current conversation, then show the
    /// history — or say there is none.
    pub fn open_ai_history(&mut self)
        ensures
            exists|mid: App|
                #![trigger chat_archived(*old(self), mid)]
                {
                    &&& chat_archived(*old(self), mid)
                    &&& mid.ai.history@.len() == 0 ==> message_only(mid, *final(self)) && says(
                        final(self).message,
                        tr_spec(mid.lang, "no past conversations yet"@, "過去の会話はまだありません"@),
                    )
                    &&& mid.ai.history@.len() > 0 ==> *final(self) == (App {
                        popup: Popup::AiHistory { cursor: 0 },
                        ..mid
                    })
                },
    {
        self.archive_current_ai_chat();
        let ghost mid = *self;
        if self.ai.history.len() == 0 {
            self.message = Some(
                tr_string(self.lang, "no past conversations yet", "過去の会話はまだありません"),
            );
            assert(chat_archived(*old(self), mid));
            return;
        }
        self.open_popup(Popup::AiHistory { cursor: 0 });
        assert(chat_archived(*old(self), mid));
    }

    /// Reopen the kept conversation at `i` as the live chat, looking as it
    /// did.
    pub fn load_ai_conversation(&mut self, i: usize)
        ensures
            ai_conversation_loaded(*old(self), *final(self), i),
    {
        if i >= self.ai.history.len() {
            return;
        }
        let c = &self.ai.history[i];
        let log = copy_log(c.log());
        let mode = c.mode();
        let skin = c.skin();
        self.open_popup(
            Popup::AiChat { input: String::new(), log, scroll: usize::MAX, pending: false, sel: None, mode, skin },
        );
    }

    /// Forget the kept conversation at `i` (written out); with none left
    /// the history closes.
    pub fn delete_ai_conversation(&mut self, i: usize)
        ensures
            ai_conversation_deleted(*old(self), *final(self), i),
    {
        if i < self.ai.history.len() {
            self.ai.history.remove(i);
            self.effects.push(Effect::SaveAiHistory);
        }
        if self.ai.history.len() == 0 {
            self.popup = Popup::Closed;
        }
    }
}

/// `l2` is the transcript `l1` with `text` added to the answer being
/// written, or, when the last turn is not an answer, a new answer `text`.
pub open spec fn answer_added(l1: Seq<ChatMsg>, l2: Seq<ChatMsg>, text: Seq<char>) -> bool {
    if l1.len() > 0 && !l1.last().user {
        &&& l2.len() == l1.len()
        &&& l2.drop_last() == l1.drop_last()
        &&& !l2.last().user
        &&& l2.last().text@ == l1.last().text@ + text
    } else {
        &&& l2.len() == l1.len() + 1
        &&& l2.drop_last() == l1
        &&& !l2.last().user
        &&& l2.last().text@ == text
    }
}

/// The chat popup `p2` is `p1` with `text` added to the answer, scrolled to
/// the end; any other popup is left alone.
pub open spec fn chat_answered(p1: Popup, p2: Popup, text: Seq<char>) -> bool {
    match p1 {
        Popup::AiChat { input, log, pending, sel, mode, skin, .. } => p2 matches Popup::AiChat {
            input: i2,
            log: l2,
            scroll: s2,
            pending: pd2,
            sel: se2,
            mode: m2,
            skin: k2,
        } && i2 == input && answer_added(log@, l2@, text) && s2 == usize::MAX && pd2 == pending && se2
            == sel && m2 == mode && k2 == skin,
        _ => p2 == p1,
    }
}

/// Is the backend configured and answering?
pub open spec fn ai_ok(a: App) -> bool {
    a.config.ai is Some && a.ai_ready_spec()
}

/// `b` is `a` with the message saying why the AI cannot be used.
pub open spec fn ai_refused(a: App, b: App) -> bool {
    &&& message_only(a, b)
    &&& a.config.ai is None ==> says(
        b.message,
        tr_spec(
            a.lang,
            "AI not configured — add cian.ai{ endpoint = \"…\" } to init.lua"@,
            "AI が未設定です — init.lua に cian.ai{ endpoint = \"…\" } を追加してください"@,
        ),
    )
    &&& a.config.ai is Some ==> says(
        b.message,
        tr_spec(
            a.lang,
            "AI unavailable (python, packages, or sign-in)"@,
            "AI を利用できません（python・パッケージ・サインインのいずれか）"@,
        ),
    )
}

fn add_to_answer(log: Vec<ChatMsg>, text: &str) -> (out: Vec<ChatMsg>)
    ensures
        answer_added(log@, out@, text@),
{
    let mut log = log;
    let n = log.len();
    if n > 0 && !log[n - 1].user {
        let ghost before = log@;
        let last = log.pop().unwrap();
        let mut t = last.text;
        push_chars(&mut t, chars_of(text).as_slice());
        log.push(ChatMsg { user: false, text: t });
        assert(log@.drop_last() =~= before.drop_last());
        log
    } else {
        let ghost before = log@;
        log.push(ChatMsg { user: false, text: text.to_owned() });
        assert(log@.drop_last() =~= before);
        log
    }
}

impl App {
    /// Add to the answer being written in the chat, or start one.
    pub fn append_ai_answer(&mut self, text: &str)
        ensures
            *final(self) == (App { popup: final(self).popup, ..*old(self) }),
            chat_answered(old(self).popup, final(self).popup, text@),
    {
        let mut popup = Popup::Closed;
        std::mem::swap(&mut popup, &mut self.popup);
        self.popup = match popup {
            Popup::AiChat { input, log, scroll, pending, sel, mode, skin } => Popup::AiChat {
                input,
                log: add_to_answer(log, text),
                scroll: usize::MAX,
                pending,
                sel,
                mode,
                skin,
            },
            other => other,
        };
    }

    /// The first Esc in the chat: stop waiting for a running answer, say so
    /// in it, and keep the chat open. `false` when nothing was running.
    pub fn cancel_ai_pending(&mut self) -> (cancelled: bool)
        ensures
            cancelled == old(self).ai.job,
            !cancelled ==> *final(self) == *old(self),
            cancelled ==> {
                &&& *final(self) == (App {
                    ai: crate::state::AiState { job: false, ..old(self).ai },
                    popup: final(self).popup,
                    ..*old(self)
                })
                &&& match old(self).popup {
                    Popup::AiChat { input, log, sel, mode, skin, .. } => final(self).popup matches Popup::AiChat {
                        input: i2,
                        log: l2,
                        scroll: s2,
                        pending: pd2,
                        sel: se2,
                        mode: m2,
                        skin: k2,
                    } && i2 == input && answer_added(
                        log@,
                        l2@,
                        "\n⚠ "@ + tr_spec(old(self).lang, "cancelled"@, "中断しました"@),
                    ) && s2 == usize::MAX && !pd2 && se2 == sel && m2 == mode && k2 == skin,
                    _ => final(self).popup == old(self).popup,
                }
            },
    {
        if !self.ai.job {
            return false;
        }
        self.ai.job = false;
        let note = crate::lang::tr_with(
            self.lang,
            "\n⚠ ",
            "\n⚠ ",
            chars_of(tr(self.lang, "cancelled", "中断しました")).as_slice(),
        );
        assert(note@ == "\n⚠ "@ + tr_spec(self.lang, "cancelled"@, "中断しました"@));
        self.append_ai_answer(note.as_str());
        let mut popup = Popup::Closed;
        std::mem::swap(&mut popup, &mut self.popup);
        self.popup = match popup {
            Popup::AiChat { input, log, scroll, pending, sel, mode, skin } => Popup::AiChat {
                input,
                log,
                scroll: usize::MAX,
                pending: false,
                sel,
                mode,
                skin,
            },
            other => other,
        };
        true
    }

    /// Open the "describe a command" prompt, when the AI is available.
    pub fn start_ai_shell_prompt(&mut self)
        ensures
            !ai_ok(*old(self)) ==> ai_refused(*old(self), *final(self)),
            ai_ok(*old(self)) ==> {
                &&& popup_only(*old(self), *final(self))
                &&& is_prompt(
                    final(self).popup,
                    tr_spec(old(self).lang, " Command from description "@, " 説明からコマンド生成 "@),
                    tr_spec(
                        old(self).lang,
                        "describe what you want to do:"@,
                        "やりたいことを説明してください:"@,
                    ),
                    seq![],
                )
                &&& final(self).popup matches Popup::TextInput { kind, .. } && kind is AiShellCmd
            },
    {
        if !self.ai_available() {
            return;
        }
        let p = text_input(
            tr(self.lang, " Command from description ", " 説明からコマンド生成 "),
            tr(self.lang, "describe what you want to do:", "やりたいことを説明してください:"),
            String::new(),
            InputKind::AiShellCmd,
        );
        self.open_popup(p);
    }

    /// Ask the model for a shell command doing what `description` says; the
    /// answer is shown for review before it touches the prompt.
    pub fn start_ai_shell_cmd(&mut self, description: &str)
        ensures
            shell_cmd_asked(*old(self), *final(self), description@),
    {
        let d = crate::text::trim_chars(chars_of(description).as_slice());
        if d.len() == 0 {
            return;
        }
        self.message = Some(
            tr_string(self.lang, "asking AI for a command…", "AI にコマンドを問い合わせ中…"),
        );
        let ghost e0 = self.effects@;
        self.effects.push(Effect::AskShellCommand { description: string_of(d.as_slice()) });
        assert(self.effects@.drop_last() =~= e0);
        self.ai.job = true;
    }

    /// Open the "not quite — more like this" prompt over a proposed command.
    pub fn start_ai_shell_refine_prompt(&mut self)
        ensures
            !(old(self).popup is AiShellConfirm) ==> *final(self) == *old(self),
            old(self).popup matches Popup::AiShellConfirm { command, description } ==> {
                &&& popup_only(*old(self), *final(self))
                &&& is_prompt(
                    final(self).popup,
                    tr_spec(old(self).lang, " Adjust the command "@, " コマンドを修正 "@),
                    tr_spec(
                        old(self).lang,
                        "what should be different about it?"@,
                        "どこをどう変えてほしいですか？"@,
                    ),
                    seq![],
                )
                &&& final(self).popup matches Popup::TextInput { kind, .. } && kind matches InputKind::AiShellRefine {
                    description: d,
                    rejected: r,
                } && d@ == description@ && r@ == command@
            },
    {
        let (description, rejected) = match &self.popup {
            Popup::AiShellConfirm { command, description } => (description.clone(), command.clone()),
            _ => return ,
        };
        let p = text_input(
            tr(self.lang, " Adjust the command ", " コマンドを修正 "),
            tr(self.lang, "what should be different about it?", "どこをどう変えてほしいですか？"),
            String::new(),
            InputKind::AiShellRefine { description, rejected },
        );
        self.open_popup(p);
    }

    /// The request sent again when a proposed command was not right: what
    /// was asked, what came back, and what should change.
    pub open spec fn refine_request(description: Seq<char>, rejected: Seq<char>, note: Seq<char>) -> Seq<char> {
        description + "\n\nYou already proposed this command, and it was not right:\n"@ + rejected
            + "\n\nChange it so that: "@ + note
    }

    /// Ask again with the first answer and what was wrong with it; with
    /// nothing said, the proposal comes back for review.
    pub fn start_ai_shell_refine(&mut self, description: &str, rejected: &str, note: &str)
        ensures
            shell_cmd_refined(*old(self), *final(self), description@, rejected@, note@),
    {
        let n = crate::text::trim_chars(chars_of(note).as_slice());
        if n.len() == 0 {
            self.open_popup(
                Popup::AiShellConfirm { command: rejected.to_owned(), description: description.to_owned() },
            );
            return;
        }
        let mut req = chars_of(description);
        crate::text::extend_chars(&mut req, chars_of("\n\nYou already proposed this command, and it was not right:\n").as_slice());
        crate::text::extend_chars(&mut req, chars_of(rejected).as_slice());
        crate::text::extend_chars(&mut req, chars_of("\n\nChange it so that: ").as_slice());
        crate::text::extend_chars(&mut req, n.as_slice());
        let r = string_of(req.as_slice());
        self.start_ai_shell_cmd(r.as_str());
    }
}

/// `b` is `a` after asking the model for a shell command doing what
/// `description` says (nothing happens for a blank description).
pub open spec fn shell_cmd_asked(a: App, b: App, description: Seq<char>) -> bool {
    &&& trim(description).len() == 0 ==> b == a
    &&& trim(description).len() > 0 ==> {
        &&& b == (App {
            message: b.message,
            effects: b.effects,
            ai: crate::state::AiState { job: true, ..a.ai },
            ..a
        })
        &&& says(
            b.message,
            tr_spec(
                a.lang,
                "asking AI for a command…"@,
                "AI にコマンドを問い合わせ中…"@,
            ),
        )
        &&& b.effects@.len() == a.effects@.len() + 1
        &&& b.effects@.drop_last() == a.effects@
        &&& b.effects@.last() matches Effect::AskShellCommand { description: d } && d@
            == trim(description)
    }
}

/// `b` is `a` after answering "not quite" to the proposed command `rejected`
/// for `description` with `note`: a blank note goes back to the proposal.
pub open spec fn shell_cmd_refined(a: App, b: App, description: Seq<char>, rejected: Seq<char>, note: Seq<char>) -> bool {
    &&& trim(note).len() == 0 ==> {
        &&& popup_only(a, b)
        &&& b.popup matches Popup::AiShellConfirm { command, description: d }
            && command@ == rejected && d@ == description
    }
    &&& trim(note).len() > 0 ==> {
        let req = App::refine_request(description, rejected, trim(note));
        &&& trim(req).len() == 0 ==> b == a
        &&& trim(req).len() > 0 ==> {
            &&& b == (App {
                message: b.message,
                effects: b.effects,
                ai: crate::state::AiState { job: true, ..a.ai },
                ..a
            })
            &&& b.effects@.drop_last() == a.effects@
            &&& b.effects@.last() matches Effect::AskShellCommand { description: d }
                && d@ == trim(req)
        }
    }
}

/// What `Path::file_name` gives for `p`: the last component, unless that
/// is `..` or there is none.
pub uninterp spec fn path_file_name(p: Seq<char>) -> Option<Seq<char>>;

/// `Path::file_name`, as text.
#[verifier::external_body]
pub(crate) fn file_name(p: &str) -> (r: Option<String>)
    ensures
        match r {
            Some(s) => path_file_name(p@) == Some(s@),
            None => path_file_name(p@) is None,
        },
{
    match std::path::Path::new(p).file_name() {
        Some(s) => Some(s.to_string_lossy().into_owned()),
        None => None,
    }
}

/// The last answer in a transcript.
pub open spec fn last_answer(log: Seq<ChatMsg>) -> Option<Seq<char>>
    decreases log.len(),
{
    if log.len() == 0 {
        None
    } else if !log.last().user {
        Some(log.last().text@)
    } else {
        last_answer(log.drop_last())
    }
}

/// The last `k` lines of `ls` that are not blank, last first.
pub open spec fn last_nonblank(ls: Seq<Seq<char>>, k: nat) -> Seq<Seq<char>>
    decreases ls.len(),
{
    if ls.len() == 0 || k == 0 {
        seq![]
    } else if trim(ls.last()).len() == 0 {
        last_nonblank(ls.drop_last(), k)
    } else {
        seq![ls.last()] + last_nonblank(ls.drop_last(), (k - 1) as nat)
    }
}

/// Output that says a command failed.
pub open spec fn error_signs() -> Seq<Seq<char>> {
    seq![
        "command not found"@,
        "no such file or directory"@,
        "permission denied"@,
        "traceback (most recent call last)"@,
        "segmentation fault"@,
        "fatal:"@,
        "ora-0"@,
        "ora-1"@,
        "is not recognized as"@,
        "syntax error"@,
        "connection refused"@,
        "no such host"@,
    ]
}

/// Do the last six non-blank lines of the shell screen, lowercased, hold
/// one of the signs of a failed command?
pub open spec fn screen_shows_error(screen: Seq<char>) -> bool {
    let tail = lowercase(join(last_nonblank(lines(screen), 6), "\n"@));
    exists|i: int| 0 <= i < error_signs().len() && contains_seq(tail, error_signs()[i])
}

/// The facts handed to the model: the configured ones, then the notes of
/// each configured host the shell is logged into (`host`).
pub open spec fn context_facts(facts: Seq<Seq<char>>, hosts: Seq<SshHost>, host: Option<Seq<char>>) -> Seq<Seq<char>>
    decreases hosts.len(),
{
    if hosts.len() == 0 {
        facts
    } else {
        let before = context_facts(facts, hosts.drop_last(), host);
        let h = hosts.last();
        match (host, h.notes) {
            (Some(x), Some(n)) => if h.host@ == x || h.name@ == x {
                before.push("The server '"@ + h.name@ + "' ("@ + h.host@ + "): "@ + n@)
            } else {
                before
            },
            _ => before,
        }
    }
}

/// The context paragraph: a heading and one `- fact` line per fact; empty
/// with no facts.
pub open spec fn context_block(facts: Seq<Seq<char>>) -> Seq<char>
    decreases facts.len(),
{
    if facts.len() == 0 {
        seq![]
    } else if facts.len() == 1 {
        "Context about the user's environment you can rely on:\n"@ + "- "@ + facts[0] + "\n"@
    } else {
        context_block(facts.drop_last()) + "- "@ + facts.last() + "\n"@
    }
}

spec fn copy_text_is(a: App, t: Seq<char>) -> bool {
    match a.popup {
        Popup::AiChat { log, sel, .. } => t == a.chat_copy_text(log@, sel),
        _ => true,
    }
}

fn sub_lines(v: &Vec<String>, lo: usize, hi: usize) -> (out: Vec<String>)
    requires
        lo <= hi < v@.len(),
    ensures
        views(out@) == views(v@).subrange(lo as int, hi + 1),
{
    let mut out: Vec<String> = Vec::new();
    let n = v.len();
    let end = hi + 1;
    let mut i = lo;
    assert(views(out@) =~= views(v@).subrange(lo as int, lo as int));
    while i < end
        invariant
            lo <= i <= end,
            end == hi + 1,
            end <= n,
            n == v@.len(),
            views(out@) == views(v@).subrange(lo as int, i as int),
        decreases end - i,
    {
        let ghost before = views(out@);
        out.push(v[i].clone());
        assert(views(out@) =~= before.push(v@[i as int]@));
        assert(views(out@) =~= views(v@).subrange(lo as int, i + 1));
        i += 1;
    }
    out
}

impl App {
    /// The shell program's base name (`sh` when it has none).
    pub fn shell_cmd_name(&self) -> (out: String)
        ensures
            match path_file_name(self.shell.command@) {
                Some(n) => out@ == n,
                None => out@ == "sh"@,
            },
    {
        match file_name(self.shell.command.as_str()) {
            Some(n) => n,
            None => "sh".to_owned(),
        }
    }

    /// What the chat's copy key copies: the selected transcript lines, or
    /// else the last answer.
    pub open spec fn chat_copy_text(self, log: Seq<ChatMsg>, sel: Option<(usize, usize)>) -> Seq<char> {
        let ls = views(self.ai.lines@);
        match sel {
            Some((a, b)) => if ls.len() == 0 {
                seq![]
            } else {
                let lo = if a < b { a as int } else { b as int };
                let top = if a < b { b as int } else { a as int };
                let hi = if top < ls.len() - 1 { top } else { ls.len() - 1 };
                join(ls.subrange(lo, hi + 1), "\n"@)
            },
            None => match last_answer(log) {
                Some(t) => t,
                None => seq![],
            },
        }
    }

    /// Copy the chat: the selected lines, else the last answer.
    pub fn copy_ai_text(&mut self)
        requires
            old(self).popup matches Popup::AiChat { sel: Some((a, b)), .. } ==> (old(self).ai.lines@.len() > 0 ==> a <= old(self).ai.lines@.len() - 1 || b <= old(self).ai.lines@.len() - 1),
        ensures
            !(old(self).popup is AiChat) ==> *final(self) == *old(self),
            old(self).popup matches Popup::AiChat { log, sel, .. } ==> {
                let t = old(self).chat_copy_text(log@, sel);
                &&& trim(t).len() == 0 ==> message_only(*old(self), *final(self)) && says(
                    final(self).message,
                    tr_spec(old(self).lang, "nothing to copy"@, "コピーする対象がありません"@),
                )
                &&& trim(t).len() > 0 ==> {
                    &&& *final(self) == (App {
                        message: final(self).message,
                        effects: final(self).effects,
                        popup: final(self).popup,
                        ..*old(self)
                    })
                    &&& final(self).effects@.drop_last() == old(self).effects@
                    &&& final(self).effects@.len() == old(self).effects@.len() + 1
                    &&& final(self).effects@.last() matches Effect::SetClipboard { text } && text@ == t
                    &&& says(final(self).message, tr_spec(old(self).lang, "copied"@, "コピーしました"@))
                    &&& match old(self).popup {
                        Popup::AiChat { input, log, scroll, pending, mode, skin, .. } => final(self).popup
                            == (Popup::AiChat { input, log, scroll, pending, sel: None, mode, skin }),
                        _ => false,
                    }
                }
            },
    {
        let text = match &self.popup {
            Popup::AiChat { log, sel, .. } => match sel {
                Some((a, b)) => {
                    if self.ai.lines.len() == 0 {
                        String::new()
                    } else {
                        let lo = if *a < *b { *a } else { *b };
                        let top = if *a < *b { *b } else { *a };
                        let hi = if top < self.ai.lines.len() - 1 { top } else { self.ai.lines.len() - 1 };
                        let part = sub_lines(&self.ai.lines, lo, hi);
                        let t = crate::text::join_strings(part.as_slice(), "\n");
                        assert(t@ == join(views(self.ai.lines@).subrange(lo as int, hi + 1), "\n"@));
                        t
                    }
                },
                None => {
                    let mut i = log.len();
                    let mut found: Option<String> = None;
                    assert(log@.take(i as int) =~= log@);
                    while found.is_none() && i > 0
                        invariant
                            i <= log@.len(),
                            found is None ==> last_answer(log@) == last_answer(log@.take(i as int)),
                            found matches Some(f) ==> last_answer(log@) == Some(f@),
                        decreases i,
                    {
                        assert(log@.take(i as int).drop_last() =~= log@.take(i - 1));
                        if !log[i - 1].user {
                            found = Some(log[i - 1].text.clone());
                        }
                        i -= 1;
                    }
                    let t = match found {
                        Some(f) => f,
                        None => {
                            assert(log@.take(0) =~= seq![]);
                            String::new()
                        },
                    };
                    assert(t@ == match last_answer(log@) { Some(x) => x, None => seq![] });
                    t
                },
            },
            _ => return ,
        };
        assert(copy_text_is(*self, text@));
        let tc = crate::text::trim_chars(chars_of(text.as_str()).as_slice());
        if tc.len() == 0 {
            self.message = Some(tr_string(self.lang, "nothing to copy", "コピーする対象がありません"));
            return ;
        }
        let ghost e0 = self.effects@;
        self.effects.push(Effect::SetClipboard { text });
        assert(self.effects@.drop_last() =~= e0);
        self.message = Some(tr_string(self.lang, "copied", "コピーしました"));
        let mut popup = Popup::Closed;
        std::mem::swap(&mut popup, &mut self.popup);
        self.popup = match popup {
            Popup::AiChat { input, log, scroll, pending, sel, mode, skin } => Popup::AiChat {
                input,
                log,
                scroll,
                pending,
                sel: None,
                mode,
                skin,
            },
            other => other,
        };
    }
}

fn last_nonblank_exec(ls: &Vec<Vec<char>>, k: usize) -> (out: Vec<Vec<char>>)
    ensures
        crate::text::seqs_of(out@) == last_nonblank(crate::text::seqs_of(ls@), k as nat),
{
    let ghost all = crate::text::seqs_of(ls@);
    let mut out: Vec<Vec<char>> = Vec::new();
    let mut i = ls.len();
    let mut left = k;
    assert(all.take(i as int) =~= all);
    while i > 0 && left > 0
        invariant
            i <= ls@.len(),
            all == crate::text::seqs_of(ls@),
            left <= k,
            crate::text::seqs_of(out@) + last_nonblank(all.take(i as int), left as nat) == last_nonblank(
                all,
                k as nat,
            ),
        decreases i,
    {
        let ghost t = all.take(i as int);
        assert(t.drop_last() =~= all.take(i - 1));
        assert(t.last() == ls@[i - 1]@);
        let tr = crate::text::trim_chars(ls[i - 1].as_slice());
        if tr.len() > 0 {
            let ghost before = crate::text::seqs_of(out@);
            out.push(ls[i - 1].clone());
            assert(crate::text::seqs_of(out@) =~= before + seq![ls@[i - 1]@]);
            left -= 1;
        }
        i -= 1;
    }
    proof {
        if i == 0 {
            assert(all.take(0) =~= seq![]);
        }
        assert(crate::text::seqs_of(out@) + seq![] =~= crate::text::seqs_of(out@));
    }
    out
}

impl App {
    /// A heuristic nudge: with the AI configured, do the last lines of the
    /// shell's screen (`screen`, read by the caller; `None` without a
    /// session) look like a failed command?
    pub fn shell_error_detected(&self, screen: Option<String>) -> (b: bool)
        ensures
            b == (self.config.ai is Some && (screen matches Some(s) && screen_shows_error(s@))),
    {
        if self.config.ai.is_none() {
            return false;
        }
        let s = match &screen {
            Some(s) => s,
            None => return false,
        };
        let ls = split_lines_of(s.as_str());
        let last = last_nonblank_exec(&ls, 6);
        let joined = crate::text::join_chars(last.as_slice(), chars_of("\n").as_slice());
        let tail_s = string_of(joined.as_slice());
        let tail = chars_of(crate::text::to_lowercase(tail_s.as_str()).as_str());
        let signs: [&str; 12] = [
            "command not found",
            "no such file or directory",
            "permission denied",
            "traceback (most recent call last)",
            "segmentation fault",
            "fatal:",
            "ora-0",
            "ora-1",
            "is not recognized as",
            "syntax error",
            "connection refused",
            "no such host",
        ];
        let mut i: usize = 0;
        while i < 12
            invariant
                i <= 12,
                self.config.ai is Some,
                screen == Some(*s),
                forall|j: int| 0 <= j < 12 ==> signs@[j]@ == error_signs()[j],
                tail@ == lowercase(join(last_nonblank(lines(s@), 6), "\n"@)),
                forall|j: int| 0 <= j < i ==> !contains_seq(tail@, error_signs()[j]),
            decreases 12 - i,
        {
            if crate::text::contains_chars(tail.as_slice(), chars_of(signs[i]).as_slice()) {
                assert(contains_seq(tail@, error_signs()[i as int]));
                assert(screen_shows_error(s@));
                return true;
            }
            i += 1;
        }
        false
    }
}

fn split_lines_of(s: &str) -> (out: Vec<Vec<char>>)
    ensures
        crate::text::seqs_of(out@) == lines(s@),
{
    crate::text::split_lines(chars_of(s).as_slice())
}

/// The text of an optional string.
pub open spec fn opt_view(o: Option<String>) -> Option<Seq<char>> {
    match o {
        Some(h) => Some(h@),
        None => None,
    }
}

/// `t` without the line breaks (`\r`, `\n`) at its end.
pub open spec fn trim_breaks_end(t: Seq<char>) -> Seq<char>
    decreases t.len(),
{
    if t.len() > 0 && (t.last() == '\r' || t.last() == '\n') {
        trim_breaks_end(t.drop_last())
    } else {
        t
    }
}

impl App {
    /// The paragraph of facts put before the model's instructions: the
    /// configured ones, then the notes of the configured host the shell is
    /// logged into (`host`, as the front end read it from the shell's
    /// title). Empty when there are none.
    pub fn ai_context_block(&self, host: Option<String>) -> (out: String)
        ensures
            out@ == context_block(
                context_facts(
                    views(self.config.ai_context@),
                    self.config.ssh_hosts@,
                    opt_view(host),
                ),
            ),
    {
        let ghost hv: Option<Seq<char>> = opt_view(host);
        let mut facts: Vec<String> = Vec::new();
        let mut i: usize = 0;
        while i < self.config.ai_context.len()
            invariant
                i <= self.config.ai_context@.len(),
                views(facts@) == views(self.config.ai_context@).take(i as int),
            decreases self.config.ai_context.len() - i,
        {
            let ghost before = views(facts@);
            facts.push(self.config.ai_context[i].clone());
            assert(views(facts@) =~= before.push(self.config.ai_context@[i as int]@));
            assert(views(facts@) =~= views(self.config.ai_context@).take(i + 1));
            i += 1;
        }
        assert(views(self.config.ai_context@).take(i as int) =~= views(self.config.ai_context@));
        let hosts = &self.config.ssh_hosts;
        let mut k: usize = 0;
        assert(hosts@.take(0) =~= seq![]);
        while k < hosts.len()
            invariant
                k <= hosts@.len(),
                *hosts == self.config.ssh_hosts,
                views(facts@) == context_facts(views(self.config.ai_context@), hosts@.take(k as int), hv),
                hv == opt_view(host),
            decreases hosts.len() - k,
        {
            assert(hosts@.take(k + 1).drop_last() =~= hosts@.take(k as int));
            let h = &hosts[k];
            match (&host, &h.notes) {
                (Some(x), Some(n)) => {
                    if h.host == *x || h.name == *x {
                        let mut line = crate::text::cat("The server '", chars_of(h.name.as_str()).as_slice());
                        push_chars(&mut line, chars_of("' (").as_slice());
                        push_chars(&mut line, chars_of(h.host.as_str()).as_slice());
                        push_chars(&mut line, chars_of("): ").as_slice());
                        push_chars(&mut line, chars_of(n.as_str()).as_slice());
                        let ghost before = views(facts@);
                        facts.push(line);
                        assert(views(facts@) =~= before.push(
                            "The server '"@ + h.name@ + "' ("@ + h.host@ + "): "@ + n@,
                        ));
                    }
                },
                _ => {},
            }
            k += 1;
        }
        assert(hosts@.take(k as int) =~= hosts@);
        if facts.len() == 0 {
            return String::new();
        }
        let mut s = "Context about the user's environment you can rely on:\n".to_owned();
        let ghost fv = views(facts@);
        let mut j: usize = 0;
        while j < facts.len()
            invariant
                1 <= facts@.len(),
                fv == views(facts@),
                j <= facts@.len(),
                j == 0 ==> s@ == "Context about the user's environment you can rely on:\n"@,
                j > 0 ==> s@ == context_block(fv.take(j as int)),
            decreases facts.len() - j,
        {
            let ghost before = s@;
            push_chars(&mut s, chars_of("- ").as_slice());
            push_chars(&mut s, chars_of(facts[j].as_str()).as_slice());
            push_chars(&mut s, chars_of("\n").as_slice());
            proof {
                let t = fv.take(j + 1);
                assert(t.drop_last() =~= fv.take(j as int));
                assert(t.last() == fv[j as int]);
                if j == 0 {
                    assert(t.len() == 1);
                    assert(t[0] == fv[0]);
                }
            }
            j += 1;
        }
        assert(fv.take(j as int) =~= fv);
        s
    }

    /// Ask how to rename, then propose new names — for the marked files, or
    /// the whole listing when nothing is marked.
    pub fn start_ai_rename_prompt(&mut self)
        ensures
            !ai_ok(*old(self)) ==> ai_refused(*old(self), *final(self)),
            ({
                let any = match old(self).active() {
                    Some(p) => p.marks@.len() > 0 || exists|i: int|
                        0 <= i < p.entries@.len() && !p.entries@[i].is_parent,
                    None => false,
                };
                &&& ai_ok(*old(self)) && !any ==> message_only(*old(self), *final(self)) && says(
                    final(self).message,
                    tr_spec(old(self).lang, "nothing here to rename"@, "リネームする対象がありません"@),
                )
                &&& ai_ok(*old(self)) && any ==> {
                    &&& popup_only(*old(self), *final(self))
                    &&& is_prompt(
                        final(self).popup,
                        tr_spec(old(self).lang, " AI rename "@, " AIリネーム "@),
                        tr_spec(
                            old(self).lang,
                            "how should these be renamed? (e.g. snake_case, add a date prefix):"@,
                            "どうリネームしますか？（例: snake_case、日付を先頭に）:"@,
                        ),
                        seq![],
                    )
                    &&& final(self).popup matches Popup::TextInput { kind, .. } && kind is AiRename
                }
            }),
    {
        if !self.ai_available() {
            return ;
        }
        let any = match self.active_pane() {
            Some(p) => {
                if p.marks.len() > 0 {
                    true
                } else {
                    let mut found = false;
                    let mut i: usize = 0;
                    while i < p.entries.len()
                        invariant
                            i <= p.entries@.len(),
                            found == exists|j: int| 0 <= j < i && !p.entries@[j].is_parent,
                        decreases p.entries.len() - i,
                    {
                        if !p.entries[i].is_parent {
                            found = true;
                        }
                        i += 1;
                    }
                    found
                }
            },
            None => false,
        };
        if !any {
            self.message = Some(
                tr_string(self.lang, "nothing here to rename", "リネームする対象がありません"),
            );
            return ;
        }
        let p = text_input(
            tr(self.lang, " AI rename ", " AIリネーム "),
            tr(
                self.lang,
                "how should these be renamed? (e.g. snake_case, add a date prefix):",
                "どうリネームしますか？（例: snake_case、日付を先頭に）:",
            ),
            String::new(),
            InputKind::AiRename,
        );
        self.open_popup(p);
    }

    /// Ask what to look for, then search the tree by meaning.
    pub fn start_ai_search_prompt(&mut self)
        ensures
            !ai_ok(*old(self)) ==> ai_refused(*old(self), *final(self)),
            ai_ok(*old(self)) ==> {
                &&& popup_only(*old(self), *final(self))
                &&& is_prompt(
                    final(self).popup,
                    tr_spec(old(self).lang, " Semantic search "@, " セマンティック検索 "@),
                    tr_spec(
                        old(self).lang,
                        "describe what you're looking for:"@,
                        "探しているものを説明してください:"@,
                    ),
                    seq![],
                )
                &&& final(self).popup matches Popup::TextInput { kind, .. } && kind is AiSearch
            },
    {
        if !self.ai_available() {
            return ;
        }
        let p = text_input(
            tr(self.lang, " Semantic search ", " セマンティック検索 "),
            tr(self.lang, "describe what you're looking for:", "探しているものを説明してください:"),
            String::new(),
            InputKind::AiSearch,
        );
        self.open_popup(p);
    }

    /// Paste into the chat: an image on the clipboard (`has_image`) becomes
    /// an attachment, text (`clipboard`) goes into the input without its
    /// trailing line breaks.
    pub fn paste_into_chat(&mut self, has_image: bool, clipboard: Option<String>)
        ensures
            has_image ==> *final(self) == (App { effects: final(self).effects, ..*old(self) })
                && final(self).effects@ == old(self).effects@.push(Effect::AttachClipboardImage),
            !has_image ==> *final(self) == (App { popup: final(self).popup, ..*old(self) }),
            !has_image ==> match (clipboard, old(self).popup) {
                (Some(t), Popup::AiChat { input, log, scroll, pending, sel, mode, skin }) => final(self).popup matches Popup::AiChat { input: i2, log: l2, scroll: s2, pending: p2, sel: se2, mode: m2, skin: k2 }
                    && i2@ == input@ + trim_breaks_end(t@) && l2 == log && s2 == scroll && p2 == pending
                    && se2 == sel && m2 == mode && k2 == skin,
                _ => final(self).popup == old(self).popup,
            },
    {
        if has_image {
            self.effects.push(Effect::AttachClipboardImage);
            return ;
        }
        let t = match clipboard {
            Some(t) => t,
            None => return ,
        };
        let tc = chars_of(t.as_str());
        let mut end = tc.len();
        assert(tc@.take(end as int) =~= tc@);
        while end > 0 && (tc[end - 1] == '\r' || tc[end - 1] == '\n')
            invariant
                end <= tc@.len(),
                trim_breaks_end(tc@) == trim_breaks_end(tc@.take(end as int)),
            decreases end,
        {
            assert(tc@.take(end as int).drop_last() =~= tc@.take(end - 1));
            end -= 1;
        }
        let kept = crate::text::slice_vec(tc.as_slice(), 0, end);
        assert(kept@ =~= tc@.take(end as int));
        let mut popup = Popup::Closed;
        std::mem::swap(&mut popup, &mut self.popup);
        self.popup = match popup {
            Popup::AiChat { input, log, scroll, pending, sel, mode, skin } => {
                let mut input = input;
                push_chars(&mut input, kept.as_slice());
                Popup::AiChat { input, log, scroll, pending, sel, mode, skin }
            },
            other => other,
        };
    }
}

} // verus!
