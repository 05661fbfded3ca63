//! `:key`: report every key as it arrives, the answer to "that shortcut
//! does nothing on my machine".
use vstd::prelude::*;

use crate::count::{decimal, decimal_chars};
use crate::lang::{tr_spec, tr_string};
use crate::state::{says, App, KeyCode, KeyPress, KeyState};
use crate::text::{push_chars, string_of};

verus! {

/// Rust's `{:?}` rendering of a character: quoted, with escapes.
pub uninterp spec fn char_debug(c: char) -> Seq<char>;

/// `format!("{:?}", c)` for a character. Claimed only that its result is
/// named by `char_debug(c)`; the escaping rules themselves are std's.
#[verifier::external_body]
fn debug_char(c: char) -> (out: Vec<char>)
    ensures
        out@ == char_debug(c),
{
    format!("{:?}", c).chars().collect()
}

/// How a key's code is reported.
pub open spec fn code_name(code: KeyCode) -> Seq<char> {
    match code {
        KeyCode::Esc => "Esc"@,
        KeyCode::Enter => "Enter"@,
        KeyCode::Backspace => "Backspace"@,
        KeyCode::Up => "Up"@,
        KeyCode::Down => "Down"@,
        KeyCode::Left => "Left"@,
        KeyCode::Right => "Right"@,
        KeyCode::Home => "Home"@,
        KeyCode::End => "End"@,
        KeyCode::PageUp => "PageUp"@,
        KeyCode::PageDown => "PageDown"@,
        KeyCode::Delete => "Delete"@,
        KeyCode::Tab => "Tab"@,
        KeyCode::BackTab => "BackTab"@,
        KeyCode::F(n) => "F("@ + decimal(n as nat) + ")"@,
        KeyCode::Char(c) => "Char("@ + char_debug(c) + ")"@,
        KeyCode::Other => "Other"@,
    }
}

/// The modifiers held, as `Ctrl+Alt+Shift` (those of them held), or "no
/// modifier".
pub open spec fn mods_name(k: KeyPress) -> Seq<char> {
    let parts = (if k.ctrl { seq!["Ctrl"@] } else { seq![] }) + (if k.alt { seq!["Alt"@] } else { seq![] })
        + (if k.shift { seq!["Shift"@] } else { seq![] });
    if parts.len() == 0 {
        "no modifier"@
    } else {
        crate::text::join(parts, seq!['+'])
    }
}

/// The report shown for `k` while keys are being reported.
pub open spec fn key_report(k: KeyPress) -> Seq<char> {
    "key: "@ + code_name(k.code) + "  "@ + mods_name(k) + "   (:keys to stop)"@
}

/// `post` is `pre` after `:key`: reporting keys is turned on or off, and it
/// says which.
pub open spec fn probe_toggled(pre: App, post: App) -> bool {
    &&& post == (App { keys: KeyState { probe: !pre.keys.probe, ..pre.keys }, message: post.message, ..pre })
    &&& says(
        post.message,
        if !pre.keys.probe {
            tr_spec(
                pre.lang,
                "showing every key as cian receives it. :keys again to stop"@,
                "受け取ったキーをそのまま表示します。止めるには もう一度 :keys"@,
            ) + " [keyboard: "@ + (if pre.keys.enhanced {
                "enhanced"@
            } else {
                "legacy"@
            }) + "]"@
        } else {
            tr_spec(pre.lang, "key report off"@, "キー表示をやめました"@)
        },
    )
}

fn code_text(code: KeyCode) -> (out: Vec<char>)
    ensures
        out@ == code_name(code),
{
    let s: &str = match code {
        KeyCode::Esc => "Esc",
        KeyCode::Enter => "Enter",
        KeyCode::Backspace => "Backspace",
        KeyCode::Up => "Up",
        KeyCode::Down => "Down",
        KeyCode::Left => "Left",
        KeyCode::Right => "Right",
        KeyCode::Home => "Home",
        KeyCode::End => "End",
        KeyCode::PageUp => "PageUp",
        KeyCode::PageDown => "PageDown",
        KeyCode::Delete => "Delete",
        KeyCode::Tab => "Tab",
        KeyCode::BackTab => "BackTab",
        KeyCode::F(n) => {
            let mut v = crate::text::chars_of("F(");
            let d = decimal_chars(n as usize);
            crate::text::extend_chars(&mut v, d.as_slice());
            v.push(')');
            proof {
                reveal_strlit("F(");
                reveal_strlit(")");
            }
            assert(v@ =~= code_name(code));
            return v;
        },
        KeyCode::Char(c) => {
            let mut v = crate::text::chars_of("Char(");
            let d = debug_char(c);
            crate::text::extend_chars(&mut v, d.as_slice());
            v.push(')');
            proof {
                reveal_strlit("Char(");
                reveal_strlit(")");
            }
            assert(v@ =~= code_name(code));
            return v;
        },
        KeyCode::Other => "Other",
    };
    crate::text::chars_of(s)
}

fn mods_text(k: KeyPress) -> (out: Vec<char>)
    ensures
        out@ == mods_name(k),
{
    let mut parts: Vec<Vec<char>> = Vec::new();
    if k.ctrl {
        parts.push(crate::text::chars_of("Ctrl"));
    }
    if k.alt {
        parts.push(crate::text::chars_of("Alt"));
    }
    if k.shift {
        parts.push(crate::text::chars_of("Shift"));
    }
    let ghost want = (if k.ctrl { seq!["Ctrl"@] } else { seq![] }) + (if k.alt { seq!["Alt"@] } else { seq![] }) + (
    if k.shift {
        seq!["Shift"@]
    } else {
        seq![]
    });
    assert(Seq::new(parts@.len(), |i: int| parts@[i]@) =~= want);
    if parts.len() == 0 {
        return crate::text::chars_of("no modifier");
    }
    let plus = vec!['+'];
    let out = crate::text::join_chars(parts.as_slice(), plus.as_slice());
    assert(plus@ =~= seq!['+']);
    out
}

/// The report for `k`.
pub fn key_report_text(k: KeyPress) -> (out: String)
    ensures
        out@ == key_report(k),
{
    let mut out = String::new();
    push_chars(&mut out, crate::text::chars_of("key: ").as_slice());
    push_chars(&mut out, code_text(k.code).as_slice());
    push_chars(&mut out, crate::text::chars_of("  ").as_slice());
    push_chars(&mut out, mods_text(k).as_slice());
    push_chars(&mut out, crate::text::chars_of("   (:keys to stop)").as_slice());
    proof {
        reveal_strlit("");
    }
    assert(out@ =~= key_report(k));
    out
}

impl App {
    /// `:key`: turn reporting keys on or off.
    pub fn toggle_key_probe(&mut self)
        ensures
            probe_toggled(*old(self), *final(self)),
    {
        let on = !self.keys.probe;
        self.keys.probe = on;
        let m = if on {
            let mut t = tr_string(
                self.lang,
                "showing every key as cian receives it. :keys again to stop",
                "受け取ったキーをそのまま表示します。止めるには もう一度 :keys",
            );
            let mode = if self.keys.enhanced {
                "enhanced"
            } else {
                "legacy"
            };
            push_chars(&mut t, crate::text::chars_of(" [keyboard: ").as_slice());
            push_chars(&mut t, crate::text::chars_of(mode).as_slice());
            push_chars(&mut t, crate::text::chars_of("]").as_slice());
            t
        } else {
            tr_string(self.lang, "key report off", "キー表示をやめました")
        };
        self.message = Some(m);
    }
}

} // verus!
