//! `Ctrl+-` / `Ctrl++`: the terminal's font size, one step at a time. cian
//! keeps the level, puts it back on the next launch, and runs whatever
//! command the terminal understands (`cian.font{}` in `init.lua`).
use vstd::prelude::*;

use crate::actions::message_only;
use crate::count::{int_decimal, int_string, parse_i64, parse_i64_spec};
use crate::lang::{tr_spec, tr_string, tr_with};
use crate::shell::replace_all;
use crate::state::{says, App, Effect, FontOptions};
use crate::text::{chars_of, contains_chars, contains_seq, push_chars, string_of};

verus! {

/// The level to start at: the saved one when it reads as a number within
/// the configured range, else the configured start.
pub open spec fn start_level(cfg: FontOptions, saved: Option<Seq<char>>) -> i64 {
    match saved {
        Some(s) => match parse_i64_spec(s) {
            Some(v) => if cfg.min <= v && v <= cfg.max {
                v as i64
            } else {
                cfg.start
            },
            None => cfg.start,
        },
        None => cfg.start,
    }
}

/// The command that sets the font to `level` (or steps it by `step`):
/// `set` with `{}` replaced by the level (or the level appended), else
/// `bigger` / `smaller`.
pub open spec fn font_command(cfg: FontOptions, level: int, step: int) -> Option<Seq<char>> {
    match cfg.set {
        Some(t) => if contains_seq(t@, "{}"@) {
            Some(replace_all(t@, "{}"@, int_decimal(level)))
        } else {
            Some(t@ + " "@ + int_decimal(level))
        },
        None => if step > 0 {
            match cfg.bigger {
                Some(c) => Some(c@),
                None => None,
            }
        } else {
            match cfg.smaller {
                Some(c) => Some(c@),
                None => None,
            }
        },
    }
}

/// `b` is `a` after running the font command for `level` (if there is
/// one): the level is shown and the command queued.
pub open spec fn font_ran(a: App, b: App, cfg: FontOptions, level: int, step: int) -> bool {
    match font_command(cfg, level, step) {
        None => b == a,
        Some(c) => {
            &&& b == (App { message: b.message, effects: b.effects, ..a })
            &&& says(b.message, tr_spec(a.lang, "font "@ + int_decimal(level), "フォント "@ + int_decimal(level)))
            &&& b.effects@.len() == a.effects@.len() + 1
            &&& b.effects@.drop_last() == a.effects@
            &&& b.effects@.last() matches Effect::RunFontCommand { cmd } && cmd@ == c
        },
    }
}

/// `post` is `pre` after one step of the terminal's font (`step` up or down) within the configured range.
pub open spec fn font_stepped(pre: App, post: App, step: i64) -> bool {
    &&& pre.config.font is None ==> message_only(pre, post) && says(
        post.message,
        tr_spec(
            pre.lang,
            "font size is the terminal's own — see cian.font{} in init.lua"@,
            "フォントサイズは端末側の設定です — init.lua の cian.font{} を参照"@,
        ),
    )
    &&& pre.config.font matches Some(cfg) ==> {
        let want = crate::state::clamp(pre.font_level + step, cfg.min as int, cfg.max as int);
        &&& cfg.min <= want <= cfg.max
        &&& post.font_level == want
        &&& want == pre.font_level ==> message_only(pre, post) && says(
            post.message,
            if step > 0 {
                tr_spec(pre.lang, "already the largest"@, "これ以上大きくできません"@)
            } else {
                tr_spec(pre.lang, "already the smallest"@, "これ以上小さくできません"@)
            },
        )
        &&& want != pre.font_level ==> exists|mid: App|
            #![trigger font_ran(mid, post, cfg, want, step as int)]
            {
                &&& mid == (App { font_level: want as i64, effects: mid.effects, ..pre })
                &&& mid.effects@.len() == pre.effects@.len() + 1
                &&& mid.effects@.drop_last() == pre.effects@
                &&& mid.effects@.last() matches Effect::StateSet { key, value } && key@
                    == "font_level"@ && value@ == int_decimal(want)
                &&& font_ran(mid, post, cfg, want, step as int)
            }
    }
}

impl App {
    /// The saved level (`saved`, as read from the state file), or where the
    /// config says to start.
    pub fn font_level_start(cfg: &FontOptions, saved: Option<String>) -> (level: i64)
        ensures
            level == start_level(*cfg, crate::chat::opt_view(saved)),
    {
        match saved {
            Some(s) => match parse_i64(s.as_str()) {
                Some(v) => if cfg.min <= v && v <= cfg.max {
                    v
                } else {
                    cfg.start
                },
                None => cfg.start,
            },
            None => cfg.start,
        }
    }

    fn run_font_command(&mut self, cfg: &FontOptions, level: i64, step: i64)
        ensures
            font_ran(*old(self), *final(self), *cfg, level as int, step as int),
    {
        let cmd = match &cfg.set {
            Some(t) => {
                let tc = chars_of(t.as_str());
                let lv = chars_of(int_string(level).as_str());
                let braces = vec!['{', '}'];
                proof {
                    reveal_strlit("{}");
                    assert("{}"@ =~= braces@);
                }
                if contains_chars(tc.as_slice(), braces.as_slice()) {
                    string_of(crate::shell::replace_chars(tc.as_slice(), braces.as_slice(), lv.as_slice()).as_slice())
                } else {
                    let mut c = t.clone();
                    push_chars(&mut c, chars_of(" ").as_slice());
                    push_chars(&mut c, lv.as_slice());
                    c
                }
            },
            None => {
                if step > 0 {
                    match &cfg.bigger {
                        Some(c) => c.clone(),
                        None => return ,
                    }
                } else {
                    match &cfg.smaller {
                        Some(c) => c.clone(),
                        None => return ,
                    }
                }
            },
        };
        let lv = chars_of(int_string(level).as_str());
        self.message = Some(tr_with(self.lang, "font ", "フォント ", lv.as_slice()));
        let ghost e0 = self.effects@;
        self.effects.push(Effect::RunFontCommand { cmd });
        assert(self.effects@.drop_last() =~= e0);
    }

    /// Put the remembered size back, once, at startup — only with the
    /// absolute (`set`) form, and only when it differs from the start.
    pub fn apply_saved_font(&mut self, saved: Option<String>)
        ensures
            old(self).config.font is None ==> *final(self) == *old(self),
            old(self).config.font matches Some(cfg) ==> {
                let level = start_level(cfg, crate::chat::opt_view(saved));
                let mid = App { font_level: level, ..*old(self) };
                &&& cfg.set is Some && level != cfg.start ==> font_ran(mid, *final(self), cfg, level as int, 0)
                &&& !(cfg.set is Some && level != cfg.start) ==> *final(self) == mid
            },
    {
        let level = match &self.config.font {
            Some(cfg) => Self::font_level_start(cfg, saved),
            None => return ,
        };
        self.font_level = level;
        let (has_set, start) = match &self.config.font {
            Some(cfg) => (cfg.set.is_some(), cfg.start),
            None => return ,
        };
        if has_set && level != start {
            let cfg = clone_font(self.config.font.as_ref().unwrap());
            self.run_font_command(&cfg, level, 0);
        }
    }

    /// `Ctrl++` / `Ctrl+-` (`step` is +1 or -1): one step, never past the
    /// configured range; at an end it says so, and without `cian.font{}` it
    /// says where the setting is. The new level is remembered.
    pub fn font_step(&mut self, step: i64)
        requires
            old(self).config.font matches Some(cfg) ==> cfg.min <= cfg.max,
            i64::MIN <= old(self).font_level + step <= i64::MAX,
        ensures
            font_stepped(*old(self), *final(self), step),
    {
        let (min, max) = match &self.config.font {
            Some(cfg) => (cfg.min, cfg.max),
            None => {
                self.message = Some(
                    tr_string(
                        self.lang,
                        "font size is the terminal's own — see cian.font{} in init.lua",
                        "フォントサイズは端末側の設定です — init.lua の cian.font{} を参照",
                    ),
                );
                return ;
            },
        };
        let raw = self.font_level + step;
        let want = if raw < min {
            min
        } else if raw > max {
            max
        } else {
            raw
        };
        if want == self.font_level {
            self.message = Some(
                if step > 0 {
                    tr_string(self.lang, "already the largest", "これ以上大きくできません")
                } else {
                    tr_string(self.lang, "already the smallest", "これ以上小さくできません")
                },
            );
            return ;
        }
        self.font_level = want;
        let ghost e0 = self.effects@;
        self.effects.push(Effect::StateSet { key: "font_level".to_owned(), value: int_string(want) });
        assert(self.effects@.drop_last() =~= e0);
        let ghost mid = *self;
        let cfg = clone_font(self.config.font.as_ref().unwrap());
        self.run_font_command(&cfg, want, step);
        assert(font_ran(mid, *self, cfg, want as int, step as int));
    }
}

fn clone_font(f: &FontOptions) -> (out: FontOptions)
    ensures
        out == *f,
{
    FontOptions {
        set: match &f.set {
            Some(s) => Some(s.clone()),
            None => None,
        },
        bigger: match &f.bigger {
            Some(s) => Some(s.clone()),
            None => None,
        },
        smaller: match &f.smaller {
            Some(s) => Some(s.clone()),
            None => None,
        },
        start: f.start,
        min: f.min,
        max: f.max,
    }
}

} // verus!
