//! The `:` command line: entering it, putting text on it, walking its
//! history, and the builtins that need no more than the selection (`pwd`,
//! `zip`, `tar`).
use vstd::prelude::*;

use crate::actions::{is_prompt, message_only, popup_only, text_input};
use crate::lang::{tr_spec, tr_string};
use crate::ops::op_started;
use crate::state::{path_views, says, App, CommandLine, Effect, InputKind, Mode, OpWork, Popup};
use crate::text::{chars_of, ends_with, join_path, lowercase, path_join, push_chars, starts_with, str_eq, views};

verus! {

/// `b` is the command line `a` after one step through its history (`step`
/// is -1 for older, anything else for newer). The first step back keeps
/// what was being typed as the draft; stepping past the newest line brings
/// the draft back (and empties it); the caret goes to the end. Stepping
/// forward while not in the history leaves the line as it is.
pub open spec fn walked(a: CommandLine, b: CommandLine, step: i32) -> bool {
    let n = a.history@.len();
    if a.hist_at is None && step != -1 {
        b == a
    } else {
        let at: Option<usize> = match a.hist_at {
            None => Some((n - 1) as usize),
            Some(i) => if step == -1 {
                if i == 0 {
                    Some(0usize)
                } else {
                    Some((i - 1) as usize)
                }
            } else if i + 1 < n {
                Some((i + 1) as usize)
            } else {
                None
            },
        };
        let draft: Seq<char> = if a.hist_at is None {
            a.buffer@
        } else {
            a.draft@
        };
        &&& b.history == a.history
        &&& b.hist_at == at
        &&& match at {
            Some(i) => b.buffer@ == a.history@[i as int]@ && b.draft@ == draft,
            None => b.buffer@ == draft && b.draft@.len() == 0,
        }
        &&& b.cursor == b.buffer@.len()
    }
}

/// Stepping back once from the line being typed and forward again gives
/// that line back, with the history walk over.
pub proof fn lemma_walk_back_forward(a: CommandLine, b: CommandLine, c: CommandLine)
    requires
        a.hist_at is None,
        a.history@.len() > 0,
        walked(a, b, -1i32),
        walked(b, c, 1i32),
    ensures
        c.buffer@ == a.buffer@,
        c.hist_at is None,
        c.history == a.history,
{
    vstd::std_specs::vec::axiom_spec_len(&a.history);
}

/// `post` is `pre` after `App::enter_command_mode`.
pub open spec fn command_mode_entered(pre: App, post: App) -> bool {
    &&& post == (App {
        mode: Mode::Command,
        cmd: CommandLine {
            buffer: post.cmd.buffer,
            cursor: 0,
            hist_at: None,
            ..pre.cmd
        },
        ..pre
    })
    &&& post.cmd.buffer@.len() == 0
}

impl App {
    /// Enter the `:` command line, empty.
    pub fn enter_command_mode(&mut self)
        ensures
            command_mode_entered(*old(self), *final(self)),
    {
        self.cmd.buffer = String::new();
        self.cmd.cursor = 0;
        self.cmd.hist_at = None;
        self.mode = Mode::Command;
    }

    /// Put `text` on the `:` line with the caret after it.
    pub fn set_command_line(&mut self, text: String)
        ensures
            *final(self) == (App {
                cmd: CommandLine { buffer: text, cursor: text@.len() as usize, ..old(self).cmd },
                ..*old(self)
            }),
    {
        let n = chars_of(text.as_str()).len();
        self.cmd.buffer = text;
        self.cmd.cursor = n;
    }

    /// ↑ and ↓ on the `:` line: the lines already run, newest last.
    pub fn walk_command_history(&mut self, step: i32)
        requires
            old(self).cmd.hist_at matches Some(i) ==> i < old(self).cmd.history@.len(),
        ensures
            old(self).cmd.history@.len() == 0 ==> *final(self) == *old(self),
            old(self).cmd.history@.len() > 0 ==> {
                &&& *final(self) == (App { cmd: final(self).cmd, ..*old(self) })
                &&& walked(old(self).cmd, final(self).cmd, step)
            },
    {
        let n = self.cmd.history.len();
        if n == 0 {
            return ;
        }
        let at: Option<usize> = match self.cmd.hist_at {
            None => if step == -1 {
                self.cmd.draft = self.cmd.buffer.clone();
                Some(n - 1)
            } else {
                return ;
            },
            Some(i) => if step == -1 {
                if i == 0 {
                    Some(0)
                } else {
                    Some(i - 1)
                }
            } else if i + 1 < n {
                Some(i + 1)
            } else {
                None
            },
        };
        self.cmd.hist_at = at;
        match at {
            Some(i) => {
                self.cmd.buffer = self.cmd.history[i].clone();
            },
            None => {
                let mut d = String::new();
                std::mem::swap(&mut d, &mut self.cmd.draft);
                self.cmd.buffer = d;
            },
        }
        self.cmd.cursor = chars_of(self.cmd.buffer.as_str()).len();
    }

    /// `pwd`: show the active pane's directory and put it on the clipboard.
    pub fn cmd_pwd(&mut self)
        ensures
            old(self).active() is None ==> message_only(*old(self), *final(self)) && says(
                final(self).message,
                tr_spec(old(self).lang, "no active pane"@, "アクティブなペインがありません"@),
            ),
            old(self).active() matches Some(p) ==> {
                &&& *final(self) == (App {
                    message: final(self).message,
                    effects: final(self).effects,
                    ..*old(self)
                })
                &&& final(self).effects@.len() == old(self).effects@.len() + 1
                &&& final(self).effects@.drop_last() == old(self).effects@
                &&& final(self).effects@.last() matches Effect::SetClipboard { text } && text@ == p.cwd@
                &&& says(final(self).message, p.cwd@ + "  (copied)"@)
            },
    {
        let path = match self.active_pane() {
            Some(p) => p.cwd.clone(),
            None => {
                self.message = Some(tr_string(self.lang, "no active pane", "アクティブなペインがありません"));
                return ;
            },
        };
        let mut m = path.clone();
        push_chars(&mut m, chars_of("  (copied)").as_slice());
        let ghost e0 = self.effects@;
        self.effects.push(Effect::SetClipboard { text: path });
        assert(self.effects@.drop_last() =~= e0);
        self.message = Some(m);
    }

    /// What `:count` counts: the marked entries, else the one under the
    /// cursor (never `..`).
    pub fn count_targets(&self) -> (out: Vec<String>)
        ensures
            path_views(out@) == self.targets(),
    {
        self.target_paths()
    }
}

/// The first argument that is not a flag.
pub open spec fn first_name_arg(args: Seq<Seq<char>>) -> Option<Seq<char>>
    decreases args.len(),
{
    if args.len() == 0 {
        None
    } else if starts_with(args[0], "-"@) {
        first_name_arg(args.drop_first())
    } else {
        Some(args[0])
    }
}

/// `name`, with `ext` added unless it already ends with one of `exts`
/// (whatever the case).
pub open spec fn with_ext(name: Seq<char>, exts: Seq<Seq<char>>, ext: Seq<char>) -> Seq<char> {
    if exists|i: int| 0 <= i < exts.len() && ends_with(lowercase(name), exts[i]) {
        name
    } else {
        name + ext
    }
}

fn first_name_arg_exec(args: &[String]) -> (r: Option<String>)
    ensures
        match r {
            Some(n) => first_name_arg(views(args@)) == Some(n@),
            None => first_name_arg(views(args@)) is None,
        },
{
    let mut i: usize = 0;
    assert(views(args@).skip(0) =~= views(args@));
    while i < args.len()
        invariant
            i <= args@.len(),
            first_name_arg(views(args@)) == first_name_arg(views(args@).skip(i as int)),
        decreases args.len() - i,
    {
        let ghost rest = views(args@).skip(i as int);
        assert(rest[0] == args@[i as int]@);
        assert(rest.drop_first() =~= views(args@).skip(i + 1));
        let a = chars_of(args[i].as_str());
        let dash = chars_of("-");
        if !crate::text::has_prefix(a.as_slice(), dash.as_slice()) {
            return Some(args[i].clone());
        }
        i += 1;
    }
    assert(views(args@).skip(i as int) =~= seq![]);
    None
}

fn has_arg(args: &[String], want: &str) -> (b: bool)
    ensures
        b == views(args@).contains(want@),
{
    let mut i: usize = 0;
    while i < args.len()
        invariant
            i <= args@.len(),
            forall|j: int| 0 <= j < i ==> args@[j]@ != want@,
        decreases args.len() - i,
    {
        if str_eq(args[i].as_str(), want) {
            assert(views(args@)[i as int] == want@);
            return true;
        }
        i += 1;
    }
    assert forall|j: int| 0 <= j < views(args@).len() implies views(args@)[j] != want@ by {
        assert(views(args@)[j] == args@[j]@);
    }
    false
}

fn add_ext(name: &str, exts: &[&str], ext: &str) -> (out: String)
    ensures
        out@ == with_ext(name@, Seq::new(exts@.len(), |i: int| exts@[i]@), ext@),
{
    let ghost ev = Seq::new(exts@.len(), |i: int| exts@[i]@);
    let low = chars_of(crate::text::to_lowercase(name).as_str());
    let mut i: usize = 0;
    while i < exts.len()
        invariant
            i <= exts@.len(),
            low@ == lowercase(name@),
            ev == Seq::new(exts@.len(), |i: int| exts@[i]@),
            forall|j: int| 0 <= j < i ==> !ends_with(lowercase(name@), ev[j]),
        decreases exts.len() - i,
    {
        if crate::text::has_suffix(low.as_slice(), chars_of(exts[i]).as_slice()) {
            assert(ends_with(lowercase(name@), ev[i as int]));
            return name.to_owned();
        }
        i += 1;
    }
    let mut out = name.to_owned();
    push_chars(&mut out, chars_of(ext).as_slice());
    out
}

/// `b` is `a` after making the archive `dest` of `sources`: refused with a
/// message when the caller's look says `dest` exists, else either the
/// password prompt (`encrypt`) or the operation `label` doing `work`.
pub open spec fn archive_made<F: Fn(&String) -> bool>(
    a: App,
    b: App,
    is_there: F,
    dest: Seq<char>,
    fname: Seq<char>,
    then: spec_fn(App, App) -> bool,
) -> bool {
    ||| crate::archive::seen_there(is_there, dest) && message_only(a, b) && says(
        b.message,
        tr_spec(a.lang, "already exists: "@ + fname, "既に存在します: "@ + fname),
    )
    ||| crate::archive::seen_absent(is_there, dest) && then(a, b)
}

impl App {
    /// `zip [-e] <name>`: zip the selection into the active pane's
    /// directory (`.zip` added when missing); `-e` (or `-p`) asks for a
    /// password first. `is_there` is the caller's look at the disk.
    pub fn cmd_zip<F: Fn(&String) -> bool>(&mut self, args: &[String], is_there: F, now: u64)
        requires
            forall|p: String| call_requires(is_there, (&p,)),
        ensures
            ({
                let av = views(args@);
                let encrypt = av.contains("-e"@) || av.contains("-p"@);
                &&& first_name_arg(av) is None ==> message_only(*old(self), *final(self)) && says(
                    final(self).message,
                    tr_spec(old(self).lang, "usage: :zip [-e] <name.zip>"@, "使い方: :zip [-e] <名前.zip>"@),
                )
                &&& first_name_arg(av) is Some && old(self).targets().len() == 0 ==> message_only(
                    *old(self),
                    *final(self),
                ) && says(
                    final(self).message,
                    tr_spec(
                        old(self).lang,
                        "nothing selected to zip"@,
                        "zip にする対象が選択されていません"@,
                    ),
                )
                &&& first_name_arg(av) matches Some(name) ==> (old(self).targets().len() > 0 ==> (old(
                    self,
                ).active() matches Some(p) ==> {
                    let fname = with_ext(name, seq![".zip"@], ".zip"@);
                    let dest = path_join(p.cwd@, fname);
                    let targets = old(self).targets();
                    archive_made(
                        *old(self),
                        *final(self),
                        is_there,
                        dest,
                        fname,
                        |a: App, b: App|
                            if encrypt {
                                &&& popup_only(a, b)
                                &&& is_prompt(
                                    b.popup,
                                    "zip password"@,
                                    "password (AES-256; Explorer cannot open — use 7-Zip):"@,
                                    seq![],
                                )
                                &&& b.popup matches Popup::TextInput { kind, .. } && kind matches InputKind::ZipPassword {
                                    dest: d,
                                    sources,
                                } && d@ == dest && path_views(sources@) == targets
                            } else {
                                op_started(
                                    a,
                                    b,
                                    "zipping"@,
                                    |w: OpWork|
                                        w matches OpWork::Zip { dest: d, sources, password: None } && d@
                                            == dest && path_views(sources@) == targets,
                                    now,
                                )
                            },
                    )
                }))
            }),
    {
        let encrypt = has_arg(args, "-e") || has_arg(args, "-p");
        let name = match first_name_arg_exec(args) {
            Some(n) => n,
            None => {
                self.message = Some(
                    tr_string(self.lang, "usage: :zip [-e] <name.zip>", "使い方: :zip [-e] <名前.zip>"),
                );
                return ;
            },
        };
        let sources = self.target_paths();
        if sources.len() == 0 {
            self.message = Some(
                tr_string(self.lang, "nothing selected to zip", "zip にする対象が選択されていません"),
            );
            return ;
        }
        let cwd = match self.active_pane() {
            Some(p) => p.cwd.clone(),
            None => return ,
        };
        let exts: [&str; 1] = [".zip"];
        let fname = add_ext(name.as_str(), &exts, ".zip");
        assert(Seq::new(exts@.len(), |i: int| exts@[i]@) =~= seq![".zip"@]);
        let dest = join_path(cwd.as_str(), fname.as_str());
        if is_there(&dest) {
            self.message = Some(
                crate::lang::tr_with(
                    self.lang,
                    "already exists: ",
                    "既に存在します: ",
                    chars_of(fname.as_str()).as_slice(),
                ),
            );
            return ;
        }
        if encrypt {
            let p = text_input(
                "zip password",
                "password (AES-256; Explorer cannot open — use 7-Zip):",
                String::new(),
                InputKind::ZipPassword { dest, sources },
            );
            self.open_popup(p);
        } else {
            self.start_op("zipping", OpWork::Zip { dest, sources, password: None }, now);
        }
    }

    /// `:tar <name>` / `:targz <name>`: tar the selection into the active
    /// pane's directory (`.tar` or `.tar.gz` added when missing).
    pub fn cmd_tar<F: Fn(&String) -> bool>(&mut self, args: &[String], gz: bool, is_there: F, now: u64)
        requires
            forall|p: String| call_requires(is_there, (&p,)),
        ensures
            ({
                let av = views(args@);
                &&& first_name_arg(av) is None ==> message_only(*old(self), *final(self)) && says(
                    final(self).message,
                    if gz {
                        "usage: :targz <name>"@
                    } else {
                        "usage: :tar <name>"@
                    },
                )
                &&& first_name_arg(av) is Some && old(self).targets().len() == 0 ==> message_only(
                    *old(self),
                    *final(self),
                ) && says(
                    final(self).message,
                    tr_spec(
                        old(self).lang,
                        "nothing selected to archive"@,
                        "アーカイブにする対象が選択されていません"@,
                    ),
                )
                &&& first_name_arg(av) matches Some(name) ==> (old(self).targets().len() > 0 ==> (old(
                    self,
                ).active() matches Some(p) ==> {
                    let fname = if gz {
                        with_ext(name, seq![".tar.gz"@, ".tgz"@], ".tar.gz"@)
                    } else {
                        with_ext(name, seq![".tar"@], ".tar"@)
                    };
                    let dest = path_join(p.cwd@, fname);
                    let targets = old(self).targets();
                    archive_made(
                        *old(self),
                        *final(self),
                        is_there,
                        dest,
                        fname,
                        |a: App, b: App|
                            op_started(
                                a,
                                b,
                                if gz {
                                    "tarring gz"@
                                } else {
                                    "tarring"@
                                },
                                |w: OpWork|
                                    w matches OpWork::Tar { dest: d, sources, gz: g } && d@ == dest
                                        && path_views(sources@) == targets && g == gz,
                                now,
                            ),
                    )
                }))
            }),
    {
        let name = match first_name_arg_exec(args) {
            Some(n) => n,
            None => {
                self.message = Some(
                    if gz {
                        "usage: :targz <name>".to_owned()
                    } else {
                        "usage: :tar <name>".to_owned()
                    },
                );
                return ;
            },
        };
        let sources = self.target_paths();
        if sources.len() == 0 {
            self.message = Some(
                tr_string(
                    self.lang,
                    "nothing selected to archive",
                    "アーカイブにする対象が選択されていません",
                ),
            );
            return ;
        }
        let cwd = match self.active_pane() {
            Some(p) => p.cwd.clone(),
            None => return ,
        };
        let fname = if gz {
            let exts: [&str; 2] = [".tar.gz", ".tgz"];
            let f = add_ext(name.as_str(), &exts, ".tar.gz");
            assert(Seq::new(exts@.len(), |i: int| exts@[i]@) =~= seq![".tar.gz"@, ".tgz"@]);
            f
        } else {
            let exts: [&str; 1] = [".tar"];
            let f = add_ext(name.as_str(), &exts, ".tar");
            assert(Seq::new(exts@.len(), |i: int| exts@[i]@) =~= seq![".tar"@]);
            f
        };
        let dest = join_path(cwd.as_str(), fname.as_str());
        if is_there(&dest) {
            self.message = Some(
                crate::lang::tr_with(
                    self.lang,
                    "already exists: ",
                    "既に存在します: ",
                    chars_of(fname.as_str()).as_slice(),
                ),
            );
            return ;
        }
        let label = if gz {
            "tarring gz"
        } else {
            "tarring"
        };
        self.start_op(label, OpWork::Tar { dest, sources, gz }, now);
    }
}

} // verus!
