//! Extracting archives: where the files go (a fresh folder named after the
//! archive, or the other pane), and asking for a password first when the
//! zip is encrypted.
use vstd::prelude::*;

use crate::actions::{is_prompt, message_only, text_input};
use crate::count::{decimal, decimal_chars};
use crate::lang::{tr_spec, tr_string};
use crate::ops::{dests_after, op_started};
use crate::state::{says, App, InputKind, OpWork, Popup};
use crate::text::{chars_of, extend_chars, join_path, path_join, slice_vec, string_of, views};

verus! {

/// `c` with ASCII capitals made small.
pub open spec fn ascii_lower(c: char) -> char {
    if 'A' <= c && c <= 'Z' {
        ((c as u32) + 32) as char
    } else {
        c
    }
}

/// Does `s` end with the lowercase `suf`, ignoring ASCII case?
pub open spec fn ends_with_ci(s: Seq<char>, suf: Seq<char>) -> bool {
    s.len() >= suf.len() && forall|i: int|
        0 <= i < suf.len() ==> ascii_lower(s[s.len() - suf.len() + i]) == suf[i]
}

/// The position of the last `'.'` in `s`, if any.
pub open spec fn last_dot(s: Seq<char>) -> Option<int>
    decreases s.len(),
{
    if s.len() == 0 {
        None
    } else if s.last() == '.' {
        Some(s.len() - 1)
    } else {
        last_dot(s.drop_last())
    }
}

/// An archive's name without its extension, the two-part `.tar.gz`,
/// `.tar.bz2`, `.tar.xz` and `.tgz` taken whole (`proj.tar.gz` → `proj`);
/// a name whose only dot leads it is kept as it is.
pub open spec fn archive_stem_spec(name: Seq<char>) -> Seq<char> {
    if ends_with_ci(name, ".tar.gz"@) {
        name.take(name.len() - 7)
    } else if ends_with_ci(name, ".tar.bz2"@) {
        name.take(name.len() - 8)
    } else if ends_with_ci(name, ".tar.xz"@) {
        name.take(name.len() - 7)
    } else if ends_with_ci(name, ".tgz"@) {
        name.take(name.len() - 4)
    } else {
        match last_dot(name) {
            Some(i) if i > 0 => name.take(i),
            _ => name,
        }
    }
}

fn lower_ascii(c: char) -> (r: char)
    ensures
        r == ascii_lower(c),
{
    if 'A' <= c && c <= 'Z' {
        let b = (c as u32) as u8;
        ((b + 32) as char)
    } else {
        c
    }
}

fn ends_ci(cs: &[char], suf: &[char]) -> (b: bool)
    ensures
        b == ends_with_ci(cs@, suf@),
{
    if suf.len() > cs.len() {
        return false;
    }
    let off = cs.len() - suf.len();
    let mut i: usize = 0;
    while i < suf.len()
        invariant
            suf.len() <= cs.len(),
            off == cs.len() - suf.len(),
            i <= suf.len(),
            forall|j: int| 0 <= j < i ==> ascii_lower(cs@[off + j]) == suf@[j],
        decreases suf.len() - i,
    {
        if lower_ascii(cs[off + i]) != suf[i] {
            return false;
        }
        i += 1;
    }
    true
}

fn last_dot_exec(cs: &[char]) -> (r: Option<usize>)
    ensures
        match r {
            Some(i) => last_dot(cs@) == Some(i as int) && i < cs@.len(),
            None => last_dot(cs@) is None,
        },
{
    let mut i = cs.len();
    assert(cs@.take(i as int) =~= cs@);
    while i > 0
        invariant
            i <= cs.len(),
            last_dot(cs@) == last_dot(cs@.take(i as int)),
        decreases i,
    {
        assert(cs@.take(i as int).drop_last() =~= cs@.take(i - 1));
        assert(cs@.take(i as int).last() == cs@[i - 1]);
        if cs[i - 1] == '.' {
            return Some(i - 1);
        }
        i -= 1;
    }
    None
}

/// The base name of an archive without its extension.
pub fn archive_stem(name: &str) -> (out: String)
    ensures
        out@ == archive_stem_spec(name@),
{
    let cs = chars_of(name);
    let n = cs.len();
    let a = chars_of(".tar.gz");
    if ends_ci(cs.as_slice(), a.as_slice()) {
        proof {
            reveal_strlit(".tar.gz");
        }
        return string_of(slice_vec(cs.as_slice(), 0, n - 7).as_slice());
    }
    let b = chars_of(".tar.bz2");
    if ends_ci(cs.as_slice(), b.as_slice()) {
        proof {
            reveal_strlit(".tar.bz2");
        }
        return string_of(slice_vec(cs.as_slice(), 0, n - 8).as_slice());
    }
    let c = chars_of(".tar.xz");
    if ends_ci(cs.as_slice(), c.as_slice()) {
        proof {
            reveal_strlit(".tar.xz");
        }
        return string_of(slice_vec(cs.as_slice(), 0, n - 7).as_slice());
    }
    let d = chars_of(".tgz");
    if ends_ci(cs.as_slice(), d.as_slice()) {
        proof {
            reveal_strlit(".tgz");
        }
        return string_of(slice_vec(cs.as_slice(), 0, n - 4).as_slice());
    }
    match last_dot_exec(cs.as_slice()) {
        Some(i) if i > 0 => string_of(slice_vec(cs.as_slice(), 0, i).as_slice()),
        _ => string_of(cs.as_slice()),
    }
}

/// The `k`-th folder name tried for an extraction: `stem`, then `stem-1`,
/// `stem-2`, …
pub open spec fn candidate(parent: Seq<char>, stem: Seq<char>, k: nat) -> Seq<char> {
    if k == 0 {
        path_join(parent, stem)
    } else {
        path_join(parent, stem + "-"@ + decimal(k))
    }
}

/// Did `is_there` say, on some call, that `p` does not exist?
pub open spec fn seen_absent<F: Fn(&String) -> bool>(is_there: F, p: Seq<char>) -> bool {
    exists|s: String| s@ == p && call_ensures(is_there, (&s,), false)
}

/// Did `is_there` say, on some call, that `p` exists?
pub open spec fn seen_there<F: Fn(&String) -> bool>(is_there: F, p: Seq<char>) -> bool {
    exists|s: String| s@ == p && call_ensures(is_there, (&s,), true)
}

/// A folder under `parent` named `stem`, made unique by `-1`, `-2`, … so an
/// extraction never merges into an existing folder; `is_there` is the
/// caller's look at the disk. Should every name up to `usize::MAX` be taken,
/// the plain name is given back.
pub fn unique_dir<F: Fn(&String) -> bool>(parent: &str, stem: &str, is_there: F) -> (out: String)
    requires
        forall|p: String| call_requires(is_there, (&p,)),
    ensures
        ({
            &&& call_ensures(is_there, (&out,), false)
            &&& exists|k: nat|
                #![trigger candidate(parent@, stem@, k)]
                k <= usize::MAX && out@ == candidate(parent@, stem@, k) && forall|j: nat|
                    j < k ==> seen_there(is_there, candidate(parent@, stem@, j))
        }) || ({
            &&& out@ == candidate(parent@, stem@, 0)
            &&& forall|j: nat| j <= usize::MAX ==> seen_there(is_there, candidate(parent@, stem@, j))
        }),
{
    let sc = chars_of(stem);
    let base = join_path(parent, stem);
    if !is_there(&base) {
        assert(candidate(parent@, stem@, 0) == out_view_of(&base));
        return base;
    }
    assert(seen_there(is_there, candidate(parent@, stem@, 0)));
    let mut n: usize = 1;
    loop
        invariant
            1 <= n,
            sc@ == stem@,
            base@ == candidate(parent@, stem@, 0),
            forall|p: String| call_requires(is_there, (&p,)),
            forall|j: nat| j < n ==> seen_there(is_there, candidate(parent@, stem@, j)),
        decreases usize::MAX - n,
    {
        let mut name = sc.clone();
        name.push('-');
        extend_chars(&mut name, decimal_chars(n).as_slice());
        assert(name@ =~= stem@ + "-"@ + decimal(n as nat)) by {
            reveal_strlit("-");
        }
        let name_s = string_of(name.as_slice());
        let cand = join_path(parent, name_s.as_str());
        if !is_there(&cand) {
            assert(out_view_of(&cand) == candidate(parent@, stem@, n as nat));
            return cand;
        }
        assert(seen_there(is_there, candidate(parent@, stem@, n as nat)));
        if n == usize::MAX {
            return base;
        }
        n += 1;
    }
}

spec fn out_view_of(s: &String) -> Seq<char> {
    s@
}

/// `b` is `a` after asking to extract `members` (all when empty) of
/// `archive` into `dest`, taking `strip` off each member's path: a password
/// prompt first when the zip is encrypted (`needs_password`, the caller's
/// look at the file), else the extraction is started or queued.
pub open spec fn extract_started(
    a: App,
    b: App,
    archive: Seq<char>,
    members: Seq<Seq<char>>,
    dest: Seq<char>,
    strip: Seq<char>,
    needs_password: bool,
    now: u64,
) -> bool {
    &&& needs_password ==> {
        &&& b == (App { popup: b.popup, ..a })
        &&& is_prompt(b.popup, "encrypted zip"@, "password:"@, seq![])
        &&& b.popup matches Popup::TextInput { kind, .. } && kind matches InputKind::ExtractPassword {
            archive: a2,
            members: m2,
            dest: d2,
            strip: s2,
        } && a2@ == archive && views(m2@) == members && d2@ == dest && s2@ == strip
    }
    &&& !needs_password ==> op_started(
        a,
        b,
        "extracting"@,
        |w: OpWork|
            w matches OpWork::Extract { archive: a2, members: m2, dest: d2, password: None, strip: s2 }
                && a2@ == archive && views(m2@) == members && d2@ == dest && s2@ == strip,
        now,
    )
}

/// The members an extraction from the archive view takes: all (none
/// named) or the one under the cursor.
pub open spec fn chosen_members(members: Seq<Seq<char>>, cursor: int, all: bool) -> Seq<Seq<char>> {
    if all {
        seq![]
    } else {
        seq![members[cursor]]
    }
}

impl App {
    /// Extract with a path prefix taken off each member (copying a folder
    /// out of an archive must not rebuild the whole tree above it).
    pub fn start_extract_stripped(
        &mut self,
        archive: String,
        members: Vec<String>,
        dest: String,
        strip: String,
        needs_password: bool,
        now: u64,
    )
        ensures
            extract_started(
                *old(self),
                *final(self),
                archive@,
                views(members@),
                dest@,
                strip@,
                needs_password,
                now,
            ),
    {
        if needs_password {
            self.open_popup(
                text_input(
                    "encrypted zip",
                    "password:",
                    String::new(),
                    InputKind::ExtractPassword { archive, members, dest, strip },
                ),
            );
        } else {
            self.start_op(
                "extracting",
                OpWork::Extract { archive, members, dest, password: None, strip },
                now,
            );
        }
    }

    /// Extract `members` (empty = all) of `archive` into `dest`.
    pub fn start_extract(
        &mut self,
        archive: String,
        members: Vec<String>,
        dest: String,
        needs_password: bool,
        now: u64,
    )
        ensures
            extract_started(
                *old(self),
                *final(self),
                archive@,
                views(members@),
                dest@,
                seq![],
                needs_password,
                now,
            ),
    {
        self.start_extract_stripped(archive, members, dest, String::new(), needs_password, now);
    }

    /// Pull the member under the cursor (or, with `all`, everything) out of
    /// the open archive into the opposite pane, which becomes a recent
    /// destination.
    pub fn extract_from_archive(&mut self, all: bool, needs_password: bool, now: u64)
        ensures
            !(old(self).popup is Archive) ==> *final(self) == *old(self),
            old(self).popup matches Popup::Archive { path, members, cursor } ==> {
                &&& !all && cursor >= members@.len() ==> *final(self) == *old(self)
                &&& (all || cursor < members@.len()) && old(self).opposite() is None ==> message_only(
                    *old(self),
                    *final(self),
                ) && says(
                    final(self).message,
                    tr_spec(old(self).lang, "no destination pane"@, "宛先のペインがありません"@),
                )
                &&& (all || cursor < members@.len()) ==> (old(self).opposite() matches Some(o) ==> exists|
                    mid: App,
                |
                    #![trigger extract_started(mid, *final(self), path@, chosen_members(views(members@), cursor as int, all), o.cwd@, seq![], needs_password, now)]
                    {
                        &&& mid == (App {
                            popup: Popup::Closed,
                            ops: crate::state::OpState {
                                dest_history: mid.ops.dest_history,
                                ..old(self).ops
                            },
                            ..*old(self)
                        })
                        &&& views(mid.ops.dest_history@) == dests_after(
                            views(old(self).ops.dest_history@),
                            o.cwd@,
                            old(self).ops.dest_history_cap as nat,
                        )
                        &&& extract_started(
                            mid,
                            *final(self),
                            path@,
                            chosen_members(views(members@), cursor as int, all),
                            o.cwd@,
                            seq![],
                            needs_password,
                            now,
                        )
                    })
            },
    {
        let (path, chosen) = match &self.popup {
            Popup::Archive { path, members, cursor } => {
                let chosen: Vec<String> = if all {
                    Vec::new()
                } else if *cursor < members.len() {
                    let mut v: Vec<String> = Vec::new();
                    v.push(members[*cursor].clone());
                    v
                } else {
                    return ;
                };
                (path.clone(), chosen)
            },
            _ => return ,
        };
        let ghost chosen_view = views(chosen@);
        assert(chosen_view =~= match self.popup {
            Popup::Archive { members, cursor, .. } => chosen_members(views(members@), cursor as int, all),
            _ => seq![],
        });
        let dest = match self.opposite_cwd() {
            Some(d) => d,
            None => {
                self.message = Some(
                    tr_string(self.lang, "no destination pane", "宛先のペインがありません"),
                );
                return ;
            },
        };
        self.popup = Popup::Closed;
        self.remember_dest(dest.as_str());
        let ghost mid = *self;
        self.start_extract(path, chosen, dest, needs_password, now);
    }
}

} // verus!
