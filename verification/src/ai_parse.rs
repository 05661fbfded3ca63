//! Parsing and sanitising of AI replies: pulling a command, a commit message,
//! or a bounded payload out of free-form model output.
use vstd::prelude::*;

use crate::text::{
    byte_len, lemma_byte_len_take, char_len_utf8, chars_of, has_prefix, join, join_chars, lemma_byte_len_push, lines,
    seqs_of, skip_ws_start, slice_vec, split_lines, starts_with, string_of, strip_char,
    strip_char_range, trim, trim_chars, trim_start,
};

verus! {

/// A Markdown code fence.
pub open spec fn fence() -> Seq<char> {
    seq!['`', '`', '`']
}

/// The command in a reply: the first line that is neither blank nor a fence,
/// trimmed, stripped of surrounding backticks, trimmed again.
pub open spec fn first_command(ls: Seq<Seq<char>>) -> Seq<char>
    decreases ls.len(),
{
    if ls.len() == 0 {
        seq![]
    } else {
        let t = trim(ls[0]);
        if t.len() == 0 || starts_with(t, fence()) {
            first_command(ls.drop_first())
        } else {
            trim(strip_char(t, '`'))
        }
    }
}

/// Index of the last line that is exactly a closing fence (once trimmed).
pub open spec fn last_fence(ls: Seq<Seq<char>>) -> Option<int>
    decreases ls.len(),
{
    if ls.len() == 0 {
        None
    } else if trim(ls.last()) == fence() {
        Some(ls.len() - 1)
    } else {
        last_fence(ls.drop_last())
    }
}

/// The lines of a reply with a leading ```-fence and its last closing fence
/// (and everything after it) removed; unchanged when it does not open with a
/// fence.
pub open spec fn unfenced(ls: Seq<Seq<char>>) -> Seq<Seq<char>> {
    if ls.len() > 0 && starts_with(trim_start(ls[0]), fence()) {
        let rest = ls.drop_first();
        match last_fence(rest) {
            Some(p) => rest.take(p),
            None => rest,
        }
    } else {
        ls
    }
}

/// Whole lines of `ls`, each followed by a newline, for as long as the running
/// byte count `used` stays within `max`.
pub open spec fn kept_lines(ls: Seq<Seq<char>>, max: nat, used: nat) -> Seq<char>
    decreases ls.len(),
{
    if ls.len() == 0 {
        seq![]
    } else if used + byte_len(ls[0]) + 1 > max {
        seq![]
    } else {
        ls[0].push('\n') + kept_lines(ls.drop_first(), max, used + byte_len(ls[0]) + 1)
    }
}

/// The longest prefix of `s` whose UTF-8 encoding fits in `max` bytes.
pub open spec fn prefix_within(s: Seq<char>, max: nat) -> Seq<char>
    decreases s.len(),
{
    if byte_len(s) <= max {
        s
    } else {
        prefix_within(s.drop_last(), max)
    }
}

/// Like `kept_lines`, except that a first line too long to fit on its own is
/// cut to the longest prefix that does.
pub open spec fn kept_text(ls: Seq<Seq<char>>, max: nat, used: nat) -> Seq<char>
    decreases ls.len(),
{
    if ls.len() == 0 {
        seq![]
    } else if used + byte_len(ls[0]) + 1 > max {
        if used == 0 {
            prefix_within(ls[0], max)
        } else {
            seq![]
        }
    } else {
        ls[0].push('\n') + kept_text(ls.drop_first(), max, used + byte_len(ls[0]) + 1)
    }
}

pub open spec fn diff_marker() -> Seq<char> {
    "\n[diff truncated — summarise from what is shown above]\n"@
}

pub open spec fn text_marker() -> Seq<char> {
    "\n[truncated — summarise from what is shown above]\n"@
}

/// What `truncate_diff_for_ai` keeps of `diff` under a budget of `max` bytes.
pub open spec fn truncated_diff(diff: Seq<char>, max: nat) -> Seq<char> {
    if byte_len(diff) <= max {
        diff
    } else {
        kept_lines(lines(diff), max, 0) + diff_marker()
    }
}

/// What `truncate_text_for_ai` keeps of `text` under a budget of `max` bytes.
pub open spec fn truncated_text(text: Seq<char>, max: nat) -> Seq<char> {
    if byte_len(text) <= max {
        text
    } else {
        kept_text(lines(text), max, 0) + text_marker()
    }
}

fn fence_chars() -> (out: Vec<char>)
    ensures
        out@ == fence(),
{
    let mut out = Vec::new();
    out.push('`');
    out.push('`');
    out.push('`');
    assert(out@ =~= fence());
    out
}

/// UTF-8 length of `cs`, saturating at `usize::MAX`.
fn bytes_len_sat(cs: &[char]) -> (n: usize)
    ensures
        byte_len(cs@) <= usize::MAX ==> n == byte_len(cs@),
        byte_len(cs@) > usize::MAX ==> n == usize::MAX,
{
    let mut n: usize = 0;
    let mut i: usize = 0;
    while i < cs.len()
        invariant
            i <= cs.len(),
            byte_len(cs@.take(i as int)) <= usize::MAX ==> n == byte_len(cs@.take(i as int)),
            byte_len(cs@.take(i as int)) > usize::MAX ==> n == usize::MAX,
        decreases cs.len() - i,
    {
        proof {
            lemma_byte_len_push(cs@.take(i as int), cs@[i as int]);
            assert(cs@.take(i as int).push(cs@[i as int]) =~= cs@.take(i + 1));
        }
        let w = char_len_utf8(cs[i]);
        n = if n > usize::MAX - w { usize::MAX } else { n + w };
        i += 1;
    }
    assert(cs@.take(cs.len() as int) =~= cs@);
    n
}

/// Clean an AI-generated shell command: drop ``` fences and surrounding
/// backticks, and take the first non-empty line (models sometimes add prose).
pub fn clean_ai_command(raw: &str) -> (out: String)
    ensures
        out@ == first_command(lines(raw@)),
{
    let cs = chars_of(raw);
    let ls = split_lines(cs.as_slice());
    let fc = fence_chars();
    let mut i: usize = 0;
    assert(seqs_of(ls@).skip(0) =~= seqs_of(ls@));
    while i < ls.len()
        invariant
            i <= ls.len(),
            fc@ == fence(),
            first_command(lines(raw@)) == first_command(seqs_of(ls@).skip(i as int)),
            seqs_of(ls@) == lines(cs@),
            cs@ == raw@,
        decreases ls.len() - i,
    {
        let t = trim_chars(ls[i].as_slice());
        assert(seqs_of(ls@).skip(i as int)[0] == ls@[i as int]@);
        if t.len() == 0 || has_prefix(t.as_slice(), fc.as_slice()) {
            assert(seqs_of(ls@).skip(i as int).drop_first() =~= seqs_of(ls@).skip(i + 1));
            i += 1;
        } else {
            let (a, b) = strip_char_range(t.as_slice(), '`');
            let inner = slice_vec(t.as_slice(), a, b);
            let r = trim_chars(inner.as_slice());
            return string_of(r.as_slice());
        }
    }
    String::new()
}

/// Strip code fences and leading/trailing blank lines from an AI-drafted
/// commit message.
pub fn clean_ai_commit_message(raw: &str) -> (out: String)
    ensures
        out@ == trim(join(unfenced(lines(raw@)), seq!['\n'])),
{
    let cs = chars_of(raw);
    let mut ls = split_lines(cs.as_slice());
    let ghost all = seqs_of(ls@);
    let fc = fence_chars();
    let opens = ls.len() > 0 && {
        let f = skip_ws_start(ls[0].as_slice());
        let t0 = slice_vec(ls[0].as_slice(), f, ls[0].len());
        assert(t0@ =~= ls@[0]@.skip(f as int));
        has_prefix(t0.as_slice(), fc.as_slice())
    };
    assert(ls.len() > 0 ==> all[0] == ls@[0]@);
    if opens {
        ls.remove(0);
        assert(seqs_of(ls@) =~= all.drop_first());
        let mut j: usize = ls.len();
        let mut found: Option<usize> = None;
        assert(seqs_of(ls@).take(j as int) =~= seqs_of(ls@));
        while j > 0 && found.is_none()
            invariant
                j <= ls.len(),
                fc@ == fence(),
                seqs_of(ls@) == all.drop_first(),
                found.is_none() ==> last_fence(seqs_of(ls@)) == last_fence(
                    seqs_of(ls@).take(j as int),
                ),
                found.is_some() ==> last_fence(seqs_of(ls@)) == Some(found.unwrap() as int)
                    && found.unwrap() < ls.len(),
            decreases j,
        {
            let t = trim_chars(ls[j - 1].as_slice());
            let ghost pre = seqs_of(ls@).take(j as int);
            assert(pre.last() == ls@[j - 1]@);
            assert(pre.drop_last() =~= seqs_of(ls@).take(j - 1));
            if t.len() == 3 && t[0] == '`' && t[1] == '`' && t[2] == '`' {
                assert(t@ =~= fence());
                found = Some(j - 1);
            } else {
                assert(t@ != fence()) by {
                    if t@ == fence() {
                        assert(t@.len() == 3);
                        assert(t@[0] == '`' && t@[1] == '`' && t@[2] == '`');
                    }
                }
            }
            j -= 1;
        }
        proof {
            if found.is_none() {
                assert(seqs_of(ls@).take(0) =~= seq![]);
            }
        }
        if let Some(pos) = found {
            let ghost before = seqs_of(ls@);
            ls.truncate(pos);
            assert(seqs_of(ls@) =~= before.take(pos as int));
        }
        assert(seqs_of(ls@) == unfenced(all));
    } else {
        assert(seqs_of(ls@) == unfenced(all));
    }
    let mut nl = Vec::new();
    nl.push('\n');
    assert(nl@ =~= seq!['\n']);
    let text = join_chars(ls.as_slice(), nl.as_slice());
    let r = trim_chars(text.as_slice());
    string_of(r.as_slice())
}

proof fn lemma_prefix_within(s: Seq<char>, max: nat, k: int)
    requires
        0 <= k <= s.len(),
        byte_len(s.take(k)) <= max,
        k < s.len() ==> byte_len(s.take(k + 1)) > max,
    ensures
        prefix_within(s, max) == s.take(k),
    decreases s.len(),
{
    if k == s.len() {
        assert(s.take(k) =~= s);
    } else {
        lemma_byte_len_take(s, k + 1);
        let t = s.drop_last();
        assert(t.take(k) =~= s.take(k));
        if k < t.len() {
            assert(t.take(k + 1) =~= s.take(k + 1));
        }
        lemma_prefix_within(t, max, k);
    }
}

/// The longest prefix of `cs` that fits in `max` bytes.
fn prefix_within_exec(cs: &[char], max: usize) -> (out: Vec<char>)
    ensures
        out@ == prefix_within(cs@, max as nat),
{
    let mut k: usize = 0;
    let mut used: usize = 0;
    assert(cs@.take(0) =~= seq![]);
    loop
        invariant
            k <= cs.len(),
            used == byte_len(cs@.take(k as int)),
            used <= max,
        ensures
            k <= cs.len(),
            byte_len(cs@.take(k as int)) <= max,
            k < cs.len() ==> byte_len(cs@.take(k + 1)) > max,
        decreases cs.len() - k,
    {
        if k == cs.len() {
            break;
        }
        let w = char_len_utf8(cs[k]);
        proof {
            lemma_byte_len_push(cs@.take(k as int), cs@[k as int]);
            assert(cs@.take(k as int).push(cs@[k as int]) =~= cs@.take(k + 1));
        }
        if w > max - used {
            break;
        }
        used = used + w;
        k += 1;
    }
    proof {
        lemma_prefix_within(cs@, max as nat, k as int);
    }
    slice_vec(cs, 0, k)
}

/// Whole lines while they fit; with `cut_first`, a first line that does not
/// fit on its own is cut to the prefix that does.
fn keep_lines(ls: &Vec<Vec<char>>, max: usize, cut_first: bool) -> (out: Vec<char>)
    ensures
        !cut_first ==> out@ == kept_lines(seqs_of(ls@), max as nat, 0),
        cut_first ==> out@ == kept_text(seqs_of(ls@), max as nat, 0),
{
    let mut out: Vec<char> = Vec::new();
    let mut used: usize = 0;
    let mut i: usize = 0;
    let ghost all = seqs_of(ls@);
    assert(all.skip(0) =~= all);
    assert(out@ + kept_lines(all, max as nat, 0) =~= kept_lines(all, max as nat, 0));
    assert(out@ + kept_text(all, max as nat, 0) =~= kept_text(all, max as nat, 0));
    while i < ls.len()
        invariant
            i <= ls.len(),
            all == seqs_of(ls@),
            used <= max,
            used == 0 ==> out@.len() == 0,
            !cut_first ==> out@ + kept_lines(all.skip(i as int), max as nat, used as nat)
                == kept_lines(all, max as nat, 0),
            cut_first ==> out@ + kept_text(all.skip(i as int), max as nat, used as nat)
                == kept_text(all, max as nat, 0),
        decreases ls.len() - i,
    {
        let line = &ls[i];
        let bl = bytes_len_sat(line.as_slice());
        let ghost rest = all.skip(i as int);
        assert(rest[0] == line@);
        assert(rest.drop_first() =~= all.skip(i + 1));
        if bl >= max - used {
            if cut_first && used == 0 {
                let p = prefix_within_exec(line.as_slice(), max);
                out.extend_from_slice(p.as_slice());
                assert(out@ =~= p@);
            }
            assert(out@ + seq![] =~= out@);
            return out;
        }
        let ghost before = out@;
        out.extend_from_slice(line.as_slice());
        out.push('\n');
        assert(out@ =~= before + line@.push('\n'));
        used = used + bl + 1;
        i += 1;
    }
    assert(all.skip(i as int) =~= seq![]);
    assert(out@ + seq![] =~= out@);
    out
}

/// Does the UTF-8 length of `cs` fit in a `usize`?
fn fits_usize(cs: &[char]) -> (b: bool)
    ensures
        b == (byte_len(cs@) <= usize::MAX),
{
    let mut n: usize = 0;
    let mut i: usize = 0;
    while i < cs.len()
        invariant
            i <= cs.len(),
            n == byte_len(cs@.take(i as int)),
        decreases cs.len() - i,
    {
        proof {
            lemma_byte_len_push(cs@.take(i as int), cs@[i as int]);
            assert(cs@.take(i as int).push(cs@[i as int]) =~= cs@.take(i + 1));
        }
        let w = char_len_utf8(cs[i]);
        if n > usize::MAX - w {
            proof {
                lemma_byte_len_take(cs@, i + 1);
            }
            return false;
        }
        n = n + w;
        i += 1;
    }
    assert(cs@.take(cs.len() as int) =~= cs@);
    true
}

/// Cap a diff at roughly `max_bytes` on a line boundary so the AI request
/// stays within budget, appending a marker when truncated.
pub fn truncate_diff_for_ai(diff: &str, max_bytes: usize) -> (out: String)
    ensures
        out@ == truncated_diff(diff@, max_bytes as nat),
{
    let cs = chars_of(diff);
    let total = bytes_len_sat(cs.as_slice());
    if total < max_bytes || (total == max_bytes && total < usize::MAX) {
        return string_of(cs.as_slice());
    }
    if total == usize::MAX && max_bytes == usize::MAX && fits_usize(cs.as_slice()) {
        return string_of(cs.as_slice());
    }
    let ls = split_lines(cs.as_slice());
    let mut out = keep_lines(&ls, max_bytes, false);
    let marker = chars_of("\n[diff truncated — summarise from what is shown above]\n");
    out.extend_from_slice(marker.as_slice());
    string_of(out.as_slice())
}

/// Cap arbitrary text at roughly `max_bytes` on a line boundary (a character
/// boundary if a single line is longer), appending a marker when truncated.
pub fn truncate_text_for_ai(text: &str, max_bytes: usize) -> (out: String)
    ensures
        out@ == truncated_text(text@, max_bytes as nat),
{
    let cs = chars_of(text);
    let total = bytes_len_sat(cs.as_slice());
    if total < max_bytes || (total == max_bytes && total < usize::MAX) {
        return string_of(cs.as_slice());
    }
    if total == usize::MAX && max_bytes == usize::MAX && fits_usize(cs.as_slice()) {
        return string_of(cs.as_slice());
    }
    let ls = split_lines(cs.as_slice());
    let mut out = keep_lines(&ls, max_bytes, true);
    let marker = chars_of("\n[truncated — summarise from what is shown above]\n");
    out.extend_from_slice(marker.as_slice());
    string_of(out.as_slice())
}

} // verus!
