//! Files dragged from the desktop onto cian.
//!
//! Every terminal answers a dropped file by typing its path in, as if it had
//! been pasted; this module reads such a paste back into paths. Terminals
//! disagree about the escaping, so all the common forms are read: spaces
//! backslash-escaped (`My\ File.txt`), quoted (`"C:\x\My File.txt"`), a
//! `file://` URI with `%20`, and one path per line.
//!
//! Recognising, not guessing: a reading is only believed when every item it
//! produced exists (the test is handed in), so a paste of prose stays prose.
use vstd::prelude::*;

use vstd::utf8::{decode_utf8, encode_utf8, valid_utf8};

use crate::actions::{message_only, popup_only};
use crate::lang::tr_spec;
use crate::state::{says, App, FocusedPane, Mode, PendingOp, Popup};
use crate::text::{chars_of, char_is_ws, has_prefix, is_ws, lines, parent_of, path_parent, paths_equal, same_path,
    seqs_of, slice_vec, split_lines, starts_with, string_of, trim, trim_chars, views};

verus! {

/// Where the item scanner of one line stands.
pub ghost struct ScanState {
    pub items: Seq<Seq<char>>,
    pub cur: Seq<char>,
    pub quote: Option<char>,
    pub escaped: bool,
}

pub open spec fn scan_start() -> ScanState {
    ScanState { items: seq![], cur: seq![], quote: None, escaped: false }
}

pub open spec fn is_quote(c: char) -> bool {
    c == '"' || c == '\''
}

/// One character through the scanner: a backslash (where it escapes, and
/// outside quotes) keeps the next character inside the item; quotes group;
/// unquoted whitespace ends an item.
pub open spec fn scan_step(st: ScanState, ch: char, escapes: bool) -> ScanState {
    if st.escaped {
        ScanState { cur: st.cur.push('\\').push(ch), escaped: false, ..st }
    } else if ch == '\\' && escapes && st.quote is None {
        ScanState { escaped: true, ..st }
    } else if is_quote(ch) && st.quote is None {
        ScanState { quote: Some(ch), ..st }
    } else if st.quote == Some(ch) {
        ScanState { quote: None, ..st }
    } else if is_ws(ch) && st.quote is None {
        if st.cur.len() > 0 {
            ScanState { items: st.items.push(st.cur), cur: seq![], ..st }
        } else {
            st
        }
    } else {
        ScanState { cur: st.cur.push(ch), ..st }
    }
}

pub open spec fn scan(line: Seq<char>, escapes: bool) -> ScanState
    decreases line.len(),
{
    if line.len() == 0 {
        scan_start()
    } else {
        scan_step(scan(line.drop_last(), escapes), line.last(), escapes)
    }
}

/// The items of one line: what the scanner collected, plus the item still
/// open at the end (a trailing backslash is a literal one).
pub open spec fn line_items(line: Seq<char>, escapes: bool) -> Seq<Seq<char>> {
    let st = scan(line, escapes);
    let last = if st.escaped { st.cur.push('\\') } else { st.cur };
    if last.len() > 0 {
        st.items.push(last)
    } else {
        st.items
    }
}

/// The items of every non-blank (trimmed) line, in order.
pub open spec fn items_of_lines(ls: Seq<Seq<char>>, escapes: bool) -> Seq<Seq<char>>
    decreases ls.len(),
{
    if ls.len() == 0 {
        seq![]
    } else {
        let l = trim(ls[0]);
        let here = if l.len() == 0 {
            seq![]
        } else {
            line_items(l, escapes)
        };
        here + items_of_lines(ls.drop_first(), escapes)
    }
}

/// Candidate items of a blob: one per line and, within a line, split on
/// unescaped, unquoted whitespace.
pub open spec fn split_items_spec(text: Seq<char>, escapes: bool) -> Seq<Seq<char>> {
    items_of_lines(lines(text), escapes)
}

proof fn lemma_items_of_lines_split(ls: Seq<Seq<char>>, i: int, escapes: bool)
    requires
        0 <= i < ls.len(),
    ensures
        items_of_lines(ls.skip(i), escapes) == (if trim(ls[i]).len() == 0 {
            seq![]
        } else {
            line_items(trim(ls[i]), escapes)
        }) + items_of_lines(ls.skip(i + 1), escapes),
{
    let t = ls.skip(i);
    assert(t[0] == ls[i]);
    assert(t.drop_first() =~= ls.skip(i + 1));
}

/// The items of one (already trimmed) line.
fn line_items_exec(line: &[char], escapes: bool) -> (out: Vec<Vec<char>>)
    ensures
        seqs_of(out@) == line_items(line@, escapes),
{
    let mut items: Vec<Vec<char>> = Vec::new();
    let mut cur: Vec<char> = Vec::new();
    let mut quote: Option<char> = None;
    let mut escaped = false;
    let mut i: usize = 0;
    assert(line@.take(0) =~= seq![]);
    assert(seqs_of(items@) =~= seq![]);
    while i < line.len()
        invariant
            i <= line.len(),
            scan(line@.take(i as int), escapes) == (ScanState {
                items: seqs_of(items@),
                cur: cur@,
                quote,
                escaped,
            }),
        decreases line.len() - i,
    {
        let ch = line[i];
        assert(line@.take(i + 1).drop_last() =~= line@.take(i as int));
        assert(line@.take(i + 1).last() == ch);
        if escaped {
            cur.push('\\');
            cur.push(ch);
            escaped = false;
        } else if ch == '\\' && escapes && quote.is_none() {
            escaped = true;
        } else if (ch == '"' || ch == '\'') && quote.is_none() {
            quote = Some(ch);
        } else if quote == Some(ch) {
            quote = None;
        } else if char_is_ws(ch) && quote.is_none() {
            if cur.len() > 0 {
                let ghost before = seqs_of(items@);
                let done = cur;
                items.push(done);
                assert(seqs_of(items@) =~= before.push(done@));
                cur = Vec::new();
                assert(cur@ =~= seq![]);
            }
        } else {
            cur.push(ch);
        }
        i += 1;
    }
    assert(line@.take(line.len() as int) =~= line@);
    if escaped {
        cur.push('\\');
    }
    if cur.len() > 0 {
        let ghost before = seqs_of(items@);
        let c = cur;
        items.push(c);
        assert(seqs_of(items@) =~= before.push(c@));
    }
    items
}

/// The items of a blob, as character vectors.
fn split_items_chars(cs: &[char], escapes: bool) -> (out: Vec<Vec<char>>)
    ensures
        seqs_of(out@) == split_items_spec(cs@, escapes),
{
    let ls = split_lines(cs);
    let mut out: Vec<Vec<char>> = Vec::new();
    let mut i: usize = 0;
    let ghost all = seqs_of(ls@);
    assert(all.skip(0) =~= all);
    assert(seqs_of(out@) + items_of_lines(all, escapes) =~= items_of_lines(all, escapes));
    while i < ls.len()
        invariant
            i <= ls.len(),
            all == seqs_of(ls@),
            all == lines(cs@),
            seqs_of(out@) + items_of_lines(all.skip(i as int), escapes) == items_of_lines(
                all,
                escapes,
            ),
        decreases ls.len() - i,
    {
        proof {
            lemma_items_of_lines_split(all, i as int, escapes);
        }
        let l = trim_chars(ls[i].as_slice());
        assert(all[i as int] == ls@[i as int]@);
        if l.len() > 0 {
            let here = line_items_exec(l.as_slice(), escapes);
            let ghost before = seqs_of(out@);
            let mut j: usize = 0;
            while j < here.len()
                invariant
                    j <= here.len(),
                    seqs_of(out@) == before + seqs_of(here@).take(j as int),
                decreases here.len() - j,
            {
                let item = here[j].clone();
                let ghost b2 = seqs_of(out@);
                out.push(item);
                assert(seqs_of(out@) =~= b2.push(here@[j as int]@));
                assert(seqs_of(here@).take(j + 1) =~= seqs_of(here@).take(j as int).push(
                    here@[j as int]@,
                ));
                j += 1;
            }
            assert(seqs_of(here@).take(here.len() as int) =~= seqs_of(here@));
        } else {
            assert(seqs_of(out@) + seq![] =~= seqs_of(out@));
        }
        i += 1;
    }
    assert(all.skip(i as int) =~= seq![]);
    assert(seqs_of(out@) + seq![] =~= seqs_of(out@));
    out
}

/// Turns character vectors into `String`s.
fn strings_of(v: &Vec<Vec<char>>) -> (out: Vec<String>)
    ensures
        views(out@) == seqs_of(v@),
{
    let mut out: Vec<String> = Vec::new();
    let mut i: usize = 0;
    while i < v.len()
        invariant
            i <= v.len(),
            views(out@) == seqs_of(v@).take(i as int),
        decreases v.len() - i,
    {
        let s = string_of(v[i].as_slice());
        let ghost before = views(out@);
        out.push(s);
        assert(views(out@) =~= before.push(v@[i as int]@));
        assert(seqs_of(v@).take(i + 1) =~= seqs_of(v@).take(i as int).push(v@[i as int]@));
        i += 1;
    }
    assert(seqs_of(v@).take(v.len() as int) =~= seqs_of(v@));
    out
}

/// Split a blob into candidate items: one per line, and — within a line — on
/// unescaped, unquoted whitespace, which is how a multi-file drop arrives.
pub fn split_items(text: &str, escapes: bool) -> (out: Vec<String>)
    ensures
        views(out@) == split_items_spec(text@, escapes),
{
    let cs = chars_of(text);
    let v = split_items_chars(cs.as_slice(), escapes);
    strings_of(&v)
}

/// What `String::from_utf8_lossy` makes of `bytes`.
pub uninterp spec fn utf8_lossy(bytes: Seq<u8>) -> Seq<char>;

/// `String::from_utf8_lossy(b).into_owned()`: the text of `b`, with each
/// invalid sequence replaced by U+FFFD. Claimed: the result is named by
/// `utf8_lossy(b)`, and valid UTF-8 decodes to exactly its characters (the
/// documented "if the bytes are valid UTF-8, they are returned as they are").
#[verifier::external_body]
fn from_utf8_lossy(b: &[u8]) -> (s: String)
    ensures
        s@ == utf8_lossy(b@),
        valid_utf8(b@) ==> s@ == decode_utf8(b@),
{
    String::from_utf8_lossy(b).into_owned()
}

pub open spec fn is_hex(b: u8) -> bool {
    (48 <= b <= 57) || (97 <= b <= 102) || (65 <= b <= 70)
}

pub open spec fn hex_val(b: u8) -> int {
    if 48 <= b <= 57 {
        b - 48
    } else if 97 <= b <= 102 {
        b - 87
    } else {
        b - 55
    }
}

/// Are the two bytes after a `%` an escape: two hex digits?
pub open spec fn hex_pair(b1: u8, b2: u8) -> bool {
    is_hex(b1) && is_hex(b2)
}

/// The byte two hex digits stand for.
pub open spec fn hex_pair_val(b1: u8, b2: u8) -> u8 {
    (16 * hex_val(b1) + hex_val(b2)) as u8
}

/// `%XX` escapes decoded; anything malformed is kept verbatim.
pub open spec fn pct_bytes(b: Seq<u8>) -> Seq<u8>
    decreases b.len(),
{
    if b.len() == 0 {
        seq![]
    } else if b[0] == 37 && 2 < b.len() && hex_pair(b[1], b[2]) {
        seq![hex_pair_val(b[1], b[2])] + pct_bytes(b.skip(3))
    } else {
        seq![b[0]] + pct_bytes(b.drop_first())
    }
}

/// The text `percent_decode` makes of `s`.
pub open spec fn percent_decoded(s: Seq<char>) -> Seq<char> {
    utf8_lossy(pct_bytes(encode_utf8(s)))
}

fn is_hex_exec(b: u8) -> (r: bool)
    ensures
        r == is_hex(b),
{
    (48 <= b && b <= 57) || (97 <= b && b <= 102) || (65 <= b && b <= 70)
}

fn hex_val_exec(b: u8) -> (v: u8)
    requires
        is_hex(b),
    ensures
        v == hex_val(b),
        v < 16,
{
    if 48 <= b && b <= 57 {
        b - 48
    } else if 97 <= b && b <= 102 {
        b - 87
    } else {
        b - 55
    }
}

fn pct_bytes_exec(b: &[u8]) -> (out: Vec<u8>)
    ensures
        out@ == pct_bytes(b@),
{
    let mut out: Vec<u8> = Vec::new();
    let mut i: usize = 0;
    assert(b@.skip(0) =~= b@);
    assert(out@ + pct_bytes(b@) =~= pct_bytes(b@));
    while i < b.len()
        invariant
            i <= b.len(),
            out@ + pct_bytes(b@.skip(i as int)) == pct_bytes(b@),
        decreases b.len() - i,
    {
        let ghost rest = b@.skip(i as int);
        if b[i] == 37u8 && 2 < b.len() - i && is_hex_exec(b[i + 1]) && is_hex_exec(b[i + 2]) {
            let v: u8 = hex_val_exec(b[i + 1]) * 16 + hex_val_exec(b[i + 2]);
            assert(rest[1] == b@[i + 1] && rest[2] == b@[i + 2]);
            assert(v == hex_pair_val(rest[1], rest[2]));
            assert(rest.skip(3) =~= b@.skip(i + 3));
            let ghost before = out@;
            out.push(v);
            assert(out@ + pct_bytes(b@.skip(i + 3)) =~= before + pct_bytes(rest));
            i += 3;
        } else {
            assert(rest.drop_first() =~= b@.skip(i + 1));
            let ghost before = out@;
            out.push(b[i]);
            assert(out@ + pct_bytes(b@.skip(i + 1)) =~= before + pct_bytes(rest));
            i += 1;
        }
    }
    assert(b@.skip(i as int) =~= seq![]);
    assert(out@ + seq![] =~= out@);
    out
}

/// Decode `%XX` escapes in a `file://` URI. Anything malformed is kept
/// verbatim, so a literal `%` in a name survives.
pub fn percent_decode(s: &str) -> (out: String)
    ensures
        out@ == percent_decoded(s@),
        valid_utf8(pct_bytes(encode_utf8(s@))) ==> out@ == decode_utf8(pct_bytes(encode_utf8(s@))),
{
    let b = s.as_bytes();
    let v = pct_bytes_exec(b);
    from_utf8_lossy(v.as_slice())
}

/// Backslash escapes undone: where a backslash escapes, it keeps only the
/// character after it; where it does not, it is kept with that character; a
/// trailing one is kept.
pub open spec fn unbackslash(s: Seq<char>, escapes: bool) -> Seq<char>
    decreases s.len(),
{
    if s.len() == 0 {
        seq![]
    } else if s[0] == '\\' {
        if s.len() == 1 {
            seq!['\\']
        } else if escapes {
            seq![s[1]] + unbackslash(s.skip(2), escapes)
        } else {
            seq!['\\', s[1]] + unbackslash(s.skip(2), escapes)
        }
    } else {
        seq![s[0]] + unbackslash(s.drop_first(), escapes)
    }
}

pub open spec fn file_scheme() -> Seq<char> {
    seq!['f', 'i', 'l', 'e', ':', '/', '/']
}

/// Position of the first `'/'` in `s`, or `s.len()`.
pub open spec fn slash_pos(s: Seq<char>) -> int
    decreases s.len(),
{
    if s.len() == 0 || s[0] == '/' {
        0
    } else {
        1 + slash_pos(s.drop_first())
    }
}

/// One item turned into a plain path: a `file://` URI loses its scheme and
/// host and is percent-decoded; anything else has its backslash escapes
/// undone.
pub open spec fn unescaped(item: Seq<char>, escapes: bool) -> Seq<char> {
    if starts_with(item, file_scheme()) {
        let rest = item.skip(7);
        percent_decoded(rest.skip(slash_pos(rest)))
    } else {
        unbackslash(item, escapes)
    }
}

proof fn lemma_slash_pos(s: Seq<char>, k: int)
    requires
        0 <= k <= s.len(),
        k < s.len() ==> s[k] == '/',
        forall|j: int| 0 <= j < k ==> s[j] != '/',
    ensures
        slash_pos(s) == k,
    decreases s.len(),
{
    if s.len() > 0 && k > 0 {
        let t = s.drop_first();
        assert forall|j: int| 0 <= j < k - 1 implies t[j] != '/' by {
            assert(t[j] == s[j + 1]);
        }
        lemma_slash_pos(t, k - 1);
    }
}

fn file_scheme_chars() -> (out: Vec<char>)
    ensures
        out@ == file_scheme(),
{
    let out = vec!['f', 'i', 'l', 'e', ':', '/', '/'];
    assert(out@ =~= file_scheme());
    out
}

fn unbackslash_exec(s: &[char], escapes: bool) -> (out: Vec<char>)
    ensures
        out@ == unbackslash(s@, escapes),
{
    let mut out: Vec<char> = Vec::new();
    let mut i: usize = 0;
    assert(s@.skip(0) =~= s@);
    assert(out@ + unbackslash(s@, escapes) =~= unbackslash(s@, escapes));
    while i < s.len()
        invariant
            i <= s.len(),
            out@ + unbackslash(s@.skip(i as int), escapes) == unbackslash(s@, escapes),
        decreases s.len() - i,
    {
        let ghost rest = s@.skip(i as int);
        let ghost before = out@;
        if s[i] == '\\' {
            if i + 1 == s.len() {
                out.push('\\');
                assert(s@.skip(i + 1) =~= seq![]);
                assert(out@ + unbackslash(s@.skip(i + 1), escapes) =~= before + unbackslash(rest, escapes));
                i += 1;
            } else {
                if !escapes {
                    out.push('\\');
                }
                out.push(s[i + 1]);
                assert(rest[1] == s@[i + 1]);
                assert(rest.skip(2) =~= s@.skip(i + 2));
                assert(out@ + unbackslash(s@.skip(i + 2), escapes) =~= before + unbackslash(rest, escapes));
                i += 2;
            }
        } else {
            out.push(s[i]);
            assert(rest.drop_first() =~= s@.skip(i + 1));
            assert(out@ + unbackslash(s@.skip(i + 1), escapes) =~= before + unbackslash(rest, escapes));
            i += 1;
        }
    }
    assert(s@.skip(i as int) =~= seq![]);
    assert(out@ + seq![] =~= out@);
    out
}

fn unescape_chars(item: &[char], escapes: bool) -> (out: Vec<char>)
    ensures
        out@ == unescaped(item@, escapes),
{
    let scheme = file_scheme_chars();
    if has_prefix(item, scheme.as_slice()) {
        let rest = slice_vec(item, 7, item.len());
        assert(rest@ =~= item@.skip(7));
        let mut k: usize = 0;
        while k < rest.len() && rest[k] != '/'
            invariant
                k <= rest.len(),
                forall|j: int| 0 <= j < k ==> rest@[j] != '/',
            decreases rest.len() - k,
        {
            k += 1;
        }
        proof {
            lemma_slash_pos(rest@, k as int);
        }
        let path = slice_vec(rest.as_slice(), k, rest.len());
        assert(path@ =~= rest@.skip(k as int));
        let ps = string_of(path.as_slice());
        let decoded = percent_decode(ps.as_str());
        chars_of(decoded.as_str())
    } else {
        unbackslash_exec(item, escapes)
    }
}

/// Turn one item into a plain path: strip a `file://` prefix
/// (percent-decoded), and drop the backslashes a shell-style escape added.
pub fn unescape(item: &str, escapes: bool) -> (out: String)
    ensures
        out@ == unescaped(item@, escapes),
{
    let cs = chars_of(item);
    let v = unescape_chars(cs.as_slice(), escapes);
    string_of(v.as_slice())
}

pub open spec fn strip_quotes_start(s: Seq<char>) -> Seq<char>
    decreases s.len(),
{
    if s.len() > 0 && is_quote(s[0]) {
        strip_quotes_start(s.drop_first())
    } else {
        s
    }
}

pub open spec fn strip_quotes_end(s: Seq<char>) -> Seq<char>
    decreases s.len(),
{
    if s.len() > 0 && is_quote(s.last()) {
        strip_quotes_end(s.drop_last())
    } else {
        s
    }
}

/// `s` without `"` or `'` at either end.
pub open spec fn strip_quotes(s: Seq<char>) -> Seq<char> {
    strip_quotes_end(strip_quotes_start(s))
}

/// The one-item-per-line reading: each non-blank line, trimmed, unquoted and
/// unescaped.
pub open spec fn whole_reading(ls: Seq<Seq<char>>, escapes: bool) -> Seq<Seq<char>>
    decreases ls.len(),
{
    if ls.len() == 0 {
        seq![]
    } else {
        let l = trim(ls[0]);
        let here = if l.len() == 0 {
            seq![]
        } else {
            seq![unescaped(strip_quotes(l), escapes)]
        };
        here + whole_reading(ls.drop_first(), escapes)
    }
}

/// The whitespace-separated reading: each item, unescaped.
pub open spec fn split_reading(text: Seq<char>, escapes: bool) -> Seq<Seq<char>> {
    split_items_spec(text, escapes).map_values(|i: Seq<char>| unescaped(i, escapes))
}

/// The reading believed first: split where a backslash escapes (a space
/// between items is then a real separator), lines where it does not.
pub open spec fn first_reading(text: Seq<char>, escapes: bool) -> Seq<Seq<char>> {
    if escapes {
        split_reading(text, escapes)
    } else {
        whole_reading(lines(text), escapes)
    }
}

/// The fallback reading.
pub open spec fn second_reading(text: Seq<char>, escapes: bool) -> Seq<Seq<char>> {
    if escapes {
        whole_reading(lines(text), escapes)
    } else {
        split_reading(text, escapes)
    }
}

/// Did the existence test, as it was run, fail some item of `reading`?
pub open spec fn some_missing<F: Fn(&String) -> bool>(f: F, reading: Seq<Seq<char>>) -> bool {
    exists|x: String| reading.contains(x@) && call_ensures(f, (&x,), false)
}

fn strip_quotes_range(cs: &[char]) -> (r: (usize, usize))
    ensures
        r.0 <= r.1 <= cs.len(),
        strip_quotes(cs@) == cs@.subrange(r.0 as int, r.1 as int),
{
    let mut a: usize = 0;
    assert(cs@.skip(0) =~= cs@);
    while a < cs.len() && (cs[a] == '"' || cs[a] == '\'')
        invariant
            a <= cs.len(),
            strip_quotes_start(cs@) == strip_quotes_start(cs@.skip(a as int)),
        decreases cs.len() - a,
    {
        assert(cs@.skip(a as int).drop_first() =~= cs@.skip(a + 1));
        a += 1;
    }
    let ghost t = cs@.skip(a as int);
    let mut b: usize = cs.len();
    assert(cs@.subrange(a as int, b as int) =~= t);
    while b > a && (cs[b - 1] == '"' || cs[b - 1] == '\'')
        invariant
            a <= b <= cs.len(),
            t == cs@.skip(a as int),
            strip_quotes_end(t) == strip_quotes_end(cs@.subrange(a as int, b as int)),
        decreases b,
    {
        assert(cs@.subrange(a as int, b as int).drop_last() =~= cs@.subrange(a as int, b - 1));
        b -= 1;
    }
    (a, b)
}

fn whole_reading_exec(cs: &[char], escapes: bool) -> (out: Vec<String>)
    ensures
        views(out@) == whole_reading(lines(cs@), escapes),
{
    let ls = split_lines(cs);
    let ghost all = seqs_of(ls@);
    let mut out: Vec<String> = Vec::new();
    let mut i: usize = 0;
    assert(all.skip(0) =~= all);
    assert(views(out@) + whole_reading(all, escapes) =~= whole_reading(all, escapes));
    while i < ls.len()
        invariant
            i <= ls.len(),
            all == seqs_of(ls@),
            all == lines(cs@),
            views(out@) + whole_reading(all.skip(i as int), escapes) == whole_reading(all, escapes),
        decreases ls.len() - i,
    {
        let ghost rest = all.skip(i as int);
        assert(rest[0] == ls@[i as int]@);
        assert(rest.drop_first() =~= all.skip(i + 1));
        let t = trim_chars(ls[i].as_slice());
        let ghost before = views(out@);
        if t.len() > 0 {
            let (a, b) = strip_quotes_range(t.as_slice());
            let inner = slice_vec(t.as_slice(), a, b);
            let u = unescape_chars(inner.as_slice(), escapes);
            let s = string_of(u.as_slice());
            out.push(s);
            assert(views(out@) =~= before.push(u@));
            assert(views(out@) + whole_reading(all.skip(i + 1), escapes) =~= before + whole_reading(
                rest,
                escapes,
            ));
        } else {
            assert(before + whole_reading(all.skip(i + 1), escapes) =~= before + whole_reading(
                rest,
                escapes,
            ));
        }
        i += 1;
    }
    assert(all.skip(i as int) =~= seq![]);
    assert(views(out@) + seq![] =~= views(out@));
    out
}

fn split_reading_exec(cs: &[char], escapes: bool) -> (out: Vec<String>)
    ensures
        views(out@) == split_reading(cs@, escapes),
{
    let items = split_items_chars(cs, escapes);
    let ghost all = seqs_of(items@);
    let mut out: Vec<String> = Vec::new();
    let mut i: usize = 0;
    while i < items.len()
        invariant
            i <= items.len(),
            all == seqs_of(items@),
            all == split_items_spec(cs@, escapes),
            views(out@) == all.take(i as int).map_values(|x: Seq<char>| unescaped(x, escapes)),
        decreases items.len() - i,
    {
        let u = unescape_chars(items[i].as_slice(), escapes);
        let s = string_of(u.as_slice());
        let ghost before = views(out@);
        out.push(s);
        assert(all[i as int] == items@[i as int]@);
        assert(views(out@) =~= before.push(u@));
        assert(all.take(i + 1).map_values(|x: Seq<char>| unescaped(x, escapes)) =~= all.take(
            i as int,
        ).map_values(|x: Seq<char>| unescaped(x, escapes)).push(unescaped(all[i as int], escapes)));
        i += 1;
    }
    assert(all.take(items.len() as int) =~= all);
    out
}

/// Does every item of a non-empty reading pass the existence test?
fn all_exist<F: Fn(&String) -> bool>(v: &Vec<String>, is_there: &F) -> (r: bool)
    requires
        forall|p: String| call_requires(*is_there, (&p,)),
    ensures
        r ==> v.len() > 0 && forall|i: int| 0 <= i < v.len() ==> call_ensures(*is_there, (&v@[i],), true),
        !r ==> v.len() == 0 || some_missing(*is_there, views(v@)),
{
    if v.len() == 0 {
        return false;
    }
    let mut i: usize = 0;
    while i < v.len()
        invariant
            i <= v.len(),
            forall|p: String| call_requires(*is_there, (&p,)),
            forall|j: int| 0 <= j < i ==> call_ensures(*is_there, (&v@[j],), true),
        decreases v.len() - i,
    {
        let ok = is_there(&v[i]);
        if !ok {
            assert(views(v@).contains(v@[i as int]@)) by {
                assert(views(v@)[i as int] == v@[i as int]@);
            }
            return false;
        }
        i += 1;
    }
    true
}

/// `out` is what a drop of `text` reads as, `is_there` being the test of
/// existence: the first reading if all of it exists, else the second if all
/// of that does, else nothing — and whatever comes back exists.
pub open spec fn dropped_reading<F: Fn(&String) -> bool>(
    text: Seq<char>,
    escapes: bool,
    is_there: F,
    out: Seq<String>,
) -> bool {
    &&& views(out) == first_reading(text, escapes) || views(out) == second_reading(text, escapes) || out.len()
        == 0
    &&& forall|i: int| 0 <= i < out.len() ==> call_ensures(is_there, (&out[i],), true)
    &&& views(out) != first_reading(text, escapes) ==> first_reading(text, escapes).len() == 0 || some_missing(
        is_there,
        first_reading(text, escapes),
    )
    &&& out.len() == 0 ==> second_reading(text, escapes).len() == 0 || some_missing(
        is_there,
        second_reading(text, escapes),
    )
}

/// The reading of a drop, with the escaping convention spelled out and the
/// "is it really there" test handed in: the first reading if every item of it
/// exists, else the second if every item of that does, else nothing.
pub fn read_dropped<F: Fn(&String) -> bool>(text: &str, escapes: bool, is_there: F) -> (out: Vec<
    String,
>)
    requires
        forall|p: String| call_requires(is_there, (&p,)),
    ensures
        dropped_reading(text@, escapes, is_there, out@),
{
    let cs = chars_of(text);
    let (first, second) = if escapes {
        (split_reading_exec(cs.as_slice(), escapes), whole_reading_exec(cs.as_slice(), escapes))
    } else {
        (whole_reading_exec(cs.as_slice(), escapes), split_reading_exec(cs.as_slice(), escapes))
    };
    if all_exist(&first, &is_there) {
        return first;
    }
    if all_exist(&second, &is_there) {
        return second;
    }
    Vec::new()
}

/// Is `a` in a state where a paste can be a drop: nothing open over the
/// panes, normal mode, a local file pane with the keyboard that is a real
/// directory (not remote, an archive or a flattened view)?
pub open spec fn drop_target_ok(a: App) -> bool {
    &&& a.popup is Closed
    &&& a.mode == Mode::Normal
    &&& a.focused != FocusedPane::Shell
    &&& a.active() matches Some(p) && !p.remote && !p.in_archive && !p.flat
}

/// Do dropped paths come with their spaces backslash-escaped? Everywhere
/// but Windows, where a backslash is the separator.
pub open spec fn escapes_here(a: App) -> bool {
    !a.config.on_windows
}

/// Is every one of `paths` directly inside `dest`?
pub open spec fn all_here(paths: Seq<String>, dest: Seq<char>) -> bool {
    forall|i: int|
        0 <= i < paths.len() ==> (#[trigger] path_parent(paths[i]@) matches Some(q) && paths_equal(q, dest))
}

/// `b` is `a` after the drop of `paths` (what the paste read as) onto the
/// active pane, whose directory is `dest`; `handled` says it was a drop.
pub open spec fn drop_taken(a: App, b: App, paths: Seq<String>, dest: Seq<char>, handled: bool) -> bool {
    if paths.len() == 0 {
        !handled && b == a
    } else if all_here(paths, dest) {
        &&& handled
        &&& message_only(a, b)
        &&& says(
            b.message,
            tr_spec(a.lang, "those files are already here"@, "そのファイルは既にここにあります"@),
        )
    } else {
        &&& handled
        &&& popup_only(a, b)
        &&& b.popup matches Popup::ConfirmTransfer { op, targets, dest: d }
        &&& b.popup->ConfirmTransfer_op == PendingOp::Move
        &&& b.popup->ConfirmTransfer_targets@ == paths
        &&& b.popup->ConfirmTransfer_dest@ == dest
    }
}

impl App {
    /// A paste that may be files dropped on the window (`is_there` is the
    /// look at the disk): when the pane can take them, the files are to be
    /// moved into its directory, after the usual confirmation. `false` when
    /// the paste is just text.
    pub fn accept_drop<F: Fn(&String) -> bool>(&mut self, text: &str, is_there: F) -> (handled: bool)
        requires
            forall|p: String| call_requires(is_there, (&p,)),
        ensures
            !drop_target_ok(*old(self)) ==> !handled && *final(self) == *old(self),
            drop_target_ok(*old(self)) ==> exists|paths: Seq<String>|
                #![trigger dropped_reading(text@, escapes_here(*old(self)), is_there, paths)]
                {
                    &&& dropped_reading(text@, escapes_here(*old(self)), is_there, paths)
                    &&& drop_taken(*old(self), *final(self), paths, old(self).active()->0.cwd@, handled)
                },
    {
        let ok_state = match self.popup {
            Popup::Closed => self.mode == Mode::Normal,
            _ => false,
        };
        if !ok_state || self.focused == FocusedPane::Shell {
            return false;
        }
        let dest = match self.active_pane() {
            Some(p) => {
                if p.remote || p.in_archive || p.flat {
                    return false;
                }
                p.cwd.clone()
            },
            None => return false,
        };
        let escapes = !self.config.on_windows;
        let paths = read_dropped(text, escapes, is_there);
        assert(dropped_reading(text@, escapes_here(*old(self)), is_there, paths@));
        if paths.len() == 0 {
            return false;
        }
        let mut here = true;
        let mut i: usize = 0;
        while i < paths.len()
            invariant
                i <= paths@.len(),
                here == forall|k: int|
                    0 <= k < i ==> (#[trigger] path_parent(paths@[k]@) matches Some(q) && paths_equal(q, dest@)),
            decreases paths@.len() - i,
        {
            let inside = match parent_of(paths[i].as_str()) {
                Some(q) => same_path(q.as_str(), dest.as_str()),
                None => false,
            };
            if !inside {
                here = false;
            }
            i += 1;
        }
        if here {
            self.message = Some(
                crate::lang::tr(self.lang, "those files are already here", "そのファイルは既にここにあります").to_owned(),
            );
            assert(drop_taken(*old(self), *self, paths@, dest@, true));
            return true;
        }
        self.popup = Popup::ConfirmTransfer { op: PendingOp::Move, targets: paths, dest };
        true
    }
}


/// Without escapes a backslash stands for itself: the text comes through
/// character for character.
proof fn lemma_unbackslash_plain(s: Seq<char>)
    ensures
        unbackslash(s, false) == s,
    decreases s.len(),
{
    if s.len() > 0 {
        if s[0] == '\\' {
            if s.len() == 1 {
                assert(s =~= seq!['\\']);
            } else {
                lemma_unbackslash_plain(s.skip(2));
                assert(seq!['\\', s[1]] + s.skip(2) =~= s);
            }
        } else {
            lemma_unbackslash_plain(s.drop_first());
            assert(seq![s[0]] + s.drop_first() =~= s);
        }
    }
}

/// Where backslashes escape nothing (a Windows drop), an item that is not a
/// `file://` address is taken exactly as written.
pub proof fn law_unescaped_keeps_plain_items(item: Seq<char>)
    requires
        !starts_with(item, file_scheme()),
    ensures
        unescaped(item, false) == item,
{
    lemma_unbackslash_plain(item);
}

} // verus!
