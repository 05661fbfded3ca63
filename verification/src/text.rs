//! Text as character sequences: the specifications of the few `str`
//! operations this library relies on (whitespace, trimming, line splitting,
//! UTF-8 byte widths), and executable versions over `char` slices proved
//! against them.
use vstd::prelude::*;
use vstd::std_specs::iter::IteratorSpec;

verus! {

// ---------------------------------------------------------------------------
// Specifications
// ---------------------------------------------------------------------------

/// Unicode `White_Space`, as `char::is_whitespace` defines it.
pub open spec fn is_ws(c: char) -> bool {
    let u = c as u32;
    ||| 0x09 <= u <= 0x0d
    ||| u == 0x20
    ||| u == 0x85
    ||| u == 0xa0
    ||| u == 0x1680
    ||| 0x2000 <= u <= 0x200a
    ||| u == 0x2028
    ||| u == 0x2029
    ||| u == 0x202f
    ||| u == 0x205f
    ||| u == 0x3000
}

/// `s` without its leading whitespace.
pub open spec fn trim_start(s: Seq<char>) -> Seq<char>
    decreases s.len(),
{
    if s.len() > 0 && is_ws(s[0]) {
        trim_start(s.drop_first())
    } else {
        s
    }
}

/// `s` without its trailing whitespace.
pub open spec fn trim_end(s: Seq<char>) -> Seq<char>
    decreases s.len(),
{
    if s.len() > 0 && is_ws(s.last()) {
        trim_end(s.drop_last())
    } else {
        s
    }
}

/// `s` without whitespace at either end (`str::trim`).
pub open spec fn trim(s: Seq<char>) -> Seq<char> {
    trim_end(trim_start(s))
}

/// `s` without any `c` at either end (`str::trim_matches` with one char).
pub open spec fn strip_char_start(s: Seq<char>, c: char) -> Seq<char>
    decreases s.len(),
{
    if s.len() > 0 && s[0] == c {
        strip_char_start(s.drop_first(), c)
    } else {
        s
    }
}

pub open spec fn strip_char_end(s: Seq<char>, c: char) -> Seq<char>
    decreases s.len(),
{
    if s.len() > 0 && s.last() == c {
        strip_char_end(s.drop_last(), c)
    } else {
        s
    }
}

pub open spec fn strip_char(s: Seq<char>, c: char) -> Seq<char> {
    strip_char_end(strip_char_start(s, c), c)
}

/// Does `s` begin with `p`?
pub open spec fn starts_with(s: Seq<char>, p: Seq<char>) -> bool {
    p.len() <= s.len() && s.take(p.len() as int) == p
}

/// Does `s` end with `p`?
pub open spec fn ends_with(s: Seq<char>, p: Seq<char>) -> bool {
    p.len() <= s.len() && s.skip(s.len() - p.len()) == p
}

/// Does `p` occur in `s` starting at `i`?
pub open spec fn occurs_at(s: Seq<char>, p: Seq<char>, i: int) -> bool {
    0 <= i && i + p.len() <= s.len() && s.subrange(i, i + p.len()) == p
}

/// Does `p` occur anywhere in `s` (`str::contains`)?
pub open spec fn contains_seq(s: Seq<char>, p: Seq<char>) -> bool {
    exists|i: int| occurs_at(s, p, i)
}

/// Position of the first `'\n'` in `s`, or `s.len()` when there is none.
pub open spec fn nl_pos(s: Seq<char>) -> int
    decreases s.len(),
{
    if s.len() == 0 {
        0
    } else if s[0] == '\n' {
        0
    } else {
        1 + nl_pos(s.drop_first())
    }
}

/// A line as `str::lines` yields it: a `"\r\n"` ending loses its `'\r'` too.
pub open spec fn strip_cr(l: Seq<char>) -> Seq<char> {
    if l.len() > 0 && l.last() == '\r' {
        l.drop_last()
    } else {
        l
    }
}

/// The lines of `s`, as `str::lines` yields them: split at `'\n'`, a final
/// empty line after a trailing newline is not a line, and `""` has none.
pub open spec fn lines(s: Seq<char>) -> Seq<Seq<char>>
    decreases s.len(),
{
    if s.len() == 0 {
        seq![]
    } else {
        let p = nl_pos(s);
        proof {
            lemma_nl_pos_bounds(s);
        }
        if p < s.len() {
            seq![strip_cr(s.take(p))] + lines(s.skip(p + 1))
        } else {
            seq![s]
        }
    }
}

/// The pieces of `ls` joined with `sep` between them (`[T]::join`).
pub open spec fn join(ls: Seq<Seq<char>>, sep: Seq<char>) -> Seq<char>
    decreases ls.len(),
{
    if ls.len() == 0 {
        seq![]
    } else if ls.len() == 1 {
        ls[0]
    } else {
        join(ls.drop_last(), sep) + sep + ls.last()
    }
}

/// The number of bytes `c` takes in UTF-8 (`char::len_utf8`).
pub open spec fn char_bytes(c: char) -> nat {
    let u = c as u32;
    if u < 0x80 {
        1
    } else if u < 0x800 {
        2
    } else if u < 0x10000 {
        3
    } else {
        4
    }
}

/// The number of bytes `s` takes in UTF-8 (`str::len`).
pub open spec fn byte_len(s: Seq<char>) -> nat
    decreases s.len(),
{
    if s.len() == 0 {
        0
    } else {
        byte_len(s.drop_last()) + char_bytes(s.last())
    }
}

/// The character sequences held by a vector of character vectors.
pub open spec fn seqs_of(v: Seq<Vec<char>>) -> Seq<Seq<char>> {
    Seq::new(v.len(), |i: int| v[i]@)
}

/// A `String` vector's contents, as character sequences.
pub open spec fn views(v: Seq<String>) -> Seq<Seq<char>> {
    Seq::new(v.len(), |i: int| v[i]@)
}

// ---------------------------------------------------------------------------
// Lemmas
// ---------------------------------------------------------------------------

pub proof fn lemma_nl_pos_bounds(s: Seq<char>)
    ensures
        0 <= nl_pos(s) <= s.len(),
        nl_pos(s) < s.len() ==> s[nl_pos(s)] == '\n',
        forall|j: int| 0 <= j < nl_pos(s) ==> s[j] != '\n',
    decreases s.len(),
{
    if s.len() > 0 && s[0] != '\n' {
        lemma_nl_pos_bounds(s.drop_first());
        assert forall|j: int| 0 <= j < nl_pos(s) implies s[j] != '\n' by {
            if j > 0 {
                assert(s[j] == s.drop_first()[j - 1]);
            }
        }
    }
}

/// `nl_pos` is pinned down by where the first newline is.
pub proof fn lemma_nl_pos_is(s: Seq<char>, k: int)
    requires
        0 <= k <= s.len(),
        k < s.len() ==> s[k] == '\n',
        forall|j: int| 0 <= j < k ==> s[j] != '\n',
    ensures
        nl_pos(s) == k,
    decreases s.len(),
{
    if s.len() > 0 && k > 0 {
        let t = s.drop_first();
        assert forall|j: int| 0 <= j < k - 1 implies t[j] != '\n' by {
            assert(t[j] == s[j + 1]);
        }
        lemma_nl_pos_is(t, k - 1);
    }
}

pub proof fn lemma_byte_len_push(s: Seq<char>, c: char)
    ensures
        byte_len(s.push(c)) == byte_len(s) + char_bytes(c),
{
    assert(s.push(c).drop_last() =~= s);
}

pub proof fn lemma_byte_len_append(a: Seq<char>, b: Seq<char>)
    ensures
        byte_len(a + b) == byte_len(a) + byte_len(b),
    decreases b.len(),
{
    if b.len() == 0 {
        assert(a + b =~= a);
    } else {
        lemma_byte_len_append(a, b.drop_last());
        assert((a + b).drop_last() =~= a + b.drop_last());
    }
}

pub proof fn lemma_byte_len_take(s: Seq<char>, i: int)
    requires
        0 <= i <= s.len(),
    ensures
        byte_len(s.take(i)) <= byte_len(s),
{
    lemma_byte_len_append(s.take(i), s.skip(i));
    assert(s.take(i) + s.skip(i) =~= s);
}

// ---------------------------------------------------------------------------
// Executable helpers
// ---------------------------------------------------------------------------

/// Appends one character (`String::push`).
#[verifier::external_body]
pub(crate) fn push_char(s: &mut String, c: char)
    ensures
        final(s)@ == old(s)@.push(c),
{
    s.push(c);
}

/// The characters of `s`, in order.
pub fn chars_of(s: &str) -> (out: Vec<char>)
    ensures
        out@ == s@,
{
    broadcast use vstd::string::group_string_axioms;

    let mut out: Vec<char> = Vec::new();
    let mut it = s.chars();
    loop
        invariant
            out@ + it.remaining() == s@,
            it.decrease() is Some,
        ensures
            out@ == s@,
        decreases it.decrease()->0,
    {
        match it.next() {
            Some(c) => {
                out.push(c);
            },
            None => {
                assert(it.remaining().len() == 0);
                assert(out@ =~= s@);
                break;
            },
        }
    }
    out
}

/// A `String` holding exactly the characters `cs`.
pub fn string_of(cs: &[char]) -> (out: String)
    ensures
        out@ == cs@,
{
    let mut out = String::new();
    let mut i: usize = 0;
    while i < cs.len()
        invariant
            i <= cs.len(),
            out@ == cs@.take(i as int),
        decreases cs.len() - i,
    {
        push_char(&mut out, cs[i]);
        i += 1;
        assert(out@ =~= cs@.take(i as int));
    }
    assert(cs@.take(cs.len() as int) =~= cs@);
    out
}

/// Add the characters `cs` to the end of `out`.
pub fn push_chars(out: &mut String, cs: &[char])
    ensures
        final(out)@ == old(out)@ + cs@,
{
    let ghost start = out@;
    let mut i: usize = 0;
    while i < cs.len()
        invariant
            i <= cs.len(),
            out@ == start + cs@.take(i as int),
        decreases cs.len() - i,
    {
        push_char(out, cs[i]);
        i += 1;
        assert(out@ =~= start + cs@.take(i as int));
    }
    assert(cs@.take(cs.len() as int) =~= cs@);
}

/// Add the characters `s` to the end of `v`.
pub fn extend_chars(v: &mut Vec<char>, s: &[char])
    ensures
        final(v)@ == old(v)@ + s@,
{
    let ghost before = v@;
    v.extend_from_slice(s);
    assert(v@ =~= before + s@);
}

/// Do `a` and `b` hold the same text?
pub fn str_eq(a: &str, b: &str) -> (r: bool)
    ensures
        r == (a@ == b@),
{
    a.to_owned() == b.to_owned()
}

/// `a` followed by the characters `b`.
pub fn cat(a: &str, b: &[char]) -> (out: String)
    ensures
        out@ == a@ + b@,
{
    let mut out = a.to_owned();
    push_chars(&mut out, b);
    out
}

/// `a`, then the characters `b`, then `c`.
pub fn cat3(a: &str, b: &[char], c: &str) -> (out: String)
    ensures
        out@ == a@ + b@ + c@,
{
    let mut out = cat(a, b);
    let cc = chars_of(c);
    push_chars(&mut out, cc.as_slice());
    out
}

/// The strings `ls` joined with `sep` between them.
pub fn join_strings(ls: &[String], sep: &str) -> (out: String)
    ensures
        out@ == join(views(ls@), sep@),
{
    let mut out = String::new();
    let sc = chars_of(sep);
    let mut i: usize = 0;
    assert(views(ls@).take(0) =~= seq![]);
    while i < ls.len()
        invariant
            i <= ls.len(),
            sc@ == sep@,
            out@ == join(views(ls@).take(i as int), sep@),
        decreases ls.len() - i,
    {
        let ghost before = out@;
        if i > 0 {
            push_chars(&mut out, sc.as_slice());
        }
        let li = chars_of(ls[i].as_str());
        push_chars(&mut out, li.as_slice());
        proof {
            let t = views(ls@).take(i + 1);
            assert(t.drop_last() =~= views(ls@).take(i as int));
            if i == 0 {
                assert(out@ =~= t[0]);
            } else {
                assert(out@ =~= before + sep@ + t.last());
            }
        }
        i += 1;
    }
    assert(views(ls@).take(ls.len() as int) =~= views(ls@));
    out
}

/// What `Path::join` makes of `base` and `name` (as text): `name` under
/// `base` with the platform's separator, or `name` alone when absolute.
pub uninterp spec fn path_join(base: Seq<char>, name: Seq<char>) -> Seq<char>;

/// `Path::join`, as text. Claimed only that the result is named by
/// `path_join(base, name)`: the separator rules are std's.
#[verifier::external_body]
pub(crate) fn join_path(base: &str, name: &str) -> (out: String)
    ensures
        out@ == path_join(base@, name@),
{
    std::path::Path::new(base).join(name).to_string_lossy().into_owned()
}

/// What `Path::parent` gives for `p` (as text): the path without its last
/// component; nothing for a root, a bare prefix or an empty path.
pub uninterp spec fn path_parent(p: Seq<char>) -> Option<Seq<char>>;

/// `Path::parent`, as text. Claimed only that the result is named by
/// `path_parent(p)`: how a path splits into components is std's.
#[verifier::external_body]
pub(crate) fn parent_of(p: &str) -> (r: Option<String>)
    ensures
        match r {
            Some(q) => path_parent(p@) == Some(q@),
            None => path_parent(p@) is None,
        },
{
    std::path::Path::new(p).parent().map(|q| q.to_string_lossy().into_owned())
}

/// Whether `Path::new(a) == Path::new(b)`: the same components (so a
/// trailing or doubled separator makes no difference).
pub uninterp spec fn paths_equal(a: Seq<char>, b: Seq<char>) -> bool;

/// `==` on two paths given as text. Claimed only that the answer is named
/// by `paths_equal(a, b)`.
#[verifier::external_body]
pub(crate) fn same_path(a: &str, b: &str) -> (r: bool)
    ensures
        r == paths_equal(a@, b@),
{
    std::path::Path::new(a) == std::path::Path::new(b)
}

/// Add the string `s` to the end of `v`.
pub fn push_line(v: &mut Vec<String>, s: String)
    ensures
        views(final(v)@) == views(old(v)@).push(s@),
{
    let ghost before = views(v@);
    let ghost sv = s@;
    v.push(s);
    assert(views(v@) =~= before.push(sv));
}

/// What `str::to_lowercase` makes of `s` (Unicode lowercase mapping).
pub uninterp spec fn lowercase(s: Seq<char>) -> Seq<char>;

/// `str::to_lowercase`. Claimed only that the result is named by
/// `lowercase(s)`: the Unicode case tables are std's.
#[verifier::external_body]
pub(crate) fn to_lowercase(s: &str) -> (out: String)
    ensures
        out@ == lowercase(s@),
{
    s.to_lowercase()
}

/// `char::is_whitespace`.
pub fn char_is_ws(c: char) -> (b: bool)
    ensures
        b == is_ws(c),
{
    let u = c as u32;
    (0x09 <= u && u <= 0x0d) || u == 0x20 || u == 0x85 || u == 0xa0 || u == 0x1680 || (0x2000
        <= u && u <= 0x200a) || u == 0x2028 || u == 0x2029 || u == 0x202f || u == 0x205f || u
        == 0x3000
}

/// `char::len_utf8`.
pub fn char_len_utf8(c: char) -> (n: usize)
    ensures
        n == char_bytes(c),
{
    let u = c as u32;
    if u < 0x80 {
        1
    } else if u < 0x800 {
        2
    } else if u < 0x10000 {
        3
    } else {
        4
    }
}

/// The UTF-8 byte length of `cs`.
pub fn bytes_len(cs: &[char]) -> (n: usize)
    requires
        byte_len(cs@) <= usize::MAX,
    ensures
        n == byte_len(cs@),
{
    let mut n: usize = 0;
    let mut i: usize = 0;
    while i < cs.len()
        invariant
            i <= cs.len(),
            n == byte_len(cs@.take(i as int)),
            byte_len(cs@) <= usize::MAX,
        decreases cs.len() - i,
    {
        proof {
            lemma_byte_len_push(cs@.take(i as int), cs@[i as int]);
            assert(cs@.take(i as int).push(cs@[i as int]) =~= cs@.take(i + 1));
            lemma_byte_len_take(cs@, i + 1);
        }
        n = n + char_len_utf8(cs[i]);
        i += 1;
    }
    assert(cs@.take(cs.len() as int) =~= cs@);
    n
}

/// Index of the first character of `cs[from..]` that is not whitespace.
pub fn skip_ws_start(cs: &[char]) -> (i: usize)
    ensures
        i <= cs.len(),
        trim_start(cs@) == cs@.skip(i as int),
{
    let mut i: usize = 0;
    assert(cs@.skip(0) =~= cs@);
    while i < cs.len() && char_is_ws(cs[i])
        invariant
            i <= cs.len(),
            trim_start(cs@) == trim_start(cs@.skip(i as int)),
        decreases cs.len() - i,
    {
        assert(cs@.skip(i as int).drop_first() =~= cs@.skip(i + 1));
        i += 1;
    }
    i
}

/// The range `[a, b)` of `cs` that `trim` keeps.
pub fn trim_range(cs: &[char]) -> (r: (usize, usize))
    ensures
        r.0 <= r.1 <= cs.len(),
        trim(cs@) == cs@.subrange(r.0 as int, r.1 as int),
{
    let a = skip_ws_start(cs);
    let ghost t = cs@.skip(a as int);
    let mut b: usize = cs.len();
    assert(cs@.subrange(a as int, b as int) =~= t);
    while b > a && char_is_ws(cs[b - 1])
        invariant
            a <= b <= cs.len(),
            t == cs@.skip(a as int),
            trim_end(t) == trim_end(cs@.subrange(a as int, b as int)),
        decreases b,
    {
        assert(cs@.subrange(a as int, b as int).drop_last() =~= cs@.subrange(a as int, b - 1));
        b -= 1;
    }
    (a, b)
}

/// `cs[a..b]` as a vector.
pub fn slice_vec(cs: &[char], a: usize, b: usize) -> (out: Vec<char>)
    requires
        a <= b <= cs.len(),
    ensures
        out@ == cs@.subrange(a as int, b as int),
{
    let mut out: Vec<char> = Vec::new();
    let mut i = a;
    while i < b
        invariant
            a <= i <= b <= cs.len(),
            out@ == cs@.subrange(a as int, i as int),
        decreases b - i,
    {
        out.push(cs[i]);
        i += 1;
        assert(out@ =~= cs@.subrange(a as int, i as int));
    }
    out
}

/// The range `[a, b)` of `cs` that stripping `c` from both ends keeps.
pub fn strip_char_range(cs: &[char], c: char) -> (r: (usize, usize))
    ensures
        r.0 <= r.1 <= cs.len(),
        strip_char(cs@, c) == cs@.subrange(r.0 as int, r.1 as int),
{
    let mut a: usize = 0;
    assert(cs@.skip(0) =~= cs@);
    while a < cs.len() && cs[a] == c
        invariant
            a <= cs.len(),
            strip_char_start(cs@, c) == strip_char_start(cs@.skip(a as int), c),
        decreases cs.len() - a,
    {
        assert(cs@.skip(a as int).drop_first() =~= cs@.skip(a + 1));
        a += 1;
    }
    let ghost t = cs@.skip(a as int);
    let mut b: usize = cs.len();
    assert(cs@.subrange(a as int, b as int) =~= t);
    while b > a && cs[b - 1] == c
        invariant
            a <= b <= cs.len(),
            t == cs@.skip(a as int),
            strip_char_end(t, c) == strip_char_end(cs@.subrange(a as int, b as int), c),
        decreases b,
    {
        assert(cs@.subrange(a as int, b as int).drop_last() =~= cs@.subrange(a as int, b - 1));
        b -= 1;
    }
    (a, b)
}

/// `cs` starts with `p`.
pub fn has_prefix(cs: &[char], p: &[char]) -> (b: bool)
    ensures
        b == starts_with(cs@, p@),
{
    if p.len() > cs.len() {
        return false;
    }
    let mut i: usize = 0;
    while i < p.len()
        invariant
            p.len() <= cs.len(),
            i <= p.len(),
            forall|j: int| 0 <= j < i ==> cs@[j] == p@[j],
        decreases p.len() - i,
    {
        if cs[i] != p[i] {
            assert(cs@.take(p.len() as int)[i as int] != p@[i as int]);
            return false;
        }
        i += 1;
    }
    assert(cs@.take(p.len() as int) =~= p@);
    true
}

/// `cs` ends with `p`.
pub fn has_suffix(cs: &[char], p: &[char]) -> (b: bool)
    ensures
        b == ends_with(cs@, p@),
{
    if p.len() > cs.len() {
        return false;
    }
    let off = cs.len() - p.len();
    let mut i: usize = 0;
    while i < p.len()
        invariant
            p.len() <= cs.len(),
            off == cs.len() - p.len(),
            i <= p.len(),
            forall|j: int| 0 <= j < i ==> cs@[off + j] == p@[j],
        decreases p.len() - i,
    {
        if cs[off + i] != p[i] {
            assert(cs@.skip(off as int)[i as int] != p@[i as int]);
            return false;
        }
        i += 1;
    }
    assert(cs@.skip(off as int) =~= p@);
    true
}

/// Does `p` occur in `cs` at `i`?
pub fn occurs_at_exec(cs: &[char], p: &[char], i: usize) -> (b: bool)
    ensures
        b == occurs_at(cs@, p@, i as int),
{
    if i > cs.len() || p.len() > cs.len() - i {
        return false;
    }
    let mut k: usize = 0;
    while k < p.len()
        invariant
            i + p.len() <= cs.len(),
            k <= p.len(),
            forall|j: int| 0 <= j < k ==> cs@[i + j] == p@[j],
        decreases p.len() - k,
    {
        if cs[i + k] != p[k] {
            assert(cs@.subrange(i as int, i + p.len())[k as int] != p@[k as int]);
            return false;
        }
        k += 1;
    }
    assert(cs@.subrange(i as int, i + p.len()) =~= p@);
    true
}

/// Does `p` occur anywhere in `cs`?
pub fn contains_chars(cs: &[char], p: &[char]) -> (b: bool)
    ensures
        b == contains_seq(cs@, p@),
{
    if p.len() == 0 {
        assert(occurs_at(cs@, p@, 0)) by {
            assert(cs@.subrange(0, 0) =~= p@);
        }
        return true;
    }
    let mut i: usize = 0;
    while i < cs.len()
        invariant
            i <= cs.len(),
            p.len() > 0,
            forall|j: int| 0 <= j < i ==> !occurs_at(cs@, p@, j),
        decreases cs.len() - i,
    {
        if occurs_at_exec(cs, p, i) {
            return true;
        }
        i += 1;
    }
    assert forall|j: int| !occurs_at(cs@, p@, j) by {
        if 0 <= j && j + p@.len() <= cs@.len() {
            assert(j < i);
        }
    }
    false
}

/// Does `c` occur in `cs`?
pub fn has_char(cs: &[char], c: char) -> (b: bool)
    ensures
        b == cs@.contains(c),
{
    let mut i: usize = 0;
    while i < cs.len()
        invariant
            i <= cs.len(),
            forall|j: int| 0 <= j < i ==> cs@[j] != c,
        decreases cs.len() - i,
    {
        if cs[i] == c {
            return true;
        }
        i += 1;
    }
    false
}

/// The pieces of `ls` joined with `sep` between them.
pub fn join_chars(ls: &[Vec<char>], sep: &[char]) -> (out: Vec<char>)
    ensures
        out@ == join(seqs_of(ls@), sep@),
{
    let mut out: Vec<char> = Vec::new();
    let mut i: usize = 0;
    assert(seqs_of(ls@).take(0) =~= seq![]);
    while i < ls.len()
        invariant
            i <= ls.len(),
            out@ == join(seqs_of(ls@).take(i as int), sep@),
        decreases ls.len() - i,
    {
        let ghost before = out@;
        if i > 0 {
            out.extend_from_slice(sep);
        }
        out.extend_from_slice(ls[i].as_slice());
        proof {
            let t = seqs_of(ls@).take(i + 1);
            assert(t.drop_last() =~= seqs_of(ls@).take(i as int));
            if i == 0 {
                assert(out@ =~= t[0]);
            } else {
                assert(out@ =~= before + sep@ + t.last());
            }
        }
        i += 1;
    }
    assert(seqs_of(ls@).take(ls.len() as int) =~= seqs_of(ls@));
    out
}

/// `str::trim` over characters.
pub fn trim_chars(cs: &[char]) -> (out: Vec<char>)
    ensures
        out@ == trim(cs@),
{
    let (a, b) = trim_range(cs);
    slice_vec(cs, a, b)
}

/// `str::lines` over characters.
pub fn split_lines(cs: &[char]) -> (out: Vec<Vec<char>>)
    ensures
        seqs_of(out@) == lines(cs@),
{
    let mut out: Vec<Vec<char>> = Vec::new();
    let mut cur: Vec<char> = Vec::new();
    let mut start: usize = 0;
    let mut i: usize = 0;
    assert(cs@.subrange(0, cs.len() as int) =~= cs@);
    assert(seqs_of(out@) =~= seq![]);
    assert(seqs_of(out@) + lines(cs@) =~= lines(cs@));
    while i < cs.len()
        invariant
            start <= i <= cs.len(),
            cur@ == cs@.subrange(start as int, i as int),
            forall|j: int| start <= j < i ==> cs@[j] != '\n',
            seqs_of(out@) + lines(cs@.subrange(start as int, cs.len() as int)) == lines(cs@),
        decreases cs.len() - i,
    {
        let c = cs[i];
        if c == '\n' {
            let ghost rest = cs@.subrange(start as int, cs.len() as int);
            proof {
                lemma_nl_pos_is(rest, (i - start) as int);
                assert(rest.take((i - start) as int) =~= cur@);
                assert(rest.skip((i - start) + 1) =~= cs@.subrange(i + 1, cs.len() as int));
            }
            let line = if cur.len() > 0 && cur[cur.len() - 1] == '\r' {
                let mut l = cur.clone();
                l.pop();
                l
            } else {
                cur.clone()
            };
            assert(line@ == strip_cr(cur@));
            let ghost before = seqs_of(out@);
            out.push(line);
            assert(seqs_of(out@) =~= before.push(strip_cr(cur@)));
            assert(seqs_of(out@) + lines(cs@.subrange(i + 1, cs.len() as int)) =~= before
                + lines(rest));
            cur = Vec::new();
            start = i + 1;
            assert(cur@ =~= cs@.subrange(start as int, (i + 1) as int));
        } else {
            cur.push(c);
            assert(cur@ =~= cs@.subrange(start as int, (i + 1) as int));
        }
        i += 1;
    }
    let ghost rest = cs@.subrange(start as int, cs.len() as int);
    if cur.len() > 0 {
        proof {
            lemma_nl_pos_is(rest, rest.len() as int);
            assert(rest =~= cur@);
        }
        let ghost before = seqs_of(out@);
        out.push(cur);
        assert(seqs_of(out@) =~= before + lines(rest));
    } else {
        assert(rest.len() == 0);
        assert(seqs_of(out@) =~= seqs_of(out@) + lines(rest));
    }
    out
}

} // verus!
