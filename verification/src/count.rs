//! Thousands grouping for the file/step counter's report.
use vstd::prelude::*;

use crate::text::{chars_of, string_of};

verus! {

/// The character for a decimal digit `d` (0..=9).
pub open spec fn digit_char(d: nat) -> char {
    (d + 48) as char
}

/// The decimal digits of `n`, most significant first, with no leading zeros
/// (zero itself is `"0"`).
pub open spec fn decimal(n: nat) -> Seq<char>
    decreases n,
{
    if n < 10 {
        seq![digit_char(n)]
    } else {
        decimal(n / 10).push(digit_char(n % 10))
    }
}

/// A run of digits with a `,` before each group of three counted from the
/// right: `"1234567"` becomes `"1,234,567"`.
pub open spec fn with_commas(s: Seq<char>) -> Seq<char>
    decreases s.len(),
{
    if s.len() <= 3 {
        s
    } else {
        with_commas(s.take(s.len() - 3)).push(',') + s.skip(s.len() - 3)
    }
}

/// The three digits of `n % 1000`, zero-padded.
pub open spec fn three_digits(n: nat) -> Seq<char> {
    seq![digit_char((n / 100) % 10), digit_char((n / 10) % 10), digit_char(n % 10)]
}

proof fn lemma_decimal_split(n: nat)
    requires
        n >= 1000,
    ensures
        decimal(n) == decimal(n / 1000) + three_digits(n),
        decimal(n / 1000).len() >= 1,
{
    let a = n / 10;
    let b = a / 10;
    assert(b == n / 100) by {
        vstd::arithmetic::div_mod::lemma_div_denominator(n as int, 10, 10);
    }
    assert(b / 10 == n / 1000) by {
        vstd::arithmetic::div_mod::lemma_div_denominator(n as int, 100, 10);
    }
    assert(a % 10 == (n / 10) % 10);
    assert(b >= 10);
    assert(decimal(n) == decimal(a).push(digit_char(n % 10)));
    assert(decimal(a) == decimal(b).push(digit_char(a % 10)));
    assert(decimal(b) == decimal(b / 10).push(digit_char(b % 10)));
    lemma_decimal_nonempty(n / 1000);
    assert(decimal(n) =~= decimal(n / 1000) + three_digits(n));
}

proof fn lemma_decimal_nonempty(n: nat)
    ensures
        decimal(n).len() >= 1,
    decreases n,
{
    if n >= 10 {
        lemma_decimal_nonempty(n / 10);
    }
}

proof fn lemma_commas_step(head: Seq<char>, tail: Seq<char>)
    requires
        head.len() >= 1,
        tail.len() == 3,
    ensures
        with_commas(head + tail) == with_commas(head).push(',') + tail,
{
    let s = head + tail;
    assert(s.take(s.len() - 3) =~= head);
    assert(s.skip(s.len() - 3) =~= tail);
}

/// The character for one decimal digit.
fn digit(d: usize) -> (c: char)
    requires
        d < 10,
    ensures
        c == digit_char(d as nat),
{
    (d as u8 + 48u8) as char
}

/// The decimal digits of a number below 1000, as characters.
fn small_decimal(n: usize) -> (out: Vec<char>)
    requires
        n < 1000,
    ensures
        out@ == decimal(n as nat),
        out.len() <= 3,
{
    let mut out: Vec<char> = Vec::new();
    if n >= 100 {
        out.push(digit(n / 100));
    }
    if n >= 10 {
        out.push(digit((n / 10) % 10));
    }
    out.push(digit(n % 10));
    proof {
        if n >= 100 {
            assert(decimal((n / 10) as nat) == decimal((n / 100) as nat).push(digit_char(((n / 10) % 10) as nat)));
        }
        if n >= 10 {
            assert(decimal(n as nat) == decimal((n / 10) as nat).push(digit_char((n % 10) as nat)));
        }
    }
    assert(out@ =~= decimal(n as nat));
    out
}

/// `n` in decimal with thousands separators, as characters.
fn group_chars(n: usize) -> (out: Vec<char>)
    ensures
        out@ == with_commas(decimal(n as nat)),
    decreases n,
{
    if n < 1000 {
        let out = small_decimal(n);
        proof {
        }
        out
    } else {
        let mut out = group_chars(n / 1000);
        let ghost head = out@;
        out.push(',');
        out.push(digit((n / 100) % 10));
        out.push(digit((n / 10) % 10));
        out.push(digit(n % 10));
        proof {
            lemma_decimal_split(n as nat);
            lemma_commas_step(decimal((n / 1000) as nat), three_digits(n as nat));
            assert(out@ =~= head.push(',') + three_digits(n as nat));
        }
        out
    }
}

/// The decimal digits of `n`, as characters.
pub fn decimal_chars(n: usize) -> (out: Vec<char>)
    ensures
        out@ == decimal(n as nat),
    decreases n,
{
    if n < 10 {
        let mut out = Vec::new();
        out.push(digit(n));
        assert(out@ =~= decimal(n as nat));
        out
    } else {
        let mut out = decimal_chars(n / 10);
        out.push(digit(n % 10));
        out
    }
}

/// `n.to_string()`.
pub fn decimal_string(n: usize) -> (out: String)
    ensures
        out@ == decimal(n as nat),
{
    let cs = decimal_chars(n);
    string_of(cs.as_slice())
}

/// Group a number with thousands separators: 1234567 becomes "1,234,567".
pub fn group(n: usize) -> (out: String)
    ensures
        out@ == with_commas(decimal(n as nat)),
{
    let cs = group_chars(n);
    string_of(cs.as_slice())
}

/// `i` in decimal, with a `-` when negative (`i64::to_string`).
pub open spec fn int_decimal(i: int) -> Seq<char> {
    if i < 0 {
        seq!['-'] + decimal((-i) as nat)
    } else {
        decimal(i as nat)
    }
}

/// The decimal digits of `n`, as characters.
pub fn decimal_chars_u64(n: u64) -> (out: Vec<char>)
    ensures
        out@ == decimal(n as nat),
    decreases n,
{
    if n < 10 {
        let mut out = Vec::new();
        out.push(((n as u8) + 48u8) as char);
        assert(out@ =~= decimal(n as nat));
        out
    } else {
        let mut out = decimal_chars_u64(n / 10);
        out.push((((n % 10) as u8) + 48u8) as char);
        out
    }
}

/// `i.to_string()` for an `i64`.
pub fn int_string(i: i64) -> (out: String)
    ensures
        out@ == int_decimal(i as int),
{
    if i < 0 {
        let m: u64 = if i == i64::MIN {
            9223372036854775808u64
        } else {
            (-i) as u64
        };
        let mut v = vec!['-'];
        v.extend_from_slice(decimal_chars_u64(m).as_slice());
        assert(v@ =~= seq!['-'] + decimal((-(i as int)) as nat));
        string_of(v.as_slice())
    } else {
        string_of(decimal_chars_u64(i as u64).as_slice())
    }
}

/// Is every character of `s` a decimal digit?
pub open spec fn all_digits(s: Seq<char>) -> bool {
    forall|i: int| 0 <= i < s.len() ==> '0' <= s[i] && s[i] <= '9'
}

/// The number the digits of `s` spell.
pub open spec fn digits_value(s: Seq<char>) -> int
    decreases s.len(),
{
    if s.len() == 0 {
        0
    } else {
        digits_value(s.drop_last()) * 10 + (s.last() as int - 48)
    }
}

/// What `str::parse::<i64>` reads from `s`: an optional sign and at least
/// one digit, nothing else, within range.
pub open spec fn parse_i64_spec(s: Seq<char>) -> Option<int> {
    let neg = s.len() > 0 && s[0] == '-';
    let ds = if s.len() > 0 && (s[0] == '-' || s[0] == '+') {
        s.drop_first()
    } else {
        s
    };
    if ds.len() == 0 || !all_digits(ds) {
        None
    } else {
        let v = if neg {
            -digits_value(ds)
        } else {
            digits_value(ds)
        };
        if i64::MIN <= v && v <= i64::MAX {
            Some(v)
        } else {
            None
        }
    }
}

proof fn lemma_digits_grow(s: Seq<char>, i: int)
    requires
        all_digits(s),
        0 <= i <= s.len(),
    ensures
        digits_value(s) >= digits_value(s.take(i)),
        digits_value(s.take(i)) >= 0,
    decreases s.len(),
{
    if s.len() == 0 {
        assert(s.take(i) =~= s);
    } else if i == s.len() {
        assert(s.take(i) =~= s);
        lemma_digits_grow(s.drop_last(), i - 1);
        assert(s.drop_last().take(i - 1) =~= s.drop_last());
    } else {
        lemma_digits_grow(s.drop_last(), i);
        assert(s.drop_last().take(i) =~= s.take(i));
        lemma_digits_grow(s.drop_last(), s.len() - 1);
        assert(s.drop_last().take(s.len() - 1) =~= s.drop_last());
    }
}

/// `str::parse::<i64>`.
pub fn parse_i64(s: &str) -> (r: Option<i64>)
    ensures
        match r {
            Some(v) => parse_i64_spec(s@) == Some(v as int),
            None => parse_i64_spec(s@) is None,
        },
{
    let cs = chars_of(s);
    let n = cs.len();
    let neg = n > 0 && cs[0] == '-';
    let start: usize = if n > 0 && (cs[0] == '-' || cs[0] == '+') {
        1
    } else {
        0
    };
    let ghost ds = if cs@.len() > 0 && (cs@[0] == '-' || cs@[0] == '+') {
        cs@.drop_first()
    } else {
        cs@
    };
    assert(ds =~= cs@.skip(start as int));
    if start >= n {
        return None;
    }
    let mut acc: i128 = 0;
    let mut i = start;
    assert(ds.take(0) =~= seq![]);
    while i < n
        invariant
            start <= i <= n,
            n == cs@.len(),
            cs@ == s@,
            ds == cs@.skip(start as int),
            ds == if s@.len() > 0 && (s@[0] == '-' || s@[0] == '+') {
                s@.drop_first()
            } else {
                s@
            },
            neg == (s@.len() > 0 && s@[0] == '-'),
            all_digits(ds.take(i - start)),
            acc == digits_value(ds.take(i - start)),
            0 <= acc <= 9223372036854775808,
        decreases n - i,
    {
        let c = cs[i];
        if !('0' <= c && c <= '9') {
            assert(ds[i - start] == c);
            return None;
        }
        let d = (c as u32 - 48) as i128;
        acc = acc * 10 + d;
        proof {
            let t = ds.take(i + 1 - start);
            assert(t.drop_last() =~= ds.take(i - start));
            assert(t.last() == c);
            assert(all_digits(t));
        }
        if acc > 9223372036854775808 {
            proof {
                let k = i + 1 - start;
                if all_digits(ds) {
                    lemma_digits_grow(ds, k as int);
                }
            }
            return None;
        }
        i += 1;
    }
    assert(ds.take(n - start) =~= ds);
    if neg {
        Some((-acc) as i64)
    } else if acc <= 9223372036854775807 {
        Some(acc as i64)
    } else {
        None
    }
}

} // verus!
