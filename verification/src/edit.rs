//! Rename by editing a list of names (vidir-style): matching the edited lines
//! 1:1 against the original names, and saying why a list cannot be applied.
use vstd::prelude::*;

use crate::count::{decimal, decimal_chars};
use crate::lang::{tr_spec, Lang};
use crate::text::{chars_of, has_char, string_of};

verus! {

/// Why an edited rename list cannot be applied. Carried as data so the
/// user-facing message can be localized at the edge.
#[derive(Debug, PartialEq, Eq)]
pub enum PlanError {
    /// Line count changed — the 1:1 mapping to files is gone.
    CountMismatch { was: usize, now: usize },
    /// A line is empty or still `.`/`..`.
    BadName(String),
    /// A name contains a path separator; this is rename, not move.
    HasSeparator(String),
    /// Two lines want the same final name.
    Duplicate(String),
}

/// A problem with one edited name.
pub ghost enum Problem {
    Bad(Seq<char>),
    Sep(Seq<char>),
    Dup(Seq<char>),
}

/// Empty, `.` or `..`: not a name.
pub open spec fn bad_name(n: Seq<char>) -> bool {
    n.len() == 0 || n == seq!['.'] || n == seq!['.', '.']
}

/// A path separator of either platform.
pub open spec fn has_separator(n: Seq<char>) -> bool {
    n.contains('/') || n.contains('\\')
}

/// What is wrong with the `i`-th edited name, checked in that order.
pub open spec fn problem_at(new: Seq<Seq<char>>, i: int) -> Option<Problem> {
    let n = new[i];
    if bad_name(n) {
        Some(Problem::Bad(n))
    } else if has_separator(n) {
        Some(Problem::Sep(n))
    } else if new.take(i).contains(n) {
        Some(Problem::Dup(n))
    } else {
        None
    }
}

/// The first problem among the first `k` edited names.
pub open spec fn first_problem(new: Seq<Seq<char>>, k: int) -> Option<Problem>
    decreases k,
{
    if k <= 0 {
        None
    } else {
        match first_problem(new, k - 1) {
            Some(p) => Some(p),
            None => problem_at(new, k - 1),
        }
    }
}

/// The pairs `(old, new)` whose name changed, in list order.
pub open spec fn changed_pairs(old: Seq<Seq<char>>, new: Seq<Seq<char>>) -> Seq<(Seq<char>, Seq<char>)>
    decreases old.len(),
{
    if old.len() == 0 || new.len() == 0 {
        seq![]
    } else if old[0] == new[0] {
        changed_pairs(old.drop_first(), new.drop_first())
    } else {
        seq![(old[0], new[0])] + changed_pairs(old.drop_first(), new.drop_first())
    }
}

pub open spec fn names(v: Seq<String>) -> Seq<Seq<char>> {
    Seq::new(v.len(), |i: int| v[i]@)
}

pub open spec fn pair_views(v: Seq<(String, String)>) -> Seq<(Seq<char>, Seq<char>)> {
    Seq::new(v.len(), |i: int| (v[i].0@, v[i].1@))
}

fn is_bad_name(n: &[char]) -> (b: bool)
    ensures
        b == bad_name(n@),
{
    if n.len() == 0 {
        return true;
    }
    if n.len() == 1 && n[0] == '.' {
        assert(n@ =~= seq!['.']);
        return true;
    }
    if n.len() == 2 && n[0] == '.' && n[1] == '.' {
        assert(n@ =~= seq!['.', '.']);
        return true;
    }
    assert(n@ != seq!['.']) by {
        if n@ == seq!['.'] {
            assert(n@.len() == 1 && n@[0] == '.');
        }
    }
    assert(n@ != seq!['.', '.']) by {
        if n@ == seq!['.', '.'] {
            assert(n@.len() == 2 && n@[0] == '.' && n@[1] == '.');
        }
    }
    false
}

proof fn lemma_changed_pairs_step(old: Seq<Seq<char>>, new: Seq<Seq<char>>, i: int)
    requires
        old.len() == new.len(),
        0 <= i < old.len(),
    ensures
        changed_pairs(old.skip(i), new.skip(i)) == (if old[i] == new[i] {
            seq![]
        } else {
            seq![(old[i], new[i])]
        }) + changed_pairs(old.skip(i + 1), new.skip(i + 1)),
{
    assert(old.skip(i)[0] == old[i]);
    assert(new.skip(i)[0] == new[i]);
    assert(old.skip(i).drop_first() =~= old.skip(i + 1));
    assert(new.skip(i).drop_first() =~= new.skip(i + 1));
    if old[i] == new[i] {
        assert(seq![] + changed_pairs(old.skip(i + 1), new.skip(i + 1)) =~= changed_pairs(
            old.skip(i + 1),
            new.skip(i + 1),
        ));
    }
}

proof fn lemma_first_problem_stays(new: Seq<Seq<char>>, k: int, k2: int)
    requires
        0 <= k <= k2,
    ensures
        first_problem(new, k) is Some ==> first_problem(new, k2) == first_problem(new, k),
    decreases k2 - k,
{
    if k < k2 {
        lemma_first_problem_stays(new, k, k2 - 1);
    }
}

/// Match the edited lines 1:1 against the original names and return the pairs
/// that actually changed, or the reason the batch must be rejected.
pub fn plan_bulk_rename(old: &[String], new: &[String]) -> (out: Result<Vec<(String, String)>, PlanError>)
    ensures
        match out {
            Err(PlanError::CountMismatch { was, now }) => old.len() != new.len() && was == old.len()
                && now == new.len(),
            Err(PlanError::BadName(n)) => old.len() == new.len() && first_problem(
                names(new@),
                new.len() as int,
            ) == Some(Problem::Bad(n@)),
            Err(PlanError::HasSeparator(n)) => old.len() == new.len() && first_problem(
                names(new@),
                new.len() as int,
            ) == Some(Problem::Sep(n@)),
            Err(PlanError::Duplicate(n)) => old.len() == new.len() && first_problem(
                names(new@),
                new.len() as int,
            ) == Some(Problem::Dup(n@)),
            Ok(pairs) => old.len() == new.len() && first_problem(names(new@), new.len() as int)
                is None && pair_views(pairs@) == changed_pairs(names(old@), names(new@)) && (forall|
                i: int,
                j: int,
            | 0 <= i < j < new.len() ==> new@[i]@ != new@[j]@),
        },
{
    if old.len() != new.len() {
        return Err(PlanError::CountMismatch { was: old.len(), now: new.len() });
    }
    let ghost nv = names(new@);
    let mut i: usize = 0;
    while i < new.len()
        invariant
            i <= new.len(),
            nv == names(new@),
            old.len() == new.len(),
            first_problem(nv, i as int) is None,
        decreases new.len() - i,
    {
        proof {
            lemma_first_problem_stays(nv, i + 1, new.len() as int);
        }
        let n = chars_of(new[i].as_str());
        assert(n@ == nv[i as int]);
        if is_bad_name(n.as_slice()) {
            return Err(PlanError::BadName(new[i].clone()));
        }
        if has_char(n.as_slice(), '/') || has_char(n.as_slice(), '\\') {
            return Err(PlanError::HasSeparator(new[i].clone()));
        }
        let mut j: usize = 0;
        while j < i
            invariant
                j <= i < new.len(),
                nv == names(new@),
                n@ == nv[i as int],
                old.len() == new.len(),
                first_problem(nv, i as int) is None,
                first_problem(nv, i + 1) is Some ==> first_problem(nv, new.len() as int)
                    == first_problem(nv, i + 1),
                !bad_name(n@),
                !has_separator(n@),
                forall|k: int| 0 <= k < j ==> nv[k] != n@,
            decreases i - j,
        {
            if new[j] == new[i] {
                assert(nv.take(i as int)[j as int] == n@);
                return Err(PlanError::Duplicate(new[i].clone()));
            }
            j += 1;
        }
        assert(!nv.take(i as int).contains(n@));
        i += 1;
    }
    let ghost ov = names(old@);
    let mut pairs: Vec<(String, String)> = Vec::new();
    let mut k: usize = 0;
    assert(ov.skip(0) =~= ov);
    assert(nv.skip(0) =~= nv);
    assert(pair_views(pairs@) + changed_pairs(ov, nv) =~= changed_pairs(ov, nv));
    while k < old.len()
        invariant
            k <= old.len() == new.len(),
            ov == names(old@),
            nv == names(new@),
            pair_views(pairs@) + changed_pairs(ov.skip(k as int), nv.skip(k as int))
                == changed_pairs(ov, nv),
            first_problem(nv, new.len() as int) is None,
        decreases old.len() - k,
    {
        proof {
            lemma_changed_pairs_step(ov, nv, k as int);
        }
        assert(ov[k as int] == old@[k as int]@ && nv[k as int] == new@[k as int]@);
        if old[k] != new[k] {
            let ghost before = pair_views(pairs@);
            pairs.push((old[k].clone(), new[k].clone()));
            assert(pair_views(pairs@) =~= before.push((ov[k as int], nv[k as int])));
            assert(pair_views(pairs@) + changed_pairs(ov.skip(k + 1), nv.skip(k + 1)) =~= before
                + changed_pairs(ov.skip(k as int), nv.skip(k as int)));
        }
        k += 1;
    }
    assert(ov.skip(k as int).len() == 0);
    assert(pair_views(pairs@) + seq![] =~= pair_views(pairs@));
    proof {
        lemma_no_problem_names(nv, new.len() as int);
        assert forall|i: int, j: int| 0 <= i < j < new.len() implies new@[i]@ != new@[j]@ by {
            assert(nv[i] == new@[i]@ && nv[j] == new@[j]@);
        }
    }
    Ok(pairs)
}

/// Rust's `{:?}` rendering of a string: quoted, with escapes.
pub uninterp spec fn debug_quoted(s: Seq<char>) -> Seq<char>;

/// `format!("{:?}", s)` for a string. Claimed only that its result is named
/// by `debug_quoted(s)`; the escaping rules themselves are std's.
#[verifier::external_body]
fn debug_string(s: &str) -> (out: Vec<char>)
    ensures
        out@ == debug_quoted(s@),
{
    format!("{:?}", s).chars().collect()
}

/// The user-facing message for a rejected rename list.
pub open spec fn plan_error_text(lang: Lang, e: PlanError) -> Seq<char> {
    match e {
        PlanError::CountMismatch { was, now } => tr_spec(
            lang,
            "bulk rename cancelled — line count changed ("@ + decimal(was as nat) + " → "@
                + decimal(now as nat) + "); add or remove no lines"@,
            "一括リネーム中止 — 行数が変わっています（"@ + decimal(was as nat) + " → "@
                + decimal(now as nat) + "）。行の追加・削除はできません"@,
        ),
        PlanError::BadName(n) => tr_spec(
            lang,
            "bulk rename cancelled — invalid name: "@ + debug_quoted(n@),
            "一括リネーム中止 — 無効な名前: "@ + debug_quoted(n@),
        ),
        PlanError::HasSeparator(n) => tr_spec(
            lang,
            "bulk rename cancelled — path separators not allowed: "@ + n@,
            "一括リネーム中止 — パス区切りは使えません: "@ + n@,
        ),
        PlanError::Duplicate(n) => tr_spec(
            lang,
            "bulk rename cancelled — duplicate name: "@ + n@,
            "一括リネーム中止 — 名前が重複しています: "@ + n@,
        ),
    }
}

/// The user-facing message for a rejected rename list.
pub fn tr_plan_error(lang: Lang, e: &PlanError) -> (out: String)
    ensures
        out@ == plan_error_text(lang, *e),
{
    let ja = match lang {
        Lang::Ja => true,
        Lang::En => false,
    };
    let mut v: Vec<char>;
    match e {
        PlanError::CountMismatch { was, now } => {
            let a = decimal_chars(*was);
            let b = decimal_chars(*now);
            if ja {
                v = chars_of("一括リネーム中止 — 行数が変わっています（");
                v.extend_from_slice(a.as_slice());
                let mid = chars_of(" → ");
                v.extend_from_slice(mid.as_slice());
                v.extend_from_slice(b.as_slice());
                let tail = chars_of("）。行の追加・削除はできません");
                v.extend_from_slice(tail.as_slice());
            } else {
                v = chars_of("bulk rename cancelled — line count changed (");
                v.extend_from_slice(a.as_slice());
                let mid = chars_of(" → ");
                v.extend_from_slice(mid.as_slice());
                v.extend_from_slice(b.as_slice());
                let tail = chars_of("); add or remove no lines");
                v.extend_from_slice(tail.as_slice());
            }
        },
        PlanError::BadName(n) => {
            v = if ja {
                chars_of("一括リネーム中止 — 無効な名前: ")
            } else {
                chars_of("bulk rename cancelled — invalid name: ")
            };
            let q = debug_string(n.as_str());
            v.extend_from_slice(q.as_slice());
        },
        PlanError::HasSeparator(n) => {
            v = if ja {
                chars_of("一括リネーム中止 — パス区切りは使えません: ")
            } else {
                chars_of("bulk rename cancelled — path separators not allowed: ")
            };
            let q = chars_of(n.as_str());
            v.extend_from_slice(q.as_slice());
        },
        PlanError::Duplicate(n) => {
            v = if ja {
                chars_of("一括リネーム中止 — 名前が重複しています: ")
            } else {
                chars_of("bulk rename cancelled — duplicate name: ")
            };
            let q = chars_of(n.as_str());
            v.extend_from_slice(q.as_slice());
        },
    }
    string_of(v.as_slice())
}


/// A list with no problem among its first `k` names has no two of them
/// alike, and none of them empty, `.`, `..` or holding a separator.
proof fn lemma_no_problem_names(new: Seq<Seq<char>>, k: int)
    requires
        0 <= k <= new.len(),
        first_problem(new, k) is None,
    ensures
        forall|i: int, j: int| 0 <= i < j < k ==> new[i] != new[j],
        forall|i: int| 0 <= i < k ==> !bad_name(#[trigger] new[i]) && !has_separator(new[i]),
    decreases k,
{
    if k > 0 {
        lemma_no_problem_names(new, k - 1);
        assert(problem_at(new, k - 1) is None);
        assert forall|i: int| 0 <= i < k - 1 implies #[trigger] new[i] != new[k - 1] by {
            assert(new.take(k - 1)[i] == new[i]);
        }
    }
}

/// A rename list is accepted only when every edited name is a real name
/// without a separator and no two edited names are the same: two files are
/// never renamed onto one name.
pub proof fn law_accepted_names_distinct(old: Seq<Seq<char>>, new: Seq<Seq<char>>)
    requires
        old.len() == new.len(),
        first_problem(new, new.len() as int) is None,
    ensures
        forall|i: int, j: int| 0 <= i < j < new.len() ==> new[i] != new[j],
        forall|i: int| 0 <= i < new.len() ==> (#[trigger] new[i]).len() > 0 && new[i] != seq!['.'] && new[i]
            != seq!['.', '.'] && !new[i].contains('/') && !new[i].contains('\\'),
{
    lemma_no_problem_names(new, new.len() as int);
}

} // verus!
