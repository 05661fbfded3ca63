//! The review-and-approve lists (duplicate files, junk candidates): filling
//! the duplicate review from a finished scan, and handing what is checked to
//! the ordinary delete confirmation.
use vstd::prelude::*;

use crate::actions::{message_only, popup_only};
use crate::count::{decimal, decimal_chars};
use crate::lang::{tr_spec, tr_string};
use crate::state::{path_views, says, App, DupeItem, Effect, JunkItem, Popup, RenameItem};
use crate::text::{cat, chars_of, push_chars, views};

verus! {

/// A duplicate-review row as plain values: path, group, keeper, checked.
pub open spec fn dupe_row(d: DupeItem) -> (Seq<char>, int, bool, bool) {
    (d.path@, d.group as int, d.keeper, d.selected)
}

/// The rows for group `g`: its first file is the keeper (left unchecked),
/// the others are checked for deletion.
pub open spec fn group_rows(group: Seq<Seq<char>>, g: int) -> Seq<(Seq<char>, int, bool, bool)> {
    Seq::new(group.len(), |i: int| (group[i], g, i == 0, i != 0))
}

/// All the rows, group after group.
pub open spec fn dupe_rows(groups: Seq<Seq<Seq<char>>>) -> Seq<(Seq<char>, int, bool, bool)>
    decreases groups.len(),
{
    if groups.len() == 0 {
        seq![]
    } else {
        dupe_rows(groups.drop_last()) + group_rows(groups.last(), groups.len() - 1)
    }
}

/// The groups as character sequences.
pub open spec fn group_views(groups: Seq<Vec<String>>) -> Seq<Seq<Seq<char>>> {
    Seq::new(groups.len(), |i: int| views(groups[i]@))
}

/// The checked paths of a duplicate review, in order.
pub open spec fn checked_dupes(items: Seq<DupeItem>) -> Seq<Seq<char>>
    decreases items.len(),
{
    if items.len() == 0 {
        seq![]
    } else {
        checked_dupes(items.drop_last()) + if items.last().selected {
            seq![items.last().path@]
        } else {
            seq![]
        }
    }
}

/// The checked paths of a junk review, in order.
pub open spec fn checked_junk(items: Seq<JunkItem>) -> Seq<Seq<char>>
    decreases items.len(),
{
    if items.len() == 0 {
        seq![]
    } else {
        checked_junk(items.drop_last()) + if items.last().selected {
            seq![items.last().path@]
        } else {
            seq![]
        }
    }
}

fn checked_dupe_paths(items: &Vec<DupeItem>) -> (out: Vec<String>)
    ensures
        path_views(out@) == checked_dupes(items@),
{
    let mut out: Vec<String> = Vec::new();
    let mut i: usize = 0;
    assert(path_views(out@) =~= checked_dupes(items@.take(0)));
    while i < items.len()
        invariant
            i <= items@.len(),
            path_views(out@) == checked_dupes(items@.take(i as int)),
        decreases items.len() - i,
    {
        assert(items@.take(i + 1).drop_last() =~= items@.take(i as int));
        let ghost before = path_views(out@);
        if items[i].selected {
            out.push(items[i].path.clone());
            assert(path_views(out@) =~= before + seq![items@[i as int].path@]);
        } else {
            assert(path_views(out@) =~= before + seq![]);
        }
        i += 1;
    }
    assert(items@.take(items.len() as int) =~= items@);
    out
}

fn checked_junk_paths(items: &Vec<JunkItem>) -> (out: Vec<String>)
    ensures
        path_views(out@) == checked_junk(items@),
{
    let mut out: Vec<String> = Vec::new();
    let mut i: usize = 0;
    assert(path_views(out@) =~= checked_junk(items@.take(0)));
    while i < items.len()
        invariant
            i <= items@.len(),
            path_views(out@) == checked_junk(items@.take(i as int)),
        decreases items.len() - i,
    {
        assert(items@.take(i + 1).drop_last() =~= items@.take(i as int));
        let ghost before = path_views(out@);
        if items[i].selected {
            out.push(items[i].path.clone());
            assert(path_views(out@) =~= before + seq![items@[i as int].path@]);
        } else {
            assert(path_views(out@) =~= before + seq![]);
        }
        i += 1;
    }
    assert(items@.take(items.len() as int) =~= items@);
    out
}

impl App {
    /// Hand what the open review has checked to the ordinary delete
    /// confirmation — never straight to disk from here.
    pub fn confirm_review_deletion(&mut self)
        ensures
            !(old(self).popup is JunkReview || old(self).popup is DupeReview) ==> *final(self) == *old(
                self,
            ),
            ({
                let checked = match old(self).popup {
                    Popup::JunkReview { items, .. } => checked_junk(items@),
                    Popup::DupeReview { items, .. } => checked_dupes(items@),
                    _ => seq![],
                };
                &&& (old(self).popup is JunkReview || old(self).popup is DupeReview) && checked.len()
                    == 0 ==> message_only(*old(self), *final(self)) && says(
                    final(self).message,
                    tr_spec(old(self).lang, "nothing checked"@, "チェックされていません"@),
                )
                &&& (old(self).popup is JunkReview || old(self).popup is DupeReview) && checked.len()
                    > 0 ==> popup_only(*old(self), *final(self)) && (final(self).popup matches Popup::ConfirmDelete {
                    targets,
                } && path_views(targets@) == checked)
            }),
    {
        let targets = match &self.popup {
            Popup::JunkReview { items, .. } => checked_junk_paths(items),
            Popup::DupeReview { items, .. } => checked_dupe_paths(items),
            _ => return ,
        };
        if targets.len() == 0 {
            self.message = Some(tr_string(self.lang, "nothing checked", "チェックされていません"));
            return ;
        }
        self.open_popup(Popup::ConfirmDelete { targets });
    }

    /// Take the duplicate scan's result once it lands (`reply` is `None`
    /// while it runs, `Some(None)` if the worker went away): no groups is
    /// said so, otherwise the review opens with each group's first file kept
    /// and the rest checked. Says whether the screen changed.
    pub fn poll_dupes_job(&mut self, reply: Option<Option<Vec<Vec<String>>>>) -> (changed: bool)
        ensures
            !old(self).ai.dupes_job || reply is None ==> !changed && *final(self) == *old(self),
            old(self).ai.dupes_job && reply == Some(None::<Vec<Vec<String>>>) ==> !changed
                && *final(self) == (App {
                ai: crate::state::AiState { dupes_job: false, ..old(self).ai },
                ..*old(self)
            }),
            old(self).ai.dupes_job ==> (reply matches Some(Some(groups)) ==> {
                &&& changed
                &&& groups@.len() == 0 ==> *final(self) == (App {
                    ai: crate::state::AiState { dupes_job: false, ..old(self).ai },
                    message: final(self).message,
                    ..*old(self)
                }) && says(
                    final(self).message,
                    tr_spec(
                        old(self).lang,
                        "no duplicate files found"@,
                        "重複ファイルは見つかりませんでした"@,
                    ),
                )
                &&& groups@.len() > 0 ==> {
                    &&& *final(self) == (App {
                        ai: crate::state::AiState { dupes_job: false, ..old(self).ai },
                        message: final(self).message,
                        popup: final(self).popup,
                        ..*old(self)
                    })
                    &&& says(
                        final(self).message,
                        decimal(groups@.len()) + " duplicate group(s) — review and delete"@,
                    )
                    &&& final(self).popup matches Popup::DupeReview { items, cursor, scroll }
                        && cursor == 0 && scroll == 0 && items@.map_values(|d: DupeItem| dupe_row(d))
                        == dupe_rows(group_views(groups@))
                }
            }),
    {
        if !self.ai.dupes_job {
            return false;
        }
        let groups = match reply {
            None => return false,
            Some(None) => {
                self.ai.dupes_job = false;
                return false;
            },
            Some(Some(g)) => g,
        };
        self.ai.dupes_job = false;
        if groups.len() == 0 {
            self.message = Some(
                tr_string(self.lang, "no duplicate files found", "重複ファイルは見つかりませんでした"),
            );
            return true;
        }
        let ghost gv = group_views(groups@);
        let mut items: Vec<DupeItem> = Vec::new();
        let mut g: usize = 0;
        assert(gv.take(0) =~= seq![]);
        assert(items@.map_values(|d: DupeItem| dupe_row(d)) =~= seq![]);
        while g < groups.len()
            invariant
                g <= groups@.len(),
                gv == group_views(groups@),
                items@.map_values(|d: DupeItem| dupe_row(d)) == dupe_rows(gv.take(g as int)),
            decreases groups.len() - g,
        {
            let ghost start = items@.map_values(|d: DupeItem| dupe_row(d));
            let group = &groups[g];
            let mut i: usize = 0;
            while i < group.len()
                invariant
                    i <= group@.len(),
                    g < groups@.len(),
                    *group == groups@[g as int],
                    gv == group_views(groups@),
                    items@.map_values(|d: DupeItem| dupe_row(d)) == start + group_rows(
                        views(group@),
                        g as int,
                    ).take(i as int),
                decreases group.len() - i,
            {
                let ghost before = items@.map_values(|d: DupeItem| dupe_row(d));
                let keeper = i == 0;
                items.push(DupeItem { path: group[i].clone(), group: g, keeper, selected: !keeper });
                assert(items@.map_values(|d: DupeItem| dupe_row(d)) =~= before.push(
                    (group@[i as int]@, g as int, i == 0, i != 0),
                ));
                assert(group_rows(views(group@), g as int).take(i + 1) =~= group_rows(
                    views(group@),
                    g as int,
                ).take(i as int).push((group@[i as int]@, g as int, i == 0, i != 0)));
                i += 1;
            }
            assert(group_rows(views(group@), g as int).take(i as int) =~= group_rows(views(group@), g as int));
            assert(gv.take(g + 1).drop_last() =~= gv.take(g as int));
            assert(gv.take(g + 1).last() == views(group@));
            g += 1;
        }
        assert(gv.take(groups.len() as int) =~= gv);
        let n = groups.len();
        let mut m = crate::text::string_of(decimal_chars(n).as_slice());
        push_chars(&mut m, chars_of(" duplicate group(s) — review and delete").as_slice());
        self.message = Some(m);
        self.open_popup(Popup::DupeReview { items, cursor: 0, scroll: 0 });
        true
    }
}

/// The names of `paths` (empty where a path has none).
pub open spec fn target_names(paths: Seq<Seq<char>>) -> Seq<Seq<char>> {
    Seq::new(
        paths.len(),
        |i: int|
            match crate::chat::path_file_name(paths[i]) {
                Some(n) => n,
                None => seq![],
            },
    )
}

/// `b` is `a` after the rename-pattern prompt was answered `pattern` for
/// `targets`: their names go, with the pattern, to be planned.
pub open spec fn bulk_rename_built(a: App, b: App, targets: Vec<String>, pattern: Seq<char>) -> bool {
    crate::prompt::effect_added(
        a,
        b,
        |e: Effect|
            e matches Effect::PlanBulkRename { targets: t, names, pattern: p } && t == targets && views(names@)
                == target_names(path_views(targets@)) && p@ == pattern,
    )
}

/// Is `new` an offered replacement for `old`: different, not empty, and
/// without a path separator?
pub open spec fn name_change_ok(old: Seq<char>, new: Seq<char>) -> bool {
    new != old && new.len() > 0 && !new.contains('/') && !new.contains('\\')
}

/// The review rows for the first `k` files: (path, old name, new name) for
/// each whose name really changes.
pub open spec fn rename_rows(
    t: Seq<Seq<char>>,
    o: Seq<Seq<char>>,
    n: Seq<Seq<char>>,
    k: int,
) -> Seq<(Seq<char>, Seq<char>, Seq<char>)>
    decreases k,
{
    if k <= 0 {
        seq![]
    } else {
        let rest = rename_rows(t, o, n, k - 1);
        if name_change_ok(o[k - 1], n[k - 1]) {
            rest.push((t[k - 1], o[k - 1], n[k - 1]))
        } else {
            rest
        }
    }
}

/// The rows of a rename review, as plain values.
pub open spec fn item_views(items: Seq<RenameItem>) -> Seq<(Seq<char>, Seq<char>, Seq<char>)> {
    Seq::new(items.len(), |i: int| (items[i].path@, items[i].old@, items[i].new@))
}

/// `b` is `a` after the planned names came back (`planned`) for `targets`
/// named `names`: the changes are offered for review, all checked; with
/// none, or a bad pattern, the message says so.
pub open spec fn bulk_rename_offered(
    a: App,
    b: App,
    targets: Seq<Seq<char>>,
    names: Seq<Seq<char>>,
    planned: Result<Seq<Seq<char>>, Seq<char>>,
) -> bool {
    match planned {
        Err(e) => message_only(a, b) && says(b.message, "rename pattern: "@ + e),
        Ok(news) => {
            let k = crate::state::min3(targets.len(), names.len(), news.len());
            let rows = rename_rows(targets, names, news, k as int);
            if rows.len() == 0 {
                message_only(a, b) && says(
                    b.message,
                    tr_spec(a.lang, "the pattern changed no names"@, "パターンで変わる名前がありません"@),
                )
            } else {
                &&& popup_only(a, b)
                &&& b.popup matches Popup::RenameReview { items, cursor, scroll } && item_views(items@) == rows
                    && cursor == 0 && scroll == 0 && forall|i: int| 0 <= i < items@.len() ==> #[trigger] items@[i].selected
            }
        },
    }
}

impl App {
    /// Send the targets' names, with the rename pattern, to be planned.
    pub fn build_bulk_rename(&mut self, targets: Vec<String>, pattern: String)
        ensures
            bulk_rename_built(*old(self), *final(self), targets, pattern@),
    {
        let mut names: Vec<String> = Vec::new();
        let mut i: usize = 0;
        while i < targets.len()
            invariant
                i <= targets@.len(),
                names@.len() == i,
                forall|k: int| 0 <= k < i ==> #[trigger] names@[k]@ == target_names(path_views(targets@))[k],
            decreases targets@.len() - i,
        {
            let n = match crate::chat::file_name(targets[i].as_str()) {
                Some(n) => n,
                None => String::new(),
            };
            names.push(n);
            i += 1;
        }
        assert(views(names@) =~= target_names(path_views(targets@)));
        let ghost e0 = self.effects@;
        self.effects.push(Effect::PlanBulkRename { targets, names, pattern });
        assert(self.effects@.drop_last() =~= e0);
    }

    /// The planned names came back for the bulk rename: offer the real
    /// changes for review.
    pub fn offer_bulk_rename(&mut self, targets: Vec<String>, names: Vec<String>, planned: Result<Vec<String>, String>)
        ensures
            bulk_rename_offered(
                *old(self),
                *final(self),
                path_views(targets@),
                views(names@),
                match planned {
                    Ok(v) => Ok(views(v@)),
                    Err(e) => Err(e@),
                },
            ),
    {
        let news = match planned {
            Ok(v) => v,
            Err(e) => {
                self.message = Some(cat("rename pattern: ", chars_of(e.as_str()).as_slice()));
                return ;
            },
        };
        let ghost t = path_views(targets@);
        let ghost o = views(names@);
        let ghost nv = views(news@);
        let k = if targets.len() <= names.len() && targets.len() <= news.len() {
            targets.len()
        } else if names.len() <= news.len() {
            names.len()
        } else {
            news.len()
        };
        let mut items: Vec<RenameItem> = Vec::new();
        let mut i: usize = 0;
        while i < k
            invariant
                i <= k,
                k <= targets@.len(),
                k <= names@.len(),
                k <= news@.len(),
                t == path_views(targets@),
                o == views(names@),
                nv == views(news@),
                item_views(items@) == rename_rows(t, o, nv, i as int),
                forall|j: int| 0 <= j < items@.len() ==> #[trigger] items@[j].selected,
            decreases k - i,
        {
            let nc = chars_of(news[i].as_str());
            let changed = !crate::text::str_eq(news[i].as_str(), names[i].as_str());
            let ok = changed && nc.len() > 0 && !crate::text::has_char(nc.as_slice(), '/')
                && !crate::text::has_char(nc.as_slice(), '\\');
            let ghost before = items@;
            if ok {
                items.push(RenameItem { path: targets[i].clone(), old: names[i].clone(), new: news[i].clone(), selected: true });
                assert(item_views(items@) =~= item_views(before).push((t[i as int], o[i as int], nv[i as int])));
            }
            i += 1;
        }
        assert(k == crate::state::min3(t.len(), o.len(), nv.len()));
        if items.len() == 0 {
            self.message = Some(
                tr_string(self.lang, "the pattern changed no names", "パターンで変わる名前がありません"),
            );
            return ;
        }
        self.open_popup(Popup::RenameReview { items, cursor: 0, scroll: 0 });
    }
}

} // verus!
