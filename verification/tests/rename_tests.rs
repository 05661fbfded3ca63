use cian_tui::edit::{plan_bulk_rename, PlanError};

fn v(names: &[&str]) -> Vec<String> {
    names.iter().map(|s| s.to_string()).collect()
}

#[test]
fn rename_plan_pairs_changes_and_rejects_broken_lists() {
    let old = v(&["a.txt", "b.txt", "c.txt"]);
    assert_eq!(
        plan_bulk_rename(&old, &v(&["a.txt", "b2.txt", "c.txt"])),
        Ok(vec![("b.txt".into(), "b2.txt".into())]),
    );
    assert_eq!(
        plan_bulk_rename(&old, &v(&["b.txt", "a.txt", "c.txt"])),
        Ok(vec![("a.txt".into(), "b.txt".into()), ("b.txt".into(), "a.txt".into())]),
    );
    assert_eq!(plan_bulk_rename(&old, &old), Ok(vec![]), "nothing changed");

    assert_eq!(
        plan_bulk_rename(&old, &v(&["a.txt", "b.txt"])),
        Err(PlanError::CountMismatch { was: 3, now: 2 }),
        "a deleted line is not a delete command"
    );
    assert_eq!(
        plan_bulk_rename(&old, &v(&["a.txt", "", "c.txt"])),
        Err(PlanError::BadName(String::new())),
    );
    assert_eq!(
        plan_bulk_rename(&old, &v(&["a.txt", "sub/b.txt", "c.txt"])),
        Err(PlanError::HasSeparator("sub/b.txt".into())),
        "rename, not move"
    );
    assert_eq!(
        plan_bulk_rename(&old, &v(&["same", "same", "c.txt"])),
        Err(PlanError::Duplicate("same".into())),
    );
}

#[test]
fn dot_names_and_backslashes_are_refused_too() {
    let old = v(&["a", "b"]);
    assert_eq!(plan_bulk_rename(&old, &v(&["..", "b"])), Err(PlanError::BadName("..".into())));
    assert_eq!(plan_bulk_rename(&old, &v(&["a", "."])), Err(PlanError::BadName(".".into())));
    assert_eq!(
        plan_bulk_rename(&old, &v(&["x\\y", "b"])),
        Err(PlanError::HasSeparator("x\\y".into()))
    );
}
