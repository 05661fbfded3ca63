use cian_tui::shell::each_lines;

#[test]
fn expands_placeholder_and_appends_when_absent() {
    let paths = vec!["/a/one.txt".to_string(), "/a/two.txt".to_string()];
    let (lines, skipped) = each_lines("gzip {}", &paths);
    assert_eq!(skipped, 0);
    assert_eq!(lines, vec!["gzip \"/a/one.txt\"", "gzip \"/a/two.txt\""]);

    let (lines, _) = each_lines("md5sum", &paths);
    assert_eq!(lines[0], "md5sum \"/a/one.txt\"");
}

#[test]
fn skips_paths_that_would_break_quoting() {
    let paths = vec!["/a/ok.txt".to_string(), "/a/we\"ird.txt".to_string()];
    let (lines, skipped) = each_lines("rm {}", &paths);
    assert_eq!(skipped, 1);
    assert_eq!(lines, vec!["rm \"/a/ok.txt\""]);
}

#[test]
fn every_placeholder_is_filled_and_every_path_is_counted() {
    let paths = vec!["/x/a".to_string(), "/x/\"b".to_string(), "/x/c".to_string()];
    let (lines, skipped) = each_lines("cp {} {}.bak", &paths);
    assert_eq!(lines, vec!["cp \"/x/a\" \"/x/a\".bak", "cp \"/x/c\" \"/x/c\".bak"]);
    assert_eq!(lines.len() + skipped, paths.len());
}
