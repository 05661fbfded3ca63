use cian_tui::count::group;

#[test]
fn groups_thousands() {
    assert_eq!(group(0), "0");
    assert_eq!(group(42), "42");
    assert_eq!(group(1234), "1,234");
    assert_eq!(group(1234567), "1,234,567");
}
