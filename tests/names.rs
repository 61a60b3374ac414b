use tmucks::ensure_conf_extension;
use tmucks::names::{blank, ends_with_conf, name_precedes, sort_names};

fn strings(v: &[&str]) -> Vec<String> {
    v.iter().map(|s| s.to_string()).collect()
}

#[test]
fn conf_extension_is_appended() {
    assert_eq!(ensure_conf_extension("work".to_string()), "work.conf");
}

#[test]
fn conf_extension_is_kept() {
    assert_eq!(ensure_conf_extension("work.conf".to_string()), "work.conf");
}

#[test]
fn conf_extension_on_edge_names() {
    assert_eq!(ensure_conf_extension(String::new()), ".conf");
    assert_eq!(ensure_conf_extension("conf".to_string()), "conf.conf");
    assert_eq!(ensure_conf_extension(".conf".to_string()), ".conf");
    assert_eq!(ensure_conf_extension("a.CONF".to_string()), "a.CONF.conf");
    assert_eq!(ensure_conf_extension("été".to_string()), "été.conf");
}

#[test]
fn ends_with_conf_checks_the_suffix() {
    assert!(ends_with_conf("x.conf"));
    assert!(!ends_with_conf("x.con"));
    assert!(!ends_with_conf("conf"));
    assert!(!ends_with_conf(""));
}

#[test]
fn listing_is_sorted() {
    let sorted = sort_names(strings(&["c.conf", "a.conf", "b.conf"]));
    assert_eq!(sorted, strings(&["a.conf", "b.conf", "c.conf"]));
}

#[test]
fn listing_sort_keeps_duplicates_and_uses_code_points() {
    let sorted = sort_names(strings(&["b", "abc", "B", "ab", "b", "é", "z"]));
    assert_eq!(sorted, strings(&["B", "ab", "abc", "b", "b", "z", "é"]));
}

#[test]
fn listing_sort_of_nothing() {
    assert!(sort_names(Vec::new()).is_empty());
}

#[test]
fn name_order_matches_string_order() {
    let names = ["", "a", "ab", "b", "B", "é", "a.conf", "a-b"];
    for a in names {
        for b in names {
            assert_eq!(name_precedes(a, b), a <= b, "{a} {b}");
        }
    }
}

#[test]
fn blank_names() {
    assert!(blank(""));
    assert!(blank("  \t\n"));
    assert!(blank("\u{3000}\u{a0}"));
    assert!(!blank(" work "));
    assert!(!blank("x"));
}
