use directopt::text::{contains_str, decimal_string, find_char, join, str_eq, str_le};
use directopt::sensitivity::{percent_label, sensitivity_percents};

#[test]
fn decimal_matches_format() {
    for n in [0u64, 7, 10, 99, 100, 8760, 1_719_700_000_000, u64::MAX] {
        assert_eq!(decimal_string(n), format!("{n}"));
    }
}

#[test]
fn join_matches_std() {
    let v: Vec<String> = vec!["a".into(), "bc".into(), "".into()];
    assert_eq!(join(&v, "；"), v.join("；"));
    assert_eq!(join(&vec![], ","), "");
    assert_eq!(join(&vec!["x".to_string()], ","), "x");
}

#[test]
fn character_search() {
    assert_eq!(find_char("ab/c/d", '/'), Some(2));
    assert_eq!(find_char("风电/x", '/'), Some(2));
    assert_eq!(find_char("abc", '/'), None);
    assert!(contains_str("My Input", "Input"));
    assert!(!contains_str("My Inpu", "Input"));
    assert!(contains_str("a", ""));
    assert!(contains_str("a..b", ".."));
    assert!(str_eq("项目", "项目"));
    assert!(!str_eq("项目", "项"));
}

#[test]
fn lexicographic_order_matches_strings() {
    let words = ["", "a", "ab", "b", "B", "é", "风", "z9", "za"];
    for x in words {
        for y in words {
            assert_eq!(str_le(x, y), x <= y, "{x} {y}");
        }
    }
}

#[test]
fn sensitivity_grid_has_eleven_steps() {
    assert_eq!(sensitivity_percents(), vec![-25, -20, -15, -10, -5, 0, 5, 10, 15, 20, 25]);
    for p in sensitivity_percents() {
        assert_eq!(percent_label(p), format!("{:.1}%", p as f64));
    }
    assert_eq!(percent_label(-25), "-25.0%");
    assert_eq!(percent_label(0), "0.0%");
    assert_eq!(percent_label(i32::MIN), format!("{:.1}%", i32::MIN as f64));
}
