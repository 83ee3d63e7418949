use directopt::files::{
    file_id, file_kinds, kinds_to_clear, listed_file_meta, recovered_file_name, saved_file_meta,
    sort_listing, split_id, stored_file_name, validate_kind, StoredFileMeta,
};
use directopt::clock::{millis_as_u64, unix_ms};

fn meta(id: &str, ms: u64) -> StoredFileMeta {
    StoredFileMeta {
        id: id.to_string(),
        name: String::new(),
        kind: String::new(),
        size: 0,
        saved_at_ms: ms,
        path: String::new(),
    }
}

#[test]
fn kinds_are_input_curve_result() {
    assert_eq!(file_kinds(), vec!["input", "curve", "result"]);
    assert!(validate_kind("input").is_ok());
    assert!(validate_kind("curve").is_ok());
    assert!(validate_kind("result").is_ok());
    assert_eq!(validate_kind("other").unwrap_err(), "非法的文件类别: other");
    assert_eq!(validate_kind("").unwrap_err(), "非法的文件类别: ");
}

#[test]
fn split_id_takes_kind_and_stored_name() {
    assert_eq!(
        split_id("curve/1719700000000_a.xlsx").unwrap(),
        ("curve".to_string(), "1719700000000_a.xlsx".to_string())
    );
    // only the first slash separates
    assert_eq!(split_id("input/a/b").unwrap_err(), "非法的文件标识");
}

#[test]
fn split_id_refuses_malformed_ids() {
    assert_eq!(split_id("no-slash").unwrap_err(), "非法的文件标识");
    assert_eq!(split_id("bad/x").unwrap_err(), "非法的文件类别: bad");
    assert_eq!(split_id("result/").unwrap_err(), "非法的文件标识");
    assert_eq!(split_id("result/..").unwrap_err(), "非法的文件标识");
    assert_eq!(split_id("result/a..b").unwrap_err(), "非法的文件标识");
    assert_eq!(split_id("result/a\\b").unwrap_err(), "非法的文件标识");
    assert!(split_id("result/a.b").is_ok());
}

#[test]
fn stored_name_and_id_round_trip() {
    let stored = stored_file_name(1719700000000, "方案_1.xlsx");
    assert_eq!(stored, "1719700000000_方案_1.xlsx");
    assert_eq!(recovered_file_name(&stored), "方案_1.xlsx");
    let id = file_id("result", &stored);
    assert_eq!(id, "result/1719700000000_方案_1.xlsx");
    assert_eq!(split_id(&id).unwrap(), ("result".to_string(), stored.clone()));
    assert_eq!(stored_file_name(0, "a"), "0_a");
}

#[test]
fn recovered_name_without_underscore_is_whole_name() {
    assert_eq!(recovered_file_name("plain.xlsx"), "plain.xlsx");
    assert_eq!(recovered_file_name("_x"), "x");
    assert_eq!(recovered_file_name("12_"), "");
}

#[test]
fn metas_carry_their_fields() {
    let m = saved_file_meta("input", "a.xlsx", "5_a.xlsx", 42, 5, "/d/input/5_a.xlsx");
    assert_eq!(m.id, "input/5_a.xlsx");
    assert_eq!(m.name, "a.xlsx");
    assert_eq!(m.kind, "input");
    assert_eq!(m.size, 42);
    assert_eq!(m.saved_at_ms, 5);
    assert_eq!(m.path, "/d/input/5_a.xlsx");
    let l = listed_file_meta("curve", "7_b.xlsx", 3, 9, "/p");
    assert_eq!(l.id, "curve/7_b.xlsx");
    assert_eq!(l.name, "b.xlsx");
    assert_eq!(l.saved_at_ms, 9);
}

#[test]
fn listing_is_newest_first_then_by_id() {
    let files = vec![
        meta("input/1_a", 1),
        meta("result/3_c", 3),
        meta("curve/3_b", 3),
        meta("input/2_z", 2),
        meta("curve/3_a", 3),
    ];
    let sorted = sort_listing(files);
    let ids: Vec<&str> = sorted.iter().map(|m| m.id.as_str()).collect();
    assert_eq!(ids, vec!["curve/3_a", "curve/3_b", "result/3_c", "input/2_z", "input/1_a"]);
    assert!(sort_listing(vec![]).is_empty());
}

#[test]
fn listing_orders_ids_like_string_comparison() {
    let files = vec![meta("curve/é", 1), meta("curve/z", 1), meta("curve/Z", 1), meta("curve/za", 1)];
    let sorted = sort_listing(files);
    let mut expected: Vec<String> = sorted.iter().map(|m| m.id.clone()).collect();
    expected.sort();
    let ids: Vec<String> = sorted.iter().map(|m| m.id.clone()).collect();
    assert_eq!(ids, expected);
}

#[test]
fn clearing_targets_one_kind_or_all() {
    assert_eq!(kinds_to_clear(Some("curve")).unwrap(), vec!["curve"]);
    assert_eq!(kinds_to_clear(None).unwrap(), vec!["input", "curve", "result"]);
    assert_eq!(kinds_to_clear(Some("x")).unwrap_err(), "非法的文件类别: x");
}

#[test]
fn clock_reading_is_truncated_to_u64() {
    assert_eq!(millis_as_u64(None), 0);
    assert_eq!(millis_as_u64(Some(1_719_700_000_000)), 1_719_700_000_000);
    assert_eq!(millis_as_u64(Some((1u128 << 64) + 7)), 7);
    assert!(unix_ms() > 1_600_000_000_000);
}
