use directopt::schedule::{hour_mask, HourWindows};

#[test]
fn empty_periods_allow_every_hour() {
    assert_eq!(hour_mask(&[]), vec![true; 24]);
}

#[test]
fn listed_hours_only() {
    let m = hour_mask(&[0, 5, 5, 23, 24, -1, 100]);
    for h in 0..24 {
        assert_eq!(m[h], h == 0 || h == 5 || h == 23, "hour {h}");
    }
    // entries outside the day allow nothing, but still count as a choice
    assert_eq!(hour_mask(&[24]), vec![false; 24]);
}

#[test]
fn windows_repeat_daily_and_priority_follows_choice() {
    let w = HourWindows::from_periods(&[1, 2], &[]);
    assert!(w.charge_priority());
    assert!(w.charge_open(1));
    assert!(w.charge_open(25));
    assert!(w.charge_open(8760 - 24 + 2));
    assert!(!w.charge_open(3));
    assert!(!w.charge_open(24));
    for step in 0..100 {
        assert!(w.discharge_open(step));
    }
    let v = HourWindows::from_periods(&[], &[7]);
    assert!(!v.charge_priority());
    assert!(v.charge_open(0));
    assert!(v.discharge_open(31));
    assert!(!v.discharge_open(30));
}
