use cosmic_monitor::history::{record_sample, retain_recent, TimedItem, HISTORY_WINDOW_NANOS};
use std::collections::VecDeque;

fn times(h: &VecDeque<TimedItem<&'static str>>) -> Vec<u64> {
    h.iter().map(|e| e.time).collect()
}

#[test]
fn history_keeps_the_last_minute() {
    let mut h: VecDeque<TimedItem<&'static str>> = VecDeque::new();
    let s = 1_000_000_000u64;
    record_sample(&mut h, "a", 0, 0);
    record_sample(&mut h, "b", 30 * s, 30 * s);
    record_sample(&mut h, "c", 59 * s, 59 * s);
    assert_eq!(times(&h), vec![0, 30 * s, 59 * s]);
    record_sample(&mut h, "d", 60 * s, 60 * s);
    assert_eq!(times(&h), vec![30 * s, 59 * s, 60 * s]);
    assert_eq!(h.back().unwrap().item, "d");
}

#[test]
fn history_boundary_and_future_samples() {
    let mut h: VecDeque<TimedItem<u8>> = VecDeque::new();
    h.push_back(TimedItem { time: 10, item: 1 });
    h.push_back(TimedItem { time: 10 + HISTORY_WINDOW_NANOS, item: 2 });
    h.push_back(TimedItem { time: 11, item: 3 });
    h.push_back(TimedItem { time: u64::MAX, item: 4 });
    retain_recent(&mut h, 10 + HISTORY_WINDOW_NANOS);
    let kept: Vec<u8> = h.iter().map(|e| e.item).collect();
    assert_eq!(kept, vec![2, 3, 4]);
}
