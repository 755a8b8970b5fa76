use clipboard_history::clock::Timestamp;
use clipboard_history::history::{History, CAPACITY};

fn contents(h: &History) -> Vec<String> {
    h.snapshot().iter().map(|e| e.content.clone()).collect()
}

fn at(micros: i64) -> Timestamp {
    Timestamp { micros }
}

#[test]
fn new_history_is_empty() {
    let h = History::new();
    assert_eq!(h.len(), 0);
    assert!(h.snapshot().is_empty());
}

#[test]
fn length_is_min_of_insertions_and_capacity() {
    for n in 0..45i64 {
        let mut h = History::new();
        for i in 0..n {
            h.add_entry_at(format!("e{}", i), at(i));
        }
        let expected = if (n as usize) < CAPACITY { n as usize } else { CAPACITY };
        assert_eq!(h.snapshot().len(), expected);
        assert_eq!(h.len(), expected);
    }
}

#[test]
fn newest_entry_is_first() {
    let mut h = History::new();
    for i in 0..30i64 {
        let text = format!("item {}", i);
        h.add_entry_at(text.clone(), at(100 + i));
        let first = &h.snapshot()[0];
        assert_eq!(first.content, text);
        assert_eq!(first.timestamp, at(100 + i));
    }
}

#[test]
fn twenty_first_entry_evicts_oldest() {
    let mut h = History::new();
    for i in 0..20i64 {
        h.add_entry_at(format!("x{}", i), at(i));
    }
    let before = contents(&h);
    assert_eq!(before[19], "x0");
    h.add_entry_at("new".to_string(), at(20));
    let after = contents(&h);
    assert_eq!(after.len(), 20);
    assert_eq!(after[0], "new");
    for i in 1..20 {
        assert_eq!(after[i], before[i - 1]);
    }
    assert!(!after.contains(&"x0".to_string()));
}

#[test]
fn letters_a_to_u_keep_u_down_to_b() {
    let mut h = History::new();
    let letters: Vec<String> = ('a'..='u').map(|c| c.to_string()).collect();
    assert_eq!(letters.len(), 21);
    for (i, s) in letters.iter().enumerate() {
        h.add_entry_at(s.clone(), at(i as i64));
    }
    let expected: Vec<String> = ('b'..='u').rev().map(|c| c.to_string()).collect();
    assert_eq!(contents(&h), expected);
}

#[test]
fn identical_content_is_not_deduplicated() {
    let mut h = History::new();
    h.add_entry_at("same".to_string(), at(10));
    h.add_entry_at("same".to_string(), at(11));
    let snap = h.snapshot();
    assert_eq!(snap.len(), 2);
    assert_eq!(snap[0].content, "same");
    assert_eq!(snap[1].content, "same");
    assert_eq!(snap[0].timestamp, at(11));
    assert_eq!(snap[1].timestamp, at(10));
}

#[test]
fn add_entry_stamps_with_the_clock() {
    let mut h = History::new();
    h.add_entry("first".to_string());
    h.add_entry("first".to_string());
    let snap = h.snapshot();
    assert_eq!(snap.len(), 2);
    assert_eq!(snap[0].content, "first");
    assert_eq!(snap[1].content, "first");
    // Any time after the year 2001 is well past a zero stamp.
    assert!(snap[1].timestamp.micros > 1_000_000_000_000_000);
    assert!(snap[0].timestamp.micros > 1_000_000_000_000_000);
}

#[test]
fn now_reads_the_wall_clock() {
    let t = Timestamp::now();
    assert!(t.micros > 1_000_000_000_000_000);
}

#[test]
fn record_skips_absent_and_empty_text() {
    let mut h = History::new();
    assert!(!h.record_at(None, at(1)));
    assert!(!h.record_at(Some(String::new()), at(2)));
    assert_eq!(h.len(), 0);
    assert!(h.record_at(Some("text".to_string()), at(3)));
    assert_eq!(contents(&h), vec!["text".to_string()]);
    assert!(!h.record(None));
    assert!(h.record(Some("more".to_string())));
    assert_eq!(contents(&h), vec!["more".to_string(), "text".to_string()]);
}
