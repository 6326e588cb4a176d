use clifana::LogRing;

fn line(i: usize) -> String {
    format!("line {}", i)
}

#[test]
fn ring_stays_within_capacity() {
    let mut ring = LogRing::new(3);
    for i in 0..8 {
        ring.emit(line(i));
        assert!(ring.len() <= 3);
    }
    assert_eq!(ring.len(), 3);
}

#[test]
fn ring_holds_most_recent_newest_first() {
    let mut ring = LogRing::new(3);
    for i in 0..5 {
        ring.emit(line(i));
    }
    let snap = ring.read_snapshot();
    assert_eq!(snap, vec!["line 4".to_string(), "line 3".to_string(), "line 2".to_string()]);
}

#[test]
fn ring_below_capacity_keeps_everything() {
    let mut ring = LogRing::new(10);
    ring.emit("a".to_string());
    ring.emit("b".to_string());
    let snap = ring.read_snapshot();
    assert_eq!(snap, vec!["b".to_string(), "a".to_string()]);
}

#[test]
fn ring_of_capacity_one_keeps_only_the_newest() {
    let mut ring = LogRing::new(1);
    ring.emit("first".to_string());
    ring.emit("second".to_string());
    assert_eq!(ring.read_snapshot(), vec!["second".to_string()]);
}
