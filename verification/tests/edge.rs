use kanata_ime_observer::channel::{SingleSlot, TryRecv, TrySend};
use kanata_ime_observer::receiver::EdgeDetector;

fn tokens(list: &[&str]) -> Vec<String> {
    list.iter().map(|t| t.to_string()).collect()
}

#[test]
fn first_token_is_reported() {
    let mut detector = EdgeDetector::new();
    assert_eq!(detector.last_reported(), None);
    assert_eq!(detector.observe("mozc-jp".to_string()), Some("mozc-jp".to_string()));
    assert_eq!(detector.last_reported(), Some("mozc-jp".to_string()));
}

#[test]
fn repetition_is_discarded() {
    let mut detector = EdgeDetector::new();
    assert_eq!(detector.observe("mozc-jp".to_string()), Some("mozc-jp".to_string()));
    assert_eq!(detector.observe("mozc-jp".to_string()), None);
    assert_eq!(detector.observe("mozc-jp".to_string()), None);
    assert_eq!(detector.last_reported(), Some("mozc-jp".to_string()));
    assert_eq!(detector.observe("xkb:us::eng".to_string()), Some("xkb:us::eng".to_string()));
    assert_eq!(detector.observe("mozc-jp".to_string()), Some("mozc-jp".to_string()));
}

#[test]
fn tokens_compare_byte_for_byte() {
    let mut detector = EdgeDetector::new();
    assert_eq!(detector.observe("ja-JP".to_string()), Some("ja-JP".to_string()));
    assert_eq!(detector.observe("ja-jp".to_string()), Some("ja-jp".to_string()));
    assert_eq!(detector.observe("ja-jp ".to_string()), Some("ja-jp ".to_string()));
    assert_eq!(detector.observe(String::new()), Some(String::new()));
    assert_eq!(detector.observe(String::new()), None);
}

#[test]
fn no_two_neighbours_are_equal() {
    let runs: Vec<Vec<String>> = vec![
        tokens(&[]),
        tokens(&["a"]),
        tokens(&["a", "a", "a"]),
        tokens(&["a", "b", "a"]),
        tokens(&["a", "a", "b", "b", "a", "a", "c"]),
        tokens(&["x", "y", "y", "x", "x", "y"]),
    ];
    for run in runs {
        for start in [None, Some("a"), Some("x")] {
            let mut detector = EdgeDetector::new();
            if let Some(s) = start {
                detector.observe(s.to_string());
            }
            let reported = detector.observe_all(run.clone());
            for pair in reported.windows(2) {
                assert_ne!(pair[0], pair[1]);
            }
            if let (Some(first), Some(s)) = (reported.first(), start) {
                assert_ne!(first, s);
            }
            assert!(reported.len() <= run.len());
        }
    }
}

#[test]
fn observe_all_collapses_runs() {
    let mut detector = EdgeDetector::new();
    let reported = detector.observe_all(tokens(&["a", "a", "b", "b", "a", "a", "c"]));
    assert_eq!(reported, tokens(&["a", "b", "a", "c"]));
    assert_eq!(detector.last_reported(), Some("c".to_string()));
    let again = detector.observe_all(tokens(&["c", "c"]));
    assert_eq!(again, tokens(&[]));
    let nothing = detector.observe_all(Vec::new());
    assert_eq!(nothing, tokens(&[]));
    assert_eq!(detector.last_reported(), Some("c".to_string()));
}

#[test]
fn slot_holds_one_value() {
    let mut slot: SingleSlot<String> = SingleSlot::new();
    assert!(!slot.is_full());
    assert!(slot.has_sender());
    assert!(slot.has_receiver());
    assert_eq!(slot.try_send("a".to_string()), TrySend::Sent);
    assert!(slot.is_full());
    assert_eq!(slot.try_send("b".to_string()), TrySend::Full("b".to_string()));
    assert_eq!(slot.try_recv(), TryRecv::Value("a".to_string()));
    assert!(!slot.is_full());
    assert_eq!(slot.try_recv(), TryRecv::Empty);
    assert_eq!(slot.try_send("c".to_string()), TrySend::Sent);
    assert_eq!(slot.try_recv(), TryRecv::Value("c".to_string()));
}

#[test]
fn slot_without_receiver_rejects() {
    let mut slot: SingleSlot<u32> = SingleSlot::new();
    assert_eq!(slot.try_send(1), TrySend::Sent);
    slot.close_receiver();
    assert!(!slot.has_receiver());
    assert!(!slot.is_full());
    assert_eq!(slot.try_send(2), TrySend::Disconnected(2));
    assert!(!slot.is_full());
}

#[test]
fn slot_without_sender_drains_then_closes() {
    let mut slot: SingleSlot<u32> = SingleSlot::new();
    assert_eq!(slot.try_send(7), TrySend::Sent);
    slot.close_sender();
    assert!(!slot.has_sender());
    assert_eq!(slot.try_recv(), TryRecv::Value(7));
    assert_eq!(slot.try_recv(), TryRecv::Closed);
}

#[test]
fn edge_after_flap() {
    // The consumer reads A, then stalls while B and A arrive: the slot keeps
    // B and drops the A that found it full.
    let mut slot: SingleSlot<String> = SingleSlot::new();
    let mut detector = EdgeDetector::new();
    let mut seen: Vec<String> = Vec::new();
    assert_eq!(slot.try_send("A".to_string()), TrySend::Sent);
    if let TryRecv::Value(t) = slot.try_recv() {
        seen.extend(detector.observe(t));
    }
    assert_eq!(slot.try_send("B".to_string()), TrySend::Sent);
    assert_eq!(slot.try_send("A".to_string()), TrySend::Full("A".to_string()));
    if let TryRecv::Value(t) = slot.try_recv() {
        seen.extend(detector.observe(t));
    }
    assert_eq!(slot.try_send("A".to_string()), TrySend::Sent);
    if let TryRecv::Value(t) = slot.try_recv() {
        seen.extend(detector.observe(t));
    }
    assert_eq!(seen, tokens(&["A", "B", "A"]));
    for pair in seen.windows(2) {
        assert_ne!(pair[0], pair[1]);
    }

    // The consumer stalls from the start: of A, B, A only the first A gets
    // through, and a later A is no news.
    let mut slot: SingleSlot<String> = SingleSlot::new();
    let mut detector = EdgeDetector::new();
    let mut seen: Vec<String> = Vec::new();
    for t in ["A", "B", "A"] {
        let _ = slot.try_send(t.to_string());
    }
    if let TryRecv::Value(t) = slot.try_recv() {
        seen.extend(detector.observe(t));
    }
    let _ = slot.try_send("A".to_string());
    if let TryRecv::Value(t) = slot.try_recv() {
        seen.extend(detector.observe(t));
    }
    assert_eq!(seen, tokens(&["A"]));
}
