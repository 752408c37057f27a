use breakout::assets_tracking::ResourceHandles;

#[test]
fn empty_barrier_is_done() {
    let h = ResourceHandles::new();
    assert!(h.is_all_done());
    assert!(h.pending().is_empty());
}

#[test]
fn poll_hands_out_loaded_and_requeues_the_rest() {
    let mut h = ResourceHandles::new();
    h.register(10);
    h.register(20);
    h.register(30);
    assert!(!h.is_all_done());
    assert_eq!(h.pending(), vec![10, 20, 30]);
    let out = h.poll(&vec![false, true, false]);
    assert_eq!(out, vec![20]);
    assert_eq!(h.pending(), vec![10, 30]);
    let out = h.poll(&vec![true, true]);
    assert_eq!(out, vec![10, 30]);
    assert!(h.is_all_done());
    let out = h.poll(&vec![]);
    assert!(out.is_empty());
}

#[test]
fn each_handle_is_handed_out_once() {
    // Handle k loads at poll k; every poll checks each waiting handle once.
    let mut h = ResourceHandles::new();
    for k in 0..4u64 {
        h.register(k);
    }
    let mut seen: Vec<u64> = Vec::new();
    let mut polls = 0;
    while !h.is_all_done() {
        let flags: Vec<bool> = h.pending().iter().map(|&k| k <= polls).collect();
        seen.extend(h.poll(&flags));
        polls += 1;
        assert!(polls <= 4 * 4);
    }
    assert_eq!(polls, 4);
    seen.sort();
    assert_eq!(seen, vec![0, 1, 2, 3]);
}

#[test]
fn never_loaded_stays_pending() {
    let mut h = ResourceHandles::new();
    h.register(5);
    for _ in 0..10 {
        assert!(h.poll(&vec![false]).is_empty());
    }
    assert!(!h.is_all_done());
}
