use clock_sync::data::{accept_message, stamp_payload, Message, SimpleGenerator};
use clock_sync::lamport::LamportClock;
use clock_sync::time::Clock;
use clock_sync::vector::VectorClock;

fn dominates(a: &[i64], b: &[i64]) -> bool {
    a.len() == b.len() && a.iter().zip(b.iter()).all(|(x, y)| x >= y)
}

#[test]
fn lamport_starts_at_zero() {
    let c = LamportClock::new();
    assert_eq!(c.get_clock(), 0);
    assert_eq!(c.time, 0);
}

#[test]
fn lamport_advance_counts_events() {
    let mut c = LamportClock::new();
    assert_eq!(c.advance_clock(), 1);
    assert_eq!(c.advance_clock(), 2);
    assert_eq!(c.get_clock(), 2);
}

#[test]
fn lamport_merge_takes_max_then_advances() {
    let mut c = LamportClock::new();
    assert_eq!(c.update_clock(&5), 6);
    assert_eq!(c.update_clock(&3), 7);
    assert_eq!(c.update_clock(&7), 8);
    assert_eq!(c.get_clock(), 8);
}

#[test]
fn lamport_merge_with_negative_timestamp() {
    let mut c = LamportClock::new();
    c.advance_clock();
    assert_eq!(c.update_clock(&-4), 2);
}

#[test]
fn lamport_fits_near_the_top() {
    let c = LamportClock { time: i64::MAX - 1 };
    assert!(c.tick_fits());
    assert!(c.merge_fits(&(i64::MAX - 1)));
    assert!(!c.merge_fits(&i64::MAX));
    let top = LamportClock { time: i64::MAX };
    assert!(!top.tick_fits());
}

#[test]
fn lamport_observed_values_strictly_increase() {
    let mut c = LamportClock::new();
    let mut last = c.get_clock();
    let received = [0i64, 10, 2, 11, 40];
    for (k, t) in received.iter().enumerate() {
        let v = if k % 2 == 0 { c.advance_clock() } else { c.update_clock(t) };
        assert!(v > last);
        last = v;
        let v2 = c.update_clock(t);
        assert!(v2 > last);
        assert!(v2 > *t);
        last = v2;
    }
}

#[test]
fn lamport_causality_through_a_message() {
    let mut b = LamportClock::new();
    b.advance_clock();
    b.advance_clock();
    let e1 = b.advance_clock();
    let mut a = LamportClock::new();
    let e2 = a.update_clock(&e1);
    assert!(e1 < e2);
    let e3 = a.advance_clock();
    assert!(e1 < e3);
}

#[test]
fn scenario_two_nodes_lamport() {
    let mut n0 = LamportClock::new();
    let mut n1 = LamportClock::new();
    let t = n0.advance_clock();
    assert_eq!(t, 1);
    assert_eq!(n1.get_clock(), 0);
    assert_eq!(n1.update_clock(&t), 2);
    assert_eq!(n1.get_clock(), 2);
}

#[test]
fn vector_starts_at_zeros() {
    let c = VectorClock::new(1, 3);
    assert_eq!(c.node_id, 1);
    assert_eq!(c.get_clock(), vec![0, 0, 0]);
}

#[test]
fn vector_advance_moves_own_entry() {
    let mut c = VectorClock::new(2, 4);
    assert_eq!(c.advance_clock(), vec![0, 0, 1, 0]);
    assert_eq!(c.advance_clock(), vec![0, 0, 2, 0]);
}

#[test]
fn vector_merge_is_elementwise_max_then_advance() {
    let mut c = VectorClock { node_id: 0, time_vector: vec![3, 1, 0] };
    assert_eq!(c.update_clock(&vec![1, 4, 2]), vec![4, 4, 2]);
    assert_eq!(c.get_clock(), vec![4, 4, 2]);
}

#[test]
fn vector_merge_fits_checks_length() {
    let c = VectorClock::new(0, 3);
    assert!(c.merge_fits(&vec![1, 2, 3]));
    assert!(!c.merge_fits(&vec![1, 2]));
    assert!(!c.merge_fits(&vec![1, 2, 3, 4]));
    let full = VectorClock { node_id: 1, time_vector: vec![0, i64::MAX, 0] };
    assert!(!full.tick_fits());
    assert!(!full.merge_fits(&vec![0, 0, 0]));
}

#[test]
fn vector_merge_dominates_both_sides() {
    let mut a = VectorClock { node_id: 1, time_vector: vec![2, 5, 0] };
    let before = a.get_clock();
    let t = vec![4, 1, 3];
    let after = a.update_clock(&t);
    assert!(dominates(&after, &before));
    assert!(dominates(&after, &t));
    assert!(after != before && after != t);
}

#[test]
fn vector_observed_values_never_go_back() {
    let mut c = VectorClock::new(0, 3);
    let mut last = c.get_clock();
    let stamps = [vec![0, 2, 0], vec![0, 1, 5], vec![9, 0, 0]];
    for t in stamps.iter() {
        let v = c.advance_clock();
        assert!(dominates(&v, &last) && v != last);
        last = v;
        let w = c.update_clock(t);
        assert!(dominates(&w, &last) && w[0] > last[0]);
        last = w;
    }
}

#[test]
fn vector_causality_through_a_message() {
    let mut b = VectorClock::new(1, 3);
    let e1 = b.advance_clock();
    let mut a = VectorClock::new(0, 3);
    a.advance_clock();
    let e2 = a.update_clock(&e1);
    assert!(dominates(&e2, &e1) && e2 != e1);
    let e3 = a.advance_clock();
    assert!(dominates(&e3, &e1) && e3 != e1);
}

#[test]
fn vector_concurrent_events_are_incomparable() {
    let mut a = VectorClock::new(0, 2);
    let mut b = VectorClock::new(1, 2);
    let ea = a.advance_clock();
    let eb = b.advance_clock();
    assert_eq!(ea, vec![1, 0]);
    assert_eq!(eb, vec![0, 1]);
    assert!(!dominates(&ea, &eb));
    assert!(!dominates(&eb, &ea));
}

#[test]
fn scenario_three_nodes_vector() {
    let mut n0 = VectorClock::new(0, 3);
    let mut n1 = VectorClock::new(1, 3);
    assert_eq!(n0.advance_clock(), vec![1, 0, 0]);
    assert_eq!(n1.get_clock(), vec![0, 0, 0]);
    let t = n0.get_clock();
    assert_eq!(n1.update_clock(&t), vec![1, 1, 0]);
}

#[test]
fn producer_stamps_and_consumer_merges() {
    let mut producer_clock = LamportClock::new();
    let m = stamp_payload(&mut producer_clock, String::from("1"));
    assert_eq!(m.time, 1);
    assert_eq!(m.data, "1");
    let mut consumer_clock = LamportClock { time: 0 };
    let late = Message { time: 7, data: String::from("x") };
    assert_eq!(accept_message(&mut consumer_clock, &m), 2);
    assert_eq!(accept_message(&mut consumer_clock, &late), 8);
}

#[test]
fn generator_yields_one_to_nine() {
    let g = SimpleGenerator;
    let expected: Vec<String> = (1..10).map(|s: i32| s.to_string()).collect();
    assert_eq!(g.payloads(), expected);
}
