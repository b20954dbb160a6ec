use std::time::Duration;

use quinn_paths::{
    header_size, smooth, MtuDiscovery, PathData, Phase, RemoteAddr, RttEstimator, BASE_PLPMTU,
    MAX_DURATION, TIMER_GRANULARITY,
};

fn ns(d: Duration) -> u128 {
    d.as_nanos()
}

fn ms(n: u64) -> u128 {
    ns(Duration::from_millis(n))
}

fn v4() -> RemoteAddr {
    RemoteAddr::V4 { ipv4: 0x7f00_0001, port: 4433 }
}

fn v6() -> RemoteAddr {
    RemoteAddr::V6 { ipv6: 1, port: 4433, flowinfo: 0, scope_id: 0 }
}

#[derive(Clone, Debug, PartialEq)]
struct Window {
    bytes: u64,
}

#[test]
fn rtt_fresh_estimator() {
    let e = RttEstimator::new();
    assert_eq!(e.latest(), 0);
    assert_eq!(e.smoothed(), None);
    assert_eq!(e.var(), 0);
    assert_eq!(e.min(), MAX_DURATION);
    assert_eq!(MAX_DURATION, ns(Duration::MAX));
    assert_eq!(e.get(), 0);
    assert_eq!(e.pto_base(), None);
}

#[test]
fn rtt_first_update_sets_smoothed_and_half_var() {
    let mut e = RttEstimator::new();
    e.update(0, ms(100));
    assert_eq!(e.latest(), ms(100));
    assert_eq!(e.smoothed(), Some(ms(100)));
    assert_eq!(e.var(), ms(50));
    assert_eq!(e.min(), ms(100));

    let mut odd = RttEstimator::new();
    odd.update(0, 7);
    assert_eq!(odd.smoothed(), Some(7));
    assert_eq!(odd.var(), 3);
}

#[test]
fn rtt_first_update_ignores_ack_delay() {
    // On the first sample the minimum equals the sample, so no delay is plausible.
    let mut e = RttEstimator::new();
    e.update(ms(30), ms(100));
    assert_eq!(e.latest(), ms(100));
    assert_eq!(e.smoothed(), Some(ms(100)));
    assert_eq!(e.min(), ms(100));
}

#[test]
fn rtt_rfc6298_step_example() {
    // var = (3 * 20 + 40) / 4 = 25 ms; smoothed = (7 * 100 + 140) / 8 = 105 ms.
    assert_eq!(smooth(ms(100), ms(20), ms(140)), (ms(105), ms(25)));
    assert_eq!(smooth(ms(100), ms(20), ms(60)), (ms(95), ms(25)));
    assert_eq!(smooth(8, 4, 8), (8, 3));
}

#[test]
fn rtt_plausible_ack_delay_is_taken_off() {
    let mut e = RttEstimator::new();
    e.update(0, ms(100));
    e.update(ms(10), ms(150));
    assert_eq!(e.min(), ms(100));
    assert_eq!(e.latest(), ms(140));
    assert_eq!(e.smoothed(), Some(ms(105)));
    // (3 * 50 + 40) / 4 = 47.5 ms
    assert_eq!(e.var(), ns(Duration::from_micros(47_500)));
}

#[test]
fn rtt_implausible_ack_delay_is_ignored() {
    let mut e = RttEstimator::new();
    e.update(0, ms(100));
    e.update(ms(60), ms(150));
    assert_eq!(e.latest(), ms(150));
    assert_eq!(e.smoothed(), Some(ns(Duration::from_micros(106_250))));
    // (3 * 50 + 50) / 4 = 50 ms
    assert_eq!(e.var(), ms(50));
}

#[test]
fn rtt_min_never_increases() {
    let mut e = RttEstimator::new();
    let samples: [(u64, u64); 6] = [(0, 120), (5, 80), (0, 200), (90, 300), (0, 70), (1, 75)];
    let mut prev = e.min();
    for (delay, rtt) in samples {
        e.update(ms(delay), ms(rtt));
        assert!(e.min() <= prev);
        prev = e.min();
    }
    assert_eq!(e.min(), ms(70));
}

#[test]
fn rtt_get_takes_the_larger() {
    let mut e = RttEstimator::new();
    e.update(0, ms(100));
    assert_eq!(e.get(), ms(100));
    e.update(0, ms(180));
    // smoothed = (700 + 180) / 8 = 110 ms, latest = 180 ms
    assert_eq!(e.smoothed(), Some(ms(110)));
    assert_eq!(e.get(), ms(180));
    e.update(0, ms(100));
    // smoothed = (770 + 100) / 8 = 108.75 ms, latest = 100 ms
    assert_eq!(e.get(), ns(Duration::from_micros(108_750)));
}

#[test]
fn rtt_pto_base_none_until_sample_then_floored() {
    let mut e = RttEstimator::new();
    assert_eq!(e.pto_base(), None);
    e.update(0, ms(100));
    // 100 ms + max(4 * 50 ms, 1 ms)
    assert_eq!(e.pto_base(), Some(ms(300)));

    let mut tiny = RttEstimator::new();
    tiny.update(0, 100);
    // 100 ns + max(200 ns, 1 ms)
    assert_eq!(tiny.pto_base(), Some(100 + TIMER_GRANULARITY));
    assert!(tiny.pto_base().unwrap() >= TIMER_GRANULARITY);

    let mut zero = RttEstimator::new();
    zero.update(0, 0);
    assert_eq!(zero.pto_base(), Some(TIMER_GRANULARITY));
}

#[test]
fn rtt_handles_largest_duration() {
    let mut e = RttEstimator::new();
    e.update(MAX_DURATION, MAX_DURATION);
    e.update(MAX_DURATION, MAX_DURATION);
    assert_eq!(e.smoothed(), Some(MAX_DURATION));
    assert_eq!(e.min(), MAX_DURATION);
}

#[test]
fn header_size_by_family() {
    assert_eq!(header_size(&v4()), 20);
    assert_eq!(header_size(&v6()), 48);
    assert_eq!(MtuDiscovery::new(&v4()).header_size(), 20);
    assert_eq!(MtuDiscovery::new(&v6()).header_size(), 48);
}

#[test]
fn mtud_fresh_state() {
    let d = MtuDiscovery::new(&v4());
    assert_eq!(d.current, BASE_PLPMTU);
    assert_eq!(d.current, 1280);
    assert_eq!(d.probe_number(), None);
    assert_eq!(d.probe_size(), None);
    assert_eq!(d.probe_count(), 0);
    assert_eq!(d.phase(), Phase::Searching);
}

#[test]
fn mtud_full_probe_cycle() {
    let mut d = MtuDiscovery::new(&v4());
    assert_eq!(d.poll_transmit(1), Some(1350));
    assert_eq!(d.probe_number(), Some(1));
    d.acked(1);
    assert_eq!(d.current, 1330);
    assert_eq!(d.probe_number(), None);
    assert_eq!(d.probe_size(), None);
    assert_eq!(d.poll_transmit(2), Some(1400));
    d.acked(2);
    assert_eq!(d.current, 1380);
    assert_eq!(d.poll_transmit(3), Some(1450));
    d.acked(3);
    assert_eq!(d.current, 1430);
    assert_eq!(d.poll_transmit(4), Some(1500));
    d.acked(4);
    assert_eq!(d.current, 1480);
    assert_eq!(d.phase(), Phase::Searching);
    // Every level is at or below 1480 + 20: the table is exhausted.
    assert_eq!(d.poll_transmit(5), None);
    assert_eq!(d.phase(), Phase::Complete);
    for n in 6..20 {
        assert_eq!(d.poll_transmit(n), None);
    }
    assert_eq!(d.current, 1480);
}

#[test]
fn mtud_v6_probe_cycle() {
    let mut d = MtuDiscovery::new(&v6());
    assert_eq!(d.poll_transmit(10), Some(1350));
    d.acked(10);
    assert_eq!(d.current, 1302);
    assert_eq!(d.poll_transmit(11), Some(1400));
}

#[test]
fn mtud_one_probe_in_flight() {
    let mut d = MtuDiscovery::new(&v4());
    assert_eq!(d.poll_transmit(1), Some(1350));
    assert_eq!(d.poll_transmit(2), None);
    assert_eq!(d.poll_transmit(3), None);
    assert_eq!(d.probe_number(), Some(1));
    d.acked(1);
    assert_eq!(d.poll_transmit(4), Some(1400));
    assert_eq!(d.poll_transmit(5), None);
}

#[test]
fn mtud_three_losses_complete_the_search() {
    let mut d = MtuDiscovery::new(&v4());
    assert_eq!(d.poll_transmit(1), Some(1350));
    d.lost(1);
    assert_eq!(d.probe_count(), 1);
    assert_eq!(d.phase(), Phase::Searching);
    assert_eq!(d.poll_transmit(2), Some(1350));
    d.lost(2);
    assert_eq!(d.probe_count(), 2);
    assert_eq!(d.poll_transmit(3), Some(1350));
    d.lost(3);
    assert_eq!(d.probe_count(), 3);
    assert_eq!(d.phase(), Phase::Complete);
    assert_eq!(d.probe_size(), None);
    assert_eq!(d.current, 1280);
    assert_eq!(d.poll_transmit(4), None);
}

#[test]
fn mtud_losses_after_success_keep_current() {
    let mut d = MtuDiscovery::new(&v4());
    assert_eq!(d.poll_transmit(1), Some(1350));
    d.acked(1);
    for n in 2..5 {
        assert_eq!(d.poll_transmit(n), Some(1400));
        d.lost(n);
    }
    assert_eq!(d.phase(), Phase::Complete);
    assert_eq!(d.current, 1330);
}

#[test]
fn mtud_ack_starts_the_next_size_afresh() {
    let mut d = MtuDiscovery::new(&v4());
    assert_eq!(d.poll_transmit(1), Some(1350));
    d.lost(1);
    assert_eq!(d.poll_transmit(2), Some(1350));
    d.acked(2);
    assert_eq!(d.probe_count(), 0);
    assert_eq!(d.current, 1330);
    // Two losses at the next size do not end the search.
    assert_eq!(d.poll_transmit(3), Some(1400));
    d.lost(3);
    assert_eq!(d.poll_transmit(4), Some(1400));
    d.lost(4);
    assert_eq!(d.phase(), Phase::Searching);
    assert_eq!(d.poll_transmit(5), Some(1400));
}

#[test]
fn mtud_unrelated_numbers_change_nothing() {
    let mut d = MtuDiscovery::new(&v4());
    let fresh = format!("{:?}", d);
    d.acked(1);
    d.lost(1);
    assert_eq!(format!("{:?}", d), fresh);

    assert_eq!(d.poll_transmit(7), Some(1350));
    let probing = format!("{:?}", d);
    d.acked(6);
    d.lost(8);
    d.acked(0);
    d.lost(u64::MAX);
    assert_eq!(format!("{:?}", d), probing);
    assert_eq!(d.probe_number(), Some(7));
    assert_eq!(d.current, 1280);
}

#[test]
fn path_new_is_fresh() {
    let p = PathData::new(v6(), Window { bytes: 12_000 });
    assert_eq!(p.remote, v6());
    assert!(p.sending_ecn);
    assert_eq!(p.congestion, Window { bytes: 12_000 });
    assert_eq!(p.rtt.smoothed(), None);
    assert_eq!(p.rtt.min(), MAX_DURATION);
    assert_eq!(p.mtud.current, BASE_PLPMTU);
    assert_eq!(p.mtud.header_size(), 48);
    assert_eq!(p.mtud.phase(), Phase::Searching);
}

#[test]
fn path_from_previous_carries_rtt_and_resets_mtud() {
    let mut prev = PathData::new(v4(), Window { bytes: 12_000 });
    prev.rtt.update(ms(5), ms(100));
    prev.rtt.update(ms(5), ms(150));
    prev.sending_ecn = false;
    assert_eq!(prev.mtud.poll_transmit(1), Some(1350));
    prev.mtud.acked(1);
    for n in 2..5 {
        assert_eq!(prev.mtud.poll_transmit(n), Some(1400));
        prev.mtud.lost(n);
    }
    assert_eq!(prev.mtud.phase(), Phase::Complete);

    let mut next = PathData::from_previous(v6(), &prev);
    assert_eq!(next.remote, v6());
    assert_eq!(next.rtt.latest(), prev.rtt.latest());
    assert_eq!(next.rtt.smoothed(), prev.rtt.smoothed());
    assert_eq!(next.rtt.var(), prev.rtt.var());
    assert_eq!(next.rtt.min(), prev.rtt.min());
    assert!(next.sending_ecn);
    assert_eq!(next.mtud.phase(), Phase::Searching);
    assert_eq!(next.mtud.current, BASE_PLPMTU);
    assert_eq!(next.mtud.header_size(), 48);
    assert_eq!(next.mtud.probe_count(), 0);

    // The controllers are independent.
    assert_eq!(next.congestion, prev.congestion);
    next.congestion.bytes = 1;
    assert_eq!(prev.congestion.bytes, 12_000);
    prev.congestion.bytes = 2;
    assert_eq!(next.congestion.bytes, 1);
    // So are the estimators.
    next.rtt.update(0, ms(10));
    assert_eq!(prev.rtt.min(), ms(100));
}
