use ping::stats::PingStats;

#[test]
fn avg_rtt_zero_when_nothing_received() {
    let s = PingStats::default();
    assert_eq!(s.avg_rtt(), 0);

    let mut s = PingStats::default();
    s.record_sent();
    s.record_sent();
    assert_eq!(s.num_sent, 2);
    assert_eq!(s.num_received, 0);
    assert_eq!(s.avg_rtt(), 0);
}

#[test]
fn avg_rtt_is_quotient() {
    let mut s = PingStats::default();
    s.record_sent();
    s.record_received(10);
    s.record_sent();
    s.record_received(30);
    assert_eq!(s.total_rtt, 40);
    assert_eq!(s.num_received, 2);
    assert_eq!(s.avg_rtt(), 20);

    // integer quotient: 7 / 2 == 3
    let mut t = PingStats::default();
    t.record_sent();
    t.record_received(3);
    t.record_sent();
    t.record_received(4);
    assert_eq!(t.avg_rtt(), 3);
}

#[test]
fn total_lost_counts_unanswered() {
    let mut s = PingStats::default();
    assert_eq!(s.total_lost(), 0);
    s.record_sent();
    assert_eq!(s.total_lost(), 1);
    s.record_received(5);
    assert_eq!(s.total_lost(), 0);
    s.record_sent();
    s.record_sent();
    assert_eq!(s.total_lost(), 2);
}

#[test]
fn three_cycle_scenario() {
    // outcomes: Received(10 ms), TimedOut, Received(30 ms)
    let mut s = PingStats::default();
    s.record_sent();
    s.record_received(10);
    s.record_sent();
    s.record_sent();
    s.record_received(30);

    assert_eq!(s.num_sent, 3);
    assert_eq!(s.num_received, 2);
    assert_eq!(s.total_rtt, 40);
    assert_eq!(s.avg_rtt(), 20);
    assert_eq!(s.total_lost(), 1);

    // loss ratio = 1 - num_received / num_sent = total_lost / num_sent
    let loss = 1.0 - s.num_received as f64 / s.num_sent as f64;
    assert!((loss - 1.0 / 3.0).abs() < 1e-12);
    assert!((loss - s.total_lost() as f64 / s.num_sent as f64).abs() < 1e-12);
}

#[test]
fn default_is_all_zero() {
    let s = PingStats::default();
    assert_eq!(s.num_sent, 0);
    assert_eq!(s.num_received, 0);
    assert_eq!(s.total_rtt, 0);
}
