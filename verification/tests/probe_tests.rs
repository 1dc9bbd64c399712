use ping::family::IpFamily;
use ping::probe::{
    ProbeAction, ProbeConfig, ProbeLoop, ProbePhase, DEFAULT_TTL, PROBE_INTERVAL_MS,
};
use ping::wait::ReplyEvent;

fn config(probe_count: Option<u64>) -> ProbeConfig {
    ProbeConfig {
        family: IpFamily::V4,
        ttl: DEFAULT_TTL,
        timeout_ms: 2000,
        interval_ms: PROBE_INTERVAL_MS,
        probe_count,
    }
}

#[test]
fn exactly_three_cycles_with_count_three() {
    let mut lp = ProbeLoop::new(config(Some(3)));
    // outcomes differ per cycle; the count alone decides when to stop
    let outcomes = [
        (ReplyEvent::Received, 10u64),
        (ReplyEvent::TimedOut, 2000u64),
        (ReplyEvent::Received, 30u64),
    ];
    let mut cycles = 0;
    loop {
        match lp.begin_cycle(false) {
            ProbeAction::Stop => break,
            ProbeAction::SendProbe => {}
        }
        let (outcome, rtt) = outcomes[cycles];
        lp.record_sent();
        lp.record_outcome(outcome, rtt);
        cycles += 1;
        assert!(cycles <= 3);
    }
    assert_eq!(cycles, 3);
    assert_eq!(lp.phase, ProbePhase::Stopped);
    assert_eq!(lp.stats.num_sent, 3);
    assert_eq!(lp.stats.num_received, 2);
    assert_eq!(lp.stats.total_rtt, 40);
    assert_eq!(lp.stats.avg_rtt(), 20);
    assert_eq!(lp.stats.total_lost(), 1);
}

#[test]
fn count_zero_sends_nothing() {
    let mut lp = ProbeLoop::new(config(Some(0)));
    assert_eq!(lp.begin_cycle(false), ProbeAction::Stop);
    assert_eq!(lp.phase, ProbePhase::Stopped);
    assert_eq!(lp.stats.num_sent, 0);
}

#[test]
fn no_count_keeps_going() {
    let mut lp = ProbeLoop::new(config(None));
    for _ in 0..10 {
        assert_eq!(lp.begin_cycle(false), ProbeAction::SendProbe);
        lp.record_sent();
        lp.record_outcome(ReplyEvent::TimedOut, 2000);
    }
    assert_eq!(lp.stats.num_sent, 10);
    assert_eq!(lp.stats.num_received, 0);
    assert_eq!(lp.stats.avg_rtt(), 0);
    assert_eq!(lp.stats.total_lost(), 10);
}

#[test]
fn cancellation_stops_between_cycles() {
    let mut lp = ProbeLoop::new(config(Some(100)));
    assert_eq!(lp.begin_cycle(false), ProbeAction::SendProbe);
    lp.record_sent();
    lp.record_outcome(ReplyEvent::Received, 5);
    // the driver observed a cancellation before the next cycle
    assert_eq!(lp.begin_cycle(true), ProbeAction::Stop);
    assert_eq!(lp.phase, ProbePhase::Stopped);
    assert_eq!(lp.stats.num_sent, 1);
}

#[test]
fn phases_walk_the_cycle() {
    let mut lp = ProbeLoop::new(config(Some(2)));
    assert_eq!(lp.phase, ProbePhase::Idle);
    lp.begin_cycle(false);
    assert_eq!(lp.phase, ProbePhase::Sending);
    lp.record_sent();
    assert_eq!(lp.phase, ProbePhase::AwaitingReply);
    lp.record_outcome(ReplyEvent::TimedOut, 2000);
    assert_eq!(lp.phase, ProbePhase::Recorded);
}

#[test]
fn timeouts_are_recorded_not_fatal() {
    let mut lp = ProbeLoop::new(config(Some(2)));
    lp.begin_cycle(false);
    lp.record_sent();
    lp.record_outcome(ReplyEvent::TimedOut, 2000);
    // the loop goes on after a timeout; stats count it as lost only
    assert_eq!(lp.begin_cycle(false), ProbeAction::SendProbe);
    assert_eq!(lp.stats.num_sent, 1);
    assert_eq!(lp.stats.num_received, 0);
}

#[test]
fn abort_is_terminal_and_keeps_stats() {
    let mut lp = ProbeLoop::new(config(None));
    lp.begin_cycle(false);
    lp.record_sent();
    lp.record_outcome(ReplyEvent::Received, 7);
    lp.abort();
    assert_eq!(lp.phase, ProbePhase::Stopped);
    assert_eq!(lp.stats.num_sent, 1);
    assert_eq!(lp.stats.num_received, 1);
    assert_eq!(lp.stats.total_rtt, 7);
}
