use export_data::poller::{
    PollPolicy, PollState, PollStep, Probe, POLL_CEILING_MS, POLL_INTERVAL_MS,
};

/// Drives a wait in which the file is ready from `ready_at` on (never, if
/// `None`), and returns the step that ends it, the elapsed time and the
/// number of delays.
fn wait(policy: PollPolicy, ready_at: Option<u64>) -> (PollStep, u64, u64) {
    let mut state = PollState::start(policy);
    let mut sleeps: u64 = 0;
    loop {
        let probe = match ready_at {
            Some(t) if state.elapsed_ms >= t => Probe::Ready,
            _ => Probe::NotReady,
        };
        match state.observe(probe) {
            PollStep::Sleep { ms } => {
                assert_eq!(ms, policy.interval_ms);
                sleeps += 1;
            }
            step => return (step, state.elapsed_ms, sleeps),
        }
    }
}

#[test]
fn standard_policy_is_three_minutes_and_half_a_second() {
    let policy = PollPolicy::standard();
    assert_eq!(policy.ceiling_ms, 180_000);
    assert_eq!(policy.interval_ms, 500);
    assert_eq!(POLL_CEILING_MS, 180_000);
    assert_eq!(POLL_INTERVAL_MS, 500);
    assert!(policy.is_valid());
}

#[test]
fn policy_needs_a_positive_interval() {
    assert_eq!(PollPolicy::new(1000, 0), None);
    assert!(!PollPolicy { ceiling_ms: 1000, interval_ms: 0 }.is_valid());
}

#[test]
fn policy_needs_room_for_the_last_delay() {
    assert_eq!(PollPolicy::new(u64::MAX, 1), None);
    assert_eq!(PollPolicy::new(u64::MAX - 499, 500), None);
    assert_eq!(
        PollPolicy::new(u64::MAX - 500, 500),
        Some(PollPolicy { ceiling_ms: u64::MAX - 500, interval_ms: 500 })
    );
    assert!(!PollPolicy { ceiling_ms: u64::MAX, interval_ms: 1 }.is_valid());
}

#[test]
fn policy_of_given_values() {
    assert_eq!(
        PollPolicy::new(1200, 500),
        Some(PollPolicy { ceiling_ms: 1200, interval_ms: 500 })
    );
    assert_eq!(PollPolicy::new(0, 1), Some(PollPolicy { ceiling_ms: 0, interval_ms: 1 }));
}

#[test]
fn wait_starts_with_nothing_elapsed() {
    let state = PollState::start(PollPolicy::standard());
    assert_eq!(state.elapsed_ms, 0);
    assert_eq!(state.policy, PollPolicy::standard());
}

#[test]
fn never_ready_times_out_at_the_ceiling() {
    let (step, elapsed, sleeps) = wait(PollPolicy::standard(), None);
    assert_eq!(step, PollStep::TimedOut { elapsed_ms: 180_000 });
    assert_eq!(elapsed, 180_000);
    assert_eq!(sleeps, 360);
}

#[test]
fn never_ready_times_out_within_one_interval_after_the_ceiling() {
    let policy = PollPolicy::new(1200, 500).unwrap();
    let (step, elapsed, sleeps) = wait(policy, None);
    assert_eq!(step, PollStep::TimedOut { elapsed_ms: 1500 });
    assert_eq!(elapsed, 1500);
    assert_eq!(sleeps, 3);
    assert!(1200 <= elapsed && elapsed < 1200 + 500);
}

#[test]
fn timeout_lies_in_the_last_interval_for_many_policies() {
    for ceiling in [0u64, 1, 2, 499, 500, 501, 999, 1000, 1001, 7919] {
        for interval in [1u64, 2, 3, 500, 1000, 7919, 10_000] {
            let policy = PollPolicy::new(ceiling, interval).unwrap();
            let (step, elapsed, _) = wait(policy, None);
            assert_eq!(step, PollStep::TimedOut { elapsed_ms: elapsed });
            assert!(ceiling <= elapsed && elapsed < ceiling + interval);
        }
    }
}

#[test]
fn ceiling_of_zero_times_out_on_the_first_probe() {
    let policy = PollPolicy::new(0, 500).unwrap();
    let mut state = PollState::start(policy);
    assert_eq!(state.observe(Probe::NotReady), PollStep::TimedOut { elapsed_ms: 0 });
    assert_eq!(state.elapsed_ms, 0);
}

#[test]
fn probe_failure_ends_the_wait_at_once() {
    let mut state = PollState::start(PollPolicy::standard());
    assert_eq!(state.observe(Probe::Failed), PollStep::IoFailure);
    assert_eq!(state.elapsed_ms, 0);
}

#[test]
fn probe_failure_after_some_waiting_adds_no_delay() {
    let mut state = PollState::start(PollPolicy::standard());
    assert_eq!(state.observe(Probe::NotReady), PollStep::Sleep { ms: 500 });
    assert_eq!(state.observe(Probe::NotReady), PollStep::Sleep { ms: 500 });
    assert_eq!(state.elapsed_ms, 1000);
    assert_eq!(state.observe(Probe::Failed), PollStep::IoFailure);
    assert_eq!(state.elapsed_ms, 1000);
}

#[test]
fn ready_at_once_asks_for_one_settle_delay() {
    let mut state = PollState::start(PollPolicy::standard());
    assert_eq!(state.observe(Probe::Ready), PollStep::Ready { settle_ms: 500 });
    assert_eq!(state.elapsed_ms, 0);
}

#[test]
fn ready_in_time_is_seen_within_one_interval() {
    let (step, elapsed, sleeps) = wait(PollPolicy::standard(), Some(700));
    assert_eq!(step, PollStep::Ready { settle_ms: 500 });
    assert_eq!(elapsed, 1000);
    assert_eq!(sleeps, 2);
}

#[test]
fn ready_just_below_the_ceiling_is_still_seen() {
    let policy = PollPolicy::new(1000, 500).unwrap();
    let (step, elapsed, _) = wait(policy, Some(999));
    assert_eq!(step, PollStep::Ready { settle_ms: 500 });
    assert_eq!(elapsed, 1000);
}

#[test]
fn ready_is_seen_no_earlier_than_it_holds_for_many_times() {
    let policy = PollPolicy::new(10_000, 300).unwrap();
    for t in [0u64, 1, 299, 300, 301, 4567, 9999] {
        let (step, elapsed, _) = wait(policy, Some(t));
        assert_eq!(step, PollStep::Ready { settle_ms: 300 });
        assert!(t <= elapsed && elapsed < t + 300);
    }
}

#[test]
fn not_ready_below_the_ceiling_sleeps_one_interval() {
    let policy = PollPolicy::new(1200, 500).unwrap();
    let mut state = PollState::start(policy);
    assert_eq!(state.observe(Probe::NotReady), PollStep::Sleep { ms: 500 });
    assert_eq!(state.elapsed_ms, 500);
    assert_eq!(state.policy, policy);
}

#[test]
fn state_is_valid_with_its_policy() {
    assert!(PollState::start(PollPolicy::standard()).is_valid());
    let idle = PollPolicy { ceiling_ms: 1000, interval_ms: 0 };
    assert!(!PollState { policy: idle, elapsed_ms: 0 }.is_valid());
}
