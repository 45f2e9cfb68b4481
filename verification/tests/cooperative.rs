use embassy_net::cooperative::{
    take_start_direction, CooperativePollExit, CooperativePollReport, CooperativePollState,
    PollIngressSingleResult, PollResult, DIRECTION_QUANTUM, EGRESS_LIMIT, INGRESS_LIMIT,
};

#[test]
fn egress_credit_does_not_block_reserved_ingress() {
    let mut state = CooperativePollState::new(true);
    state.record_egress(PollResult::Idle, 0, true, false);
    assert!(!state.can_poll_egress());
    assert!(state.can_poll_ingress());
    assert!(!state.should_self_wake());
}

#[test]
fn ingress_and_egress_budgets_self_wake() {
    let mut ingress = CooperativePollState::new(true);
    for _ in 0..INGRESS_LIMIT {
        ingress.record_ingress(PollIngressSingleResult::PacketProcessed);
    }
    ingress.egress_drained = true;
    assert!(!ingress.can_poll());
    assert!(ingress.should_self_wake());

    let mut egress = CooperativePollState::new(false);
    egress.ingress_drained = true;
    for _ in 0..u32::from(EGRESS_LIMIT) / u32::from(DIRECTION_QUANTUM) {
        egress.record_egress(
            PollResult::SocketStateChanged,
            u32::from(DIRECTION_QUANTUM),
            false,
            true,
        );
    }
    assert!(!egress.can_poll());
    assert!(egress.should_self_wake());
}

#[test]
fn a_quantum_stop_is_not_a_natural_drain() {
    let mut state = CooperativePollState::new(false);
    state.record_egress(PollResult::Idle, u32::from(DIRECTION_QUANTUM), false, true);
    assert!(!state.egress_drained);
    assert!(state.can_poll_egress());
}

#[test]
fn drained_or_credit_blocked_poll_does_not_spin() {
    let mut drained = CooperativePollState::new(true);
    drained.record_ingress(PollIngressSingleResult::Idle);
    drained.record_egress(PollResult::Idle, 0, false, false);
    assert!(!drained.should_self_wake());

    let mut blocked = CooperativePollState::new(true);
    blocked.record_ingress(PollIngressSingleResult::Idle);
    blocked.record_egress(PollResult::Idle, 0, true, false);
    assert!(!blocked.should_self_wake());
}

#[test]
fn first_direction_alternates() {
    let mut next = true;
    assert!(take_start_direction(&mut next));
    assert!(!take_start_direction(&mut next));
    assert!(take_start_direction(&mut next));
}

#[test]
fn counters_saturate() {
    let mut state = CooperativePollState::new(true);
    state.ingress_calls = 255;
    state.ingress_packets = 255;
    state.egress_passes = 255;
    state.egress_tx_tokens = u32::MAX - 1;
    state.record_ingress(PollIngressSingleResult::SocketStateChanged);
    state.record_egress(PollResult::Idle, 5, false, false);
    assert_eq!(state.ingress_calls, 255);
    assert_eq!(state.ingress_packets, 255);
    assert_eq!(state.egress_passes, 255);
    assert_eq!(state.egress_tx_tokens, u32::MAX);
}

#[test]
fn a_packet_reopens_egress() {
    let mut state = CooperativePollState::new(true);
    state.record_egress(PollResult::Idle, 0, false, false);
    assert!(!state.can_poll_egress());
    state.record_ingress(PollIngressSingleResult::Idle);
    assert!(!state.can_poll_egress());

    let mut state = CooperativePollState::new(true);
    state.record_egress(PollResult::Idle, 0, false, false);
    state.record_ingress(PollIngressSingleResult::SocketStateChanged);
    assert!(state.can_poll_egress());
}

#[test]
fn egress_drains_only_when_it_had_nothing_to_do() {
    for (result, tokens, blocked, quantum, drained) in [
        (PollResult::Idle, 0, false, false, true),
        (PollResult::SocketStateChanged, 0, false, false, false),
        (PollResult::Idle, 1, false, false, false),
        (PollResult::Idle, 0, true, false, false),
        (PollResult::Idle, 0, false, true, false),
    ] {
        let mut state = CooperativePollState::new(true);
        state.record_egress(result, tokens, blocked, quantum);
        assert_eq!(state.egress_drained, drained);
    }
}

#[test]
fn a_guarded_turn_stays_within_its_budgets() {
    let mut state = CooperativePollState::new(true);
    let mut calls = 0;
    while state.can_poll() {
        if state.can_poll_ingress() {
            state.record_ingress(PollIngressSingleResult::PacketProcessed);
            calls += 1;
        }
        if state.can_poll_egress() {
            state.record_egress(PollResult::SocketStateChanged, 4, false, true);
        }
    }
    assert_eq!(calls, 32);
    assert_eq!(state.egress_tx_tokens, 32);
    assert_eq!(
        state.report(),
        CooperativePollReport {
            ingress_calls: 32,
            ingress_packets: 32,
            egress_passes: 8,
            egress_tx_tokens: 32,
            egress_blocked: false,
            ingress_budget_exhausted: true,
            egress_budget_exhausted: true,
            started_with_ingress: true,
            exit: CooperativePollExit::WorkBudget,
        }
    );
}

#[test]
fn the_report_names_the_reason() {
    let mut blocked = CooperativePollState::new(false);
    blocked.record_ingress(PollIngressSingleResult::Idle);
    blocked.record_egress(PollResult::Idle, 3, true, false);
    assert_eq!(blocked.report().exit, CooperativePollExit::EgressCredit);
    assert!(blocked.report().egress_blocked);
    assert!(!blocked.report().started_with_ingress);

    let mut drained = CooperativePollState::new(true);
    drained.record_ingress(PollIngressSingleResult::Idle);
    drained.record_egress(PollResult::Idle, 0, false, false);
    assert!(!drained.can_poll());
    assert_eq!(drained.report().exit, CooperativePollExit::Drained);
}

#[test]
fn received_packets_are_bounded_whatever_egress_does() {
    let mut state = CooperativePollState::new(true);
    let mut received = 0;
    while state.can_poll_ingress() {
        state.record_ingress(PollIngressSingleResult::PacketProcessed);
        state.record_egress(PollResult::SocketStateChanged, u32::MAX, received % 2 == 0, true);
        received += 1;
    }
    assert_eq!(received, 32);
    assert_eq!(state.ingress_packets, 32);
    assert_eq!(state.ingress_calls, 32);
}
