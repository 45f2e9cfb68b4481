use std::task::Waker;

use embassy_net::driver::{
    Capabilities, Checksum, ChecksumCapabilities, HardwareAddress, Medium, PacketMeta, Timestamp,
};
use embassy_net::driver_util::{
    into_embassy_net_meta, into_xarxa_meta, DriverAdapter, RxToken, RxTokenAdapter, TokenDriver,
    TxToken, TxTokenAdapter,
};
use embassy_net::egress;
use embassy_net::nonzero::{NonZeroU16, NonZeroU32, NonZeroU8};
use embassy_net::phy;

#[derive(Debug)]
struct TestRxToken;

impl RxToken for TestRxToken {
    fn meta(&self) -> PacketMeta {
        PacketMeta {
            id: 15,
            timestamp: Some(Timestamp { seconds: 1, quarter_nanos: 2 }),
            request_timestamp: false,
        }
    }

    fn consume<R, F: FnOnce(&mut [u8]) -> R>(self, f: F) -> R {
        f(&mut [1, 2, 3])
    }
}

#[derive(Debug)]
struct TestTxToken {
    meta: Option<PacketMeta>,
}

impl TxToken for TestTxToken {
    fn set_meta(&mut self, meta: PacketMeta) {
        self.meta = Some(meta);
    }

    fn consume<R, F: FnOnce(&mut [u8]) -> R>(self, len: usize, f: F) -> R {
        let mut buffer = vec![0; len];
        let result = f(&mut buffer);
        assert!(buffer.iter().all(|byte| *byte == 9));
        result
    }
}

fn token() -> TestTxToken {
    TestTxToken { meta: None }
}

struct TestDriver {
    transmit_calls: u32,
    control_transmit_calls: u32,
    tx_available: bool,
    frame: bool,
    keyed_result: u8,
    last_egress: Option<egress::EgressKey>,
    schedule: Option<egress::EgressSchedule>,
    last_demand: Option<egress::EgressDemandUpdate>,
    grant: Option<egress::EgressBurstGrant>,
    completion: Option<egress::EgressGrantCompletion>,
    admission_serial: Option<NonZeroU32>,
}

fn test_driver() -> TestDriver {
    TestDriver {
        transmit_calls: 0,
        control_transmit_calls: 0,
        tx_available: true,
        frame: false,
        keyed_result: 0,
        last_egress: None,
        schedule: None,
        last_demand: None,
        grant: None,
        completion: None,
        admission_serial: None,
    }
}

impl TokenDriver for TestDriver {
    type RxToken = TestRxToken;
    type TxToken = TestTxToken;

    fn receive(&mut self, _cx: &Waker) -> Option<(TestRxToken, TestTxToken)> {
        if self.frame {
            Some((TestRxToken, token()))
        } else {
            None
        }
    }

    fn transmit(&mut self, _cx: &Waker) -> Option<TestTxToken> {
        self.transmit_calls += 1;
        self.tx_available.then_some(token())
    }

    fn transmit_control(&mut self, _cx: &Waker) -> Option<TestTxToken> {
        self.control_transmit_calls += 1;
        self.tx_available.then_some(token())
    }

    fn egress_key(&mut self, route: egress::EgressRoute) -> egress::EgressKey {
        assert_eq!(
            route,
            egress::EgressRoute {
                destination: HardwareAddress::Ethernet([2, 3, 4, 5, 6, 7]),
                traffic_class: 0x28,
            }
        );
        egress::EgressKey { words: [11, 13, 17, 19] }
    }

    fn transmit_for(
        &mut self,
        _cx: &Waker,
        key: egress::EgressKey,
    ) -> egress::EgressAdmission<TestTxToken> {
        self.transmit_calls += 1;
        self.last_egress = Some(key);
        match self.keyed_result {
            0 => egress::EgressAdmission::Granted(token()),
            1 => egress::EgressAdmission::GlobalExhausted,
            _ => egress::EgressAdmission::KeyDeferred,
        }
    }

    fn transmit_granted(
        &mut self,
        _cx: &Waker,
        grant_serial: NonZeroU32,
    ) -> egress::EgressAdmission<TestTxToken> {
        self.admission_serial = Some(grant_serial);
        match self.keyed_result {
            0 => egress::EgressAdmission::Granted(token()),
            1 => egress::EgressAdmission::GlobalExhausted,
            _ => egress::EgressAdmission::KeyDeferred,
        }
    }

    fn capabilities(&self) -> Capabilities {
        Capabilities {
            medium: Medium::Ip,
            max_transmission_unit: 1514,
            max_burst_size: Some(3),
            checksum: ChecksumCapabilities {
                ipv4: Checksum::Both,
                udp: Checksum::Rx,
                tcp: Checksum::Tx,
                icmpv4: Checksum::Neither,
                icmpv6: Checksum::Rx,
            },
        }
    }

    fn egress_schedule(&mut self) -> Option<egress::EgressSchedule> {
        self.schedule
    }

    fn update_egress_demand(&mut self, _cx: &Waker, update: egress::EgressDemandUpdate) {
        self.last_demand = Some(update);
    }

    fn poll_egress_grant(&mut self, _cx: &Waker) -> Option<egress::EgressBurstGrant> {
        self.grant.take()
    }

    fn finish_egress_grant(&mut self, _cx: &Waker, completion: egress::EgressGrantCompletion) {
        self.completion = Some(completion);
    }
}

fn adapter<'d, 'c>(
    driver: &'d mut TestDriver,
    cx: &'c Waker,
) -> DriverAdapter<'c, &'d mut TestDriver> {
    DriverAdapter {
        cx: Some(cx),
        inner: driver,
        medium: phy::Medium::Ethernet,
        tx_exhausted: false,
        tx_tokens_issued: 0,
        tx_token_limit: None,
        tx_budget_exhausted: false,
    }
}

#[test]
fn artificial_tx_budget_is_not_hardware_exhaustion() {
    let mut driver = test_driver();
    let mut adapter = adapter(&mut driver, Waker::noop());
    adapter.set_tx_token_limit(Some(2));

    assert!(adapter.transmit().is_some());
    assert!(adapter.transmit().is_some());
    assert!(adapter.transmit().is_none());
    assert_eq!(adapter.inner.transmit_calls, 2);
    assert!(adapter.take_tx_budget_exhausted());
    assert!(!adapter.take_tx_exhausted());

    adapter.set_tx_token_limit(Some(3));
    assert!(adapter.transmit().is_some());
    assert_eq!(adapter.inner.transmit_calls, 3);
    assert!(!adapter.take_tx_budget_exhausted());
}

#[test]
fn control_admission_reaches_the_distinct_driver_reserve() {
    let mut driver = test_driver();
    let mut adapter = adapter(&mut driver, Waker::noop());

    assert!(adapter.transmit_control().is_some());
    assert_eq!(adapter.inner.control_transmit_calls, 1);
    assert_eq!(adapter.inner.transmit_calls, 0);
}

#[test]
fn hardware_tx_exhaustion_remains_distinct() {
    let mut driver = test_driver();
    driver.tx_available = false;
    let mut adapter = adapter(&mut driver, Waker::noop());
    adapter.set_tx_token_limit(Some(1));

    assert!(adapter.transmit().is_none());
    assert_eq!(adapter.inner.transmit_calls, 1);
    assert!(adapter.take_tx_exhausted());
    assert!(!adapter.take_tx_budget_exhausted());
}

#[test]
fn keyed_admission_preserves_driver_classification_and_refusal_class() {
    let mut driver = test_driver();
    driver.schedule = Some(egress::EgressSchedule {
        max_packets_per_key: NonZeroU8::new(32).unwrap(),
        dispatch_quantum: NonZeroU8::new(4).unwrap(),
        epoch: 7,
        grant_mode: egress::EgressGrantMode::StackSelected,
    });
    let mut adapter = adapter(&mut driver, Waker::noop());
    let route = phy::EgressRoute {
        destination: phy::EgressHardwareAddress::Ethernet([2, 3, 4, 5, 6, 7]),
        traffic_class: 0x28,
    };
    let request = adapter.egress_key(route).unwrap();
    assert_eq!(request, phy::EgressKey { words: [11, 13, 17, 19] });
    assert!(matches!(adapter.transmit_for(request), phy::EgressAdmission::Granted(_)));
    assert_eq!(adapter.inner.last_egress, Some(egress::EgressKey { words: [11, 13, 17, 19] }));

    adapter.inner.keyed_result = 2;
    assert!(matches!(adapter.transmit_for(request), phy::EgressAdmission::KeyDeferred));
    assert!(!adapter.take_tx_exhausted());

    adapter.inner.keyed_result = 1;
    assert!(matches!(adapter.transmit_for(request), phy::EgressAdmission::GlobalExhausted));
    assert!(adapter.take_tx_exhausted());

    let schedule = adapter.egress_schedule().unwrap();
    assert_eq!(schedule.max_packets_per_key.get(), 32);
    assert_eq!(schedule.dispatch_quantum.get(), 4);
    assert_eq!(schedule.epoch, 7);
    assert_eq!(schedule.grant_mode, phy::EgressGrantMode::StackSelected);
}

#[test]
fn egress_demand_identity_and_level_cross_the_stack_adapter() {
    let mut driver = test_driver();
    let mut adapter = adapter(&mut driver, Waker::noop());
    let id = phy::EgressDemandId { schedule_epoch: 7, activation: NonZeroU32::new(11).unwrap() };
    let key = phy::EgressKey { words: [2, 3, 5, 7] };
    adapter.update_egress_demand(phy::EgressDemandUpdate::Active(phy::EgressDemand {
        id,
        key,
        level: phy::EgressDemandLevel {
            ready_units: NonZeroU16::new(13).unwrap(),
            horizon_ready: true,
        },
    }));

    assert_eq!(
        adapter.inner.last_demand,
        Some(egress::EgressDemandUpdate::Active(egress::EgressDemand {
            id: egress::EgressDemandId {
                schedule_epoch: 7,
                activation: NonZeroU32::new(11).unwrap(),
            },
            key: egress::EgressKey { words: [2, 3, 5, 7] },
            level: egress::EgressDemandLevel {
                ready_units: NonZeroU16::new(13).unwrap(),
                horizon_ready: true,
            },
        }))
    );
}

#[test]
fn grant_and_completion_cross_the_stack_adapter_losslessly() {
    let demand = egress::EgressDemand {
        id: egress::EgressDemandId { schedule_epoch: 9, activation: NonZeroU32::new(4).unwrap() },
        key: egress::EgressKey { words: [2, 3, 5, 7] },
        level: egress::EgressDemandLevel {
            ready_units: NonZeroU16::new(32).unwrap(),
            horizon_ready: true,
        },
    };
    let grant = egress::EgressBurstGrant {
        serial: NonZeroU32::new(17).unwrap(),
        demand,
        frame_credits: NonZeroU8::new(32).unwrap(),
        airtime_hundred_nanoseconds: NonZeroU32::new(21_000).unwrap(),
    };
    let mut driver = test_driver();
    driver.grant = Some(grant);
    let mut adapter = adapter(&mut driver, Waker::noop());

    let observed = adapter.poll_egress_grant().unwrap();
    assert_eq!(observed.serial, grant.serial);
    assert_eq!(observed.demand.key.words, demand.key.words);
    assert_eq!(observed.frame_credits, grant.frame_credits);
    assert!(matches!(
        adapter.transmit_granted(observed.serial),
        phy::EgressAdmission::Granted(_)
    ));
    assert_eq!(adapter.inner.admission_serial, Some(grant.serial));
    let remaining = phy::EgressDemandLevel {
        ready_units: NonZeroU16::new(3).unwrap(),
        horizon_ready: false,
    };
    adapter.finish_egress_grant(phy::EgressGrantCompletion {
        serial: observed.serial,
        used_frames: 29,
        remaining: Some(remaining),
    });

    assert_eq!(
        adapter.inner.completion,
        Some(egress::EgressGrantCompletion {
            serial: grant.serial,
            used_frames: 29,
            remaining: Some(egress::EgressDemandLevel {
                ready_units: NonZeroU16::new(3).unwrap(),
                horizon_ready: false,
            }),
        })
    );
}

#[test]
fn every_kind_of_request_counts_against_the_budget() {
    let mut driver = test_driver();
    let mut adapter = adapter(&mut driver, Waker::noop());
    let key = phy::EgressKey { words: [1, 2, 3, 4] };
    let serial = NonZeroU32::new(5).unwrap();
    adapter.set_tx_token_limit(Some(4));
    assert!(adapter.transmit().is_some());
    assert!(adapter.transmit_control().is_some());
    assert!(matches!(adapter.transmit_for(key), phy::EgressAdmission::Granted(_)));
    assert!(matches!(adapter.transmit_granted(serial), phy::EgressAdmission::Granted(_)));
    assert_eq!(adapter.tx_tokens_issued, 4);

    assert!(adapter.transmit_control().is_none());
    assert!(adapter.take_tx_budget_exhausted());
    assert!(matches!(adapter.transmit_for(key), phy::EgressAdmission::GlobalExhausted));
    assert!(adapter.take_tx_budget_exhausted());
    assert!(matches!(adapter.transmit_granted(serial), phy::EgressAdmission::GlobalExhausted));
    assert!(adapter.take_tx_budget_exhausted());
    assert!(!adapter.take_tx_budget_exhausted());
    assert!(!adapter.take_tx_exhausted());
    assert_eq!(adapter.inner.control_transmit_calls, 1);
    assert_eq!(adapter.tx_tokens_issued, 4);
}

#[test]
fn a_spent_budget_needs_no_waker() {
    let mut driver = test_driver();
    let mut adapter = adapter(&mut driver, Waker::noop());
    adapter.cx = None;
    adapter.set_tx_token_limit(Some(0));
    assert!(adapter.transmit().is_none());
}

#[test]
fn issued_tokens_saturate() {
    let mut driver = test_driver();
    let mut adapter = adapter(&mut driver, Waker::noop());
    adapter.tx_tokens_issued = u32::MAX;
    assert!(adapter.transmit().is_some());
    assert_eq!(adapter.tx_tokens_issued, u32::MAX);
}

#[test]
fn an_unknown_address_gets_no_driver_key() {
    let mut driver = test_driver();
    let mut adapter = adapter(&mut driver, Waker::noop());
    let route = phy::EgressRoute {
        destination: phy::EgressHardwareAddress::Unknown,
        traffic_class: 0x28,
    };
    assert_eq!(adapter.egress_key(route), None);
}

#[test]
fn inactive_and_reset_updates_cross_the_adapter() {
    let mut driver = test_driver();
    let mut adapter = adapter(&mut driver, Waker::noop());
    adapter.update_egress_demand(phy::EgressDemandUpdate::Reset { schedule_epoch: 6 });
    assert_eq!(
        adapter.inner.last_demand,
        Some(egress::EgressDemandUpdate::Reset { schedule_epoch: 6 })
    );
    adapter.update_egress_demand(phy::EgressDemandUpdate::Inactive {
        id: phy::EgressDemandId { schedule_epoch: 6, activation: NonZeroU32::new(8).unwrap() },
        key: phy::EgressKey { words: [9, 8, 7, 6] },
    });
    assert_eq!(
        adapter.inner.last_demand,
        Some(egress::EgressDemandUpdate::Inactive {
            id: egress::EgressDemandId {
                schedule_epoch: 6,
                activation: NonZeroU32::new(8).unwrap(),
            },
            key: egress::EgressKey { words: [9, 8, 7, 6] },
        })
    );
}

#[test]
fn capabilities_take_the_medium_of_the_adapter() {
    let mut driver = test_driver();
    let adapter = adapter(&mut driver, Waker::noop());
    assert_eq!(
        adapter.capabilities(),
        phy::DeviceCapabilities {
            medium: Medium::Ethernet,
            max_transmission_unit: 1514,
            max_burst_size: Some(3),
            checksum: phy::ChecksumCapabilities {
                ipv4: phy::Checksum::Both,
                udp: phy::Checksum::Rx,
                tcp: phy::Checksum::Tx,
                icmpv4: phy::Checksum::Neither,
                icmpv6: phy::Checksum::Rx,
            },
        }
    );
    assert_eq!(phy::Medium::Ip.to_driver(), Medium::Ip);
    assert_eq!(phy::Medium::Ieee802154.to_driver(), Medium::Ieee802154);
}

#[test]
fn a_received_frame_brings_both_tokens() {
    let mut driver = test_driver();
    driver.frame = true;
    let mut adapter = adapter(&mut driver, Waker::noop());
    let (rx, mut tx) = adapter.receive().unwrap();
    assert_eq!(
        rx.meta(),
        phy::PacketMeta {
            id: 15,
            timestamp: Some(phy::Timestamp { seconds: 1, quarter_nanos: 2 }),
            request_timestamp: false,
        }
    );
    tx.set_meta(phy::PacketMeta { id: 16, timestamp: None, request_timestamp: true });
    assert_eq!(
        tx.0.meta,
        Some(PacketMeta { id: 16, timestamp: None, request_timestamp: true })
    );
    // A token for an answer is not a token of the transmit budget.
    assert_eq!(adapter.tx_tokens_issued, 0);
    adapter.inner.frame = false;
    assert!(adapter.receive().is_none());
}

#[test]
fn metadata_makes_the_round_trip() {
    for timestamp in [None, Some(Timestamp { seconds: 3, quarter_nanos: 4 })] {
        let meta = PacketMeta { id: 0xdead_beef, timestamp, request_timestamp: true };
        assert_eq!(into_embassy_net_meta(into_xarxa_meta(meta)), meta);
    }
}

#[test]
fn nonzero_numbers_are_not_zero() {
    assert_eq!(NonZeroU8::new(0), None);
    assert_eq!(NonZeroU16::new(0), None);
    assert_eq!(NonZeroU32::new(0), None);
    assert_eq!(NonZeroU8::new(255).unwrap().get(), 255);
    assert_eq!(NonZeroU16::new(1).unwrap().get(), 1);
    assert_eq!(NonZeroU32::new(7).unwrap().get(), 7);
}

#[test]
fn adapters_hold_their_tokens() {
    let rx = RxTokenAdapter(TestRxToken);
    assert_eq!(rx.meta().id, 15);
    assert_eq!(rx.consume(|frame| frame.to_vec()), vec![1, 2, 3]);
    let tx = TxTokenAdapter(token());
    assert_eq!(tx.0.meta, None);
    let written = tx.consume(4, |buffer| {
        buffer.fill(9);
        buffer.len()
    });
    assert_eq!(written, 4);
}
