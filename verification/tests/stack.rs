use std::sync::atomic::{AtomicUsize, Ordering};
use std::sync::Arc;
use std::task::{Wake, Waker};

use embassy_net::config::{
    Config, ConfigV4, ConfigV6, DhcpConfig, DhcpOption, StaticConfigV4, StaticConfigV6,
};
use embassy_net::driver::{LinkState, Timestamp, TxTimestamp};
use embassy_net::iface::{
    clear_manual_config, find_ipv4, find_ipv6, keeps_route, AddrOrigin, ClearStep,
    DhcpClientConfig, IfaceAddr, IfaceCommand, IfaceState, Route, RouteOrigin,
};
use embassy_net::stack::{
    new, next_wake, Inner, Instant, NextWake, PollEvent, PollStep, Stack, NEVER_MICROS,
};
use embassy_net::wire::{IpAddress, IpCidr, Ipv4Address, Ipv4Cidr, Ipv6Address, Ipv6Cidr};

struct Counter(AtomicUsize);

impl Wake for Counter {
    fn wake(self: Arc<Self>) {
        self.0.fetch_add(1, Ordering::SeqCst);
    }
}

fn counting_waker() -> (Arc<Counter>, Waker) {
    let counter = Arc::new(Counter(AtomicUsize::new(0)));
    (counter.clone(), Waker::from(counter))
}

fn wakes(counter: &Arc<Counter>) -> usize {
    counter.0.load(Ordering::SeqCst)
}

fn v4(last: u8) -> Ipv4Address {
    Ipv4Address { octets: [192, 168, 1, last] }
}

fn v6(last: u8) -> Ipv6Address {
    let mut octets = [0; 16];
    octets[0] = 0x20;
    octets[15] = last;
    Ipv6Address { octets }
}

fn cidr_v4(last: u8) -> Ipv4Cidr {
    Ipv4Cidr { address: v4(last), prefix_len: 24 }
}

fn cidr_v6(last: u8) -> Ipv6Cidr {
    Ipv6Cidr { address: v6(last), prefix_len: 64 }
}

fn addr_v4(last: u8, origin: AddrOrigin) -> IfaceAddr {
    IfaceAddr { cidr: IpCidr::Ipv4(cidr_v4(last)), origin }
}

fn addr_v6(last: u8, origin: AddrOrigin) -> IfaceAddr {
    IfaceAddr { cidr: IpCidr::Ipv6(cidr_v6(last)), origin }
}

fn static_v4() -> StaticConfigV4 {
    StaticConfigV4 {
        address: cidr_v4(10),
        gateway: Some(v4(1)),
        dns_servers: heapless::Vec::from_slice(&[v4(2), v4(3)]).unwrap(),
    }
}

fn static_v6() -> StaticConfigV6 {
    StaticConfigV6 {
        address: cidr_v6(10),
        gateway: Some(v6(1)),
        dns_servers: heapless::Vec::from_slice(&[v6(2), v6(3), v6(4)]).unwrap(),
    }
}

fn empty_iface() -> IfaceState {
    IfaceState {
        addrs: vec![],
        lease_dns_servers: None,
        default_ipv4_router: None,
        default_ipv6_router: None,
        config_generation: 0,
    }
}

/// What an interface without any configuration shows once the commands have
/// been carried out on it.
fn configured(commands: &[IfaceCommand]) -> IfaceState {
    let mut iface = empty_iface();
    for command in commands {
        iface.config_generation += 1;
        match command {
            IfaceCommand::AddIpAddr(cidr) => {
                iface.addrs.push(IfaceAddr { cidr: *cidr, origin: AddrOrigin::Manual })
            }
            IfaceCommand::AddDefaultRoute(IpAddress::Ipv4(router)) => {
                iface.default_ipv4_router = Some(IpAddress::Ipv4(*router))
            }
            IfaceCommand::AddDefaultRoute(IpAddress::Ipv6(router)) => {
                iface.default_ipv6_router = Some(IpAddress::Ipv6(*router))
            }
            _ => {}
        }
    }
    iface
}

fn timestamp(id: u32) -> TxTimestamp {
    TxTimestamp { id, timestamp: Timestamp { seconds: id, quarter_nanos: 4 * id } }
}

#[test]
fn a_static_configuration_is_reported_as_it_was_set() {
    let mut stack = Stack { inner: Inner::new() };
    let commands = stack.set_config_v4(ConfigV4::Static(static_v4()));
    assert_eq!(
        commands,
        vec![
            IfaceCommand::SetDhcpv4(None),
            IfaceCommand::ClearManual { v4: true },
            IfaceCommand::AddIpAddr(IpCidr::Ipv4(cidr_v4(10))),
            IfaceCommand::AddDefaultRoute(IpAddress::Ipv4(v4(1))),
        ]
    );
    let iface = configured(&commands);
    assert_eq!(stack.config_v4(&iface), Some(static_v4()));
    assert!(stack.is_config_up(&iface));
    assert_eq!(stack.config_v6(&iface), None);

    let commands = stack.set_config_v6(ConfigV6::Static(static_v6()));
    assert_eq!(
        commands,
        vec![
            IfaceCommand::SetSlaac(false),
            IfaceCommand::ClearManual { v4: false },
            IfaceCommand::AddIpAddr(IpCidr::Ipv6(cidr_v6(10))),
            IfaceCommand::AddDefaultRoute(IpAddress::Ipv6(v6(1))),
        ]
    );
    let iface = configured(&commands);
    assert_eq!(stack.config_v6(&iface), Some(static_v6()));
    assert!(stack.is_config_up(&iface));
}

#[test]
fn a_static_configuration_without_gateway_adds_no_route() {
    let mut inner = Inner::new();
    let mut config = static_v4();
    config.gateway = None;
    let commands = inner.set_config_v4(ConfigV4::Static(config));
    assert_eq!(commands.len(), 3);
    assert_eq!(inner.config_v4(&configured(&commands)).unwrap().gateway, None);
    let mut config = static_v6();
    config.gateway = None;
    assert_eq!(inner.set_config_v6(ConfigV6::Static(config)).len(), 3);
}

#[test]
fn an_unset_configuration_only_clears() {
    let mut inner = Inner::new();
    let commands = inner.set_config_v4(ConfigV4::Unset);
    assert_eq!(
        commands,
        vec![IfaceCommand::SetDhcpv4(None), IfaceCommand::ClearManual { v4: true }]
    );
    let commands = inner.set_config_v6(ConfigV6::Unset);
    assert_eq!(
        commands,
        vec![IfaceCommand::SetSlaac(false), IfaceCommand::ClearManual { v4: false }]
    );
}

#[test]
fn slaac_is_turned_off_before_it_is_turned_on() {
    let mut inner = Inner::new();
    let commands = inner.set_config_v6(ConfigV6::Slaac);
    assert_eq!(
        commands,
        vec![
            IfaceCommand::SetSlaac(false),
            IfaceCommand::ClearManual { v4: false },
            IfaceCommand::SetSlaac(true),
        ]
    );
}

#[test]
fn dhcp_sends_the_hostname() {
    let mut config = DhcpConfig::default();
    config.max_lease_duration = Some(embassy_time::Duration::from_ticks(77));
    config.ignore_naks = true;
    config.hostname = Some(heapless::String::try_from("probe").unwrap());
    let mut inner = Inner::new();
    let commands = inner.set_config_v4(ConfigV4::Dhcp(config));
    let mut data = [0; 32];
    data[..5].copy_from_slice(b"probe");
    assert_eq!(
        commands[2],
        IfaceCommand::SetDhcpv4(Some(DhcpClientConfig {
            max_lease_duration: Some(embassy_time::Duration::from_ticks(77)),
            ignore_naks: true,
            hostname: Some(DhcpOption { kind: 12, data, len: 5 }),
        }))
    );
    assert_eq!(commands.len(), 3);
}

#[test]
fn a_hostname_may_fill_its_buffer() {
    let name: heapless::String<32> =
        heapless::String::try_from("abcdefghijklmnopqrstuvwxyzABCDEF").unwrap();
    let option = DhcpOption::hostname(&name);
    assert_eq!(option.len, 32);
    assert_eq!(&option.data[..], name.as_bytes());
    let none = DhcpOption::hostname(&heapless::String::new());
    assert_eq!(none, DhcpOption { kind: 12, data: [0; 32], len: 0 });
}

#[test]
fn dhcp_is_up_once_it_has_an_address() {
    let mut stack = Stack { inner: Inner::new() };
    stack.set_config_v4(ConfigV4::Dhcp(DhcpConfig::default()));
    let mut iface = empty_iface();
    assert_eq!(stack.config_v4(&iface), None);
    assert!(!stack.is_config_up(&iface));

    iface.addrs.push(addr_v4(20, AddrOrigin::Dynamic));
    assert_eq!(stack.config_v4(&iface).unwrap().dns_servers.len(), 0);
    iface.lease_dns_servers = Some(vec![v4(2), v4(3), v4(4), v4(5)]);
    iface.default_ipv4_router = Some(IpAddress::Ipv4(v4(1)));
    assert_eq!(
        stack.config_v4(&iface),
        Some(StaticConfigV4 {
            address: cidr_v4(20),
            gateway: Some(v4(1)),
            dns_servers: heapless::Vec::from_slice(&[v4(2), v4(3), v4(4)]).unwrap(),
        })
    );
    assert!(stack.is_config_up(&iface));
}

#[test]
fn a_router_of_the_other_version_is_no_gateway() {
    let inner = Inner::new();
    let mut iface = empty_iface();
    iface.addrs.push(addr_v6(9, AddrOrigin::Dynamic));
    iface.addrs.push(addr_v4(9, AddrOrigin::Dynamic));
    iface.default_ipv4_router = Some(IpAddress::Ipv6(v6(1)));
    iface.default_ipv6_router = Some(IpAddress::Ipv4(v4(1)));
    let config = inner.config_v4(&iface).unwrap();
    assert_eq!(config.gateway, None);
    assert_eq!(config.dns_servers.len(), 0);
    let config = inner.config_v6(&iface).unwrap();
    assert_eq!(config.gateway, None);
    assert_eq!(config.dns_servers.len(), 0);
}

#[test]
fn the_link_local_address_is_not_reported() {
    let addrs = vec![
        addr_v6(1, AddrOrigin::LinkLocal),
        addr_v4(2, AddrOrigin::Manual),
        addr_v6(3, AddrOrigin::Dynamic),
        addr_v6(4, AddrOrigin::Manual),
        addr_v4(5, AddrOrigin::Manual),
    ];
    assert_eq!(find_ipv6(&addrs), Some(cidr_v6(3)));
    assert_eq!(find_ipv4(&addrs), Some(cidr_v4(2)));
    assert_eq!(find_ipv6(&addrs[..2].to_vec()), None);
    assert_eq!(find_ipv4(&addrs[..1].to_vec()), None);
    assert_eq!(find_ipv4(&vec![]), None);
}

#[test]
fn clearing_removes_exactly_the_manual_addresses() {
    let all = vec![
        addr_v6(1, AddrOrigin::LinkLocal),
        addr_v4(2, AddrOrigin::Manual),
        addr_v6(3, AddrOrigin::Manual),
        addr_v4(4, AddrOrigin::Dynamic),
        addr_v4(5, AddrOrigin::Manual),
    ];
    for (v4_only, left) in [
        (true, vec![all[0], all[2], all[3]]),
        (false, vec![all[0], all[1], all[3], all[4]]),
    ] {
        let mut addrs = all.clone();
        while let ClearStep::RemoveIpAddr(address) = clear_manual_config(&addrs, v4_only) {
            addrs.retain(|addr| addr.cidr.address() != address);
        }
        assert_eq!(addrs, left);
    }
    assert_eq!(
        clear_manual_config(&all, true),
        ClearStep::RemoveIpAddr(IpAddress::Ipv4(v4(2)))
    );
    assert_eq!(clear_manual_config(&vec![all[0], all[3]], true), ClearStep::RetainRoutes);
}

#[test]
fn clearing_keeps_the_other_routes() {
    let manual_v4 = Route { via_router: IpAddress::Ipv4(v4(1)), origin: RouteOrigin::Manual };
    let manual_v6 = Route { via_router: IpAddress::Ipv6(v6(1)), origin: RouteOrigin::Manual };
    let dynamic_v4 = Route { via_router: IpAddress::Ipv4(v4(1)), origin: RouteOrigin::Dynamic };
    assert!(!keeps_route(&manual_v4, true));
    assert!(keeps_route(&manual_v4, false));
    assert!(keeps_route(&manual_v6, true));
    assert!(!keeps_route(&manual_v6, false));
    assert!(keeps_route(&dynamic_v4, true));
    assert!(keeps_route(&dynamic_v4, false));
}

#[test]
fn a_new_stack_takes_over_its_configuration() {
    let (stack, commands) = new(Config::ipv4_static(static_v4()));
    assert_eq!(
        commands,
        vec![
            IfaceCommand::SetDhcpv4(None),
            IfaceCommand::ClearManual { v4: true },
            IfaceCommand::AddIpAddr(IpCidr::Ipv4(cidr_v4(10))),
            IfaceCommand::AddDefaultRoute(IpAddress::Ipv4(v4(1))),
            IfaceCommand::SetSlaac(false),
            IfaceCommand::ClearManual { v4: false },
        ]
    );
    assert!(!stack.is_link_up());
    assert_eq!(stack.config_v4(&configured(&commands)), Some(static_v4()));

    let (_, commands) = new(Config::ipv6_static(static_v6()));
    assert_eq!(commands[4], IfaceCommand::AddIpAddr(IpCidr::Ipv6(cidr_v6(10))));
    let (_, commands) = new(Config::dhcpv4(DhcpConfig::default()));
    assert!(matches!(commands[2], IfaceCommand::SetDhcpv4(Some(_))));
    let (_, commands) = new(Config::slaac());
    assert_eq!(commands[4], IfaceCommand::SetSlaac(true));
    let (_, commands) = new(Config::default());
    assert_eq!(commands.len(), 4);
}

#[test]
fn the_dns_client_gets_ipv4_servers_first() {
    let mut inner = Inner::new();
    let mut commands = inner.set_config_v4(ConfigV4::Static(static_v4()));
    commands.extend(inner.set_config_v6(ConfigV6::Static(static_v6())));
    let iface = configured(&commands);
    let all = [
        IpAddress::Ipv4(v4(2)),
        IpAddress::Ipv4(v4(3)),
        IpAddress::Ipv6(v6(2)),
        IpAddress::Ipv6(v6(3)),
        IpAddress::Ipv6(v6(4)),
    ];
    assert_eq!(&inner.config_changed(&iface, 10)[..], &all[..]);
    assert_eq!(&inner.config_changed(&iface, 5)[..], &all[..]);
    assert_eq!(&inner.config_changed(&iface, 3)[..], &all[..3]);
    assert_eq!(&inner.config_changed(&iface, 0)[..], &[]);
    assert_eq!(&inner.config_changed(&empty_iface(), 3)[..], &[]);
}

#[test]
fn setting_a_configuration_wakes_the_runner_and_the_waiters() {
    let mut stack = Stack { inner: Inner::new() };
    let (runner, runner_waker) = counting_waker();
    let (waiter, waiter_waker) = counting_waker();
    assert_eq!(stack.inner.poll(PollEvent::Start, &runner_waker), PollStep::ReadLink);
    assert!(!stack.wait_config_up(&empty_iface(), &waiter_waker));

    let commands = stack.set_config_v4(ConfigV4::Static(static_v4()));
    assert_eq!((wakes(&runner), wakes(&waiter)), (0, 0));
    let iface = configured(&commands);
    let servers = stack.finish_set_config(&iface, 1);
    assert_eq!(&servers[..], &[IpAddress::Ipv4(v4(2))]);
    assert_eq!((wakes(&runner), wakes(&waiter)), (1, 1));

    assert!(stack.wait_config_up(&iface, &waiter_waker));
    assert!(!stack.wait_config_down(&iface, &waiter_waker));
    stack.finish_set_config(&empty_iface(), 1);
    assert_eq!((wakes(&runner), wakes(&waiter)), (1, 2));
    assert!(stack.wait_config_down(&empty_iface(), &waiter_waker));
}

#[test]
fn a_link_change_wakes_the_waiters_and_restarts_dhcp() {
    let mut stack = Stack { inner: Inner::new() };
    let (waiter, waker) = counting_waker();
    let runner = Waker::noop();
    assert!(!stack.wait_link_up(&waker));
    assert!(stack.wait_link_down(&waker));
    assert_eq!(
        stack.inner.poll(PollEvent::Link(LinkState::Down), runner),
        PollStep::PollTxTimestamp
    );
    assert_eq!(wakes(&waiter), 0);
    assert_eq!(
        stack.inner.poll(PollEvent::Link(LinkState::Up), runner),
        PollStep::RestartDhcpv4
    );
    assert_eq!(wakes(&waiter), 1);
    assert!(stack.is_link_up());
    assert!(stack.wait_link_up(&waker));
    assert_eq!(
        stack.inner.poll(PollEvent::Dhcpv4Restarted, runner),
        PollStep::PollTxTimestamp
    );
    assert_eq!(
        stack.inner.poll(PollEvent::Link(LinkState::Up), runner),
        PollStep::PollTxTimestamp
    );
    assert!(!stack.wait_link_down(&waker));
    assert_eq!(
        stack.inner.poll(PollEvent::Link(LinkState::Down), runner),
        PollStep::RestartDhcpv4
    );
    assert_eq!(wakes(&waiter), 2);
    assert!(!stack.is_link_up());
}

#[test]
fn timestamps_arrive_in_order_and_stall_a_full_queue() {
    let mut stack = Stack { inner: Inner::new() };
    let (runner, runner_waker) = counting_waker();
    let (reader, reader_waker) = counting_waker();
    assert_eq!(stack.poll_tx_timestamps(&reader_waker), None);
    for id in 1..=4 {
        assert_eq!(
            stack.inner.poll(PollEvent::TxTimestamp(Some(timestamp(id))), &runner_waker),
            PollStep::PollTxTimestamp
        );
    }
    assert_eq!(wakes(&reader), 1);
    assert_eq!(
        stack.inner.poll(PollEvent::TxTimestamp(Some(timestamp(5))), &runner_waker),
        PollStep::Stalled
    );
    assert_eq!(
        stack.inner.poll(PollEvent::Link(LinkState::Down), &runner_waker),
        PollStep::Stalled
    );
    assert_eq!(wakes(&runner), 0);
    assert_eq!(stack.poll_tx_timestamps(&reader_waker), Some(timestamp(1)));
    assert_eq!(wakes(&runner), 1);
    assert_eq!(
        stack.inner.poll(PollEvent::Link(LinkState::Down), &runner_waker),
        PollStep::PollTxTimestamp
    );
    for id in 2..=5 {
        assert_eq!(stack.poll_tx_timestamps(&reader_waker), Some(timestamp(id)));
    }
    assert_eq!(stack.poll_tx_timestamps(&reader_waker), None);
    assert_eq!(wakes(&runner), 1);
    assert_eq!(
        stack.inner.poll(PollEvent::TxTimestamp(None), &runner_waker),
        PollStep::PollStack
    );
}

#[test]
fn a_changed_generation_is_looked_at_once() {
    let mut inner = Inner::new();
    let commands = inner.set_config_v4(ConfigV4::Static(static_v4()));
    let iface = configured(&commands);
    let polled = || PollEvent::Polled {
        now: Instant { micros: 10 },
        stack_deadline: Instant { micros: 30 },
        dns_deadline: Instant { micros: 20 },
        config_generation: 4,
    };
    let at = NextWake::At(Instant { micros: 20 });
    assert_eq!(iface.config_generation, 4);
    assert_eq!(inner.poll(polled(), Waker::noop()), PollStep::ReadConfig(at));
    let step = inner.poll(
        PollEvent::Config { iface, max_dns_servers: 6, next_wake: at },
        Waker::noop(),
    );
    assert_eq!(
        step,
        PollStep::UpdateDnsServers {
            servers: heapless::Vec::from_slice(&[
                IpAddress::Ipv4(v4(2)),
                IpAddress::Ipv4(v4(3)),
            ])
            .unwrap(),
            next_wake: at,
        }
    );
    assert_eq!(inner.poll(polled(), Waker::noop()), PollStep::Finish(at));
}

#[test]
fn the_next_poll_follows_the_earliest_deadline() {
    let at = |micros| Instant { micros };
    let never = at(NEVER_MICROS);
    assert_eq!(next_wake(at(10), at(10), never), NextWake::Now);
    assert_eq!(next_wake(at(10), never, at(9)), NextWake::Now);
    assert_eq!(next_wake(at(10), at(11), never), NextWake::At(at(11)));
    assert_eq!(next_wake(at(10), at(12), at(11)), NextWake::At(at(11)));
    assert_eq!(next_wake(at(10), never, never), NextWake::Idle);
    assert_eq!(next_wake(never, never, never), NextWake::Now);
    assert_eq!(NEVER_MICROS, i64::MAX);
}

#[test]
fn registering_another_task_wakes_the_one_before() {
    let mut stack = Stack { inner: Inner::new() };
    let (first, first_waker) = counting_waker();
    let (second, second_waker) = counting_waker();
    assert!(!stack.wait_link_up(&first_waker));
    assert!(!stack.wait_link_up(&second_waker));
    assert_eq!((wakes(&first), wakes(&second)), (1, 0));
}

#[test]
fn the_runner_is_woken_once() {
    let mut stack = Stack { inner: Inner::new() };
    let (runner, waker) = counting_waker();
    stack.wake_runner();
    stack.inner.poll(PollEvent::Start, &waker);
    stack.wake_runner();
    stack.wake_runner();
    assert_eq!(wakes(&runner), 1);
}

#[test]
fn a_lost_link_wakes_its_waiter_once() {
    let (mut stack, _) = new(Config::default());
    let (waiter, waker) = counting_waker();
    let runner = Waker::noop();
    stack.inner.poll(PollEvent::Start, runner);
    stack.inner.poll(PollEvent::Link(LinkState::Up), runner);
    assert!(!stack.wait_link_down(&waker));
    stack.inner.poll(PollEvent::Start, runner);
    stack.inner.poll(PollEvent::Link(LinkState::Down), runner);
    assert!(!stack.is_link_up());
    assert_eq!(wakes(&waiter), 1);
    assert!(stack.wait_link_down(&waker));
    stack.inner.poll(PollEvent::Link(LinkState::Up), runner);
    assert_eq!(wakes(&waiter), 1);
}

#[test]
fn a_task_that_waits_again_is_not_woken_by_itself() {
    let mut stack = Stack { inner: Inner::new() };
    let (waiter, waker) = counting_waker();
    assert!(!stack.wait_link_up(&waker));
    assert!(!stack.wait_link_up(&waker.clone()));
    assert_eq!(wakes(&waiter), 0);
    stack.inner.poll(PollEvent::Link(LinkState::Up), Waker::noop());
    assert_eq!(wakes(&waiter), 1);
}

#[test]
fn only_the_next_change_wakes_a_waiter() {
    let (mut stack, _) = new(Config::default());
    let (waiter, waker) = counting_waker();
    let runner = Waker::noop();
    let iface = empty_iface();
    assert!(!stack.wait_config_up(&iface, &waker));
    stack.wake_runner();
    stack.set_config_v4(ConfigV4::Unset);
    stack.inner.poll(PollEvent::Start, runner);
    stack.inner.poll(PollEvent::Link(LinkState::Down), runner);
    stack.inner.poll(PollEvent::TxTimestamp(Some(timestamp(1))), runner);
    assert_eq!(stack.poll_tx_timestamps(runner), Some(timestamp(1)));
    assert_eq!(wakes(&waiter), 0);
    stack.finish_set_config(&iface, 3);
    assert_eq!(wakes(&waiter), 1);
    stack.finish_set_config(&iface, 3);
    assert_eq!(wakes(&waiter), 1);
}

#[test]
fn waiting_for_a_timestamp_wakes_the_reader_before() {
    let mut stack = Stack { inner: Inner::new() };
    let (first, first_waker) = counting_waker();
    let (second, second_waker) = counting_waker();
    assert_eq!(stack.poll_tx_timestamps(&first_waker), None);
    assert_eq!(stack.poll_tx_timestamps(&second_waker), None);
    assert_eq!((wakes(&first), wakes(&second)), (1, 0));
    stack.inner.poll(PollEvent::TxTimestamp(Some(timestamp(1))), Waker::noop());
    assert_eq!((wakes(&first), wakes(&second)), (1, 1));
}
