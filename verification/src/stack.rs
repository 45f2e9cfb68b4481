//! The state of a network stack, and the decisions that it takes.
//!
//! The stack keeps what the user configured, what was last seen of the link
//! and of the interface, and the tasks that wait for any of it to change. It
//! does no work on the network itself: it is told what happened, and answers
//! with what is to be done next.
use vstd::prelude::*;

use core::task::Waker;

use crate::config::{
    Config, ConfigV4, ConfigV4View, ConfigV6, ConfigV6View, DhcpConfig, DhcpOption,
    StaticConfigV4, StaticConfigV4View, StaticConfigV6, StaticConfigV6View,
};
use crate::driver::{LinkState, TxTimestamp};
use crate::iface::{
    commands_view, commands_wf, find_ipv4, find_ipv6, first_ipv4, first_ipv6, DhcpClientConfig,
    IfaceCommand, IfaceCommandView, IfaceState,
};
use crate::lists::{
    ip_items, ip_new, ip_push, ip_truncate, ipv4_as_slice, ipv4_clone, ipv4_items, ipv4_new,
    ipv4_push, ipv6_as_slice, ipv6_clone, ipv6_new, MAX_CLIENT_DNS_SERVERS,
    MAX_DNS_SERVERS,
};
use crate::timestamps::{TimestampQueue, TIMESTAMP_CAPACITY};
use crate::waiting::{same_task, SlotView, WakerSlot};
use crate::wire::{IpAddress, IpCidr, Ipv4Address, Ipv6Address};

verus! {

/// A point in time, in microseconds of the clock that the stack is polled with.
#[derive(Clone, Copy, Debug, PartialEq, Eq, Structural)]
pub struct Instant {
    pub micros: i64,
}

/// The point in time that is never reached, in microseconds.
pub const NEVER_MICROS: i64 = 0x7fff_ffff_ffff_ffff;

/// When a poll of the stack has to be followed by the next one.
#[derive(Clone, Copy, Debug, PartialEq, Eq, Structural)]
pub enum NextWake {
    /// Right away.
    Now,
    /// At this time, or when something wakes the runner before it.
    At(Instant),
    /// When something wakes the runner.
    Idle,
}

/// What the runner has done, in the course of one poll.
#[derive(Debug, PartialEq, Eq)]
pub enum PollEvent {
    /// The executor polled the runner.
    Start,
    /// The waker was registered with the driver, and this is the link state
    /// that the driver reported.
    Link(LinkState),
    /// The DHCP client was restarted.
    Dhcpv4Restarted,
    /// The driver was asked for a transmit timestamp.
    TxTimestamp(Option<TxTimestamp>),
    /// The stack and the DNS client were polled at `now`, and returned their
    /// deadlines.
    Polled {
        now: Instant,
        stack_deadline: Instant,
        dns_deadline: Instant,
        config_generation: u32,
    },
    /// The configuration of the interface was read. The DNS client takes at
    /// most `max_dns_servers` servers.
    Config { iface: IfaceState, max_dns_servers: usize, next_wake: NextWake },
}

/// What the runner has to do next, in the course of one poll.
#[derive(Debug, PartialEq, Eq)]
pub enum PollStep {
    /// Register the waker with the driver and read the link state. Answer with
    /// `Link`.
    ReadLink,
    /// Restart the DHCP client. Answer with `Dhcpv4Restarted`.
    RestartDhcpv4,
    /// Ask the driver for a transmit timestamp. Answer with `TxTimestamp`.
    PollTxTimestamp,
    /// Poll the stack and the DNS client. Answer with `Polled`.
    PollStack,
    /// Read the configuration of the interface. Answer with `Config`.
    ReadConfig(NextWake),
    /// Hand the servers to the DNS client. The poll is then over.
    UpdateDnsServers {
        servers: heapless::Vec<IpAddress, MAX_CLIENT_DNS_SERVERS>,
        next_wake: NextWake,
    },
    /// The poll is over.
    Finish(NextWake),
    /// The poll is over before the stack was polled: no timestamp can be taken
    /// until the application has read one.
    Stalled,
}

/// What a step asks for.
pub ghost enum PollStepView {
    ReadLink,
    RestartDhcpv4,
    PollTxTimestamp,
    PollStack,
    ReadConfig(NextWake),
    UpdateDnsServers { servers: Seq<IpAddress>, next_wake: NextWake },
    Finish(NextWake),
    Stalled,
}

impl View for PollStep {
    type V = PollStepView;

    open spec fn view(&self) -> PollStepView {
        match self {
            PollStep::ReadLink => PollStepView::ReadLink,
            PollStep::RestartDhcpv4 => PollStepView::RestartDhcpv4,
            PollStep::PollTxTimestamp => PollStepView::PollTxTimestamp,
            PollStep::PollStack => PollStepView::PollStack,
            PollStep::ReadConfig(next_wake) => PollStepView::ReadConfig(*next_wake),
            PollStep::UpdateDnsServers { servers, next_wake } => PollStepView::UpdateDnsServers {
                servers: ip_items(*servers),
                next_wake: *next_wake,
            },
            PollStep::Finish(next_wake) => PollStepView::Finish(*next_wake),
            PollStep::Stalled => PollStepView::Stalled,
        }
    }
}

/// The state of a network stack.
pub struct Inner {
    /// Waker used for triggering polls.
    waker: WakerSlot,
    /// Waker used for waiting for link up or config up.
    state_waker: WakerSlot,
    /// Waker used for waiting for a free DNS query slot.
    dns_waker: WakerSlot,
    link_up: bool,
    /// The interface's configuration generation the last time we looked.
    config_generation: u32,
    config_v4: ConfigV4,
    config_v6: ConfigV6,
    timestamps: TimestampQueue,
}

/// What the state of a network stack says.
pub ghost struct InnerView {
    /// Where the runner waits for a reason to poll.
    pub runner_slot: SlotView,
    /// Where tasks wait for the link or the configuration to change.
    pub state_slot: SlotView,
    /// Where tasks wait for a free DNS query slot.
    pub dns_slot: SlotView,
    pub link_up: bool,
    pub config_generation: u32,
    pub config_v4: ConfigV4View,
    pub config_v6: ConfigV6View,
    /// The transmit timestamps that the application has not read, oldest first.
    pub timestamps: Seq<TxTimestamp>,
    /// Where the runner waits for room for a transmit timestamp.
    pub room_slot: SlotView,
    /// Where tasks wait for a transmit timestamp.
    pub timestamp_slot: SlotView,
}

impl View for Inner {
    type V = InnerView;

    closed spec fn view(&self) -> InnerView {
        InnerView {
            runner_slot: self.waker@,
            state_slot: self.state_waker@,
            dns_slot: self.dns_waker@,
            link_up: self.link_up,
            config_generation: self.config_generation,
            config_v4: self.config_v4@,
            config_v6: self.config_v6@,
            timestamps: self.timestamps@.queued,
            room_slot: self.timestamps@.room_slot,
            timestamp_slot: self.timestamps@.timestamp_slot,
        }
    }
}

/// The first `max` items, or all of them where there are no more.
pub open spec fn first_items<A>(items: Seq<A>, max: int) -> Seq<A> {
    if max <= items.len() {
        items.take(max)
    } else {
        items
    }
}

/// The IPv4 configuration in force on the interface, under the IPv4
/// configuration that the user asked for.
pub open spec fn reported_v4(config: ConfigV4View, iface: IfaceState) -> Option<
    StaticConfigV4View,
> {
    match first_ipv4(iface.addrs@) {
        None => None,
        Some(address) => Some(
            StaticConfigV4View {
                address,
                gateway: match iface.default_ipv4_router {
                    Some(IpAddress::Ipv4(gateway)) => Some(gateway),
                    _ => None,
                },
                dns_servers: match config {
                    ConfigV4View::Static(config) => config.dns_servers,
                    ConfigV4View::Dhcp(_) => match iface.lease_dns_servers {
                        Some(servers) => first_items(servers@, MAX_DNS_SERVERS as int),
                        None => Seq::empty(),
                    },
                    ConfigV4View::Unset => Seq::empty(),
                },
            },
        ),
    }
}

/// The IPv6 configuration in force on the interface, under the IPv6
/// configuration that the user asked for.
pub open spec fn reported_v6(config: ConfigV6View, iface: IfaceState) -> Option<
    StaticConfigV6View,
> {
    match first_ipv6(iface.addrs@) {
        None => None,
        Some(address) => Some(
            StaticConfigV6View {
                address,
                gateway: match iface.default_ipv6_router {
                    Some(IpAddress::Ipv6(gateway)) => Some(gateway),
                    _ => None,
                },
                dns_servers: match config {
                    ConfigV6View::Static(config) => config.dns_servers,
                    _ => Seq::empty(),
                },
            },
        ),
    }
}

/// The DNS servers of the configurations in force, IPv4 before IPv6.
pub open spec fn all_dns_servers(
    v4: Option<StaticConfigV4View>,
    v6: Option<StaticConfigV6View>,
) -> Seq<IpAddress> {
    let v4_servers = match v4 {
        Some(config) => config.dns_servers.map_values(|s: Ipv4Address| IpAddress::Ipv4(s)),
        None => Seq::empty(),
    };
    let v6_servers = match v6 {
        Some(config) => config.dns_servers.map_values(|s: Ipv6Address| IpAddress::Ipv6(s)),
        None => Seq::empty(),
    };
    v4_servers + v6_servers
}

/// What is done to the interface for an IPv4 configuration to come into force.
pub open spec fn config_v4_commands(config: ConfigV4View) -> Seq<IfaceCommandView> {
    let cleared = seq![
        IfaceCommandView::SetDhcpv4(None),
        IfaceCommandView::ClearManual { v4: true },
    ];
    match config {
        ConfigV4View::Unset => cleared,
        ConfigV4View::Static(config) => {
            let addressed = cleared.push(
                IfaceCommandView::AddIpAddr(IpCidr::Ipv4(config.address)),
            );
            match config.gateway {
                Some(gateway) => addressed.push(
                    IfaceCommandView::AddDefaultRoute(IpAddress::Ipv4(gateway)),
                ),
                None => addressed,
            }
        },
        ConfigV4View::Dhcp(config) => cleared.push(IfaceCommandView::SetDhcpv4(Some(config))),
    }
}

/// What is done to the interface for an IPv6 configuration to come into force.
pub open spec fn config_v6_commands(config: ConfigV6View) -> Seq<IfaceCommandView> {
    let cleared = seq![
        IfaceCommandView::SetSlaac(false),
        IfaceCommandView::ClearManual { v4: false },
    ];
    match config {
        ConfigV6View::Unset => cleared,
        ConfigV6View::Static(config) => {
            let addressed = cleared.push(
                IfaceCommandView::AddIpAddr(IpCidr::Ipv6(config.address)),
            );
            match config.gateway {
                Some(gateway) => addressed.push(
                    IfaceCommandView::AddDefaultRoute(IpAddress::Ipv6(gateway)),
                ),
                None => addressed,
            }
        },
        ConfigV6View::Slaac => cleared.push(IfaceCommandView::SetSlaac(true)),
    }
}

/// When the next poll is due, after one at `now` that returned these deadlines.
pub open spec fn next_wake_after(
    now: Instant,
    stack_deadline: Instant,
    dns_deadline: Instant,
) -> NextWake {
    let deadline = if dns_deadline.micros < stack_deadline.micros {
        dns_deadline
    } else {
        stack_deadline
    };
    if deadline.micros <= now.micros {
        NextWake::Now
    } else if deadline.micros != NEVER_MICROS {
        NextWake::At(deadline)
    } else {
        NextWake::Idle
    }
}

impl InnerView {
    /// The state of a stack that was not configured yet.
    pub open spec fn initial() -> Self {
        InnerView {
            runner_slot: SlotView::empty(),
            state_slot: SlotView::empty(),
            dns_slot: SlotView::empty(),
            link_up: false,
            config_generation: 0,
            config_v4: ConfigV4View::Unset,
            config_v6: ConfigV6View::Unset,
            timestamps: Seq::empty(),
            room_slot: SlotView::empty(),
            timestamp_slot: SlotView::empty(),
        }
    }

    /// The DNS servers of the configurations in force on the interface, as many
    /// as the DNS client takes.
    pub open spec fn client_servers(self, iface: IfaceState, max_dns_servers: int) -> Seq<
        IpAddress,
    > {
        first_items(
            all_dns_servers(
                reported_v4(self.config_v4, iface),
                reported_v6(self.config_v6, iface),
            ),
            max_dns_servers,
        )
    }

    /// A valid IP configuration is in force on the interface.
    pub open spec fn config_up(self, iface: IfaceState) -> bool {
        reported_v4(self.config_v4, iface) is Some || reported_v6(self.config_v6, iface) is Some
    }

    /// The state after the interface's configuration was looked at: whoever
    /// waits for it was woken.
    pub open spec fn after_config_change(self, config_generation: u32) -> Self {
        InnerView { config_generation, state_slot: self.state_slot.after_wake(), ..self }
    }

    /// The state after the runner was woken.
    pub open spec fn after_runner_wake(self) -> Self {
        InnerView { runner_slot: self.runner_slot.after_wake(), ..self }
    }

    /// The state after the interface was brought under a new configuration.
    pub open spec fn after_set_config(self, config_generation: u32) -> Self {
        self.after_config_change(config_generation).after_runner_wake()
    }

    /// The request to start a DNS query by the task of `waker` may lead to
    /// `after`. If it is pending, the task waits for a free slot.
    pub open spec fn dns_start_leads_to(self, pending: bool, waker: Waker, after: Self) -> bool {
        &&& if pending {
            self.dns_slot.registers(waker, after.dns_slot)
        } else {
            after.dns_slot == self.dns_slot
        }
        &&& after == InnerView { dns_slot: after.dns_slot, ..self.after_runner_wake() }
    }

    /// The state after a DNS query gave back its slot: whoever waits for one was
    /// woken, and so was the runner.
    pub open spec fn after_dns_slot_freed(self) -> Self {
        InnerView { dns_slot: self.dns_slot.after_wake(), ..self.after_runner_wake() }
    }

    /// The link state is not the one that was last seen.
    pub open spec fn link_changes(self, state: LinkState) -> bool {
        (state == LinkState::Up) != self.link_up
    }

    /// An event of a poll by the task of `waker` may lead to `after`.
    pub open spec fn poll_event_leads_to(
        self,
        event: PollEvent,
        waker: Waker,
        after: Self,
    ) -> bool {
        match event {
            PollEvent::Start => {
                &&& self.runner_slot.registers(waker, after.runner_slot)
                &&& after == InnerView { runner_slot: after.runner_slot, ..self }
            },
            PollEvent::Link(state) => if self.link_changes(state) {
                after == InnerView {
                    link_up: !self.link_up,
                    state_slot: self.state_slot.after_wake(),
                    ..self
                }
            } else {
                self.timestamp_check_leads_to(waker, after)
            },
            PollEvent::Dhcpv4Restarted => self.timestamp_check_leads_to(waker, after),
            PollEvent::TxTimestamp(Some(timestamp)) => self.after_timestamp(
                timestamp,
            ).timestamp_check_leads_to(waker, after),
            PollEvent::TxTimestamp(None) => after == self,
            PollEvent::Polled { .. } => after == self,
            PollEvent::Config { iface, .. } => after == self.after_config_change(
                iface.config_generation,
            ),
        }
    }

    /// Waiting for a condition, by the task of `waker`, may lead to `after`.
    pub open spec fn wait_leads_to(self, condition: bool, waker: Waker, after: Self) -> bool {
        if condition {
            after == self
        } else {
            &&& self.state_slot.registers(waker, after.state_slot)
            &&& after == InnerView { state_slot: after.state_slot, ..self }
        }
    }

    /// The state after a transmit timestamp was stored: whoever waits for one
    /// was woken.
    pub open spec fn after_timestamp(self, timestamp: TxTimestamp) -> Self {
        InnerView {
            timestamps: self.timestamps.push(timestamp),
            timestamp_slot: self.timestamp_slot.after_wake(),
            ..self
        }
    }

    /// Reading a transmit timestamp, by the task of `waker`, may lead to
    /// `after`. Where no room was left, whoever waits for it was woken.
    pub open spec fn timestamp_read_leads_to(self, waker: Waker, after: Self) -> bool {
        if self.timestamps.len() == 0 {
            &&& self.timestamp_slot.registers(waker, after.timestamp_slot)
            &&& after == InnerView { timestamp_slot: after.timestamp_slot, ..self }
        } else {
            after == InnerView {
                timestamps: self.timestamps.drop_first(),
                room_slot: if self.timestamps_full() {
                    self.room_slot.after_wake()
                } else {
                    self.room_slot
                },
                ..self
            }
        }
    }

    /// No room is left for a transmit timestamp.
    pub open spec fn timestamps_full(self) -> bool {
        self.timestamps.len() >= TIMESTAMP_CAPACITY
    }

    /// Looking whether a transmit timestamp can be taken, by the task of `waker`,
    /// may lead to `after`. If not, the task waits for room.
    pub open spec fn timestamp_check_leads_to(self, waker: Waker, after: Self) -> bool {
        if self.timestamps_full() {
            &&& self.room_slot.registers(waker, after.room_slot)
            &&& after == InnerView { room_slot: after.room_slot, ..self }
        } else {
            after == self
        }
    }

    /// What is to be done, depending on whether a transmit timestamp can be
    /// taken.
    pub open spec fn timestamp_step(self) -> PollStepView {
        if self.timestamps_full() {
            PollStepView::Stalled
        } else {
            PollStepView::PollTxTimestamp
        }
    }

    /// What is to be done after an event of a poll.
    pub open spec fn poll_step(self, event: PollEvent) -> PollStepView {
        match event {
            PollEvent::Start => PollStepView::ReadLink,
            PollEvent::Link(state) => if self.link_changes(state) {
                PollStepView::RestartDhcpv4
            } else {
                self.timestamp_step()
            },
            PollEvent::Dhcpv4Restarted => self.timestamp_step(),
            PollEvent::TxTimestamp(Some(timestamp)) => self.after_timestamp(
                timestamp,
            ).timestamp_step(),
            PollEvent::TxTimestamp(None) => PollStepView::PollStack,
            PollEvent::Polled { now, stack_deadline, dns_deadline, config_generation } => {
                let next_wake = next_wake_after(now, stack_deadline, dns_deadline);
                if config_generation != self.config_generation {
                    PollStepView::ReadConfig(next_wake)
                } else {
                    PollStepView::Finish(next_wake)
                }
            },
            PollEvent::Config { iface, max_dns_servers, next_wake } =>
                PollStepView::UpdateDnsServers {
                servers: self.client_servers(iface, max_dns_servers as int),
                next_wake,
            },
        }
    }
}

impl Inner {
    /// The state of a stack that was not configured yet.
    pub fn new() -> (inner: Self)
        ensures
            inner@ == InnerView::initial(),
    {
        Inner {
            waker: WakerSlot::new(),
            state_waker: WakerSlot::new(),
            dns_waker: WakerSlot::new(),
            link_up: false,
            config_generation: 0,
            config_v4: ConfigV4::Unset,
            config_v6: ConfigV6::Unset,
            timestamps: TimestampQueue::new(),
        }
    }

    /// The IPv4 configuration in force on the interface.
    pub fn config_v4(&self, iface: &IfaceState) -> (config: Option<StaticConfigV4>)
        ensures
            reported_v4(self@.config_v4, *iface) == match config {
                Some(config) => Some(config@),
                None => None,
            },
    {
        let address = match find_ipv4(&iface.addrs) {
            Some(address) => address,
            None => {
                return None;
            },
        };
        let dns_servers = match &self.config_v4 {
            ConfigV4::Static(config) => ipv4_clone(&config.dns_servers),
            ConfigV4::Dhcp(_) => match &iface.lease_dns_servers {
                Some(servers) => first_servers(servers),
                None => ipv4_new(),
            },
            ConfigV4::Unset => ipv4_new(),
        };
        let gateway = match iface.default_ipv4_router {
            Some(IpAddress::Ipv4(gateway)) => Some(gateway),
            _ => None,
        };
        Some(StaticConfigV4 { address, gateway, dns_servers })
    }

    /// The IPv6 configuration in force on the interface.
    pub fn config_v6(&self, iface: &IfaceState) -> (config: Option<StaticConfigV6>)
        ensures
            reported_v6(self@.config_v6, *iface) == match config {
                Some(config) => Some(config@),
                None => None,
            },
    {
        let address = match find_ipv6(&iface.addrs) {
            Some(address) => address,
            None => {
                return None;
            },
        };
        let dns_servers = match &self.config_v6 {
            ConfigV6::Static(config) => ipv6_clone(&config.dns_servers),
            _ => ipv6_new(),
        };
        let gateway = match iface.default_ipv6_router {
            Some(IpAddress::Ipv6(gateway)) => Some(gateway),
            _ => None,
        };
        Some(StaticConfigV6 { address, gateway, dns_servers })
    }

    /// Take over an IPv4 configuration. The result is what to do to the
    /// interface, in this order.
    pub fn set_config_v4(&mut self, config: ConfigV4) -> (commands: Vec<IfaceCommand>)
        ensures
            commands_view(commands@) == config_v4_commands(config@),
            commands_wf(commands@),
            final(self)@ == (InnerView { config_v4: config@, ..old(self)@ }),
    {
        let mut commands: Vec<IfaceCommand> = Vec::new();
        commands.push(IfaceCommand::SetDhcpv4(None));
        commands.push(IfaceCommand::ClearManual { v4: true });
        match &config {
            ConfigV4::Unset => {},
            ConfigV4::Static(c) => {
                commands.push(IfaceCommand::AddIpAddr(IpCidr::Ipv4(c.address)));
                if let Some(gateway) = c.gateway {
                    commands.push(IfaceCommand::AddDefaultRoute(IpAddress::Ipv4(gateway)));
                }
            },
            ConfigV4::Dhcp(c) => {
                let client = dhcp_client_config(c);
                commands.push(IfaceCommand::SetDhcpv4(Some(client)));
            },
        }
        assert(commands_view(commands@) =~= config_v4_commands(config@));
        self.config_v4 = config;
        commands
    }

    /// Take over an IPv6 configuration. The result is what to do to the
    /// interface, in this order.
    pub fn set_config_v6(&mut self, config: ConfigV6) -> (commands: Vec<IfaceCommand>)
        ensures
            commands_view(commands@) == config_v6_commands(config@),
            commands_wf(commands@),
            final(self)@ == (InnerView { config_v6: config@, ..old(self)@ }),
    {
        let mut commands: Vec<IfaceCommand> = Vec::new();
        commands.push(IfaceCommand::SetSlaac(false));
        commands.push(IfaceCommand::ClearManual { v4: false });
        match &config {
            ConfigV6::Unset => {},
            ConfigV6::Static(c) => {
                commands.push(IfaceCommand::AddIpAddr(IpCidr::Ipv6(c.address)));
                if let Some(gateway) = c.gateway {
                    commands.push(IfaceCommand::AddDefaultRoute(IpAddress::Ipv6(gateway)));
                }
            },
            ConfigV6::Slaac => {
                commands.push(IfaceCommand::SetSlaac(true));
            },
        }
        assert(commands_view(commands@) =~= config_v6_commands(config@));
        self.config_v6 = config;
        commands
    }

    /// React to a change in the interface's configuration: gather the DNS
    /// servers for the DNS client, which takes at most `max_dns_servers`, and
    /// wake whoever waits for the configuration.
    pub fn config_changed(&mut self, iface: &IfaceState, max_dns_servers: usize) -> (servers:
        heapless::Vec<IpAddress, MAX_CLIENT_DNS_SERVERS>)
        ensures
            ip_items(servers) == old(self)@.client_servers(*iface, max_dns_servers as int),
            final(self)@ == old(self)@.after_config_change(iface.config_generation),
    {
        self.config_generation = iface.config_generation;

        let mut servers = ip_new();
        let ghost v4 = reported_v4(self@.config_v4, *iface);
        let ghost v6 = reported_v6(self@.config_v6, *iface);

        if let Some(config) = self.config_v4(iface) {
            let items = ipv4_as_slice(&config.dns_servers);
            let mut i: usize = 0;
            while i < items.len()
                invariant
                    i <= items@.len() <= MAX_DNS_SERVERS,
                    ip_items(servers) == items@.take(i as int).map_values(
                        |s: Ipv4Address| IpAddress::Ipv4(s),
                    ),
                decreases items@.len() - i,
            {
                let _ = ip_push(&mut servers, IpAddress::Ipv4(items[i]));
                i = i + 1;
                assert(ip_items(servers) =~= items@.take(i as int).map_values(
                    |s: Ipv4Address| IpAddress::Ipv4(s),
                ));
            }
            assert(items@.take(i as int) =~= items@);
        }
        let ghost v4_servers = ip_items(servers);
        assert(v4_servers =~= all_dns_servers(v4, None));
        if let Some(config) = self.config_v6(iface) {
            let items = ipv6_as_slice(&config.dns_servers);
            let mut i: usize = 0;
            while i < items.len()
                invariant
                    i <= items@.len() <= MAX_DNS_SERVERS,
                    v4_servers.len() <= MAX_DNS_SERVERS,
                    ip_items(servers) == v4_servers + items@.take(i as int).map_values(
                        |s: Ipv6Address| IpAddress::Ipv6(s),
                    ),
                decreases items@.len() - i,
            {
                let _ = ip_push(&mut servers, IpAddress::Ipv6(items[i]));
                i = i + 1;
                assert(ip_items(servers) =~= v4_servers + items@.take(i as int).map_values(
                    |s: Ipv6Address| IpAddress::Ipv6(s),
                ));
            }
            assert(items@.take(i as int) =~= items@);
        }
        assert(ip_items(servers) =~= all_dns_servers(v4, v6));

        ip_truncate(&mut servers, max_dns_servers);
        self.state_waker.wake();
        servers
    }

    /// One step of a poll of the stack: take in what the runner has done, and
    /// say what it has to do next.
    ///
    /// A timestamp comes only when it was asked for, which is when there is
    /// room for it.
    pub fn poll(&mut self, event: PollEvent, waker: &Waker) -> (step: PollStep)
        requires
            event matches PollEvent::TxTimestamp(Some(_)) ==> !old(self)@.timestamps_full(),
        ensures
            step@ == old(self)@.poll_step(event),
            old(self)@.poll_event_leads_to(event, *waker, final(self)@),
    {
        match event {
            PollEvent::Start => {
                self.waker.register(waker);
                PollStep::ReadLink
            },
            PollEvent::Link(state) => {
                let old_link_up = self.link_up;
                self.link_up = state == LinkState::Up;
                if old_link_up != self.link_up {
                    self.state_waker.wake();
                    // Start over on link-state change, so a lease on the previous network is
                    // not kept, and a new one is obtained right away.
                    PollStep::RestartDhcpv4
                } else {
                    self.poll_timestamps(waker)
                }
            },
            PollEvent::Dhcpv4Restarted => self.poll_timestamps(waker),
            PollEvent::TxTimestamp(Some(timestamp)) => {
                let _ = self.timestamps.try_send(timestamp);
                self.poll_timestamps(waker)
            },
            PollEvent::TxTimestamp(None) => PollStep::PollStack,
            PollEvent::Polled { now, stack_deadline, dns_deadline, config_generation } => {
                let next_wake = next_wake(now, stack_deadline, dns_deadline);
                if config_generation != self.config_generation {
                    PollStep::ReadConfig(next_wake)
                } else {
                    PollStep::Finish(next_wake)
                }
            },
            PollEvent::Config { iface, max_dns_servers, next_wake } => {
                let servers = self.config_changed(&iface, max_dns_servers);
                PollStep::UpdateDnsServers { servers, next_wake }
            },
        }
    }

    /// Wake the runner, so that it processes what changed.
    pub(crate) fn wake_runner(&mut self)
        ensures
            final(self)@ == old(self)@.after_runner_wake(),
    {
        self.waker.wake();
    }

    /// Wait for a free DNS query slot.
    pub(crate) fn wait_dns_slot(&mut self, waker: &Waker)
        ensures
            old(self)@.dns_slot.registers(*waker, final(self)@.dns_slot),
            final(self)@ == (InnerView { dns_slot: final(self)@.dns_slot, ..old(self)@ }),
    {
        self.dns_waker.register(waker);
    }

    /// Wake whoever waits for a free DNS query slot.
    pub(crate) fn wake_dns_waiter(&mut self)
        ensures
            final(self)@ == (InnerView {
                dns_slot: old(self)@.dns_slot.after_wake(),
                ..old(self)@
            }),
    {
        self.dns_waker.wake();
    }

    /// Whether the awaited condition holds. If not, `waker` waits until the link
    /// or the configuration changes.
    fn wait(&mut self, condition: bool, waker: &Waker) -> (ready: bool)
        ensures
            ready == condition,
            old(self)@.wait_leads_to(condition, *waker, final(self)@),
    {
        if condition {
            true
        } else {
            self.state_waker.register(waker);
            false
        }
    }

    /// Ask for a transmit timestamp while there is room for one, else wait for
    /// room.
    fn poll_timestamps(&mut self, waker: &Waker) -> (step: PollStep)
        ensures
            step@ == old(self)@.timestamp_step(),
            old(self)@.timestamp_check_leads_to(*waker, final(self)@),
    {
        if self.timestamps.is_full() {
            let _ = self.timestamps.poll_ready_to_send(waker);
            PollStep::Stalled
        } else {
            PollStep::PollTxTimestamp
        }
    }
}

/// Network stack handle
pub struct Stack {
    pub inner: Inner,
}

impl View for Stack {
    type V = InnerView;

    open spec fn view(&self) -> InnerView {
        self.inner@
    }
}

/// Create a new network stack.
///
/// The commands bring the interface under the configuration, in this order.
/// Once they are carried out, [`Inner::config_changed`] looks at the interface.
pub fn new(config: Config) -> (created: (Stack, Vec<IfaceCommand>))
    ensures
        created.0@ == (InnerView {
            config_v4: config.ipv4@,
            config_v6: config.ipv6@,
            ..InnerView::initial()
        }),
        commands_view(created.1@) == config_v4_commands(config.ipv4@) + config_v6_commands(
            config.ipv6@,
        ),
        commands_wf(created.1@),
{
    let mut inner = Inner::new();
    let mut commands = inner.set_config_v4(config.ipv4);
    let ghost first = commands@;
    let mut rest = inner.set_config_v6(config.ipv6);
    let ghost second = rest@;
    commands.append(&mut rest);
    assert(commands_view(commands@) =~= commands_view(first) + commands_view(second));
    assert forall|i: int| 0 <= i < commands@.len() implies (#[trigger] commands@[i]).wf() by {
        if i < first.len() {
            assert(first[i].wf());
        } else {
            assert(second[i - first.len()].wf());
        }
    }
    (Stack { inner }, commands)
}

impl Stack {
    /// Check whether the link is up.
    pub fn is_link_up(&self) -> (up: bool)
        ensures
            up == self@.link_up,
    {
        self.inner.link_up
    }

    /// Check whether the network stack has a valid IP configuration.
    /// This is true if the network stack has a static IP configuration or if DHCP has completed
    pub fn is_config_up(&self, iface: &IfaceState) -> (up: bool)
        ensures
            up == self@.config_up(*iface),
    {
        let v4_up = self.config_v4(iface).is_some();
        let v6_up = self.config_v6(iface).is_some();
        v4_up || v6_up
    }

    /// Get the current IPv4 configuration.
    ///
    /// If using DHCP, this will be None if DHCP hasn't been able to
    /// acquire an IP address, or Some if it has.
    pub fn config_v4(&self, iface: &IfaceState) -> (config: Option<StaticConfigV4>)
        ensures
            reported_v4(self@.config_v4, *iface) == match config {
                Some(config) => Some(config@),
                None => None,
            },
    {
        self.inner.config_v4(iface)
    }

    /// Get the current IPv6 configuration.
    pub fn config_v6(&self, iface: &IfaceState) -> (config: Option<StaticConfigV6>)
        ensures
            reported_v6(self@.config_v6, *iface) == match config {
                Some(config) => Some(config@),
                None => None,
            },
    {
        self.inner.config_v6(iface)
    }

    /// Set the IPv4 configuration.
    ///
    /// The result is what to do to the interface, in this order. Then comes
    /// [`finish_set_config`](Self::finish_set_config).
    pub fn set_config_v4(&mut self, config: ConfigV4) -> (commands: Vec<IfaceCommand>)
        ensures
            commands_view(commands@) == config_v4_commands(config@),
            commands_wf(commands@),
            final(self)@ == (InnerView { config_v4: config@, ..old(self)@ }),
    {
        self.inner.set_config_v4(config)
    }

    /// Set the IPv6 configuration.
    ///
    /// The result is what to do to the interface, in this order. Then comes
    /// [`finish_set_config`](Self::finish_set_config).
    pub fn set_config_v6(&mut self, config: ConfigV6) -> (commands: Vec<IfaceCommand>)
        ensures
            commands_view(commands@) == config_v6_commands(config@),
            commands_wf(commands@),
            final(self)@ == (InnerView { config_v6: config@, ..old(self)@ }),
    {
        self.inner.set_config_v6(config)
    }

    /// Look at the interface after it was brought under a new configuration, and
    /// wake the runner. The result is what to hand to the DNS client.
    pub fn finish_set_config(&mut self, iface: &IfaceState, max_dns_servers: usize) -> (servers:
        heapless::Vec<IpAddress, MAX_CLIENT_DNS_SERVERS>)
        ensures
            ip_items(servers) == old(self)@.client_servers(*iface, max_dns_servers as int),
            final(self)@ == old(self)@.after_set_config(iface.config_generation),
    {
        let servers = self.inner.config_changed(iface, max_dns_servers);
        self.inner.wake_runner();
        servers
    }

    /// Wait for the network device to obtain a link signal. Until it has, the
    /// result is `false`, and `waker` waits for it.
    pub fn wait_link_up(&mut self, waker: &Waker) -> (ready: bool)
        ensures
            ready == old(self)@.link_up,
            old(self)@.wait_leads_to(ready, *waker, final(self)@),
    {
        let condition = self.is_link_up();
        self.inner.wait(condition, waker)
    }

    /// Wait for the network device to lose link signal. Until it has, the result
    /// is `false`, and `waker` waits for it.
    pub fn wait_link_down(&mut self, waker: &Waker) -> (ready: bool)
        ensures
            ready == !old(self)@.link_up,
            old(self)@.wait_leads_to(ready, *waker, final(self)@),
    {
        let condition = !self.is_link_up();
        self.inner.wait(condition, waker)
    }

    /// Wait for the network stack to obtain a valid IP configuration. Until it
    /// has, the result is `false`, and `waker` waits for it.
    ///
    /// This may never come (e.g. if no configuration is obtained through DHCP).
    /// The caller is supposed to handle a timeout for this case.
    pub fn wait_config_up(&mut self, iface: &IfaceState, waker: &Waker) -> (ready: bool)
        ensures
            ready == old(self)@.config_up(*iface),
            old(self)@.wait_leads_to(ready, *waker, final(self)@),
    {
        let condition = self.is_config_up(iface);
        self.inner.wait(condition, waker)
    }

    /// Wait for the network stack to lose a valid IP configuration. Until it
    /// has, the result is `false`, and `waker` waits for it.
    pub fn wait_config_down(&mut self, iface: &IfaceState, waker: &Waker) -> (ready: bool)
        ensures
            ready == !old(self)@.config_up(*iface),
            old(self)@.wait_leads_to(ready, *waker, final(self)@),
    {
        let condition = !self.is_config_up(iface);
        self.inner.wait(condition, waker)
    }

    /// Wake the runner, so that it processes what changed.
    pub fn wake_runner(&mut self)
        ensures
            final(self)@ == old(self)@.after_runner_wake(),
    {
        self.inner.wake_runner();
    }

    /// Poll tx timestamps: the oldest one that was not read yet, or, where there
    /// is none, `waker` waits for one.
    pub fn poll_tx_timestamps(&mut self, waker: &Waker) -> (timestamp: Option<TxTimestamp>)
        ensures
            timestamp == if old(self)@.timestamps.len() > 0 {
                Some(old(self)@.timestamps.first())
            } else {
                None
            },
            old(self)@.timestamp_read_leads_to(*waker, final(self)@),
    {
        self.inner.timestamps.poll_receive(waker)
    }
}

/// The first DNS servers of a lease, as many as a configuration keeps.
fn first_servers(servers: &Vec<Ipv4Address>) -> (list: heapless::Vec<Ipv4Address, MAX_DNS_SERVERS>)
    ensures
        ipv4_items(list) == first_items(servers@, MAX_DNS_SERVERS as int),
{
    let mut list = ipv4_new();
    let mut i: usize = 0;
    while i < servers.len() && i < MAX_DNS_SERVERS
        invariant
            i <= servers@.len(),
            i <= MAX_DNS_SERVERS,
            ipv4_items(list) == servers@.take(i as int),
        decreases servers@.len() - i,
    {
        let _ = ipv4_push(&mut list, servers[i]);
        i = i + 1;
        assert(ipv4_items(list) =~= servers@.take(i as int));
    }
    assert(servers@.take(i as int) =~= first_items(servers@, MAX_DNS_SERVERS as int));
    list
}

/// The DHCP client that a DHCP configuration asks for.
fn dhcp_client_config(config: &DhcpConfig) -> (client: DhcpClientConfig)
    ensures
        client.wf(),
        client@ == config@,
{
    DhcpClientConfig {
        max_lease_duration: config.max_lease_duration,
        ignore_naks: config.ignore_naks,
        hostname: match &config.hostname {
            Some(name) => Some(DhcpOption::hostname(name)),
            None => None,
        },
    }
}

/// When the next poll is due, after one at `now` that returned these deadlines.
pub fn next_wake(now: Instant, stack_deadline: Instant, dns_deadline: Instant) -> (wake: NextWake)
    ensures
        wake == next_wake_after(now, stack_deadline, dns_deadline),
{
    let deadline = if dns_deadline.micros < stack_deadline.micros {
        dns_deadline
    } else {
        stack_deadline
    };
    if deadline.micros <= now.micros {
        NextWake::Now
    } else if deadline.micros != NEVER_MICROS {
        NextWake::At(deadline)
    } else {
        NextWake::Idle
    }
}

/// The event tells of what the step asked for.
pub open spec fn answers(step: PollStepView, event: PollEvent) -> bool {
    match event {
        PollEvent::Start => false,
        PollEvent::Link(_) => step is ReadLink,
        PollEvent::Dhcpv4Restarted => step is RestartDhcpv4,
        PollEvent::TxTimestamp(_) => step is PollTxTimestamp,
        PollEvent::Polled { .. } => step is PollStack,
        PollEvent::Config { next_wake, .. } => step == PollStepView::ReadConfig(next_wake),
    }
}

/// How many more steps a poll can take, at most, that is about to do this one.
pub open spec fn steps_left(view: InnerView, step: PollStepView) -> int {
    match step {
        PollStepView::ReadLink => TIMESTAMP_CAPACITY + 5,
        PollStepView::RestartDhcpv4 => TIMESTAMP_CAPACITY + 4,
        PollStepView::PollTxTimestamp => TIMESTAMP_CAPACITY - view.timestamps.len() + 3,
        PollStepView::PollStack => 2,
        PollStepView::ReadConfig(_) => 1,
        PollStepView::UpdateDnsServers { .. } => 0,
        PollStepView::Finish(_) => 0,
        PollStepView::Stalled => 0,
    }
}

/// A poll ends: each answer to a step brings it closer to its end. A timestamp
/// is asked for only while there is room for one.
pub proof fn law_poll_ends(
    view: InnerView,
    step: PollStepView,
    event: PollEvent,
    waker: Waker,
    after: InnerView,
)
    requires
        step is PollTxTimestamp ==> !view.timestamps_full(),
        answers(step, event),
        view.poll_event_leads_to(event, waker, after),
    ensures
        0 <= steps_left(after, view.poll_step(event)) < steps_left(view, step),
        view.poll_step(event) is PollTxTimestamp ==> !after.timestamps_full(),
{
}

/// A task that waits for the link is woken, once, by the poll that finds the
/// link changed. The DHCP client is then restarted.
pub proof fn law_link_change_wakes_waiters(
    view: InnerView,
    state: LinkState,
    waker: Waker,
    waiter: Waker,
    after: InnerView,
)
    requires
        view.link_changes(state),
        view.state_slot.waiter == Some(waiter),
        view.poll_event_leads_to(PollEvent::Link(state), waker, after),
    ensures
        after.state_slot.woken == view.state_slot.woken.push(waiter),
        after.state_slot.waiter is None,
        after.link_up == !view.link_up,
        view.poll_step(PollEvent::Link(state)) is RestartDhcpv4,
{
}

/// A poll that finds the interface's configuration changed looks at it, and
/// then wakes, once, a task that waits for the configuration. After that the
/// change has been seen.
pub proof fn law_config_change_wakes_waiters(
    view: InnerView,
    polled: PollEvent,
    read: InnerView,
    config: PollEvent,
    waker: Waker,
    waiter: Waker,
    seen: InnerView,
)
    requires
        polled is Polled,
        config is Config,
        config->Config_iface.config_generation == polled->Polled_config_generation,
        polled->Polled_config_generation != view.config_generation,
        view.state_slot.waiter == Some(waiter),
        view.poll_event_leads_to(polled, waker, read),
        read.poll_event_leads_to(config, waker, seen),
    ensures
        view.poll_step(polled) is ReadConfig,
        seen.state_slot.woken == view.state_slot.woken.push(waiter),
        seen.state_slot.waiter is None,
        seen.poll_step(polled) is Finish,
{
}

/// The next poll is due as soon as a deadline has passed, and no later than
/// the earliest deadline. There is none to wait for only where there is no
/// deadline.
pub proof fn law_next_poll_is_timely(
    now: Instant,
    stack_deadline: Instant,
    dns_deadline: Instant,
)
    ensures
        match next_wake_after(now, stack_deadline, dns_deadline) {
            NextWake::Now => stack_deadline.micros <= now.micros || dns_deadline.micros
                <= now.micros,
            NextWake::At(at) => {
                &&& now.micros < at.micros <= stack_deadline.micros
                &&& at.micros <= dns_deadline.micros
                &&& at == stack_deadline || at == dns_deadline
            },
            NextWake::Idle => stack_deadline.micros == NEVER_MICROS && dns_deadline.micros
                == NEVER_MICROS,
        },
{
}

/// What can happen to the state of a stack.
pub ghost enum StackMove {
    /// The user set an IPv4 configuration.
    SetConfigV4(ConfigV4View),
    /// The user set an IPv6 configuration.
    SetConfigV6(ConfigV6View),
    /// The interface was looked at, and has this configuration generation.
    ConfigChanged(u32),
    /// The interface was brought under a new configuration, and has this
    /// configuration generation.
    FinishSetConfig(u32),
    /// An event of a poll by the task of this waker.
    Poll(PollEvent, Waker),
    /// The task of the waker waited for a condition.
    Wait { condition: bool, waker: Waker },
    /// The runner was woken.
    WakeRunner,
    /// The task of this waker tried to read a transmit timestamp.
    ReadTimestamp(Waker),
    /// The DNS client was asked to start a query by the task of the waker.
    StartDnsQuery { pending: bool, waker: Waker },
    /// A DNS query gave back its slot.
    FreeDnsSlot,
}

impl StackMove {
    /// A task begins to wait for the link or the configuration.
    pub open spec fn is_new_wait(self) -> bool {
        self matches StackMove::Wait { condition, .. } && !condition
    }
}

impl InnerView {
    /// The move may lead to `after`.
    pub open spec fn leads_to(self, step: StackMove, after: Self) -> bool {
        match step {
            StackMove::SetConfigV4(config) => after == InnerView { config_v4: config, ..self },
            StackMove::SetConfigV6(config) => after == InnerView { config_v6: config, ..self },
            StackMove::ConfigChanged(generation) => after == self.after_config_change(generation),
            StackMove::FinishSetConfig(generation) => after == self.after_set_config(generation),
            StackMove::Poll(event, waker) => self.poll_event_leads_to(event, waker, after),
            StackMove::Wait { condition, waker } => self.wait_leads_to(condition, waker, after),
            StackMove::WakeRunner => after == self.after_runner_wake(),
            StackMove::ReadTimestamp(waker) => self.timestamp_read_leads_to(waker, after),
            StackMove::StartDnsQuery { pending, waker } => self.dns_start_leads_to(
                pending,
                waker,
                after,
            ),
            StackMove::FreeDnsSlot => after == self.after_dns_slot_freed(),
        }
    }

    /// The move changes the link, or finds the configuration changed.
    pub open spec fn is_change(self, step: StackMove) -> bool {
        match step {
            StackMove::ConfigChanged(_) => true,
            StackMove::FinishSetConfig(_) => true,
            StackMove::Poll(PollEvent::Link(state), _) => self.link_changes(state),
            StackMove::Poll(PollEvent::Config { .. }, _) => true,
            _ => false,
        }
    }
}

/// The moves may lead through the states, first to last.
pub open spec fn lead_through(states: Seq<InnerView>, moves: Seq<StackMove>) -> bool {
    &&& states.len() == moves.len() + 1
    &&& forall|i: int|
        #![trigger moves[i]]
        0 <= i < moves.len() ==> states[i].leads_to(moves[i], states[i + 1])
}

/// A task that waits for the link or the configuration is woken by the next
/// change, once, and not before. What else happens to the stack meanwhile does
/// not matter, unless another task begins to wait in its place.
pub proof fn law_next_change_wakes_the_waiter(
    states: Seq<InnerView>,
    moves: Seq<StackMove>,
    waiter: Waker,
)
    requires
        moves.len() > 0,
        lead_through(states, moves),
        states.first().state_slot.waiter == Some(waiter),
        forall|i: int|
            0 <= i < moves.len() - 1 ==> !states[i].is_change(#[trigger] moves[i])
                && !moves[i].is_new_wait(),
        states[moves.len() - 1].is_change(moves.last()),
    ensures
        forall|i: int|
            0 <= i < moves.len() ==> (#[trigger] states[i]).state_slot
                == states.first().state_slot,
        states.last().state_slot == states.first().state_slot.after_wake(),
        states.last().state_slot.woken == states.first().state_slot.woken.push(waiter),
{
    lemma_waiter_stays(states, moves, moves.len() - 1);
    let last = moves.len() - 1;
    assert(states[last].leads_to(moves[last], states[last + 1]));
}

/// Nobody who waits for the link or the configuration is disturbed before the
/// change.
proof fn lemma_waiter_stays(states: Seq<InnerView>, moves: Seq<StackMove>, count: int)
    requires
        lead_through(states, moves),
        0 <= count <= moves.len(),
        forall|i: int|
            0 <= i < count ==> !states[i].is_change(#[trigger] moves[i])
                && !moves[i].is_new_wait(),
    ensures
        forall|i: int|
            0 <= i <= count ==> (#[trigger] states[i]).state_slot == states.first().state_slot,
    decreases count,
{
    if count > 0 {
        lemma_waiter_stays(states, moves, count - 1);
        assert(states[count - 1].leads_to(moves[count - 1], states[count]));
    }
}

/// A task that waits for the link or the configuration is woken when a task
/// other than itself begins to wait in its place, so that it can wait again.
pub proof fn law_displaced_state_waiter_is_woken(
    view: InnerView,
    displaced: Waker,
    waker: Waker,
    after: InnerView,
)
    requires
        view.state_slot.waiter == Some(displaced),
        !same_task(displaced, waker),
        view.wait_leads_to(false, waker, after),
    ensures
        after.state_slot.woken == view.state_slot.woken.push(displaced),
        after.state_slot.waiter == Some(waker),
{
}

/// No slot forgets whom it woke, and nobody leaves a slot unwoken: whatever
/// happens to the stack, whoever waited in one of its slots still does, was
/// woken, or was replaced by a waker of the same task.
pub proof fn law_no_waiter_is_lost(view: InnerView, step: StackMove, after: InnerView)
    requires
        view.leads_to(step, after),
    ensures
        keeps_waiter(view.runner_slot, after.runner_slot),
        keeps_waiter(view.state_slot, after.state_slot),
        keeps_waiter(view.dns_slot, after.dns_slot),
        keeps_waiter(view.room_slot, after.room_slot),
        keeps_waiter(view.timestamp_slot, after.timestamp_slot),
{
}

/// Whoever waited still does, was woken, or was replaced by a waker of the same
/// task. Nobody else was woken.
pub open spec fn keeps_waiter(before: SlotView, after: SlotView) -> bool {
    match before.waiter {
        Some(waiter) => {
            ||| after == before
            ||| after.woken == before.woken.push(waiter)
            ||| after.woken == before.woken && after.waiter is Some && same_task(
                waiter,
                after.waiter->0,
            )
        },
        None => after.woken == before.woken,
    }
}

/// The timestamps that the application read in the course of the moves.
pub open spec fn read_by(states: Seq<InnerView>, moves: Seq<StackMove>) -> Seq<TxTimestamp>
    decreases moves.len(),
{
    if moves.len() == 0 {
        Seq::empty()
    } else {
        let before = states[moves.len() - 1];
        if moves.last() is ReadTimestamp && before.timestamps.len() > 0 {
            read_by(states, moves.drop_last()).push(before.timestamps.first())
        } else {
            read_by(states, moves.drop_last())
        }
    }
}

/// The timestamps that the moves stored.
pub open spec fn stored_by(moves: Seq<StackMove>) -> Seq<TxTimestamp>
    decreases moves.len(),
{
    if moves.len() == 0 {
        Seq::empty()
    } else {
        match moves.last() {
            StackMove::Poll(PollEvent::TxTimestamp(Some(timestamp)), _) => stored_by(
                moves.drop_last(),
            ).push(timestamp),
            _ => stored_by(moves.drop_last()),
        }
    }
}

/// No transmit timestamp is lost, repeated or overtaken: what the application
/// has read, followed by what is still queued, is what was stored, in order.
pub proof fn law_timestamps_arrive_in_order(states: Seq<InnerView>, moves: Seq<StackMove>)
    requires
        lead_through(states, moves),
    ensures
        read_by(states, moves) + states.last().timestamps == states.first().timestamps + stored_by(
            moves,
        ),
{
    lemma_timestamps_in_order(states, moves, moves.len() as int);
    assert(moves.take(moves.len() as int) =~= moves);
}

proof fn lemma_timestamps_in_order(states: Seq<InnerView>, moves: Seq<StackMove>, count: int)
    requires
        lead_through(states, moves),
        0 <= count <= moves.len(),
    ensures
        read_by(states, moves.take(count)) + states[count].timestamps == states.first().timestamps
            + stored_by(moves.take(count)),
    decreases count,
{
    let now = moves.take(count);
    let first = states.first().timestamps;
    if count == 0 {
        assert(read_by(states, now) + states[0].timestamps =~= first + stored_by(now));
    } else {
        let earlier = moves.take(count - 1);
        lemma_timestamps_in_order(states, moves, count - 1);
        assert(now.drop_last() =~= earlier);
        let before = states[count - 1];
        let after = states[count];
        assert(before.leads_to(moves[count - 1], after));
        let read = read_by(states, earlier);
        match now.last() {
            StackMove::Poll(PollEvent::TxTimestamp(Some(timestamp)), _) => {
                assert(after.timestamps == before.timestamps.push(timestamp));
                assert(read + before.timestamps.push(timestamp) =~= (read
                    + before.timestamps).push(timestamp));
                assert((first + stored_by(earlier)).push(timestamp) =~= first + stored_by(now));
            },
            StackMove::ReadTimestamp(_) => {
                if before.timestamps.len() > 0 {
                    assert(read.push(before.timestamps.first()) + before.timestamps.drop_first()
                        =~= read + before.timestamps);
                }
            },
            _ => {
                assert(after.timestamps == before.timestamps);
            },
        }
    }
}

/// A poll takes timestamps only while there is room, so they never exceed the
/// capacity. Whoever waits for one is woken. When the poll took the last one
/// that fits, it stalls and waits for room. Reading one then wakes it, once, and
/// there is room again.
pub proof fn law_full_queue_stalls_until_read(
    view: InnerView,
    timestamp: TxTimestamp,
    runner: Waker,
    stored: InnerView,
    reader: Waker,
    read: InnerView,
)
    requires
        !view.timestamps_full(),
        view.poll_event_leads_to(PollEvent::TxTimestamp(Some(timestamp)), runner, stored),
        stored.timestamp_read_leads_to(reader, read),
    ensures
        ({
            let step = view.poll_step(PollEvent::TxTimestamp(Some(timestamp)));
            &&& stored.timestamps.len() <= TIMESTAMP_CAPACITY
            &&& stored.timestamp_slot == view.timestamp_slot.after_wake()
            &&& step is Stalled <==> stored.timestamps.len() == TIMESTAMP_CAPACITY
            &&& step is Stalled ==> stored.room_slot.waiter == Some(runner)
            &&& step is Stalled ==> read.room_slot.waiter is None && read.room_slot.woken
                == stored.room_slot.woken.push(runner) && !read.timestamps_full()
            &&& step is PollTxTimestamp ==> !stored.timestamps_full()
        }),
{
}

} // verus!
