//! What the calls of a network stack do, stated of their inputs and results.
//!
//! Each law takes what a call started from, what it returned and what it left
//! behind. Some relate the results of several calls, or of all calls of a poll.
use vstd::prelude::*;

use core::task::Waker;

use crate::config::{
    Config, ConfigV4, ConfigV4View, ConfigV6, ConfigV6View, DhcpConfig, DhcpOption, StaticConfigV4,
    StaticConfigV6,
};
use crate::dns::{
    literal_answer, DnsProgress, DnsQuery, DnsQueryType, DnsStart, GetQueryResultError,
    StartQueryError,
};
use crate::driver::TxTimestamp;
use crate::iface::{
    clear_manual_config, commands_view, commands_wf, find_ipv4, find_ipv6, first_ipv4, first_ipv6,
    first_manual, keeps_route, AddrOrigin, ClearStep, IfaceAddr, IfaceCommand, IfaceState, Route,
};
use crate::lists::{
    hostname_bytes, ip_items, ipv4_items, ipv6_items, MAX_CLIENT_DNS_SERVERS, MAX_HOSTNAME_LEN,
};
use crate::stack;
use crate::stack::{next_wake, Inner, InnerView, Instant, NextWake, PollEvent, PollStep, Stack};
use crate::waiting::SlotView;
use crate::wire::{IpAddress, IpCidr, Ipv4Address, Ipv4Cidr, Ipv6Address, Ipv6Cidr};

verus! {

/// Whoever waited in the slot was woken, and nobody else.
pub open spec fn woke(before: SlotView, after: SlotView) -> bool {
    &&& after.waiter is None
    &&& before.waiter is None ==> after.woken == before.woken
    &&& before.waiter is Some ==> after.woken == before.woken.push(before.waiter->0)
}

/// The wake comes right away exactly where a deadline has passed, at no time
/// exactly where none lies ahead, and else at the earliest deadline.
pub open spec fn is_due(
    now: Instant,
    stack_deadline: Instant,
    dns_deadline: Instant,
    wake: NextWake,
) -> bool {
    &&& wake is Now <==> stack_deadline.micros <= now.micros || dns_deadline.micros <= now.micros
    &&& wake is Idle <==> now.micros < i64::MAX && stack_deadline.micros == i64::MAX
        && dns_deadline.micros == i64::MAX
    &&& wake matches NextWake::At(at) ==> {
        &&& at == stack_deadline || at == dns_deadline
        &&& now.micros < at.micros <= stack_deadline.micros
        &&& at.micros <= dns_deadline.micros
    }
}

/// The next poll is due at the earliest deadline.
pub proof fn law_next_wake_is_due(
    now: Instant,
    stack_deadline: Instant,
    dns_deadline: Instant,
    wake: NextWake,
)
    requires
        call_ensures(next_wake, (now, stack_deadline, dns_deadline), wake),
    ensures
        is_due(now, stack_deadline, dns_deadline, wake),
{
}

/// What one step of a poll answers, and what it changes.
///
/// The stack is polled exactly where the driver has no transmit timestamp, in
/// whatever state. The poll stalls only for want of room for a timestamp. DHCP
/// is restarted exactly where the link changed, and the poll ends only after the
/// stack was polled. A link change and a look at the configuration, and nothing
/// else, wake whoever waits for them.
pub proof fn law_poll_step(
    before: Inner,
    event: PollEvent,
    waker: Waker,
    step: PollStep,
    after: Inner,
)
    requires
        exists|this: &mut Inner|
            *this == before && *final(this) == after && call_ensures(
                Inner::poll,
                (this, event, &waker),
                step,
            ),
    ensures
        step is ReadLink <==> event is Start,
        step is RestartDhcpv4 <==> after@.link_up != before@.link_up,
        step is PollStack <==> event == PollEvent::TxTimestamp(None),
        step is UpdateDnsServers <==> event is Config,
        step is ReadConfig <==> event is Polled && event->Polled_config_generation
            != before@.config_generation,
        step is Finish <==> event is Polled && event->Polled_config_generation
            == before@.config_generation,
        step is Stalled ==> after@.timestamps.len() >= 5,
        step is PollTxTimestamp ==> after@.timestamps.len() < 5,
        event matches PollEvent::Polled { now, stack_deadline, dns_deadline, .. } ==> {
            &&& step matches PollStep::Finish(wake) ==> is_due(
                now,
                stack_deadline,
                dns_deadline,
                wake,
            )
            &&& step matches PollStep::ReadConfig(wake) ==> is_due(
                now,
                stack_deadline,
                dns_deadline,
                wake,
            )
        },
        event matches PollEvent::Config { next_wake: asked, .. }
            ==> step->UpdateDnsServers_next_wake == asked,
        event matches PollEvent::Link(state) ==> after@.link_up == (state is Up),
        !(event is Link) ==> after@.link_up == before@.link_up,
        event matches PollEvent::Config { iface, .. } ==> after@.config_generation
            == iface.config_generation,
        !(event is Config) ==> after@.config_generation == before@.config_generation,
        event matches PollEvent::TxTimestamp(Some(timestamp)) ==> after@.timestamps
            == before@.timestamps.push(timestamp) && woke(
            before@.timestamp_slot,
            after@.timestamp_slot,
        ),
        !(event matches PollEvent::TxTimestamp(Some(_))) ==> after@.timestamps
            == before@.timestamps && after@.timestamp_slot == before@.timestamp_slot,
        event is Start ==> after@.runner_slot.waiter == Some(waker),
        !(event is Start) ==> after@.runner_slot == before@.runner_slot,
        event is Config || after@.link_up != before@.link_up ==> woke(
            before@.state_slot,
            after@.state_slot,
        ),
        !(event is Config) && after@.link_up == before@.link_up ==> after@.state_slot
            == before@.state_slot,
        step is Stalled ==> after@.room_slot.waiter == Some(waker),
        !(step is Stalled) ==> after@.room_slot == before@.room_slot,
        after@.dns_slot == before@.dns_slot,
        after@.config_v4 == before@.config_v4,
        after@.config_v6 == before@.config_v6,
{
    if let PollEvent::Polled { now, stack_deadline, dns_deadline, .. } = event {
        assert(is_due(
            now,
            stack_deadline,
            dns_deadline,
            stack::next_wake_after(now, stack_deadline, dns_deadline),
        ));
    }
}

/// The event tells of what the step asked for.
pub open spec fn tells_of(step: PollStep, event: PollEvent) -> bool {
    match (step, event) {
        (PollStep::ReadLink, PollEvent::Link(_)) => true,
        (PollStep::RestartDhcpv4, PollEvent::Dhcpv4Restarted) => true,
        (PollStep::PollTxTimestamp, PollEvent::TxTimestamp(_)) => true,
        (PollStep::PollStack, PollEvent::Polled { .. }) => true,
        (PollStep::ReadConfig(wake), PollEvent::Config { next_wake: asked, .. }) => wake == asked,
        _ => false,
    }
}

/// Where a poll stands after one of its events.
spec fn stands(states: Seq<Inner>, events: Seq<PollEvent>, steps: Seq<PollStep>, i: int) -> bool {
    &&& steps[i] is ReadLink ==> i == 0
    &&& i == 1 ==> events[1] is Link
    &&& i >= 1 ==> events[1] is Link && states[i + 1]@.link_up == (events[1]->Link_0 is Up)
    &&& steps[i] is RestartDhcpv4 ==> i == 1
    &&& !(steps[i] is ReadConfig || steps[i] is Finish || steps[i] is UpdateDnsServers)
        ==> forall|j: int| 0 <= j <= i ==> !(#[trigger] events[j] is Polled)
    &&& steps[i] is ReadConfig || steps[i] is Finish ==> events[i] is Polled && forall|j: int|
        0 <= j < i ==> !(#[trigger] events[j] is Polled)
    &&& steps[i] is UpdateDnsServers ==> i >= 1 && events[i] is Config && events[i - 1] is Polled
        && steps[i - 1] is ReadConfig && events[i]->Config_next_wake == steps[i - 1]->ReadConfig_0
        && forall|j: int| 0 <= j <= i && j != i - 1 ==> !(#[trigger] events[j] is Polled)
}

/// A poll that does not stall passes through a poll of the stack exactly once,
/// whatever the link, and the wake that it ends with is due by the deadlines
/// that this returned. It stalls only where no timestamp can be taken. It reads
/// the link once, first, and leaves it as it read it; it restarts DHCP once
/// where the link changed, and else not.
pub proof fn law_poll_course(
    states: Seq<Inner>,
    events: Seq<PollEvent>,
    steps: Seq<PollStep>,
    waker: Waker,
)
    requires
        events.len() > 1,
        steps.len() == events.len(),
        states.len() == events.len() + 1,
        events[0] is Start,
        forall|i: int|
            0 < i < events.len() ==> tells_of(steps[i - 1], #[trigger] events[i]),
        forall|i: int|
            #![trigger events[i]]
            0 <= i < events.len() ==> exists|this: &mut Inner|
                *this == states[i] && *final(this) == states[i + 1] && call_ensures(
                    Inner::poll,
                    (this, events[i], &waker),
                    steps[i],
                ),
    ensures
        ({
            let end = steps.last();
            let finished = end is Finish || end is UpdateDnsServers;
            let wake = match end {
                PollStep::Finish(wake) => wake,
                PollStep::UpdateDnsServers { next_wake, .. } => next_wake,
                _ => NextWake::Now,
            };
            &&& events[1] is Link
            &&& states.last()@.link_up == (events[1]->Link_0 is Up)
            &&& steps[1] is RestartDhcpv4 <==> states[1]@.link_up != states.last()@.link_up
            &&& forall|i: int|
                0 <= i < steps.len() && i != 1 ==> !(#[trigger] steps[i] is RestartDhcpv4)
            &&& end is Stalled ==> states.last()@.timestamps.len() >= 5 && forall|i: int|
                0 <= i < events.len() ==> !(#[trigger] events[i] is Polled)
            &&& finished ==> exists|k: int|
                0 <= k < events.len() && (#[trigger] events[k] matches PollEvent::Polled {
                    now,
                    stack_deadline,
                    dns_deadline,
                    ..
                } && is_due(now, stack_deadline, dns_deadline, wake)) && forall|j: int|
                    0 <= j < events.len() && j != k ==> !(#[trigger] events[j] is Polled)
        }),
{
    assert forall|i: int| #![trigger states[i]] 0 <= i < events.len() implies poll_facts(
        states[i],
        events[i],
        steps[i],
        states[i + 1],
    ) by {
        assert(0 <= i < events.len());
        let event = events[i];
        law_poll_step(states[i], event, waker, steps[i], states[i + 1]);
    }
    let n = events.len() - 1;
    lemma_poll_stands(states, events, steps, n as int);
    assert(poll_facts(states[n], events[n], steps[n], states[n + 1]));
    assert(poll_facts(states[1], events[1], steps[1], states[2]));
    assert(poll_facts(states[0], events[0], steps[0], states[1]));
    assert(stands(states, events, steps, n as int));
    assert forall|i: int| 0 <= i < steps.len() && i != 1 implies !(
    #[trigger] steps[i] is RestartDhcpv4) by {
        lemma_poll_stands(states, events, steps, i);
    }
    let end = steps.last();
    if end is Finish {
        assert(events[n] is Polled);
    }
    if end is UpdateDnsServers {
        assert(poll_facts(states[n - 1], events[n - 1], steps[n - 1], states[n]));
        assert(events[n - 1] is Polled);
    }
}

/// The part of what one step of a poll does that decides its course.
spec fn poll_facts(before: Inner, event: PollEvent, step: PollStep, after: Inner) -> bool {
    &&& step is ReadLink <==> event is Start
    &&& step is RestartDhcpv4 <==> after@.link_up != before@.link_up
    &&& step is PollStack <==> event == PollEvent::TxTimestamp(None)
    &&& step is UpdateDnsServers <==> event is Config
    &&& step is ReadConfig || step is Finish <==> event is Polled
    &&& step is Stalled ==> after@.timestamps.len() >= 5
    &&& event matches PollEvent::Polled { now, stack_deadline, dns_deadline, .. } ==> {
        &&& step matches PollStep::Finish(wake) ==> is_due(now, stack_deadline, dns_deadline, wake)
        &&& step matches PollStep::ReadConfig(wake) ==> is_due(
            now,
            stack_deadline,
            dns_deadline,
            wake,
        )
    }
    &&& event matches PollEvent::Config { next_wake: asked, .. }
        ==> step->UpdateDnsServers_next_wake == asked
    &&& event matches PollEvent::Link(state) ==> after@.link_up == (state is Up)
    &&& !(event is Link) ==> after@.link_up == before@.link_up
}

proof fn lemma_poll_stands(
    states: Seq<Inner>,
    events: Seq<PollEvent>,
    steps: Seq<PollStep>,
    i: int,
)
    requires
        steps.len() == events.len(),
        states.len() == events.len() + 1,
        0 <= i < events.len(),
        events[0] is Start,
        forall|i: int| 0 < i < events.len() ==> tells_of(steps[i - 1], #[trigger] events[i]),
        forall|i: int|
            #![trigger states[i]]
            0 <= i < events.len() ==> poll_facts(states[i], events[i], steps[i], states[i + 1]),
    ensures
        stands(states, events, steps, i),
    decreases i,
{
    assert(poll_facts(states[i], events[i], steps[i], states[i + 1]));
    if i > 0 {
        lemma_poll_stands(states, events, steps, i - 1);
        assert(poll_facts(states[i - 1], events[i - 1], steps[i - 1], states[i]));
        assert(tells_of(steps[i - 1], events[i]));
    }
}

/// The address at `k` is an IPv4 address, and none comes before it.
pub open spec fn is_first_v4(addrs: Seq<IfaceAddr>, k: int) -> bool {
    &&& 0 <= k < addrs.len()
    &&& addrs[k].cidr is Ipv4
    &&& forall|i: int| 0 <= i < k ==> !((#[trigger] addrs[i]).cidr is Ipv4)
}

proof fn lemma_first_v4(addrs: Seq<IfaceAddr>) -> (k: int)
    ensures
        first_ipv4(addrs) matches Some(cidr) ==> is_first_v4(addrs, k) && addrs[k].cidr
            == IpCidr::Ipv4(cidr),
        first_ipv4(addrs) is None ==> forall|i: int|
            0 <= i < addrs.len() ==> !((#[trigger] addrs[i]).cidr is Ipv4),
    decreases addrs.len(),
{
    if addrs.len() == 0 {
        0
    } else if addrs[0].cidr is Ipv4 {
        0
    } else {
        let rest = addrs.drop_first();
        let k = lemma_first_v4(rest);
        assert forall|i: int| 0 < i < addrs.len() implies #[trigger] addrs[i] == rest[i - 1] by {}
        if first_ipv4(rest) is Some {
            assert(addrs[k + 1] == rest[k]);
            assert forall|i: int| 0 <= i < k + 1 implies !((#[trigger] addrs[i]).cidr is Ipv4) by {
                if i > 0 {
                    assert(addrs[i] == rest[i - 1]);
                }
            }
        }
        k + 1
    }
}

/// The address that is found is the first of its kind, and none is found exactly
/// where the interface does not have an IPv4 address.
pub proof fn law_find_ipv4_finds_the_first(iface_addrs: Vec<IfaceAddr>, found: Option<Ipv4Cidr>)
    requires
        call_ensures(find_ipv4, (&iface_addrs,), found),
    ensures
        ({
            let addrs = iface_addrs@;
            &&& found is None <==> forall|i: int| 0 <= i < addrs.len() ==> !((#[trigger] addrs[i]).cidr is Ipv4)
            &&& found matches Some(cidr) ==> exists|k: int|
                #[trigger] is_first_v4(addrs, k) && addrs[k].cidr == IpCidr::Ipv4(cidr)
        }),
{
    let k = lemma_first_v4(iface_addrs@);
    if found is Some {
        assert(is_first_v4(iface_addrs@, k));
    }
}

/// The address at `k` is an IPv6 address that the stack did not derive, and none comes before it.
pub open spec fn is_first_v6(addrs: Seq<IfaceAddr>, k: int) -> bool {
    &&& 0 <= k < addrs.len()
    &&& addrs[k].cidr is Ipv6 && addrs[k].origin != AddrOrigin::LinkLocal
    &&& forall|i: int| 0 <= i < k ==> !((#[trigger] addrs[i]).cidr is Ipv6 && addrs[i].origin != AddrOrigin::LinkLocal)
}

proof fn lemma_first_v6(addrs: Seq<IfaceAddr>) -> (k: int)
    ensures
        first_ipv6(addrs) matches Some(cidr) ==> is_first_v6(addrs, k) && addrs[k].cidr
            == IpCidr::Ipv6(cidr),
        first_ipv6(addrs) is None ==> forall|i: int|
            0 <= i < addrs.len() ==> !((#[trigger] addrs[i]).cidr is Ipv6 && addrs[i].origin != AddrOrigin::LinkLocal),
    decreases addrs.len(),
{
    if addrs.len() == 0 {
        0
    } else if addrs[0].cidr is Ipv6 && addrs[0].origin != AddrOrigin::LinkLocal {
        0
    } else {
        let rest = addrs.drop_first();
        let k = lemma_first_v6(rest);
        assert forall|i: int| 0 < i < addrs.len() implies #[trigger] addrs[i] == rest[i - 1] by {}
        if first_ipv6(rest) is Some {
            assert(addrs[k + 1] == rest[k]);
            assert forall|i: int| 0 <= i < k + 1 implies !((#[trigger] addrs[i]).cidr is Ipv6 && addrs[i].origin != AddrOrigin::LinkLocal) by {
                if i > 0 {
                    assert(addrs[i] == rest[i - 1]);
                }
            }
        }
        k + 1
    }
}

/// The address that is found is the first of its kind, and none is found exactly
/// where the interface does not have an IPv6 address that the stack did not derive.
pub proof fn law_find_ipv6_finds_the_first(iface_addrs: Vec<IfaceAddr>, found: Option<Ipv6Cidr>)
    requires
        call_ensures(find_ipv6, (&iface_addrs,), found),
    ensures
        ({
            let addrs = iface_addrs@;
            &&& found is None <==> forall|i: int| 0 <= i < addrs.len() ==> !((#[trigger] addrs[i]).cidr is Ipv6 && addrs[i].origin != AddrOrigin::LinkLocal)
            &&& found matches Some(cidr) ==> exists|k: int|
                #[trigger] is_first_v6(addrs, k) && addrs[k].cidr == IpCidr::Ipv6(cidr)
        }),
{
    let k = lemma_first_v6(iface_addrs@);
    if found is Some {
        assert(is_first_v6(iface_addrs@, k));
    }
}

/// The IPv4 configuration in force has the first IPv4 address of the interface,
/// the router of its default route as far as that is an IPv4 one, and the DNS
/// servers of the user's configuration, or, with DHCP, the first three at most of
/// the lease. There is none exactly where the interface has no IPv4 address.
pub proof fn law_config_v4_is_in_force(
    inner: Inner,
    iface: IfaceState,
    config: Option<StaticConfigV4>,
)
    requires
        call_ensures(Inner::config_v4, (&inner, &iface), config),
    ensures
        config is None <==> forall|i: int|
            0 <= i < iface.addrs@.len() ==> !((#[trigger] iface.addrs@[i]).cidr is Ipv4),
        config matches Some(config) ==> {
            let servers = ipv4_items(config.dns_servers);
            &&& exists|k: int|
                #[trigger] is_first_v4(iface.addrs@, k) && iface.addrs@[k].cidr == IpCidr::Ipv4(
                    config.address,
                )
            &&& config.gateway is Some <==> iface.default_ipv4_router is Some && (
            iface.default_ipv4_router->0) is Ipv4
            &&& config.gateway is Some ==> iface.default_ipv4_router == Some(
                IpAddress::Ipv4(config.gateway->0),
            )
            &&& inner@.config_v4 matches ConfigV4View::Static(set) ==> servers
                == set.dns_servers
            &&& inner@.config_v4 is Unset ==> servers.len() == 0
            &&& inner@.config_v4 is Dhcp && iface.lease_dns_servers is None ==> servers.len() == 0
            &&& inner@.config_v4 is Dhcp && iface.lease_dns_servers is Some ==> {
                let lease = (iface.lease_dns_servers->0)@;
                &&& servers.len() == if lease.len() < 3 {
                    lease.len()
                } else {
                    3
                }
                &&& forall|i: int|
                    0 <= i < servers.len() ==> #[trigger] servers[i] == lease[i]
            }
        },
{
    let k = lemma_first_v4(iface.addrs@);
    if config is Some {
        assert(is_first_v4(iface.addrs@, k));
    }
}

/// The IPv6 configuration in force has the first IPv6 address of the interface
/// that the stack did not derive, the router of its default route as far as that
/// is an IPv6 one, and the DNS servers of the user's static configuration. There
/// is none exactly where the interface has no such address.
pub proof fn law_config_v6_is_in_force(
    inner: Inner,
    iface: IfaceState,
    config: Option<StaticConfigV6>,
)
    requires
        call_ensures(Inner::config_v6, (&inner, &iface), config),
    ensures
        config is None <==> forall|i: int|
            0 <= i < iface.addrs@.len() ==> !((#[trigger] iface.addrs@[i]).cidr is Ipv6
                && iface.addrs@[i].origin != AddrOrigin::LinkLocal),
        config matches Some(config) ==> {
            let servers = ipv6_items(config.dns_servers);
            &&& exists|k: int|
                #[trigger] is_first_v6(iface.addrs@, k) && iface.addrs@[k].cidr == IpCidr::Ipv6(
                    config.address,
                )
            &&& config.gateway is Some <==> iface.default_ipv6_router is Some && (
            iface.default_ipv6_router->0) is Ipv6
            &&& config.gateway is Some ==> iface.default_ipv6_router == Some(
                IpAddress::Ipv6(config.gateway->0),
            )
            &&& inner@.config_v6 matches ConfigV6View::Static(set) ==> servers
                == set.dns_servers
            &&& !(inner@.config_v6 is Static) ==> servers.len() == 0
        },
{
    let k = lemma_first_v6(iface.addrs@);
    if config is Some {
        assert(is_first_v6(iface.addrs@, k));
    }
}

/// The servers are those of both configurations in force, IPv4 before IPv6, in
/// their order, as many as there is room for. Either configuration adds its own
/// whether or not there is the other.
pub open spec fn are_servers_of(
    servers: Seq<IpAddress>,
    v4: Option<StaticConfigV4>,
    v6: Option<StaticConfigV6>,
    max: int,
) -> bool {
    let v4_servers = ipv4_items((v4->0).dns_servers);
    let v6_servers = ipv6_items((v6->0).dns_servers);
    let v4_count: int = if v4 is Some {
        v4_servers.len() as int
    } else {
        0
    };
    let v6_count: int = if v6 is Some {
        v6_servers.len() as int
    } else {
        0
    };
    &&& servers.len() == if v4_count + v6_count <= max {
        v4_count + v6_count
    } else {
        max
    }
    &&& forall|i: int|
        0 <= i < servers.len() && i < v4_count ==> #[trigger] servers[i] == IpAddress::Ipv4(
            v4_servers[i],
        )
    &&& forall|i: int|
        v4_count <= i < servers.len() ==> #[trigger] servers[i] == IpAddress::Ipv6(
            v6_servers[i - v4_count],
        )
}

/// When the configuration is looked at, the DNS client gets every DNS server of
/// each configuration in force, as far as it takes them. Whoever waits for the
/// configuration is woken, the change has been seen, and nothing else changes.
pub proof fn law_dns_client_gets_every_server(
    before: Inner,
    iface: IfaceState,
    max_dns_servers: usize,
    v4: Option<StaticConfigV4>,
    v6: Option<StaticConfigV6>,
    servers: heapless::Vec<IpAddress, MAX_CLIENT_DNS_SERVERS>,
    after: Inner,
)
    requires
        call_ensures(Inner::config_v4, (&before, &iface), v4),
        call_ensures(Inner::config_v6, (&before, &iface), v6),
        exists|this: &mut Inner|
            *this == before && *final(this) == after && call_ensures(
                Inner::config_changed,
                (this, &iface, max_dns_servers),
                servers,
            ),
    ensures
        are_servers_of(ip_items(servers), v4, v6, max_dns_servers as int),
        after@.config_generation == iface.config_generation,
        woke(before@.state_slot, after@.state_slot),
        after@.runner_slot == before@.runner_slot,
        after@.dns_slot == before@.dns_slot,
        after@.link_up == before@.link_up,
        after@.config_v4 == before@.config_v4,
        after@.config_v6 == before@.config_v6,
        after@.timestamps == before@.timestamps,
        after@.room_slot == before@.room_slot,
        after@.timestamp_slot == before@.timestamp_slot,
{
}

/// After a configuration was set, the DNS client gets every DNS server of each
/// configuration in force, as far as it takes them. Whoever waits for the
/// configuration is woken, and so is the runner. Nothing else changes.
pub proof fn law_new_config_reaches_the_dns_client(
    before: Stack,
    iface: IfaceState,
    max_dns_servers: usize,
    v4: Option<StaticConfigV4>,
    v6: Option<StaticConfigV6>,
    servers: heapless::Vec<IpAddress, MAX_CLIENT_DNS_SERVERS>,
    after: Stack,
)
    requires
        call_ensures(Stack::config_v4, (&before, &iface), v4),
        call_ensures(Stack::config_v6, (&before, &iface), v6),
        exists|this: &mut Stack|
            *this == before && *final(this) == after && call_ensures(
                Stack::finish_set_config,
                (this, &iface, max_dns_servers),
                servers,
            ),
    ensures
        are_servers_of(ip_items(servers), v4, v6, max_dns_servers as int),
        after@.config_generation == iface.config_generation,
        woke(before@.state_slot, after@.state_slot),
        woke(before@.runner_slot, after@.runner_slot),
        after@.dns_slot == before@.dns_slot,
        after@.link_up == before@.link_up,
        after@.config_v4 == before@.config_v4,
        after@.config_v6 == before@.config_v6,
        after@.timestamps == before@.timestamps,
        after@.room_slot == before@.room_slot,
        after@.timestamp_slot == before@.timestamp_slot,
{
}

/// A poll that read the configuration of the interface hands every DNS server of
/// each configuration in force to the DNS client, as far as it takes them.
pub proof fn law_poll_hands_on_every_server(
    before: Inner,
    event: PollEvent,
    waker: Waker,
    v4: Option<StaticConfigV4>,
    v6: Option<StaticConfigV6>,
    step: PollStep,
    after: Inner,
)
    requires
        event is Config,
        call_ensures(Inner::config_v4, (&before, &event->Config_iface), v4),
        call_ensures(Inner::config_v6, (&before, &event->Config_iface), v6),
        exists|this: &mut Inner|
            *this == before && *final(this) == after && call_ensures(
                Inner::poll,
                (this, event, &waker),
                step,
            ),
    ensures
        step matches PollStep::UpdateDnsServers { servers, .. } && are_servers_of(
            ip_items(servers),
            v4,
            v6,
            event->Config_max_dns_servers as int,
        ),
{
}

/// The interface has an IPv4 address or an IPv6 address that the stack did not
/// derive from the hardware address.
pub open spec fn has_address(addrs: Seq<IfaceAddr>) -> bool {
    exists|i: int|
        0 <= i < addrs.len() && ((#[trigger] addrs[i]).cidr is Ipv4 || addrs[i].origin
            != AddrOrigin::LinkLocal)
}

/// The stack is configured exactly where the interface has an address that is
/// not the derived IPv6 one, which is where either configuration is in force.
pub proof fn law_config_is_up_with_any_address(
    stack: Stack,
    iface: IfaceState,
    up: bool,
    v4: Option<StaticConfigV4>,
    v6: Option<StaticConfigV6>,
)
    requires
        call_ensures(Stack::is_config_up, (&stack, &iface), up),
        call_ensures(Stack::config_v4, (&stack, &iface), v4),
        call_ensures(Stack::config_v6, (&stack, &iface), v6),
    ensures
        up <==> has_address(iface.addrs@),
        v4 is Some || v6 is Some <==> up,
{
    let addrs = iface.addrs@;
    let k4 = lemma_first_v4(addrs);
    let k6 = lemma_first_v6(addrs);
    if has_address(addrs) {
        let i = choose|i: int|
            0 <= i < addrs.len() && ((#[trigger] addrs[i]).cidr is Ipv4 || addrs[i].origin
                != AddrOrigin::LinkLocal);
        assert(addrs[i].cidr is Ipv4 || addrs[i].cidr is Ipv6);
    }
    if first_ipv4(addrs) is Some {
        assert(addrs[k4].cidr is Ipv4);
    }
    if first_ipv6(addrs) is Some {
        assert(addrs[k6].cidr is Ipv6);
    }
}

/// An address more never takes the configuration down.
pub proof fn law_more_addresses_keep_the_config_up(
    stack: Stack,
    fewer: IfaceState,
    more: IfaceState,
    before: bool,
    after: bool,
)
    requires
        call_ensures(Stack::is_config_up, (&stack, &fewer), before),
        call_ensures(Stack::is_config_up, (&stack, &more), after),
        forall|i: int|
            0 <= i < fewer.addrs@.len() ==> more.addrs@.contains(#[trigger] fewer.addrs@[i]),
    ensures
        before ==> after,
{
    let k4 = lemma_first_v4(fewer.addrs@);
    let k6 = lemma_first_v6(fewer.addrs@);
    let _ = lemma_first_v4(more.addrs@);
    let _ = lemma_first_v6(more.addrs@);
    if first_ipv4(fewer.addrs@) is Some {
        let addr = fewer.addrs@[k4];
        assert(more.addrs@.contains(addr));
        let i = choose|i: int| 0 <= i < more.addrs@.len() && more.addrs@[i] == addr;
        assert(more.addrs@[i].cidr is Ipv4);
    }
    if first_ipv6(fewer.addrs@) is Some {
        let addr = fewer.addrs@[k6];
        assert(more.addrs@.contains(addr));
        let i = choose|i: int| 0 <= i < more.addrs@.len() && more.addrs@[i] == addr;
        assert(more.addrs@[i].cidr is Ipv6);
    }
}

/// What a wait leaves behind: nothing new where it is over, else the task of the
/// waker waits for the link or the configuration, and nothing else changed.
pub open spec fn waited(before: InnerView, ready: bool, waker: Waker, after: InnerView) -> bool {
    &&& ready ==> after.state_slot == before.state_slot
    &&& !ready ==> after.state_slot.waiter == Some(waker)
    &&& after.runner_slot == before.runner_slot
    &&& after.dns_slot == before.dns_slot
    &&& after.link_up == before.link_up
    &&& after.config_generation == before.config_generation
    &&& after.config_v4 == before.config_v4
    &&& after.config_v6 == before.config_v6
    &&& after.timestamps == before.timestamps
    &&& after.room_slot == before.room_slot
    &&& after.timestamp_slot == before.timestamp_slot
}

/// The wait is over exactly where the link is up.
pub proof fn law_wait_link_up(before: Stack, waker: Waker, up: bool, ready: bool, after: Stack)
    requires
        call_ensures(Stack::is_link_up, (&before,), up),
        exists|this: &mut Stack|
            *this == before && *final(this) == after && call_ensures(
                Stack::wait_link_up,
                (this, &waker),
                ready,
            ),
    ensures
        up == before@.link_up,
        ready <==> up,
        waited(before@, ready, waker, after@),
{
}

/// The wait is over exactly where the link is down.
pub proof fn law_wait_link_down(before: Stack, waker: Waker, up: bool, ready: bool, after: Stack)
    requires
        call_ensures(Stack::is_link_up, (&before,), up),
        exists|this: &mut Stack|
            *this == before && *final(this) == after && call_ensures(
                Stack::wait_link_down,
                (this, &waker),
                ready,
            ),
    ensures
        up == before@.link_up,
        ready <==> !up,
        waited(before@, ready, waker, after@),
{
}

/// The wait is over exactly where the stack is configured.
pub proof fn law_wait_config_up(
    before: Stack,
    iface: IfaceState,
    waker: Waker,
    up: bool,
    ready: bool,
    after: Stack,
)
    requires
        call_ensures(Stack::is_config_up, (&before, &iface), up),
        exists|this: &mut Stack|
            *this == before && *final(this) == after && call_ensures(
                Stack::wait_config_up,
                (this, &iface, &waker),
                ready,
            ),
    ensures
        ready <==> up,
        waited(before@, ready, waker, after@),
{
}

/// The wait is over exactly where the stack is not configured.
pub proof fn law_wait_config_down(
    before: Stack,
    iface: IfaceState,
    waker: Waker,
    up: bool,
    ready: bool,
    after: Stack,
)
    requires
        call_ensures(Stack::is_config_up, (&before, &iface), up),
        exists|this: &mut Stack|
            *this == before && *final(this) == after && call_ensures(
                Stack::wait_config_down,
                (this, &iface, &waker),
                ready,
            ),
    ensures
        ready <==> !up,
        waited(before@, ready, waker, after@),
{
}

/// Waking the runner wakes whoever waits in its slot, and changes nothing else.
pub proof fn law_runner_is_woken(before: Stack, after: Stack)
    requires
        exists|this: &mut Stack|
            *this == before && *final(this) == after && call_ensures(
                Stack::wake_runner,
                (this,),
                (),
            ),
    ensures
        woke(before@.runner_slot, after@.runner_slot),
        after@.state_slot == before@.state_slot,
        after@.dns_slot == before@.dns_slot,
        after@.link_up == before@.link_up,
        after@.config_generation == before@.config_generation,
        after@.config_v4 == before@.config_v4,
        after@.config_v6 == before@.config_v6,
        after@.timestamps == before@.timestamps,
        after@.room_slot == before@.room_slot,
        after@.timestamp_slot == before@.timestamp_slot,
{
}

/// Reading takes the oldest timestamp, if there is one, and wakes whoever waits
/// for room if there was none left. Where there is no timestamp the task of the
/// waker waits for one. Nothing else changes.
pub proof fn law_oldest_timestamp_is_read(
    before: Stack,
    waker: Waker,
    read: Option<TxTimestamp>,
    after: Stack,
)
    requires
        exists|this: &mut Stack|
            *this == before && *final(this) == after && call_ensures(
                Stack::poll_tx_timestamps,
                (this, &waker),
                read,
            ),
    ensures
        read is None <==> before@.timestamps.len() == 0,
        read matches Some(timestamp) ==> before@.timestamps == seq![timestamp] + after@.timestamps,
        read is None ==> after@.timestamps.len() == 0 && after@.timestamp_slot.waiter == Some(
            waker,
        ),
        read is Some ==> after@.timestamp_slot == before@.timestamp_slot,
        before@.timestamps.len() >= 5 ==> woke(before@.room_slot, after@.room_slot),
        before@.timestamps.len() < 5 ==> after@.room_slot == before@.room_slot,
        after@.runner_slot == before@.runner_slot,
        after@.state_slot == before@.state_slot,
        after@.dns_slot == before@.dns_slot,
        after@.link_up == before@.link_up,
        after@.config_generation == before@.config_generation,
        after@.config_v4 == before@.config_v4,
        after@.config_v6 == before@.config_v6,
{
    if before@.timestamps.len() > 0 {
        assert(before@.timestamps =~= seq![before@.timestamps.first()]
            + before@.timestamps.drop_first());
    }
}

/// The DHCP client is told the hostname as option 12, in all its bytes, in a
/// buffer that holds nothing else.
pub open spec fn carries_hostname(
    option: DhcpOption,
    name: heapless::String<MAX_HOSTNAME_LEN>,
) -> bool {
    &&& option.kind == 12
    &&& option.len == hostname_bytes(name).len()
    &&& option.len <= 32
    &&& forall|i: int|
        0 <= i < option.len ==> #[trigger] option.data@[i] == hostname_bytes(name)[i]
    &&& forall|i: int| option.len <= i < 32 ==> #[trigger] option.data@[i] == 0
}

/// The hostname becomes option 12.
pub proof fn law_hostname_is_carried(
    name: heapless::String<MAX_HOSTNAME_LEN>,
    option: DhcpOption,
)
    requires
        call_ensures(DhcpOption::hostname, (&name,), option),
    ensures
        carries_hostname(option, name),
{
    assert forall|i: int| 0 <= i < option.len implies #[trigger] option.data@[i]
        == hostname_bytes(name)[i] by {
        assert(option.data@[i] == option.payload()[i]);
    }
}

/// The commands bring an interface under the IPv4 configuration: DHCP is turned
/// off and what was set by hand is cleared, before anything is added. Then comes
/// what the configuration asks for, and nothing else.
pub open spec fn bring_under_v4(commands: Seq<IfaceCommand>, config: ConfigV4) -> bool {
    &&& commands.len() >= 2
    &&& commands[0] matches IfaceCommand::SetDhcpv4(client) && client is None
    &&& commands[1] == (IfaceCommand::ClearManual { v4: true })
    &&& config is Unset ==> commands.len() == 2
    &&& config matches ConfigV4::Static(set) ==> {
        &&& commands.len() == if set.gateway is Some {
            4int
        } else {
            3int
        }
        &&& commands[2] == IfaceCommand::AddIpAddr(IpCidr::Ipv4(set.address))
        &&& set.gateway matches Some(gateway) ==> commands[3] == IfaceCommand::AddDefaultRoute(
            IpAddress::Ipv4(gateway),
        )
    }
    &&& config matches ConfigV4::Dhcp(set) ==> {
        &&& commands.len() == 3
        &&& commands[2] is SetDhcpv4
        &&& commands[2]->SetDhcpv4_0 matches Some(client) && {
            &&& client.max_lease_duration == set.max_lease_duration
            &&& client.ignore_naks == set.ignore_naks
            &&& client.hostname is Some <==> set.hostname is Some
            &&& set.hostname is Some ==> carries_hostname(client.hostname->0, set.hostname->0)
        }
    }
}

/// The commands bring an interface under the IPv6 configuration: SLAAC is turned
/// off and what was set by hand is cleared, before anything is added. Then comes
/// what the configuration asks for, and nothing else.
pub open spec fn bring_under_v6(commands: Seq<IfaceCommand>, config: ConfigV6) -> bool {
    &&& commands.len() >= 2
    &&& commands[0] == IfaceCommand::SetSlaac(false)
    &&& commands[1] == (IfaceCommand::ClearManual { v4: false })
    &&& config is Unset ==> commands.len() == 2
    &&& config matches ConfigV6::Static(set) ==> {
        &&& commands.len() == if set.gateway is Some {
            4int
        } else {
            3int
        }
        &&& commands[2] == IfaceCommand::AddIpAddr(IpCidr::Ipv6(set.address))
        &&& set.gateway matches Some(gateway) ==> commands[3] == IfaceCommand::AddDefaultRoute(
            IpAddress::Ipv6(gateway),
        )
    }
    &&& config is Slaac ==> commands.len() == 3 && commands[2] == IfaceCommand::SetSlaac(true)
}

proof fn lemma_commands_v4(commands: Seq<IfaceCommand>, config: ConfigV4)
    requires
        commands_view(commands) == stack::config_v4_commands(config@),
        commands_wf(commands),
    ensures
        bring_under_v4(commands, config),
{
    let views = commands_view(commands);
    assert(views.len() == commands.len());
    assert forall|i: int| 0 <= i < commands.len() implies #[trigger] views[i] == commands[i]@ by {}
    assert(views[0] == commands[0]@ && views[1] == commands[1]@);
    match config {
        ConfigV4::Unset => {},
        ConfigV4::Static(set) => {
            assert(views[2] == commands[2]@);
            if set.gateway is Some {
                assert(views[3] == commands[3]@);
            }
        },
        ConfigV4::Dhcp(set) => {
            assert(views[2] == commands[2]@);
            assert(commands[2].wf());
            let client = commands[2]->SetDhcpv4_0->0;
            if set.hostname is Some {
                let option = client.hostname->0;
                assert(option.payload() == hostname_bytes(set.hostname->0));
                assert(option.payload().len() == option.len);
                assert forall|i: int| 0 <= i < option.len implies #[trigger] option.data@[i]
                    == hostname_bytes(set.hostname->0)[i] by {
                    assert(option.data@[i] == option.payload()[i]);
                }
            }
        },
    }
}

proof fn lemma_commands_v6(commands: Seq<IfaceCommand>, config: ConfigV6)
    requires
        commands_view(commands) == stack::config_v6_commands(config@),
        commands_wf(commands),
    ensures
        bring_under_v6(commands, config),
{
    let views = commands_view(commands);
    assert(views.len() == commands.len());
    assert forall|i: int| 0 <= i < commands.len() implies #[trigger] views[i] == commands[i]@ by {}
    assert(views[0] == commands[0]@ && views[1] == commands[1]@);
    match config {
        ConfigV6::Unset => {},
        ConfigV6::Static(set) => {
            assert(views[2] == commands[2]@);
            if set.gateway is Some {
                assert(views[3] == commands[3]@);
            }
        },
        ConfigV6::Slaac => {
            assert(views[2] == commands[2]@);
        },
    }
}

/// Setting an IPv4 configuration asks for what brings the interface under it.
/// The configuration is kept, and nothing else changes.
pub proof fn law_inner_set_config_v4(
    before: Inner,
    config: ConfigV4,
    commands: Vec<IfaceCommand>,
    after: Inner,
)
    requires
        exists|this: &mut Inner|
            *this == before && *final(this) == after && call_ensures(
                Inner::set_config_v4,
                (this, config),
                commands,
            ),
    ensures
        bring_under_v4(commands@, config),
        after@.config_v4 == config@,
        after@.runner_slot == before@.runner_slot,
        after@.state_slot == before@.state_slot,
        after@.dns_slot == before@.dns_slot,
        after@.link_up == before@.link_up,
        after@.config_generation == before@.config_generation,
        after@.config_v6 == before@.config_v6,
        after@.timestamps == before@.timestamps,
        after@.room_slot == before@.room_slot,
        after@.timestamp_slot == before@.timestamp_slot,
{
    lemma_commands_v4(commands@, config);
}

/// Setting an IPv6 configuration asks for what brings the interface under it.
/// The configuration is kept, and nothing else changes.
pub proof fn law_inner_set_config_v6(
    before: Inner,
    config: ConfigV6,
    commands: Vec<IfaceCommand>,
    after: Inner,
)
    requires
        exists|this: &mut Inner|
            *this == before && *final(this) == after && call_ensures(
                Inner::set_config_v6,
                (this, config),
                commands,
            ),
    ensures
        bring_under_v6(commands@, config),
        after@.config_v6 == config@,
        after@.runner_slot == before@.runner_slot,
        after@.state_slot == before@.state_slot,
        after@.dns_slot == before@.dns_slot,
        after@.link_up == before@.link_up,
        after@.config_generation == before@.config_generation,
        after@.config_v4 == before@.config_v4,
        after@.timestamps == before@.timestamps,
        after@.room_slot == before@.room_slot,
        after@.timestamp_slot == before@.timestamp_slot,
{
    lemma_commands_v6(commands@, config);
}

/// Setting an IPv4 configuration asks for what brings the interface under it.
/// The configuration is kept, and nothing else changes.
pub proof fn law_stack_set_config_v4(
    before: Stack,
    config: ConfigV4,
    commands: Vec<IfaceCommand>,
    after: Stack,
)
    requires
        exists|this: &mut Stack|
            *this == before && *final(this) == after && call_ensures(
                Stack::set_config_v4,
                (this, config),
                commands,
            ),
    ensures
        bring_under_v4(commands@, config),
        after@.config_v4 == config@,
        after@.runner_slot == before@.runner_slot,
        after@.state_slot == before@.state_slot,
        after@.dns_slot == before@.dns_slot,
        after@.link_up == before@.link_up,
        after@.config_generation == before@.config_generation,
        after@.config_v6 == before@.config_v6,
        after@.timestamps == before@.timestamps,
        after@.room_slot == before@.room_slot,
        after@.timestamp_slot == before@.timestamp_slot,
{
    lemma_commands_v4(commands@, config);
}

/// Setting an IPv6 configuration asks for what brings the interface under it.
/// The configuration is kept, and nothing else changes.
pub proof fn law_stack_set_config_v6(
    before: Stack,
    config: ConfigV6,
    commands: Vec<IfaceCommand>,
    after: Stack,
)
    requires
        exists|this: &mut Stack|
            *this == before && *final(this) == after && call_ensures(
                Stack::set_config_v6,
                (this, config),
                commands,
            ),
    ensures
        bring_under_v6(commands@, config),
        after@.config_v6 == config@,
        after@.runner_slot == before@.runner_slot,
        after@.state_slot == before@.state_slot,
        after@.dns_slot == before@.dns_slot,
        after@.link_up == before@.link_up,
        after@.config_generation == before@.config_generation,
        after@.config_v4 == before@.config_v4,
        after@.timestamps == before@.timestamps,
        after@.room_slot == before@.room_slot,
        after@.timestamp_slot == before@.timestamp_slot,
{
    lemma_commands_v6(commands@, config);
}

/// A new stack asks for what brings the interface under its IPv4 configuration,
/// and then under its IPv6 configuration. Its link is down, nothing waits, and it
/// has not looked at the interface.
pub proof fn law_new_stack(config: Config, created: Stack, commands: Vec<IfaceCommand>)
    requires
        call_ensures(stack::new, (config,), (created, commands)),
    ensures
        exists|split: int|
            0 <= split <= commands@.len() && #[trigger] bring_under_v4(
                commands@.take(split),
                config.ipv4,
            ) && bring_under_v6(commands@.skip(split), config.ipv6),
        created@.config_v4 == config.ipv4@,
        created@.config_v6 == config.ipv6@,
        !created@.link_up,
        created@.config_generation == 0,
        created@.timestamps.len() == 0,
        created@.runner_slot.waiter is None && created@.runner_slot.woken.len() == 0,
        created@.state_slot.waiter is None && created@.state_slot.woken.len() == 0,
        created@.dns_slot.waiter is None && created@.dns_slot.woken.len() == 0,
        created@.room_slot.waiter is None && created@.room_slot.woken.len() == 0,
        created@.timestamp_slot.waiter is None && created@.timestamp_slot.woken.len() == 0,
{
    let v4 = stack::config_v4_commands(config.ipv4@);
    let v6 = stack::config_v6_commands(config.ipv6@);
    let split = v4.len() as int;
    let views = commands_view(commands@);
    assert(views == v4 + v6);
    assert(views.len() == commands@.len());
    let first = commands@.take(split);
    let second = commands@.skip(split);
    assert forall|i: int| 0 <= i < first.len() implies commands_view(first)[i] == v4[i] by {
        assert(views[i] == commands@[i]@);
    }
    assert(commands_view(first) =~= v4);
    assert forall|i: int| 0 <= i < second.len() implies commands_view(second)[i] == v6[i] by {
        assert(views[i + split] == commands@[i + split]@);
    }
    assert(commands_view(second) =~= v6);
    assert forall|i: int| 0 <= i < first.len() implies (#[trigger] first[i]).wf() by {
        assert(commands@[i].wf());
    }
    assert forall|i: int| 0 <= i < second.len() implies (#[trigger] second[i]).wf() by {
        assert(commands@[i + split].wf());
    }
    lemma_commands_v4(first, config.ipv4);
    lemma_commands_v6(second, config.ipv6);
    assert(bring_under_v4(commands@.take(split), config.ipv4));
}

/// The address was assigned by hand, and is of the IP version.
pub open spec fn is_by_hand(addr: IfaceAddr, v4: bool) -> bool {
    &&& addr.origin is Manual
    &&& v4 ==> addr.cidr is Ipv4
    &&& !v4 ==> addr.cidr is Ipv6
}

/// Clearing removes the first address of the IP version that was assigned by
/// hand. It turns to the routes exactly where there is none left.
pub proof fn law_clear_step_removes_by_hand(
    iface_addrs: Vec<IfaceAddr>,
    v4: bool,
    step: ClearStep,
)
    requires
        call_ensures(clear_manual_config, (&iface_addrs, v4), step),
    ensures
        ({
            let addrs = iface_addrs@;
            &&& step is RetainRoutes <==> forall|i: int|
                0 <= i < addrs.len() ==> !is_by_hand(#[trigger] addrs[i], v4)
            &&& step matches ClearStep::RemoveIpAddr(address) ==> exists|k: int|
                0 <= k < addrs.len() && #[trigger] is_by_hand(addrs[k], v4) && match (
                    addrs[k].cidr,
                    address,
                ) {
                    (IpCidr::Ipv4(cidr), IpAddress::Ipv4(address)) => address == cidr.address,
                    (IpCidr::Ipv6(cidr), IpAddress::Ipv6(address)) => address == cidr.address,
                    _ => false,
                } && forall|i: int| 0 <= i < k ==> !is_by_hand(#[trigger] addrs[i], v4)
        }),
{
    let k = lemma_first_by_hand(iface_addrs@, v4);
    if step is RemoveIpAddr {
        assert(is_by_hand(iface_addrs@[k], v4));
    }
}

proof fn lemma_first_by_hand(addrs: Seq<IfaceAddr>, v4: bool) -> (k: int)
    ensures
        first_manual(addrs, v4) matches Some(address) ==> 0 <= k < addrs.len() && is_by_hand(
            addrs[k],
            v4,
        ) && match (addrs[k].cidr, address) {
            (IpCidr::Ipv4(cidr), IpAddress::Ipv4(address)) => address == cidr.address,
            (IpCidr::Ipv6(cidr), IpAddress::Ipv6(address)) => address == cidr.address,
            _ => false,
        } && forall|i: int| 0 <= i < k ==> !is_by_hand(#[trigger] addrs[i], v4),
        first_manual(addrs, v4) is None ==> forall|i: int|
            0 <= i < addrs.len() ==> !is_by_hand(#[trigger] addrs[i], v4),
    decreases addrs.len(),
{
    if addrs.len() == 0 {
        0
    } else if is_by_hand(addrs[0], v4) {
        0
    } else {
        let rest = addrs.drop_first();
        let k = lemma_first_by_hand(rest, v4);
        assert forall|i: int| 0 < i < addrs.len() implies #[trigger] addrs[i] == rest[i - 1] by {}
        if first_manual(rest, v4) is Some {
            assert(addrs[k + 1] == rest[k]);
            assert forall|i: int| 0 <= i < k + 1 implies !is_by_hand(#[trigger] addrs[i], v4) by {
                if i > 0 {
                    assert(addrs[i] == rest[i - 1]);
                }
            }
        }
        k + 1
    }
}

/// A route goes exactly where it was added by hand and its router is of the IP
/// version.
pub proof fn law_route_goes_by_hand(route: Route, v4: bool, keep: bool)
    requires
        call_ensures(keeps_route, (&route, v4), keep),
    ensures
        !keep <==> route.origin is Manual && (route.via_router is Ipv4 <==> v4),
{
}

/// A name is answered at once exactly where it is an address of the kind that
/// the query asks for, with that address.
pub proof fn law_literal_is_answered(
    qtype: DnsQueryType,
    as_ipv4: Option<Ipv4Address>,
    as_ipv6: Option<Ipv6Address>,
    answer: Option<IpAddress>,
)
    requires
        call_ensures(literal_answer, (qtype, as_ipv4, as_ipv6), answer),
    ensures
        qtype is A ==> (answer is Some <==> as_ipv4 is Some) && (as_ipv4 matches Some(ip)
            ==> answer == Some(IpAddress::Ipv4(ip))),
        qtype is Aaaa ==> (answer is Some <==> as_ipv6 is Some) && (as_ipv6 matches Some(ip)
            ==> answer == Some(IpAddress::Ipv6(ip))),
        qtype is Other ==> answer is None,
{
}

/// A query that was started asks for its result, under its handle. One without
/// a free slot stays as it is, and its task waits for a slot. One that fails is
/// over, with the error of the DNS client. The runner is woken in any case, and
/// nothing else changes.
pub proof fn law_start_of_a_query<H, E>(
    before: Stack,
    query: DnsQuery<H>,
    started: Result<H, StartQueryError<E>>,
    waker: Waker,
    step: DnsStart<E>,
    next: DnsQuery<H>,
    after: Stack,
)
    requires
        exists|this: &mut Stack, state: &mut DnsQuery<H>|
            *this == before && *final(this) == after && *state == query && *final(state) == next
                && call_ensures(
                Stack::dns_query_started::<H, E>,
                (this, state, started, &waker),
                step,
            ),
    ensures
        started matches Ok(handle) ==> step is GetResult && next == DnsQuery::Waiting(handle),
        started matches Err(StartQueryError::Other(error)) ==> step == DnsStart::<E>::Failed(error)
            && next is Finished,
        started is Err && started->Err_0 is NoFreeSlot <==> step is Pending,
        step is Pending ==> next is Starting && after@.dns_slot.waiter == Some(waker),
        !(step is Pending) ==> after@.dns_slot == before@.dns_slot,
        woke(before@.runner_slot, after@.runner_slot),
        after@.state_slot == before@.state_slot,
        after@.link_up == before@.link_up,
        after@.config_generation == before@.config_generation,
        after@.config_v4 == before@.config_v4,
        after@.config_v6 == before@.config_v6,
        after@.timestamps == before@.timestamps,
        after@.room_slot == before@.room_slot,
        after@.timestamp_slot == before@.timestamp_slot,
{
}

/// A query whose answer has not come stays as it is. Any other is over, with the
/// answer or the error of the DNS client, and whoever waits for a slot is woken.
/// The runner is woken in any case, and nothing else changes.
pub proof fn law_result_of_a_query<H, A, E>(
    before: Stack,
    query: DnsQuery<H>,
    result: Result<A, GetQueryResultError<E>>,
    step: DnsProgress<A, E>,
    next: DnsQuery<H>,
    after: Stack,
)
    requires
        exists|this: &mut Stack, state: &mut DnsQuery<H>|
            *this == before && *final(this) == after && *state == query && *final(state) == next
                && call_ensures(
                Stack::dns_query_result::<H, A, E>,
                (this, state, result),
                step,
            ),
    ensures
        result matches Ok(answer) ==> step matches DnsProgress::Done(done) && done is Ok
            && done->Ok_0 == answer,
        result matches Err(GetQueryResultError::Other(error)) ==> step matches DnsProgress::Done(
            done,
        ) && done is Err && done->Err_0 == error,
        result is Err && result->Err_0 is Pending <==> step is Pending,
        step is Pending ==> next == query && after@.dns_slot == before@.dns_slot,
        step is Done ==> next is Finished && woke(before@.dns_slot, after@.dns_slot),
        woke(before@.runner_slot, after@.runner_slot),
        after@.state_slot == before@.state_slot,
        after@.link_up == before@.link_up,
        after@.config_generation == before@.config_generation,
        after@.config_v4 == before@.config_v4,
        after@.config_v6 == before@.config_v6,
        after@.timestamps == before@.timestamps,
        after@.room_slot == before@.room_slot,
        after@.timestamp_slot == before@.timestamp_slot,
{
}

/// A query that is given up while it has a slot is cancelled under its handle;
/// whoever waits for a slot is woken, and so is the runner. Otherwise there is
/// nothing to cancel, and nobody is woken. The query is over in any case.
pub proof fn law_end_of_a_dropped_query<H: Copy>(
    before: Stack,
    query: DnsQuery<H>,
    cancel: Option<H>,
    next: DnsQuery<H>,
    after: Stack,
)
    requires
        exists|this: &mut Stack, state: &mut DnsQuery<H>|
            *this == before && *final(this) == after && *state == query && *final(state) == next
                && call_ensures(Stack::dns_query_dropped::<H>, (this, state), cancel),
    ensures
        next is Finished,
        cancel is Some <==> query is Waiting,
        query matches DnsQuery::Waiting(handle) ==> cancel == Some(handle) && woke(
            before@.dns_slot,
            after@.dns_slot,
        ) && woke(before@.runner_slot, after@.runner_slot),
        cancel is None ==> after@ == before@,
        after@.state_slot == before@.state_slot,
        after@.link_up == before@.link_up,
        after@.config_generation == before@.config_generation,
        after@.config_v4 == before@.config_v4,
        after@.config_v6 == before@.config_v6,
        after@.timestamps == before@.timestamps,
        after@.room_slot == before@.room_slot,
        after@.timestamp_slot == before@.timestamp_slot,
{
}

/// Views tell what the configurations hold: each field by its own name, and the
/// DNS servers in their order.
pub proof fn law_views_tell_the_configuration(
    v4: StaticConfigV4,
    v6: StaticConfigV6,
    dhcp: DhcpConfig,
    config_v4: ConfigV4,
    config_v6: ConfigV6,
)
    ensures
        v4@.address == v4.address && v4@.gateway == v4.gateway && v4@.dns_servers == ipv4_items(
            v4.dns_servers,
        ),
        v6@.address == v6.address && v6@.gateway == v6.gateway && v6@.dns_servers == ipv6_items(
            v6.dns_servers,
        ),
        dhcp@.max_lease_duration == dhcp.max_lease_duration,
        dhcp@.ignore_naks == dhcp.ignore_naks,
        dhcp@.hostname is Some <==> dhcp.hostname is Some,
        dhcp.hostname matches Some(name) ==> dhcp@.hostname == Some(hostname_bytes(name)),
        config_v4@ is Unset <==> config_v4 is Unset,
        config_v4 matches ConfigV4::Static(set) ==> config_v4@ == ConfigV4View::Static(set@),
        config_v4 matches ConfigV4::Dhcp(set) ==> config_v4@ == ConfigV4View::Dhcp(set@),
        config_v6@ is Unset <==> config_v6 is Unset,
        config_v6@ is Slaac <==> config_v6 is Slaac,
        config_v6 matches ConfigV6::Static(set) ==> config_v6@ == ConfigV6View::Static(set@),
{
}

} // verus!
