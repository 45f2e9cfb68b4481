//! What the commands of the configuration logic mean, and what follows.
//!
//! The model holds what an interface shows of its configuration. It says what
//! each command asks for; an interface that carries the commands out in this
//! sense reports the configuration that the user asked for.
use vstd::prelude::*;

use crate::config::{
    ConfigV4View, ConfigV6View, DhcpConfigView, StaticConfigV4View, StaticConfigV6View,
};
use crate::iface::{
    first_ipv4, first_ipv6, first_manual, is_manual_addr, is_manual_route, AddrOrigin, IfaceAddr,
    IfaceCommandView, IfaceState, Route, RouteOrigin,
};
use crate::stack::{
    config_v4_commands, config_v6_commands, reported_v4, reported_v6, InnerView,
};
use crate::wire::{IpAddress, IpCidr};

verus! {

/// What an interface shows of its configuration.
#[verifier::ext_equal]
pub ghost struct IfaceModel {
    pub addrs: Seq<IfaceAddr>,
    pub default_ipv4_route: Option<Route>,
    pub default_ipv6_route: Option<Route>,
    pub dhcpv4: Option<DhcpConfigView>,
    pub slaac: bool,
}

/// The addresses that stay when the manual addresses of one IP version go.
pub open spec fn without_manual(addrs: Seq<IfaceAddr>, v4: bool) -> Seq<IfaceAddr> {
    addrs.filter(|addr: IfaceAddr| !is_manual_addr(addr, v4))
}

/// The addresses that stay when one address goes.
pub open spec fn without_address(addrs: Seq<IfaceAddr>, address: IpAddress) -> Seq<IfaceAddr> {
    addrs.filter(|addr: IfaceAddr| addr.cidr.spec_address() != address)
}

/// The route, unless it goes with the manual configuration of one IP version.
pub open spec fn without_manual_route(route: Option<Route>, v4: bool) -> Option<Route> {
    match route {
        Some(route) => if is_manual_route(route, v4) {
            None
        } else {
            Some(route)
        },
        None => None,
    }
}

impl IfaceModel {
    /// The interface after a command was carried out.
    pub open spec fn perform(self, command: IfaceCommandView) -> Self {
        match command {
            IfaceCommandView::SetDhcpv4(config) => IfaceModel { dhcpv4: config, ..self },
            IfaceCommandView::SetSlaac(on) => IfaceModel { slaac: on, ..self },
            IfaceCommandView::ClearManual { v4 } => IfaceModel {
                addrs: without_manual(self.addrs, v4),
                default_ipv4_route: without_manual_route(self.default_ipv4_route, v4),
                default_ipv6_route: without_manual_route(self.default_ipv6_route, v4),
                ..self
            },
            IfaceCommandView::AddIpAddr(cidr) => IfaceModel {
                addrs: self.addrs.push(IfaceAddr { cidr, origin: AddrOrigin::Manual }),
                ..self
            },
            IfaceCommandView::AddDefaultRoute(router) => {
                let route = Some(Route { via_router: router, origin: RouteOrigin::Manual });
                match router {
                    IpAddress::Ipv4(_) => IfaceModel { default_ipv4_route: route, ..self },
                    IpAddress::Ipv6(_) => IfaceModel { default_ipv6_route: route, ..self },
                }
            },
        }
    }

    /// The interface after the commands were carried out, first to last.
    pub open spec fn perform_all(self, commands: Seq<IfaceCommandView>) -> Self
        decreases commands.len(),
    {
        if commands.len() == 0 {
            self
        } else {
            self.perform_all(commands.drop_last()).perform(commands.last())
        }
    }

    /// `iface` is what is read of this interface.
    pub open spec fn reads_as(self, iface: IfaceState) -> bool {
        &&& iface.addrs@ == self.addrs
        &&& iface.default_ipv4_router == match self.default_ipv4_route {
            Some(route) => Some(route.via_router),
            None => None,
        }
        &&& iface.default_ipv6_router == match self.default_ipv6_route {
            Some(route) => Some(route.via_router),
            None => None,
        }
    }

    /// All IPv4 addresses were assigned by hand.
    pub open spec fn ipv4_is_manual(self) -> bool {
        forall|i: int|
            0 <= i < self.addrs.len() && (#[trigger] self.addrs[i]).cidr is Ipv4
                ==> self.addrs[i].origin == AddrOrigin::Manual
    }

    /// All IPv6 addresses but those derived from the hardware address were
    /// assigned by hand.
    pub open spec fn ipv6_is_manual(self) -> bool {
        forall|i: int|
            0 <= i < self.addrs.len() && (#[trigger] self.addrs[i]).cidr is Ipv6
                && self.addrs[i].origin != AddrOrigin::LinkLocal ==> self.addrs[i].origin
                == AddrOrigin::Manual
    }
}

proof fn lemma_perform_push(
    model: IfaceModel,
    commands: Seq<IfaceCommandView>,
    command: IfaceCommandView,
)
    ensures
        model.perform_all(commands.push(command)) == model.perform_all(commands).perform(command),
{
    assert(commands.push(command).drop_last() =~= commands);
}

proof fn lemma_perform_concat(
    model: IfaceModel,
    first: Seq<IfaceCommandView>,
    second: Seq<IfaceCommandView>,
)
    ensures
        model.perform_all(first + second) == model.perform_all(first).perform_all(second),
    decreases second.len(),
{
    if second.len() == 0 {
        assert(first + second =~= first);
    } else {
        assert((first + second).drop_last() =~= first + second.drop_last());
        lemma_perform_concat(model, first, second.drop_last());
    }
}

/// What an IPv4 configuration makes of the interface.
proof fn lemma_v4_effect(model: IfaceModel, config: ConfigV4View)
    ensures
        ({
            let after = model.perform_all(config_v4_commands(config));
            let cleared = without_manual(model.addrs, true);
            let route = without_manual_route(model.default_ipv4_route, true);
            &&& after.slaac == model.slaac
            &&& after.default_ipv6_route == without_manual_route(model.default_ipv6_route, true)
            &&& match config {
                ConfigV4View::Unset => after.addrs == cleared && after.default_ipv4_route == route
                    && after.dhcpv4 is None,
                ConfigV4View::Static(c) => {
                    &&& after.addrs == cleared.push(
                        IfaceAddr { cidr: IpCidr::Ipv4(c.address), origin: AddrOrigin::Manual },
                    )
                    &&& after.default_ipv4_route == match c.gateway {
                        Some(gateway) => Some(
                            Route {
                                via_router: IpAddress::Ipv4(gateway),
                                origin: RouteOrigin::Manual,
                            },
                        ),
                        None => route,
                    }
                    &&& after.dhcpv4 is None
                },
                ConfigV4View::Dhcp(c) => after.addrs == cleared && after.default_ipv4_route
                    == route && after.dhcpv4 == Some(c),
            }
        }),
{
    let first = seq![IfaceCommandView::SetDhcpv4(None)];
    let cleared = seq![
        IfaceCommandView::SetDhcpv4(None),
        IfaceCommandView::ClearManual { v4: true },
    ];
    lemma_perform_push(model, Seq::empty(), IfaceCommandView::SetDhcpv4(None));
    lemma_perform_push(model, first, IfaceCommandView::ClearManual { v4: true });
    assert(Seq::<IfaceCommandView>::empty().push(IfaceCommandView::SetDhcpv4(None)) =~= first);
    assert(first.push(IfaceCommandView::ClearManual { v4: true }) =~= cleared);
    match config {
        ConfigV4View::Unset => {},
        ConfigV4View::Static(c) => {
            let add = IfaceCommandView::AddIpAddr(IpCidr::Ipv4(c.address));
            lemma_perform_push(model, cleared, add);
            if let Some(gateway) = c.gateway {
                lemma_perform_push(
                    model,
                    cleared.push(add),
                    IfaceCommandView::AddDefaultRoute(IpAddress::Ipv4(gateway)),
                );
            }
        },
        ConfigV4View::Dhcp(c) => {
            lemma_perform_push(model, cleared, IfaceCommandView::SetDhcpv4(Some(c)));
        },
    }
}

/// What an IPv6 configuration makes of the interface.
proof fn lemma_v6_effect(model: IfaceModel, config: ConfigV6View)
    ensures
        ({
            let after = model.perform_all(config_v6_commands(config));
            let cleared = without_manual(model.addrs, false);
            let route = without_manual_route(model.default_ipv6_route, false);
            &&& after.dhcpv4 == model.dhcpv4
            &&& after.default_ipv4_route == without_manual_route(model.default_ipv4_route, false)
            &&& match config {
                ConfigV6View::Unset => after.addrs == cleared && after.default_ipv6_route == route
                    && !after.slaac,
                ConfigV6View::Static(c) => {
                    &&& after.addrs == cleared.push(
                        IfaceAddr { cidr: IpCidr::Ipv6(c.address), origin: AddrOrigin::Manual },
                    )
                    &&& after.default_ipv6_route == match c.gateway {
                        Some(gateway) => Some(
                            Route {
                                via_router: IpAddress::Ipv6(gateway),
                                origin: RouteOrigin::Manual,
                            },
                        ),
                        None => route,
                    }
                    &&& !after.slaac
                },
                ConfigV6View::Slaac => after.addrs == cleared && after.default_ipv6_route == route
                    && after.slaac,
            }
        }),
{
    let first = seq![IfaceCommandView::SetSlaac(false)];
    let cleared = seq![
        IfaceCommandView::SetSlaac(false),
        IfaceCommandView::ClearManual { v4: false },
    ];
    lemma_perform_push(model, Seq::empty(), IfaceCommandView::SetSlaac(false));
    lemma_perform_push(model, first, IfaceCommandView::ClearManual { v4: false });
    assert(Seq::<IfaceCommandView>::empty().push(IfaceCommandView::SetSlaac(false)) =~= first);
    assert(first.push(IfaceCommandView::ClearManual { v4: false }) =~= cleared);
    match config {
        ConfigV6View::Unset => {},
        ConfigV6View::Static(c) => {
            let add = IfaceCommandView::AddIpAddr(IpCidr::Ipv6(c.address));
            lemma_perform_push(model, cleared, add);
            if let Some(gateway) = c.gateway {
                lemma_perform_push(
                    model,
                    cleared.push(add),
                    IfaceCommandView::AddDefaultRoute(IpAddress::Ipv6(gateway)),
                );
            }
        },
        ConfigV6View::Slaac => {
            lemma_perform_push(model, cleared, IfaceCommandView::SetSlaac(true));
        },
    }
}

/// Filtering with a weaker condition first makes no difference.
proof fn lemma_filter_twice<A>(s: Seq<A>, weak: spec_fn(A) -> bool, strong: spec_fn(A) -> bool)
    requires
        forall|i: int| 0 <= i < s.len() && strong(#[trigger] s[i]) ==> weak(s[i]),
    ensures
        s.filter(weak).filter(strong) == s.filter(strong),
    decreases s.len(),
{
    reveal(Seq::filter);
    if s.len() > 0 {
        let rest = s.drop_last();
        assert forall|i: int| 0 <= i < rest.len() && strong(#[trigger] rest[i]) implies weak(
            rest[i],
        ) by {
            assert(rest[i] == s[i]);
        }
        lemma_filter_twice(rest, weak, strong);
        if weak(s.last()) {
            let kept = rest.filter(weak);
            assert(kept.push(s.last()).drop_last() =~= kept);
        }
    }
}

/// Filtering a longer sequence filters its last item too.
proof fn lemma_filter_push<A>(s: Seq<A>, item: A, keep: spec_fn(A) -> bool)
    ensures
        s.push(item).filter(keep) == if keep(item) {
            s.filter(keep).push(item)
        } else {
            s.filter(keep)
        },
{
    reveal(Seq::filter);
    assert(s.push(item).drop_last() =~= s);
}

/// What stays of a sequence is in it, and meets the condition.
proof fn lemma_filter_items<A>(s: Seq<A>, keep: spec_fn(A) -> bool)
    ensures
        forall|i: int|
            0 <= i < s.filter(keep).len() ==> keep(#[trigger] s.filter(keep)[i]) && s.contains(
                s.filter(keep)[i],
            ),
    decreases s.len(),
{
    reveal(Seq::filter);
    if s.len() > 0 {
        let rest = s.drop_last();
        lemma_filter_items(rest, keep);
        assert forall|i: int| 0 <= i < s.filter(keep).len() implies keep(
            #[trigger] s.filter(keep)[i],
        ) && s.contains(s.filter(keep)[i]) by {
            let kept = rest.filter(keep);
            if i < kept.len() {
                assert(s.filter(keep)[i] == kept[i]);
                assert(rest.contains(kept[i]));
                let k = choose|k: int| 0 <= k < rest.len() && rest[k] == kept[i];
                assert(s[k] == kept[i]);
            } else {
                assert(s.filter(keep)[i] == s.last());
                assert(s[s.len() - 1] == s.last());
            }
        }
    }
}

proof fn lemma_first_ipv4_push(addrs: Seq<IfaceAddr>, addr: IfaceAddr)
    ensures
        first_ipv4(addrs.push(addr)) == match first_ipv4(addrs) {
            Some(cidr) => Some(cidr),
            None => match addr.cidr {
                IpCidr::Ipv4(cidr) => Some(cidr),
                IpCidr::Ipv6(_) => None,
            },
        },
    decreases addrs.len(),
{
    reveal_with_fuel(first_ipv4, 2);
    if addrs.len() == 0 {
        assert(addrs.push(addr).drop_first() =~= Seq::empty());
    } else {
        assert(addrs.push(addr).drop_first() =~= addrs.drop_first().push(addr));
        lemma_first_ipv4_push(addrs.drop_first(), addr);
    }
}

proof fn lemma_first_ipv6_push(addrs: Seq<IfaceAddr>, addr: IfaceAddr)
    ensures
        first_ipv6(addrs.push(addr)) == match first_ipv6(addrs) {
            Some(cidr) => Some(cidr),
            None => match (addr.cidr, addr.origin) {
                (_, AddrOrigin::LinkLocal) => None,
                (IpCidr::Ipv6(cidr), _) => Some(cidr),
                _ => None,
            },
        },
    decreases addrs.len(),
{
    reveal_with_fuel(first_ipv6, 2);
    if addrs.len() == 0 {
        assert(addrs.push(addr).drop_first() =~= Seq::empty());
    } else {
        assert(addrs.push(addr).drop_first() =~= addrs.drop_first().push(addr));
        lemma_first_ipv6_push(addrs.drop_first(), addr);
    }
}

/// The interface has an IPv4 address exactly where the first one is found.
proof fn lemma_first_ipv4_exists(addrs: Seq<IfaceAddr>)
    ensures
        first_ipv4(addrs) is Some <==> exists|i: int|
            0 <= i < addrs.len() && (#[trigger] addrs[i]).cidr is Ipv4,
    decreases addrs.len(),
{
    if addrs.len() > 0 {
        let rest = addrs.drop_first();
        lemma_first_ipv4_exists(rest);
        if addrs.first().cidr is Ipv4 {
            assert(addrs[0].cidr is Ipv4);
        } else if first_ipv4(rest) is Some {
            let i = choose|i: int| 0 <= i < rest.len() && (#[trigger] rest[i]).cidr is Ipv4;
            assert(addrs[i + 1].cidr is Ipv4);
        } else {
            assert forall|i: int| 0 <= i < addrs.len() implies !((
            #[trigger] addrs[i]).cidr is Ipv4) by {
                if i > 0 {
                    assert(addrs[i] == rest[i - 1]);
                }
            }
        }
    }
}

/// The interface has an IPv6 address that is not derived from the hardware
/// address exactly where the first one is found.
proof fn lemma_first_ipv6_exists(addrs: Seq<IfaceAddr>)
    ensures
        first_ipv6(addrs) is Some <==> exists|i: int|
            0 <= i < addrs.len() && (#[trigger] addrs[i]).cidr is Ipv6 && addrs[i].origin
                != AddrOrigin::LinkLocal,
    decreases addrs.len(),
{
    if addrs.len() > 0 {
        let rest = addrs.drop_first();
        lemma_first_ipv6_exists(rest);
        if addrs.first().cidr is Ipv6 && addrs.first().origin != AddrOrigin::LinkLocal {
            assert(addrs[0].cidr is Ipv6);
        } else if first_ipv6(rest) is Some {
            let i = choose|i: int|
                0 <= i < rest.len() && (#[trigger] rest[i]).cidr is Ipv6 && rest[i].origin
                    != AddrOrigin::LinkLocal;
            assert(addrs[i + 1].cidr is Ipv6);
        } else {
            assert forall|i: int| 0 <= i < addrs.len() implies !((
            #[trigger] addrs[i]).cidr is Ipv6 && addrs[i].origin != AddrOrigin::LinkLocal) by {
                if i > 0 {
                    assert(addrs[i] == rest[i - 1]);
                }
            }
        }
    }
}

/// Removing the manual addresses of the other IP version keeps the first IPv4
/// address.
proof fn lemma_first_ipv4_survives(addrs: Seq<IfaceAddr>)
    ensures
        first_ipv4(without_manual(addrs, false)) == first_ipv4(addrs),
    decreases addrs.len(),
{
    let keep = |addr: IfaceAddr| !is_manual_addr(addr, false);
    reveal(Seq::filter);
    if addrs.len() > 0 {
        let rest = addrs.drop_last();
        lemma_first_ipv4_survives(rest);
        assert(rest.push(addrs.last()) =~= addrs);
        lemma_filter_push(rest, addrs.last(), keep);
        lemma_first_ipv4_push(rest, addrs.last());
        lemma_first_ipv4_push(rest.filter(keep), addrs.last());
    }
}

/// Removing the manual addresses of the other IP version keeps the first IPv6
/// address.
proof fn lemma_first_ipv6_survives(addrs: Seq<IfaceAddr>)
    ensures
        first_ipv6(without_manual(addrs, true)) == first_ipv6(addrs),
    decreases addrs.len(),
{
    let keep = |addr: IfaceAddr| !is_manual_addr(addr, true);
    reveal(Seq::filter);
    if addrs.len() > 0 {
        let rest = addrs.drop_last();
        lemma_first_ipv6_survives(rest);
        assert(rest.push(addrs.last()) =~= addrs);
        lemma_filter_push(rest, addrs.last(), keep);
        lemma_first_ipv6_push(rest, addrs.last());
        lemma_first_ipv6_push(rest.filter(keep), addrs.last());
    }
}

/// No IPv4 address is left once the manual ones are gone.
proof fn lemma_manual_ipv4_is_gone(model: IfaceModel)
    requires
        model.ipv4_is_manual(),
    ensures
        first_ipv4(without_manual(model.addrs, true)) is None,
{
    let keep = |addr: IfaceAddr| !is_manual_addr(addr, true);
    let left = model.addrs.filter(keep);
    lemma_filter_items(model.addrs, keep);
    lemma_first_ipv4_exists(left);
    if first_ipv4(left) is Some {
        let i = choose|i: int| 0 <= i < left.len() && (#[trigger] left[i]).cidr is Ipv4;
        assert(keep(left[i]) && model.addrs.contains(left[i]));
        let k = choose|k: int| 0 <= k < model.addrs.len() && model.addrs[k] == left[i];
        assert(model.addrs[k].cidr is Ipv4);
    }
}

/// No reported IPv6 address is left once the manual ones are gone.
proof fn lemma_manual_ipv6_is_gone(model: IfaceModel)
    requires
        model.ipv6_is_manual(),
    ensures
        first_ipv6(without_manual(model.addrs, false)) is None,
{
    let keep = |addr: IfaceAddr| !is_manual_addr(addr, false);
    let left = model.addrs.filter(keep);
    lemma_filter_items(model.addrs, keep);
    lemma_first_ipv6_exists(left);
    if first_ipv6(left) is Some {
        let i = choose|i: int|
            0 <= i < left.len() && (#[trigger] left[i]).cidr is Ipv6 && left[i].origin
                != AddrOrigin::LinkLocal;
        assert(keep(left[i]) && model.addrs.contains(left[i]));
        let k = choose|k: int| 0 <= k < model.addrs.len() && model.addrs[k] == left[i];
        assert(model.addrs[k].cidr is Ipv6);
    }
}

/// A static IPv4 configuration is reported as it was set, address, gateway and
/// DNS servers, on an interface whose IPv4 addresses come from no protocol. One
/// without a gateway needs that no default IPv4 route comes from a protocol
/// either.
pub proof fn law_static_v4_is_reported(
    model: IfaceModel,
    config: StaticConfigV4View,
    iface: IfaceState,
)
    requires
        model.ipv4_is_manual(),
        config.gateway is None ==> without_manual_route(model.default_ipv4_route, true) is None,
        model.perform_all(config_v4_commands(ConfigV4View::Static(config))).reads_as(iface),
    ensures
        reported_v4(ConfigV4View::Static(config), iface) == Some(config),
{
    lemma_v4_effect(model, ConfigV4View::Static(config));
    lemma_manual_ipv4_is_gone(model);
    lemma_first_ipv4_push(
        without_manual(model.addrs, true),
        IfaceAddr { cidr: IpCidr::Ipv4(config.address), origin: AddrOrigin::Manual },
    );
}

/// A static IPv6 configuration is reported as it was set, address, gateway and
/// DNS servers, on an interface whose IPv6 addresses come from no protocol but
/// for the one derived from the hardware address. One without a gateway needs
/// that no default IPv6 route comes from a protocol either.
pub proof fn law_static_v6_is_reported(
    model: IfaceModel,
    config: StaticConfigV6View,
    iface: IfaceState,
)
    requires
        model.ipv6_is_manual(),
        config.gateway is None ==> without_manual_route(model.default_ipv6_route, false) is None,
        model.perform_all(config_v6_commands(ConfigV6View::Static(config))).reads_as(iface),
    ensures
        reported_v6(ConfigV6View::Static(config), iface) == Some(config),
{
    lemma_v6_effect(model, ConfigV6View::Static(config));
    lemma_manual_ipv6_is_gone(model);
    lemma_first_ipv6_push(
        without_manual(model.addrs, false),
        IfaceAddr { cidr: IpCidr::Ipv6(config.address), origin: AddrOrigin::Manual },
    );
}

/// Taking the configuration of an IP version away leaves none to report, on an
/// interface whose addresses of that version come from no protocol.
pub proof fn law_unset_is_not_reported(model: IfaceModel, v4: IfaceState, v6: IfaceState)
    ensures
        model.ipv4_is_manual() && model.perform_all(
            config_v4_commands(ConfigV4View::Unset),
        ).reads_as(v4) ==> reported_v4(ConfigV4View::Unset, v4) is None,
        model.ipv6_is_manual() && model.perform_all(
            config_v6_commands(ConfigV6View::Unset),
        ).reads_as(v6) ==> reported_v6(ConfigV6View::Unset, v6) is None,
{
    lemma_v4_effect(model, ConfigV4View::Unset);
    lemma_v6_effect(model, ConfigV6View::Unset);
    if model.ipv4_is_manual() {
        lemma_manual_ipv4_is_gone(model);
    }
    if model.ipv6_is_manual() {
        lemma_manual_ipv6_is_gone(model);
    }
}

/// An IPv4 configuration is in force exactly where the interface has an IPv4
/// address, an IPv6 configuration exactly where it has an IPv6 address that is
/// not derived from the hardware address. With DHCP, for one, there is none
/// until an address was acquired.
pub proof fn law_config_is_up_with_an_address(
    v4: ConfigV4View,
    v6: ConfigV6View,
    iface: IfaceState,
)
    ensures
        reported_v4(v4, iface) is Some <==> exists|i: int|
            0 <= i < iface.addrs@.len() && (#[trigger] iface.addrs@[i]).cidr is Ipv4,
        reported_v6(v6, iface) is Some <==> exists|i: int|
            0 <= i < iface.addrs@.len() && (#[trigger] iface.addrs@[i]).cidr is Ipv6
                && iface.addrs@[i].origin != AddrOrigin::LinkLocal,
{
    lemma_first_ipv4_exists(iface.addrs@);
    lemma_first_ipv6_exists(iface.addrs@);
}

/// Setting the configuration of one IP version leaves that of the other as it
/// was, provided that the default route of the other is not a manual one to a
/// router of the version that is set.
pub proof fn law_versions_are_independent(
    model: IfaceModel,
    before: IfaceState,
    set_v4: ConfigV4View,
    after_v4: IfaceState,
    set_v6: ConfigV6View,
    after_v6: IfaceState,
    kept_v4: ConfigV4View,
    kept_v6: ConfigV6View,
)
    requires
        model.reads_as(before),
        model.default_ipv4_route matches Some(route) ==> !is_manual_route(route, false),
        model.default_ipv6_route matches Some(route) ==> !is_manual_route(route, true),
        model.perform_all(config_v4_commands(set_v4)).reads_as(after_v4),
        model.perform_all(config_v6_commands(set_v6)).reads_as(after_v6),
        before.lease_dns_servers == after_v6.lease_dns_servers,
    ensures
        reported_v6(kept_v6, after_v4) == reported_v6(kept_v6, before),
        model.perform_all(config_v4_commands(set_v4)).slaac == model.slaac,
        reported_v4(kept_v4, after_v6) == reported_v4(kept_v4, before),
        model.perform_all(config_v6_commands(set_v6)).dhcpv4 == model.dhcpv4,
{
    lemma_v4_effect(model, set_v4);
    lemma_v6_effect(model, set_v6);
    lemma_first_ipv6_survives(model.addrs);
    lemma_first_ipv4_survives(model.addrs);
    if let ConfigV4View::Static(c) = set_v4 {
        lemma_first_ipv6_push(
            without_manual(model.addrs, true),
            IfaceAddr { cidr: IpCidr::Ipv4(c.address), origin: AddrOrigin::Manual },
        );
    }
    if let ConfigV6View::Static(c) = set_v6 {
        lemma_first_ipv4_push(
            without_manual(model.addrs, false),
            IfaceAddr { cidr: IpCidr::Ipv6(c.address), origin: AddrOrigin::Manual },
        );
    }
}

/// The configuration sets a default IPv4 route.
pub open spec fn has_v4_gateway(config: ConfigV4View) -> bool {
    config matches ConfigV4View::Static(config) && config.gateway is Some
}

/// The configuration sets a default IPv6 route.
pub open spec fn has_v6_gateway(config: ConfigV6View) -> bool {
    config matches ConfigV6View::Static(config) && config.gateway is Some
}

/// A new IPv4 configuration leaves nothing of the one that it replaces: the
/// interface is as if the replaced one had never been set. Where only the
/// replaced one has a gateway, no protocol may have set a default IPv4 route
/// that the gateway took the place of.
pub proof fn law_new_v4_config_replaces_old(
    model: IfaceModel,
    replaced: ConfigV4View,
    config: ConfigV4View,
)
    requires
        has_v4_gateway(replaced) && !has_v4_gateway(config) ==> without_manual_route(
            model.default_ipv4_route,
            true,
        ) is None,
    ensures
        model.perform_all(config_v4_commands(replaced) + config_v4_commands(config))
            == model.perform_all(config_v4_commands(config)),
{
    let between = model.perform_all(config_v4_commands(replaced));
    lemma_perform_concat(model, config_v4_commands(replaced), config_v4_commands(config));
    lemma_v4_effect(model, replaced);
    lemma_v4_effect(model, config);
    lemma_v4_effect(between, config);
    let keep = |addr: IfaceAddr| !is_manual_addr(addr, true);
    lemma_filter_twice(model.addrs, keep, keep);
    if let ConfigV4View::Static(c) = replaced {
        lemma_filter_push(
            model.addrs.filter(keep),
            IfaceAddr { cidr: IpCidr::Ipv4(c.address), origin: AddrOrigin::Manual },
            keep,
        );
    }
    assert(without_manual(between.addrs, true) == without_manual(model.addrs, true));
}

/// A new IPv6 configuration leaves nothing of the one that it replaces: the
/// interface is as if the replaced one had never been set. Where only the
/// replaced one has a gateway, no protocol may have set a default IPv6 route
/// that the gateway took the place of.
pub proof fn law_new_v6_config_replaces_old(
    model: IfaceModel,
    replaced: ConfigV6View,
    config: ConfigV6View,
)
    requires
        has_v6_gateway(replaced) && !has_v6_gateway(config) ==> without_manual_route(
            model.default_ipv6_route,
            false,
        ) is None,
    ensures
        model.perform_all(config_v6_commands(replaced) + config_v6_commands(config))
            == model.perform_all(config_v6_commands(config)),
{
    let between = model.perform_all(config_v6_commands(replaced));
    lemma_perform_concat(model, config_v6_commands(replaced), config_v6_commands(config));
    lemma_v6_effect(model, replaced);
    lemma_v6_effect(model, config);
    lemma_v6_effect(between, config);
    let keep = |addr: IfaceAddr| !is_manual_addr(addr, false);
    lemma_filter_twice(model.addrs, keep, keep);
    if let ConfigV6View::Static(c) = replaced {
        lemma_filter_push(
            model.addrs.filter(keep),
            IfaceAddr { cidr: IpCidr::Ipv6(c.address), origin: AddrOrigin::Manual },
            keep,
        );
    }
    assert(without_manual(between.addrs, false) == without_manual(model.addrs, false));
}

/// No two addresses of the interface are the same.
pub open spec fn addresses_differ(addrs: Seq<IfaceAddr>) -> bool {
    forall|i: int, j: int|
        0 <= i < j < addrs.len() ==> (#[trigger] addrs[i]).cidr.spec_address() != (
        #[trigger] addrs[j]).cidr.spec_address()
}

/// The addresses that are left after this many steps of clearing the manual
/// addresses of one IP version, each of which removes the address that it is
/// told to, if it is told to.
pub open spec fn after_clear_steps(addrs: Seq<IfaceAddr>, v4: bool, steps: nat) -> Seq<IfaceAddr>
    decreases steps,
{
    if steps == 0 {
        addrs
    } else {
        match first_manual(addrs, v4) {
            Some(address) => after_clear_steps(
                without_address(addrs, address),
                v4,
                (steps - 1) as nat,
            ),
            None => addrs,
        }
    }
}

/// The first manual address is an address of the interface.
proof fn lemma_first_manual_is_there(addrs: Seq<IfaceAddr>, v4: bool) -> (index: int)
    ensures
        first_manual(addrs, v4) matches Some(address) ==> 0 <= index < addrs.len()
            && is_manual_addr(addrs[index], v4) && addrs[index].cidr.spec_address() == address,
        first_manual(addrs, v4) is None ==> forall|i: int|
            0 <= i < addrs.len() ==> !is_manual_addr(#[trigger] addrs[i], v4),
    decreases addrs.len(),
{
    if addrs.len() == 0 {
        0
    } else if is_manual_addr(addrs.first(), v4) {
        0
    } else {
        let rest = addrs.drop_first();
        let index = lemma_first_manual_is_there(rest, v4);
        assert forall|i: int| first_manual(addrs, v4) is None && 0 <= i < addrs.len() implies
            !is_manual_addr(#[trigger] addrs[i], v4) by {
            if i > 0 {
                assert(addrs[i] == rest[i - 1]);
            }
        }
        index + 1
    }
}

/// A sequence that meets the condition throughout stays as it is.
proof fn lemma_filter_all<A>(s: Seq<A>, keep: spec_fn(A) -> bool)
    requires
        forall|i: int| 0 <= i < s.len() ==> keep(#[trigger] s[i]),
    ensures
        s.filter(keep) == s,
    decreases s.len(),
{
    reveal(Seq::filter);
    if s.len() > 0 {
        assert(s[s.len() - 1] == s.last());
        let rest = s.drop_last();
        assert forall|i: int| 0 <= i < rest.len() implies keep(#[trigger] rest[i]) by {
            assert(rest[i] == s[i]);
        }
        lemma_filter_all(rest, keep);
        assert(rest.push(s.last()) =~= s);
    }
}

/// A sequence with an item that does not meet the condition gets shorter.
proof fn lemma_filter_shortens<A>(s: Seq<A>, keep: spec_fn(A) -> bool, index: int)
    requires
        0 <= index < s.len(),
        !keep(s[index]),
    ensures
        s.filter(keep).len() < s.len(),
    decreases s.len(),
{
    reveal(Seq::filter);
    let rest = s.drop_last();
    if index < rest.len() {
        lemma_filter_shortens(rest, keep, index);
    } else {
        rest.lemma_filter_len(keep);
    }
}

/// Addresses that differ still do when some are gone.
proof fn lemma_filter_keeps_difference(addrs: Seq<IfaceAddr>, keep: spec_fn(IfaceAddr) -> bool)
    requires
        addresses_differ(addrs),
    ensures
        addresses_differ(addrs.filter(keep)),
    decreases addrs.len(),
{
    reveal(Seq::filter);
    if addrs.len() > 0 {
        let rest = addrs.drop_last();
        assert forall|i: int, j: int| 0 <= i < j < rest.len() implies (
        #[trigger] rest[i]).cidr.spec_address() != (#[trigger] rest[j]).cidr.spec_address() by {
            assert(rest[i] == addrs[i] && rest[j] == addrs[j]);
        }
        lemma_filter_keeps_difference(rest, keep);
        lemma_filter_items(rest, keep);
        let kept = rest.filter(keep);
        let all = addrs.filter(keep);
        assert forall|i: int, j: int| 0 <= i < j < all.len() implies (
        #[trigger] all[i]).cidr.spec_address() != (#[trigger] all[j]).cidr.spec_address() by {
            if j < kept.len() {
                assert(all[i] == kept[i] && all[j] == kept[j]);
            } else {
                assert(all[i] == kept[i] && all[j] == addrs.last());
                assert(rest.contains(kept[i]));
                let k = choose|k: int| 0 <= k < rest.len() && rest[k] == kept[i];
                assert(addrs[k] == kept[i]);
                assert(addrs[addrs.len() - 1] == addrs.last());
            }
        }
    }
}

/// Clearing step by step removes the manual addresses of the IP version, all of
/// them and no others, in no more steps than there are addresses. It keeps the
/// order of the others. The addresses of the interface have to differ, as each
/// step names one by its address.
pub proof fn law_clear_removes_exactly_the_manual(addrs: Seq<IfaceAddr>, v4: bool, steps: nat)
    requires
        addresses_differ(addrs),
        steps >= addrs.len(),
    ensures
        after_clear_steps(addrs, v4, steps) == without_manual(addrs, v4),
        first_manual(without_manual(addrs, v4), v4) is None,
    decreases steps,
{
    let keep = |addr: IfaceAddr| !is_manual_addr(addr, v4);
    let left = addrs.filter(keep);
    lemma_filter_items(addrs, keep);
    let index = lemma_first_manual_is_there(left, v4);
    if first_manual(left, v4) is Some {
        assert(keep(left[index]));
    }
    let index = lemma_first_manual_is_there(addrs, v4);
    match first_manual(addrs, v4) {
        Some(address) => {
            let other = |addr: IfaceAddr| addr.cidr.spec_address() != address;
            assert forall|i: int| 0 <= i < addrs.len() && keep(#[trigger] addrs[i]) implies other(
                addrs[i],
            ) by {
                if addrs[i].cidr.spec_address() == address && i != index {
                    if i < index {
                        assert(addrs[i].cidr.spec_address() != addrs[index].cidr.spec_address());
                    } else {
                        assert(addrs[index].cidr.spec_address() != addrs[i].cidr.spec_address());
                    }
                }
            }
            lemma_filter_twice(addrs, other, keep);
            lemma_filter_shortens(addrs, other, index);
            lemma_filter_keeps_difference(addrs, other);
            law_clear_removes_exactly_the_manual(
                without_address(addrs, address),
                v4,
                (steps - 1) as nat,
            );
        },
        None => {
            lemma_filter_all(addrs, keep);
        },
    }
}

/// The DNS servers of a static IPv6 configuration reach the DNS client on an
/// interface without IPv4 address: exactly those, in their order, as many as it
/// takes.
pub proof fn law_ipv6_servers_need_no_ipv4(
    model: IfaceModel,
    config: StaticConfigV6View,
    iface: IfaceState,
    view: InnerView,
    max_dns_servers: int,
)
    requires
        0 <= max_dns_servers,
        model.ipv6_is_manual(),
        model.perform_all(config_v6_commands(ConfigV6View::Static(config))).reads_as(iface),
        view.config_v6 == ConfigV6View::Static(config),
        forall|i: int| 0 <= i < model.addrs.len() ==> (#[trigger] model.addrs[i]).cidr is Ipv6,
    ensures
        ({
            let servers = view.client_servers(iface, max_dns_servers);
            let set = config.dns_servers;
            &&& servers.len() == if set.len() <= max_dns_servers {
                set.len() as int
            } else {
                max_dns_servers
            }
            &&& forall|i: int|
                0 <= i < servers.len() ==> #[trigger] servers[i] == IpAddress::Ipv6(set[i])
        }),
{
    lemma_v6_effect(model, ConfigV6View::Static(config));
    lemma_manual_ipv6_is_gone(model);
    let added = IfaceAddr { cidr: IpCidr::Ipv6(config.address), origin: AddrOrigin::Manual };
    lemma_first_ipv6_push(without_manual(model.addrs, false), added);
    lemma_first_ipv4_push(without_manual(model.addrs, false), added);
    lemma_first_ipv4_survives(model.addrs);
    lemma_first_ipv4_exists(model.addrs);
}

} // verus!
