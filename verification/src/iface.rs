//! The network interface, as far as its configuration goes.
//!
//! The interface itself belongs to the network stack. What the configuration
//! logic reads of it comes as plain values, and what it wants of it leaves as
//! commands.
use vstd::prelude::*;

use crate::config::{DhcpConfigView, DhcpOption, DHCP_OPTION_HOSTNAME};
use crate::wire::{IpAddress, IpCidr, Ipv4Address, Ipv4Cidr, Ipv6Cidr};

verus! {

/// Who assigned an address.
#[derive(Clone, Copy, Debug, PartialEq, Eq, Structural)]
pub enum AddrOrigin {
    /// The user.
    Manual,
    /// The stack, from the hardware address.
    LinkLocal,
    /// A protocol, such as DHCP or SLAAC.
    Dynamic,
}

/// An address of the interface.
#[derive(Clone, Copy, Debug, PartialEq, Eq)]
pub struct IfaceAddr {
    pub cidr: IpCidr,
    pub origin: AddrOrigin,
}

/// Who added a route.
#[derive(Clone, Copy, Debug, PartialEq, Eq, Structural)]
pub enum RouteOrigin {
    /// The user.
    Manual,
    /// A protocol, such as DHCP or SLAAC.
    Dynamic,
}

/// A route of the stack.
#[derive(Clone, Copy, Debug, PartialEq, Eq)]
pub struct Route {
    pub via_router: IpAddress,
    pub origin: RouteOrigin,
}

/// What the configuration logic reads of the interface and its stack.
#[derive(Debug, PartialEq, Eq)]
pub struct IfaceState {
    /// The addresses of the interface, in its order.
    pub addrs: Vec<IfaceAddr>,
    /// The DNS servers of the current DHCP lease, if there is a lease.
    pub lease_dns_servers: Option<Vec<Ipv4Address>>,
    /// The router of the default IPv4 route, if there is one.
    pub default_ipv4_router: Option<IpAddress>,
    /// The router of the default IPv6 route, if there is one.
    pub default_ipv6_router: Option<IpAddress>,
    /// Counts the changes of the interface's configuration.
    pub config_generation: u32,
}

/// The configuration of a DHCP client.
#[derive(Clone, Copy, Debug, PartialEq, Eq)]
pub struct DhcpClientConfig {
    pub max_lease_duration: Option<embassy_time::Duration>,
    pub ignore_naks: bool,
    /// The option to send that holds our hostname.
    pub hostname: Option<DhcpOption>,
}

impl DhcpClientConfig {
    /// The hostname travels as the option meant for it.
    pub open spec fn wf(self) -> bool {
        self.hostname matches Some(option) ==> option.wf() && option.kind == DHCP_OPTION_HOSTNAME
    }
}

impl View for DhcpClientConfig {
    type V = DhcpConfigView;

    open spec fn view(&self) -> DhcpConfigView {
        DhcpConfigView {
            max_lease_duration: self.max_lease_duration,
            ignore_naks: self.ignore_naks,
            hostname: match self.hostname {
                Some(option) => Some(option.payload()),
                None => None,
            },
        }
    }
}

/// What the configuration logic wants done to the interface.
#[derive(Clone, Copy, Debug, PartialEq, Eq)]
pub enum IfaceCommand {
    /// Replace the DHCP client, or remove it.
    SetDhcpv4(Option<DhcpClientConfig>),
    /// Turn SLAAC on with its default configuration, or off.
    SetSlaac(bool),
    /// Clear the manual configuration of one IP version, in the steps of
    /// [`clear_manual_config`].
    ClearManual { v4: bool },
    /// Add an address by hand. It is an error if there is no room for it.
    AddIpAddr(IpCidr),
    /// Add a default route by hand. It is an error if there is no room for it.
    AddDefaultRoute(IpAddress),
}

/// What a command says.
pub ghost enum IfaceCommandView {
    SetDhcpv4(Option<DhcpConfigView>),
    SetSlaac(bool),
    ClearManual { v4: bool },
    AddIpAddr(IpCidr),
    AddDefaultRoute(IpAddress),
}

impl View for IfaceCommand {
    type V = IfaceCommandView;

    open spec fn view(&self) -> IfaceCommandView {
        match *self {
            IfaceCommand::SetDhcpv4(Some(config)) => IfaceCommandView::SetDhcpv4(Some(config@)),
            IfaceCommand::SetDhcpv4(None) => IfaceCommandView::SetDhcpv4(None),
            IfaceCommand::SetSlaac(on) => IfaceCommandView::SetSlaac(on),
            IfaceCommand::ClearManual { v4 } => IfaceCommandView::ClearManual { v4 },
            IfaceCommand::AddIpAddr(cidr) => IfaceCommandView::AddIpAddr(cidr),
            IfaceCommand::AddDefaultRoute(router) => IfaceCommandView::AddDefaultRoute(router),
        }
    }
}

impl IfaceCommand {
    /// A DHCP client is told the hostname as it is meant to be sent.
    pub open spec fn wf(self) -> bool {
        self matches IfaceCommand::SetDhcpv4(Some(config)) ==> config.wf()
    }
}

/// What the commands say, in their order.
pub open spec fn commands_view(commands: Seq<IfaceCommand>) -> Seq<IfaceCommandView> {
    commands.map_values(|command: IfaceCommand| command@)
}

/// Each of the commands is well formed.
pub open spec fn commands_wf(commands: Seq<IfaceCommand>) -> bool {
    forall|i: int| 0 <= i < commands.len() ==> (#[trigger] commands[i]).wf()
}

/// The first IPv4 address of the interface.
pub open spec fn first_ipv4(addrs: Seq<IfaceAddr>) -> Option<Ipv4Cidr>
    decreases addrs.len(),
{
    if addrs.len() == 0 {
        None
    } else {
        match addrs.first().cidr {
            IpCidr::Ipv4(cidr) => Some(cidr),
            IpCidr::Ipv6(_) => first_ipv4(addrs.drop_first()),
        }
    }
}

/// The first IPv6 address of the interface that the stack did not derive from
/// the hardware address.
pub open spec fn first_ipv6(addrs: Seq<IfaceAddr>) -> Option<Ipv6Cidr>
    decreases addrs.len(),
{
    if addrs.len() == 0 {
        None
    } else {
        match (addrs.first().cidr, addrs.first().origin) {
            (_, AddrOrigin::LinkLocal) => first_ipv6(addrs.drop_first()),
            (IpCidr::Ipv6(cidr), _) => Some(cidr),
            _ => first_ipv6(addrs.drop_first()),
        }
    }
}

/// Find the first IPv4 address of the interface.
pub fn find_ipv4(addrs: &Vec<IfaceAddr>) -> (found: Option<Ipv4Cidr>)
    ensures
        found == first_ipv4(addrs@),
{
    let mut i: usize = 0;
    assert(addrs@.skip(0) =~= addrs@);
    while i < addrs.len()
        invariant
            i <= addrs@.len(),
            first_ipv4(addrs@) == first_ipv4(addrs@.skip(i as int)),
        decreases addrs@.len() - i,
    {
        assert(addrs@.skip(i as int).drop_first() =~= addrs@.skip(i + 1));
        match addrs[i].cidr {
            IpCidr::Ipv4(cidr) => {
                return Some(cidr);
            },
            IpCidr::Ipv6(_) => {},
        }
        i = i + 1;
    }
    None
}

/// Find the first IPv6 address of the interface that is not the link-local
/// address derived by the stack, which is not part of the reported config.
pub fn find_ipv6(addrs: &Vec<IfaceAddr>) -> (found: Option<Ipv6Cidr>)
    ensures
        found == first_ipv6(addrs@),
{
    let mut i: usize = 0;
    assert(addrs@.skip(0) =~= addrs@);
    while i < addrs.len()
        invariant
            i <= addrs@.len(),
            first_ipv6(addrs@) == first_ipv6(addrs@.skip(i as int)),
        decreases addrs@.len() - i,
    {
        assert(addrs@.skip(i as int).drop_first() =~= addrs@.skip(i + 1));
        match (addrs[i].cidr, addrs[i].origin) {
            (_, AddrOrigin::LinkLocal) => {},
            (IpCidr::Ipv6(cidr), _) => {
                return Some(cidr);
            },
            _ => {},
        }
        i = i + 1;
    }
    None
}

/// The address was assigned by hand and has the IP version.
pub open spec fn is_manual_addr(addr: IfaceAddr, v4: bool) -> bool {
    addr.origin == AddrOrigin::Manual && addr.cidr is Ipv4 == v4
}

/// The route was added by hand and leads to a router of the IP version.
pub open spec fn is_manual_route(route: Route, v4: bool) -> bool {
    route.origin == RouteOrigin::Manual && route.via_router is Ipv4 == v4
}

/// The first address that was assigned by hand and has the IP version.
pub open spec fn first_manual(addrs: Seq<IfaceAddr>, v4: bool) -> Option<IpAddress>
    decreases addrs.len(),
{
    if addrs.len() == 0 {
        None
    } else if is_manual_addr(addrs.first(), v4) {
        Some(addrs.first().cidr.spec_address())
    } else {
        first_manual(addrs.drop_first(), v4)
    }
}

/// One step of clearing the manual configuration of one IP version.
#[derive(Clone, Copy, Debug, PartialEq, Eq)]
pub enum ClearStep {
    /// Remove this address from the interface, then ask again.
    RemoveIpAddr(IpAddress),
    /// Keep only the routes that [`keeps_route`] keeps. This is the last step.
    RetainRoutes,
}

/// The next step of removing the manually assigned addresses of one IP version,
/// and the manual default route.
///
/// `addrs` are the addresses that the interface has now.
pub fn clear_manual_config(addrs: &Vec<IfaceAddr>, v4: bool) -> (step: ClearStep)
    ensures
        step == match first_manual(addrs@, v4) {
            Some(address) => ClearStep::RemoveIpAddr(address),
            None => ClearStep::RetainRoutes,
        },
{
    let mut i: usize = 0;
    assert(addrs@.skip(0) =~= addrs@);
    while i < addrs.len()
        invariant
            i <= addrs@.len(),
            first_manual(addrs@, v4) == first_manual(addrs@.skip(i as int), v4),
        decreases addrs@.len() - i,
    {
        assert(addrs@.skip(i as int).drop_first() =~= addrs@.skip(i + 1));
        let addr = addrs[i];
        let matches_version = match addr.cidr {
            IpCidr::Ipv4(_) => v4,
            IpCidr::Ipv6(_) => !v4,
        };
        if addr.origin == AddrOrigin::Manual && matches_version {
            return ClearStep::RemoveIpAddr(addr.cidr.address());
        }
        i = i + 1;
    }
    ClearStep::RetainRoutes
}

/// Whether a route stays when the manual configuration of one IP version is
/// cleared.
pub fn keeps_route(route: &Route, v4: bool) -> (keep: bool)
    ensures
        keep == !is_manual_route(*route, v4),
{
    let matches_version = match route.via_router {
        IpAddress::Ipv4(_) => v4,
        IpAddress::Ipv6(_) => !v4,
    };
    !(matches_version && route.origin == RouteOrigin::Manual)
}

} // verus!
