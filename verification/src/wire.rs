//! Network addresses.
use vstd::prelude::*;

verus! {

/// An IPv4 address, in network byte order.
#[derive(Clone, Copy, Debug, PartialEq, Eq)]
pub struct Ipv4Address {
    pub octets: [u8; 4],
}

/// An IPv6 address, in network byte order.
#[derive(Clone, Copy, Debug, PartialEq, Eq)]
pub struct Ipv6Address {
    pub octets: [u8; 16],
}

/// An IP address of either version.
#[derive(Clone, Copy, Debug, PartialEq, Eq)]
pub enum IpAddress {
    Ipv4(Ipv4Address),
    Ipv6(Ipv6Address),
}

/// An IPv4 address with the length of its network prefix.
#[derive(Clone, Copy, Debug, PartialEq, Eq)]
pub struct Ipv4Cidr {
    pub address: Ipv4Address,
    pub prefix_len: u8,
}

/// An IPv6 address with the length of its network prefix.
#[derive(Clone, Copy, Debug, PartialEq, Eq)]
pub struct Ipv6Cidr {
    pub address: Ipv6Address,
    pub prefix_len: u8,
}

/// An IP address of either version with the length of its network prefix.
#[derive(Clone, Copy, Debug, PartialEq, Eq)]
pub enum IpCidr {
    Ipv4(Ipv4Cidr),
    Ipv6(Ipv6Cidr),
}

impl IpCidr {
    /// The address without its prefix length.
    pub open spec fn spec_address(self) -> IpAddress {
        match self {
            IpCidr::Ipv4(cidr) => IpAddress::Ipv4(cidr.address),
            IpCidr::Ipv6(cidr) => IpAddress::Ipv6(cidr.address),
        }
    }

    /// The address without its prefix length.
    pub fn address(&self) -> (address: IpAddress)
        ensures
            address == self.spec_address(),
    {
        match self {
            IpCidr::Ipv4(cidr) => IpAddress::Ipv4(cidr.address),
            IpCidr::Ipv6(cidr) => IpAddress::Ipv6(cidr.address),
        }
    }
}

/// An address keeps its version and its octets when its prefix length goes.
pub proof fn law_address_keeps_its_octets(cidr: IpCidr, address: IpAddress)
    requires
        call_ensures(IpCidr::address, (&cidr,), address),
    ensures
        cidr matches IpCidr::Ipv4(v4) ==> address matches IpAddress::Ipv4(bare) && bare.octets
            == v4.address.octets,
        cidr matches IpCidr::Ipv6(v6) ==> address matches IpAddress::Ipv6(bare) && bare.octets
            == v6.address.octets,
{
}

} // verus!
