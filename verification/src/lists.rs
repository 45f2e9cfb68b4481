//! The fixed-capacity lists and strings of a configuration.
//!
//! They are collections of the `heapless` crate. What each of its functions
//! does to them is stated here, over the sequence of the items that the
//! collection holds.
use vstd::prelude::*;

use crate::wire::{IpAddress, Ipv4Address, Ipv6Address};

verus! {

/// Most DNS servers kept per IP version in a static configuration.
pub const MAX_DNS_SERVERS: usize = 3;

/// Most DNS servers handed to the DNS client.
pub const MAX_CLIENT_DNS_SERVERS: usize = 2 * MAX_DNS_SERVERS;

/// Longest hostname, in bytes, that is sent to a DHCP server.
pub const MAX_HOSTNAME_LEN: usize = 32;

/// The fixed-capacity vector of `heapless`.
#[verifier::external_type_specification]
#[verifier::external_body]
#[verifier::reject_recursive_types(T)]
pub struct ExVec<T, const N: usize>(heapless::Vec<T, N>);

/// The fixed-capacity string of `heapless`.
#[verifier::external_type_specification]
#[verifier::external_body]
pub struct ExString<const N: usize>(heapless::String<N>);

/// The IPv4 addresses that the vector holds, first to last.
pub uninterp spec fn ipv4_items(list: heapless::Vec<Ipv4Address, MAX_DNS_SERVERS>) -> Seq<
    Ipv4Address,
>;

/// The IPv6 addresses that the vector holds, first to last.
pub uninterp spec fn ipv6_items(list: heapless::Vec<Ipv6Address, MAX_DNS_SERVERS>) -> Seq<
    Ipv6Address,
>;

/// The addresses that the vector holds, first to last.
pub uninterp spec fn ip_items(list: heapless::Vec<IpAddress, MAX_CLIENT_DNS_SERVERS>) -> Seq<
    IpAddress,
>;

/// The bytes of the string, first to last.
pub uninterp spec fn hostname_bytes(name: heapless::String<MAX_HOSTNAME_LEN>) -> Seq<u8>;

/// `heapless::Vec::new`, of IPv4 addresses: the vector is empty.
#[verifier::external_body]
pub(crate) fn ipv4_new() -> (list: heapless::Vec<Ipv4Address, MAX_DNS_SERVERS>)
    ensures
        ipv4_items(list) == Seq::<Ipv4Address>::empty(),
{
    heapless::Vec::new()
}

/// `heapless::Vec::push`, of IPv4 addresses: while the vector holds fewer items
/// than its capacity the item is appended, else it is handed back and the
/// vector keeps its items.
#[verifier::external_body]
pub(crate) fn ipv4_push(
    list: &mut heapless::Vec<Ipv4Address, MAX_DNS_SERVERS>,
    item: Ipv4Address,
) -> (pushed: Result<(), Ipv4Address>)
    ensures
        ipv4_items(*old(list)).len() < MAX_DNS_SERVERS ==> pushed is Ok && ipv4_items(*final(list))
            == ipv4_items(*old(list)).push(item),
        ipv4_items(*old(list)).len() >= MAX_DNS_SERVERS ==> pushed is Err && pushed->Err_0 == item
            && ipv4_items(*final(list)) == ipv4_items(*old(list)),
{
    list.push(item)
}

/// `heapless::Vec::as_slice`, of IPv4 addresses: the slice holds the items of
/// the vector, which are never more than its capacity.
#[verifier::external_body]
pub(crate) fn ipv4_as_slice(list: &heapless::Vec<Ipv4Address, MAX_DNS_SERVERS>) -> (items:
    &[Ipv4Address])
    ensures
        items@ == ipv4_items(*list),
        items@.len() <= MAX_DNS_SERVERS,
{
    list.as_slice()
}

/// `heapless::Vec`'s `clone`, of IPv4 addresses, which are copied: the clone
/// holds the same items.
#[verifier::external_body]
pub(crate) fn ipv4_clone(list: &heapless::Vec<Ipv4Address, MAX_DNS_SERVERS>) -> (copy:
    heapless::Vec<Ipv4Address, MAX_DNS_SERVERS>)
    ensures
        ipv4_items(copy) == ipv4_items(*list),
{
    list.clone()
}

/// `heapless::Vec::new`, of IPv6 addresses: the vector is empty.
#[verifier::external_body]
pub(crate) fn ipv6_new() -> (list: heapless::Vec<Ipv6Address, MAX_DNS_SERVERS>)
    ensures
        ipv6_items(list) == Seq::<Ipv6Address>::empty(),
{
    heapless::Vec::new()
}

/// `heapless::Vec::as_slice`, of IPv6 addresses: the slice holds the items of
/// the vector, which are never more than its capacity.
#[verifier::external_body]
pub(crate) fn ipv6_as_slice(list: &heapless::Vec<Ipv6Address, MAX_DNS_SERVERS>) -> (items:
    &[Ipv6Address])
    ensures
        items@ == ipv6_items(*list),
        items@.len() <= MAX_DNS_SERVERS,
{
    list.as_slice()
}

/// `heapless::Vec`'s `clone`, of IPv6 addresses, which are copied: the clone
/// holds the same items.
#[verifier::external_body]
pub(crate) fn ipv6_clone(list: &heapless::Vec<Ipv6Address, MAX_DNS_SERVERS>) -> (copy:
    heapless::Vec<Ipv6Address, MAX_DNS_SERVERS>)
    ensures
        ipv6_items(copy) == ipv6_items(*list),
{
    list.clone()
}

/// `heapless::Vec::new`, of addresses of either version: the vector is empty.
#[verifier::external_body]
pub(crate) fn ip_new() -> (list: heapless::Vec<IpAddress, MAX_CLIENT_DNS_SERVERS>)
    ensures
        ip_items(list) == Seq::<IpAddress>::empty(),
{
    heapless::Vec::new()
}

/// `heapless::Vec::push`, of addresses of either version: while the vector
/// holds fewer items than its capacity the item is appended, else it is handed
/// back and the vector keeps its items.
#[verifier::external_body]
pub(crate) fn ip_push(
    list: &mut heapless::Vec<IpAddress, MAX_CLIENT_DNS_SERVERS>,
    item: IpAddress,
) -> (pushed: Result<(), IpAddress>)
    ensures
        ip_items(*old(list)).len() < MAX_CLIENT_DNS_SERVERS ==> pushed is Ok && ip_items(
            *final(list),
        ) == ip_items(*old(list)).push(item),
        ip_items(*old(list)).len() >= MAX_CLIENT_DNS_SERVERS ==> pushed is Err && pushed->Err_0
            == item && ip_items(*final(list)) == ip_items(*old(list)),
{
    list.push(item)
}

/// `heapless::Vec::truncate`, of addresses of either version: the vector keeps
/// its first `len` items, or all of them where it holds no more.
#[verifier::external_body]
pub(crate) fn ip_truncate(
    list: &mut heapless::Vec<IpAddress, MAX_CLIENT_DNS_SERVERS>,
    len: usize,
)
    ensures
        ip_items(*final(list)) == if len <= ip_items(*old(list)).len() {
            ip_items(*old(list)).take(len as int)
        } else {
            ip_items(*old(list))
        },
{
    list.truncate(len)
}

/// `as_bytes` of `heapless::String`, through the string slice that it derefs
/// to: the bytes of the string, which are never more than its capacity.
#[verifier::external_body]
pub(crate) fn hostname_as_bytes(name: &heapless::String<MAX_HOSTNAME_LEN>) -> (bytes: &[u8])
    ensures
        bytes@ == hostname_bytes(*name),
        bytes@.len() <= MAX_HOSTNAME_LEN,
{
    name.as_bytes()
}

/// `heapless::String`'s `clone`: the clone holds the same bytes.
#[verifier::external_body]
pub(crate) fn hostname_clone(name: &heapless::String<MAX_HOSTNAME_LEN>) -> (copy:
    heapless::String<MAX_HOSTNAME_LEN>)
    ensures
        hostname_bytes(copy) == hostname_bytes(*name),
{
    name.clone()
}

} // verus!
