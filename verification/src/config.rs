//! What a user asks of the network stack.
use vstd::prelude::*;

use crate::lists::{
    hostname_as_bytes, hostname_bytes, hostname_clone, ipv4_clone, ipv4_items, ipv6_clone,
    ipv6_items, MAX_DNS_SERVERS, MAX_HOSTNAME_LEN,
};
use crate::wire::{Ipv4Address, Ipv4Cidr, Ipv6Address, Ipv6Cidr};

verus! {

/// A span of time, in ticks of the clock of `embassy-time`.
#[verifier::external_type_specification]
#[verifier::external_body]
pub struct ExDuration(embassy_time::Duration);

/// Static IP address configuration.
#[derive(Debug, PartialEq, Eq)]
pub struct StaticConfigV4 {
    /// IP address and subnet mask.
    pub address: Ipv4Cidr,
    /// Default gateway.
    pub gateway: Option<Ipv4Address>,
    /// DNS servers.
    pub dns_servers: heapless::Vec<Ipv4Address, MAX_DNS_SERVERS>,
}

/// Static IPv6 address configuration
#[derive(Debug, PartialEq, Eq)]
pub struct StaticConfigV6 {
    /// IP address and subnet mask.
    pub address: Ipv6Cidr,
    /// Default gateway.
    pub gateway: Option<Ipv6Address>,
    /// DNS servers.
    pub dns_servers: heapless::Vec<Ipv6Address, MAX_DNS_SERVERS>,
}

/// DHCP configuration.
#[derive(Debug, PartialEq, Eq)]
#[non_exhaustive]
pub struct DhcpConfig {
    /// Maximum lease duration.
    ///
    /// If not set, the lease duration specified by the server will be used.
    /// If set, the lease duration will be capped at this value.
    pub max_lease_duration: Option<embassy_time::Duration>,
    /// Ignore NAKs from DHCP servers.
    ///
    /// This is not compliant with the DHCP RFCs, since theoretically we must stop using the
    /// assigned IP when receiving a NAK. This can increase reliability on broken networks with
    /// buggy routers or rogue DHCP servers, however.
    pub ignore_naks: bool,
    /// Our hostname. This will be sent to the DHCP server as Option 12.
    pub hostname: Option<heapless::String<MAX_HOSTNAME_LEN>>,
}

/// Network stack IPv4 configuration.
#[derive(Debug, PartialEq, Eq)]
pub enum ConfigV4 {
    /// Do not configure IPv4.
    Unset,
    /// Use a static IPv4 address configuration.
    Static(StaticConfigV4),
    /// Use DHCP to obtain an IP address configuration.
    Dhcp(DhcpConfig),
}

/// Network stack IPv6 configuration.
#[derive(Debug, PartialEq, Eq)]
pub enum ConfigV6 {
    /// Do not configure IPv6.
    Unset,
    /// Use a static IPv6 address configuration.
    Static(StaticConfigV6),
    /// Use SLAAC for IPv6 address configuration.
    Slaac,
}

/// Network stack configuration.
#[derive(Debug, PartialEq, Eq)]
#[non_exhaustive]
pub struct Config {
    /// IPv4 configuration
    pub ipv4: ConfigV4,
    /// IPv6 configuration
    pub ipv6: ConfigV6,
}

/// What a static IPv4 configuration says.
pub ghost struct StaticConfigV4View {
    pub address: Ipv4Cidr,
    pub gateway: Option<Ipv4Address>,
    pub dns_servers: Seq<Ipv4Address>,
}

/// What a static IPv6 configuration says.
pub ghost struct StaticConfigV6View {
    pub address: Ipv6Cidr,
    pub gateway: Option<Ipv6Address>,
    pub dns_servers: Seq<Ipv6Address>,
}

/// What a DHCP configuration says.
pub ghost struct DhcpConfigView {
    pub max_lease_duration: Option<embassy_time::Duration>,
    pub ignore_naks: bool,
    pub hostname: Option<Seq<u8>>,
}

/// What an IPv4 configuration says.
pub ghost enum ConfigV4View {
    Unset,
    Static(StaticConfigV4View),
    Dhcp(DhcpConfigView),
}

/// What an IPv6 configuration says.
pub ghost enum ConfigV6View {
    Unset,
    Static(StaticConfigV6View),
    Slaac,
}

impl View for StaticConfigV4 {
    type V = StaticConfigV4View;

    open spec fn view(&self) -> StaticConfigV4View {
        StaticConfigV4View {
            address: self.address,
            gateway: self.gateway,
            dns_servers: ipv4_items(self.dns_servers),
        }
    }
}

impl View for StaticConfigV6 {
    type V = StaticConfigV6View;

    open spec fn view(&self) -> StaticConfigV6View {
        StaticConfigV6View {
            address: self.address,
            gateway: self.gateway,
            dns_servers: ipv6_items(self.dns_servers),
        }
    }
}

impl View for DhcpConfig {
    type V = DhcpConfigView;

    open spec fn view(&self) -> DhcpConfigView {
        DhcpConfigView {
            max_lease_duration: self.max_lease_duration,
            ignore_naks: self.ignore_naks,
            hostname: match self.hostname {
                Some(name) => Some(hostname_bytes(name)),
                None => None,
            },
        }
    }
}

impl View for ConfigV4 {
    type V = ConfigV4View;

    open spec fn view(&self) -> ConfigV4View {
        match self {
            ConfigV4::Unset => ConfigV4View::Unset,
            ConfigV4::Static(config) => ConfigV4View::Static(config@),
            ConfigV4::Dhcp(config) => ConfigV4View::Dhcp(config@),
        }
    }
}

impl View for ConfigV6 {
    type V = ConfigV6View;

    open spec fn view(&self) -> ConfigV6View {
        match self {
            ConfigV6::Unset => ConfigV6View::Unset,
            ConfigV6::Static(config) => ConfigV6View::Static(config@),
            ConfigV6::Slaac => ConfigV6View::Slaac,
        }
    }
}

impl Clone for StaticConfigV4 {
    fn clone(&self) -> (copy: Self)
        ensures
            copy@ == self@,
    {
        StaticConfigV4 {
            address: self.address,
            gateway: self.gateway,
            dns_servers: ipv4_clone(&self.dns_servers),
        }
    }
}

impl Clone for StaticConfigV6 {
    fn clone(&self) -> (copy: Self)
        ensures
            copy@ == self@,
    {
        StaticConfigV6 {
            address: self.address,
            gateway: self.gateway,
            dns_servers: ipv6_clone(&self.dns_servers),
        }
    }
}

impl Clone for DhcpConfig {
    fn clone(&self) -> (copy: Self)
        ensures
            copy@ == self@,
    {
        DhcpConfig {
            max_lease_duration: self.max_lease_duration,
            ignore_naks: self.ignore_naks,
            hostname: match &self.hostname {
                Some(name) => Some(hostname_clone(name)),
                None => None,
            },
        }
    }
}

impl Clone for ConfigV4 {
    fn clone(&self) -> (copy: Self)
        ensures
            copy@ == self@,
    {
        match self {
            ConfigV4::Unset => ConfigV4::Unset,
            ConfigV4::Static(config) => ConfigV4::Static(config.clone()),
            ConfigV4::Dhcp(config) => ConfigV4::Dhcp(config.clone()),
        }
    }
}

impl Clone for ConfigV6 {
    fn clone(&self) -> (copy: Self)
        ensures
            copy@ == self@,
    {
        match self {
            ConfigV6::Unset => ConfigV6::Unset,
            ConfigV6::Static(config) => ConfigV6::Static(config.clone()),
            ConfigV6::Slaac => ConfigV6::Slaac,
        }
    }
}

impl Clone for Config {
    fn clone(&self) -> (copy: Self)
        ensures
            copy.ipv4@ == self.ipv4@,
            copy.ipv6@ == self.ipv6@,
    {
        Config { ipv4: self.ipv4.clone(), ipv6: self.ipv6.clone() }
    }
}

impl Default for DhcpConfig {
    /// Take the lease duration of the server, obey NAKs, send no hostname.
    fn default() -> (config: Self)
        ensures
            config.max_lease_duration is None,
            !config.ignore_naks,
            config.hostname is None,
    {
        DhcpConfig { max_lease_duration: None, ignore_naks: false, hostname: None }
    }
}

impl Default for ConfigV4 {
    fn default() -> (config: Self)
        ensures
            config is Unset,
    {
        ConfigV4::Unset
    }
}

impl Default for ConfigV6 {
    fn default() -> (config: Self)
        ensures
            config is Unset,
    {
        ConfigV6::Unset
    }
}

impl Default for Config {
    fn default() -> (config: Self)
        ensures
            config.ipv4 is Unset,
            config.ipv6 is Unset,
    {
        Config { ipv4: ConfigV4::Unset, ipv6: ConfigV6::Unset }
    }
}

impl Config {
    /// IPv4 configuration with static addressing.
    pub fn ipv4_static(config: StaticConfigV4) -> (stack_config: Self)
        ensures
            stack_config.ipv4 == ConfigV4::Static(config),
            stack_config.ipv6 is Unset,
    {
        Config { ipv4: ConfigV4::Static(config), ipv6: ConfigV6::Unset }
    }

    /// IPv6 configuration with static addressing.
    pub fn ipv6_static(config: StaticConfigV6) -> (stack_config: Self)
        ensures
            stack_config.ipv4 is Unset,
            stack_config.ipv6 == ConfigV6::Static(config),
    {
        Config { ipv4: ConfigV4::Unset, ipv6: ConfigV6::Static(config) }
    }

    /// IPv4 configuration with dynamic addressing.
    pub fn dhcpv4(config: DhcpConfig) -> (stack_config: Self)
        ensures
            stack_config.ipv4 == ConfigV4::Dhcp(config),
            stack_config.ipv6 is Unset,
    {
        Config { ipv4: ConfigV4::Dhcp(config), ipv6: ConfigV6::Unset }
    }

    /// Slaac configuration with dynamic addressing.
    pub fn slaac() -> (stack_config: Self)
        ensures
            stack_config.ipv4 is Unset,
            stack_config.ipv6 is Slaac,
    {
        Config { ipv4: ConfigV4::Unset, ipv6: ConfigV6::Slaac }
    }
}

/// Number of the DHCP option that carries the hostname of the client.
pub const DHCP_OPTION_HOSTNAME: u8 = 12;

/// An option of an outgoing DHCP message: its number, and its payload in the
/// first `len` bytes of a buffer whose other bytes are zero.
#[derive(Clone, Copy, Debug, PartialEq, Eq)]
pub struct DhcpOption {
    pub kind: u8,
    pub data: [u8; MAX_HOSTNAME_LEN],
    pub len: usize,
}

impl DhcpOption {
    /// The payload fits its buffer, and the rest of the buffer is zero.
    pub open spec fn wf(self) -> bool {
        &&& self.len <= MAX_HOSTNAME_LEN
        &&& forall|i: int| self.len <= i < MAX_HOSTNAME_LEN ==> self.data@[i] == 0
    }

    /// The payload.
    pub open spec fn payload(self) -> Seq<u8> {
        self.data@.take(self.len as int)
    }

    /// The option that tells a DHCP server our hostname.
    pub fn hostname(name: &heapless::String<MAX_HOSTNAME_LEN>) -> (option: Self)
        ensures
            option.wf(),
            option.kind == DHCP_OPTION_HOSTNAME,
            option.payload() == hostname_bytes(*name),
    {
        let bytes = hostname_as_bytes(name);
        let len = bytes.len();
        let mut data: [u8; MAX_HOSTNAME_LEN] = [0u8;MAX_HOSTNAME_LEN];
        let mut i: usize = 0;
        while i < len
            invariant
                i <= len <= MAX_HOSTNAME_LEN,
                len == bytes@.len(),
                data@.len() == MAX_HOSTNAME_LEN,
                forall|k: int| 0 <= k < i ==> data@[k] == bytes@[k],
                forall|k: int| i <= k < MAX_HOSTNAME_LEN ==> data@[k] == 0,
            decreases len - i,
        {
            data[i] = bytes[i];
            i = i + 1;
        }
        let option = DhcpOption { kind: DHCP_OPTION_HOSTNAME, data, len };
        assert(option.payload() =~= bytes@);
        option
    }
}

/// Each way to make a configuration sets one IP version, as it was asked to, and
/// leaves the other unset. The default leaves both unset.
pub proof fn law_config_sets_one_version(
    v4: StaticConfigV4,
    static_v4: Config,
    v6: StaticConfigV6,
    static_v6: Config,
    dhcp: DhcpConfig,
    dhcp_v4: Config,
    slaac_v6: Config,
    neither: Config,
)
    requires
        call_ensures(Config::ipv4_static, (v4,), static_v4),
        call_ensures(Config::ipv6_static, (v6,), static_v6),
        call_ensures(Config::dhcpv4, (dhcp,), dhcp_v4),
        call_ensures(Config::slaac, (), slaac_v6),
        call_ensures(Config::default, (), neither),
    ensures
        static_v4.ipv4 == ConfigV4::Static(v4) && static_v4.ipv6 is Unset,
        static_v6.ipv6 == ConfigV6::Static(v6) && static_v6.ipv4 is Unset,
        dhcp_v4.ipv4 == ConfigV4::Dhcp(dhcp) && dhcp_v4.ipv6 is Unset,
        slaac_v6.ipv6 is Slaac && slaac_v6.ipv4 is Unset,
        neither.ipv4 is Unset && neither.ipv6 is Unset,
{
}

/// By default the lease of the server counts, NAKs are obeyed, and no hostname
/// is sent. Neither IP version is set by default.
pub proof fn law_defaults_ask_for_nothing(dhcp: DhcpConfig, v4: ConfigV4, v6: ConfigV6)
    requires
        call_ensures(DhcpConfig::default, (), dhcp),
        call_ensures(ConfigV4::default, (), v4),
        call_ensures(ConfigV6::default, (), v6),
    ensures
        dhcp.max_lease_duration is None && !dhcp.ignore_naks && dhcp.hostname is None,
        v4 is Unset && v6 is Unset,
{
}

/// A clone asks for the same.
pub proof fn law_clone_asks_for_the_same(config: Config, clone: Config)
    requires
        call_ensures(Config::clone, (&config,), clone),
    ensures
        clone.ipv4 is Unset <==> config.ipv4 is Unset,
        clone.ipv4 is Static <==> config.ipv4 is Static,
        clone.ipv6 is Unset <==> config.ipv6 is Unset,
        clone.ipv6 is Static <==> config.ipv6 is Static,
        config.ipv4 matches ConfigV4::Static(set) ==> {
            let copy = clone.ipv4->Static_0;
            copy.address == set.address && copy.gateway == set.gateway && ipv4_items(
                copy.dns_servers,
            ) == ipv4_items(set.dns_servers)
        },
        config.ipv4 matches ConfigV4::Dhcp(set) ==> {
            let copy = clone.ipv4->Dhcp_0;
            &&& copy.max_lease_duration == set.max_lease_duration
            &&& copy.ignore_naks == set.ignore_naks
            &&& copy.hostname is Some <==> set.hostname is Some
            &&& set.hostname is Some ==> hostname_bytes(copy.hostname->0) == hostname_bytes(
                set.hostname->0,
            )
        },
        config.ipv6 matches ConfigV6::Static(set) ==> {
            let copy = clone.ipv6->Static_0;
            copy.address == set.address && copy.gateway == set.gateway && ipv6_items(
                copy.dns_servers,
            ) == ipv6_items(set.dns_servers)
        },
{
    assert(clone.ipv4@ == config.ipv4@);
    assert(clone.ipv6@ == config.ipv6@);
}

} // verus!
