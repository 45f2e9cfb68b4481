use embassy_net::config::{Config, ConfigV4, ConfigV6, DhcpConfig, StaticConfigV4, StaticConfigV6};
use embassy_net::wire::{IpAddress, IpCidr, Ipv4Address, Ipv4Cidr, Ipv6Address, Ipv6Cidr};
use embassy_net::TryError;

#[test]
fn defaults_configure_nothing() {
    let dhcp = DhcpConfig::default();
    assert_eq!(dhcp.max_lease_duration, None);
    assert!(!dhcp.ignore_naks);
    assert_eq!(dhcp.hostname, None);
    assert_eq!(ConfigV4::default(), ConfigV4::Unset);
    assert_eq!(ConfigV6::default(), ConfigV6::Unset);
    let config = Config::default();
    assert_eq!(config.ipv4, ConfigV4::Unset);
    assert_eq!(config.ipv6, ConfigV6::Unset);
}

#[test]
fn clones_hold_the_same_configuration() {
    let mut dhcp = DhcpConfig::default();
    dhcp.hostname = Some(heapless::String::try_from("host").unwrap());
    dhcp.max_lease_duration = Some(embassy_time::Duration::from_ticks(3));
    let mut config = Config::dhcpv4(dhcp);
    assert_eq!(config.clone(), config);

    config.ipv4 = ConfigV4::Static(StaticConfigV4 {
        address: Ipv4Cidr { address: Ipv4Address { octets: [10, 0, 0, 1] }, prefix_len: 8 },
        gateway: None,
        dns_servers: heapless::Vec::from_slice(&[Ipv4Address { octets: [10, 0, 0, 2] }]).unwrap(),
    });
    config.ipv6 = ConfigV6::Static(StaticConfigV6 {
        address: Ipv6Cidr { address: Ipv6Address { octets: [1; 16] }, prefix_len: 64 },
        gateway: None,
        dns_servers: heapless::Vec::from_slice(&[Ipv6Address { octets: [2; 16] }]).unwrap(),
    });
    assert_eq!(config.clone(), config);
    assert_eq!(Config::slaac().clone(), Config::slaac());
    assert_eq!(Config::default().clone(), Config::default());
}

#[test]
fn a_cidr_has_its_address() {
    let address = Ipv4Address { octets: [10, 0, 0, 1] };
    assert_eq!(
        IpCidr::Ipv4(Ipv4Cidr { address, prefix_len: 8 }).address(),
        IpAddress::Ipv4(address)
    );
    let address = Ipv6Address { octets: [7; 16] };
    assert_eq!(
        IpCidr::Ipv6(Ipv6Cidr { address, prefix_len: 64 }).address(),
        IpAddress::Ipv6(address)
    );
}

#[test]
fn try_errors_compare() {
    let blocked: TryError<u8> = TryError::WouldBlock;
    assert_eq!(blocked, TryError::WouldBlock);
    assert_ne!(blocked, TryError::Other(3));
}
