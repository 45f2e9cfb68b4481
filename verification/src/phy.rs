//! Devices, as the network stack sees them.
//!
//! These types mirror those of a driver, and are kept apart from them: either
//! side can change without the other.
use vstd::prelude::*;

use crate::driver;
use crate::nonzero::{NonZeroU16, NonZeroU32, NonZeroU8};

verus! {

/// Type of medium of a device.
#[derive(Clone, Copy, Debug, PartialEq, Eq, Structural)]
pub enum Medium {
    Ethernet,
    Ip,
    Ieee802154,
}

impl Medium {
    /// The same medium, as a driver names it.
    pub open spec fn spec_to_driver(self) -> driver::Medium {
        match self {
            Medium::Ethernet => driver::Medium::Ethernet,
            Medium::Ip => driver::Medium::Ip,
            Medium::Ieee802154 => driver::Medium::Ieee802154,
        }
    }

    /// The same medium, as a driver names it.
    pub fn to_driver(self) -> (medium: driver::Medium)
        ensures
            medium == self.spec_to_driver(),
    {
        match self {
            Medium::Ethernet => driver::Medium::Ethernet,
            Medium::Ip => driver::Medium::Ip,
            Medium::Ieee802154 => driver::Medium::Ieee802154,
        }
    }
}

/// Directions in which the stack handles a checksum in software.
#[derive(Clone, Copy, Debug, PartialEq, Eq, Structural)]
pub enum Checksum {
    Both,
    Rx,
    Tx,
    Neither,
}

/// Checksum handling per protocol.
#[derive(Clone, Copy, Debug, PartialEq, Eq, Structural)]
pub struct ChecksumCapabilities {
    pub ipv4: Checksum,
    pub udp: Checksum,
    pub tcp: Checksum,
    pub icmpv4: Checksum,
    pub icmpv6: Checksum,
}

/// A description of a device's capabilities.
#[derive(Clone, Copy, Debug, PartialEq, Eq)]
pub struct DeviceCapabilities {
    pub medium: driver::Medium,
    pub max_transmission_unit: usize,
    pub max_burst_size: Option<usize>,
    pub checksum: ChecksumCapabilities,
}

/// A reading of a device's own clock.
#[derive(Clone, Copy, Debug, PartialEq, Eq, Structural)]
pub struct Timestamp {
    pub seconds: u32,
    pub quarter_nanos: u32,
}

/// Metadata associated with a packet.
#[derive(Clone, Copy, Debug, PartialEq, Eq)]
pub struct PacketMeta {
    pub id: u32,
    pub timestamp: Option<Timestamp>,
    pub request_timestamp: bool,
}

/// The hardware address that a frame goes to.
#[derive(Clone, Copy, Debug, PartialEq, Eq)]
pub enum EgressHardwareAddress {
    Ethernet([u8; 6]),
    Ieee802154([u8; 8]),
    Ip,
    /// An address of a kind that drivers do not know.
    Unknown,
}

/// Where a frame goes, and how urgent it is.
#[derive(Clone, Copy, Debug, PartialEq, Eq)]
pub struct EgressRoute {
    pub destination: EgressHardwareAddress,
    pub traffic_class: u8,
}

/// The group of frames that a frame belongs to.
#[derive(Clone, Copy, Debug, PartialEq, Eq)]
pub struct EgressKey {
    pub words: [u32; 4],
}

/// Answer to the request to send one frame.
#[derive(Debug, PartialEq, Eq)]
pub enum EgressAdmission<T> {
    Granted(T),
    GlobalExhausted,
    KeyDeferred,
}

/// Who selects the next key to send for.
#[derive(Clone, Copy, Debug, PartialEq, Eq, Structural)]
pub enum EgressGrantMode {
    StackSelected,
    Shadow,
    Authoritative,
}

/// How a driver wants its frames scheduled.
#[derive(Clone, Copy, Debug, PartialEq, Eq)]
pub struct EgressSchedule {
    pub max_packets_per_key: NonZeroU8,
    pub dispatch_quantum: NonZeroU8,
    pub epoch: u32,
    pub grant_mode: EgressGrantMode,
}

/// Identity of a demand.
#[derive(Clone, Copy, Debug, PartialEq, Eq)]
pub struct EgressDemandId {
    pub schedule_epoch: u32,
    pub activation: NonZeroU32,
}

/// How much a demand asks for.
#[derive(Clone, Copy, Debug, PartialEq, Eq)]
pub struct EgressDemandLevel {
    pub ready_units: NonZeroU16,
    pub horizon_ready: bool,
}

/// Frames of a key that wait to be sent.
#[derive(Clone, Copy, Debug, PartialEq, Eq)]
pub struct EgressDemand {
    pub id: EgressDemandId,
    pub key: EgressKey,
    pub level: EgressDemandLevel,
}

/// What changed about the demands.
#[derive(Clone, Copy, Debug, PartialEq, Eq)]
pub enum EgressDemandUpdate {
    Reset { schedule_epoch: u32 },
    Active(EgressDemand),
    Inactive { id: EgressDemandId, key: EgressKey },
}

/// Permission to send some frames of a demand.
#[derive(Clone, Copy, Debug, PartialEq, Eq)]
pub struct EgressBurstGrant {
    pub serial: NonZeroU32,
    pub demand: EgressDemand,
    pub frame_credits: NonZeroU8,
    pub airtime_hundred_nanoseconds: NonZeroU32,
}

/// What became of a grant.
#[derive(Clone, Copy, Debug, PartialEq, Eq)]
pub struct EgressGrantCompletion {
    pub serial: NonZeroU32,
    pub used_frames: u8,
    pub remaining: Option<EgressDemandLevel>,
}

} // verus!
