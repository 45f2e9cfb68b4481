//! Egress scheduling, as a driver sees it.
//!
//! A driver groups the frames that it sends by a key. The stack tells it for
//! which keys frames wait, and the driver grants bursts to them.
use vstd::prelude::*;

use crate::driver::HardwareAddress;
use crate::nonzero::{NonZeroU16, NonZeroU32, NonZeroU8};

verus! {

/// Where a frame goes, and how urgent it is.
#[derive(Clone, Copy, Debug, PartialEq, Eq)]
pub struct EgressRoute {
    pub destination: HardwareAddress,
    pub traffic_class: u8,
}

/// The group of frames that a frame belongs to.
#[derive(Clone, Copy, Debug, PartialEq, Eq)]
pub struct EgressKey {
    pub words: [u32; 4],
}

/// Answer to the request to send one frame.
#[derive(Debug, PartialEq, Eq)]
pub enum EgressAdmission<T> {
    /// The frame may be sent.
    Granted(T),
    /// No frame may be sent now.
    GlobalExhausted,
    /// No frame of this key may be sent now.
    KeyDeferred,
}

/// Who selects the next key to send for.
#[derive(Clone, Copy, Debug, PartialEq, Eq, Structural)]
pub enum EgressGrantMode {
    /// The stack.
    StackSelected,
    /// The stack, while the driver makes the grants that it would make.
    Shadow,
    /// The driver.
    Authoritative,
}

/// How a driver wants its frames scheduled.
#[derive(Clone, Copy, Debug, PartialEq, Eq)]
pub struct EgressSchedule {
    pub max_packets_per_key: NonZeroU8,
    pub dispatch_quantum: NonZeroU8,
    pub epoch: u32,
    pub grant_mode: EgressGrantMode,
}

/// Identity of a demand.
#[derive(Clone, Copy, Debug, PartialEq, Eq)]
pub struct EgressDemandId {
    pub schedule_epoch: u32,
    pub activation: NonZeroU32,
}

/// How much a demand asks for.
#[derive(Clone, Copy, Debug, PartialEq, Eq)]
pub struct EgressDemandLevel {
    pub ready_units: NonZeroU16,
    pub horizon_ready: bool,
}

/// Frames of a key that wait to be sent.
#[derive(Clone, Copy, Debug, PartialEq, Eq)]
pub struct EgressDemand {
    pub id: EgressDemandId,
    pub key: EgressKey,
    pub level: EgressDemandLevel,
}

/// What changed about the demands.
#[derive(Clone, Copy, Debug, PartialEq, Eq)]
pub enum EgressDemandUpdate {
    /// All demands of earlier epochs are gone.
    Reset { schedule_epoch: u32 },
    /// There is this demand, or it changed its level.
    Active(EgressDemand),
    /// This demand is gone.
    Inactive { id: EgressDemandId, key: EgressKey },
}

/// Permission to send some frames of a demand.
#[derive(Clone, Copy, Debug, PartialEq, Eq)]
pub struct EgressBurstGrant {
    pub serial: NonZeroU32,
    pub demand: EgressDemand,
    pub frame_credits: NonZeroU8,
    pub airtime_hundred_nanoseconds: NonZeroU32,
}

/// What became of a grant.
#[derive(Clone, Copy, Debug, PartialEq, Eq)]
pub struct EgressGrantCompletion {
    pub serial: NonZeroU32,
    pub used_frames: u8,
    pub remaining: Option<EgressDemandLevel>,
}

} // verus!
