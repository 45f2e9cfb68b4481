//! The interface between the network stack and a device driver.
//!
//! Drivers and the stack exchange owned packet buffers. On receive a driver
//! hands the stack a buffer that it got from a pool. On transmit it either
//! takes over the complete packet or returns the same buffer unchanged.
use vstd::prelude::*;

use core::task::Waker;

use xarxa_driver::PacketBuf;

verus! {

/// An owned packet buffer.
#[verifier::external_type_specification]
#[verifier::external_body]
pub struct ExPacketBuf(xarxa_driver::PacketBuf);

/// A handle that wakes a task.
#[verifier::external_type_specification]
#[verifier::external_body]
pub struct ExWaker(core::task::Waker);

/// Link state of a network device.
#[derive(Clone, Copy, Debug, PartialEq, Eq, Structural)]
pub enum LinkState {
    /// The link is down. No frames can pass.
    Down,
    /// The link is up.
    Up,
}

/// Type of medium of a network device.
#[derive(Clone, Copy, Debug, PartialEq, Eq, Structural)]
pub enum Medium {
    /// Ethernet frames.
    Ethernet,
    /// IP packets without a link-layer header.
    Ip,
    /// IEEE 802.15.4 MAC frames.
    Ieee802154,
}

/// A hardware (link-layer) address, as reported by a driver.
#[derive(Clone, Copy, Debug, PartialEq, Eq)]
pub enum HardwareAddress {
    /// An Ethernet (MAC) address.
    Ethernet([u8; 6]),
    /// No address, for devices that send and receive bare IP packets.
    Ip,
    /// An IEEE 802.15.4 extended (64-bit) address.
    Ieee802154([u8; 8]),
}

impl HardwareAddress {
    /// The medium this kind of address belongs to.
    pub open spec fn medium(self) -> Medium {
        match self {
            HardwareAddress::Ethernet(_) => Medium::Ethernet,
            HardwareAddress::Ip => Medium::Ip,
            HardwareAddress::Ieee802154(_) => Medium::Ieee802154,
        }
    }
}

/// Directions in which the stack handles a checksum in software. In the others
/// it leaves it to the device.
#[derive(Clone, Copy, Debug, PartialEq, Eq, Structural)]
pub enum Checksum {
    /// Verify it on receive and compute it on transmit.
    Both,
    /// Verify it on receive.
    Rx,
    /// Compute it on transmit.
    Tx,
    /// Ignore it.
    Neither,
}

/// Checksum handling per protocol.
#[derive(Clone, Copy, Debug, PartialEq, Eq, Structural)]
pub struct ChecksumCapabilities {
    pub ipv4: Checksum,
    pub udp: Checksum,
    pub tcp: Checksum,
    pub icmpv4: Checksum,
    pub icmpv6: Checksum,
}

/// A description of a device's capabilities.
#[derive(Clone, Copy, Debug, PartialEq, Eq)]
pub struct Capabilities {
    /// Medium of the device.
    pub medium: Medium,
    /// Largest frame that the device can send or receive.
    pub max_transmission_unit: usize,
    /// Most frames that the device takes in one burst, where it has a limit.
    pub max_burst_size: Option<usize>,
    /// Checksum handling.
    pub checksum: ChecksumCapabilities,
}

/// A reading of a device's own clock.
#[derive(Clone, Copy, Debug, PartialEq, Eq, Structural)]
pub struct Timestamp {
    /// Whole seconds.
    pub seconds: u32,
    /// Fraction of a second, in units of 0.25 nanoseconds.
    pub quarter_nanos: u32,
}

/// Metadata associated with a packet.
#[derive(Clone, Copy, Debug, PartialEq, Eq)]
pub struct PacketMeta {
    /// An opaque identifier for this packet.
    pub id: u32,
    /// The time at which this packet was received, as measured by the device.
    pub timestamp: Option<Timestamp>,
    /// Request that the device timestamp this packet as it is transmitted.
    pub request_timestamp: bool,
}

/// The timestamp of a transmitted packet.
#[derive(Clone, Copy, Debug, PartialEq, Eq, Structural)]
pub struct TxTimestamp {
    /// The identifier of the packet this timestamp belongs to.
    pub id: u32,
    /// The time at which the packet was transmitted, as measured by the device.
    pub timestamp: Timestamp,
}

/// One call of a driver, with what it returned.
pub ghost enum DriverCall {
    Capabilities(Capabilities),
    HardwareAddress(HardwareAddress),
    RegisterWaker(Waker),
    Receive(Option<PacketBuf>),
    CanTransmit(bool),
    Transmit(PacketBuf, Result<(), PacketBuf>),
}

/// Main driver API.
///
/// A driver exchanges owned packet buffers with the stack: it hands received
/// frames up and takes completed frames to transmit down. Each packet returns
/// to the pool it originated from when its final owner drops it.
///
/// A driver has to support waking: this is what lets the runner sleep without
/// polling.
pub trait Driver {
    /// Whether the call may lead from `before` to `after`. An implementation can
    /// say more than that it may lead anywhere.
    open spec fn performs(before: &Self, call: DriverCall, after: &Self) -> bool {
        true
    }

    /// Get a description of the device's capabilities.
    fn capabilities(&self) -> (capabilities: Capabilities)
        ensures
            Self::performs(self, DriverCall::Capabilities(capabilities), self),
    ;

    /// Get the device's hardware address.
    ///
    /// Its kind must match [`Capabilities::medium`].
    fn hardware_address(&self) -> (address: HardwareAddress)
        ensures
            Self::performs(self, DriverCall::HardwareAddress(address), self),
    ;

    /// Get the link state.
    fn link_state(&mut self) -> (state: LinkState)
        default_ensures
            state == LinkState::Up,
    {
        LinkState::Up
    }

    /// Register the runner's waker.
    ///
    /// The driver must wake it when:
    ///
    /// - a frame is available from [`receive`](Self::receive),
    /// - transmit room reappears after [`can_transmit`](Self::can_transmit)
    ///   returned `false`, or
    /// - the value returned by [`link_state`](Self::link_state) changes.
    ///
    /// Registering a new waker replaces the old one. Wakes may be spurious and
    /// are only hints: implementations must retain the underlying level state
    /// until the runner observes it.
    fn register_waker(&mut self, waker: &Waker)
        ensures
            Self::performs(&*old(self), DriverCall::RegisterWaker(*waker), &*final(self)),
    ;

    /// Take ownership of one received frame, if one is ready.
    fn receive(&mut self) -> (frame: Option<PacketBuf>)
        ensures
            Self::performs(&*old(self), DriverCall::Receive(frame), &*final(self)),
    ;

    /// Whether the driver can accept one more complete frame.
    ///
    /// If this returns `true`, the immediately following [`transmit`](Self::transmit)
    /// call must succeed. This reports admission into the driver's bounded
    /// software queue; it need not mean that a DMA descriptor is free now.
    fn can_transmit(&mut self) -> (room: bool)
        ensures
            Self::performs(&*old(self), DriverCall::CanTransmit(room), &*final(self)),
    ;

    /// Transfer one complete frame to the driver.
    ///
    /// On success the driver owns `buf` until terminal completion. On failure
    /// ownership is returned unchanged in `Err`.
    fn transmit(&mut self, buf: PacketBuf) -> (sent: Result<(), PacketBuf>)
        ensures
            sent matches Err(returned) ==> returned == buf,
            Self::performs(&*old(self), DriverCall::Transmit(buf, sent), &*final(self)),
    ;

    /// Poll for a completed transmit timestamp.
    fn poll_tx_timestamp(&mut self) -> (timestamp: Option<TxTimestamp>)
        default_ensures
            timestamp is None,
    {
        None
    }
}

/// A borrowed driver behaves as the driver that it borrows.
impl<T: Driver + ?Sized> Driver for &mut T {
    open spec fn performs(before: &Self, call: DriverCall, after: &Self) -> bool {
        T::performs(&**before, call, &**after)
    }

    fn capabilities(&self) -> (capabilities: Capabilities) {
        T::capabilities(self)
    }

    fn hardware_address(&self) -> (address: HardwareAddress) {
        T::hardware_address(self)
    }

    fn link_state(&mut self) -> (state: LinkState)
        ensures
            exists|driver: &mut T|
                &*driver == &**old(self) && &*final(driver) == &**final(self) && call_ensures(
                    T::link_state,
                    (driver,),
                    state,
                ),
    {
        T::link_state(self)
    }

    fn register_waker(&mut self, waker: &Waker) {
        T::register_waker(self, waker)
    }

    fn receive(&mut self) -> (frame: Option<PacketBuf>) {
        T::receive(self)
    }

    fn can_transmit(&mut self) -> (room: bool) {
        T::can_transmit(self)
    }

    fn transmit(&mut self, buf: PacketBuf) -> (sent: Result<(), PacketBuf>) {
        T::transmit(self, buf)
    }

    fn poll_tx_timestamp(&mut self) -> (timestamp: Option<TxTimestamp>)
        ensures
            exists|driver: &mut T|
                &*driver == &**old(self) && &*final(driver) == &**final(self) && call_ensures(
                    T::poll_tx_timestamp,
                    (driver,),
                    timestamp,
                ),
    {
        T::poll_tx_timestamp(self)
    }
}

/// The driver keeps its word: a frame that follows the promise of room is
/// accepted, and the kind of its address matches its medium.
pub open spec fn keeps_its_word<D: Driver + ?Sized>() -> bool {
    &&& forall|before: &D, promised: &D, after: &D, buf: PacketBuf, sent: Result<(), PacketBuf>|
        #![trigger D::performs(before, DriverCall::CanTransmit(true), promised), D::performs(
            promised,
            DriverCall::Transmit(buf, sent),
            after,
        )]
        D::performs(before, DriverCall::CanTransmit(true), promised) && D::performs(
            promised,
            DriverCall::Transmit(buf, sent),
            after,
        ) ==> sent is Ok
    &&& forall|driver: &D, capabilities: Capabilities, address: HardwareAddress|
        #![trigger D::performs(driver, DriverCall::Capabilities(capabilities), driver), D::performs(
            driver,
            DriverCall::HardwareAddress(address),
            driver,
        )]
        D::performs(driver, DriverCall::Capabilities(capabilities), driver) && D::performs(
            driver,
            DriverCall::HardwareAddress(address),
            driver,
        ) ==> address.medium() == capabilities.medium
}

/// A driver that keeps its word still does when it is borrowed.
pub proof fn law_borrowed_driver_keeps_its_word<D: Driver + ?Sized>()
    requires
        keeps_its_word::<D>(),
    ensures
        keeps_its_word::<&mut D>(),
{
}

} // verus!
