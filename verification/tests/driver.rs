use std::task::Waker;

use embassy_net::driver::{
    Capabilities, Checksum, ChecksumCapabilities, Driver, HardwareAddress, LinkState, Medium,
    Timestamp, TxTimestamp,
};
use xarxa_driver::PacketBuf;

/// A driver that sends its frames to itself, one at a time.
struct Loopback {
    frame: Option<PacketBuf>,
    wakers: usize,
}

impl Driver for Loopback {
    fn capabilities(&self) -> Capabilities {
        Capabilities {
            medium: Medium::Ethernet,
            max_transmission_unit: 1514,
            max_burst_size: None,
            checksum: ChecksumCapabilities {
                ipv4: Checksum::Both,
                udp: Checksum::Both,
                tcp: Checksum::Both,
                icmpv4: Checksum::Both,
                icmpv6: Checksum::Both,
            },
        }
    }

    fn hardware_address(&self) -> HardwareAddress {
        HardwareAddress::Ethernet([2, 0, 0, 0, 0, 1])
    }

    fn register_waker(&mut self, _waker: &Waker) {
        self.wakers += 1;
    }

    fn receive(&mut self) -> Option<PacketBuf> {
        self.frame.take()
    }

    fn can_transmit(&mut self) -> bool {
        self.frame.is_none()
    }

    fn transmit(&mut self, buf: PacketBuf) -> Result<(), PacketBuf> {
        if self.frame.is_some() {
            return Err(buf);
        }
        self.frame = Some(buf);
        Ok(())
    }
}

fn packet(byte: u8) -> PacketBuf {
    let mut buf = PacketBuf::try_new().unwrap();
    buf.set_len(3);
    buf.fill(byte);
    buf
}

fn exchange<D: Driver>(mut driver: D) {
    assert_eq!(driver.capabilities().medium, Medium::Ethernet);
    assert_eq!(driver.hardware_address(), HardwareAddress::Ethernet([2, 0, 0, 0, 0, 1]));
    assert!(driver.receive().is_none());
    assert!(driver.can_transmit());
    assert!(driver.transmit(packet(7)).is_ok());
    assert!(!driver.can_transmit());
    let returned = driver.transmit(packet(8)).unwrap_err();
    assert_eq!(&returned[..], &[8, 8, 8]);
    let received = driver.receive().unwrap();
    assert_eq!(&received[..], &[7, 7, 7]);
    driver.register_waker(Waker::noop());
}

#[test]
fn a_borrowed_driver_behaves_as_the_driver() {
    let mut driver = Loopback { frame: None, wakers: 0 };
    exchange(&mut driver);
    assert_eq!(driver.wakers, 1);
    exchange(driver);
}

#[test]
fn a_driver_may_leave_link_and_timestamps_out() {
    let mut driver = Loopback { frame: None, wakers: 0 };
    assert_eq!(driver.link_state(), LinkState::Up);
    assert_eq!(driver.poll_tx_timestamp(), None::<TxTimestamp>);
    let mut borrowed = &mut driver;
    assert_eq!(Driver::link_state(&mut borrowed), LinkState::Up);
    assert_eq!(Driver::poll_tx_timestamp(&mut borrowed), None);
}

/// A driver whose link is down and that has one timestamp to give.
struct Unplugged {
    timestamp: Option<TxTimestamp>,
}

impl Driver for Unplugged {
    fn capabilities(&self) -> Capabilities {
        Loopback { frame: None, wakers: 0 }.capabilities()
    }

    fn hardware_address(&self) -> HardwareAddress {
        HardwareAddress::Ethernet([2, 0, 0, 0, 0, 2])
    }

    fn link_state(&mut self) -> LinkState {
        LinkState::Down
    }

    fn register_waker(&mut self, _waker: &Waker) {}

    fn receive(&mut self) -> Option<PacketBuf> {
        None
    }

    fn can_transmit(&mut self) -> bool {
        false
    }

    fn transmit(&mut self, buf: PacketBuf) -> Result<(), PacketBuf> {
        Err(buf)
    }

    fn poll_tx_timestamp(&mut self) -> Option<TxTimestamp> {
        self.timestamp.take()
    }
}

#[test]
fn a_borrowed_driver_reports_link_and_timestamps_of_the_driver() {
    let timestamp = TxTimestamp {
        id: 3,
        timestamp: Timestamp { seconds: 1, quarter_nanos: 2 },
    };
    let mut driver = Unplugged { timestamp: Some(timestamp) };
    let mut borrowed = &mut driver;
    assert_eq!(Driver::link_state(&mut borrowed), LinkState::Down);
    assert_eq!(Driver::poll_tx_timestamp(&mut borrowed), Some(timestamp));
    assert_eq!(Driver::poll_tx_timestamp(&mut borrowed), None);
    assert_eq!(driver.timestamp, None);
}
