use alvr_sockets::channel::{recv_outcome, send_outcome, Channel, ReadPlan, Transfer, WritePlan};
use alvr_sockets::error::{ConnectionError, UsbError};
use alvr_sockets::usb::DeviceId;

/// A stand-in for the bus: frames queued per address, and a record of every
/// transfer that was asked of it. Like the real bus it refuses a read of an
/// address that is no input, and a write to one that is.
struct FakeBus {
    incoming: Vec<(u8, Vec<u8>)>,
    written: Vec<(u8, Vec<u8>)>,
    reads: Vec<Transfer>,
    writes: Vec<Transfer>,
    write_fault: Option<UsbError>,
    accept_at_most: Option<usize>,
}

impl FakeBus {
    fn new() -> FakeBus {
        FakeBus {
            incoming: Vec::new(),
            written: Vec::new(),
            reads: Vec::new(),
            writes: Vec::new(),
            write_fault: None,
            accept_at_most: None,
        }
    }

    fn deliver(&mut self, endpoint: u8, frame: &[u8]) {
        self.incoming.push((endpoint, frame.to_vec()));
    }

    fn read_bulk(&mut self, transfer: Transfer, buf: &mut [u8]) -> Result<usize, UsbError> {
        self.reads.push(transfer);
        if transfer.endpoint & 0x80 != 0x80 {
            return Err(UsbError::InvalidParam);
        }
        let position = self.incoming.iter().position(|(endpoint, _)| *endpoint == transfer.endpoint);
        match position {
            None => Err(UsbError::Timeout),
            Some(index) => {
                if self.incoming[index].1.len() > buf.len() {
                    return Err(UsbError::Overflow);
                }
                let (_, frame) = self.incoming.remove(index);
                buf[..frame.len()].copy_from_slice(&frame);
                Ok(frame.len())
            }
        }
    }

    fn write_bulk(&mut self, transfer: Transfer, buf: &[u8]) -> Result<usize, UsbError> {
        self.writes.push(transfer);
        if transfer.endpoint & 0x80 == 0x80 {
            return Err(UsbError::InvalidParam);
        }
        if let Some(fault) = self.write_fault {
            return Err(fault);
        }
        let taken = match self.accept_at_most {
            Some(limit) => limit.min(buf.len()),
            None => buf.len(),
        };
        self.written.push((transfer.endpoint, buf[..taken].to_vec()));
        Ok(taken)
    }
}

/// A socket whose device is the stand-in: the channel decides, the bus answers.
struct FakeSocket {
    channel: Channel,
    bus: FakeBus,
}

impl FakeSocket {
    fn open(_id: DeviceId) -> FakeSocket {
        FakeSocket { channel: Channel::new(), bus: FakeBus::new() }
    }

    fn send_counted(&mut self, buf: &[u8]) -> Result<usize, UsbError> {
        match self.channel.plan_send(buf.len()) {
            WritePlan::Refuse(fault) => Err(fault),
            WritePlan::Transfer(transfer) => self.bus.write_bulk(transfer, buf),
        }
    }

    fn send(&mut self, buf: &[u8]) -> Result<(), ConnectionError> {
        send_outcome(self.send_counted(buf), buf.len())
    }

    fn recv_from(&mut self, address: u8, buf: &mut [u8]) -> Result<usize, UsbError> {
        match self.channel.plan_read(address, buf.len()) {
            ReadPlan::Replay => Ok(self.channel.replay(address, buf)),
            ReadPlan::Refuse(fault) => Err(fault),
            ReadPlan::Transfer(transfer) => self.bus.read_bulk(transfer, buf),
        }
    }

    fn send_to(&mut self, address: u8, buf: &[u8]) -> Result<usize, UsbError> {
        match self.channel.plan_write(address, buf.len()) {
            WritePlan::Refuse(fault) => Err(fault),
            WritePlan::Transfer(transfer) => self.bus.write_bulk(transfer, buf),
        }
    }

    fn recv(&mut self, buf: &mut [u8]) -> Result<usize, ConnectionError> {
        let endpoint = self.channel.recv_address();
        recv_outcome(match self.channel.plan_recv(buf.len()) {
            ReadPlan::Replay => Ok(self.channel.replay(endpoint, buf)),
            ReadPlan::Refuse(fault) => Err(fault),
            ReadPlan::Transfer(transfer) => self.bus.read_bulk(transfer, buf),
        })
    }

    fn peek(&mut self, buf: &mut [u8]) -> Result<usize, ConnectionError> {
        let endpoint = self.channel.recv_address();
        recv_outcome(match self.channel.plan_recv(buf.len()) {
            ReadPlan::Replay => Ok(self.channel.preview(endpoint, buf)),
            ReadPlan::Refuse(fault) => Err(fault),
            ReadPlan::Transfer(transfer) => match self.bus.read_bulk(transfer, buf) {
                Ok(n) => {
                    self.channel.stash(endpoint, &buf[..n]);
                    Ok(n)
                }
                Err(fault) => Err(fault),
            },
        })
    }
}

fn device() -> DeviceId {
    DeviceId { vendor_id: 0x1234, product_id: 0x5678 }
}

#[test]
fn send_three_bytes_then_recv_times_out() {
    let mut socket = FakeSocket::open(device());
    assert_eq!(socket.channel.endpoint(), 0x00);

    assert_eq!(socket.send_counted(&[0x01, 0x02, 0x03]), Ok(3));
    assert_eq!(socket.bus.written, vec![(0x00, vec![0x01, 0x02, 0x03])]);
    assert_eq!(socket.bus.writes, vec![Transfer { endpoint: 0x00, timeout_ms: 100 }]);

    let mut buf = [0u8; 64];
    assert_eq!(socket.recv(&mut buf), Err(ConnectionError::TryAgain(UsbError::Timeout)));
    assert_eq!(socket.bus.reads, vec![Transfer { endpoint: 0x80, timeout_ms: 100 }]);
    assert_eq!(socket.channel.endpoint(), 0x00);
    assert_eq!(socket.recv(&mut buf), Err(ConnectionError::TryAgain(UsbError::Timeout)));
    assert_eq!(socket.peek(&mut buf), Err(ConnectionError::TryAgain(UsbError::Timeout)));
}

#[test]
fn the_opened_socket_receives_what_arrives_on_its_endpoint() {
    let mut socket = FakeSocket::open(device());
    socket.bus.deliver(0x80, &[5, 6]);
    let mut buf = [0u8; 64];
    assert_eq!(socket.recv(&mut buf), Ok(2));
    assert_eq!(&buf[..2], &[5, 6]);
}

#[test]
fn set_endpoint_then_recv_reads_the_new_endpoint() {
    let mut socket = FakeSocket::open(device());
    socket.bus.deliver(0x80, &[0xaa]);
    socket.bus.deliver(0x81, &[0xbb, 0xcc]);

    socket.channel.set_endpoint(0x81);
    let mut buf = [0u8; 8];
    assert_eq!(socket.recv(&mut buf), Ok(2));
    assert_eq!(&buf[..2], &[0xbb, 0xcc]);
    assert_eq!(socket.bus.reads, vec![Transfer { endpoint: 0x81, timeout_ms: 100 }]);
}

#[test]
fn set_endpoint_between_sends_redirects_the_second() {
    let mut socket = FakeSocket::open(device());
    socket.channel.set_endpoint(0x01);
    assert_eq!(socket.send(&[1, 2]), Ok(()));
    socket.channel.set_endpoint(0x02);
    assert_eq!(socket.send(&[3, 4, 5]), Ok(()));
    assert_eq!(socket.bus.written, vec![(0x01, vec![1, 2]), (0x02, vec![3, 4, 5])]);
    assert_eq!(
        socket.bus.writes,
        vec![
            Transfer { endpoint: 0x01, timeout_ms: 100 },
            Transfer { endpoint: 0x02, timeout_ms: 100 },
        ]
    );
}

#[test]
fn a_send_carries_the_selector_as_it_is() {
    let mut socket = FakeSocket::open(device());
    socket.channel.set_endpoint(0x01);
    assert_eq!(socket.send(&[1]), Ok(()));
    socket.channel.set_endpoint(0x81);
    assert_eq!(socket.send(&[2, 3]), Err(ConnectionError::Other(UsbError::InvalidParam)));
    assert_eq!(
        socket.bus.writes,
        vec![
            Transfer { endpoint: 0x01, timeout_ms: 100 },
            Transfer { endpoint: 0x81, timeout_ms: 100 },
        ]
    );
    assert_eq!(socket.bus.written, vec![(0x01, vec![1])]);
}

#[test]
fn a_failed_send_is_not_repeated() {
    let mut socket = FakeSocket::open(device());
    socket.bus.write_fault = Some(UsbError::Pipe);
    assert_eq!(socket.send(&[1, 2, 3]), Err(ConnectionError::Other(UsbError::Pipe)));
    assert_eq!(socket.bus.writes.len(), 1);
}

#[test]
fn an_output_selector_sends_to_itself_and_receives_from_its_input() {
    let mut socket = FakeSocket::open(device());
    socket.channel.set_endpoint(0x01);
    socket.bus.deliver(0x81, &[8, 7]);
    assert_eq!(socket.send(&[3]), Ok(()));
    let mut buf = [0u8; 4];
    assert_eq!(socket.recv(&mut buf), Ok(2));
    assert_eq!(&buf[..2], &[8, 7]);
    assert_eq!(socket.bus.written, vec![(0x01, vec![3])]);
    assert_eq!(socket.bus.reads, vec![Transfer { endpoint: 0x81, timeout_ms: 100 }]);
}

#[test]
fn an_address_given_outright_is_held_to_its_direction() {
    let mut socket = FakeSocket::open(device());
    socket.bus.deliver(0x82, &[1]);
    let mut buf = [0u8; 4];
    assert_eq!(socket.recv_from(0x02, &mut buf), Err(UsbError::InvalidParam));
    assert_eq!(socket.recv_from(0x82, &mut buf), Ok(1));
    assert_eq!(socket.send_to(0x82, &[1]), Err(UsbError::InvalidParam));
    assert_eq!(socket.send_to(0x02, &[1]), Ok(1));
    assert_eq!(
        recv_outcome(socket.recv_from(0x02, &mut buf)),
        Err(ConnectionError::Other(UsbError::InvalidParam))
    );
}

#[test]
fn a_peek_on_another_endpoint_loses_nothing() {
    let mut socket = FakeSocket::open(device());
    socket.bus.deliver(0x81, &[1, 2, 3]);
    socket.bus.deliver(0x82, &[9, 8]);

    let mut buf = [0u8; 8];
    socket.channel.set_endpoint(0x81);
    assert_eq!(socket.peek(&mut buf), Ok(3));
    socket.channel.set_endpoint(0x82);
    assert_eq!(socket.peek(&mut buf), Ok(2));
    assert_eq!(&buf[..2], &[9, 8]);

    socket.channel.set_endpoint(0x81);
    assert_eq!(socket.recv(&mut buf), Ok(3));
    assert_eq!(&buf[..3], &[1, 2, 3]);
    socket.channel.set_endpoint(0x82);
    assert_eq!(socket.recv(&mut buf), Ok(2));
    assert_eq!(&buf[..2], &[9, 8]);
    assert_eq!(socket.bus.reads.len(), 2);
}

#[test]
fn recv_after_peek_returns_what_peek_showed() {
    let mut socket = FakeSocket::open(device());
    socket.channel.set_endpoint(0x81);
    socket.bus.deliver(0x81, &[1, 2, 3, 4]);

    let mut shown = [0u8; 16];
    let n = socket.peek(&mut shown).unwrap();
    assert_eq!(n, 4);
    assert_eq!(&shown[..n], &[1, 2, 3, 4]);

    let mut received = [0u8; 16];
    let m = socket.recv(&mut received).unwrap();
    assert_eq!(m, n);
    assert_eq!(&received[..m], &shown[..n]);

    assert_eq!(socket.bus.reads.len(), 1);
    assert_eq!(socket.recv(&mut received), Err(ConnectionError::TryAgain(UsbError::Timeout)));
    assert_eq!(socket.bus.reads.len(), 2);
}

#[test]
fn peek_twice_shows_the_same_bytes() {
    let mut socket = FakeSocket::open(device());
    socket.channel.set_endpoint(0x81);
    socket.bus.deliver(0x81, &[7, 8, 9]);
    socket.bus.deliver(0x81, &[10]);

    let mut first = [0u8; 8];
    let mut second = [0u8; 8];
    assert_eq!(socket.peek(&mut first), Ok(3));
    assert_eq!(socket.peek(&mut second), Ok(3));
    assert_eq!(first, second);
    assert_eq!(socket.bus.reads.len(), 1);

    let mut buf = [0u8; 8];
    assert_eq!(socket.recv(&mut buf), Ok(3));
    assert_eq!(&buf[..3], &[7, 8, 9]);
    assert_eq!(socket.recv(&mut buf), Ok(1));
    assert_eq!(buf[0], 10);
}

#[test]
fn recv_with_less_room_than_peek_loses_nothing() {
    let mut socket = FakeSocket::open(device());
    socket.channel.set_endpoint(0x81);
    socket.bus.deliver(0x81, &[1, 2, 3, 4, 5]);

    let mut shown = [0u8; 8];
    assert_eq!(socket.peek(&mut shown), Ok(5));

    let mut head = [0u8; 3];
    assert_eq!(socket.recv(&mut head), Ok(3));
    assert_eq!(head, [1, 2, 3]);
    let mut tail = [0u8; 3];
    assert_eq!(socket.recv(&mut tail), Ok(2));
    assert_eq!(&tail[..2], &[4, 5]);
    assert_eq!(socket.bus.reads.len(), 1);
}

#[test]
fn a_peek_that_times_out_keeps_nothing() {
    let mut socket = FakeSocket::open(device());
    socket.channel.set_endpoint(0x81);
    let mut buf = [0u8; 8];
    assert_eq!(socket.peek(&mut buf), Err(ConnectionError::TryAgain(UsbError::Timeout)));
    socket.bus.deliver(0x81, &[42]);
    assert_eq!(socket.recv(&mut buf), Ok(1));
    assert_eq!(buf[0], 42);
}

#[test]
fn a_peek_of_an_empty_frame_is_followed_by_that_frame() {
    let mut socket = FakeSocket::open(device());
    socket.channel.set_endpoint(0x81);
    socket.bus.deliver(0x81, &[]);
    socket.bus.deliver(0x81, &[1]);
    let mut buf = [0u8; 8];
    assert_eq!(socket.peek(&mut buf), Ok(0));
    assert_eq!(socket.recv(&mut buf), Ok(0));
    assert_eq!(socket.recv(&mut buf), Ok(1));
}

#[test]
fn an_overflow_on_recv_is_transient() {
    let mut socket = FakeSocket::open(device());
    socket.channel.set_endpoint(0x81);
    socket.bus.deliver(0x81, &[1, 2, 3, 4]);
    let mut small = [0u8; 2];
    assert_eq!(socket.recv(&mut small), Err(ConnectionError::TryAgain(UsbError::Overflow)));
    let mut large = [0u8; 4];
    assert_eq!(socket.recv(&mut large), Ok(4));
    assert_eq!(large, [1, 2, 3, 4]);
}

#[test]
fn a_send_that_times_out_is_fatal() {
    let mut socket = FakeSocket::open(device());
    socket.bus.write_fault = Some(UsbError::Timeout);
    assert_eq!(socket.send(&[1, 2, 3]), Err(ConnectionError::Other(UsbError::Timeout)));
    assert!(socket.bus.written.is_empty());
}

#[test]
fn a_send_cut_short_is_fatal() {
    let mut socket = FakeSocket::open(device());
    socket.bus.accept_at_most = Some(2);
    assert_eq!(socket.send_counted(&[1, 2, 3]), Ok(2));
    assert_eq!(socket.send(&[1, 2, 3]), Err(ConnectionError::Other(UsbError::Timeout)));
}

#[test]
fn a_disconnected_device_is_fatal_both_ways() {
    let mut socket = FakeSocket::open(device());
    socket.bus.write_fault = Some(UsbError::NoDevice);
    assert_eq!(socket.send(&[1]), Err(ConnectionError::Other(UsbError::NoDevice)));
    assert_eq!(
        recv_outcome(Err(UsbError::NoDevice)),
        Err(ConnectionError::Other(UsbError::NoDevice))
    );
}

#[test]
fn the_configured_timeout_reaches_the_bus() {
    let mut socket = FakeSocket::open(device());
    socket.channel.set_timeout_ms(20).unwrap();
    let mut buf = [0u8; 4];
    assert_eq!(socket.recv(&mut buf), Err(ConnectionError::TryAgain(UsbError::Timeout)));
    assert_eq!(socket.bus.reads, vec![Transfer { endpoint: 0x80, timeout_ms: 20 }]);
}
