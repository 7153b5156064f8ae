//! The USB bulk backend: a socket over one claimed device, and the narrow
//! reader and writer interfaces that streaming code sees of it.

use vstd::prelude::*;
use vstd::slice::slice_subrange;
use crate::bus::{
    bulk_read, bulk_write, claim_interface, is_input, new_context, open_by_id, set_configuration,
    BusHandle,
};
use crate::channel::{
    recv_outcome, send_outcome, spec_recv_outcome, Channel, ChannelView, ReadPlan, WritePlan,
};
use crate::error::{ConnectionError, UsbError};

verus! {

/// The configuration that a device is put into when it is opened.
pub const ACTIVE_CONFIGURATION: u8 = 1;

/// The interface that is claimed when a device is opened.
pub const CLAIMED_INTERFACE: u8 = 0;

/// The vendor and product id by which a device is found on the bus.
#[derive(Clone, Copy, Debug, PartialEq, Eq, Structural)]
pub struct DeviceId {
    pub vendor_id: u16,
    pub product_id: u16,
}

/// What is asked of the bus to hold a device: which device to open, which
/// configuration to put it into, and which of its interfaces to claim.
#[derive(Clone, Copy, Debug, PartialEq, Eq, Structural)]
pub struct Claim {
    pub id: DeviceId,
    pub configuration: u8,
    pub interface: u8,
}

impl Claim {
    /// The claim by which the device with this id is held: its active
    /// configuration and its first interface.
    pub open spec fn spec_for_device(id: DeviceId) -> Claim {
        Claim { id, configuration: ACTIVE_CONFIGURATION, interface: CLAIMED_INTERFACE }
    }

    /// The claim by which the device with this id is held.
    pub fn for_device(id: DeviceId) -> (c: Claim)
        ensures
            c == Self::spec_for_device(id),
    {
        Claim { id, configuration: ACTIVE_CONFIGURATION, interface: CLAIMED_INTERFACE }
    }
}

/// A device that is held: it was opened, configured and claimed as its claim
/// says, and stays so until this value is dropped.
pub struct ClaimedDevice {
    handle: BusHandle,
    claim: Claim,
}

/// What the two steps after opening a device come to: success where both
/// succeeded, and otherwise the fault of the first that failed.
pub open spec fn spec_steps_outcome(
    configured: Result<(), UsbError>,
    claimed: Result<(), UsbError>,
) -> Result<(), UsbError> {
    match configured {
        Ok(()) => claimed,
        Err(e) => Err(e),
    }
}

/// Turns the answers of the bus to the two steps after opening a device,
/// configuring it and claiming its interface, into what they come to.
pub fn steps_outcome(configured: Result<(), UsbError>, claimed: Result<(), UsbError>) -> (r: Result<
    (),
    UsbError,
>)
    ensures
        r == spec_steps_outcome(configured, claimed),
        r is Ok <==> configured is Ok && claimed is Ok,
{
    match configured {
        Ok(()) => claimed,
        Err(e) => Err(e),
    }
}

impl ClaimedDevice {
    /// What was asked of the bus for this device.
    pub closed spec fn spec_claim(&self) -> Claim {
        self.claim
    }

    /// The open device itself.
    pub closed spec fn handle(&self) -> BusHandle {
        self.handle
    }

    /// Makes the held device of an opened one and of the answers of the bus to
    /// the two steps that were asked for it. The device is held exactly when
    /// both steps succeeded; otherwise the fault of the first that failed is
    /// returned, and the device is let go.
    pub fn from_steps(
        handle: BusHandle,
        claim: Claim,
        configured: Result<(), UsbError>,
        claimed: Result<(), UsbError>,
    ) -> (r: Result<ClaimedDevice, UsbError>)
        ensures
            r is Ok <==> configured is Ok && claimed is Ok,
            r matches Ok(device) ==> device.claim() == claim && device.handle() == handle,
            r matches Err(e) ==> spec_steps_outcome(configured, claimed) == Err::<(), UsbError>(e),
    {
        match steps_outcome(configured, claimed) {
            Ok(()) => Ok(ClaimedDevice { handle, claim }),
            Err(e) => Err(e),
        }
    }

    /// What was asked of the bus for this device.
    #[verifier::when_used_as_spec(spec_claim)]
    pub fn claim(&self) -> (c: Claim)
        ensures
            c == self.spec_claim(),
    {
        self.claim
    }
}

/// A wish for the size of a send or receive buffer. A backend honours it as
/// far as its medium has such a buffer; the USB backend has none to size.
#[derive(Clone, Copy, Debug, PartialEq, Eq, Structural)]
pub enum SocketBufferSize {
    /// Whatever the medium uses by itself.
    Default,
    /// The most the medium allows.
    Maximum,
    /// This many bytes.
    Custom(u32),
}

/// What a transfer returns for an answer of the bus: the count as it is, a
/// fault as the fault of the same name.
pub open spec fn spec_transfer_outcome(native: Result<usize, rusb::Error>) -> Result<
    usize,
    UsbError,
> {
    match native {
        Ok(n) => Ok(n),
        Err(e) => Err(UsbError::of_native(e)),
    }
}

/// What a step of opening a device returns for an answer of the bus: success
/// as it is, a fault as the fault of the same name.
pub open spec fn spec_step_outcome(native: Result<(), rusb::Error>) -> Result<(), UsbError> {
    match native {
        Ok(()) => Ok(()),
        Err(e) => Err(UsbError::of_native(e)),
    }
}

/// Turns the answer of the bus to a bulk transfer into this library's terms.
pub fn transfer_outcome(native: Result<usize, rusb::Error>) -> (r: Result<usize, UsbError>)
    ensures
        r == spec_transfer_outcome(native),
{
    match native {
        Ok(n) => Ok(n),
        Err(e) => Err(UsbError::from_native(e)),
    }
}

/// Turns the answer of the bus to a step of opening a device into this
/// library's terms.
pub fn step_outcome(native: Result<(), rusb::Error>) -> (r: Result<(), UsbError>)
    ensures
        r == spec_step_outcome(native),
{
    match native {
        Ok(()) => Ok(()),
        Err(e) => Err(UsbError::from_native(e)),
    }
}

/// Turns the answer of the bus to a search for a device into this library's
/// terms: a device that was not found is `NoDevice`.
pub fn search_outcome(found: Option<BusHandle>) -> (r: Result<BusHandle, UsbError>)
    ensures
        found matches Some(handle) ==> r == Ok::<BusHandle, UsbError>(handle),
        found is None ==> r == Err::<BusHandle, UsbError>(UsbError::NoDevice),
{
    match found {
        Some(handle) => Ok(handle),
        None => Err(UsbError::NoDevice),
    }
}

/// The answer of the bus that stands behind a classified result: the count,
/// or the fault that the error carries.
pub open spec fn native_of(r: Result<usize, ConnectionError>) -> Result<usize, UsbError> {
    match r {
        Ok(n) => Ok(n),
        Err(e) => Err(e.spec_cause()),
    }
}

/// What a read of `address` does to the channel and to the buffer, and what it
/// returns.
///
/// Bytes that wait for the address are served, as many as fit, and the bus is
/// left alone. Otherwise a buffer too long for one transfer is refused.
/// Otherwise the bus decides: a count is within the buffer. In every case the
/// bytes that wait for other addresses keep waiting, and after anything but a
/// replay the channel is as it was.
pub open spec fn read_post(
    pre: ChannelView,
    address: u8,
    buf: Seq<u8>,
    post: ChannelView,
    filled: Seq<u8>,
    r: Result<usize, UsbError>,
) -> bool {
    &&& filled.len() == buf.len()
    &&& match pre.plan_read(address, buf.len()) {
        ReadPlan::Replay => {
            &&& r matches Ok(n) && n == pre.replay_len(address, buf.len())
            &&& filled == pre.replay_into(address, buf)
            &&& post == pre.after_replay(address, buf.len())
        },
        ReadPlan::Refuse(e) => r == Err::<usize, UsbError>(e) && filled == buf && post == pre,
        ReadPlan::Transfer(_) => {
            &&& post == pre
            &&& r matches Ok(n) ==> n <= buf.len()
        },
    }
}

/// What a peek of `address` does to the channel and to the buffer, and what it
/// returns.
///
/// Bytes that wait for the address are shown, as many as fit, and stay where
/// they are. Otherwise a buffer too long for one transfer is refused.
/// Otherwise the bus decides: what it delivered is in the front of the buffer
/// and, the same bytes, in the replay slot of the address; after a fault the
/// channel is as it was. In every case the bytes that wait for other
/// addresses keep waiting.
pub open spec fn peek_post(
    pre: ChannelView,
    address: u8,
    buf: Seq<u8>,
    post: ChannelView,
    filled: Seq<u8>,
    r: Result<usize, UsbError>,
) -> bool {
    &&& filled.len() == buf.len()
    &&& match pre.plan_read(address, buf.len()) {
        ReadPlan::Replay => {
            &&& r matches Ok(n) && n == pre.replay_len(address, buf.len())
            &&& filled == pre.replay_into(address, buf)
            &&& post == pre
        },
        ReadPlan::Refuse(e) => r == Err::<usize, UsbError>(e) && filled == buf && post == pre,
        ReadPlan::Transfer(_) => {
            &&& r matches Ok(n) ==> n <= buf.len() && post == pre.after_stash(
                address,
                filled.subrange(0, n as int),
            )
            &&& r is Err ==> post == pre
        },
    }
}

/// What a write of `len` bytes to `address` returns: a buffer too long for one
/// transfer is refused; otherwise the bus decides, and a count is within the
/// buffer.
pub open spec fn write_post(pre: ChannelView, address: u8, len: nat, r: Result<usize, UsbError>) -> bool {
    match pre.plan_write(address, len) {
        WritePlan::Refuse(e) => r == Err::<usize, UsbError>(e),
        WritePlan::Transfer(_) => r matches Ok(n) ==> n <= len,
    }
}

/// A socket over the bulk endpoints of one USB device.
pub struct UsbSocket {
    device: ClaimedDevice,
    channel: Channel,
}

impl View for UsbSocket {
    type V = ChannelView;

    closed spec fn view(&self) -> ChannelView {
        self.channel@
    }
}

impl UsbSocket {
    /// The device that this socket holds.
    pub closed spec fn device(&self) -> ClaimedDevice {
        self.device
    }

    /// Starts a session with the bus, finds the device, opens it, puts it
    /// into its active configuration and claims its interface. A device that
    /// is not there is `NoDevice`; a fault in starting the session is returned
    /// as it came. Of an opened device both steps are asked, in this order,
    /// and what they come to is what [`ClaimedDevice::from_steps`] makes of
    /// their answers: the first fault, or the device. Which of these happens
    /// is for the bus to decide. A device that is returned is held by the
    /// claim for the id that was asked for.
    pub fn open_descriptor(descriptor: DeviceId) -> (r: Result<ClaimedDevice, UsbError>)
        ensures
            r matches Ok(device) ==> device.claim() == Claim::spec_for_device(descriptor),
    {
        let claim = Claim::for_device(descriptor);
        let context = match new_context() {
            Ok(context) => context,
            Err(e) => return Err(UsbError::from_native(e)),
        };
        let found = open_by_id(&context, claim.id.vendor_id, claim.id.product_id);
        let handle = match search_outcome(found) {
            Ok(handle) => handle,
            Err(e) => return Err(e),
        };
        let configured = step_outcome(set_configuration(&handle, claim.configuration));
        let claimed = step_outcome(claim_interface(&handle, claim.interface));
        ClaimedDevice::from_steps(handle, claim, configured, claimed)
    }

    /// Makes the socket of an attempt to acquire a device. Whatever the two
    /// wishes for buffer sizes are, the socket exists exactly when the device
    /// was acquired: it holds that device and starts on the default endpoint,
    /// with the default timeout and nothing read ahead. A failed attempt is
    /// passed on.
    pub fn from_acquired(
        acquired: Result<ClaimedDevice, UsbError>,
        send_buffer_bytes: SocketBufferSize,
        recv_buffer_bytes: SocketBufferSize,
    ) -> (r: Result<UsbSocket, UsbError>)
        ensures
            r is Ok <==> acquired is Ok,
            r matches Ok(socket) ==> socket.device() == acquired.unwrap() && socket@
                == ChannelView::initial(),
            r matches Err(e) ==> acquired == Err::<ClaimedDevice, UsbError>(e),
    {
        match acquired {
            Ok(device) => Ok(UsbSocket { device, channel: Channel::new() }),
            Err(e) => Err(e),
        }
    }

    /// What was asked of the bus for the device that this socket holds.
    pub fn claim(&self) -> (c: Claim)
        ensures
            c == self.device().claim(),
    {
        self.device.claim()
    }

    /// The endpoint that `send`, `recv` and `peek` address.
    pub fn endpoint(&self) -> (e: u8)
        ensures
            e == self@.endpoint,
    {
        self.channel.endpoint()
    }

    /// The bound on each transfer's duration, in milliseconds.
    pub fn timeout_ms(&self) -> (t: u32)
        ensures
            t == self@.timeout_ms,
            t >= 1,
    {
        self.channel.timeout_ms()
    }

    /// Selects the endpoint that later calls address. The device stays held
    /// and claimed as it is.
    pub fn set_endpoint(&mut self, endpoint: u8)
        ensures
            final(self)@ == old(self)@.with_endpoint(endpoint),
            final(self).device() == old(self).device(),
    {
        self.channel.set_endpoint(endpoint);
    }

    /// Sets the bound on each transfer's duration. Zero is refused with
    /// `InvalidParam`, and the bound stays as it was.
    pub fn set_timeout_ms(&mut self, timeout_ms: u32) -> (r: Result<(), UsbError>)
        ensures
            timeout_ms >= 1 ==> r is Ok && final(self)@ == (ChannelView {
                timeout_ms,
                ..old(self)@
            }),
            timeout_ms == 0 ==> r == Err::<(), UsbError>(UsbError::InvalidParam) && final(self)@
                == old(self)@,
            final(self).device() == old(self).device(),
    {
        self.channel.set_timeout_ms(timeout_ms)
    }

    /// Reads from the address `endpoint` into `buf`, and returns the number of
    /// bytes read. The address is handed to the bus as it is: where the bus is
    /// asked and the address is no input, the bus refuses it with
    /// `InvalidParam`.
    pub fn recv_from(&mut self, endpoint: u8, buf: &mut [u8]) -> (r: Result<usize, UsbError>)
        ensures
            read_post(old(self)@, endpoint, old(buf)@, final(self)@, final(buf)@, r),
            old(self)@.plan_read(endpoint, old(buf)@.len()) is Transfer && !is_input(endpoint)
                ==> r == Err::<usize, UsbError>(UsbError::InvalidParam),
            final(self).device() == old(self).device(),
    {
        match self.channel.plan_read(endpoint, buf.len()) {
            ReadPlan::Replay => Ok(self.channel.replay(endpoint, buf)),
            ReadPlan::Refuse(e) => Err(e),
            ReadPlan::Transfer(t) => transfer_outcome(
                bulk_read(&self.device.handle, t.endpoint, buf, t.timeout_ms),
            ),
        }
    }

    /// Writes `buf` to the address `endpoint`, and returns the number of bytes
    /// that the bus took. The address is handed to the bus as it is: where the
    /// bus is asked and the address is an input, the bus refuses it with
    /// `InvalidParam`.
    pub fn send_to(&self, endpoint: u8, buf: &[u8]) -> (r: Result<usize, UsbError>)
        ensures
            write_post(self@, endpoint, buf@.len(), r),
            self@.plan_write(endpoint, buf@.len()) is Transfer && is_input(endpoint) ==> r
                == Err::<usize, UsbError>(UsbError::InvalidParam),
    {
        match self.channel.plan_write(endpoint, buf.len()) {
            WritePlan::Refuse(e) => Err(e),
            WritePlan::Transfer(t) => transfer_outcome(
                bulk_write(&self.device.handle, t.endpoint, buf, t.timeout_ms),
            ),
        }
    }

    /// Receives from the selected endpoint: a read of its input address, with
    /// a fault classified as transient, for a timeout or an overflow, or as
    /// fatal. With nothing read ahead the bus decides, on every selector.
    pub fn recv(&mut self, buf: &mut [u8]) -> (r: Result<usize, ConnectionError>)
        ensures
            read_post(
                old(self)@,
                old(self)@.recv_address(),
                old(buf)@,
                final(self)@,
                final(buf)@,
                native_of(r),
            ),
            r == spec_recv_outcome(native_of(r)),
            final(self).device() == old(self).device(),
    {
        let address = self.channel.recv_address();
        recv_outcome(self.recv_from(address, buf))
    }

    /// Sends to the selected endpoint: one write of the whole buffer to the
    /// selector as it is, within the timeout. Where the bus is asked and the
    /// selector is an input, the bus refuses it with `InvalidParam`.
    pub fn send(&self, buf: &[u8]) -> (r: Result<usize, UsbError>)
        ensures
            write_post(self@, self@.endpoint, buf@.len(), r),
            self@.plan_write(self@.endpoint, buf@.len()) is Transfer && is_input(self@.endpoint)
                ==> r == Err::<usize, UsbError>(UsbError::InvalidParam),
    {
        self.send_to(self.channel.send_address(), buf)
    }

    /// Shows what the next receive on the selected endpoint will get, without
    /// taking it: bytes read from the bus for this are kept in the replay slot
    /// of the endpoint's input address and served again. What waits for other
    /// addresses keeps waiting. A fault is classified as for a receive.
    pub fn peek(&mut self, buf: &mut [u8]) -> (r: Result<usize, ConnectionError>)
        ensures
            peek_post(
                old(self)@,
                old(self)@.recv_address(),
                old(buf)@,
                final(self)@,
                final(buf)@,
                native_of(r),
            ),
            r == spec_recv_outcome(native_of(r)),
            final(self).device() == old(self).device(),
    {
        let address = self.channel.recv_address();
        match self.channel.plan_recv(buf.len()) {
            ReadPlan::Replay => Ok(self.channel.preview(address, buf)),
            ReadPlan::Refuse(e) => recv_outcome(Err(e)),
            ReadPlan::Transfer(t) => {
                let native = transfer_outcome(bulk_read(&self.device.handle, t.endpoint, buf, t.timeout_ms));
                match native {
                    Ok(n) => self.channel.stash(address, slice_subrange(buf, 0, n)),
                    Err(_) => {},
                }
                recv_outcome(native)
            },
        }
    }
}

/// Opens the device with this id as a socket. The two wishes for buffer sizes
/// are advisory: no value of them makes the opening fail. Whether it succeeds
/// is for the bus to decide. A socket that is returned holds the device by the
/// claim for the id that was asked for, and starts on the default endpoint,
/// with the default timeout and nothing read ahead.
pub fn open_usb(
    descriptor: DeviceId,
    send_buffer_bytes: SocketBufferSize,
    recv_buffer_bytes: SocketBufferSize,
) -> (r: Result<UsbSocket, UsbError>)
    ensures
        r matches Ok(socket) ==> socket@ == ChannelView::initial() && socket.device().claim()
            == Claim::spec_for_device(descriptor),
{
    UsbSocket::from_acquired(
        UsbSocket::open_descriptor(descriptor),
        send_buffer_bytes,
        recv_buffer_bytes,
    )
}

/// What a send of `len` bytes as one unit through the selected endpoint
/// returns: a buffer too long for one transfer is refused; otherwise the bus
/// decides, and a selector that is an input is `InvalidParam`. Every failure
/// is fatal.
pub open spec fn send_post(pre: ChannelView, len: nat, r: Result<(), ConnectionError>) -> bool {
    &&& r matches Err(e) ==> e is Other
    &&& match pre.plan_write(pre.endpoint, len) {
        WritePlan::Refuse(e) => r == Err::<(), ConnectionError>(ConnectionError::Other(e)),
        WritePlan::Transfer(_) => is_input(pre.endpoint) ==> r == Err::<(), ConnectionError>(
            ConnectionError::Other(UsbError::InvalidParam),
        ),
    }
}

/// The sending half of what streaming code may use of a socket, whatever the
/// medium behind it.
pub trait SocketWriter {
    /// Sends `buffer` as one unit. It succeeds only if the medium took all of
    /// it, and no failure is one to retry.
    fn send(&mut self, buffer: &[u8]) -> (r: Result<(), ConnectionError>)
        ensures
            r matches Err(e) ==> e is Other,
    ;
}

/// The receiving half of what streaming code may use of a socket, whatever the
/// medium behind it.
pub trait SocketReader {
    /// Receives into `buffer`, and returns the number of bytes received, which
    /// may be less than the buffer holds. A failure is transient exactly when
    /// its cause is a timeout or an overflow.
    fn recv(&mut self, buffer: &mut [u8]) -> (r: Result<usize, ConnectionError>)
        ensures
            final(buffer)@.len() == old(buffer)@.len(),
            r matches Ok(n) ==> n <= old(buffer)@.len(),
            r matches Err(e) ==> e == ConnectionError::classify(e.spec_cause()),
    ;

    /// Shows in `buffer` what the next `recv` will get, without taking it, and
    /// returns the number of bytes shown. A failure is classified as for
    /// `recv`.
    fn peek(&mut self, buffer: &mut [u8]) -> (r: Result<usize, ConnectionError>)
        ensures
            final(buffer)@.len() == old(buffer)@.len(),
            r matches Ok(n) ==> n <= old(buffer)@.len(),
            r matches Err(e) ==> e == ConnectionError::classify(e.spec_cause()),
    ;
}

impl SocketWriter for UsbSocket {
    fn send(&mut self, buffer: &[u8]) -> (r: Result<(), ConnectionError>)
        ensures
            send_post(old(self)@, buffer@.len(), r),
            final(self)@ == old(self)@,
            final(self).device() == old(self).device(),
    {
        send_outcome(UsbSocket::send(self, buffer), buffer.len())
    }
}

impl SocketReader for UsbSocket {
    fn recv(&mut self, buffer: &mut [u8]) -> (r: Result<usize, ConnectionError>)
        ensures
            read_post(
                old(self)@,
                old(self)@.recv_address(),
                old(buffer)@,
                final(self)@,
                final(buffer)@,
                native_of(r),
            ),
            r == spec_recv_outcome(native_of(r)),
            final(self).device() == old(self).device(),
    {
        UsbSocket::recv(self, buffer)
    }

    fn peek(&mut self, buffer: &mut [u8]) -> (r: Result<usize, ConnectionError>)
        ensures
            peek_post(
                old(self)@,
                old(self)@.recv_address(),
                old(buffer)@,
                final(self)@,
                final(buffer)@,
                native_of(r),
            ),
            r == spec_recv_outcome(native_of(r)),
            final(self).device() == old(self).device(),
    {
        UsbSocket::peek(self, buffer)
    }
}

} // verus!
