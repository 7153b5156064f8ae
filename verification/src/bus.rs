//! The calls into the USB bus. Nothing in this file is proved: each contract
//! is taken from the documentation and the source of `rusb`.

use vstd::prelude::*;
use rusb::{Context, DeviceHandle, UsbContext};
use std::time::Duration;

verus! {

/// The faults that `rusb` reports, with their variants.
#[verifier::external_type_specification]
pub struct ExBusError(rusb::Error);

/// A session with the bus: `rusb::Context`.
#[verifier::external_type_specification]
#[verifier::external_body]
pub struct ExBusContext(Context);

/// An open USB device: `rusb::DeviceHandle<Context>`, which Verus cannot be
/// told of as it is, since its parameter is bound by a trait of `rusb`.
/// Dropping it releases the interfaces it has claimed and closes the device.
#[verifier::external_body]
pub struct BusHandle {
    inner: DeviceHandle<Context>,
}

/// The direction of an endpoint is the top bit of its address: set for an
/// endpoint that the host reads from, clear for one that it writes to.
pub open spec fn is_input(endpoint: u8) -> bool {
    endpoint & 0x80 == 0x80
}

/// `Context::new`: a new session with the bus, or the fault that kept the bus
/// from being initialised. Nothing is claimed of the outcome.
#[verifier::external_body]
pub(crate) fn new_context() -> Result<Context, rusb::Error> {
    Context::new()
}

/// `UsbContext::open_device_with_vid_pid`: the first device with this vendor
/// and product id, opened, or `None` where there is none or it cannot be
/// opened. Nothing is claimed of the outcome.
#[verifier::external_body]
pub(crate) fn open_by_id(context: &Context, vendor_id: u16, product_id: u16) -> Option<BusHandle> {
    match context.open_device_with_vid_pid(vendor_id, product_id) {
        Some(inner) => Some(BusHandle { inner }),
        None => None,
    }
}

/// `DeviceHandle::set_active_configuration`. Nothing is claimed of the outcome.
#[verifier::external_body]
pub(crate) fn set_configuration(handle: &BusHandle, config: u8) -> Result<(), rusb::Error> {
    handle.inner.set_active_configuration(config)
}

/// `DeviceHandle::claim_interface`. Nothing is claimed of the outcome.
#[verifier::external_body]
pub(crate) fn claim_interface(handle: &BusHandle, iface: u8) -> Result<(), rusb::Error> {
    handle.inner.claim_interface(iface)
}

/// `DeviceHandle::read_bulk`: a count it returns is the number of bytes put
/// into `buf`, so it is within the buffer, and an endpoint that is no input
/// is refused with `InvalidParam`. A timeout under a millisecond would block
/// forever, and the length must fit the bus's signed 32-bit count.
#[verifier::external_body]
pub(crate) fn bulk_read(handle: &BusHandle, endpoint: u8, buf: &mut [u8], timeout_ms: u32) -> (r:
    Result<usize, rusb::Error>)
    requires
        timeout_ms >= 1,
        old(buf)@.len() <= i32::MAX,
    ensures
        final(buf)@.len() == old(buf)@.len(),
        r matches Ok(n) ==> n <= old(buf)@.len(),
        !is_input(endpoint) ==> r.is_err() && r.unwrap_err() == rusb::Error::InvalidParam,
{
    handle.inner.read_bulk(endpoint, buf, Duration::from_millis(u64::from(timeout_ms)))
}

/// `DeviceHandle::write_bulk`: a count it returns is the number of bytes of
/// `buf` that were written, so it is within the buffer, and an endpoint that
/// is an input is refused with `InvalidParam`. A timeout under a millisecond
/// would block forever, and the length must fit the bus's signed 32-bit count.
#[verifier::external_body]
pub(crate) fn bulk_write(handle: &BusHandle, endpoint: u8, buf: &[u8], timeout_ms: u32) -> (r:
    Result<usize, rusb::Error>)
    requires
        timeout_ms >= 1,
        buf@.len() <= i32::MAX,
    ensures
        r matches Ok(n) ==> n <= buf@.len(),
        is_input(endpoint) ==> r.is_err() && r.unwrap_err() == rusb::Error::InvalidParam,
{
    handle.inner.write_bulk(endpoint, buf, Duration::from_millis(u64::from(timeout_ms)))
}

} // verus!
