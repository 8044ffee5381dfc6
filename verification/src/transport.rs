//! The boundary to the platform USB library (rusb): type declarations for
//! the transport's opaque types and one trusted wrapper per transport call
//! that the driver relies on. Everything else in the crate is verified
//! against the contracts stated here.

use vstd::prelude::*;

verus! {

#[verifier::external_type_specification]
#[verifier::external_body]
pub struct ExError(rusb::Error);

#[verifier::external_type_specification]
#[verifier::external_body]
pub struct ExDeviceDescriptor(rusb::DeviceDescriptor);

/// An enumeration-time reference to one device node on the bus. The
/// transport's own reference type is generic over its context, which Verus
/// cannot declare, so this crate holds the one instantiation it uses behind
/// an opaque struct.
#[verifier::external_body]
pub struct TransportDevice {
    dev: rusb::Device<rusb::GlobalContext>,
}

/// An exclusively owned open connection to one device, opaque for the same
/// reason as [`TransportDevice`]. Its drop releases the connection.
#[verifier::external_body]
pub struct TransportHandle {
    hnd: rusb::DeviceHandle<rusb::GlobalContext>,
}

/// Relies on rusb::devices and rusb::DeviceList::iter: every device
/// currently on the bus, in enumeration order, collected into a vector.
/// Enumeration failures come back as the error; the one fault rusb does
/// not return is a failed initialization of its global libusb context,
/// which it treats as fatal (an out-of-memory-class condition) and panics
/// on.
#[verifier::external_body]
pub(crate) fn all_devices() -> (r: Result<Vec<TransportDevice>, rusb::Error>) {
    Ok(rusb::devices()?.iter().map(|dev| TransportDevice { dev }).collect())
}

/// Relies on rusb::Device::clone: a further reference to the same device
/// node, equal field for field to the one cloned (the context it carries is
/// a unit type).
#[verifier::external_body]
pub(crate) fn clone_device(dev: &TransportDevice) -> (r: TransportDevice)
    ensures
        r == *dev,
{
    TransportDevice { dev: dev.dev.clone() }
}

/// Relies on rusb::Device::bus_number.
#[verifier::external_body]
pub(crate) fn device_bus_number(dev: &TransportDevice) -> (r: u8) {
    dev.dev.bus_number()
}

/// Relies on rusb::Device::address.
#[verifier::external_body]
pub(crate) fn device_address(dev: &TransportDevice) -> (r: u8) {
    dev.dev.address()
}

/// Relies on rusb::Device::device_descriptor.
#[verifier::external_body]
pub(crate) fn device_descriptor(dev: &TransportDevice) -> (r: Result<
    rusb::DeviceDescriptor,
    rusb::Error,
>) {
    dev.dev.device_descriptor()
}

/// Relies on rusb::DeviceDescriptor::vendor_id.
#[verifier::external_body]
pub(crate) fn descriptor_vendor_id(desc: &rusb::DeviceDescriptor) -> (r: u16) {
    desc.vendor_id()
}

/// Relies on rusb::DeviceDescriptor::product_id.
#[verifier::external_body]
pub(crate) fn descriptor_product_id(desc: &rusb::DeviceDescriptor) -> (r: u16) {
    desc.product_id()
}

/// Relies on rusb::Device::open: an exclusive handle to the device, or the
/// transport's refusal.
#[verifier::external_body]
pub(crate) fn open_device(dev: &TransportDevice) -> (r: Result<TransportHandle, rusb::Error>) {
    Ok(TransportHandle { hnd: dev.dev.open()? })
}

/// Relies on rusb::DeviceHandle::write_bulk: on success, the number of bytes
/// the transport took from the front of `data`, never more than it holds.
#[verifier::external_body]
pub(crate) fn write_bulk(hnd: &TransportHandle, endpoint: u8, data: &[u8], timeout_ms: u64) -> (r:
    Result<usize, rusb::Error>)
    ensures
        r matches Ok(n) ==> n <= data@.len(),
{
    hnd.hnd.write_bulk(endpoint, data, core::time::Duration::from_millis(timeout_ms))
}

/// Relies on rusb::DeviceHandle::read_bulk: on success, the number of bytes
/// the device placed at the front of `buf`, never more than it holds; the
/// buffer keeps its length, and what the bytes are is the device's choice.
#[verifier::external_body]
pub(crate) fn read_bulk(
    hnd: &TransportHandle,
    endpoint: u8,
    buf: &mut Vec<u8>,
    timeout_ms: u64,
) -> (r: Result<usize, rusb::Error>)
    ensures
        final(buf)@.len() == old(buf)@.len(),
        r matches Ok(n) ==> n <= final(buf)@.len(),
{
    hnd.hnd.read_bulk(endpoint, buf.as_mut_slice(), core::time::Duration::from_millis(timeout_ms))
}

/// Relies on rusb::DeviceHandle::reset to ask the transport for a device
/// reset; whether it succeeds is the transport's choice.
#[verifier::external_body]
pub(crate) fn reset_device(hnd: &TransportHandle) -> (r: Result<(), rusb::Error>) {
    hnd.hnd.reset()
}

} // verus!
