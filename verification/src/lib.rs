//! Driver for a class of USB sensor devices: enumeration and identity
//! matching, an exclusive device session, a synchronous command/response
//! protocol over fixed bulk endpoints, and a reset that is guaranteed to
//! happen at most once per session.

use vstd::prelude::*;

pub mod protocol;
pub mod transport;
pub mod usb;

use crate::usb::UsbDevice;

verus! {

/// Everything that can go wrong in this driver. Bus-level faults carry the
/// transport's own error; protocol-level faults carry the device's literal
/// status code where there is one.
#[derive(Debug)]
pub enum DriverError {
    /// Enumerating the bus failed.
    ListDevices(rusb::Error),
    /// A device descriptor could not be read.
    DeviceDescription(rusb::Error),
    /// No device sits at the requested bus and address.
    GetDeviceNotFound,
    /// A device sits at the requested bus and address but its identity is
    /// not in the supported table.
    GetDeviceFoundUnsupported,
    /// The transport refused to open the device.
    OpenDevice(rusb::Error),
    /// Writing the command failed, a timeout included.
    UsbWrite(rusb::Error),
    /// The command was written only in part; nothing was retried.
    UsbWritePartial,
    /// Reading the response failed, a timeout included.
    UsbReadResponse(rusb::Error),
    /// The transport could not reset the device.
    UsbReset(rusb::Error),
    /// The response is too short to carry a status code.
    UsbInitInvalid,
    /// The device reported a nonzero status code other than the signature
    /// failure.
    UsbInitFailed(u16),
    /// The device reported that its firmware signature validation failed.
    UsbInitSignatureFailed(u16),
}

/// Identities (vendor, product) of the devices this driver accepts.
pub open spec fn supported_identities() -> Seq<(u16, u16)> {
    seq![(0x138au16, 0x0097u16)]
}

/// Whether a device with the given vendor and product identifiers is
/// supported by this driver.
pub open spec fn spec_supported(vendor: u16, product: u16) -> bool {
    supported_identities().contains((vendor, product))
}

/// Exact-equality check of an identity against the supported table; no
/// wildcard or range matching.
pub fn is_supported(vendor: u16, product: u16) -> (r: bool)
    ensures
        r == spec_supported(vendor, product),
{
    let r = vendor == 0x138a && product == 0x0097;
    proof {
        if r {
            assert(supported_identities()[0] == (vendor, product));
        } else {
            assert(forall|i: int|
                0 <= i < supported_identities().len() ==> supported_identities()[i] != (
                vendor,
                product,
                ));
        }
    }
    r
}

/// Exactly the devices of `s` whose (vendor, product) is supported, in the
/// order they stand in `s`: no supported device omitted, no unsupported
/// device included, no reordering, and each occurrence kept at most once.
pub open spec fn spec_filter_supported(s: Seq<UsbDevice>) -> Seq<UsbDevice>
    decreases s.len(),
{
    if s.len() == 0 {
        Seq::empty()
    } else if spec_supported(s.last().vendor, s.last().product) {
        spec_filter_supported(s.drop_last()).push(s.last())
    } else {
        spec_filter_supported(s.drop_last())
    }
}

/// Every device the supported-identity filter keeps is supported.
proof fn lemma_filter_supported_sound(s: Seq<UsbDevice>)
    ensures
        forall|i: int|
            0 <= i < spec_filter_supported(s).len() ==> spec_supported(
                #[trigger] spec_filter_supported(s)[i].vendor,
                spec_filter_supported(s)[i].product,
            ),
    decreases s.len(),
{
    if s.len() > 0 {
        lemma_filter_supported_sound(s.drop_last());
        let rest = spec_filter_supported(s.drop_last());
        assert forall|i: int| 0 <= i < spec_filter_supported(s).len() implies spec_supported(
            #[trigger] spec_filter_supported(s)[i].vendor,
            spec_filter_supported(s)[i].product,
        ) by {
            if i < rest.len() {
                assert(spec_filter_supported(s)[i] == rest[i]);
            } else {
                assert(spec_filter_supported(s)[i] == s.last());
            }
        }
    }
}

/// The supported-identity filter, run over the devices as probed: the
/// result is exactly the subsequence whose identity is in the table, in
/// the order given.
pub fn filter_supported(probed: Vec<UsbDevice>) -> (r: Vec<UsbDevice>)
    ensures
        r@ == spec_filter_supported(probed@),
{
    let ghost all = probed@;
    let mut rest = probed;
    let mut kept: Vec<UsbDevice> = Vec::new();
    while rest.len() > 0
        invariant
            rest@.len() <= all.len(),
            rest@ == all.skip(all.len() - rest@.len()),
            kept@ == spec_filter_supported(all.take(all.len() - rest@.len())),
        decreases rest@.len(),
    {
        let ghost k = all.len() - rest@.len();
        let d = rest.remove(0);
        proof {
            assert(d == all[k]);
            assert(rest@ =~= all.skip(k + 1));
            assert(all.take(k + 1).drop_last() =~= all.take(k));
            assert(all.take(k + 1).last() == all[k]);
        }
        if is_supported(d.vendor, d.product) {
            kept.push(d);
        }
    }
    proof {
        assert(all.take(all.len() as int) =~= all);
    }
    kept
}

/// Read the identity and position of every enumerated device, in
/// enumeration order, one probe per device; the first descriptor failure
/// aborts the whole scan instead of skipping the device.
fn probe_devices(devs: &Vec<transport::TransportDevice>) -> (r: Result<Vec<UsbDevice>, DriverError>)
    ensures
        match r {
            Ok(probed) => probed@.len() == devs@.len() && forall|i: int|
                0 <= i < probed@.len() ==> #[trigger] probed@[i].dev == devs@[i],
            Err(e) => e matches DriverError::DeviceDescription(_),
        },
{
    let mut probed: Vec<UsbDevice> = Vec::new();
    let mut idx: usize = 0;
    while idx < devs.len()
        invariant
            idx <= devs@.len(),
            probed@.len() == idx,
            forall|i: int| 0 <= i < idx ==> #[trigger] probed@[i].dev == devs@[i],
        decreases devs@.len() - idx,
    {
        let desc = match transport::device_descriptor(&devs[idx]) {
            Ok(d) => d,
            Err(e) => {
                return Err(DriverError::DeviceDescription(e));
            },
        };
        let vendor = transport::descriptor_vendor_id(&desc);
        let product = transport::descriptor_product_id(&desc);
        let bus = transport::device_bus_number(&devs[idx]);
        let address = transport::device_address(&devs[idx]);
        let dev = transport::clone_device(&devs[idx]);
        probed.push(UsbDevice { dev, vendor, product, bus, address });
        idx = idx + 1;
    }
    Ok(probed)
}

/// List the supported USB devices: enumerate the bus, read each device's
/// identity, and keep exactly those whose (vendor, product) is in the
/// supported table, in enumeration order; the selection is the verified
/// [`filter_supported`], whose contract is exact over the probed values.
/// The first descriptor failure aborts the whole scan instead of skipping
/// the device.
pub fn list_supported_devices() -> (r: Result<Vec<UsbDevice>, DriverError>)
    ensures
        match r {
            Ok(found) => forall|i: int|
                0 <= i < found@.len() ==> spec_supported(
                    #[trigger] found@[i].vendor,
                    found@[i].product,
                ),
            Err(e) => e matches DriverError::ListDevices(_) || e matches DriverError::DeviceDescription(_),
        },
{
    let devs = match transport::all_devices() {
        Ok(d) => d,
        Err(e) => {
            return Err(DriverError::ListDevices(e));
        },
    };
    let probed = match probe_devices(&devs) {
        Ok(p) => p,
        Err(e) => {
            return Err(e);
        },
    };
    let ghost ps = probed@;
    let found = filter_supported(probed);
    proof {
        lemma_filter_supported_sound(ps);
    }
    Ok(found)
}

/// The first device sitting at the requested bus and address: the index of
/// the first pair equal to (busnum, addr), if any pair is; `None` exactly
/// when no pair is. Pairs after the first match play no part.
pub fn find_at(pairs: &Vec<(u8, u8)>, busnum: u8, addr: u8) -> (r: Option<usize>)
    ensures
        match r {
            Some(i) => i < pairs@.len() && pairs@[i as int] == (busnum, addr) && forall|j: int|
                0 <= j < i ==> pairs@[j] != (busnum, addr),
            None => forall|j: int| 0 <= j < pairs@.len() ==> pairs@[j] != (busnum, addr),
        },
{
    let mut idx: usize = 0;
    while idx < pairs.len()
        invariant
            idx <= pairs@.len(),
            forall|j: int| 0 <= j < idx ==> pairs@[j] != (busnum, addr),
        decreases pairs@.len() - idx,
    {
        let p = pairs[idx];
        if p.0 == busnum && p.1 == addr {
            return Some(idx);
        }
        idx = idx + 1;
    }
    None
}

/// The verdict on the identity of the device found at the requested
/// address: success exactly when the identity is supported, and otherwise
/// the distinct found-but-unsupported error — reported, never silently
/// skipped.
pub fn check_identity(vendor: u16, product: u16) -> (r: Result<(), DriverError>)
    ensures
        r is Ok <==> spec_supported(vendor, product),
        r is Err ==> r == Err::<(), DriverError>(DriverError::GetDeviceFoundUnsupported),
{
    if is_supported(vendor, product) {
        Ok(())
    } else {
        Err(DriverError::GetDeviceFoundUnsupported)
    }
}

/// Try to get the device at the given bus number and address. The outcome
/// is decided by the first device sitting there, through the verified
/// [`find_at`] and [`check_identity`], whose contracts are exact over the
/// positions and identity read from the bus: a supported identity yields
/// the handle, an unsupported one the distinct `GetDeviceFoundUnsupported`,
/// and a scan in which no device matches ends in `GetDeviceNotFound`.
pub fn get_device(busnum: u8, addr: u8) -> (r: Result<UsbDevice, DriverError>)
    ensures
        match r {
            Ok(found) => spec_supported(found.vendor, found.product) && found.bus == busnum
                && found.address == addr,
            Err(e) => {
                ||| e matches DriverError::ListDevices(_)
                ||| e matches DriverError::DeviceDescription(_)
                ||| e is GetDeviceNotFound
                ||| e is GetDeviceFoundUnsupported
            },
        },
{
    let devs = match transport::all_devices() {
        Ok(d) => d,
        Err(e) => {
            return Err(DriverError::ListDevices(e));
        },
    };
    let mut pairs: Vec<(u8, u8)> = Vec::new();
    let mut idx: usize = 0;
    while idx < devs.len()
        invariant
            idx <= devs@.len(),
            pairs@.len() == idx,
        decreases devs@.len() - idx,
    {
        let bus = transport::device_bus_number(&devs[idx]);
        let address = transport::device_address(&devs[idx]);
        pairs.push((bus, address));
        idx = idx + 1;
    }
    match find_at(&pairs, busnum, addr) {
        None => Err(DriverError::GetDeviceNotFound),
        Some(i) => {
            let desc = match transport::device_descriptor(&devs[i]) {
                Ok(d) => d,
                Err(e) => {
                    return Err(DriverError::DeviceDescription(e));
                },
            };
            let vendor = transport::descriptor_vendor_id(&desc);
            let product = transport::descriptor_product_id(&desc);
            match check_identity(vendor, product) {
                Ok(()) => {
                    let dev = transport::clone_device(&devs[i]);
                    let p = pairs[i];
                    Ok(UsbDevice { dev, vendor, product, bus: p.0, address: p.1 })
                },
                Err(e) => Err(e),
            }
        },
    }
}

} // verus!
