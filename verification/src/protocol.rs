//! The wire-level command/response protocol: the fixed endpoints, the init
//! command bytes, and the validation of the 16-bit little-endian status code
//! that every status-bearing response starts with.

use crate::DriverError;
use vstd::prelude::*;

verus! {

/// The fixed outbound bulk endpoint commands are written to.
pub const ENDPOINT_OUT: u8 = 1;

/// The fixed inbound bulk endpoint responses are read from.
pub const ENDPOINT_IN: u8 = 129;

/// The first init command byte.
pub const INIT_CMD_FIRST: u8 = 0x01;

/// The second init command byte.
pub const INIT_CMD_SECOND: u8 = 0x19;

/// The distinguished status code reporting that firmware/signature
/// validation failed on the device.
pub const STATUS_SIGNATURE_FAILED: u16 = 0x044f;

/// The status code a response carries: its first two bytes read as a
/// little-endian unsigned 16-bit integer.
pub open spec fn spec_status(resp: Seq<u8>) -> u16
    recommends
        resp.len() >= 2,
{
    (resp[0] + resp[1] * 0x100) as u16
}

/// The verdict on one raw response, given exactly the bytes the device sent
/// back: too short to carry a status code, success, the distinguished
/// signature failure, or a generic device-reported failure carrying the
/// literal code.
pub open spec fn spec_check_status(resp: Seq<u8>) -> Result<(), DriverError> {
    if resp.len() < 2 {
        Err(DriverError::UsbInitInvalid)
    } else if spec_status(resp) == 0 {
        Ok(())
    } else if spec_status(resp) == STATUS_SIGNATURE_FAILED {
        Err(DriverError::UsbInitSignatureFailed(STATUS_SIGNATURE_FAILED))
    } else {
        Err(DriverError::UsbInitFailed(spec_status(resp)))
    }
}

/// The verdict on the write phase of an exchange: the transport must have
/// taken the whole request. A count short of the request is the
/// partial-write failure — nothing is retried and the remainder is never
/// written.
pub fn require_full_write(written: usize, requested: usize) -> (r: Result<(), DriverError>)
    ensures
        r is Ok <==> written == requested,
        r is Err ==> r == Err::<(), DriverError>(DriverError::UsbWritePartial),
{
    if written == requested {
        Ok(())
    } else {
        Err(DriverError::UsbWritePartial)
    }
}

/// Validate the status field of a raw response: the `len` bytes at the
/// front of `buf`, as handed back by the transport. Bytes past the first
/// two play no part in the verdict.
pub fn check_response(buf: &Vec<u8>, len: usize) -> (r: Result<(), DriverError>)
    requires
        len <= buf@.len(),
    ensures
        r == spec_check_status(buf@.take(len as int)),
{
    let ghost resp = buf@.take(len as int);
    if len < 2 {
        return Err(DriverError::UsbInitInvalid);
    }
    let lo = buf[0];
    let hi = buf[1];
    let status: u16 = lo as u16 + hi as u16 * 0x100;
    proof {
        assert(resp[0] == buf@[0] && resp[1] == buf@[1]);
        assert(status == spec_status(resp));
    }
    if status == 0 {
        Ok(())
    } else if status == STATUS_SIGNATURE_FAILED {
        Err(DriverError::UsbInitSignatureFailed(status))
    } else {
        Err(DriverError::UsbInitFailed(status))
    }
}

} // verus!
