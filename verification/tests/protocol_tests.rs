use driver::protocol::{
    check_response, require_full_write, ENDPOINT_IN, ENDPOINT_OUT, INIT_CMD_FIRST,
    INIT_CMD_SECOND, STATUS_SIGNATURE_FAILED,
};
use driver::DriverError;

#[test]
fn a_full_write_passes() {
    assert!(require_full_write(0, 0).is_ok());
    assert!(require_full_write(7, 7).is_ok());
}

#[test]
fn a_short_write_is_the_partial_write_error() {
    let r = require_full_write(3, 5);
    assert!(matches!(r, Err(DriverError::UsbWritePartial)));
    let r = require_full_write(0, 1);
    assert!(matches!(r, Err(DriverError::UsbWritePartial)));
}

#[test]
fn wire_constants() {
    assert_eq!(ENDPOINT_OUT, 1);
    assert_eq!(ENDPOINT_IN, 129);
    assert_eq!(INIT_CMD_FIRST, 0x01);
    assert_eq!(INIT_CMD_SECOND, 0x19);
    assert_eq!(STATUS_SIGNATURE_FAILED, 0x044f);
}

#[test]
fn empty_response_is_invalid() {
    let buf: Vec<u8> = Vec::new();
    let r = check_response(&buf, 0);
    assert!(matches!(r, Err(DriverError::UsbInitInvalid)));
}

#[test]
fn one_byte_response_is_invalid_whatever_it_holds() {
    let buf: Vec<u8> = vec![0xff];
    let r = check_response(&buf, 1);
    assert!(matches!(r, Err(DriverError::UsbInitInvalid)));
    let buf = vec![0x00];
    let r = check_response(&buf, 1);
    assert!(matches!(r, Err(DriverError::UsbInitInvalid)));
}

#[test]
fn only_the_bytes_read_count() {
    // The buffer holds a signature-failure code, but the device sent only
    // one byte of it.
    let buf: Vec<u8> = vec![0x4f, 0x04];
    let r = check_response(&buf, 1);
    assert!(matches!(r, Err(DriverError::UsbInitInvalid)));
}

#[test]
fn zero_status_is_success_and_trailing_bytes_are_ignored() {
    let buf: Vec<u8> = vec![0x00, 0x00, 0xab, 0xcd, 0xef];
    let r = check_response(&buf, 5);
    assert!(r.is_ok());
}

#[test]
fn zero_status_two_bytes_exactly() {
    let buf: Vec<u8> = vec![0x00, 0x00];
    let r = check_response(&buf, 2);
    assert!(r.is_ok());
}

#[test]
fn signature_failure_code_is_distinguished() {
    let buf: Vec<u8> = vec![0x4f, 0x04];
    let r = check_response(&buf, 2);
    assert!(matches!(r, Err(DriverError::UsbInitSignatureFailed(0x044f))));
}

#[test]
fn generic_nonzero_status_carries_the_code() {
    let buf: Vec<u8> = vec![0x01, 0x00];
    let r = check_response(&buf, 2);
    assert!(matches!(r, Err(DriverError::UsbInitFailed(0x0001))));
}

#[test]
fn status_is_read_little_endian() {
    let buf: Vec<u8> = vec![0x34, 0x12];
    let r = check_response(&buf, 2);
    assert!(matches!(r, Err(DriverError::UsbInitFailed(0x1234))));
}

#[test]
fn init_sequence_reports_the_second_commands_failure() {
    // The status check the init sequence applies to each response in turn:
    // a first response carrying status zero passes, so the verdict on the
    // exchange is the second response's error, not the first's success.
    let first: Vec<u8> = vec![0x00, 0x00, 0x55];
    let second: Vec<u8> = vec![0x19, 0x00];
    let r1 = check_response(&first, 3);
    assert!(r1.is_ok());
    let r2 = check_response(&second, 2);
    let overall = r1.and(r2);
    assert!(matches!(overall, Err(DriverError::UsbInitFailed(0x0019))));
}
