use driver::{check_identity, find_at, is_supported, DriverError};

#[test]
fn the_one_supported_identity_matches() {
    assert!(is_supported(0x138a, 0x0097));
}

#[test]
fn a_product_mismatch_excludes_the_device() {
    assert!(!is_supported(0x138a, 0x0098));
    assert!(!is_supported(0x138a, 0x0000));
}

#[test]
fn a_vendor_mismatch_excludes_the_device() {
    assert!(!is_supported(0x138b, 0x0097));
    assert!(!is_supported(0x0000, 0x0097));
}

#[test]
fn both_fields_must_match() {
    assert!(!is_supported(0x0097, 0x138a));
    assert!(!is_supported(0xffff, 0xffff));
}

#[test]
fn find_at_picks_the_first_match() {
    let pairs: Vec<(u8, u8)> = vec![(1, 2), (3, 4), (3, 4), (5, 6)];
    assert_eq!(find_at(&pairs, 3, 4), Some(1));
    assert_eq!(find_at(&pairs, 1, 2), Some(0));
    assert_eq!(find_at(&pairs, 5, 6), Some(3));
}

#[test]
fn find_at_needs_both_fields_to_match() {
    let pairs: Vec<(u8, u8)> = vec![(1, 2), (3, 4)];
    assert_eq!(find_at(&pairs, 1, 4), None);
    assert_eq!(find_at(&pairs, 3, 2), None);
}

#[test]
fn find_at_on_an_empty_bus_finds_nothing() {
    let pairs: Vec<(u8, u8)> = Vec::new();
    assert_eq!(find_at(&pairs, 0, 0), None);
}

#[test]
fn a_supported_identity_passes_the_check() {
    assert!(check_identity(0x138a, 0x0097).is_ok());
}

#[test]
fn an_unsupported_identity_is_reported_not_skipped() {
    let r = check_identity(0x138a, 0x0098);
    assert!(matches!(r, Err(DriverError::GetDeviceFoundUnsupported)));
    let r = check_identity(0xffff, 0x0097);
    assert!(matches!(r, Err(DriverError::GetDeviceFoundUnsupported)));
}
