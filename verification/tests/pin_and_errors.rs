use credman::error::{
    FIDO_ERR_PIN_BLOCKED, FIDO_ERR_PIN_INVALID, FIDO_ERR_PIN_REQUIRED,
    FIDO_ERR_UNSUPPORTED_OPTION, FIDO_OK,
};
use credman::encoding::{can_encode, contains_nul};
use credman::{check, DeviceError, Error, PinHolder};

#[test]
fn pin_is_held_with_its_terminator() {
    let holder = PinHolder::new("123456").unwrap();
    assert_eq!(holder.as_bytes_with_nul(), b"123456\0");
    assert_eq!(holder.len(), 7);
}

#[test]
fn empty_pin_is_only_the_terminator() {
    let holder = PinHolder::new("").unwrap();
    assert_eq!(holder.as_bytes_with_nul(), &[0u8]);
    assert_eq!(holder.len(), 1);
}

#[test]
fn pin_outside_ascii_keeps_its_bytes() {
    let holder = PinHolder::new("pä55").unwrap();
    assert_eq!(holder.as_bytes_with_nul(), &[b'p', 0xc3, 0xa4, b'5', b'5', 0]);
}

#[test]
fn pin_with_a_nul_is_refused() {
    assert!(matches!(PinHolder::new("12\u{0}34"), Err(Error::Encoding)));
    assert!(matches!(PinHolder::new("\u{0}"), Err(Error::Encoding)));
    assert!(matches!(PinHolder::new("1234\u{0}"), Err(Error::Encoding)));
}

#[test]
fn wiped_pin_is_all_zeros() {
    let mut holder = PinHolder::new("hunter2!").unwrap();
    assert!(holder.as_bytes_with_nul().iter().any(|b| *b != 0));
    holder.wipe();
    assert_eq!(holder.len(), 9);
    assert_eq!(holder.as_bytes_with_nul(), &[0u8; 9]);
    assert!(holder.as_bytes_with_nul().iter().all(|b| *b == 0));
}

#[test]
fn wiping_twice_changes_nothing_more() {
    let mut holder = PinHolder::new("0000").unwrap();
    holder.wipe();
    holder.wipe();
    assert_eq!(holder.as_bytes_with_nul(), &[0u8; 5]);
}

#[test]
fn status_constants_have_their_values() {
    assert_eq!(FIDO_OK, 0);
    assert_eq!(FIDO_ERR_UNSUPPORTED_OPTION, 43);
    assert_eq!(FIDO_ERR_PIN_INVALID, 49);
    assert_eq!(FIDO_ERR_PIN_BLOCKED, 50);
    assert_eq!(FIDO_ERR_PIN_REQUIRED, 54);
}

#[test]
fn success_is_ok() {
    assert_eq!(check(0), Ok(()));
}

#[test]
fn each_named_status_has_its_kind() {
    assert_eq!(check(0x31), Err(Error::Device(DeviceError::WrongPin)));
    assert_eq!(check(0x36), Err(Error::Device(DeviceError::PinRequired)));
    assert_eq!(check(0x32), Err(Error::Device(DeviceError::PinBlocked)));
    assert_eq!(check(0x2b), Err(Error::Device(DeviceError::Unsupported)));
}

#[test]
fn other_statuses_keep_their_number() {
    assert_eq!(check(-1), Err(Error::Device(DeviceError::Other(-1))));
    assert_eq!(check(0x28), Err(Error::Device(DeviceError::Other(0x28))));
    assert_eq!(check(0x2e), Err(Error::Device(DeviceError::Other(0x2e))));
    assert_eq!(check(i32::MIN), Err(Error::Device(DeviceError::Other(i32::MIN))));
    assert_eq!(check(i32::MAX), Err(Error::Device(DeviceError::Other(i32::MAX))));
}

#[test]
fn wrong_pin_is_not_a_transport_failure() {
    let rejected = check(FIDO_ERR_PIN_INVALID);
    let transport = check(-2);
    assert_ne!(rejected, transport);
    assert_eq!(rejected, Err(Error::Device(DeviceError::WrongPin)));
    assert!(matches!(transport, Err(Error::Device(DeviceError::Other(-2)))));
}

#[test]
fn no_failing_status_is_taken_for_success() {
    for status in -20..100 {
        let r = check(status);
        if status == 0 {
            assert_eq!(r, Ok(()));
        } else {
            assert!(matches!(r, Err(Error::Device(_))));
        }
    }
}

#[test]
fn every_error_has_a_message() {
    assert_eq!(Error::Encoding.message(), "string contains a NUL byte");
    assert_eq!(Error::Device(DeviceError::WrongPin).message(), "wrong PIN");
    assert_eq!(Error::Device(DeviceError::PinRequired).message(), "PIN required");
    assert_eq!(Error::Device(DeviceError::PinBlocked).message(), "PIN blocked");
    assert_eq!(
        Error::Device(DeviceError::Unsupported).message(),
        "not supported by the authenticator"
    );
    assert_eq!(
        Error::Device(DeviceError::Other(7)).message(),
        "authenticator reported a failure"
    );
    assert_eq!(Error::InvalidArgument.message(), "invalid argument");
    assert_eq!(Error::IndexOutOfRange.message(), "index out of range");
}

#[test]
fn nul_is_found_wherever_it_stands() {
    assert!(!contains_nul(b""));
    assert!(!contains_nul(b"example.com"));
    assert!(contains_nul(b"\0example"));
    assert!(contains_nul(b"exam\0ple"));
    assert!(contains_nul(b"example\0"));
    assert!(contains_nul(&[0]));
}

#[test]
fn text_without_nul_can_be_encoded() {
    assert!(can_encode(""));
    assert!(can_encode("Alice A."));
    assert!(can_encode("Zo\u{eb}"));
    assert!(!can_encode("a\u{0}b"));
}

#[test]
fn different_statuses_are_read_differently() {
    let statuses = [0, 0x2b, 0x31, 0x32, 0x36, 0x28, 0x2e, -1, -9, 1];
    for a in statuses {
        for b in statuses {
            assert_eq!(check(a) == check(b), a == b);
        }
    }
}

#[test]
fn held_pin_always_ends_in_a_nul() {
    let mut holder = PinHolder::new("9").unwrap();
    assert_eq!(holder.as_bytes_with_nul().last(), Some(&0));
    holder.wipe();
    assert_eq!(holder.as_bytes_with_nul().last(), Some(&0));
}
