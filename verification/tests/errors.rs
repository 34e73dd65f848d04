//! The error-code table: bijection with `-18..=-1`, rejection outside.

use hwi::error::Error;
use hwi::error::ErrorCode;

const ALL_CODES: [ErrorCode; 18] = [
    ErrorCode::NoDeviceType,
    ErrorCode::MissingArguments,
    ErrorCode::DeviceConnError,
    ErrorCode::UnknownDeviceType,
    ErrorCode::InvalidTx,
    ErrorCode::NoPassword,
    ErrorCode::BadArgument,
    ErrorCode::NotImplemented,
    ErrorCode::UnavailableAction,
    ErrorCode::DeviceAlreadyInit,
    ErrorCode::DeviceAlreadyUnlocked,
    ErrorCode::DeviceNotReady,
    ErrorCode::UnknownError,
    ErrorCode::ActionCanceled,
    ErrorCode::DeviceBusy,
    ErrorCode::NeedToBeRoot,
    ErrorCode::HelpText,
    ErrorCode::DeviceNotInitialized,
];

#[test]
fn test_error_code_round_trip_all() {
    for c in -18i8..=-1i8 {
        let code = ErrorCode::try_from_i8(c).unwrap();
        assert_eq!(code.as_i8(), c);
    }
}

#[test]
fn test_error_code_encode_then_decode() {
    for code in ALL_CODES {
        let i = code.as_i8();
        assert!((-18..=-1).contains(&i));
        assert_eq!(ErrorCode::try_from_i8(i).unwrap(), code);
    }
}

#[test]
fn test_error_code_magnitudes() {
    assert_eq!(ErrorCode::NoDeviceType.as_u8(), 1);
    assert_eq!(ErrorCode::BadArgument.as_u8(), 7);
    assert_eq!(ErrorCode::DeviceNotInitialized.as_u8(), 18);
    assert_eq!(ErrorCode::BadArgument.as_i8(), -7);
}

#[test]
fn test_error_code_out_of_range() {
    match ErrorCode::try_from_i8(0) {
        Err(Error::Hwi(m, None)) => assert_eq!(m, "invalid error code"),
        _ => panic!("an out-of-range code is a decode failure, never a panic"),
    }
    assert!(matches!(ErrorCode::try_from_i8(-19), Err(Error::Hwi(_, None))));
    assert!(matches!(ErrorCode::try_from_i8(1), Err(Error::Hwi(_, None))));
    assert!(matches!(ErrorCode::try_from_i8(127), Err(Error::Hwi(_, None))));
    assert!(matches!(ErrorCode::try_from_i8(-128), Err(Error::Hwi(_, None))));
}

#[test]
fn test_error_accessors() {
    let e = Error::Hwi("boom".to_string(), Some(ErrorCode::DeviceBusy));
    assert!(e.is_hwi());
    assert_eq!(e.code(), Some(ErrorCode::DeviceBusy));
    let j = Error::Json("bad".to_string());
    assert!(!j.is_hwi());
    assert_eq!(j.code(), None);
}
