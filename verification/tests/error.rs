use cubeb::{
    query_result, Error, ErrorKind, CUBEB_ERROR, CUBEB_ERROR_DEVICE_UNAVAILABLE,
    CUBEB_ERROR_INVALID_FORMAT, CUBEB_ERROR_INVALID_PARAMETER, CUBEB_ERROR_NOT_SUPPORTED,
    CUBEB_OK,
};

#[test]
fn from_code_decodes_every_status() {
    assert_eq!(ErrorKind::from_code(CUBEB_OK), None);
    assert_eq!(ErrorKind::from_code(0), None);
    assert_eq!(ErrorKind::from_code(-1), Some(ErrorKind::General));
    assert_eq!(ErrorKind::from_code(-2), Some(ErrorKind::InvalidFormat));
    assert_eq!(ErrorKind::from_code(-3), Some(ErrorKind::InvalidParameter));
    assert_eq!(ErrorKind::from_code(-4), Some(ErrorKind::NotSupported));
    assert_eq!(ErrorKind::from_code(-5), Some(ErrorKind::DeviceUnavailable));
}

#[test]
fn status_constants_have_backend_values() {
    assert_eq!(CUBEB_OK, 0);
    assert_eq!(CUBEB_ERROR, -1);
    assert_eq!(CUBEB_ERROR_INVALID_FORMAT, -2);
    assert_eq!(CUBEB_ERROR_INVALID_PARAMETER, -3);
    assert_eq!(CUBEB_ERROR_NOT_SUPPORTED, -4);
    assert_eq!(CUBEB_ERROR_DEVICE_UNAVAILABLE, -5);
}

#[test]
fn descriptions_of_every_kind() {
    assert_eq!(ErrorKind::General.description(), "Unclassified error.");
    assert_eq!(
        ErrorKind::InvalidFormat.description(),
        "Unsupported #cubeb_stream_params requested."
    );
    assert_eq!(ErrorKind::InvalidParameter.description(), "Invalid parameter specified.");
    assert_eq!(
        ErrorKind::NotSupported.description(),
        "Optional function not implemented in current backend."
    );
    assert_eq!(
        ErrorKind::DeviceUnavailable.description(),
        "Device specified by #cubeb_devid not available."
    );
}

#[test]
fn error_kind_displays_as_its_description() {
    assert_eq!(ErrorKind::InvalidParameter.to_string(), "Invalid parameter specified.");
    assert_eq!(ErrorKind::General.to_string(), "Unclassified error.");
}

#[test]
fn error_displays_with_prefix() {
    assert_eq!(
        Error::Cubeb(ErrorKind::General).to_string(),
        "Cubeb error: Unclassified error."
    );
    assert_eq!(
        Error::Cubeb(ErrorKind::DeviceUnavailable).to_string(),
        "Cubeb error: Device specified by #cubeb_devid not available."
    );
}

#[test]
fn error_description_is_kind_description() {
    assert_eq!(
        Error::Cubeb(ErrorKind::NotSupported).description(),
        "Optional function not implemented in current backend."
    );
}

#[test]
fn cubeb_wraps_decoded_kind() {
    assert_eq!(Error::cubeb(0), None);
    assert_eq!(Error::cubeb(-1), Some(Error::Cubeb(ErrorKind::General)));
    assert_eq!(Error::cubeb(-2), Some(Error::Cubeb(ErrorKind::InvalidFormat)));
    assert_eq!(Error::cubeb(-3), Some(Error::Cubeb(ErrorKind::InvalidParameter)));
    assert_eq!(Error::cubeb(-4), Some(Error::Cubeb(ErrorKind::NotSupported)));
    assert_eq!(Error::cubeb(-5), Some(Error::Cubeb(ErrorKind::DeviceUnavailable)));
}

#[test]
fn query_result_keeps_value_on_success() {
    assert_eq!(query_result(0, 48000u32), Ok(48000u32));
    assert_eq!(query_result(0, ()), Ok(()));
}

#[test]
fn query_result_reports_error_on_failure() {
    assert_eq!(query_result(-1, 48000u32), Err(Error::Cubeb(ErrorKind::General)));
    assert_eq!(query_result(-4, 2u32), Err(Error::Cubeb(ErrorKind::NotSupported)));
    assert_eq!(query_result(-5, ()), Err(Error::Cubeb(ErrorKind::DeviceUnavailable)));
}

#[test]
fn code_round_trip_on_concrete_kinds() {
    for code in -5..=0 {
        match ErrorKind::from_code(code) {
            None => assert_eq!(code, 0),
            Some(kind) => assert_eq!(Error::cubeb(code), Some(Error::Cubeb(kind))),
        }
    }
}
