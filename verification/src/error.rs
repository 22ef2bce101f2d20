use vstd::prelude::*;

verus! {

/// Status code the backend returns on success.
pub const CUBEB_OK: i32 = 0;

/// Status code of an unclassified failure.
pub const CUBEB_ERROR: i32 = -1;

/// Status code of a request for unsupported stream parameters.
pub const CUBEB_ERROR_INVALID_FORMAT: i32 = -2;

/// Status code of an invalid parameter.
pub const CUBEB_ERROR_INVALID_PARAMETER: i32 = -3;

/// Status code of an optional function that the backend does not implement.
pub const CUBEB_ERROR_NOT_SUPPORTED: i32 = -4;

/// Status code of a device that is not available.
pub const CUBEB_ERROR_DEVICE_UNAVAILABLE: i32 = -5;

/// Whether `code` is one of the status codes the backend is documented to return.
pub open spec fn is_known_status(code: i32) -> bool {
    CUBEB_ERROR_DEVICE_UNAVAILABLE <= code <= CUBEB_OK
}

/// Kind of failure reported by the audio backend.
#[derive(Debug, Clone, Copy, PartialEq, Eq, Structural)]
pub enum ErrorKind {
    General,
    InvalidFormat,
    InvalidParameter,
    NotSupported,
    DeviceUnavailable,
}

impl ErrorKind {
    /// The status code by which the backend reports this kind of failure.
    pub open spec fn code(self) -> i32 {
        match self {
            ErrorKind::General => CUBEB_ERROR,
            ErrorKind::InvalidFormat => CUBEB_ERROR_INVALID_FORMAT,
            ErrorKind::InvalidParameter => CUBEB_ERROR_INVALID_PARAMETER,
            ErrorKind::NotSupported => CUBEB_ERROR_NOT_SUPPORTED,
            ErrorKind::DeviceUnavailable => CUBEB_ERROR_DEVICE_UNAVAILABLE,
        }
    }

    /// The kinds of failure in the order of their status codes: the kind at
    /// position `i` is reported by the code `-(i + 1)`.
    pub open spec fn in_code_order() -> Seq<ErrorKind> {
        seq![
            ErrorKind::General,
            ErrorKind::InvalidFormat,
            ErrorKind::InvalidParameter,
            ErrorKind::NotSupported,
            ErrorKind::DeviceUnavailable,
        ]
    }

    /// The failure that a known status code reports, `None` for success.
    pub open spec fn of_code(code: i32) -> Option<ErrorKind> {
        if exists|k: ErrorKind| k.code() == code {
            Some(choose|k: ErrorKind| k.code() == code)
        } else {
            None
        }
    }

    /// The human readable text of this kind of failure.
    pub open spec fn text(self) -> Seq<char> {
        match self {
            ErrorKind::General => "Unclassified error."@,
            ErrorKind::InvalidFormat => "Unsupported #cubeb_stream_params requested."@,
            ErrorKind::InvalidParameter => "Invalid parameter specified."@,
            ErrorKind::NotSupported => "Optional function not implemented in current backend."@,
            ErrorKind::DeviceUnavailable => "Device specified by #cubeb_devid not available."@,
        }
    }

    /// Decodes a status code of the backend: `None` for success, the kind of
    /// failure otherwise. A code outside the documented ones is a broken backend,
    /// which callers must not pass.
    pub fn from_code(other: i32) -> (r: Option<Self>)
        requires
            is_known_status(other),
        ensures
            r == Self::of_code(other),
            r is None <==> other == CUBEB_OK,
            r matches Some(k) ==> k.code() == other,
            r matches Some(k) ==> Self::in_code_order()[-other - 1] == k,
    {
        proof {
            lemma_error_code_decodes(other);
        }
        if other == CUBEB_OK {
            None
        } else if other == CUBEB_ERROR {
            Some(ErrorKind::General)
        } else if other == CUBEB_ERROR_INVALID_FORMAT {
            Some(ErrorKind::InvalidFormat)
        } else if other == CUBEB_ERROR_INVALID_PARAMETER {
            Some(ErrorKind::InvalidParameter)
        } else if other == CUBEB_ERROR_NOT_SUPPORTED {
            Some(ErrorKind::NotSupported)
        } else {
            Some(ErrorKind::DeviceUnavailable)
        }
    }

    /// The human readable text of this kind of failure.
    pub fn description(&self) -> (r: &'static str)
        ensures
            r@ == self.text(),
    {
        match *self {
            ErrorKind::General => "Unclassified error.",
            ErrorKind::InvalidFormat => "Unsupported #cubeb_stream_params requested.",
            ErrorKind::InvalidParameter => "Invalid parameter specified.",
            ErrorKind::NotSupported => "Optional function not implemented in current backend.",
            ErrorKind::DeviceUnavailable => "Device specified by #cubeb_devid not available.",
        }
    }

    /// The displayed form of this kind of failure: its description.
    pub fn to_string(&self) -> (r: String)
        ensures
            r@ == self.text(),
    {
        self.description().to_owned()
    }
}

/// Decoding a status code undoes the encoding of a kind of failure, and every
/// kind is reported by a failure code, never by the success code.
pub proof fn lemma_error_kind_code_round_trip(kind: ErrorKind)
    ensures
        ErrorKind::of_code(kind.code()) == Some(kind),
        is_known_status(kind.code()),
        kind.code() != CUBEB_OK,
{
}

/// Every known status code other than success decodes to a kind of failure whose
/// code it is; so two kinds with the same code are the same kind.
pub proof fn lemma_error_code_decodes(code: i32)
    requires
        is_known_status(code),
    ensures
        ErrorKind::of_code(code) is None <==> code == CUBEB_OK,
        ErrorKind::of_code(code) matches Some(k) ==> k.code() == code,
{
    if code == CUBEB_ERROR {
        assert(ErrorKind::General.code() == code);
    } else if code == CUBEB_ERROR_INVALID_FORMAT {
        assert(ErrorKind::InvalidFormat.code() == code);
    } else if code == CUBEB_ERROR_INVALID_PARAMETER {
        assert(ErrorKind::InvalidParameter.code() == code);
    } else if code == CUBEB_ERROR_NOT_SUPPORTED {
        assert(ErrorKind::NotSupported.code() == code);
    } else if code == CUBEB_ERROR_DEVICE_UNAVAILABLE {
        assert(ErrorKind::DeviceUnavailable.code() == code);
    }
}

/// The status code of each kind of failure is minus one minus its position in the
/// order of the backend's codes: `-1` for an unclassified error down to `-5` for
/// an unavailable device; every failure code in that range reports exactly the
/// kind at its position.
pub proof fn lemma_error_code_is_position(kind: ErrorKind, code: i32)
    ensures
        ErrorKind::in_code_order().len() == 5,
        ErrorKind::in_code_order()[-kind.code() - 1] == kind,
        CUBEB_ERROR_DEVICE_UNAVAILABLE <= code <= CUBEB_ERROR ==> ErrorKind::of_code(code) == Some(
            ErrorKind::in_code_order()[-code - 1],
        ),
{
    if is_known_status(code) {
        lemma_error_code_decodes(code);
    }
    if code == CUBEB_ERROR {
        assert(ErrorKind::in_code_order()[0] == ErrorKind::General);
    } else if code == CUBEB_ERROR_INVALID_FORMAT {
        assert(ErrorKind::in_code_order()[1] == ErrorKind::InvalidFormat);
    } else if code == CUBEB_ERROR_INVALID_PARAMETER {
        assert(ErrorKind::in_code_order()[2] == ErrorKind::InvalidParameter);
    } else if code == CUBEB_ERROR_NOT_SUPPORTED {
        assert(ErrorKind::in_code_order()[3] == ErrorKind::NotSupported);
    } else if code == CUBEB_ERROR_DEVICE_UNAVAILABLE {
        assert(ErrorKind::in_code_order()[4] == ErrorKind::DeviceUnavailable);
    }
}

/// Two kinds of failure are reported by the same status code only if they are
/// the same kind.
pub proof fn lemma_error_kind_code_injective(a: ErrorKind, b: ErrorKind)
    ensures
        a.code() == b.code() <==> a == b,
{
}

/// Error returned by the audio library.
#[derive(Debug, Clone, Copy, PartialEq, Eq, Structural)]
pub enum Error {
    Cubeb(ErrorKind),
}

impl Error {
    /// The error, if any, that a known status code reports.
    pub open spec fn of_code(code: i32) -> Option<Error> {
        match ErrorKind::of_code(code) {
            Some(kind) => Some(Error::Cubeb(kind)),
            None => None,
        }
    }

    /// The kind of failure this error carries.
    pub open spec fn kind(self) -> ErrorKind {
        match self {
            Error::Cubeb(kind) => kind,
        }
    }

    /// Decodes a status code of the backend into an error: `None` for success.
    pub fn cubeb(code: i32) -> (r: Option<Self>)
        requires
            is_known_status(code),
        ensures
            r == Self::of_code(code),
            r is None <==> code == CUBEB_OK,
            r matches Some(e) ==> e.kind().code() == code,
    {
        match ErrorKind::from_code(code) {
            Some(kind) => Some(Error::Cubeb(kind)),
            None => None,
        }
    }

    /// The description of the underlying kind of failure.
    pub fn description(&self) -> (r: &'static str)
        ensures
            r@ == self.kind().text(),
    {
        match self {
            Error::Cubeb(kind) => kind.description(),
        }
    }

    /// The displayed form of this error: `Cubeb error: ` followed by the
    /// description of its kind.
    pub fn to_string(&self) -> (r: String)
        ensures
            r@ == "Cubeb error: "@ + self.kind().text(),
    {
        match self {
            Error::Cubeb(kind) => {
                let mut s = "Cubeb error: ".to_owned();
                s.append(kind.description());
                s
            },
        }
    }
}

} // verus!
