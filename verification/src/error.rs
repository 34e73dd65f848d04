//! Closed error taxonomy: the symbolic error codes of the external tool
//! with their fixed mapping to small negative integers, and the error
//! kinds every fallible operation of this crate returns.

use vstd::prelude::*;

verus! {

/// Symbolic error codes reported by the external tool.
///
/// Each code corresponds to exactly one integer in `-18..=-1`; the
/// mapping is a bijection on that range (see [`lemma_error_code_bijection`]).
#[derive(Clone, Copy, Debug, PartialEq, Eq, Structural)]
pub enum ErrorCode {
    NoDeviceType,
    MissingArguments,
    DeviceConnError,
    UnknownDeviceType,
    InvalidTx,
    NoPassword,
    BadArgument,
    NotImplemented,
    UnavailableAction,
    DeviceAlreadyInit,
    DeviceAlreadyUnlocked,
    DeviceNotReady,
    UnknownError,
    ActionCanceled,
    DeviceBusy,
    NeedToBeRoot,
    HelpText,
    DeviceNotInitialized,
}

/// The positive magnitude assigned to each code.
pub open spec fn spec_code_u8(c: ErrorCode) -> u8 {
    match c {
        ErrorCode::NoDeviceType => 1,
        ErrorCode::MissingArguments => 2,
        ErrorCode::DeviceConnError => 3,
        ErrorCode::UnknownDeviceType => 4,
        ErrorCode::InvalidTx => 5,
        ErrorCode::NoPassword => 6,
        ErrorCode::BadArgument => 7,
        ErrorCode::NotImplemented => 8,
        ErrorCode::UnavailableAction => 9,
        ErrorCode::DeviceAlreadyInit => 10,
        ErrorCode::DeviceAlreadyUnlocked => 11,
        ErrorCode::DeviceNotReady => 12,
        ErrorCode::UnknownError => 13,
        ErrorCode::ActionCanceled => 14,
        ErrorCode::DeviceBusy => 15,
        ErrorCode::NeedToBeRoot => 16,
        ErrorCode::HelpText => 17,
        ErrorCode::DeviceNotInitialized => 18,
    }
}

/// The signed wire value of a code: always in `-18..=-1`.
pub open spec fn spec_code_i8(c: ErrorCode) -> i8 {
    (-(spec_code_u8(c) as int)) as i8
}

/// The code denoted by a signed wire value, if any.
pub open spec fn spec_code_from_i8(code: i8) -> Option<ErrorCode> {
    if code == -1 {
        Some(ErrorCode::NoDeviceType)
    } else if code == -2 {
        Some(ErrorCode::MissingArguments)
    } else if code == -3 {
        Some(ErrorCode::DeviceConnError)
    } else if code == -4 {
        Some(ErrorCode::UnknownDeviceType)
    } else if code == -5 {
        Some(ErrorCode::InvalidTx)
    } else if code == -6 {
        Some(ErrorCode::NoPassword)
    } else if code == -7 {
        Some(ErrorCode::BadArgument)
    } else if code == -8 {
        Some(ErrorCode::NotImplemented)
    } else if code == -9 {
        Some(ErrorCode::UnavailableAction)
    } else if code == -10 {
        Some(ErrorCode::DeviceAlreadyInit)
    } else if code == -11 {
        Some(ErrorCode::DeviceAlreadyUnlocked)
    } else if code == -12 {
        Some(ErrorCode::DeviceNotReady)
    } else if code == -13 {
        Some(ErrorCode::UnknownError)
    } else if code == -14 {
        Some(ErrorCode::ActionCanceled)
    } else if code == -15 {
        Some(ErrorCode::DeviceBusy)
    } else if code == -16 {
        Some(ErrorCode::NeedToBeRoot)
    } else if code == -17 {
        Some(ErrorCode::HelpText)
    } else if code == -18 {
        Some(ErrorCode::DeviceNotInitialized)
    } else {
        None
    }
}

impl ErrorCode {
    /// The positive magnitude of the code, `1..=18`.
    pub fn as_u8(&self) -> (r: u8)
        ensures
            r == spec_code_u8(*self),
            1 <= r <= 18,
    {
        match self {
            ErrorCode::NoDeviceType => 1,
            ErrorCode::MissingArguments => 2,
            ErrorCode::DeviceConnError => 3,
            ErrorCode::UnknownDeviceType => 4,
            ErrorCode::InvalidTx => 5,
            ErrorCode::NoPassword => 6,
            ErrorCode::BadArgument => 7,
            ErrorCode::NotImplemented => 8,
            ErrorCode::UnavailableAction => 9,
            ErrorCode::DeviceAlreadyInit => 10,
            ErrorCode::DeviceAlreadyUnlocked => 11,
            ErrorCode::DeviceNotReady => 12,
            ErrorCode::UnknownError => 13,
            ErrorCode::ActionCanceled => 14,
            ErrorCode::DeviceBusy => 15,
            ErrorCode::NeedToBeRoot => 16,
            ErrorCode::HelpText => 17,
            ErrorCode::DeviceNotInitialized => 18,
        }
    }

    /// The signed wire value of the code, `-18..=-1`.
    pub fn as_i8(&self) -> (r: i8)
        ensures
            r == spec_code_i8(*self),
            -18 <= r <= -1,
    {
        let magnitude = self.as_u8();
        -(magnitude as i8)
    }

    /// Decodes a signed wire value into a code; values outside
    /// `-18..=-1` are rejected as a decode failure.
    pub fn try_from_i8(code: i8) -> (r: Result<ErrorCode, Error>)
        ensures
            match spec_code_from_i8(code) {
                Some(c) => r == Ok::<ErrorCode, Error>(c),
                None => r matches Err(e) && e matches Error::Hwi(m, c2) && m@
                    == "invalid error code"@ && c2 is None,
            },
    {
        match code {
            -1 => Ok(ErrorCode::NoDeviceType),
            -2 => Ok(ErrorCode::MissingArguments),
            -3 => Ok(ErrorCode::DeviceConnError),
            -4 => Ok(ErrorCode::UnknownDeviceType),
            -5 => Ok(ErrorCode::InvalidTx),
            -6 => Ok(ErrorCode::NoPassword),
            -7 => Ok(ErrorCode::BadArgument),
            -8 => Ok(ErrorCode::NotImplemented),
            -9 => Ok(ErrorCode::UnavailableAction),
            -10 => Ok(ErrorCode::DeviceAlreadyInit),
            -11 => Ok(ErrorCode::DeviceAlreadyUnlocked),
            -12 => Ok(ErrorCode::DeviceNotReady),
            -13 => Ok(ErrorCode::UnknownError),
            -14 => Ok(ErrorCode::ActionCanceled),
            -15 => Ok(ErrorCode::DeviceBusy),
            -16 => Ok(ErrorCode::NeedToBeRoot),
            -17 => Ok(ErrorCode::HelpText),
            -18 => Ok(ErrorCode::DeviceNotInitialized),
            _ => Err(Error::hwi_plain("invalid error code")),
        }
    }
}

/// The error code mapping is a bijection between the 18 symbolic codes
/// and the integers `-18..=-1`: decoding an encoded code gives it back,
/// encoding a decoded integer gives the integer back, and nothing
/// outside the range decodes.
pub proof fn lemma_error_code_bijection()
    ensures
        forall|c: ErrorCode| spec_code_from_i8(#[trigger] spec_code_i8(c)) == Some(c),
        forall|i: i8|
            -18 <= i <= -1 ==> (#[trigger] spec_code_from_i8(i)) is Some
                && spec_code_i8(spec_code_from_i8(i).unwrap()) == i,
        forall|i: i8| !(-18 <= i <= -1) ==> #[trigger] spec_code_from_i8(i) is None,
{
    assert forall|c: ErrorCode| spec_code_from_i8(#[trigger] spec_code_i8(c)) == Some(c) by {
        let m = spec_code_u8(c);
        assert(1 <= m <= 18);
    }
}

/// One error kind per failure class of the pipeline: JSON decoding,
/// text encoding, process I/O, a failure the tool itself reported
/// (with its symbolic code when one was recognized), a failure raised
/// inside the embedded interpreter, and an operation the chosen
/// backend does not offer.
#[derive(Clone, Debug)]
pub enum Error {
    Json(String),
    Utf8(String),
    Io(String),
    Hwi(String, Option<ErrorCode>),
    Python(String),
    NotImplemented,
}

impl Error {
    /// A tool-reported failure with no symbolic code.
    pub fn hwi_plain(message: &str) -> (r: Error)
        ensures
            r matches Error::Hwi(m, c) && m@ == message@ && c is None,
    {
        Error::Hwi(message.to_owned(), None)
    }

    /// True for tool-reported failures.
    pub fn is_hwi(&self) -> (r: bool)
        ensures
            r == (*self matches Error::Hwi(_, _)),
    {
        match self {
            Error::Hwi(_, _) => true,
            _ => false,
        }
    }

    /// The symbolic code attached to a tool-reported failure, if any.
    pub fn code(&self) -> (r: Option<ErrorCode>)
        ensures
            match *self {
                Error::Hwi(_, c) => r == c,
                _ => r is None,
            },
    {
        match self {
            Error::Hwi(_, c) => *c,
            _ => None,
        }
    }
}

} // verus!
