//! Errors, and the guard that turns a native call's error slot into one.

use vstd::prelude::*;

verus! {

/// The category of a failure.
#[derive(Clone, Copy, Debug, PartialEq, Eq, Structural)]
pub enum ErrorKind {
    /// The device was unplugged or stopped answering.
    CameraDisconnected,
    /// The operating system's device backend failed.
    Backend,
    /// An argument was out of its allowed range.
    InvalidValue,
    /// A call was made in a state that does not allow it.
    WrongApiCallSequence,
    /// The device or the native library does not implement the call.
    NotImplemented,
    /// The device is in recovery mode.
    DeviceInRecoveryMode,
    /// A read or write to the device failed.
    Io,
    /// The native library reported a failure it did not categorise.
    Unknown,
    /// A frame matches none of the known frame kinds.
    UnsupportedExtension,
    /// A pixel coordinate lies outside the frame.
    OutOfBounds,
    /// No device and stream combination satisfies a configuration.
    UnsatisfiableConfiguration,
    /// A frame's buffer is too small for its declared layout.
    InvalidLayout,
}

/// The category that the native exception code `code` stands for.
pub open spec fn category_of(code: u32) -> ErrorKind {
    if code == 1 {
        ErrorKind::CameraDisconnected
    } else if code == 2 {
        ErrorKind::Backend
    } else if code == 3 {
        ErrorKind::InvalidValue
    } else if code == 4 {
        ErrorKind::WrongApiCallSequence
    } else if code == 5 {
        ErrorKind::NotImplemented
    } else if code == 6 {
        ErrorKind::DeviceInRecoveryMode
    } else if code == 7 {
        ErrorKind::Io
    } else {
        ErrorKind::Unknown
    }
}

/// Maps a native exception code to its category; an unlisted code is `Unknown`.
pub fn category_from_native(code: u32) -> (r: ErrorKind)
    ensures
        r == category_of(code),
{
    match code {
        1 => ErrorKind::CameraDisconnected,
        2 => ErrorKind::Backend,
        3 => ErrorKind::InvalidValue,
        4 => ErrorKind::WrongApiCallSequence,
        5 => ErrorKind::NotImplemented,
        6 => ErrorKind::DeviceInRecoveryMode,
        7 => ErrorKind::Io,
        _ => ErrorKind::Unknown,
    }
}

/// A failure, with its category and a readable message.
#[derive(Debug)]
pub struct RsError {
    pub kind: ErrorKind,
    pub message: String,
}

impl RsError {
    /// An error of the given kind.
    pub fn new(kind: ErrorKind, message: String) -> (r: RsError)
        ensures
            r.kind == kind,
            r.message@ == message@,
    {
        RsError { kind, message }
    }

    /// The error's message.
    pub fn message(&self) -> (r: &str)
        ensures
            r@ == self.message@,
    {
        self.message.as_str()
    }
}

/// What a native call left in its error slot after failing.
#[derive(Debug)]
pub struct NativeError {
    /// The native exception type.
    pub code: u32,
    /// The native error message.
    pub message: String,
}

/// The guard around every native call: an empty error slot hands the call's
/// result through unchanged, a filled one becomes an error of its category.
pub fn check_native<T>(value: T, slot: Option<NativeError>) -> (r: Result<T, RsError>)
    ensures
        slot is None ==> r == Ok::<T, RsError>(value),
        slot matches Some(e) ==> (r matches Err(x) && x.kind == category_of(e.code)
            && x.message@ == e.message@),
{
    match slot {
        None => Ok(value),
        Some(e) => {
            let kind = category_from_native(e.code);
            Err(RsError { kind, message: e.message })
        },
    }
}

} // verus!
