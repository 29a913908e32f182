//! Native status codes and the typed errors they become.

use vstd::prelude::*;

verus! {

/// The engine's success status.
pub const AOM_CODEC_OK: u32 = 0;

/// Unspecified error.
pub const AOM_CODEC_ERROR: u32 = 1;

/// Memory operation failed.
pub const AOM_CODEC_MEM_ERROR: u32 = 2;

/// The engine implements another revision of the interface.
pub const AOM_CODEC_ABI_MISMATCH: u32 = 3;

/// The engine lacks a capability the call needs.
pub const AOM_CODEC_INCAPABLE: u32 = 4;

/// The bitstream uses a feature the decoder does not support.
pub const AOM_CODEC_UNSUP_BITSTREAM: u32 = 5;

/// The stream needs a feature the engine does not support.
pub const AOM_CODEC_UNSUP_FEATURE: u32 = 6;

/// The frame data is corrupt.
pub const AOM_CODEC_CORRUPT_FRAME: u32 = 7;

/// An application parameter is invalid.
pub const AOM_CODEC_INVALID_PARAM: u32 = 8;

/// An iterator reached the end of its list.
pub const AOM_CODEC_LIST_END: u32 = 9;

/// The operation whose native status is being checked.
#[derive(Clone, Copy, Debug, PartialEq, Eq, Structural)]
pub enum Operation {
    /// Creating an encoder or decoder context.
    Init,
    /// Populating an encoder configuration.
    Configure,
    /// Submitting a frame, or the end of the stream, to the encoder.
    Encode,
    /// Submitting compressed data, or the end of the stream, to the decoder.
    Decode,
    /// Applying a control value to a live encoder.
    Control,
}

/// Every failure of the session layer.
///
/// The variants that come from the engine carry its numeric status code.
#[derive(Clone, Copy, Debug, PartialEq, Eq, Structural)]
pub enum AomError {
    /// Context creation failed (invalid settings, interface mismatch).
    InitError(u32),
    /// The configuration could not be populated.
    ConfigurationError(u32),
    /// The encoder rejected a frame or the end of the stream.
    EncodeError(u32),
    /// The decoder rejected compressed data or the end of the stream.
    DecodeError(u32),
    /// The encoder rejected a control id or value.
    ControlError(u32),
    /// The encoder emitted a packet whose kind tag is outside the known set.
    UnknownPacketKind(u32),
    /// The decoder emitted an image whose format has no frame counterpart.
    UnsupportedFormat(u32),
    /// The decoder emitted an image whose planes do not hold its declared size.
    InvalidImage,
}

/// The error that a failed `op` with native status `status` becomes.
pub open spec fn error_of(op: Operation, status: u32) -> AomError {
    match op {
        Operation::Init => AomError::InitError(status),
        Operation::Configure => AomError::ConfigurationError(status),
        Operation::Encode => AomError::EncodeError(status),
        Operation::Decode => AomError::DecodeError(status),
        Operation::Control => AomError::ControlError(status),
    }
}

/// What a native call of `op` that returned `status` amounts to.
pub open spec fn status_result(op: Operation, status: u32) -> Result<(), AomError> {
    if status == AOM_CODEC_OK {
        Ok(())
    } else {
        Err(error_of(op, status))
    }
}

/// Turns the status of a native call into a typed result: `Ok` exactly for
/// the success status, otherwise the error of that operation carrying the code.
pub fn check_status(op: Operation, status: u32) -> (r: Result<(), AomError>)
    ensures
        r == status_result(op, status),
{
    if status == AOM_CODEC_OK {
        Ok(())
    } else {
        match op {
            Operation::Init => Err(AomError::InitError(status)),
            Operation::Configure => Err(AomError::ConfigurationError(status)),
            Operation::Encode => Err(AomError::EncodeError(status)),
            Operation::Decode => Err(AomError::DecodeError(status)),
            Operation::Control => Err(AomError::ControlError(status)),
        }
    }
}

impl AomError {
    /// The native status code behind this error, where there is one.
    pub fn code(&self) -> (r: Option<u32>)
        ensures
            r == match *self {
                AomError::InitError(c) => Some(c),
                AomError::ConfigurationError(c) => Some(c),
                AomError::EncodeError(c) => Some(c),
                AomError::DecodeError(c) => Some(c),
                AomError::ControlError(c) => Some(c),
                _ => None::<u32>,
            },
    {
        match *self {
            AomError::InitError(c) => Some(c),
            AomError::ConfigurationError(c) => Some(c),
            AomError::EncodeError(c) => Some(c),
            AomError::DecodeError(c) => Some(c),
            AomError::ControlError(c) => Some(c),
            _ => None,
        }
    }
}

} // verus!
