//! Failures of the packet codec.
use vstd::prelude::*;

verus! {

/// Why the JSON body of a datagram was refused.
#[derive(Clone, Copy, Debug, PartialEq, Eq, Structural)]
pub enum PayloadFault {
    /// The body bytes are not UTF-8 text.
    InvalidUtf8,
    /// The body text is not a JSON document.
    InvalidJson,
    /// The JSON document lacks a required field, or a field has the wrong
    /// JSON type, the wrong range, or is not standard base64 where it must be.
    InvalidShape,
}

/// The kinds of failure, without the text that comes with some of them.
#[derive(Clone, Copy, Debug, PartialEq, Eq, Structural)]
pub enum ErrorKind {
    /// The first byte is not a protocol version this codec speaks.
    UnsupportedVersion,
    /// The identifier byte names no packet kind of the datagram's version.
    UnknownIdentifier,
    /// The datagram ends before the header of its packet kind does.
    TruncatedInput,
    /// The body is present but cannot be read as the packet kind's payload.
    MalformedPayload(PayloadFault),
    /// The destination buffer cannot hold the encoded packet.
    BufferTooSmall,
}

/// Every way in which decoding or encoding one datagram can fail.
#[derive(Clone, Debug, PartialEq, Eq)]
pub enum Error {
    /// The first byte is not a protocol version this codec speaks.
    UnsupportedVersion,
    /// The identifier byte names no packet kind of the datagram's version.
    UnknownIdentifier,
    /// The datagram ends before the header of its packet kind does.
    TruncatedInput,
    /// The body is present but cannot be read as the packet kind's payload.
    /// `detail` is the message of the UTF-8 or JSON parser that refused the
    /// body, or says that the document has the wrong shape.
    MalformedPayload { fault: PayloadFault, detail: String },
    /// The destination buffer cannot hold the encoded packet.
    BufferTooSmall,
}

/// The mathematical content of an [`Error`]: its kind and, for a
/// malformed payload, the message that comes with it.
pub enum ErrorModel {
    UnsupportedVersion,
    UnknownIdentifier,
    TruncatedInput,
    MalformedPayload(PayloadFault, Seq<char>),
    BufferTooSmall,
}

impl ErrorModel {
    /// The kind of the failure.
    pub open spec fn kind(self) -> ErrorKind {
        match self {
            ErrorModel::UnsupportedVersion => ErrorKind::UnsupportedVersion,
            ErrorModel::UnknownIdentifier => ErrorKind::UnknownIdentifier,
            ErrorModel::TruncatedInput => ErrorKind::TruncatedInput,
            ErrorModel::MalformedPayload(fault, _) => ErrorKind::MalformedPayload(fault),
            ErrorModel::BufferTooSmall => ErrorKind::BufferTooSmall,
        }
    }
}

/// The failure of a document that parsed but has the wrong shape.
pub open spec fn shape_error() -> ErrorModel {
    ErrorModel::MalformedPayload(
        PayloadFault::InvalidShape,
        "a required field is missing or has the wrong type"@,
    )
}

impl View for Error {
    type V = ErrorModel;

    open spec fn view(&self) -> ErrorModel {
        match self {
            Error::UnsupportedVersion => ErrorModel::UnsupportedVersion,
            Error::UnknownIdentifier => ErrorModel::UnknownIdentifier,
            Error::TruncatedInput => ErrorModel::TruncatedInput,
            Error::MalformedPayload { fault, detail } => ErrorModel::MalformedPayload(
                *fault,
                detail@,
            ),
            Error::BufferTooSmall => ErrorModel::BufferTooSmall,
        }
    }
}

impl Error {
    /// The kind of the failure.
    pub fn kind(&self) -> (r: ErrorKind)
        ensures
            r == self@.kind(),
    {
        match self {
            Error::UnsupportedVersion => ErrorKind::UnsupportedVersion,
            Error::UnknownIdentifier => ErrorKind::UnknownIdentifier,
            Error::TruncatedInput => ErrorKind::TruncatedInput,
            Error::MalformedPayload { fault, .. } => ErrorKind::MalformedPayload(*fault),
            Error::BufferTooSmall => ErrorKind::BufferTooSmall,
        }
    }

    /// The failure of a document that parsed but has the wrong shape.
    pub fn shape() -> (r: Error)
        ensures
            r@ == shape_error(),
    {
        Error::MalformedPayload {
            fault: PayloadFault::InvalidShape,
            detail: "a required field is missing or has the wrong type".to_owned(),
        }
    }
}

} // verus!
