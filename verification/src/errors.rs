//! Error values for replay parsing.
//!
//! Errors are returned up the call chain, never panicked. Each error either
//! describes a primitive failure (a read past the end of the buffer, an
//! implausible string size, an oversized list, a checksum mismatch) or wraps
//! a cause together with the section label and byte offset where decoding
//! stopped. `message` renders the same text a consumer would print, and its
//! exact contents are part of each variant's specification.

use vstd::prelude::*;

use crate::decimal::{dec_digits, dec_signed, i32_to_string, u32_to_string, u64_to_string,
    usize_to_string};

verus! {

/// A failure while interpreting the network stream.
#[derive(Debug, PartialEq, Eq)]
pub enum NetworkError {
    /// The declared frame count exceeds any plausible bound for the stream.
    TooManyFrames(i32),
    /// An object index refers past the end of the object table.
    ObjectIdOutOfRange(i32),
    /// A class name required by the class graph is absent.
    UnknownClass(String),
    /// A property object index resolves to no known attribute decoder.
    UnimplementedAttribute(String),
    /// An update or delete names an actor whose channel is not open.
    UnknownActor(i32),
    /// A spawn names an actor whose channel is already open.
    ActorAlreadyOpen(i32),
    /// A stream id does not resolve to an attribute for the actor's class.
    UnknownAttribute(i32),
    /// The bit stream ran out before a read completed; carries the bit offset.
    InsufficientBits(usize),
    /// The network stream is larger than the decoder is prepared to walk.
    StreamTooLarge(usize),
}

/// A failure while decoding the replay's byte structure.
#[derive(Debug, PartialEq, Eq)]
pub enum ParseError {
    /// A read needed `expected` bytes but only `available` remained, at byte
    /// `offset` from the start of the buffer.
    InsufficientBytes { expected: usize, available: usize, offset: usize },
    /// A length-prefixed string declared an implausible size.
    InvalidStringSize(i32),
    /// A list declared more elements than the remaining bytes could hold.
    ListTooLarge(u64),
    /// The checksum stored in the file differs from the computed one.
    CrcMismatch(u32, u32),
    /// A header property declared a type string the format does not define.
    UnknownProperty(String),
    /// Structured decoding of the named section failed and its checksum also
    /// disagreed, so the replay is taken to be corrupt; the decode error is
    /// kept as the cause.
    CorruptReplay(String, Box<ParseError>),
    /// Decoding the named section failed at the given byte offset, for the
    /// wrapped reason.
    Section(&'static str, usize, Box<ParseError>),
    /// The network stream could not be decoded.
    Network(Box<NetworkError>),
}

/// The rendered text of a network error.
pub open spec fn network_error_message(e: NetworkError) -> Seq<char> {
    match e {
        NetworkError::TooManyFrames(n) => "Too many frames to decode: "@ + dec_signed(n as int),
        NetworkError::ObjectIdOutOfRange(n) => "Object Id of "@ + dec_signed(n as int)
            + " exceeds range"@,
        NetworkError::UnknownClass(name) => "Unknown class: "@ + name@,
        NetworkError::UnimplementedAttribute(name) => "Unimplemented attribute: "@ + name@,
        NetworkError::UnknownActor(id) => "Update for unknown actor: "@ + dec_signed(id as int),
        NetworkError::ActorAlreadyOpen(id) => "Actor "@ + dec_signed(id as int)
            + " is already open"@,
        NetworkError::UnknownAttribute(id) => "Unknown attribute stream id: "@ + dec_signed(
            id as int,
        ),
        NetworkError::InsufficientBits(off) => "Insufficient bits in the network stream at bit ("@
            + dec_digits(off as int) + ")"@,
        NetworkError::StreamTooLarge(n) => "Network stream of "@ + dec_digits(n as int)
            + " bytes is too large"@,
    }
}

/// The rendered text of a parse error, causes included.
pub open spec fn parse_error_message(e: ParseError) -> Seq<char>
    decreases e,
{
    match e {
        ParseError::InsufficientBytes { expected, available, .. } => {
            "Insufficient data. Expected "@ + dec_digits(expected as int)
                + " bytes, but only "@ + dec_digits(available as int) + " left"@
        },
        ParseError::InvalidStringSize(n) => "Unexpected size for string: "@ + dec_signed(n as int),
        ParseError::ListTooLarge(n) => "list of size "@ + dec_digits(n as int) + " is too large"@,
        ParseError::CrcMismatch(expected, actual) => {
            "Crc mismatch. Expected "@ + dec_digits(expected as int) + " but received "@
                + dec_digits(actual as int)
        },
        ParseError::UnknownProperty(name) => "Unknown property type: "@ + name@,
        ParseError::CorruptReplay(section, _) => "Failed to parse "@ + section@
            + " and crc check failed. Replay is corrupt"@,
        ParseError::Section(section, offset, cause) => {
            "Could not decode replay "@ + section@ + " at offset ("@ + dec_digits(offset as int)
                + "): "@ + parse_error_message(*cause)
        },
        ParseError::Network(cause) => network_error_message(*cause),
    }
}

/// The rendered text of the error's direct cause, if it has one.
pub open spec fn cause_message_spec(e: ParseError) -> Option<Seq<char>> {
    match e {
        ParseError::CorruptReplay(_, cause) => Some(parse_error_message(*cause)),
        ParseError::Section(_, _, cause) => Some(parse_error_message(*cause)),
        ParseError::Network(cause) => Some(network_error_message(*cause)),
        _ => Option::None,
    }
}

impl NetworkError {
    /// Renders this error as the text a consumer would print.
    pub fn message(&self) -> (s: String)
        ensures
            s@ == network_error_message(*self),
    {
        match self {
            NetworkError::TooManyFrames(n) => {
                let s = String::from_str("Too many frames to decode: ").concat(
                    i32_to_string(*n).as_str(),
                );
                proof {
                    assert(s@ =~= network_error_message(*self));
                }
                s
            },
            NetworkError::ObjectIdOutOfRange(n) => {
                let s = String::from_str("Object Id of ").concat(i32_to_string(*n).as_str())
                    .concat(" exceeds range");
                proof {
                    assert(s@ =~= network_error_message(*self));
                }
                s
            },
            NetworkError::UnknownClass(name) => {
                let s = String::from_str("Unknown class: ").concat(name.as_str());
                proof {
                    assert(s@ =~= network_error_message(*self));
                }
                s
            },
            NetworkError::UnimplementedAttribute(name) => {
                let s = String::from_str("Unimplemented attribute: ").concat(name.as_str());
                proof {
                    assert(s@ =~= network_error_message(*self));
                }
                s
            },
            NetworkError::UnknownActor(id) => {
                let s = String::from_str("Update for unknown actor: ").concat(
                    i32_to_string(*id).as_str(),
                );
                proof {
                    assert(s@ =~= network_error_message(*self));
                }
                s
            },
            NetworkError::ActorAlreadyOpen(id) => {
                let s = String::from_str("Actor ").concat(i32_to_string(*id).as_str()).concat(
                    " is already open",
                );
                proof {
                    assert(s@ =~= network_error_message(*self));
                }
                s
            },
            NetworkError::UnknownAttribute(id) => {
                let s = String::from_str("Unknown attribute stream id: ").concat(
                    i32_to_string(*id).as_str(),
                );
                proof {
                    assert(s@ =~= network_error_message(*self));
                }
                s
            },
            NetworkError::InsufficientBits(off) => {
                let s = String::from_str("Insufficient bits in the network stream at bit (")
                    .concat(usize_to_string(*off).as_str()).concat(")");
                proof {
                    assert(s@ =~= network_error_message(*self));
                }
                s
            },
            NetworkError::StreamTooLarge(n) => {
                let s = String::from_str("Network stream of ").concat(
                    usize_to_string(*n).as_str(),
                ).concat(" bytes is too large");
                proof {
                    assert(s@ =~= network_error_message(*self));
                }
                s
            },
        }
    }
}

impl ParseError {
    /// Renders this error, causes included, as the text a consumer would
    /// print.
    pub fn message(&self) -> (s: String)
        ensures
            s@ == parse_error_message(*self),
        decreases *self,
    {
        match self {
            ParseError::InsufficientBytes { expected, available, .. } => {
                let s = String::from_str("Insufficient data. Expected ").concat(
                    usize_to_string(*expected).as_str(),
                ).concat(" bytes, but only ").concat(usize_to_string(*available).as_str()).concat(
                    " left",
                );
                proof {
                    assert(s@ =~= parse_error_message(*self));
                }
                s
            },
            ParseError::InvalidStringSize(n) => {
                let s = String::from_str("Unexpected size for string: ").concat(
                    i32_to_string(*n).as_str(),
                );
                proof {
                    assert(s@ =~= parse_error_message(*self));
                }
                s
            },
            ParseError::ListTooLarge(n) => {
                let s = String::from_str("list of size ").concat(u64_to_string(*n).as_str())
                    .concat(" is too large");
                proof {
                    assert(s@ =~= parse_error_message(*self));
                }
                s
            },
            ParseError::CrcMismatch(expected, actual) => {
                let s = String::from_str("Crc mismatch. Expected ").concat(
                    u32_to_string(*expected).as_str(),
                ).concat(" but received ").concat(u32_to_string(*actual).as_str());
                proof {
                    assert(s@ =~= parse_error_message(*self));
                }
                s
            },
            ParseError::UnknownProperty(name) => {
                let s = String::from_str("Unknown property type: ").concat(name.as_str());
                proof {
                    assert(s@ =~= parse_error_message(*self));
                }
                s
            },
            ParseError::CorruptReplay(section, _) => {
                let s = String::from_str("Failed to parse ").concat(section.as_str()).concat(
                    " and crc check failed. Replay is corrupt",
                );
                proof {
                    assert(s@ =~= parse_error_message(*self));
                }
                s
            },
            ParseError::Section(section, offset, cause) => {
                let inner = cause.message();
                let s = String::from_str("Could not decode replay ").concat(section).concat(
                    " at offset (",
                ).concat(usize_to_string(*offset).as_str()).concat("): ").concat(inner.as_str());
                proof {
                    assert(s@ =~= parse_error_message(*self));
                }
                s
            },
            ParseError::Network(cause) => cause.message(),
        }
    }

    /// Renders the direct cause of this error, if it has one; mirrors the
    /// causal chain a consumer would walk.
    pub fn cause_message(&self) -> (r: Option<String>)
        ensures
            match cause_message_spec(*self) {
                Some(m) => r is Some && r->0@ == m,
                Option::None => r is None,
            },
    {
        match self {
            ParseError::CorruptReplay(_, cause) => Some(cause.message()),
            ParseError::Section(_, _, cause) => Some(cause.message()),
            ParseError::Network(cause) => Some(cause.message()),
            _ => None,
        }
    }

    /// True when this error wraps another as its cause.
    pub fn has_cause(&self) -> (r: bool)
        ensures
            r == (cause_message_spec(*self) is Some),
    {
        match self {
            ParseError::CorruptReplay(..) => true,
            ParseError::Section(..) => true,
            ParseError::Network(..) => true,
            _ => false,
        }
    }
}

} // verus!
