use vstd::prelude::*;

verus! {

/// Relies on std::io::Error only as an opaque value that a network failure
/// carries to the caller; nothing is read from it.
#[verifier::external_type_specification]
#[verifier::external_body]
pub struct ExIoError(std::io::Error);

/// A result code by which a gateway refuses a request (RFC 6886, section 3.5).
#[derive(Debug, Clone, Copy, PartialEq, Eq, Structural)]
pub enum NATPMPResultError {
    UnsupportedVersion,
    NotAuthorizedRefused,
    NetworkFailure,
    OutOfResources,
    UnsupportedOpcode,
}

/// Why a gateway's reply could not be read as the expected response.
#[derive(Debug, Clone, Copy, PartialEq, Eq, Structural)]
pub enum DeserializeError {
    /// The masked response opcode (second field) is not that of the request (first field).
    OpcodeMismatch(u8, u8),
    /// A non-zero result code outside the five that RFC 6886 defines.
    UnrecognizedResultCode(u16),
    /// A mapping opcode whose low seven bits name no protocol.
    InvalidProtocol(u8),
    /// A mapping response that reports internal port zero.
    ZeroInternalPort,
    /// Fewer bytes than the response's fixed size.
    Truncated,
}

/// Everything that can go wrong while talking to a gateway.
#[derive(Debug)]
pub enum NATPMPError {
    /// The gateway explicitly refused the request.
    Response(NATPMPResultError),
    /// An I/O failure while communicating with the gateway.
    Network(std::io::Error),
    /// No valid, matching response came back after every attempt: the gateway
    /// is taken not to speak NAT-PMP.
    Unsupported,
    /// The gateway's reply was malformed or carried an unknown result code.
    Deserialize(DeserializeError),
    /// Anything else, such as a default gateway that cannot be found.
    Generic(String),
}

/// The refusal that a non-zero result code denotes, if it is one of the five.
pub open spec fn result_error_of(code: u16) -> Option<NATPMPResultError> {
    if code == 1 {
        Some(NATPMPResultError::UnsupportedVersion)
    } else if code == 2 {
        Some(NATPMPResultError::NotAuthorizedRefused)
    } else if code == 3 {
        Some(NATPMPResultError::NetworkFailure)
    } else if code == 4 {
        Some(NATPMPResultError::OutOfResources)
    } else if code == 5 {
        Some(NATPMPResultError::UnsupportedOpcode)
    } else {
        None
    }
}

/// The wire result code of a refusal.
pub open spec fn result_code_of(e: NATPMPResultError) -> u16 {
    match e {
        NATPMPResultError::UnsupportedVersion => 1u16,
        NATPMPResultError::NotAuthorizedRefused => 2u16,
        NATPMPResultError::NetworkFailure => 3u16,
        NATPMPResultError::OutOfResources => 4u16,
        NATPMPResultError::UnsupportedOpcode => 5u16,
    }
}

/// What mapping a non-zero result code gives: the refusal it names, or a
/// rejection that carries it.
pub open spec fn decode_result_code(value: u16) -> Result<NATPMPResultError, DeserializeError> {
    match result_error_of(value) {
        Some(e) => Ok(e),
        None => Err(DeserializeError::UnrecognizedResultCode(value)),
    }
}

impl NATPMPResultError {
    /// The wire result code of this refusal.
    pub fn code(self) -> (r: u16)
        ensures
            r == result_code_of(self),
    {
        match self {
            NATPMPResultError::UnsupportedVersion => 1,
            NATPMPResultError::NotAuthorizedRefused => 2,
            NATPMPResultError::NetworkFailure => 3,
            NATPMPResultError::OutOfResources => 4,
            NATPMPResultError::UnsupportedOpcode => 5,
        }
    }
}

impl TryFrom<u16> for NATPMPResultError {
    type Error = DeserializeError;

    /// Maps a result code to its refusal; codes other than 1 to 5 are
    /// reported with their raw value.
    fn try_from(value: u16) -> (r: Result<NATPMPResultError, DeserializeError>) {
        match value {
            1 => Ok(NATPMPResultError::UnsupportedVersion),
            2 => Ok(NATPMPResultError::NotAuthorizedRefused),
            3 => Ok(NATPMPResultError::NetworkFailure),
            4 => Ok(NATPMPResultError::OutOfResources),
            5 => Ok(NATPMPResultError::UnsupportedOpcode),
            _ => Err(DeserializeError::UnrecognizedResultCode(value)),
        }
    }
}

impl vstd::std_specs::convert::TryFromSpecImpl<u16> for NATPMPResultError {
    open spec fn obeys_try_from_spec() -> bool {
        true
    }

    open spec fn try_from_spec(value: u16) -> Result<NATPMPResultError, DeserializeError> {
        decode_result_code(value)
    }
}

/// Codes 1 to 5 name exactly the five refusals, and each refusal's code maps
/// back to it; every other code names none.
pub proof fn lemma_result_codes(e: NATPMPResultError, code: u16)
    ensures
        result_error_of(result_code_of(e)) == Some(e),
        decode_result_code(result_code_of(e)) == Ok::<NATPMPResultError, DeserializeError>(e),
        result_error_of(code) is Some <==> (1 <= code && code <= 5),
        result_error_of(code) matches Some(f) ==> result_code_of(f) == code,
{
}

} // verus!
