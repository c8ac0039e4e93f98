use vstd::prelude::*;

use crate::errors::DeserializeError;

verus! {

/// The transport protocol that a port mapping concerns.
///
/// Its wire byte (UDP = 1, TCP = 2) is also the low seven bits of every
/// mapping-related opcode.
#[derive(Debug, Clone, Copy, PartialEq, Eq, Structural)]
pub enum MappingProtocol {
    UDP,
    TCP,
}

/// The wire byte of a protocol.
pub open spec fn protocol_code(p: MappingProtocol) -> u8 {
    match p {
        MappingProtocol::UDP => 1u8,
        MappingProtocol::TCP => 2u8,
    }
}

/// The protocol that a wire byte denotes, if any.
pub open spec fn protocol_from_code(b: u8) -> Option<MappingProtocol> {
    if b == 1 {
        Some(MappingProtocol::UDP)
    } else if b == 2 {
        Some(MappingProtocol::TCP)
    } else {
        None
    }
}

impl MappingProtocol {
    /// The wire byte of this protocol.
    pub fn code(self) -> (r: u8)
        ensures
            r == protocol_code(self),
    {
        match self {
            MappingProtocol::UDP => 1,
            MappingProtocol::TCP => 2,
        }
    }

    /// The protocol's name, as it is usually written.
    pub fn name(&self) -> (r: &'static str)
        ensures
            r@ == (match *self {
                MappingProtocol::UDP => "UDP"@,
                MappingProtocol::TCP => "TCP"@,
            }),
    {
        match self {
            MappingProtocol::UDP => "UDP",
            MappingProtocol::TCP => "TCP",
        }
    }
}

/// What decoding a wire byte gives: the protocol it names, or a rejection
/// that carries it.
pub open spec fn decode_protocol(value: u8) -> Result<MappingProtocol, DeserializeError> {
    match protocol_from_code(value) {
        Some(p) => Ok(p),
        None => Err(DeserializeError::InvalidProtocol(value)),
    }
}

impl TryFrom<u8> for MappingProtocol {
    type Error = DeserializeError;

    /// Decodes a wire byte; any byte other than 1 or 2 is rejected.
    fn try_from(value: u8) -> (r: Result<MappingProtocol, DeserializeError>) {
        match value {
            1 => Ok(MappingProtocol::UDP),
            2 => Ok(MappingProtocol::TCP),
            _ => Err(DeserializeError::InvalidProtocol(value)),
        }
    }
}

impl vstd::std_specs::convert::TryFromSpecImpl<u8> for MappingProtocol {
    open spec fn obeys_try_from_spec() -> bool {
        true
    }

    open spec fn try_from_spec(value: u8) -> Result<MappingProtocol, DeserializeError> {
        decode_protocol(value)
    }
}

impl From<MappingProtocol> for u8 {
    /// The wire byte of a protocol.
    fn from(p: MappingProtocol) -> (r: u8) {
        p.code()
    }
}

impl vstd::std_specs::convert::FromSpecImpl<MappingProtocol> for u8 {
    open spec fn obeys_from_spec() -> bool {
        true
    }

    open spec fn from_spec(p: MappingProtocol) -> u8 {
        protocol_code(p)
    }
}

/// Decoding after encoding gives the protocol back, and encoding after a
/// successful decoding gives the byte back: the wire code is a bijection
/// between the two protocols and the bytes {1, 2}.
pub proof fn lemma_protocol_code_bijection(p: MappingProtocol, b: u8)
    ensures
        protocol_from_code(protocol_code(p)) == Some(p),
        decode_protocol(protocol_code(p)) == Ok::<MappingProtocol, DeserializeError>(p),
        decode_protocol(b) matches Ok(q) ==> protocol_code(q) == b,
        protocol_from_code(b) matches Some(q) ==> protocol_code(q) == b,
        protocol_from_code(b) is Some <==> (b == 1 || b == 2),
{
}

} // verus!
