//! The four NAT-PMP requests and their wire encodings.
use vstd::prelude::*;

use crate::protocol::{protocol_code, MappingProtocol};
use crate::responses::{ExternalAddressResponse, MappingResponse, Response};
use crate::wire::{push_u16_be, push_u32_be, u16_be_bytes, u32_be_bytes};
use crate::VERSION;

verus! {

/// The lifetime, in seconds, that a mapping is requested for by default.
pub const DEFAULT_LIFETIME: u32 = 7200;

/// A message that a client sends to its gateway.
pub trait Request {
    /// What the gateway answers with.
    type Response: Response;

    /// The opcode that a matching response carries in its low seven bits.
    spec fn opcode(&self) -> u8;

    /// The request's bytes on the wire.
    spec fn encoding(&self) -> Seq<u8>;

    fn get_opcode(&self) -> (r: u8)
        ensures
            r == self.opcode(),
    ;

    fn to_bytes(&self) -> (r: Vec<u8>)
        ensures
            r@ == self.encoding(),
    ;
}

/// The twelve bytes shared by the three mapping-family requests: version,
/// protocol, two reserved bytes, then internal port, external port and
/// lifetime, each big-endian.
pub open spec fn mapping_encoding(protocol: MappingProtocol, internal_port: u16, external_port: u16, lifetime: u32) -> Seq<u8> {
    seq![0u8, protocol_code(protocol), 0u8, 0u8] + u16_be_bytes(internal_port) + u16_be_bytes(external_port)
        + u32_be_bytes(lifetime)
}

fn encode_mapping(protocol: MappingProtocol, internal_port: u16, external_port: u16, lifetime: u32) -> (r: Vec<u8>)
    ensures
        r@ == mapping_encoding(protocol, internal_port, external_port, lifetime),
{
    let mut out: Vec<u8> = Vec::new();
    out.push(VERSION);
    out.push(protocol.code());
    out.push(0);
    out.push(0);
    push_u16_be(&mut out, internal_port);
    push_u16_be(&mut out, external_port);
    push_u32_be(&mut out, lifetime);
    proof {
        assert(out@ =~= mapping_encoding(protocol, internal_port, external_port, lifetime));
    }
    out
}

/// Asks the gateway for its public IPv4 address.
#[derive(Debug, Clone, Copy, PartialEq, Eq, Structural)]
pub struct ExternalAddressRequest {}

impl ExternalAddressRequest {
    pub fn new() -> (r: Self)
        ensures
            r == (ExternalAddressRequest {  }),
    {
        ExternalAddressRequest {  }
    }
}

impl Request for ExternalAddressRequest {
    type Response = ExternalAddressResponse;

    open spec fn opcode(&self) -> u8 {
        0
    }

    open spec fn encoding(&self) -> Seq<u8> {
        seq![0u8, 0u8]
    }

    fn get_opcode(&self) -> (r: u8) {
        0
    }

    fn to_bytes(&self) -> (r: Vec<u8>) {
        let mut out: Vec<u8> = Vec::new();
        out.push(VERSION);
        out.push(0);
        proof {
            assert(out@ =~= seq![0u8, 0u8]);
        }
        out
    }
}

/// Asks the gateway to map `external_port` (zero: any port) to
/// `internal_port` of this host for `lifetime` seconds.
#[derive(Debug, Clone, Copy, PartialEq, Eq, Structural)]
pub struct MappingRequest {
    pub protocol: MappingProtocol,
    pub internal_port: u16,
    pub external_port: u16,
    pub lifetime: u32,
}

impl MappingRequest {
    /// A mapping request is well formed when its internal port is not zero.
    pub open spec fn wf(&self) -> bool {
        self.internal_port != 0
    }

    pub fn new(protocol: MappingProtocol, private_port: u16, public_port: u16, lifetime: u32) -> (r: Self)
        requires
            private_port != 0,
        ensures
            r.wf(),
            r == (MappingRequest { protocol, internal_port: private_port, external_port: public_port, lifetime }),
    {
        MappingRequest { protocol, internal_port: private_port, external_port: public_port, lifetime }
    }

    /// A mapping request with the usual defaults: any external port and a
    /// lifetime of two hours.
    pub fn with_defaults(protocol: MappingProtocol, private_port: u16, public_port: Option<u16>, lifetime: Option<u32>) -> (r: Self)
        requires
            private_port != 0,
        ensures
            r.wf(),
            r == (MappingRequest {
                protocol,
                internal_port: private_port,
                external_port: match public_port {
                    Some(p) => p,
                    None => 0,
                },
                lifetime: match lifetime {
                    Some(l) => l,
                    None => DEFAULT_LIFETIME,
                },
            }),
    {
        let external_port = match public_port {
            Some(p) => p,
            None => 0,
        };
        let lifetime = match lifetime {
            Some(l) => l,
            None => DEFAULT_LIFETIME,
        };
        MappingRequest::new(protocol, private_port, external_port, lifetime)
    }
}

impl Request for MappingRequest {
    type Response = MappingResponse;

    open spec fn opcode(&self) -> u8 {
        protocol_code(self.protocol)
    }

    open spec fn encoding(&self) -> Seq<u8> {
        mapping_encoding(self.protocol, self.internal_port, self.external_port, self.lifetime)
    }

    fn get_opcode(&self) -> (r: u8) {
        self.protocol.code()
    }

    fn to_bytes(&self) -> (r: Vec<u8>) {
        encode_mapping(self.protocol, self.internal_port, self.external_port, self.lifetime)
    }
}

/// Asks the gateway to delete the mapping of `internal_port`: a mapping
/// request with external port and lifetime zero.
#[derive(Debug, Clone, Copy, PartialEq, Eq, Structural)]
pub struct UnmapPortRequest {
    pub protocol: MappingProtocol,
    pub internal_port: u16,
}

impl UnmapPortRequest {
    /// An unmapping request is well formed when its internal port is not zero.
    pub open spec fn wf(&self) -> bool {
        self.internal_port != 0
    }

    pub fn new(protocol: MappingProtocol, private_port: u16) -> (r: Self)
        requires
            private_port != 0,
        ensures
            r.wf(),
            r == (UnmapPortRequest { protocol, internal_port: private_port }),
    {
        UnmapPortRequest { protocol, internal_port: private_port }
    }
}

impl Request for UnmapPortRequest {
    type Response = MappingResponse;

    open spec fn opcode(&self) -> u8 {
        protocol_code(self.protocol)
    }

    open spec fn encoding(&self) -> Seq<u8> {
        mapping_encoding(self.protocol, self.internal_port, 0, 0)
    }

    fn get_opcode(&self) -> (r: u8) {
        self.protocol.code()
    }

    fn to_bytes(&self) -> (r: Vec<u8>) {
        encode_mapping(self.protocol, self.internal_port, 0, 0)
    }
}

/// Asks the gateway to delete every mapping of a protocol: a mapping request
/// with internal port, external port and lifetime zero.
#[derive(Debug, Clone, Copy, PartialEq, Eq, Structural)]
pub struct UnmapAllPortsRequest {
    pub protocol: MappingProtocol,
}

impl UnmapAllPortsRequest {
    pub fn new(protocol: MappingProtocol) -> (r: Self)
        ensures
            r == (UnmapAllPortsRequest { protocol }),
    {
        UnmapAllPortsRequest { protocol }
    }
}

impl Request for UnmapAllPortsRequest {
    type Response = MappingResponse;

    open spec fn opcode(&self) -> u8 {
        protocol_code(self.protocol)
    }

    open spec fn encoding(&self) -> Seq<u8> {
        mapping_encoding(self.protocol, 0, 0, 0)
    }

    fn get_opcode(&self) -> (r: u8) {
        self.protocol.code()
    }

    fn to_bytes(&self) -> (r: Vec<u8>) {
        encode_mapping(self.protocol, 0, 0, 0)
    }
}

} // verus!
