//! Gateway responses and the parser that checks their header and reads
//! their body.
use vstd::prelude::*;
use vstd::slice::slice_subrange;

use crate::errors::{result_error_of, DeserializeError, NATPMPError, NATPMPResultError};
use crate::protocol::{protocol_code, protocol_from_code, MappingProtocol};
use crate::requests::{ExternalAddressRequest, MappingRequest, Request, UnmapPortRequest};
use crate::wire::{
    be_u16_at, be_u32_at, lemma_u16_round_trip, lemma_u32_round_trip, read_u16_be, read_u32_be, u16_be_bytes,
    u32_be_bytes,
};
use crate::VERSION;

verus! {

/// A message that a gateway sends back: a four-byte header (version, opcode,
/// result code) followed by a body of fixed size.
pub trait Response: Sized {
    /// The length of the body that follows the header.
    spec fn body_len() -> nat;

    /// The response that a successful reply's body denotes, given the reply's
    /// opcode with the response bit cleared.
    spec fn parse_body(opcode: u8, body: Seq<u8>) -> Result<Self, NATPMPError>;

    /// The full size of the response on the wire, header included.
    fn wire_size() -> (r: usize)
        ensures
            r == 4 + Self::body_len(),
    ;

    fn try_from_bytes(opcode: u8, body: &[u8]) -> (r: Result<Self, NATPMPError>)
        ensures
            r == Self::parse_body(opcode, body@),
    ;
}

/// A response opcode with the response bit (0x80) cleared.
pub open spec fn masked_opcode(op: u8) -> u8 {
    (op % 128) as u8
}

/// Clears the response bit of an opcode.
pub fn mask_opcode(op: u8) -> (r: u8)
    ensures
        r == masked_opcode(op),
{
    let r = op & 0x7f;
    proof {
        assert(op & 0x7f == op % 128) by (bit_vector);
    }
    r
}

/// What a reply in `buf` to a request with opcode `expected` denotes:
/// the version (read first) must be zero, the masked opcode must be `expected`, a
/// non-zero result code is a refusal (or, if unknown, a deserialization
/// failure), and result code zero hands the body to the response type.
///
/// A reply to some other request is reported, not skipped: it came from the
/// gateway, so waiting for another one would only hide the mix-up.
pub open spec fn parse_raw_spec<T: Response>(expected: u8, buf: Seq<u8>) -> Result<T, NATPMPError> {
    if buf.len() == 0 {
        Err(NATPMPError::Deserialize(DeserializeError::Truncated))
    } else if buf[0] != VERSION {
        Err(NATPMPError::Response(NATPMPResultError::UnsupportedVersion))
    } else if buf.len() < 4 {
        Err(NATPMPError::Deserialize(DeserializeError::Truncated))
    } else if masked_opcode(buf[1]) != expected {
        Err(NATPMPError::Deserialize(DeserializeError::OpcodeMismatch(expected, masked_opcode(buf[1]))))
    } else if be_u16_at(buf, 2) != 0 {
        match result_error_of(be_u16_at(buf, 2)) {
            Some(e) => Err(NATPMPError::Response(e)),
            None => Err(NATPMPError::Deserialize(DeserializeError::UnrecognizedResultCode(be_u16_at(buf, 2)))),
        }
    } else {
        T::parse_body(masked_opcode(buf[1]), buf.subrange(4, buf.len() as int))
    }
}

/// Checks the header of the reply in `buffer` against `request` and, when
/// the gateway reports success, reads the body of the expected response.
pub fn parse_raw_response<R: Request>(request: &R, buffer: &[u8]) -> (r: Result<R::Response, NATPMPError>)
    ensures
        r == parse_raw_spec::<R::Response>(request.opcode(), buffer@),
{
    if buffer.len() == 0 {
        return Err(NATPMPError::Deserialize(DeserializeError::Truncated));
    }
    let version = buffer[0];
    if version != VERSION {
        return Err(NATPMPError::Response(NATPMPResultError::UnsupportedVersion));
    }
    if buffer.len() < 4 {
        return Err(NATPMPError::Deserialize(DeserializeError::Truncated));
    }
    let opcode = mask_opcode(buffer[1]);
    let expected = request.get_opcode();
    if opcode != expected {
        return Err(NATPMPError::Deserialize(DeserializeError::OpcodeMismatch(expected, opcode)));
    }
    let result_code = read_u16_be(buffer, 2);
    if result_code != 0 {
        return match NATPMPResultError::try_from(result_code) {
            Ok(e) => Err(NATPMPError::Response(e)),
            Err(d) => Err(NATPMPError::Deserialize(d)),
        };
    }
    let body = slice_subrange(buffer, 4, buffer.len());
    R::Response::try_from_bytes(opcode, body)
}

/// The gateway's answer to a mapping-family request.
#[derive(Debug, Clone, Copy, PartialEq, Eq, Structural)]
pub struct MappingResponse {
    pub protocol: MappingProtocol,
    pub internal_port: u16,
    pub external_port: u16,
    pub lifetime: u32,
    pub seconds_since_epoch: u32,
}

impl Response for MappingResponse {
    /// Seconds since the gateway's epoch (4), internal port (2), external
    /// port (2), lifetime (4).
    open spec fn body_len() -> nat {
        12
    }

    open spec fn parse_body(opcode: u8, body: Seq<u8>) -> Result<Self, NATPMPError> {
        match protocol_from_code(masked_opcode(opcode)) {
            None => Err(NATPMPError::Deserialize(DeserializeError::InvalidProtocol(masked_opcode(opcode)))),
            Some(protocol) => if body.len() < 12 {
                Err(NATPMPError::Deserialize(DeserializeError::Truncated))
            } else if be_u16_at(body, 4) == 0 {
                Err(NATPMPError::Deserialize(DeserializeError::ZeroInternalPort))
            } else {
                Ok(
                    MappingResponse {
                        protocol,
                        seconds_since_epoch: be_u32_at(body, 0),
                        internal_port: be_u16_at(body, 4),
                        external_port: be_u16_at(body, 6),
                        lifetime: be_u32_at(body, 8),
                    },
                )
            },
        }
    }

    fn wire_size() -> (r: usize) {
        16
    }

    fn try_from_bytes(opcode: u8, body: &[u8]) -> (r: Result<Self, NATPMPError>) {
        let protocol = match MappingProtocol::try_from(mask_opcode(opcode)) {
            Ok(p) => p,
            Err(d) => return Err(NATPMPError::Deserialize(d)),
        };
        if body.len() < 12 {
            return Err(NATPMPError::Deserialize(DeserializeError::Truncated));
        }
        let seconds_since_epoch = read_u32_be(body, 0);
        let internal_port = read_u16_be(body, 4);
        let external_port = read_u16_be(body, 6);
        let lifetime = read_u32_be(body, 8);
        if internal_port == 0 {
            return Err(NATPMPError::Deserialize(DeserializeError::ZeroInternalPort));
        }
        Ok(MappingResponse { protocol, seconds_since_epoch, internal_port, external_port, lifetime })
    }
}

/// The gateway's answer to an external address request.
#[derive(Debug, Clone, Copy, PartialEq, Eq, Structural)]
pub struct ExternalAddressResponse {
    pub seconds_since_epoch: u32,
    /// The public IPv4 address as a big-endian integer: 192.168.1.1 is
    /// 0xC0A8_0101.
    pub ipv4_address: u32,
}

impl ExternalAddressResponse {
    /// The four octets of the public address, in the order they are written.
    pub fn octets(&self) -> (r: [u8; 4])
        ensures
            r@ == crate::wire::u32_be_bytes(self.ipv4_address),
    {
        let a = self.ipv4_address;
        let r = [(a / 0x100_0000) as u8, ((a / 0x1_0000) % 256) as u8, ((a / 256) % 256) as u8, (a % 256) as u8];
        proof {
            assert(r@ =~= crate::wire::u32_be_bytes(a));
        }
        r
    }
}

impl Response for ExternalAddressResponse {
    /// Seconds since the gateway's epoch (4), public address (4).
    open spec fn body_len() -> nat {
        8
    }

    open spec fn parse_body(opcode: u8, body: Seq<u8>) -> Result<Self, NATPMPError> {
        if body.len() < 8 {
            Err(NATPMPError::Deserialize(DeserializeError::Truncated))
        } else {
            Ok(ExternalAddressResponse { seconds_since_epoch: be_u32_at(body, 0), ipv4_address: be_u32_at(body, 4) })
        }
    }

    fn wire_size() -> (r: usize) {
        12
    }

    fn try_from_bytes(opcode: u8, body: &[u8]) -> (r: Result<Self, NATPMPError>) {
        if body.len() < 8 {
            return Err(NATPMPError::Deserialize(DeserializeError::Truncated));
        }
        let seconds_since_epoch = read_u32_be(body, 0);
        let ipv4_address = read_u32_be(body, 4);
        Ok(ExternalAddressResponse { seconds_since_epoch, ipv4_address })
    }
}

/// A successful reply to a mapping-family request with opcode `opcode`, as
/// a gateway writes it.
pub open spec fn mapping_reply(opcode: u8, secs: u32, internal_port: u16, external_port: u16, lifetime: u32) -> Seq<u8> {
    seq![0u8, (opcode + 128) as u8, 0u8, 0u8] + u32_be_bytes(secs) + u16_be_bytes(internal_port) + u16_be_bytes(
        external_port,
    ) + u32_be_bytes(lifetime)
}

/// A successful reply to an external address request, as a gateway writes it.
pub open spec fn external_address_reply(secs: u32, address: u32) -> Seq<u8> {
    seq![0u8, 128u8, 0u8, 0u8] + u32_be_bytes(secs) + u32_be_bytes(address)
}

proof fn lemma_mapping_reply_parses(protocol: MappingProtocol, secs: u32, internal_port: u16, external_port: u16, lifetime: u32)
    requires
        internal_port != 0,
    ensures
        parse_raw_spec::<MappingResponse>(
            protocol_code(protocol),
            mapping_reply(protocol_code(protocol), secs, internal_port, external_port, lifetime),
        ) == Ok::<MappingResponse, NATPMPError>(
            MappingResponse { protocol, internal_port, external_port, lifetime, seconds_since_epoch: secs },
        ),
{
    let op = protocol_code(protocol);
    let buf = mapping_reply(op, secs, internal_port, external_port, lifetime);
    let body = buf.subrange(4, buf.len() as int);
    let e = Seq::<u8>::empty();
    assert(body =~= u32_be_bytes(secs) + u16_be_bytes(internal_port) + u16_be_bytes(external_port) + u32_be_bytes(lifetime));
    lemma_u32_round_trip(secs, e, u16_be_bytes(internal_port) + u16_be_bytes(external_port) + u32_be_bytes(lifetime));
    assert(e + u32_be_bytes(secs) + (u16_be_bytes(internal_port) + u16_be_bytes(external_port) + u32_be_bytes(lifetime)) =~= body);
    lemma_u16_round_trip(internal_port, u32_be_bytes(secs), u16_be_bytes(external_port) + u32_be_bytes(lifetime));
    assert(u32_be_bytes(secs) + u16_be_bytes(internal_port) + (u16_be_bytes(external_port) + u32_be_bytes(lifetime)) =~= body);
    lemma_u16_round_trip(external_port, u32_be_bytes(secs) + u16_be_bytes(internal_port), u32_be_bytes(lifetime));
    lemma_u32_round_trip(lifetime, u32_be_bytes(secs) + u16_be_bytes(internal_port) + u16_be_bytes(external_port), e);
    assert(u32_be_bytes(secs) + u16_be_bytes(internal_port) + u16_be_bytes(external_port) + u32_be_bytes(lifetime) + e =~= body);
    assert(buf[2] == 0 && buf[3] == 0);
    assert(be_u16_at(buf, 2) == 0);
    assert(masked_opcode(buf[1]) == op);
}

/// A mapping request's fields can be read back from its encoding, and a
/// successful reply that echoes them parses to a response with the same
/// protocol, ports and lifetime.
pub proof fn lemma_mapping_round_trip(req: MappingRequest, secs: u32)
    requires
        req.wf(),
    ensures
        req.encoding()[1] == req.opcode(),
        be_u16_at(req.encoding(), 4) == req.internal_port,
        be_u16_at(req.encoding(), 6) == req.external_port,
        be_u32_at(req.encoding(), 8) == req.lifetime,
        parse_raw_spec::<MappingResponse>(
            req.opcode(),
            mapping_reply(req.opcode(), secs, req.internal_port, req.external_port, req.lifetime),
        ) == Ok::<MappingResponse, NATPMPError>(
            MappingResponse {
                protocol: req.protocol,
                internal_port: req.internal_port,
                external_port: req.external_port,
                lifetime: req.lifetime,
                seconds_since_epoch: secs,
            },
        ),
{
    let head = seq![0u8, protocol_code(req.protocol), 0u8, 0u8];
    lemma_u16_round_trip(req.internal_port, head, u16_be_bytes(req.external_port) + u32_be_bytes(req.lifetime));
    assert(head + u16_be_bytes(req.internal_port) + (u16_be_bytes(req.external_port) + u32_be_bytes(req.lifetime))
        =~= req.encoding());
    lemma_u16_round_trip(req.external_port, head + u16_be_bytes(req.internal_port), u32_be_bytes(req.lifetime));
    lemma_u32_round_trip(
        req.lifetime,
        head + u16_be_bytes(req.internal_port) + u16_be_bytes(req.external_port),
        Seq::<u8>::empty(),
    );
    assert(head + u16_be_bytes(req.internal_port) + u16_be_bytes(req.external_port) + u32_be_bytes(req.lifetime)
        + Seq::<u8>::empty() =~= req.encoding());
    lemma_mapping_reply_parses(req.protocol, secs, req.internal_port, req.external_port, req.lifetime);
}

/// An unmapping request carries its internal port with external port and
/// lifetime zero, and a successful reply that echoes it parses to a
/// response with the same protocol and internal port.
pub proof fn lemma_unmap_round_trip(req: UnmapPortRequest, secs: u32)
    requires
        req.wf(),
    ensures
        req.encoding()[1] == req.opcode(),
        be_u16_at(req.encoding(), 4) == req.internal_port,
        be_u16_at(req.encoding(), 6) == 0,
        be_u32_at(req.encoding(), 8) == 0,
        parse_raw_spec::<MappingResponse>(req.opcode(), mapping_reply(req.opcode(), secs, req.internal_port, 0, 0))
            == Ok::<MappingResponse, NATPMPError>(
            MappingResponse {
                protocol: req.protocol,
                internal_port: req.internal_port,
                external_port: 0,
                lifetime: 0,
                seconds_since_epoch: secs,
            },
        ),
{
    lemma_mapping_round_trip(MappingRequest { protocol: req.protocol, internal_port: req.internal_port, external_port: 0, lifetime: 0 }, secs);
}

/// An external address request is the two bytes `[0, 0]`, and a successful
/// reply to it parses to the seconds and the address that it carries.
pub proof fn lemma_external_address_round_trip(req: ExternalAddressRequest, secs: u32, address: u32)
    ensures
        req.encoding() == seq![0u8, 0u8],
        parse_raw_spec::<ExternalAddressResponse>(req.opcode(), external_address_reply(secs, address))
            == Ok::<ExternalAddressResponse, NATPMPError>(
            ExternalAddressResponse { seconds_since_epoch: secs, ipv4_address: address },
        ),
{
    let buf = external_address_reply(secs, address);
    let body = buf.subrange(4, buf.len() as int);
    let e = Seq::<u8>::empty();
    assert(body =~= e + u32_be_bytes(secs) + u32_be_bytes(address));
    lemma_u32_round_trip(secs, e, u32_be_bytes(address));
    lemma_u32_round_trip(address, u32_be_bytes(secs), e);
    assert(u32_be_bytes(secs) + u32_be_bytes(address) + e =~= body);
    assert(be_u16_at(buf, 2) == 0);
    assert(masked_opcode(buf[1]) == 0);
}

/// The response bit does not matter: a reply parses the same whether its
/// opcode byte is `op` or `op` with bit 0x80 set.
pub proof fn lemma_response_bit_ignored<T: Response>(expected: u8, buf: Seq<u8>, op: u8)
    requires
        buf.len() >= 2,
        op < 128,
    ensures
        parse_raw_spec::<T>(expected, buf.update(1, (op + 128) as u8)) == parse_raw_spec::<T>(expected, buf.update(1, op)),
{
    let hi = buf.update(1, (op + 128) as u8);
    let lo = buf.update(1, op);
    assert(masked_opcode(hi[1]) == masked_opcode(lo[1]));
    if buf.len() >= 4 {
        assert(hi.subrange(4, hi.len() as int) =~= lo.subrange(4, lo.len() as int));
        assert(be_u16_at(hi, 2) == be_u16_at(lo, 2));
    }
}

/// A reply whose opcode, response bit cleared, is not the request's is a
/// deserialization failure, whatever follows.
pub proof fn lemma_opcode_mismatch_rejected<T: Response>(expected: u8, buf: Seq<u8>)
    requires
        buf.len() >= 4,
        buf[0] == VERSION,
        masked_opcode(buf[1]) != expected,
    ensures
        parse_raw_spec::<T>(expected, buf) matches Err(NATPMPError::Deserialize(DeserializeError::OpcodeMismatch(e, got)))
            && e == expected && got == masked_opcode(buf[1]),
{
}

/// Once version and opcode match, result codes 1 to 5 are the five
/// refusals, any other non-zero code is a deserialization failure that
/// carries it, and only code zero leads to the body being read.
pub proof fn lemma_result_code_dispatch<T: Response>(expected: u8, buf: Seq<u8>)
    requires
        buf.len() >= 4,
        buf[0] == VERSION,
        masked_opcode(buf[1]) == expected,
    ensures
        1 <= be_u16_at(buf, 2) <= 5 ==> parse_raw_spec::<T>(expected, buf) == Err::<T, NATPMPError>(
            NATPMPError::Response(result_error_of(be_u16_at(buf, 2))->Some_0),
        ),
        be_u16_at(buf, 2) > 5 ==> parse_raw_spec::<T>(expected, buf) == Err::<T, NATPMPError>(
            NATPMPError::Deserialize(DeserializeError::UnrecognizedResultCode(be_u16_at(buf, 2))),
        ),
        be_u16_at(buf, 2) == 0 ==> parse_raw_spec::<T>(expected, buf) == T::parse_body(
            expected,
            buf.subrange(4, buf.len() as int),
        ),
{
}

/// Only a reply with result code zero, the right version and the right
/// opcode can succeed; its body is then read with the opcode's response bit
/// cleared.
pub proof fn lemma_success_needs_code_zero<T: Response>(expected: u8, buf: Seq<u8>)
    requires
        parse_raw_spec::<T>(expected, buf) is Ok,
    ensures
        buf.len() >= 4,
        buf[0] == VERSION,
        masked_opcode(buf[1]) == expected,
        be_u16_at(buf, 2) == 0,
        parse_raw_spec::<T>(expected, buf) == T::parse_body(masked_opcode(buf[1]), buf.subrange(4, buf.len() as int)),
{
}

/// A reply whose version byte is not zero is refused as an unsupported
/// version, whatever its length and other bytes.
pub proof fn lemma_version_checked_first<T: Response>(expected: u8, buf: Seq<u8>)
    requires
        buf.len() >= 1,
        buf[0] != VERSION,
    ensures
        parse_raw_spec::<T>(expected, buf) == Err::<T, NATPMPError>(
            NATPMPError::Response(NATPMPResultError::UnsupportedVersion),
        ),
{
}

/// The two body parsers read an opcode the same with or without its
/// response bit, so handing them the masked opcode or the byte as received
/// makes no difference.
pub proof fn lemma_body_parsers_ignore_response_bit(opcode: u8, body: Seq<u8>)
    ensures
        MappingResponse::parse_body(masked_opcode(opcode), body) == MappingResponse::parse_body(opcode, body),
        ExternalAddressResponse::parse_body(masked_opcode(opcode), body) == ExternalAddressResponse::parse_body(
            opcode,
            body,
        ),
{
    assert(masked_opcode(masked_opcode(opcode)) == masked_opcode(opcode));
}

} // verus!
