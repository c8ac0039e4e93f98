use natpmp_rs::errors::{DeserializeError, NATPMPError, NATPMPResultError};
use natpmp_rs::protocol::MappingProtocol;
use natpmp_rs::requests::{
    ExternalAddressRequest, MappingRequest, Request, UnmapAllPortsRequest, UnmapPortRequest, DEFAULT_LIFETIME,
};
use natpmp_rs::responses::{parse_raw_response, ExternalAddressResponse, MappingResponse, Response};

fn mapping_reply(opcode: u8, result: u16, secs: u32, internal: u16, external: u16, lifetime: u32) -> Vec<u8> {
    let mut b = vec![0u8, opcode];
    b.extend_from_slice(&result.to_be_bytes());
    b.extend_from_slice(&secs.to_be_bytes());
    b.extend_from_slice(&internal.to_be_bytes());
    b.extend_from_slice(&external.to_be_bytes());
    b.extend_from_slice(&lifetime.to_be_bytes());
    b
}

#[test]
fn external_address_request_encodes_to_two_zero_bytes() {
    let req = ExternalAddressRequest::new();
    assert_eq!(req.to_bytes(), vec![0x00, 0x00]);
    assert_eq!(req.get_opcode(), 0);
}

#[test]
fn external_address_response_decodes() {
    let req = ExternalAddressRequest::new();
    let buf = [0x00, 0x80, 0x00, 0x00, 0x00, 0x01, 0x02, 0x03, 0xC0, 0xA8, 0x01, 0x01];
    let r = parse_raw_response(&req, &buf).unwrap();
    assert_eq!(r.seconds_since_epoch, 0x0001_0203);
    assert_eq!(r.ipv4_address, 0xC0A8_0101);
    assert_eq!(r.octets(), [192, 168, 1, 1]);
}

#[test]
fn tcp_mapping_request_encodes_big_endian() {
    let req = MappingRequest::new(MappingProtocol::TCP, 9999, 0, 7200);
    assert_eq!(req.to_bytes(), vec![0, 2, 0, 0, 0x27, 0x0F, 0, 0, 0, 0, 0x1C, 0x20]);
    assert_eq!(req.get_opcode(), 2);
}

#[test]
fn udp_mapping_request_encodes_all_fields() {
    let req = MappingRequest::new(MappingProtocol::UDP, 0x1234, 0xABCD, 0x0102_0304);
    assert_eq!(req.to_bytes(), vec![0, 1, 0, 0, 0x12, 0x34, 0xAB, 0xCD, 1, 2, 3, 4]);
    assert_eq!(req.get_opcode(), 1);
}

#[test]
fn unmap_requests_zero_their_fixed_fields() {
    let one = UnmapPortRequest::new(MappingProtocol::UDP, 8080);
    assert_eq!(one.to_bytes(), vec![0, 1, 0, 0, 0x1F, 0x90, 0, 0, 0, 0, 0, 0]);
    let all = UnmapAllPortsRequest::new(MappingProtocol::TCP);
    assert_eq!(all.to_bytes(), vec![0, 2, 0, 0, 0, 0, 0, 0, 0, 0, 0, 0]);
    assert_eq!(all.get_opcode(), 2);
}

#[test]
fn mapping_defaults_are_any_port_for_two_hours() {
    let req = MappingRequest::with_defaults(MappingProtocol::TCP, 9999, None, None);
    assert_eq!(req, MappingRequest::new(MappingProtocol::TCP, 9999, 0, DEFAULT_LIFETIME));
    assert_eq!(DEFAULT_LIFETIME, 7200);
    let req = MappingRequest::with_defaults(MappingProtocol::UDP, 1, Some(2), Some(3));
    assert_eq!(req, MappingRequest::new(MappingProtocol::UDP, 1, 2, 3));
}

#[test]
fn mapping_response_round_trips_request_fields() {
    let req = MappingRequest::new(MappingProtocol::UDP, 5000, 6000, 3600);
    let buf = mapping_reply(0x81, 0, 77, 5000, 6000, 3600);
    let r = parse_raw_response(&req, &buf).unwrap();
    assert_eq!(
        r,
        MappingResponse {
            protocol: MappingProtocol::UDP,
            internal_port: 5000,
            external_port: 6000,
            lifetime: 3600,
            seconds_since_epoch: 77,
        }
    );
}

#[test]
fn unmap_response_round_trips() {
    let req = UnmapPortRequest::new(MappingProtocol::TCP, 443);
    let buf = mapping_reply(0x82, 0, 5, 443, 0, 0);
    let r = parse_raw_response(&req, &buf).unwrap();
    assert_eq!(r.protocol, MappingProtocol::TCP);
    assert_eq!(r.internal_port, 443);
    assert_eq!(r.external_port, 0);
    assert_eq!(r.lifetime, 0);
}

#[test]
fn network_failure_code_stops_before_the_body() {
    let req = MappingRequest::new(MappingProtocol::TCP, 9999, 0, 7200);
    let short = [0x00, 0x82, 0x00, 0x03];
    assert!(matches!(
        parse_raw_response(&req, &short),
        Err(NATPMPError::Response(NATPMPResultError::NetworkFailure))
    ));
    let full = mapping_reply(0x82, 3, 1, 2, 3, 4);
    assert!(matches!(
        parse_raw_response(&req, &full),
        Err(NATPMPError::Response(NATPMPResultError::NetworkFailure))
    ));
}

#[test]
fn invalid_protocol_opcode_is_a_deserialize_failure() {
    let req = MappingRequest::new(MappingProtocol::TCP, 9999, 0, 7200);
    let buf = mapping_reply(0x83, 0, 1, 9999, 0, 7200);
    assert!(matches!(
        parse_raw_response(&req, &buf),
        Err(NATPMPError::Deserialize(DeserializeError::OpcodeMismatch(2, 3)))
    ));
    let body = &buf[4..];
    assert!(matches!(
        MappingResponse::try_from_bytes(0x83, body),
        Err(NATPMPError::Deserialize(DeserializeError::InvalidProtocol(3)))
    ));
}

#[test]
fn response_bit_does_not_change_parsing() {
    let req = MappingRequest::new(MappingProtocol::UDP, 5000, 0, 60);
    let with_bit = parse_raw_response(&req, &mapping_reply(0x81, 0, 9, 5000, 5001, 60)).unwrap();
    let without_bit = parse_raw_response(&req, &mapping_reply(0x01, 0, 9, 5000, 5001, 60)).unwrap();
    assert_eq!(with_bit, without_bit);
}

#[test]
fn opcode_of_another_request_is_rejected() {
    let req = ExternalAddressRequest::new();
    let buf = [0x00, 0x81, 0x00, 0x00, 0, 0, 0, 0, 1, 2, 3, 4];
    assert!(matches!(
        parse_raw_response(&req, &buf),
        Err(NATPMPError::Deserialize(DeserializeError::OpcodeMismatch(0, 1)))
    ));
}

#[test]
fn result_codes_map_to_refusals() {
    let req = ExternalAddressRequest::new();
    let expected = [
        NATPMPResultError::UnsupportedVersion,
        NATPMPResultError::NotAuthorizedRefused,
        NATPMPResultError::NetworkFailure,
        NATPMPResultError::OutOfResources,
        NATPMPResultError::UnsupportedOpcode,
    ];
    for (i, e) in expected.iter().enumerate() {
        let code = (i + 1) as u16;
        let mut buf = vec![0x00, 0x80];
        buf.extend_from_slice(&code.to_be_bytes());
        match parse_raw_response(&req, &buf) {
            Err(NATPMPError::Response(got)) => assert_eq!(got, *e),
            other => panic!("code {} gave {:?}", code, other),
        }
        assert_eq!(NATPMPResultError::try_from(code), Ok(*e));
        assert_eq!(e.code(), code);
    }
}

#[test]
fn unknown_result_code_carries_its_value() {
    let req = ExternalAddressRequest::new();
    let buf = [0x00, 0x80, 0x01, 0x00];
    assert!(matches!(
        parse_raw_response(&req, &buf),
        Err(NATPMPError::Deserialize(DeserializeError::UnrecognizedResultCode(256)))
    ));
    assert_eq!(NATPMPResultError::try_from(0u16), Err(DeserializeError::UnrecognizedResultCode(0)));
    assert_eq!(NATPMPResultError::try_from(6u16), Err(DeserializeError::UnrecognizedResultCode(6)));
}

#[test]
fn wrong_version_is_unsupported_version() {
    let req = ExternalAddressRequest::new();
    let buf = [0x01, 0x80, 0x00, 0x00, 0, 0, 0, 0, 0, 0, 0, 0];
    assert!(matches!(
        parse_raw_response(&req, &buf),
        Err(NATPMPError::Response(NATPMPResultError::UnsupportedVersion))
    ));
}

#[test]
fn short_replies_are_truncated() {
    let req = ExternalAddressRequest::new();
    assert!(matches!(
        parse_raw_response(&req, &[0x00, 0x80, 0x00]),
        Err(NATPMPError::Deserialize(DeserializeError::Truncated))
    ));
    assert!(matches!(
        parse_raw_response(&req, &[0x00, 0x80, 0x00, 0x00, 1, 2, 3, 4, 5]),
        Err(NATPMPError::Deserialize(DeserializeError::Truncated))
    ));
    let mreq = MappingRequest::new(MappingProtocol::TCP, 1, 0, 0);
    assert!(matches!(
        parse_raw_response(&mreq, &mapping_reply(0x82, 0, 1, 1, 0, 0)[..15]),
        Err(NATPMPError::Deserialize(DeserializeError::Truncated))
    ));
}

#[test]
fn zero_internal_port_in_reply_is_rejected() {
    let req = UnmapAllPortsRequest::new(MappingProtocol::UDP);
    let buf = mapping_reply(0x81, 0, 1, 0, 0, 0);
    assert!(matches!(
        parse_raw_response(&req, &buf),
        Err(NATPMPError::Deserialize(DeserializeError::ZeroInternalPort))
    ));
}

#[test]
fn wire_sizes_are_fixed() {
    assert_eq!(ExternalAddressResponse::wire_size(), 12);
    assert_eq!(MappingResponse::wire_size(), 16);
}

#[test]
fn protocol_codes_are_a_bijection() {
    for p in [MappingProtocol::UDP, MappingProtocol::TCP] {
        assert_eq!(MappingProtocol::try_from(u8::from(p)), Ok(p));
    }
    assert_eq!(u8::from(MappingProtocol::UDP), 1);
    assert_eq!(MappingProtocol::TCP.code(), 2);
    for b in 0..=255u8 {
        match MappingProtocol::try_from(b) {
            Ok(p) => assert_eq!(p.code(), b),
            Err(e) => {
                assert!(b != 1 && b != 2);
                assert_eq!(e, DeserializeError::InvalidProtocol(b));
            },
        }
    }
    assert_eq!(MappingProtocol::UDP.name(), "UDP");
    assert_eq!(MappingProtocol::TCP.name(), "TCP");
}

#[test]
fn short_reply_with_bad_version_is_unsupported_version() {
    let req = MappingRequest::new(MappingProtocol::TCP, 9999, 0, 7200);
    for buf in [&[0x01u8][..], &[0x02, 0x82][..], &[0xFF, 0x82, 0x00][..]] {
        assert!(matches!(
            parse_raw_response(&req, buf),
            Err(NATPMPError::Response(NATPMPResultError::UnsupportedVersion))
        ));
    }
}

#[test]
fn empty_reply_is_truncated() {
    let req = ExternalAddressRequest::new();
    assert!(matches!(
        parse_raw_response(&req, &[]),
        Err(NATPMPError::Deserialize(DeserializeError::Truncated))
    ));
}
