use natpmp_rs::errors::NATPMPError;
use natpmp_rs::route::{default_gateway, parse_hex_u32, split_bytes, trim_bounds};

const TABLE: &str = "Iface\tDestination\tGateway \tFlags\tRefCnt\tUse\tMetric\tMask\t\tMTU\tWindow\tIRTT\n\
eth0\t0001A8C0\t00000000\t0001\t0\t0\t100\t00FFFFFF\t0\t0\t0\n\
eth0\t00000000\t0101A8C0\t0003\t0\t0\t100\t00000000\t0\t0\t0\n\
wlan0\t00000000\t0102A8C0\t0003\t0\t0\t600\t00000000\t0\t0\t0\n";

#[test]
fn first_default_route_gives_the_gateway() {
    let g = default_gateway(TABLE.as_bytes()).unwrap();
    assert_eq!(g, 0x0101_A8C0);
    assert_eq!(g.swap_bytes(), 0xC0A8_0101);
}

#[test]
fn header_line_is_never_a_route() {
    let table = "x\t00000000\t01010101\nlo\t0000007F\t00000000\n";
    assert!(matches!(default_gateway(table.as_bytes()), Err(NATPMPError::Generic(m)) if m == "No default gateway found"));
}

#[test]
fn empty_table_has_no_gateway() {
    assert!(matches!(default_gateway(b""), Err(NATPMPError::Generic(_))));
}

#[test]
fn route_without_gateway_is_skipped() {
    let table = "h\neth0\t00000000\t00000000\neth1\t 00000000 \t 0A000001\r\n";
    assert_eq!(default_gateway(table.as_bytes()).unwrap(), 0x0A00_0001);
}

#[test]
fn hex_numbers_follow_from_str_radix() {
    for s in ["0", "+1f", "FFFFFFFF", "00000000ffffffff", "1", "g", "", "+", "-1", "100000000", "1 2"] {
        assert_eq!(parse_hex_u32(s.as_bytes()), u32::from_str_radix(s, 16).ok(), "{:?}", s);
    }
    assert_eq!(parse_hex_u32(b"+1f"), Some(31));
}

#[test]
fn split_and_trim_bytes() {
    assert_eq!(split_bytes(b"a\tb\t", b'\t'), vec![b"a".to_vec(), b"b".to_vec(), vec![]]);
    assert_eq!(split_bytes(b"", b'\t'), vec![Vec::<u8>::new()]);
    assert_eq!(trim_bounds(b"  ab \r"), (2, 4));
    assert_eq!(trim_bounds(b"   "), (3, 3));
}
