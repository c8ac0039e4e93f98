//! The default gateway, as a Linux routing table (`/proc/net/route`) lists
//! it: one row per line after a header line, fields separated by tabs, the
//! destination and the gateway in the second and third field as hexadecimal.
use vstd::prelude::*;
use vstd::slice::slice_subrange;
use vstd::string::StringExecFns;

use crate::errors::NATPMPError;

verus! {

pub const NEWLINE: u8 = 0x0a;

pub const TAB: u8 = 0x09;

pub const PLUS: u8 = 0x2b;

/// The pieces of `t` between occurrences of `sep`; there is always at
/// least one.
pub open spec fn split_on(t: Seq<u8>, sep: u8) -> Seq<Seq<u8>>
    decreases t.len(),
{
    if t.len() == 0 {
        seq![Seq::empty()]
    } else {
        let init = split_on(t.drop_last(), sep);
        if t.last() == sep {
            init.push(Seq::empty())
        } else {
            init.update(init.len() - 1, init.last().push(t.last()))
        }
    }
}

/// ASCII whitespace: space, tab, line feed, vertical tab, form feed and
/// carriage return.
pub open spec fn is_space(b: u8) -> bool {
    b == 0x20 || (0x09 <= b && b <= 0x0d)
}

pub open spec fn trim_start(s: Seq<u8>) -> Seq<u8>
    decreases s.len(),
{
    if s.len() > 0 && is_space(s[0]) {
        trim_start(s.skip(1))
    } else {
        s
    }
}

pub open spec fn trim_end(s: Seq<u8>) -> Seq<u8>
    decreases s.len(),
{
    if s.len() > 0 && is_space(s.last()) {
        trim_end(s.drop_last())
    } else {
        s
    }
}

/// `s` without leading and trailing whitespace.
pub open spec fn trim(s: Seq<u8>) -> Seq<u8> {
    trim_end(trim_start(s))
}

/// The value of a hexadecimal digit, either case.
pub open spec fn hex_digit(b: u8) -> Option<nat> {
    if 0x30 <= b && b <= 0x39 {
        Some((b - 0x30) as nat)
    } else if 0x61 <= b && b <= 0x66 {
        Some((b - 0x61 + 10) as nat)
    } else if 0x41 <= b && b <= 0x46 {
        Some((b - 0x41 + 10) as nat)
    } else {
        None
    }
}

/// The value of a string of hexadecimal digits (zero for none), or `None`
/// if any byte is not one.
pub open spec fn hex_value(s: Seq<u8>) -> Option<nat>
    decreases s.len(),
{
    if s.len() == 0 {
        Some(0)
    } else {
        match (hex_value(s.drop_last()), hex_digit(s.last())) {
            (Some(v), Some(d)) => Some(v * 16 + d),
            _ => None,
        }
    }
}

/// A 32-bit hexadecimal number: an optional `+`, then one or more digits
/// whose value fits in 32 bits.
pub open spec fn hex_u32(s: Seq<u8>) -> Option<u32> {
    let digits = if s.len() > 0 && s[0] == PLUS {
        s.skip(1)
    } else {
        s
    };
    if digits.len() == 0 {
        None
    } else {
        match hex_value(digits) {
            Some(v) => if v <= u32::MAX {
                Some(v as u32)
            } else {
                None
            },
            None => None,
        }
    }
}

/// The gateway of a row whose destination is 0.0.0.0 and whose gateway is
/// not, as the number that the table prints.
pub open spec fn row_default_gateway(row: Seq<u8>) -> Option<u32> {
    let fields = split_on(row, TAB);
    if fields.len() < 3 {
        None
    } else {
        match (hex_u32(trim(fields[1])), hex_u32(trim(fields[2]))) {
            (Some(d), Some(g)) => if d == 0 && g != 0 {
                Some(g)
            } else {
                None
            },
            _ => None,
        }
    }
}

/// The default gateway of the first row that has one.
pub open spec fn first_default_gateway(rows: Seq<Seq<u8>>) -> Option<u32>
    decreases rows.len(),
{
    if rows.len() == 0 {
        None
    } else if row_default_gateway(rows[0]) is Some {
        row_default_gateway(rows[0])
    } else {
        first_default_gateway(rows.skip(1))
    }
}

/// The default gateway of a routing table: rows after the header line.
pub open spec fn route_table_gateway(table: Seq<u8>) -> Option<u32> {
    first_default_gateway(split_on(table, NEWLINE).skip(1))
}

proof fn lemma_split_nonempty(t: Seq<u8>, sep: u8)
    ensures
        split_on(t, sep).len() >= 1,
    decreases t.len(),
{
    if t.len() > 0 {
        lemma_split_nonempty(t.drop_last(), sep);
    }
}

/// Splits `t` at every `sep`.
pub fn split_bytes(t: &[u8], sep: u8) -> (r: Vec<Vec<u8>>)
    ensures
        r@.map_values(|v: Vec<u8>| v@) == split_on(t@, sep),
{
    let mut pieces: Vec<Vec<u8>> = Vec::new();
    let mut current: Vec<u8> = Vec::new();
    let mut i: usize = 0;
    proof {
        assert(t@.take(0) =~= Seq::<u8>::empty());
        assert(pieces@.map_values(|v: Vec<u8>| v@).push(current@) =~= seq![Seq::<u8>::empty()]);
    }
    while i < t.len()
        invariant
            i <= t@.len(),
            pieces@.map_values(|v: Vec<u8>| v@).push(current@) == split_on(t@.take(i as int), sep),
        decreases t.len() - i,
    {
        let ghost before = split_on(t@.take(i as int), sep);
        proof {
            assert(t@.take(i + 1).drop_last() =~= t@.take(i as int));
            lemma_split_nonempty(t@.take(i as int), sep);
        }
        if t[i] == sep {
            let done = current;
            pieces.push(done);
            current = Vec::new();
            proof {
                assert(pieces@.map_values(|v: Vec<u8>| v@).push(current@) =~= before.push(Seq::empty()));
            }
        } else {
            current.push(t[i]);
            proof {
                assert(pieces@.map_values(|v: Vec<u8>| v@).push(current@) =~= before.update(
                    before.len() - 1,
                    before.last().push(t@[i as int]),
                ));
            }
        }
        i = i + 1;
    }
    pieces.push(current);
    proof {
        assert(t@.take(t@.len() as int) =~= t@);
        assert(pieces@.map_values(|v: Vec<u8>| v@) =~= split_on(t@, sep));
    }
    pieces
}

fn is_space_byte(b: u8) -> (r: bool)
    ensures
        r == is_space(b),
{
    b == 0x20 || (0x09 <= b && b <= 0x0d)
}

/// The bounds of `s` without leading and trailing whitespace.
pub fn trim_bounds(s: &[u8]) -> (r: (usize, usize))
    ensures
        r.0 <= r.1 <= s@.len(),
        s@.subrange(r.0 as int, r.1 as int) == trim(s@),
{
    let mut i: usize = 0;
    proof {
        assert(s@.skip(0) =~= s@);
    }
    while i < s.len() && is_space_byte(s[i])
        invariant
            i <= s@.len(),
            trim_start(s@) == trim_start(s@.skip(i as int)),
        decreases s.len() - i,
    {
        proof {
            assert(s@.skip(i as int).skip(1) =~= s@.skip(i + 1));
        }
        i = i + 1;
    }
    assert(trim_start(s@) == s@.skip(i as int));
    assert(s@.skip(i as int) =~= s@.subrange(i as int, s@.len() as int));
    let mut j: usize = s.len();
    while j > i && is_space_byte(s[j - 1])
        invariant
            i <= j <= s@.len(),
            trim(s@) == trim_end(s@.subrange(i as int, j as int)),
        decreases j,
    {
        proof {
            assert(s@.subrange(i as int, j as int).drop_last() =~= s@.subrange(i as int, j - 1));
        }
        j = j - 1;
    }
    (i, j)
}

fn hex_digit_of(b: u8) -> (r: Option<u32>)
    ensures
        match hex_digit(b) {
            Some(d) => r == Some(d as u32),
            None => r is None,
        },
{
    if 0x30 <= b && b <= 0x39 {
        Some((b - 0x30) as u32)
    } else if 0x61 <= b && b <= 0x66 {
        Some((b - 0x61 + 10) as u32)
    } else if 0x41 <= b && b <= 0x46 {
        Some((b - 0x41 + 10) as u32)
    } else {
        None
    }
}

/// A prefix of a valid hexadecimal string is valid and has no larger value.
proof fn lemma_hex_prefix(s: Seq<u8>, k: int)
    requires
        0 <= k <= s.len(),
        hex_value(s) is Some,
    ensures
        hex_value(s.take(k)) is Some,
        hex_value(s.take(k))->Some_0 <= hex_value(s)->Some_0,
    decreases s.len(),
{
    if k < s.len() {
        lemma_hex_prefix(s.drop_last(), k);
        assert(s.drop_last().take(k) =~= s.take(k));
    } else {
        assert(s.take(k) =~= s);
    }
}

/// Reads a 32-bit hexadecimal number as `u32::from_str_radix(s, 16)` does
/// on ASCII text.
pub fn parse_hex_u32(s: &[u8]) -> (r: Option<u32>)
    ensures
        r == hex_u32(s@),
{
    let start: usize = if s.len() > 0 && s[0] == PLUS {
        1
    } else {
        0
    };
    let ghost digits = s@.subrange(start as int, s@.len() as int);
    proof {
        if start == 1 {
            assert(digits =~= s@.skip(1));
        } else {
            assert(digits =~= s@);
        }
    }
    if start == s.len() {
        return None;
    }
    let mut acc: u32 = 0;
    let mut i: usize = start;
    proof {
        assert(s@.subrange(start as int, start as int) =~= Seq::<u8>::empty());
    }
    while i < s.len()
        invariant
            start <= i <= s@.len(),
            digits == s@.subrange(start as int, s@.len() as int),
            digits == (if s@.len() > 0 && s@[0] == PLUS {
                s@.skip(1)
            } else {
                s@
            }),
            digits.len() > 0,
            hex_value(s@.subrange(start as int, i as int)) == Some(acc as nat),
        decreases s.len() - i,
    {
        let ghost prefix = s@.subrange(start as int, i + 1);
        proof {
            assert(prefix.drop_last() =~= s@.subrange(start as int, i as int));
            assert(digits.take(i + 1 - start) =~= prefix);
            assert(prefix.last() == s@[i as int]);
        }
        let d = match hex_digit_of(s[i]) {
            Some(d) => d,
            None => {
                proof {
                    if hex_value(digits) is Some {
                        lemma_hex_prefix(digits, i + 1 - start);
                    }
                }
                return None;
            },
        };
        let next: u64 = acc as u64 * 16 + d as u64;
        if next > u32::MAX as u64 {
            proof {
                assert(hex_value(prefix) == Some(next as nat));
                if hex_value(digits) is Some {
                    lemma_hex_prefix(digits, i + 1 - start);
                }
            }
            return None;
        }
        acc = next as u32;
        i = i + 1;
    }
    proof {
        assert(s@.subrange(start as int, i as int) =~= digits);
    }
    Some(acc)
}

fn row_gateway(row: &[u8]) -> (r: Option<u32>)
    ensures
        r == row_default_gateway(row@),
{
    let fields = split_bytes(row, TAB);
    proof {
        assert(fields@.map_values(|v: Vec<u8>| v@).len() == fields@.len());
    }
    if fields.len() < 3 {
        return None;
    }
    let ghost views = fields@.map_values(|v: Vec<u8>| v@);
    assert(views[1] == fields@[1]@);
    assert(views[2] == fields@[2]@);
    let (a, b) = trim_bounds(fields[1].as_slice());
    let destination = parse_hex_u32(slice_subrange(fields[1].as_slice(), a, b));
    let (c, d) = trim_bounds(fields[2].as_slice());
    let gateway = parse_hex_u32(slice_subrange(fields[2].as_slice(), c, d));
    match (destination, gateway) {
        (Some(dst), Some(g)) => {
            if dst == 0 && g != 0 {
                Some(g)
            } else {
                None
            }
        },
        _ => None,
    }
}

/// Finds the default gateway in the text of a routing table: the gateway
/// of the first row after the header whose destination is 0.0.0.0 and
/// whose gateway is not. The number is returned as the table prints it,
/// in the host's byte order. The table is read as ASCII text: only ASCII
/// whitespace is trimmed around a field.
pub fn default_gateway(table: &[u8]) -> (r: Result<u32, NATPMPError>)
    ensures
        match route_table_gateway(table@) {
            Some(g) => r == Ok::<u32, NATPMPError>(g),
            None => r matches Err(NATPMPError::Generic(m)) && m@ == "No default gateway found"@,
        },
{
    let rows = split_bytes(table, NEWLINE);
    let ghost views = rows@.map_values(|v: Vec<u8>| v@);
    assert(views.len() == rows@.len());
    let mut i: usize = 1;
    proof {
        lemma_split_nonempty(table@, NEWLINE);
    }
    while i < rows.len()
        invariant
            1 <= i <= rows@.len(),
            views == rows@.map_values(|v: Vec<u8>| v@),
            views == split_on(table@, NEWLINE),
            route_table_gateway(table@) == first_default_gateway(views.skip(i as int)),
        decreases rows.len() - i,
    {
        assert(views[i as int] == rows@[i as int]@);
        assert(views.skip(i as int)[0] == views[i as int]);
        assert(views.skip(i as int).skip(1) =~= views.skip(i + 1));
        match row_gateway(rows[i].as_slice()) {
            Some(g) => {
                return Ok(g);
            },
            None => {},
        }
        i = i + 1;
    }
    assert(views.skip(i as int) =~= Seq::<Seq<u8>>::empty());
    Err(NATPMPError::Generic(String::from_str("No default gateway found")))
}

} // verus!
