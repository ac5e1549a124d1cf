//! Textual forms of IPv4 addresses and unsigned numbers, as the standard
//! library reads them.
use vstd::prelude::*;

use crate::gtpu::be32;
use crate::text::{all_digits, decimal_value, find, find_char, is_digit, parse_decimal};

verus! {

/// One dotted-decimal group: one to three digits, no leading zero, at most 255.
pub open spec fn ipv4_group(g: Seq<char>) -> bool {
    &&& 1 <= g.len() <= 3
    &&& all_digits(g)
    &&& (g.len() > 1 ==> g[0] != '0')
    &&& decimal_value(g) <= 255
}

/// The address of four groups in network byte order.
pub open spec fn ipv4_of_groups(g1: Seq<char>, g2: Seq<char>, g3: Seq<char>, g4: Seq<char>) -> u32 {
    be32(
        decimal_value(g1) as u8,
        decimal_value(g2) as u8,
        decimal_value(g3) as u8,
        decimal_value(g4) as u8,
    )
}

/// The IPv4 address written in `s` in dotted-decimal form, as
/// `Ipv4Addr::from_str` reads it: exactly four groups separated by dots.
pub open spec fn spec_parse_ipv4(s: Seq<char>) -> Option<u32> {
    match find(s, '.') {
        None => None,
        Some(i1) => {
            let g1 = s.subrange(0, i1);
            let r1 = s.subrange(i1 + 1, s.len() as int);
            match find(r1, '.') {
                None => None,
                Some(i2) => {
                    let g2 = r1.subrange(0, i2);
                    let r2 = r1.subrange(i2 + 1, r1.len() as int);
                    match find(r2, '.') {
                        None => None,
                        Some(i3) => {
                            let g3 = r2.subrange(0, i3);
                            let g4 = r2.subrange(i3 + 1, r2.len() as int);
                            if ipv4_group(g1) && ipv4_group(g2) && ipv4_group(g3) && ipv4_group(
                                g4,
                            ) {
                                Some(ipv4_of_groups(g1, g2, g3, g4))
                            } else {
                                None
                            }
                        },
                    }
                },
            }
        },
    }
}

/// The number written in `s`, as `u32::from_str` reads it: an optional `+`
/// followed by at least one decimal digit, at most `u32::MAX`.
pub open spec fn spec_parse_u32(s: Seq<char>) -> Option<u32> {
    let t = if s.len() > 1 && s[0] == '+' {
        s.subrange(1, s.len() as int)
    } else {
        s
    };
    if t.len() > 0 && all_digits(t) && decimal_value(t) <= 0xffff_ffff {
        Some(decimal_value(t) as u32)
    } else {
        None
    }
}

/// The value of one dotted-decimal group, if it is one.
fn parse_ipv4_group(g: &[char]) -> (r: Option<u8>)
    ensures
        r is Some <==> ipv4_group(g@),
        r matches Some(v) ==> v == decimal_value(g@),
{
    if g.len() == 0 || g.len() > 3 {
        return None;
    }
    if g.len() > 1 && g[0] == '0' {
        return None;
    }
    match parse_decimal(g, 255) {
        Some(v) => Some(v as u8),
        None => None,
    }
}

/// Reads an IPv4 address in dotted-decimal form.
pub fn parse_ipv4(s: &[char]) -> (r: Option<u32>)
    ensures
        r == spec_parse_ipv4(s@),
{
    let n = s.len();
    let i1 = match find_char(s, '.') {
        Some(i) => i,
        None => return None,
    };
    let g1 = &s[0..i1];
    let r1 = &s[i1 + 1..n];
    let n1 = r1.len();
    let i2 = match find_char(r1, '.') {
        Some(i) => i,
        None => return None,
    };
    let g2 = &r1[0..i2];
    let r2 = &r1[i2 + 1..n1];
    let n2 = r2.len();
    let i3 = match find_char(r2, '.') {
        Some(i) => i,
        None => return None,
    };
    let g3 = &r2[0..i3];
    let g4 = &r2[i3 + 1..n2];
    let v1 = match parse_ipv4_group(g1) {
        Some(v) => v,
        None => return None,
    };
    let v2 = match parse_ipv4_group(g2) {
        Some(v) => v,
        None => return None,
    };
    let v3 = match parse_ipv4_group(g3) {
        Some(v) => v,
        None => return None,
    };
    let v4 = match parse_ipv4_group(g4) {
        Some(v) => v,
        None => return None,
    };
    Some(v1 as u32 * 0x100_0000 + v2 as u32 * 0x1_0000 + v3 as u32 * 0x100 + v4 as u32)
}

/// Reads an unsigned 32-bit number.
pub fn parse_u32(s: &[char]) -> (r: Option<u32>)
    ensures
        r == spec_parse_u32(s@),
{
    let t = if s.len() > 1 && s[0] == '+' {
        &s[1..s.len()]
    } else {
        s
    };
    match parse_decimal(t, 0xffff_ffff) {
        Some(v) => Some(v as u32),
        None => None,
    }
}

} // verus!
