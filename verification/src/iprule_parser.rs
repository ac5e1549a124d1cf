//! Parser of SDF flow descriptions (3GPP TS 29.212, clause 5.4.2):
//! `permit out <protocol> from <src> [<src_ports>] to <dst> [<dst_ports>]`.
use vstd::prelude::*;

use crate::ipaddr::{parse_ipv4, parse_u32, spec_parse_ipv4, spec_parse_u32};
use crate::sdf::{
    spec_prefix_to_mask, PortRange, SdfFilterPod, SDF_DST_ADDR, SDF_SRC_ADDR, with_dst_ip, with_dst_ports, with_dst_prefix, with_protocol,
    with_src_ip, with_src_ports, with_src_prefix,
};
use crate::text::{
    decimal_value, digit_run, find, find_char, is_digit, parse_decimal, run_len, starts_with,
    starts_with_tag, trim, trim_bounds,
};

verus! {

/// Protocol number of UDP.
pub const UDP: u8 = 17;
/// Protocol number of TCP.
pub const TCP: u8 = 6;

#[derive(Debug, Clone, Copy, PartialEq, Eq, Structural)]
pub enum Action {
    Permit,
    Deny,
    Unknown,
}

#[derive(Debug, Clone, Copy, PartialEq, Eq, Structural)]
pub enum Direction {
    Out,
    From,
    To,
    Unknown,
}

#[derive(Debug, Clone, Copy, PartialEq, Eq, Structural)]
pub enum Protocol {
    Any,
    Tcp,
    Udp,
    Unknown,
}

/// An address of a flow description; IPv4 addresses are in network byte order.
#[derive(Debug, Clone, Copy, PartialEq, Eq, Structural)]
pub enum Addr {
    Any,
    Assigned,
    IpAddr(u32),
    IpAddrPrefix(u32, u32),
}

/// Why a flow description was refused.
#[derive(Debug, Clone, Copy, PartialEq, Eq, Structural)]
pub enum SdfFilterError {
    /// It does not start with `permit`.
    MissingPermit,
    /// `out` does not follow `permit`.
    MissingOut,
    /// No protocol (`ip`, `6` or `17`) follows `out`.
    InvalidProtocol,
    /// `from` does not follow the protocol.
    MissingFrom,
    /// `to` does not follow the source address and ports.
    MissingTo,
}

/// An SDF filter IE: its flow description.
pub struct SdfFilter {
    pub flow_description: String,
}

pub open spec fn tag_permit() -> Seq<char> {
    seq!['p', 'e', 'r', 'm', 'i', 't']
}

pub open spec fn tag_deny() -> Seq<char> {
    seq!['d', 'e', 'n', 'y']
}

pub open spec fn tag_out() -> Seq<char> {
    seq!['o', 'u', 't']
}

pub open spec fn tag_from() -> Seq<char> {
    seq!['f', 'r', 'o', 'm']
}

pub open spec fn tag_to() -> Seq<char> {
    seq!['t', 'o']
}

pub open spec fn tag_ip() -> Seq<char> {
    seq!['i', 'p']
}

pub open spec fn tag_assigned() -> Seq<char> {
    seq!['a', 's', 's', 'i', 'g', 'n', 'e', 'd']
}

pub open spec fn tag_any() -> Seq<char> {
    seq!['a', 'n', 'y']
}

/// The length of the run of decimal digits at the start of `s`.
pub open spec fn digits_len(s: Seq<char>) -> int {
    run_len(s, |c: char| is_digit(c))
}

/// The action at the start of `s` and the number of characters it takes.
pub open spec fn spec_parse_action(s: Seq<char>) -> (Action, int) {
    if starts_with(s, tag_permit()) {
        (Action::Permit, 6)
    } else if starts_with(s, tag_deny()) {
        (Action::Deny, 4)
    } else {
        (Action::Unknown, 0)
    }
}

/// The direction keyword at the start of `s` and the number of characters it takes.
pub open spec fn spec_parse_direction(s: Seq<char>) -> (Direction, int) {
    if starts_with(s, tag_out()) {
        (Direction::Out, 3)
    } else if starts_with(s, tag_from()) {
        (Direction::From, 4)
    } else if starts_with(s, tag_to()) {
        (Direction::To, 2)
    } else {
        (Direction::Unknown, 0)
    }
}

/// The protocol at the start of `s` and the number of characters it takes: `ip`
/// for any protocol, or a protocol number that fits in a byte.
pub open spec fn spec_parse_protocol(s: Seq<char>) -> (Protocol, int) {
    if starts_with(s, tag_ip()) {
        (Protocol::Any, 2)
    } else {
        let n = digits_len(s);
        let v = decimal_value(s.subrange(0, n));
        if n > 0 && v <= 255 {
            (if v == TCP {
                Protocol::Tcp
            } else if v == UDP {
                Protocol::Udp
            } else {
                Protocol::Unknown
            }, n)
        } else {
            (Protocol::Unknown, 0)
        }
    }
}

/// The port range at the start of `s` and the number of characters it takes:
/// `start-end`, a single port, or no port at all (the range 0-0).
pub open spec fn spec_parse_port_range(s: Seq<char>) -> (PortRange, int) {
    let n1 = digits_len(s);
    let v1 = decimal_value(s.subrange(0, n1));
    let rest = s.subrange(n1 + 1, s.len() as int);
    let n2 = digits_len(rest);
    let v2 = decimal_value(rest.subrange(0, n2));
    if n1 > 0 && v1 <= 0xffff && n1 < s.len() && s[n1] == '-' && n2 > 0 && v2 <= 0xffff {
        (PortRange { start: v1 as u16, end: v2 as u16 }, n1 + 1 + n2)
    } else if n1 > 0 && v1 <= 0xffff {
        (PortRange { start: v1 as u16, end: v1 as u16 }, n1)
    } else {
        (PortRange { start: 0, end: 0 }, 0)
    }
}

/// The address at the start of `s` and the number of characters it takes, or
/// `None` where reading it panics (an address or prefix that does not parse).
/// `ip/prefix` needs a space behind it; a lone address is taken up to the next
/// space, and with no space left the address is `any`.
pub open spec fn spec_parse_address(s: Seq<char>) -> Option<(Addr, int)> {
    if starts_with(s, tag_assigned()) {
        Some((Addr::Assigned, 8))
    } else if starts_with(s, tag_any()) {
        Some((Addr::Any, 3))
    } else if find(s, '/') is Some && find(s.subrange(find(s, '/')->0 + 1, s.len() as int), ' ') is Some {
        let k = find(s, '/')->0;
        let m = find(s.subrange(k + 1, s.len() as int), ' ')->0;
        let ip = spec_parse_ipv4(s.subrange(0, k));
        let prefix = spec_parse_u32(s.subrange(k + 1, k + 1 + m));
        if ip is Some && prefix is Some {
            Some((Addr::IpAddrPrefix(ip->0, prefix->0), k + 1 + m))
        } else {
            None
        }
    } else if find(s, ' ') is Some {
        let m = find(s, ' ')->0;
        match spec_parse_ipv4(trim(s.subrange(0, m))) {
            Some(ip) => Some((Addr::IpAddr(ip), m)),
            None => None,
        }
    } else {
        Some((Addr::Any, 0))
    }
}

/// Reads the action at the start of `input`; gives it and the number of characters taken.
pub fn parse_action(input: &[char]) -> (r: (Action, usize))
    ensures
        (r.0, r.1 as int) == spec_parse_action(input@),
        r.1 <= input@.len(),
{
    let permit = ['p', 'e', 'r', 'm', 'i', 't'];
    let deny = ['d', 'e', 'n', 'y'];
    assert(permit@ =~= tag_permit());
    assert(deny@ =~= tag_deny());
    if starts_with_tag(input, permit.as_slice()) {
        return (Action::Permit, 6);
    }
    if starts_with_tag(input, deny.as_slice()) {
        return (Action::Deny, 4);
    }
    (Action::Unknown, 0)
}

/// Reads the direction keyword at the start of `input`; gives it and the number of characters taken.
pub fn parse_direction(input: &[char]) -> (r: (Direction, usize))
    ensures
        (r.0, r.1 as int) == spec_parse_direction(input@),
        r.1 <= input@.len(),
{
    let out = ['o', 'u', 't'];
    let from = ['f', 'r', 'o', 'm'];
    let to = ['t', 'o'];
    assert(out@ =~= tag_out());
    assert(from@ =~= tag_from());
    assert(to@ =~= tag_to());
    if starts_with_tag(input, out.as_slice()) {
        return (Direction::Out, 3);
    }
    if starts_with_tag(input, from.as_slice()) {
        return (Direction::From, 4);
    }
    if starts_with_tag(input, to.as_slice()) {
        return (Direction::To, 2);
    }
    (Direction::Unknown, 0)
}

/// Reads the protocol at the start of `input`; gives it and the number of characters taken.
pub fn parse_protocol(input: &[char]) -> (r: (Protocol, usize))
    ensures
        (r.0, r.1 as int) == spec_parse_protocol(input@),
        r.1 <= input@.len(),
{
    let ip = ['i', 'p'];
    assert(ip@ =~= tag_ip());
    if starts_with_tag(input, ip.as_slice()) {
        return (Protocol::Any, 2);
    }
    let n = digit_run(input);
    if n == 0 {
        return (Protocol::Unknown, 0);
    }
    let digits = &input[0..n];
    assert(digits@ =~= input@.subrange(0, n as int));
    match parse_decimal(digits, 255) {
        Some(v) => {
            if v == 6 {
                (Protocol::Tcp, n)
            } else if v == 17 {
                (Protocol::Udp, n)
            } else {
                (Protocol::Unknown, n)
            }
        },
        None => (Protocol::Unknown, 0),
    }
}

/// The number written by the run of digits at the start of `s`, if it fits in a port.
fn leading_port(s: &[char]) -> (r: (Option<u16>, usize))
    ensures
        r.1 == digits_len(s@),
        r.1 <= s@.len(),
        r.0 is Some <==> (digits_len(s@) > 0 && decimal_value(s@.subrange(0, digits_len(s@)))
            <= 0xffff),
        r.0 matches Some(v) ==> v == decimal_value(s@.subrange(0, digits_len(s@))),
{
    let n = digit_run(s);
    if n == 0 {
        return (None, 0);
    }
    let digits = &s[0..n];
    assert(digits@ =~= s@.subrange(0, n as int));
    match parse_decimal(digits, 0xffff) {
        Some(v) => (Some(v as u16), n),
        None => (None, n),
    }
}

/// Reads the port range at the start of `input`; gives it and the number of characters taken.
pub fn parse_port_range(input: &[char]) -> (r: (PortRange, usize))
    ensures
        (r.0, r.1 as int) == spec_parse_port_range(input@),
        r.1 <= input@.len(),
{
    let len = input.len();
    let (first, n1) = leading_port(input);
    match first {
        None => (PortRange::default(), 0),
        Some(start) => {
            if n1 < len && input[n1] == '-' {
                let rest = &input[n1 + 1..len];
                assert(rest@ =~= input@.subrange(n1 + 1, input@.len() as int));
                let (second, n2) = leading_port(rest);
                if let Some(end) = second {
                    let mut port_range = PortRange::default();
                    port_range.set_start(start);
                    port_range.set_end(end);
                    return (port_range, n1 + 1 + n2);
                }
            }
            let mut port_range = PortRange::default();
            port_range.set_start(start);
            port_range.set_end(start);
            (port_range, n1)
        },
    }
}

/// Reads the address at the start of `input`; gives it and the number of
/// characters taken, or `None` where reading it panics.
fn address_outcome(input: &[char]) -> (r: Option<(Addr, usize)>)
    ensures
        match r {
            Some((a, n)) => spec_parse_address(input@) == Some((a, n as int)) && n <= input@.len(),
            None => spec_parse_address(input@) is None,
        },
{
    let assigned = ['a', 's', 's', 'i', 'g', 'n', 'e', 'd'];
    let any = ['a', 'n', 'y'];
    assert(assigned@ =~= tag_assigned());
    assert(any@ =~= tag_any());
    if starts_with_tag(input, assigned.as_slice()) {
        return Some((Addr::Assigned, 8));
    }
    if starts_with_tag(input, any.as_slice()) {
        return Some((Addr::Any, 3));
    }
    let len = input.len();
    if let Some(k) = find_char(input, '/') {
        let after = &input[k + 1..len];
        assert(after@ =~= input@.subrange(k + 1, input@.len() as int));
        if let Some(m) = find_char(after, ' ') {
            let ip_text = &input[0..k];
            let prefix_text = &after[0..m];
            assert(ip_text@ =~= input@.subrange(0, k as int));
            assert(prefix_text@ =~= input@.subrange(k + 1, k + 1 + m));
            let ip = parse_ipv4(ip_text);
            let prefix = parse_u32(prefix_text);
            match (ip, prefix) {
                (Some(ip), Some(prefix)) => return Some((Addr::IpAddrPrefix(ip, prefix), k + 1 + m)),
                _ => return None,
            }
        }
    }
    if let Some(m) = find_char(input, ' ') {
        let word = &input[0..m];
        let (lo, hi) = trim_bounds(word);
        let ip_text = &word[lo..hi];
        assert(word@ =~= input@.subrange(0, m as int));
        assert(ip_text@ =~= word@.subrange(lo as int, hi as int));
        match parse_ipv4(ip_text) {
            Some(ip) => return Some((Addr::IpAddr(ip), m)),
            None => return None,
        }
    }
    Some((Addr::Any, 0))
}

/// Reads the address at the start of `input`; gives it and the number of characters taken.
pub fn parse_address(input: &[char]) -> (r: (Addr, usize))
    requires
        spec_parse_address(input@) is Some,
    ensures
        Some((r.0, r.1 as int)) == spec_parse_address(input@),
        r.1 <= input@.len(),
{
    match address_outcome(input) {
        Some(r) => r,
        // not reached: the precondition says the address reads
        None => (Addr::Any, 0),
    }
}

/// What reading a flow description comes to.
#[derive(Debug, Clone, Copy, PartialEq, Eq, Structural)]
pub enum SdfParse {
    /// The filter that the description states.
    Accepted(SdfFilterPod),
    /// The description is refused.
    Rejected(SdfFilterError),
    /// Reading the description panics: an address or a prefix that does not parse.
    Panics,
}

/// What is left of `s` after its first `n` characters, trimmed.
pub open spec fn rest_after(s: Seq<char>, n: int) -> Seq<char> {
    trim(s.subrange(n, s.len() as int))
}

/// The head of a flow description, up to and including `from`: the filter
/// with its protocol and the text after `from`, or why the head is refused.
pub open spec fn spec_sdf_head(s0: Seq<char>) -> Result<(SdfFilterPod, Seq<char>), SdfFilterError> {
    let (a, n0) = spec_parse_action(s0);
    let s1 = rest_after(s0, n0);
    let (d1, n1) = spec_parse_direction(s1);
    let s2 = rest_after(s1, n1);
    let (p, n2) = spec_parse_protocol(s2);
    let s3 = rest_after(s2, n2);
    let (d3, n3) = spec_parse_direction(s3);
    let pod = match p {
        Protocol::Tcp => with_protocol(SdfFilterPod::spec_default(), TCP),
        Protocol::Udp => with_protocol(SdfFilterPod::spec_default(), UDP),
        _ => SdfFilterPod::spec_default(),
    };
    if a != Action::Permit {
        Err(SdfFilterError::MissingPermit)
    } else if d1 != Direction::Out {
        Err(SdfFilterError::MissingOut)
    } else if p == Protocol::Unknown {
        Err(SdfFilterError::InvalidProtocol)
    } else if d3 != Direction::From {
        Err(SdfFilterError::MissingFrom)
    } else {
        Ok((pod, rest_after(s3, n3)))
    }
}

/// `pod` with the source address `addr`: a lone address gets no mask;
/// `None` where a prefix is longer than 32 bits (setting it panics).
pub open spec fn with_src_addr(pod: SdfFilterPod, addr: Addr) -> Option<SdfFilterPod> {
    match addr {
        Addr::IpAddr(ip) => Some(with_src_ip(pod, ip)),
        Addr::IpAddrPrefix(ip, prefix) => if prefix <= 32 {
            Some(with_src_prefix(with_src_ip(pod, ip), prefix))
        } else {
            None
        },
        _ => Some(pod),
    }
}

/// `pod` with the destination address `addr`: a lone address gets no mask;
/// `None` where a prefix is longer than 32 bits (setting it panics).
pub open spec fn with_dst_addr(pod: SdfFilterPod, addr: Addr) -> Option<SdfFilterPod> {
    match addr {
        Addr::IpAddr(ip) => Some(with_dst_ip(pod, ip)),
        Addr::IpAddrPrefix(ip, prefix) => if prefix <= 32 {
            Some(with_dst_prefix(with_dst_ip(pod, ip), prefix))
        } else {
            None
        },
        _ => Some(pod),
    }
}

/// The source part of a flow description, after `from` and up to and
/// including `to`: the filter with the source set and the text after `to`.
pub open spec fn spec_sdf_source(pod: SdfFilterPod, s4: Seq<char>) -> SdfStage {
    match spec_parse_address(s4) {
        None => SdfStage::Panics,
        Some((addr, n4)) => match with_src_addr(pod, addr) {
            None => SdfStage::Panics,
            Some(pod_a) => {
                let s5 = rest_after(s4, n4);
                let (range, n5) = spec_parse_port_range(s5);
                let pod_p = if range.start != 0 {
                    with_src_ports(pod_a, range)
                } else {
                    pod_a
                };
                let s6 = rest_after(s5, n5);
                let (d, n6) = spec_parse_direction(s6);
                if d != Direction::To {
                    SdfStage::Rejected(SdfFilterError::MissingTo)
                } else {
                    SdfStage::Next(pod_p, rest_after(s6, n6))
                }
            },
        },
    }
}

/// The destination part of a flow description, after `to`: the filter with
/// the destination set, or `None` where reading it panics.
pub open spec fn spec_sdf_dest(pod: SdfFilterPod, s7: Seq<char>) -> Option<SdfFilterPod> {
    match spec_parse_address(s7) {
        None => None,
        Some((addr, n7)) => match with_dst_addr(pod, addr) {
            None => None,
            Some(pod_a) => {
                let (range, n8) = spec_parse_port_range(rest_after(s7, n7));
                Some(
                    if range.start != 0 {
                        with_dst_ports(pod_a, range)
                    } else {
                        pod_a
                    },
                )
            },
        },
    }
}

/// Setting one part's bit of a filter's flags keeps the address bits of the
/// other parts.
proof fn lemma_flag_bits(b: u8)
    by (bit_vector)
    ensures
        (b | 0x04u8) & 0x04u8 == 0x04u8,
        (b | 0x04u8) & 0x02u8 == b & 0x02u8,
        (b | 0x02u8) & 0x02u8 == 0x02u8,
        (b | 0x02u8) & 0x04u8 == b & 0x04u8,
        (b | 0x08u8) & 0x02u8 == b & 0x02u8,
        (b | 0x08u8) & 0x04u8 == b & 0x04u8,
        (b | 0x10u8) & 0x02u8 == b & 0x02u8,
        (b | 0x10u8) & 0x04u8 == b & 0x04u8,
{
}

/// The address written after `to` becomes the filter's destination, with
/// the destination flag, and leaves the filter's source address, mask, flag
/// and ports and its protocol as they were.
pub proof fn lemma_destination_address_stored(pod: SdfFilterPod, s7: Seq<char>, addr: Addr, n: int)
    requires
        spec_parse_address(s7) == Some((addr, n)),
        addr is IpAddr || (addr matches Addr::IpAddrPrefix(_, prefix) && prefix <= 32),
    ensures
        spec_sdf_dest(pod, s7) matches Some(p) && {
            &&& p.flags.bits & SDF_DST_ADDR == SDF_DST_ADDR
            &&& p.src_ip == pod.src_ip
            &&& p.src_ip_mask == pod.src_ip_mask
            &&& p.flags.bits & SDF_SRC_ADDR == pod.flags.bits & SDF_SRC_ADDR
            &&& p.src_port_range == pod.src_port_range
            &&& p.protocol == pod.protocol
            &&& match addr {
                Addr::IpAddr(ip) => p.dst_ip == ip && p.dst_ip_mask == pod.dst_ip_mask,
                Addr::IpAddrPrefix(ip, prefix) => p.dst_ip == ip && p.dst_ip_mask == spec_prefix_to_mask(prefix),
                _ => false,
            }
        },
{
    lemma_flag_bits(pod.flags.bits);
    lemma_flag_bits(pod.flags.bits | 0x04u8);
}

/// The address written after `from` becomes the filter's source, with the
/// source flag, and leaves the filter's destination address, mask and flag
/// as they were.
pub proof fn lemma_source_address_stored(pod: SdfFilterPod, s4: Seq<char>, addr: Addr, n: int)
    requires
        spec_parse_address(s4) == Some((addr, n)),
        addr is IpAddr || (addr matches Addr::IpAddrPrefix(_, prefix) && prefix <= 32),
    ensures
        spec_sdf_source(pod, s4) matches SdfStage::Next(p, _) ==> {
            &&& p.flags.bits & SDF_SRC_ADDR == SDF_SRC_ADDR
            &&& p.dst_ip == pod.dst_ip
            &&& p.dst_ip_mask == pod.dst_ip_mask
            &&& p.flags.bits & SDF_DST_ADDR == pod.flags.bits & SDF_DST_ADDR
            &&& match addr {
                Addr::IpAddr(ip) => p.src_ip == ip,
                Addr::IpAddrPrefix(ip, prefix) => p.src_ip == ip && p.src_ip_mask == spec_prefix_to_mask(prefix),
                _ => false,
            }
        },
{
    lemma_flag_bits(pod.flags.bits);
    lemma_flag_bits(pod.flags.bits | 0x02u8);
}

/// A flow description whose text after `to` starts with an IPv4 address is
/// accepted, with that address as its destination and the source that the
/// text after `from` gave left as it was.
pub proof fn lemma_parsed_destination(
    flow: Seq<char>,
    head: SdfFilterPod,
    s4: Seq<char>,
    source: SdfFilterPod,
    s7: Seq<char>,
    ip: u32,
    n: int,
)
    requires
        spec_sdf_head(trim(flow)) == Ok::<(SdfFilterPod, Seq<char>), SdfFilterError>((head, s4)),
        spec_sdf_source(head, s4) == SdfStage::Next(source, s7),
        spec_parse_address(s7) == Some((Addr::IpAddr(ip), n)),
    ensures
        spec_parse_sdf_filter(flow) matches SdfParse::Accepted(f) && {
            &&& f.dst_ip == ip
            &&& f.flags.bits & SDF_DST_ADDR == SDF_DST_ADDR
            &&& f.src_ip == source.src_ip
            &&& f.flags.bits & SDF_SRC_ADDR == source.flags.bits & SDF_SRC_ADDR
        },
{
    lemma_destination_address_stored(source, s7, Addr::IpAddr(ip), n);
}

/// Where the source part of a flow description leads.
pub ghost enum SdfStage {
    Next(SdfFilterPod, Seq<char>),
    Rejected(SdfFilterError),
    Panics,
}

/// What the flow description `flow` states: the filter, the reason it is
/// refused, or that reading it panics. Each keyword, address and port range
/// is read from the text left after the previous one, trimmed of whitespace.
pub open spec fn spec_parse_sdf_filter(flow: Seq<char>) -> SdfParse {
    match spec_sdf_head(trim(flow)) {
        Err(e) => SdfParse::Rejected(e),
        Ok((pod, s4)) => match spec_sdf_source(pod, s4) {
            SdfStage::Panics => SdfParse::Panics,
            SdfStage::Rejected(e) => SdfParse::Rejected(e),
            SdfStage::Next(pod_s, s7) => match spec_sdf_dest(pod_s, s7) {
                None => SdfParse::Panics,
                Some(pod_d) => SdfParse::Accepted(pod_d),
            },
        },
    }
}

/// What is left of `s` after its first `n` characters, trimmed.
fn after(s: &[char], n: usize) -> (r: &[char])
    requires
        n <= s@.len(),
    ensures
        r@ == rest_after(s@, n as int),
{
    let len = s.len();
    let tail = &s[n..len];
    let (lo, hi) = trim_bounds(tail);
    assert(tail@ =~= s@.subrange(n as int, s@.len() as int));
    &tail[lo..hi]
}

fn parse_sdf_head(s0: &[char]) -> (r: Result<(SdfFilterPod, &[char]), SdfFilterError>)
    ensures
        match spec_sdf_head(s0@) {
            Err(e) => r == Err::<(SdfFilterPod, &[char]), SdfFilterError>(e),
            Ok((pod, s4)) => r matches Ok((got, rest)) && got == pod && rest@ == s4,
        },
{
    let mut sdf_filter = SdfFilterPod::default();
    let (action, n0) = parse_action(s0);
    if action != Action::Permit {
        return Err(SdfFilterError::MissingPermit);
    }
    let s1 = after(s0, n0);
    let (d1, n1) = parse_direction(s1);
    if d1 != Direction::Out {
        return Err(SdfFilterError::MissingOut);
    }
    let s2 = after(s1, n1);
    let (protocol, n2) = parse_protocol(s2);
    match protocol {
        Protocol::Any => {},
        Protocol::Tcp => {
            sdf_filter.set_protocol(TCP);
        },
        Protocol::Udp => {
            sdf_filter.set_protocol(UDP);
        },
        Protocol::Unknown => {
            return Err(SdfFilterError::InvalidProtocol);
        },
    }
    let s3 = after(s2, n2);
    let (d3, n3) = parse_direction(s3);
    if d3 != Direction::From {
        return Err(SdfFilterError::MissingFrom);
    }
    Ok((sdf_filter, after(s3, n3)))
}

fn parse_sdf_source<'a>(pod: SdfFilterPod, s4: &'a [char]) -> (r: Result<
    Option<(SdfFilterPod, &'a [char])>,
    SdfFilterError,
>)
    ensures
        match spec_sdf_source(pod, s4@) {
            SdfStage::Rejected(e) => r == Err::<Option<(SdfFilterPod, &[char])>, SdfFilterError>(e),
            SdfStage::Next(p, s7) => r matches Ok(Some((got, rest))) && got == p && rest@ == s7,
            SdfStage::Panics => r matches Ok(None),
        },
{
    let mut sdf_filter = pod;
    let (addr, n4) = match address_outcome(s4) {
        Some(a) => a,
        None => return Ok(None),
    };
    match addr {
        Addr::Any | Addr::Assigned => {},
        Addr::IpAddr(ip) => {
            sdf_filter.set_src_ip(ip);
        },
        Addr::IpAddrPrefix(ip, prefix) => {
            if prefix > 32 {
                return Ok(None);
            }
            sdf_filter.set_src_ip(ip);
            sdf_filter.set_src_ip_prefix(prefix);
        },
    }
    let s5 = after(s4, n4);
    let (port_range, n5) = parse_port_range(s5);
    if port_range.start() != 0 {
        sdf_filter.set_src_port_range(port_range);
    }
    let s6 = after(s5, n5);
    let (d6, n6) = parse_direction(s6);
    if d6 != Direction::To {
        return Err(SdfFilterError::MissingTo);
    }
    Ok(Some((sdf_filter, after(s6, n6))))
}

fn parse_sdf_dest(pod: SdfFilterPod, s7: &[char]) -> (r: Option<SdfFilterPod>)
    ensures
        r == spec_sdf_dest(pod, s7@),
{
    let mut sdf_filter = pod;
    let (addr, n7) = match address_outcome(s7) {
        Some(a) => a,
        None => return None,
    };
    match addr {
        Addr::Any | Addr::Assigned => {},
        Addr::IpAddr(ip) => {
            sdf_filter.set_dst_ip(ip);
        },
        Addr::IpAddrPrefix(ip, prefix) => {
            if prefix > 32 {
                return None;
            }
            sdf_filter.set_dst_ip(ip);
            sdf_filter.set_dst_ip_prefix(prefix);
        },
    }
    let s8 = after(s7, n7);
    let (port_range, _n8) = parse_port_range(s8);
    if port_range.start() != 0 {
        sdf_filter.set_dst_port_range(port_range);
    }
    Some(sdf_filter)
}

/// The characters of `s`.
pub fn chars_of(s: &str) -> (r: Vec<char>)
    ensures
        r@ == s@,
{
    let mut chars: Vec<char> = Vec::new();
    for c in it: s.chars()
        invariant
            chars@ == it.seq().subrange(0, it.index() as int),
    {
        chars.push(c);
    }
    chars
}

/// Reads an SDF flow description: the filter it states, the reason it is
/// refused, or that reading it panics (an address or a prefix that does not
/// parse).
pub fn classify_sdf_filter(sdf: &SdfFilter) -> (r: SdfParse)
    ensures
        r == spec_parse_sdf_filter(sdf.flow_description@),
{
    let chars = chars_of(sdf.flow_description.as_str());
    let all = chars.as_slice();
    let (lo, hi) = trim_bounds(all);
    let s0 = &all[lo..hi];
    let (pod, s4) = match parse_sdf_head(s0) {
        Ok(ok) => ok,
        Err(e) => return SdfParse::Rejected(e),
    };
    let (pod, s7) = match parse_sdf_source(pod, s4) {
        Ok(Some(ok)) => ok,
        Ok(None) => return SdfParse::Panics,
        Err(e) => return SdfParse::Rejected(e),
    };
    match parse_sdf_dest(pod, s7) {
        Some(p) => SdfParse::Accepted(p),
        None => SdfParse::Panics,
    }
}

/// Reads an SDF flow description into a filter, or says why it is refused.
/// Inputs on which reading panics (an address or a prefix that does not
/// parse) are left out.
pub fn parse_sdf_filter(sdf: &SdfFilter) -> (r: Result<SdfFilterPod, SdfFilterError>)
    requires
        spec_parse_sdf_filter(sdf.flow_description@) != SdfParse::Panics,
    ensures
        match spec_parse_sdf_filter(sdf.flow_description@) {
            SdfParse::Accepted(pod) => r == Ok::<SdfFilterPod, SdfFilterError>(pod),
            SdfParse::Rejected(e) => r == Err::<SdfFilterPod, SdfFilterError>(e),
            SdfParse::Panics => false,
        },
{
    match classify_sdf_filter(sdf) {
        SdfParse::Accepted(pod) => Ok(pod),
        SdfParse::Rejected(e) => Err(e),
        // not reached: the precondition leaves out descriptions that panic
        SdfParse::Panics => Err(SdfFilterError::MissingPermit),
    }
}

} // verus!
