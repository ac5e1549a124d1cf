//! Parsing of packets as the XDP program sees them: an Ethernet frame whose
//! bytes run from the start of the packet to its end.
use vstd::prelude::*;

use crate::fteid::Fteid;
use crate::gtpu::{
    be16, be32, extension_type_of, message_type_of, read_be16, read_be32, GtpuExtensionType,
    GtpuHdr, GtpuMessageType, GTPU_HDR_BASE_LEN, GTPU_OPT_FIELDS_LEN,
};
use crate::pdu::{DL_PDU_SESSION_LEN, GTPU_DL_PDU_EXT_HDR_LEN, UL_PDU_SESSION_LEN};
use crate::{GTP_PROTOCOL_TYPE, GTP_VERSION, MAX_EXT_HDRS, XDP_ABORTED, XDP_DROP, XDP_PASS};

verus! {

/// Length of an Ethernet header.
pub const ETH_HDR_LEN: usize = 14;
/// Length of an IPv4 header without options.
pub const IPV4_HDR_LEN: usize = 20;
/// Length of a UDP header.
pub const UDP_HDR_LEN: usize = 8;
/// Length of a TCP header without options.
pub const TCP_HDR_LEN: usize = 20;
/// Protocol number of UDP in an IPv4 header.
pub const IPPROTO_UDP: u8 = 17;
/// Protocol number of TCP in an IPv4 header.
pub const IPPROTO_TCP: u8 = 6;

/// Length of the GTP-U optional fields and the PDU Session Container.
pub const GTPU_EXT_LEN: usize = 12;
/// Length of a GTP-U header with its optional fields and PDU Session Container.
pub const GTPU_HDR_LEN: usize = 20;
/// Length of the outer IPv4, UDP and GTP-U headers of a tunnelled packet.
pub const OUTER_HDRS_LEN_SUM: usize = 48;

/// Offset of the GTP-U header in a tunnelled packet.
pub const GTPU_OFFSET: usize = 42;
/// Offset of the GTP-U optional fields in a tunnelled packet.
pub const GTPU_OPT_OFFSET: usize = 50;
/// Offset of the inner IPv4 header in a tunnelled packet.
pub const INNER_IPV4_OFFSET: usize = 62;

/// Two bytes of `pkt` at `off` read in network byte order.
pub open spec fn be16_at(pkt: Seq<u8>, off: int) -> u16 {
    be16(pkt[off], pkt[off + 1])
}

/// Four bytes of `pkt` at `off` read in network byte order.
pub open spec fn be32_at(pkt: Seq<u8>, off: int) -> u32 {
    be32(pkt[off], pkt[off + 1], pkt[off + 2], pkt[off + 3])
}

pub fn read_be16_at(pkt: &[u8], off: usize) -> (r: u16)
    requires
        off + 2 <= pkt@.len(),
    ensures
        r == be16_at(pkt@, off as int),
{
    read_be16(pkt[off], pkt[off + 1])
}

pub fn read_be32_at(pkt: &[u8], off: usize) -> (r: u32)
    requires
        off + 4 <= pkt@.len(),
    ensures
        r == be32_at(pkt@, off as int),
{
    read_be32(pkt[off], pkt[off + 1], pkt[off + 2], pkt[off + 3])
}

/// Addresses, length and protocol of an IPv4 header; addresses in network
/// byte order.
#[derive(Clone, Copy, PartialEq, Eq, Structural)]
pub struct ParsedIpv4 {
    pub src_ipv4: u32,
    pub dst_ipv4: u32,
    pub tot_len: usize,
    pub proto: u8,
}

impl ParsedIpv4 {
    /// The addresses and length of a header; the protocol is 0 until it is set.
    pub fn new(src_ipv4: u32, dst_ipv4: u32, tot_len: usize) -> (r: Self)
        ensures
            r == (ParsedIpv4 { src_ipv4, dst_ipv4, tot_len, proto: 0 }),
    {
        Self { src_ipv4, dst_ipv4, tot_len, proto: 0 }
    }

    /// Records the header's protocol.
    pub fn set_proto(&mut self, proto: u8)
        ensures
            *final(self) == (ParsedIpv4 { proto, ..*old(self) }),
    {
        self.proto = proto;
    }

    pub fn src_ipv4(&self) -> (r: u32)
        ensures
            r == self.src_ipv4,
    {
        self.src_ipv4
    }

    pub fn dst_ipv4(&self) -> (r: u32)
        ensures
            r == self.dst_ipv4,
    {
        self.dst_ipv4
    }
}

/// Source and destination ports of a UDP or TCP header.
#[derive(Clone, Copy, PartialEq, Eq, Structural)]
pub struct ParsedPorts {
    pub src: u16,
    pub dst: u16,
}

impl Default for ParsedPorts {
    fn default() -> (r: Self)
        ensures
            r == (ParsedPorts { src: 0, dst: 0 }),
    {
        ParsedPorts { src: 0, dst: 0 }
    }
}

impl ParsedPorts {
    pub fn new(src: u16, dst: u16) -> (r: Self)
        ensures
            r == (ParsedPorts { src, dst }),
    {
        Self { src, dst }
    }
}

/// What the GTP-U header of a packet says.
#[derive(Clone, Copy, PartialEq, Eq, Structural)]
pub struct ParsedGtpu {
    pub local_fteid: Fteid,
    pub message_type: GtpuMessageType,
    pub has_flags: bool,
    pub has_extension_header: bool,
}

/// What the PDU Session Container of a packet says.
#[derive(Clone, Copy, PartialEq, Eq, Structural)]
pub struct ParsedPsc {
    pub ext_tot_len: usize,
    pub qfi: u8,
}

impl ParsedPsc {
    pub fn ext_tot_len(&self) -> (r: usize)
        ensures
            r == self.ext_tot_len,
    {
        self.ext_tot_len
    }

    pub fn qfi(&self) -> (r: u8)
        ensures
            r == self.qfi,
    {
        self.qfi
    }
}

/// The headers of a packet tunnelled in GTP-U.
#[derive(Clone, Copy, PartialEq, Eq, Structural)]
pub struct ParsedInner {
    pub ip: ParsedIpv4,
    pub ports: ParsedPorts,
    pub gtpu: ParsedGtpu,
    pub psc: ParsedPsc,
}

/// What the XDP program knows of a packet.
#[derive(Clone, Copy, PartialEq, Eq, Structural)]
pub struct PacketContext {
    pub ipv4: ParsedIpv4,
    pub upf_ipv4: u32,
    pub ports: ParsedPorts,
    pub inner: Option<ParsedInner>,
}

/// What parsing the GTP-U header of `pkt` gives: the header's content, or the
/// XDP verdict for a packet too short (abort), not GTP-U version 1 (pass on),
/// or of an unknown message type (drop).
pub open spec fn spec_parse_gtpu_header(pkt: Seq<u8>, upf_ip: u32) -> Result<ParsedGtpu, u32> {
    let off = GTPU_OFFSET as int;
    if off + GTPU_HDR_BASE_LEN > pkt.len() {
        Err(XDP_ABORTED)
    } else {
        let flags = pkt[off];
        if (flags & 0x10) >> 4 != GTP_PROTOCOL_TYPE || (flags & 0xE0) >> 5 != GTP_VERSION {
            Err(XDP_PASS)
        } else {
            match message_type_of(pkt[off + 1]) {
                Err(_) => Err(XDP_DROP),
                Ok(t) => Ok(
                    ParsedGtpu {
                        local_fteid: Fteid::spec_new(be32_at(pkt, off + 4), upf_ip),
                        message_type: t,
                        has_flags: flags & 0x07 != 0,
                        has_extension_header: flags & 0x04 != 0,
                    },
                ),
            }
        }
    }
}

/// Reads the GTP-U header of a tunnelled packet; `upf_ip` is the local end of the tunnel.
pub fn parse_gtpu_header(pkt: &[u8], upf_ip: u32) -> (r: Result<ParsedGtpu, u32>)
    ensures
        r == spec_parse_gtpu_header(pkt@, upf_ip),
{
    if pkt.len() < GTPU_OFFSET + GTPU_HDR_BASE_LEN {
        return Err(XDP_ABORTED);
    }
    let gtpuh = GtpuHdr {
        v_pt_flags: pkt[GTPU_OFFSET],
        msg_type: pkt[GTPU_OFFSET + 1],
        msg_len: [pkt[GTPU_OFFSET + 2], pkt[GTPU_OFFSET + 3]],
        teid: [pkt[GTPU_OFFSET + 4], pkt[GTPU_OFFSET + 5], pkt[GTPU_OFFSET + 6], pkt[GTPU_OFFSET + 7]],
    };
    if gtpuh.protocol_type() != GTP_PROTOCOL_TYPE || gtpuh.version() != GTP_VERSION {
        return Err(XDP_PASS);
    }
    let message_type = match gtpuh.message_type() {
        Ok(GtpuMessageType::GPdu) => GtpuMessageType::GPdu,
        Ok(GtpuMessageType::EchoRequest) => GtpuMessageType::EchoRequest,
        Ok(GtpuMessageType::EchoResponse) => GtpuMessageType::EchoResponse,
        Ok(GtpuMessageType::ErrorIndication) => GtpuMessageType::ErrorIndication,
        Ok(GtpuMessageType::EndMarker) => GtpuMessageType::EndMarker,
        Ok(GtpuMessageType::SupportedExtensionHeaders) => GtpuMessageType::SupportedExtensionHeaders,
        Ok(GtpuMessageType::TunnelStatus) => GtpuMessageType::TunnelStatus,
        Err(_) => {
            return Err(XDP_DROP);
        },
    };
    Ok(
        ParsedGtpu {
            local_fteid: Fteid::new(gtpuh.teid(), upf_ip),
            message_type,
            has_flags: gtpuh.has_flags(),
            has_extension_header: gtpuh.has_extension_header(),
        },
    )
}

/// The walk over the extension headers of a GTP-U packet, with `steps` steps
/// left, at offset `off`, the next header being of type `t`, having summed the
/// lengths `tot` so far and found the QFI `qfi` so far: gives the sum and the
/// QFI when the walk ends, or `Err` where the packet is too short or a header
/// has length 0. A header (3GPP TS 29.281, 5.2.1) starts with its length in
/// units of four octets and ends with the type of the header after it; a PDU
/// Session Container of a DL or UL PDU carries the QFI in the low six bits of
/// its third octet, and one of another PDU type ends the walk.
pub open spec fn psc_walk(
    pkt: Seq<u8>,
    off: int,
    t: Result<GtpuExtensionType, u8>,
    tot: int,
    qfi: Option<u8>,
    steps: nat,
) -> Result<(int, Option<u8>), ()>
    decreases steps,
{
    if steps == 0 || t == Ok::<GtpuExtensionType, u8>(GtpuExtensionType::NoMoreExtensions) {
        Ok((tot, qfi))
    } else if off + 1 > pkt.len() {
        Err(())
    } else {
        let ext_len = pkt[off] as int * 4;
        if ext_len == 0 || off + ext_len > pkt.len() {
            Err(())
        } else {
            let tot2 = tot + ext_len;
            let next = extension_type_of(pkt[off + ext_len - 1]);
            if t == Ok::<GtpuExtensionType, u8>(GtpuExtensionType::PduSessionContainer) {
                let pdu_type = pkt[off + 1] >> 4;
                if pdu_type == 0 || pdu_type == 1 {
                    psc_walk(pkt, off + ext_len, next, tot2, Some((pkt[off + 2] & 0x3F) as u8), (steps - 1) as nat)
                } else {
                    Ok((tot2, qfi))
                }
            } else {
                psc_walk(pkt, off + ext_len, next, tot2, qfi, (steps - 1) as nat)
            }
        }
    }
}

/// What parsing the PDU Session Container of a tunnelled packet gives: the
/// total length of the extension headers walked and the QFI, or `Err` where
/// the packet is too short or no QFI was found.
pub open spec fn spec_parse_pdu_session_container(pkt: Seq<u8>) -> Result<ParsedPsc, ()> {
    let off = GTPU_OPT_OFFSET as int;
    if off + GTPU_OPT_FIELDS_LEN > pkt.len() {
        Err(())
    } else {
        match psc_walk(
            pkt,
            off + GTPU_OPT_FIELDS_LEN,
            extension_type_of(pkt[off + 3]),
            0,
            None,
            MAX_EXT_HDRS as nat,
        ) {
            Err(()) => Err(()),
            Ok((tot, qfi)) => match qfi {
                None => Err(()),
                Some(q) => Ok(ParsedPsc { ext_tot_len: tot as usize, qfi: q }),
            },
        }
    }
}

/// Reads the extension headers of a tunnelled packet for its PDU Session Container.
pub fn parse_pdu_session_container(pkt: &[u8]) -> (r: Result<ParsedPsc, ()>)
    ensures
        r == spec_parse_pdu_session_container(pkt@),
{
    let len = pkt.len();
    let mut offset = GTPU_OPT_OFFSET;
    if GTPU_OPT_FIELDS_LEN > len || offset > len - GTPU_OPT_FIELDS_LEN {
        return Err(());
    }
    let mut exth_type = GtpuExtensionType::try_from(pkt[offset + 3]);
    let mut ext_tot_len: usize = 0;
    let mut qfi: Option<u8> = None;
    offset += GTPU_OPT_FIELDS_LEN;
    let ghost whole = spec_parse_pdu_session_container(pkt@);
    let mut i: usize = 0;
    while i < MAX_EXT_HDRS
        invariant_except_break
            i <= MAX_EXT_HDRS,
            len == pkt@.len(),
            offset <= len,
            ext_tot_len <= i * 1020,
            psc_walk(pkt@, GTPU_OPT_OFFSET + GTPU_OPT_FIELDS_LEN, extension_type_of(pkt@[GTPU_OPT_OFFSET + 3]), 0, None, MAX_EXT_HDRS as nat)
                == psc_walk(pkt@, offset as int, exth_type, ext_tot_len as int, qfi, (MAX_EXT_HDRS - i) as nat),
        ensures
            psc_walk(pkt@, GTPU_OPT_OFFSET + GTPU_OPT_FIELDS_LEN, extension_type_of(pkt@[GTPU_OPT_OFFSET + 3]), 0, None, MAX_EXT_HDRS as nat)
                == Ok::<(int, Option<u8>), ()>((ext_tot_len as int, qfi)),
        decreases MAX_EXT_HDRS - i,
    {
        if let Ok(GtpuExtensionType::NoMoreExtensions) = exth_type {
            break;
        }
        if offset >= len {
            return Err(());
        }
        let n = pkt[offset];
        let ext_hdr_length: usize = n as usize * 4;
        if ext_hdr_length == 0 || ext_hdr_length > len - offset {
            return Err(());
        }
        ext_tot_len += ext_hdr_length;
        let next_ext_hdr_type = pkt[offset + ext_hdr_length - 1];
        match exth_type {
            Ok(GtpuExtensionType::PduSessionContainer) => {
                let pdu_type = pkt[offset + 1] >> 4;
                if pdu_type == 0 || pdu_type == 1 {
                    qfi = Some(pkt[offset + 2] & 0x3F);
                } else {
                    break;
                }
            },
            _ => {},
        }
        offset += ext_hdr_length;
        exth_type = GtpuExtensionType::try_from(next_ext_hdr_type);
        i += 1;
    }
    match qfi {
        Some(q) => Ok(ParsedPsc { ext_tot_len, qfi: q }),
        None => Err(()),
    }
}

/// What parsing the inner IPv4 header and its UDP or TCP header gives: its
/// addresses, length and protocol, and the ports.
/// `Err` where the packet is too short or the inner protocol is neither UDP nor TCP.
pub open spec fn spec_parse_inner_headers(pkt: Seq<u8>) -> Result<(ParsedIpv4, ParsedPorts), ()> {
    let off = INNER_IPV4_OFFSET as int;
    if off + IPV4_HDR_LEN > pkt.len() {
        Err(())
    } else {
        let src = be32_at(pkt, off + 12);
        let dst = be32_at(pkt, off + 16);
        let ip = ParsedIpv4 {
            src_ipv4: src,
            dst_ipv4: dst,
            tot_len: be16_at(pkt, off + 2) as usize,
            proto: pkt[off + 9],
        };
        let l4 = off + IPV4_HDR_LEN;
        if pkt[off + 9] == IPPROTO_UDP {
            if l4 + UDP_HDR_LEN > pkt.len() {
                Err(())
            } else {
                Ok((ip, ParsedPorts { src: be16_at(pkt, l4), dst: be16_at(pkt, l4 + 2) }))
            }
        } else if pkt[off + 9] == IPPROTO_TCP {
            if l4 + TCP_HDR_LEN > pkt.len() {
                Err(())
            } else {
                Ok((ip, ParsedPorts { src: be16_at(pkt, l4), dst: be16_at(pkt, l4 + 2) }))
            }
        } else {
            Err(())
        }
    }
}

/// What parsing the tunnelled part of `pkt` gives: the headers, or the XDP
/// verdict (that of the GTP-U header, else abort).
pub open spec fn spec_parse_inner(pkt: Seq<u8>, upf_ipv4: u32) -> Result<ParsedInner, u32> {
    match spec_parse_gtpu_header(pkt, upf_ipv4) {
        Err(v) => Err(v),
        Ok(gtpu) => match spec_parse_pdu_session_container(pkt) {
            Err(_) => Err(XDP_ABORTED),
            Ok(psc) => match spec_parse_inner_headers(pkt) {
                Err(_) => Err(XDP_ABORTED),
                Ok((ip, ports)) => Ok(ParsedInner { ip, ports, gtpu, psc }),
            },
        },
    }
}

impl PacketContext {
    pub fn new(ipv4: ParsedIpv4, upf_ipv4: u32) -> (r: Self)
        ensures
            r == (PacketContext {
                ipv4,
                upf_ipv4,
                ports: ParsedPorts { src: 0, dst: 0 },
                inner: None,
            }),
    {
        Self { ipv4, upf_ipv4, ports: ParsedPorts::default(), inner: None }
    }

    pub fn set_ports(&mut self, src: u16, dst: u16)
        ensures
            *final(self) == (PacketContext { ports: ParsedPorts { src, dst }, ..*old(self) }),
    {
        self.ports = ParsedPorts { src, dst }
    }

    pub fn upf_ipv4(&self) -> (r: u32)
        ensures
            r == self.upf_ipv4,
    {
        self.upf_ipv4
    }

    pub fn src_port(&self) -> (r: u16)
        ensures
            r == self.ports.src,
    {
        self.ports.src
    }

    pub fn dst_port(&self) -> (r: u16)
        ensures
            r == self.ports.dst,
    {
        self.ports.dst
    }

    pub fn src_ipv4(&self) -> (r: u32)
        ensures
            r == self.ipv4.src_ipv4,
    {
        self.ipv4.src_ipv4
    }

    pub fn dst_ipv4(&self) -> (r: u32)
        ensures
            r == self.ipv4.dst_ipv4,
    {
        self.ipv4.dst_ipv4
    }

    pub fn inner(&self) -> (r: Option<&ParsedInner>)
        ensures
            match self.inner {
                Some(i) => r == Some(&i),
                None => r is None,
            },
    {
        self.inner.as_ref()
    }

    pub fn set_inner(&mut self, inner: ParsedInner)
        ensures
            *final(self) == (PacketContext { inner: Some(inner), ..*old(self) }),
    {
        self.inner = Some(inner)
    }

    /// Parses the GTP-U header, the PDU Session Container and the inner
    /// headers of a tunnelled packet and keeps them; gives the XDP verdict
    /// where that fails.
    pub fn parse_inner(&mut self, pkt: &[u8]) -> (r: Result<(), u32>)
        ensures
            match spec_parse_inner(pkt@, old(self).upf_ipv4) {
                Ok(inner) => r is Ok && *final(self) == (PacketContext {
                    inner: Some(inner),
                    ..*old(self)
                }),
                Err(v) => r == Err::<(), u32>(v) && *final(self) == *old(self),
            },
    {
        let parsed_gtpu = match parse_gtpu_header(pkt, self.upf_ipv4) {
            Ok(g) => g,
            Err(v) => return Err(v),
        };
        let parsed_psc = match parse_pdu_session_container(pkt) {
            Ok(psc) => psc,
            Err(_) => return Err(XDP_ABORTED),
        };
        let (parsed_ipv4, parsed_ports) = match self.parse_inner_headers(pkt) {
            Ok(ok) => ok,
            Err(_) => return Err(XDP_ABORTED),
        };
        let inner = ParsedInner {
            ip: parsed_ipv4,
            ports: parsed_ports,
            gtpu: parsed_gtpu,
            psc: parsed_psc,
        };
        self.set_inner(inner);
        Ok(())
    }

    /// Reads the inner IPv4 header of a tunnelled packet and its UDP or TCP ports.
    pub fn parse_inner_headers(&self, pkt: &[u8]) -> (r: Result<(ParsedIpv4, ParsedPorts), ()>)
        ensures
            r == spec_parse_inner_headers(pkt@),
    {
        let len = pkt.len();
        let offset = INNER_IPV4_OFFSET;
        if len < offset + IPV4_HDR_LEN {
            return Err(());
        }
        let src = read_be32_at(pkt, offset + 12);
        let dst = read_be32_at(pkt, offset + 16);
        let mut parsed_ipv4 = ParsedIpv4::new(src, dst, read_be16_at(pkt, offset + 2) as usize);
        let l4 = offset + IPV4_HDR_LEN;
        let proto = pkt[offset + 9];
        parsed_ipv4.set_proto(proto);
        let (src_port, dst_port) = if proto == IPPROTO_UDP {
            if len < l4 + UDP_HDR_LEN {
                return Err(());
            }
            (read_be16_at(pkt, l4), read_be16_at(pkt, l4 + 2))
        } else if proto == IPPROTO_TCP {
            if len < l4 + TCP_HDR_LEN {
                return Err(());
            }
            (read_be16_at(pkt, l4), read_be16_at(pkt, l4 + 2))
        } else {
            return Err(());
        };
        Ok((parsed_ipv4, ParsedPorts::new(src_port, dst_port)))
    }
}

} // verus!
