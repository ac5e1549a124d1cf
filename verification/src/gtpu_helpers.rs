//! What the datapath does to a packet: wrapping it in GTP-U, taking GTP-U
//! off, moving a tunnel to new endpoints, and routing it at layer 2.
//!
//! A packet is the bytes of an Ethernet frame, from the start of the data to
//! its end.
use vstd::prelude::*;

use crate::checksum::{
    csum_replace4, lemma_csum_fold_u64_complements, lemma_csum_replace4_incremental,
    spec_csum_replace4,
};
use crate::gtpu::{
    be16_bytes, be32_bytes, GtpuExtensionType, GtpuHdr, GtpuMessageType, GtpuOptFields,
    GTPU_HDR_BASE_LEN, GTPU_OPT_FIELDS_LEN,
};
use crate::net::{
    ipv4_checksum_ok, ipv4_csum, ipv4_hdr_at, ipv4_word_sum, lemma_ipv4_word_sum, read_bytes,
    spec_ipv4_csum, splice, write_bytes, zeros, Ipv4Hdr, UdpHdr,
};
use crate::parser::{
    be16_at, ETH_HDR_LEN, GTPU_HDR_LEN, IPPROTO_UDP, IPV4_HDR_LEN,
    OUTER_HDRS_LEN_SUM, UDP_HDR_LEN,
};
use crate::pdu::{DLPduSession, GtpuDLPduExtensionHdr, GTPU_DL_PDU_EXT_HDR_LEN};
use crate::{FibMacs, AF_INET, GTPU_DST_PORT, XDP_PASS, XDP_TX};

verus! {

/// `base + len` on 16 bits, wrapping around as the datapath's `u16` lengths do.
pub open spec fn add_len16(base: u16, len: u16) -> u16 {
    if base + len > 0xffff {
        (base + len - 0x1_0000) as u16
    } else {
        (base + len) as u16
    }
}

/// The bit patterns the header initialisers produce.
proof fn lemma_header_bits(dscp: u8, f: u8)
    by (bit_vector)
    ensures
        ((4u8 & 0xF) << 4) | ((20u8 / 4) & 0xF) == 0x45u8,
        ((dscp & 0x3F) << 2) | (0u8 & 0x3) == (dscp & 0x3F) << 2,
        (((2u8 as u16) & 0x7) << 13) | (0u16 & 0x1FFF) == 0x4000u16,
        ((1u8 & 0x07) << 5) | (f & 0x1F) == 0x20u8 | (f & 0x1F),
        0x20u8 | (0u8 & 0x1F) == 0x20u8,
        (0u8 << 4) | (0u8 & 0x0F) == 0u8,
        (0u8 << 3) | (0u8 & 0xF7) == 0u8,
        (0u8 << 2) | (0u8 & 0xFB) == 0u8,
        (0u8 << 1) | (0u8 & 0xFD) == 0u8,
        (0u8 << 7) | (0u8 & 0x3F) == 0u8,
        (0u8 << 6) | (0u8 & 0xBF) == 0u8,
        (0u8 << 7) | (0u8 & 0x7F) == 0u8,
        (0u8 & 0xC0) | f == f,
        (1u8 << 4) | (0x20u8 & 0xEF) == 0x30u8,
        (1u8 << 2) | (0x30u8 & 0xFB) == 0x34u8,
{
}

/// The IPv4 header that [`initialize_ipv4_header`] writes: version 4, twenty
/// bytes long, DSCP `dscp` and ECN 0, identification 0, the Don't Fragment
/// flag set, offset 0, TTL 64, and a zero checksum.
pub open spec fn initial_ipv4_header(src_addr: u32, dst_addr: u32, proto: u8, dscp: u8, tot_len: u16) -> Ipv4Hdr {
    Ipv4Hdr {
        vihl: 0x45,
        tos: (dscp & 0x3F) << 2,
        tot_len,
        id: 0,
        frags: 0x4000,
        ttl: 64,
        proto,
        check: 0,
        src_addr,
        dst_addr,
    }
}

/// Fills in every field of an IPv4 header for an outer header of a tunnel.
pub fn initialize_ipv4_header(
    iph: &mut Ipv4Hdr,
    src_addr: u32,
    dst_addr: u32,
    proto: u8,
    dscp: u8,
    tot_len: u16,
)
    ensures
        *final(iph) == initial_ipv4_header(src_addr, dst_addr, proto, dscp, tot_len),
{
    let (version, ihl_in_bytes) = (4u8, 20u8);
    iph.set_vihl(version, ihl_in_bytes);
    let ecn: u8 = 0;
    iph.set_tos(dscp, ecn);
    iph.set_tot_len(tot_len);
    iph.set_id(0);
    let (flags, offset) = (2u8, 0u16);
    iph.set_frags(flags, offset);
    iph.ttl = 64;
    iph.set_proto(proto);
    iph.set_checksum(0);
    iph.set_src_addr(src_addr);
    iph.set_dst_addr(dst_addr);
    proof {
        lemma_header_bits(dscp, 0);
    }
}

/// Fills in every field of a UDP header, with a zero checksum.
pub fn initialize_udp_header(udph: &mut UdpHdr, src_port: u16, dst_port: u16, len: u16)
    ensures
        *final(udph) == (UdpHdr { src: src_port, dst: dst_port, len, check: 0 }),
{
    udph.set_src_port(src_port);
    udph.set_dst_port(dst_port);
    udph.set_len(len);
    udph.set_checksum(0);
}

/// Makes a GTP-U header a G-PDU of version 1 with the given TEID and length;
/// the other bits of the first octet (protocol type and flags) are kept.
pub fn initialize_gtpu_header(gtpuh: &mut GtpuHdr, teid: u32, len: u16)
    ensures
        final(gtpuh).spec_bytes() == seq![0x20u8 | (old(gtpuh).v_pt_flags & 0x1F), 0xFFu8]
            + be16_bytes(len) + be32_bytes(teid),
{
    let ghost f = gtpuh.v_pt_flags;
    gtpuh.set_version(1);
    gtpuh.set_message_type(GtpuMessageType::GPdu.into());
    gtpuh.set_message_length(len);
    gtpuh.set_teid(teid);
    proof {
        lemma_header_bits(0, f);
        assert(gtpuh.spec_bytes() =~= seq![0x20u8 | (f & 0x1F), 0xFFu8] + be16_bytes(len)
            + be32_bytes(teid));
    }
}

/// Sets the optional fields of a GTP-U header: sequence number 0, N-PDU
/// number 0, and a PDU Session Container as the next extension header.
pub fn initialize_gtpu_opt_fields(opth: &mut GtpuOptFields)
    ensures
        final(opth).spec_bytes() == seq![0u8, 0u8, 0u8, 0x85u8],
{
    opth.set_sequence_number(0);
    opth.set_npdu_number(0);
    opth.set_next_extension_header(GtpuExtensionType::PduSessionContainer.into());
    assert(opth.spec_bytes() =~= seq![0u8, 0u8, 0u8, 0x85u8]);
}

/// Fills in a downlink PDU Session Container: length 0, a DL PDU of the given
/// QFI with the PPP and RQI flags clear, and no further extension header.
pub fn initialize_dl_pdu_container(pduh: &mut GtpuDLPduExtensionHdr, qfi: u8)
    ensures
        final(pduh).spec_bytes() == seq![0u8, 0u8, 0u8, 0u8, 0u8, qfi, 0u8],
{
    pduh.set_length(0);
    let mut content = DLPduSession::default();
    content.set_pdu_type(0);
    content.set_qmp(0);
    content.set_snp(0);
    content.set_msnp(0);
    content.set_ppp(0);
    content.set_rqi(0);
    content.set_qfi(qfi);
    proof {
        lemma_header_bits(0, qfi);
    }
    pduh.set_content(content);
    pduh.set_next_extension_header(0);
    assert(pduh.spec_bytes() =~= seq![0u8, 0u8, 0u8, 0u8, 0u8, qfi, 0u8]);
}

/// The outer IPv4 header of a tunnelled packet: that of
/// [`initial_ipv4_header`] for UDP, with its checksum filled in.
pub open spec fn encap_ipv4_header(src_addr: u32, dst_addr: u32, dscp: u8, tot_len: u16) -> Ipv4Hdr {
    let h = initial_ipv4_header(src_addr, dst_addr, IPPROTO_UDP, dscp, tot_len);
    Ipv4Hdr { check: spec_ipv4_csum(h.spec_bytes()), ..h }
}

/// The 48 bytes of outer headers put in front of a packet whose IPv4 header
/// gives the total length `inner_len`: IPv4, UDP from and to the GTP-U port,
/// the GTP-U header of a G-PDU (version 1, protocol type GTP, an extension
/// header following), its optional fields, and the PDU Session Container with
/// its octet of padding.
pub open spec fn encap_headers(
    src_addr: u32,
    dst_addr: u32,
    dscp: u8,
    qfi: u8,
    teid: u32,
    inner_len: u16,
) -> Seq<u8> {
    encap_ipv4_header(src_addr, dst_addr, dscp, add_len16(48, inner_len)).spec_bytes() + (UdpHdr {
        src: GTPU_DST_PORT,
        dst: GTPU_DST_PORT,
        len: add_len16(28, inner_len),
        check: 0,
    }).spec_bytes() + seq![0x34u8, 0xFFu8] + be16_bytes(add_len16(12, inner_len)) + be32_bytes(teid)
        + seq![0u8, 0u8, 0u8, 0x85u8] + seq![0u8, 0u8, 0u8, 0u8, 0u8, qfi, 0u8, 0u8]
}

/// What wrapping a packet in GTP-U gives: the packet, and its new IPv4 total
/// length or `Err` where the packet has no room for an IPv4 header. The frame
/// keeps its Ethernet header, and the outer headers go between it and the
/// packet's IPv4 header.
pub open spec fn spec_encapsulate_into_gtpu(
    pkt: Seq<u8>,
    src_addr: u32,
    dst_addr: u32,
    dscp: u8,
    qfi: u8,
    teid: u32,
) -> (Seq<u8>, Result<u16, ()>) {
    if pkt.len() < ETH_HDR_LEN + IPV4_HDR_LEN {
        (pkt, Err(()))
    } else {
        let inner_len = be16_at(pkt, ETH_HDR_LEN + 2);
        (
            pkt.subrange(0, ETH_HDR_LEN as int) + encap_headers(src_addr, dst_addr, dscp, qfi, teid, inner_len)
                + pkt.subrange(ETH_HDR_LEN as int, pkt.len() as int),
            Ok(add_len16(48, inner_len)),
        )
    }
}

/// Grows the frame at its front by `n` bytes of headroom, zeros here.
fn adjust_head_grow(pkt: &mut Vec<u8>, n: usize)
    ensures
        final(pkt)@ == zeros(n as nat) + old(pkt)@,
{
    let mut grown: Vec<u8> = Vec::new();
    let mut i: usize = 0;
    while i < n
        invariant
            i <= n,
            grown@ == zeros(i as nat),
        decreases n - i,
    {
        grown.push(0);
        i += 1;
        assert(grown@ =~= zeros(i as nat));
    }
    grown.append(pkt);
    *pkt = grown;
}

/// Grows the frame at its front by the length of the outer headers and moves
/// the Ethernet header to the new front; the old one stays behind it.
fn grow_keeping_eth(pkt: &mut Vec<u8>)
    requires
        old(pkt)@.len() >= ETH_HDR_LEN,
    ensures
        final(pkt)@ == old(pkt)@.subrange(0, ETH_HDR_LEN as int) + zeros(34) + old(pkt)@,
{
    let ghost old_pkt = pkt@;
    adjust_head_grow(pkt, OUTER_HDRS_LEN_SUM);
    let oeth = read_bytes(pkt.as_slice(), OUTER_HDRS_LEN_SUM, ETH_HDR_LEN);
    assert(oeth@ =~= old_pkt.subrange(0, ETH_HDR_LEN as int));
    write_bytes(pkt, 0, oeth.as_slice());
    assert(pkt@ =~= old_pkt.subrange(0, ETH_HDR_LEN as int) + zeros(34) + old_pkt);
}

/// Makes a GTP-U header of zeros the header of a G-PDU: version 1, protocol
/// type GTP, an extension header following, the given TEID and length.
fn initialize_gpdu_header(gtpuh: &mut GtpuHdr, teid: u32, len: u16)
    requires
        old(gtpuh).v_pt_flags == 0,
    ensures
        final(gtpuh).spec_bytes() == seq![0x34u8, 0xFFu8] + be16_bytes(len) + be32_bytes(teid),
{
    initialize_gtpu_header(gtpuh, teid, len);
    proof {
        lemma_header_bits(0, 0);
        let b = gtpuh.spec_bytes();
        assert(b[0] == gtpuh.v_pt_flags && b[1] == gtpuh.msg_type);
        assert(gtpuh.v_pt_flags == 0x20);
        assert(gtpuh.msg_type == 0xFF);
        assert(gtpuh.msg_len@ =~= b.subrange(2, 4));
        assert(gtpuh.teid@ =~= b.subrange(4, 8));
        assert(gtpuh.msg_len@ =~= be16_bytes(len));
        assert(gtpuh.teid@ =~= be32_bytes(teid));
    }
    gtpuh.set_protocol_type(1);
    gtpuh.set_extension_header(1);
    assert(gtpuh.spec_bytes() =~= seq![0x34u8, 0xFFu8] + be16_bytes(len) + be32_bytes(teid));
}

/// Wraps a packet in GTP-U towards `dst_addr`: makes room for the outer
/// headers, fills them in and computes the outer IPv4 checksum. Gives the new
/// IPv4 total length.
pub fn encapsulate_into_gtpu(
    pkt: &mut Vec<u8>,
    src_addr: u32,
    dst_addr: u32,
    dscp: u8,
    qfi: u8,
    teid: u32,
) -> (r: Result<u16, ()>)
    ensures
        (final(pkt)@, r) == spec_encapsulate_into_gtpu(old(pkt)@, src_addr, dst_addr, dscp, qfi, teid),
{
    if pkt.len() < ETH_HDR_LEN + IPV4_HDR_LEN {
        return Err(());
    }
    let ghost old_pkt = pkt@;
    let ghost rest = old_pkt.subrange(ETH_HDR_LEN as int, old_pkt.len() as int);
    let oiph = Ipv4Hdr::from_bytes(pkt.as_slice(), ETH_HDR_LEN);
    let oiph_len = oiph.tot_len();
    assert(oiph_len == be16_at(old_pkt, ETH_HDR_LEN + 2));

    // make room for the outer headers
    grow_keeping_eth(pkt);
    let ghost eth = old_pkt.subrange(0, ETH_HDR_LEN as int);
    assert(pkt@ =~= eth + zeros(34) + eth + rest) by {
        assert(old_pkt =~= eth + rest);
    }

    let ghost grown = pkt@;
    let mut iph = Ipv4Hdr::from_bytes(pkt.as_slice(), ETH_HDR_LEN);
    let niph_len = 48u16.wrapping_add(oiph_len);
    initialize_ipv4_header(&mut iph, src_addr, dst_addr, IPPROTO_UDP, dscp, niph_len);

    let mut udph = UdpHdr::from_bytes(pkt.as_slice(), ETH_HDR_LEN + IPV4_HDR_LEN);
    let nudh_len = 28u16.wrapping_add(oiph_len);
    initialize_udp_header(&mut udph, GTPU_DST_PORT, GTPU_DST_PORT, nudh_len);

    let gtpu_off: usize = ETH_HDR_LEN + IPV4_HDR_LEN + UDP_HDR_LEN;
    let mut gtpuh = GtpuHdr::from_bytes(pkt.as_slice(), gtpu_off);
    assert(gtpuh.v_pt_flags == 0) by {
        assert(gtpuh.v_pt_flags == gtpuh.spec_bytes()[0]);
        assert(grown[gtpu_off as int] == 0);
    }
    let ngtph_len = 12u16.wrapping_add(oiph_len);
    initialize_gpdu_header(&mut gtpuh, teid, ngtph_len);

    let opt_off: usize = gtpu_off + GTPU_HDR_BASE_LEN;
    let mut opth = GtpuOptFields::from_bytes(pkt.as_slice(), opt_off);
    initialize_gtpu_opt_fields(&mut opth);

    let pdu_off: usize = opt_off + GTPU_OPT_FIELDS_LEN;
    let mut pduh = GtpuDLPduExtensionHdr::from_bytes(pkt.as_slice(), pdu_off);
    initialize_dl_pdu_container(&mut pduh, qfi);

    let unsummed = iph.to_bytes();
    let csum = ipv4_csum(unsummed.as_slice());
    iph.set_checksum(csum);

    let mut hdrs = iph.to_bytes();
    let mut udp_bytes = udph.to_bytes();
    hdrs.append(&mut udp_bytes);
    let mut gtpu_bytes = gtpuh.to_bytes();
    hdrs.append(&mut gtpu_bytes);
    let mut opt_bytes = opth.to_bytes();
    hdrs.append(&mut opt_bytes);
    let mut pdu_bytes = pduh.to_bytes();
    hdrs.append(&mut pdu_bytes);
    hdrs.push(0);
    proof {
        lemma_header_bits(0, 0);
        assert(hdrs@ =~= encap_headers(src_addr, dst_addr, dscp, qfi, teid, oiph_len));
    }
    write_bytes(pkt, ETH_HDR_LEN, hdrs.as_slice());
    assert(pkt@ =~= eth + hdrs@ + rest);
    Ok(iph.tot_len())
}

/// The TOS octet that an outer IPv4 header gets carries the DSCP in its
/// six high bits and ECN 0 in its two low bits.
pub proof fn lemma_initial_ipv4_tos(src_addr: u32, dst_addr: u32, proto: u8, dscp: u8, tot_len: u16)
    ensures
        initial_ipv4_header(src_addr, dst_addr, proto, dscp, tot_len).tos >> 2 == dscp & 0x3F,
        initial_ipv4_header(src_addr, dst_addr, proto, dscp, tot_len).tos & 0x03 == 0,
        initial_ipv4_header(src_addr, dst_addr, proto, dscp, tot_len).ttl == 64,
        initial_ipv4_header(src_addr, dst_addr, proto, dscp, tot_len).proto == proto,
        initial_ipv4_header(src_addr, dst_addr, proto, dscp, tot_len).src_addr == src_addr,
        initial_ipv4_header(src_addr, dst_addr, proto, dscp, tot_len).dst_addr == dst_addr,
        initial_ipv4_header(src_addr, dst_addr, proto, dscp, tot_len).tot_len == tot_len,
{
    assert(((dscp & 0x3F) << 2) >> 2 == dscp & 0x3F && ((dscp & 0x3F) << 2) & 0x03 == 0) by (bit_vector);
}

/// Wrapping a packet in GTP-U keeps its Ethernet header in front and the
/// packet behind the outer headers, which go to `dst_addr` from `src_addr`
/// with the DSCP `dscp` (ECN 0), TTL 64 and protocol UDP, over UDP from and
/// to the GTP-U port, with a G-PDU header of version 1 and protocol type GTP
/// that announces an extension header, for the TEID `teid`, and a PDU
/// Session Container with the QFI `qfi`.
pub proof fn lemma_encapsulated_packet(pkt: Seq<u8>, src_addr: u32, dst_addr: u32, dscp: u8, qfi: u8, teid: u32)
    requires
        pkt.len() >= ETH_HDR_LEN + IPV4_HDR_LEN,
    ensures
        ({
            let (out, r) = spec_encapsulate_into_gtpu(pkt, src_addr, dst_addr, dscp, qfi, teid);
            &&& r is Ok
            &&& out.len() == pkt.len() + 48
            &&& out.subrange(0, 14) == pkt.subrange(0, 14)
            &&& out.subrange(62, out.len() as int) == pkt.subrange(14, pkt.len() as int)
            &&& out[14] == 0x45
            &&& out[15] >> 2 == dscp & 0x3F
            &&& out[15] & 0x03 == 0
            &&& out[22] == 64
            &&& out[23] == IPPROTO_UDP
            &&& out.subrange(26, 30) == be32_bytes(src_addr)
            &&& out.subrange(30, 34) == be32_bytes(dst_addr)
            &&& out.subrange(34, 36) == be16_bytes(GTPU_DST_PORT)
            &&& out.subrange(36, 38) == be16_bytes(GTPU_DST_PORT)
            &&& out[42] == 0x34
            &&& out[43] == 0xFF
            &&& out.subrange(46, 50) == be32_bytes(teid)
            &&& out[53] == 0x85
            &&& out[59] == qfi
        }),
{
    let inner_len = be16_at(pkt, ETH_HDR_LEN + 2);
    let h = encap_ipv4_header(src_addr, dst_addr, dscp, add_len16(48, inner_len));
    let hdrs = encap_headers(src_addr, dst_addr, dscp, qfi, teid, inner_len);
    let out = pkt.subrange(0, ETH_HDR_LEN as int) + hdrs + pkt.subrange(ETH_HDR_LEN as int, pkt.len() as int);
    lemma_initial_ipv4_tos(src_addr, dst_addr, IPPROTO_UDP, dscp, add_len16(48, inner_len));
    assert(hdrs.len() == 48);
    assert(out.subrange(0, 14) =~= pkt.subrange(0, 14));
    assert(out.subrange(62, out.len() as int) =~= pkt.subrange(14, pkt.len() as int));
    assert(h.spec_bytes()[1] == h.tos);
    assert(out[15] == hdrs[1]);
    assert(out.subrange(26, 30) =~= hdrs.subrange(12, 16));
    assert(hdrs.subrange(12, 16) =~= h.spec_bytes().subrange(12, 16));
    assert(h.spec_bytes().subrange(12, 16) =~= be32_bytes(src_addr));
    assert(out.subrange(30, 34) =~= be32_bytes(dst_addr));
    assert(out.subrange(34, 36) =~= be16_bytes(GTPU_DST_PORT));
    assert(out.subrange(36, 38) =~= be16_bytes(GTPU_DST_PORT));
    assert(out.subrange(46, 50) =~= be32_bytes(teid));
}

/// The outer IPv4 header that wrapping a packet in GTP-U writes has a right
/// checksum.
pub proof fn lemma_encap_ipv4_checksum_ok(src_addr: u32, dst_addr: u32, dscp: u8, tot_len: u16)
    ensures
        ipv4_checksum_ok(encap_ipv4_header(src_addr, dst_addr, dscp, tot_len)),
{
    let h0 = initial_ipv4_header(src_addr, dst_addr, IPPROTO_UDP, dscp, tot_len);
    let h1 = encap_ipv4_header(src_addr, dst_addr, dscp, tot_len);
    lemma_ipv4_word_sum(h0);
    lemma_ipv4_word_sum(h1);
    let s0 = ipv4_word_sum(h0);
    assert(0 <= s0 < 0x100_0000_0000);
    lemma_csum_fold_u64_complements(s0 as u64);
    assert(ipv4_word_sum(h1) == s0 + h1.check);
}

/// Moving a tunnel to new endpoints keeps a right outer IPv4 checksum right.
pub proof fn lemma_readdress_keeps_checksum_ok(h: Ipv4Hdr, src_addr: u32, dst_addr: u32)
    requires
        ipv4_checksum_ok(h),
    ensures
        ipv4_checksum_ok(readdressed_ipv4_header(h, src_addr, dst_addr)),
{
    let h2 = readdressed_ipv4_header(h, src_addr, dst_addr);
    let c1 = spec_csum_replace4(h.check as u32, h.src_addr, src_addr);
    let c2 = spec_csum_replace4(c1 as u32, h.dst_addr, dst_addr);
    lemma_csum_replace4_incremental(h.check as u32, h.src_addr, src_addr);
    lemma_csum_replace4_incremental(c1 as u32, h.dst_addr, dst_addr);
    lemma_ipv4_word_sum(h);
    lemma_ipv4_word_sum(h2);
    let base = ipv4_word_sum(h) - h.check - h.src_addr - h.dst_addr;
    assert(ipv4_word_sum(h2) == base + c2 + src_addr + dst_addr);
    let m = 0xffffint;
    assert((base + c2 as int + src_addr as int + dst_addr as int) % m == 0) by (nonlinear_arith)
        requires
            (base + h.check as int + h.src_addr as int + h.dst_addr as int) % m == 0,
            (0xffff - c1 as int) % m == (src_addr as int - h.src_addr as int - h.check as int) % m,
            (0xffff - c2 as int) % m == (dst_addr as int - h.dst_addr as int - c1 as int) % m,
            m == 0xffff,
    ;
}

/// The IPv4 header at `off` with its source and destination addresses
/// replaced, the checksum updated incrementally for each of them in turn.
pub open spec fn readdressed_ipv4_header(h: Ipv4Hdr, src_addr: u32, dst_addr: u32) -> Ipv4Hdr {
    let c1 = spec_csum_replace4(h.check as u32, h.src_addr, src_addr);
    let c2 = spec_csum_replace4(c1 as u32, h.dst_addr, dst_addr);
    Ipv4Hdr { src_addr, dst_addr, check: c2, ..h }
}

/// What moving a tunnelled packet to new endpoints gives: the packet with its
/// outer IPv4 header readdressed, and that header's total length; `Err`
/// where the packet has no room for an IPv4 header.
pub open spec fn spec_update_gtpu(pkt: Seq<u8>, upf_ipv4: u32, remote_ipv4: u32) -> (Seq<u8>, Result<u16, ()>) {
    if pkt.len() < ETH_HDR_LEN + IPV4_HDR_LEN {
        (pkt, Err(()))
    } else {
        let h = ipv4_hdr_at(pkt, ETH_HDR_LEN as int);
        (
            splice(pkt, ETH_HDR_LEN as int, readdressed_ipv4_header(h, upf_ipv4, remote_ipv4).spec_bytes()),
            Ok(h.tot_len),
        )
    }
}

/// Changes the outer source and destination addresses of a tunnelled packet
/// and updates the outer IPv4 checksum for each change.
pub fn update_gtpu(pkt: &mut Vec<u8>, upf_ipv4: u32, remote_ipv4: u32) -> (r: Result<u16, ()>)
    ensures
        (final(pkt)@, r) == spec_update_gtpu(old(pkt)@, upf_ipv4, remote_ipv4),
{
    if pkt.len() < ETH_HDR_LEN + IPV4_HDR_LEN {
        return Err(());
    }
    let mut iph = Ipv4Hdr::from_bytes(pkt.as_slice(), ETH_HDR_LEN);
    let csum = iph.checksum();
    let new_cs = csum_replace4(csum as u32, iph.src_addr(), upf_ipv4);
    iph.set_src_addr(upf_ipv4);
    iph.set_checksum(new_cs);

    let csum = iph.checksum();
    let new_cs = csum_replace4(csum as u32, iph.dst_addr(), remote_ipv4);
    iph.set_dst_addr(remote_ipv4);
    iph.set_checksum(new_cs);

    let bytes = iph.to_bytes();
    write_bytes(pkt, ETH_HDR_LEN, bytes.as_slice());
    Ok(iph.tot_len())
}

/// What taking GTP-U off a packet gives, where the outer IPv4, UDP and GTP-U
/// headers, the GTP-U optional fields and `ext_len` bytes of extension headers
/// lie behind the Ethernet header: the Ethernet header moved in front of what follows them, and the
/// inner IPv4 total length. `Err`, with the packet unchanged, where it is too
/// short to hold those headers and an Ethernet header behind them; `Err`, with
/// the packet taken off, where no IPv4 header follows.
pub open spec fn spec_decapsulate_gtpu(pkt: Seq<u8>, ext_len: usize) -> (Seq<u8>, Result<u16, ()>) {
    let encap_size = IPV4_HDR_LEN + UDP_HDR_LEN + GTPU_HDR_BASE_LEN + GTPU_OPT_FIELDS_LEN + ext_len;
    if pkt.len() < ETH_HDR_LEN || encap_size + ETH_HDR_LEN > pkt.len() {
        (pkt, Err(()))
    } else {
        let out = pkt.subrange(0, ETH_HDR_LEN as int) + pkt.subrange(
            encap_size + ETH_HDR_LEN,
            pkt.len() as int,
        );
        if out.len() < ETH_HDR_LEN + IPV4_HDR_LEN {
            (out, Err(()))
        } else {
            (out, Ok(be16_at(out, ETH_HDR_LEN + 2)))
        }
    }
}

/// Takes the outer IPv4, UDP and GTP-U headers, with the GTP-U optional fields
/// and `ext_len` bytes of extension headers, off a tunnelled packet, keeping its Ethernet header.
/// Gives the inner IPv4 total length.
pub fn decapsulate_gtpu(pkt: &mut Vec<u8>, ext_len: usize) -> (r: Result<u16, ()>)
    ensures
        (final(pkt)@, r) == spec_decapsulate_gtpu(old(pkt)@, ext_len),
{
    let len = pkt.len();
    if len < ETH_HDR_LEN {
        return Err(());
    }
    let base: usize = IPV4_HDR_LEN + UDP_HDR_LEN + GTPU_HDR_BASE_LEN + GTPU_OPT_FIELDS_LEN;
    if ext_len > len - ETH_HDR_LEN || len - ETH_HDR_LEN - ext_len < base {
        return Err(());
    }
    let encap_size = base + ext_len;
    let ghost old_pkt = pkt@;
    let oeth = read_bytes(pkt.as_slice(), 0, ETH_HDR_LEN);
    write_bytes(pkt, encap_size, oeth.as_slice());
    // the frame now starts at the moved Ethernet header
    let tail = pkt.split_off(encap_size);
    *pkt = tail;
    assert(pkt@ =~= old_pkt.subrange(0, ETH_HDR_LEN as int) + old_pkt.subrange(
        encap_size + ETH_HDR_LEN,
        old_pkt.len() as int,
    ));
    if pkt.len() < ETH_HDR_LEN + IPV4_HDR_LEN {
        return Err(());
    }
    let iph = Ipv4Hdr::from_bytes(pkt.as_slice(), ETH_HDR_LEN);
    Ok(iph.tot_len())
}

/// Taking GTP-U, with the extension header that wrapping writes, off a
/// packet that was wrapped gives back the packet, and its IPv4 total length.
pub proof fn lemma_decapsulate_undoes_encapsulate(
    pkt: Seq<u8>,
    src_addr: u32,
    dst_addr: u32,
    dscp: u8,
    qfi: u8,
    teid: u32,
)
    requires
        pkt.len() >= ETH_HDR_LEN + IPV4_HDR_LEN,
    ensures
        spec_decapsulate_gtpu(
            spec_encapsulate_into_gtpu(pkt, src_addr, dst_addr, dscp, qfi, teid).0,
            GTPU_DL_PDU_EXT_HDR_LEN,
        ) == (
            pkt,
            Ok::<u16, ()>(be16_at(pkt, ETH_HDR_LEN + 2)),
        ),
{
    let inner_len = be16_at(pkt, ETH_HDR_LEN + 2);
    let rest = pkt.subrange(ETH_HDR_LEN as int, pkt.len() as int);
    let hdrs = encap_headers(src_addr, dst_addr, dscp, qfi, teid, inner_len);
    lemma_ipv4_word_sum(encap_ipv4_header(src_addr, dst_addr, dscp, add_len16(48, inner_len)));
    assert(hdrs.len() == 48);
    let e = pkt.subrange(0, 14) + hdrs + rest;
    let out = e.subrange(0, 14) + e.subrange(62, e.len() as int);
    assert(out =~= pkt);
    assert(be16_at(out, ETH_HDR_LEN + 2) == inner_len);
}

/// A frame whose Ethernet source and destination addresses are those of `fib`.
pub open spec fn spec_rewrite_macs(pkt: Seq<u8>, fib: FibMacs) -> Seq<u8> {
    fib.dst_mac@ + fib.src_mac@ + pkt.subrange(12, pkt.len() as int)
}

/// Writes the MAC addresses of the next hop into the Ethernet header.
pub fn rewrite_macs(pkt: &mut Vec<u8>, fib: FibMacs)
    requires
        old(pkt)@.len() >= ETH_HDR_LEN,
    ensures
        final(pkt)@ == spec_rewrite_macs(old(pkt)@, fib),
{
    let ghost old_pkt = pkt@;
    let src = fib.src_mac;
    let dst = fib.dst_mac;
    write_bytes(pkt, 6, src.as_slice());
    write_bytes(pkt, 0, dst.as_slice());
    assert(pkt@ =~= spec_rewrite_macs(old_pkt, fib));
}

/// Where a packet is to be routed: the addresses and protocol of its IPv4
/// header, its IPv4 total length, and the interface it came in on.
#[derive(Clone, Copy, PartialEq, Eq, Structural, Debug)]
pub struct RouteRequest {
    pub src_ipv4: u32,
    pub dst_ipv4: u32,
    pub proto: u8,
    pub tot_len: u16,
    pub ingress_ifindex: u32,
}

/// The parameters of a FIB lookup for IPv4, the addresses in network byte order.
#[derive(Clone, Copy, Debug)]
pub struct FibLookupParams {
    pub family: u8,
    pub l4_protocol: u8,
    pub ipv4_src: [u8; 4],
    pub ipv4_dst: [u8; 4],
    pub tot_len: u16,
    pub ifindex: u32,
}

impl RouteRequest {
    /// The FIB lookup that finds the next hop of the packet.
    pub fn fib_lookup_params(&self) -> (r: FibLookupParams)
        ensures
            r.family == AF_INET,
            r.l4_protocol == self.proto,
            r.ipv4_src@ == be32_bytes(self.src_ipv4),
            r.ipv4_dst@ == be32_bytes(self.dst_ipv4),
            r.tot_len == self.tot_len,
            r.ifindex == self.ingress_ifindex,
    {
        FibLookupParams {
            family: AF_INET,
            l4_protocol: self.proto,
            ipv4_src: crate::gtpu::write_be32(self.src_ipv4),
            ipv4_dst: crate::gtpu::write_be32(self.dst_ipv4),
            tot_len: self.tot_len,
            ifindex: self.ingress_ifindex,
        }
    }
}

/// The next hop's MAC addresses from the outcome of a FIB lookup: none where
/// the lookup returned anything but 0.
pub fn get_fib_macs(rc: i64, smac: [u8; 6], dmac: [u8; 6]) -> (r: Option<FibMacs>)
    ensures
        rc != 0 ==> r is None,
        rc == 0 ==> r == Some(FibMacs { src_mac: smac, dst_mac: dmac }),
{
    if rc != 0 {
        return None;
    }
    Some(FibMacs { src_mac: smac, dst_mac: dmac })
}

/// What routing a packet at layer 2 gives, `fib` being the outcome of the
/// FIB lookup for `req`: `Err` for a frame without an Ethernet header; the
/// packet handed on to the stack where the lookup found no next hop; else the
/// next hop's MAC addresses written into the frame, which is sent back out
/// where it came in on the interface the request names, and handed on
/// otherwise.
pub open spec fn spec_route_packet_l2(
    pkt: Seq<u8>,
    req: RouteRequest,
    fib: Option<FibMacs>,
    ctx_ingress_ifindex: u32,
) -> (Seq<u8>, Result<u32, ()>) {
    if pkt.len() < ETH_HDR_LEN {
        (pkt, Err(()))
    } else {
        match fib {
            None => (pkt, Ok(XDP_PASS)),
            Some(macs) => (
                spec_rewrite_macs(pkt, macs),
                Ok(if req.ingress_ifindex == ctx_ingress_ifindex { XDP_TX } else { XDP_PASS }),
            ),
        }
    }
}

/// Routes a packet at layer 2 with the outcome `fib` of the FIB lookup for `req`.
pub fn route_packet_l2(
    pkt: &mut Vec<u8>,
    req: &RouteRequest,
    fib: Option<FibMacs>,
    ctx_ingress_ifindex: u32,
) -> (r: Result<u32, ()>)
    ensures
        (final(pkt)@, r) == spec_route_packet_l2(old(pkt)@, *req, fib, ctx_ingress_ifindex),
{
    if pkt.len() < ETH_HDR_LEN {
        return Err(());
    }
    let macs = match fib {
        Some(m) => m,
        None => return Ok(XDP_PASS),
    };
    rewrite_macs(pkt, macs);
    if req.ingress_ifindex == ctx_ingress_ifindex {
        return Ok(XDP_TX);
    }
    Ok(XDP_PASS)
}

} // verus!
