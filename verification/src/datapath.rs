//! The decisions of the XDP program for one packet.
//!
//! Handling a packet ends either in a verdict or in a request to route the
//! packet, which has by then been rewritten: the FIB lookup that routing needs
//! is done by the kernel, and its outcome is handed to
//! [`crate::gtpu_helpers::route_packet_l2`].
use vstd::prelude::*;

use std::collections::HashMap;

use crate::gtpu::{read_be16, GtpuMessageType};
use crate::gtpu_helpers::{
    decapsulate_gtpu, encapsulate_into_gtpu, spec_decapsulate_gtpu, spec_encapsulate_into_gtpu,
    spec_update_gtpu, update_gtpu, RouteRequest,
};
use crate::parser::{
    be16_at, be32_at, read_be16_at, read_be32_at, spec_parse_inner, PacketContext, ParsedIpv4,
    ParsedPorts, ETH_HDR_LEN, IPPROTO_TCP, IPPROTO_UDP, IPV4_HDR_LEN, TCP_HDR_LEN, UDP_HDR_LEN,
};
use crate::pdr::PdrInfo;
use crate::pdr_processing::{process_pdrs, spec_process_pdrs, PdrAction, RuleMaps};
use crate::{GTPU_DST_PORT, PDR_MAP_SIZE, XDP_ABORTED, XDP_DROP, XDP_PASS};

verus! {

/// How handling a packet ends.
#[derive(Clone, Copy, PartialEq, Eq, Structural, Debug)]
pub enum XdpStep {
    /// The XDP verdict for the packet.
    Verdict(u32),
    /// The packet is to be routed at layer 2 as the request says.
    Route(RouteRequest),
}

/// The maps of the XDP program.
pub struct DatapathMaps {
    /// The UPF's own addresses: the first one is that of its N3 interface.
    pub int_ips: Vec<u32>,
    /// Uplink rules, sorted by precedence, by local TEID.
    pub ul_pdrs: HashMap<u32, [PdrInfo; PDR_MAP_SIZE]>,
    /// Downlink rules, sorted by precedence, by UE IPv4 address.
    pub dl_pdrs: HashMap<u32, [PdrInfo; PDR_MAP_SIZE]>,
    /// The FARs, QERs and URRs the rules name.
    pub rules: RuleMaps,
}

/// An Echo Request is handed on to the network stack.
pub fn handle_echo_request() -> (r: Result<u32, ()>)
    ensures
        r == Ok::<u32, ()>(XDP_PASS),
{
    Ok(XDP_PASS)
}

/// An Echo Response is handed on to the network stack.
pub fn handle_echo_response() -> (r: Result<u32, ()>)
    ensures
        r == Ok::<u32, ()>(XDP_PASS),
{
    Ok(XDP_PASS)
}

/// An Error Indication is handed on to the network stack.
pub fn handle_error_indication() -> (r: Result<u32, ()>)
    ensures
        r == Ok::<u32, ()>(XDP_PASS),
{
    Ok(XDP_PASS)
}

/// An End Marker is handed on to the network stack.
pub fn handle_end_marker() -> (r: Result<u32, ()>)
    ensures
        r == Ok::<u32, ()>(XDP_PASS),
{
    Ok(XDP_PASS)
}

/// The request to route a packet of IPv4 total length `tot_len` from the UPF
/// to `remote_ipv4` over UDP.
pub open spec fn udp_route(upf_ipv4: u32, remote_ipv4: u32, tot_len: u16, ifindex: u32) -> XdpStep {
    XdpStep::Route(
        RouteRequest {
            src_ipv4: upf_ipv4,
            dst_ipv4: remote_ipv4,
            proto: IPPROTO_UDP,
            tot_len,
            ingress_ifindex: ifindex,
        },
    )
}

/// What handling a G-PDU gives: the packet and how handling it ends. A packet
/// that was not parsed as tunnelled is aborted, one whose local TEID has no
/// uplink rules is handed on, one that no rule lets through gets the verdict
/// of the rule processing; else the detected rule's action decides: its
/// tunnel is taken off or moved to new endpoints, and the packet routed.
pub open spec fn spec_handle_gpdu_message(
    pkt: Seq<u8>,
    pkt_ctx: PacketContext,
    ul_pdrs: Map<u32, [PdrInfo; PDR_MAP_SIZE]>,
    rules: RuleMaps,
    ifindex: u32,
) -> (Seq<u8>, Result<XdpStep, ()>) {
    match pkt_ctx.inner {
        None => (pkt, Ok(XdpStep::Verdict(XDP_ABORTED))),
        Some(inner) => {
            let teid = inner.gtpu.local_fteid.teid;
            if !ul_pdrs.contains_key(teid) {
                (pkt, Ok(XdpStep::Verdict(XDP_PASS)))
            } else {
                match spec_process_pdrs(pkt_ctx, ul_pdrs[teid]@, rules.fars@, rules.qers@) {
                    Err(v) => (pkt, Ok(XdpStep::Verdict(v))),
                    Ok(p) => match p.action {
                        PdrAction::Remove => {
                            let (out, res) = spec_decapsulate_gtpu(pkt, inner.psc.ext_tot_len);
                            match res {
                                Err(_) => (out, Ok(XdpStep::Verdict(XDP_DROP))),
                                Ok(len) => (
                                    out,
                                    Ok(udp_route(pkt_ctx.upf_ipv4, p.remote_ipv4, len, ifindex)),
                                ),
                            }
                        },
                        PdrAction::Forward => {
                            let (out, res) = spec_update_gtpu(pkt, pkt_ctx.upf_ipv4, p.remote_ipv4);
                            match res {
                                Err(_) => (out, Err(())),
                                Ok(len) => (
                                    out,
                                    Ok(udp_route(pkt_ctx.upf_ipv4, p.remote_ipv4, len, ifindex)),
                                ),
                            }
                        },
                        PdrAction::Create => (pkt, Ok(XdpStep::Verdict(XDP_DROP))),
                    },
                }
            }
        },
    }
}

/// Handles a G-PDU that came in on the interface `ifindex`.
pub fn handle_gpdu_message(
    pkt: &mut Vec<u8>,
    pkt_ctx: &PacketContext,
    maps: &DatapathMaps,
    ifindex: u32,
) -> (r: Result<XdpStep, ()>)
    ensures
        (final(pkt)@, r) == spec_handle_gpdu_message(
            old(pkt)@,
            *pkt_ctx,
            maps.ul_pdrs@,
            maps.rules,
            ifindex,
        ),
{
    let inner = match pkt_ctx.inner() {
        Some(inner) => inner,
        None => return Ok(XdpStep::Verdict(XDP_ABORTED)),
    };
    let ext_tot_len = inner.psc.ext_tot_len();
    let upf_ip = pkt_ctx.upf_ipv4();
    let ul_pdrs = match maps.ul_pdrs.get(&inner.gtpu.local_fteid.teid()) {
        Some(pdrs) => pdrs,
        None => return Ok(XdpStep::Verdict(XDP_PASS)),
    };
    let parsed = match process_pdrs(pkt_ctx, ul_pdrs, &maps.rules) {
        Ok(ok) => ok,
        Err(err) => return Ok(XdpStep::Verdict(err)),
    };
    let remote_ipv4 = parsed.remote_ipv4;
    let niph_len: u16 = match parsed.action {
        PdrAction::Remove => match decapsulate_gtpu(pkt, ext_tot_len) {
            Ok(len) => len,
            Err(_) => return Ok(XdpStep::Verdict(XDP_DROP)),
        },
        PdrAction::Forward => match update_gtpu(pkt, upf_ip, remote_ipv4) {
            Ok(len) => len,
            Err(e) => return Err(e),
        },
        PdrAction::Create => return Ok(XdpStep::Verdict(XDP_DROP)),
    };
    Ok(
        XdpStep::Route(
            RouteRequest {
                src_ipv4: upf_ip,
                dst_ipv4: remote_ipv4,
                proto: IPPROTO_UDP,
                tot_len: niph_len,
                ingress_ifindex: ifindex,
            },
        ),
    )
}

/// What handling a GTP-U packet gives: a G-PDU is handled as such; Echo
/// Request, Echo Response, Error Indication and End Marker messages are
/// handed on; other messages are dropped, and a packet not parsed as
/// tunnelled is aborted.
pub open spec fn spec_handle_gtp_packet(
    pkt: Seq<u8>,
    pkt_ctx: PacketContext,
    ul_pdrs: Map<u32, [PdrInfo; PDR_MAP_SIZE]>,
    rules: RuleMaps,
    ifindex: u32,
) -> (Seq<u8>, Result<XdpStep, ()>) {
    match pkt_ctx.inner {
        None => (pkt, Ok(XdpStep::Verdict(XDP_ABORTED))),
        Some(inner) => match inner.gtpu.message_type {
            GtpuMessageType::GPdu => spec_handle_gpdu_message(pkt, pkt_ctx, ul_pdrs, rules, ifindex),
            GtpuMessageType::EchoRequest | GtpuMessageType::EchoResponse
            | GtpuMessageType::ErrorIndication | GtpuMessageType::EndMarker => (
                pkt,
                Ok(XdpStep::Verdict(XDP_PASS)),
            ),
            _ => (pkt, Ok(XdpStep::Verdict(XDP_DROP))),
        },
    }
}

fn verdict_of(r: Result<u32, ()>) -> (s: Result<XdpStep, ()>)
    ensures
        match r {
            Ok(v) => s == Ok::<XdpStep, ()>(XdpStep::Verdict(v)),
            Err(_) => s is Err,
        },
{
    match r {
        Ok(v) => Ok(XdpStep::Verdict(v)),
        Err(e) => Err(e),
    }
}

/// Handles a GTP-U packet by its message type.
pub fn handle_gtp_packet(
    pkt: &mut Vec<u8>,
    pkt_ctx: &PacketContext,
    maps: &DatapathMaps,
    ifindex: u32,
) -> (r: Result<XdpStep, ()>)
    ensures
        (final(pkt)@, r) == spec_handle_gtp_packet(
            old(pkt)@,
            *pkt_ctx,
            maps.ul_pdrs@,
            maps.rules,
            ifindex,
        ),
{
    let inner = match pkt_ctx.inner() {
        Some(inner) => inner,
        None => return Ok(XdpStep::Verdict(XDP_ABORTED)),
    };
    match inner.gtpu.message_type {
        GtpuMessageType::GPdu => handle_gpdu_message(pkt, pkt_ctx, maps, ifindex),
        GtpuMessageType::EchoRequest => verdict_of(handle_echo_request()),
        GtpuMessageType::EchoResponse => verdict_of(handle_echo_response()),
        GtpuMessageType::ErrorIndication => verdict_of(handle_error_indication()),
        GtpuMessageType::EndMarker => verdict_of(handle_end_marker()),
        _ => Ok(XdpStep::Verdict(XDP_DROP)),
    }
}

/// What handling a packet that is not GTP-U for the UPF gives: one whose
/// destination address has no downlink rules is handed on; one that no rule
/// lets through gets the verdict of the rule processing; one whose rule
/// creates a tunnel is wrapped in GTP-U towards the rule's remote end and
/// routed, or dropped where that fails; any other action drops it.
pub open spec fn spec_handle_packet(
    pkt: Seq<u8>,
    pkt_ctx: PacketContext,
    dl_pdrs: Map<u32, [PdrInfo; PDR_MAP_SIZE]>,
    rules: RuleMaps,
    ifindex: u32,
) -> (Seq<u8>, Result<XdpStep, ()>) {
    let ue_ipv4 = pkt_ctx.ipv4.dst_ipv4;
    let upf_ipv4 = pkt_ctx.upf_ipv4;
    if !dl_pdrs.contains_key(ue_ipv4) {
        (pkt, Ok(XdpStep::Verdict(XDP_PASS)))
    } else {
        match spec_process_pdrs(pkt_ctx, dl_pdrs[ue_ipv4]@, rules.fars@, rules.qers@) {
            Err(v) => (pkt, Ok(XdpStep::Verdict(v))),
            Ok(p) => match p.action {
                PdrAction::Create => {
                    let (out, res) = spec_encapsulate_into_gtpu(
                        pkt,
                        upf_ipv4,
                        p.remote_ipv4,
                        p.dscp,
                        p.qfi,
                        p.teid,
                    );
                    match res {
                        Err(_) => (out, Ok(XdpStep::Verdict(XDP_DROP))),
                        Ok(len) => (out, Ok(udp_route(upf_ipv4, p.remote_ipv4, len, ifindex))),
                    }
                },
                _ => (pkt, Ok(XdpStep::Verdict(XDP_DROP))),
            },
        }
    }
}

/// Handles a packet that is not GTP-U for the UPF, looking it up by its
/// destination address among the downlink rules.
pub fn handle_packet(
    pkt: &mut Vec<u8>,
    pkt_ctx: &PacketContext,
    maps: &DatapathMaps,
    ifindex: u32,
) -> (r: Result<XdpStep, ()>)
    ensures
        (final(pkt)@, r) == spec_handle_packet(
            old(pkt)@,
            *pkt_ctx,
            maps.dl_pdrs@,
            maps.rules,
            ifindex,
        ),
{
    let ue_ipv4 = pkt_ctx.dst_ipv4();
    let upf_ipv4 = pkt_ctx.upf_ipv4();
    let dl_pdrs = match maps.dl_pdrs.get(&ue_ipv4) {
        Some(pdrs) => pdrs,
        None => return Ok(XdpStep::Verdict(XDP_PASS)),
    };
    let parsed = match process_pdrs(pkt_ctx, dl_pdrs, &maps.rules) {
        Ok(ok) => ok,
        Err(err) => return Ok(XdpStep::Verdict(err)),
    };
    let niph_len = match parsed.action {
        PdrAction::Create => match encapsulate_into_gtpu(
            pkt,
            upf_ipv4,
            parsed.remote_ipv4,
            parsed.dscp,
            parsed.qfi,
            parsed.teid,
        ) {
            Ok(ip_len) => ip_len,
            Err(_) => return Ok(XdpStep::Verdict(XDP_DROP)),
        },
        _ => return Ok(XdpStep::Verdict(XDP_DROP)),
    };
    Ok(
        XdpStep::Route(
            RouteRequest {
                src_ipv4: upf_ipv4,
                dst_ipv4: parsed.remote_ipv4,
                proto: IPPROTO_UDP,
                tot_len: niph_len,
                ingress_ifindex: ifindex,
            },
        ),
    )
}

/// The packet context of a frame with an IPv4 header at its usual place: the
/// outer addresses, total length and protocol, and the UPF's address.
pub open spec fn outer_context(pkt: Seq<u8>, upf_ipv4: u32) -> PacketContext {
    PacketContext {
        ipv4: ParsedIpv4 {
            src_ipv4: be32_at(pkt, ETH_HDR_LEN + 12),
            dst_ipv4: be32_at(pkt, ETH_HDR_LEN + 16),
            tot_len: be16_at(pkt, ETH_HDR_LEN + 2) as usize,
            proto: pkt[ETH_HDR_LEN + 9],
        },
        upf_ipv4,
        ports: ParsedPorts { src: 0, dst: 0 },
        inner: None,
    }
}

/// What handling a frame that came in on interface `ifindex` gives. `Err`
/// for a frame too short for the headers it claims; a frame that is not IPv4
/// is handed on, and dropped where the UPF has no address. A UDP packet to the
/// UPF's GTP-U port is parsed as tunnelled and handled as GTP-U, or gets the
/// parser's verdict; other UDP and TCP packets are handled by their
/// destination address; packets of other protocols are handed on.
pub open spec fn spec_handle_ul_dl(
    pkt: Seq<u8>,
    int_ips: Seq<u32>,
    ul_pdrs: Map<u32, [PdrInfo; PDR_MAP_SIZE]>,
    dl_pdrs: Map<u32, [PdrInfo; PDR_MAP_SIZE]>,
    rules: RuleMaps,
    ifindex: u32,
) -> (Seq<u8>, Result<XdpStep, ()>) {
    if pkt.len() < ETH_HDR_LEN {
        (pkt, Err(()))
    } else if be16_at(pkt, 12) != 0x0800 {
        (pkt, Ok(XdpStep::Verdict(XDP_PASS)))
    } else if int_ips.len() == 0 {
        (pkt, Ok(XdpStep::Verdict(XDP_DROP)))
    } else if pkt.len() < ETH_HDR_LEN + IPV4_HDR_LEN {
        (pkt, Err(()))
    } else {
        let upf_ipv4 = int_ips[0];
        let ctx = outer_context(pkt, upf_ipv4);
        let proto = pkt[ETH_HDR_LEN + 9];
        let l4 = ETH_HDR_LEN + IPV4_HDR_LEN;
        if proto == IPPROTO_UDP {
            if pkt.len() < l4 + UDP_HDR_LEN {
                (pkt, Err(()))
            } else {
                let ctx = PacketContext {
                    ports: ParsedPorts { src: be16_at(pkt, l4 as int), dst: be16_at(pkt, l4 + 2) },
                    ..ctx
                };
                if ctx.ipv4.dst_ipv4 == upf_ipv4 && ctx.ports.dst == GTPU_DST_PORT {
                    match spec_parse_inner(pkt, upf_ipv4) {
                        Err(v) => (pkt, Ok(XdpStep::Verdict(v))),
                        Ok(inner) => spec_handle_gtp_packet(
                            pkt,
                            PacketContext { inner: Some(inner), ..ctx },
                            ul_pdrs,
                            rules,
                            ifindex,
                        ),
                    }
                } else {
                    spec_handle_packet(pkt, ctx, dl_pdrs, rules, ifindex)
                }
            }
        } else if proto == IPPROTO_TCP {
            if pkt.len() < l4 + TCP_HDR_LEN {
                (pkt, Err(()))
            } else {
                let ctx = PacketContext {
                    ports: ParsedPorts { src: be16_at(pkt, l4 as int), dst: be16_at(pkt, l4 + 2) },
                    ..ctx
                };
                spec_handle_packet(pkt, ctx, dl_pdrs, rules, ifindex)
            }
        } else {
            (pkt, Ok(XdpStep::Verdict(XDP_PASS)))
        }
    }
}

/// Handles a frame that came in on interface `ifindex`: tells uplink GTP-U
/// from downlink traffic and hands it to the matching handler.
pub fn handle_ul_dl(pkt: &mut Vec<u8>, maps: &DatapathMaps, ifindex: u32) -> (r: Result<
    XdpStep,
    (),
>)
    ensures
        (final(pkt)@, r) == spec_handle_ul_dl(
            old(pkt)@,
            maps.int_ips@,
            maps.ul_pdrs@,
            maps.dl_pdrs@,
            maps.rules,
            ifindex,
        ),
{
    let len = pkt.len();
    if len < ETH_HDR_LEN {
        return Err(());
    }
    if read_be16_at(pkt.as_slice(), 12) != 0x0800 {
        return Ok(XdpStep::Verdict(XDP_PASS));
    }
    if maps.int_ips.len() == 0 {
        return Ok(XdpStep::Verdict(XDP_DROP));
    }
    let upf_ipv4 = maps.int_ips[0];
    if len < ETH_HDR_LEN + IPV4_HDR_LEN {
        return Err(());
    }
    let mut outer_ipv4 = ParsedIpv4::new(
        read_be32_at(pkt.as_slice(), ETH_HDR_LEN + 12),
        read_be32_at(pkt.as_slice(), ETH_HDR_LEN + 16),
        read_be16_at(pkt.as_slice(), ETH_HDR_LEN + 2) as usize,
    );
    let proto = pkt[ETH_HDR_LEN + 9];
    outer_ipv4.set_proto(proto);
    let mut packet_ctx = PacketContext::new(outer_ipv4, upf_ipv4);
    let l4: usize = ETH_HDR_LEN + IPV4_HDR_LEN;
    if proto == IPPROTO_UDP {
        if len < l4 + UDP_HDR_LEN {
            return Err(());
        }
        packet_ctx.set_ports(read_be16_at(pkt.as_slice(), l4), read_be16_at(pkt.as_slice(), l4 + 2));
        if packet_ctx.dst_ipv4() == upf_ipv4 && packet_ctx.dst_port() == GTPU_DST_PORT {
            if let Err(e) = packet_ctx.parse_inner(pkt.as_slice()) {
                return Ok(XdpStep::Verdict(e));
            }
            return handle_gtp_packet(pkt, &packet_ctx, maps, ifindex);
        }
    } else if proto == IPPROTO_TCP {
        if len < l4 + TCP_HDR_LEN {
            return Err(());
        }
        packet_ctx.set_ports(read_be16_at(pkt.as_slice(), l4), read_be16_at(pkt.as_slice(), l4 + 2));
    } else {
        return Ok(XdpStep::Verdict(XDP_PASS));
    }
    handle_packet(pkt, &packet_ctx, maps, ifindex)
}

/// The verdict of the XDP program for the outcome of handling a packet: a
/// failure aborts.
pub fn xdp_verdict(r: Result<u32, ()>) -> (v: u32)
    ensures
        v == match r {
            Ok(v) => v,
            Err(_) => XDP_ABORTED,
        },
{
    match r {
        Ok(ret) => ret,
        Err(_) => XDP_ABORTED,
    }
}

} // verus!
