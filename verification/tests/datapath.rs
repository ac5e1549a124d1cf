use std::collections::HashMap;

use raxupf::datapath::{
    handle_echo_request, handle_echo_response, handle_end_marker, handle_error_indication,
    handle_gtp_packet, handle_packet, handle_ul_dl, xdp_verdict, DatapathMaps, XdpStep,
};
use raxupf::far::{FarInfo, OhcFlags, OHC_GTPU_UDP_IPV4};
use raxupf::gtpu::GtpuMessageType;
use raxupf::gtpu_helpers::{
    decapsulate_gtpu, encapsulate_into_gtpu, get_fib_macs, route_packet_l2, update_gtpu,
    RouteRequest,
};
use raxupf::net::ipv4_csum;
use raxupf::parser::{
    parse_gtpu_header, parse_pdu_session_container, PacketContext, ParsedIpv4,
};
use raxupf::pdi::PdiPod;
use raxupf::pdr::PdrInfo;
use raxupf::sdf::{PortRange, SdfFilterPod};
use raxupf::pdr_processing::{apply_pdr, process_pdrs, ParsedPdr, PdrAction, RuleMaps};
use raxupf::qer::{GateStatus, QerInfo};
use raxupf::{FibMacs, PDR_MAP_SIZE, XDP_ABORTED, XDP_DROP, XDP_PASS, XDP_TX};

const UE: u32 = 0x0a00_0001;
const PEER: u32 = 0x0a00_0002;
const UPF: u32 = 0xc0a8_0001;
const GNB: u32 = 0xc0a8_0002;

/// An Ethernet frame with an IPv4/UDP packet from `src` to `dst`.
fn udp_frame(src: u32, dst: u32, sport: u16, dport: u16) -> Vec<u8> {
    let mut f = vec![0xaa; 6];
    f.extend([0xbb; 6]);
    f.extend([0x08, 0x00]);
    f.extend([0x45, 0x00, 0x00, 28, 0, 0, 0, 0, 64, 17, 0, 0]);
    f.extend(src.to_be_bytes());
    f.extend(dst.to_be_bytes());
    f.extend(sport.to_be_bytes());
    f.extend(dport.to_be_bytes());
    f.extend([0, 8, 0, 0]);
    f
}

/// A GTP-U frame as the parser expects it: outer headers, GTP-U header with
/// the E flag, optional fields, an uplink PDU Session Container of QFI 5,
/// four octets, and the inner packet at its fixed offset.
fn gtpu_frame(msg_type: u8, teid: u32) -> Vec<u8> {
    let mut f = udp_frame(GNB, UPF, 2152, 2152);
    f.extend([0x34, msg_type, 0, 40]);
    f.extend(teid.to_be_bytes());
    f.extend([0, 0, 0, 0x85]);
    f.extend([1, 0x10, 0x05, 0x00]);
    f.extend([0, 0, 0, 0]);
    let inner = udp_frame(UE, PEER, 1000, 2000);
    f.extend_from_slice(&inner[14..]);
    f
}

fn empty_maps(int_ips: Vec<u32>) -> DatapathMaps {
    DatapathMaps {
        int_ips,
        ul_pdrs: HashMap::new(),
        dl_pdrs: HashMap::new(),
        rules: RuleMaps { fars: HashMap::new(), qers: HashMap::new(), urrs: HashMap::new() },
    }
}

fn forwarding_far(ohc: u8) -> FarInfo {
    let mut far = FarInfo::new();
    far.set_action(2);
    far.set_teid(7);
    far.set_remote_ipv4(GNB);
    far.set_dscp(10);
    far.set_ohc(OhcFlags::from_bits(ohc));
    far
}

fn open_qer(qfi: u8, has_qfi: bool) -> QerInfo {
    QerInfo {
        dl_gate_status: GateStatus::Open,
        ul_gate_status: GateStatus::Open,
        qfi,
        has_qfi,
        allocated: true,
    }
}

fn rule(far_id: u32, qer_id: u32, ohr: u8) -> PdrInfo {
    let mut pdr = PdrInfo::new(1);
    pdr.set_far_id(far_id);
    pdr.set_qer_id(0, qer_id);
    pdr.set_ohr(ohr);
    pdr.set_allocated(true);
    pdr
}

#[test]
fn gtpu_signalling_messages_are_passed_on() {
    assert_eq!(handle_echo_request(), Ok(XDP_PASS));
    assert_eq!(handle_echo_response(), Ok(XDP_PASS));
    assert_eq!(handle_error_indication(), Ok(XDP_PASS));
    assert_eq!(handle_end_marker(), Ok(XDP_PASS));
}

#[test]
fn xdp_verdict_aborts_on_failure() {
    assert_eq!(xdp_verdict(Ok(XDP_TX)), XDP_TX);
    assert_eq!(xdp_verdict(Err(())), XDP_ABORTED);
}

#[test]
fn encapsulation_writes_outer_headers() {
    let frame = udp_frame(UE, PEER, 1000, 2000);
    let mut pkt = frame.clone();
    assert_eq!(encapsulate_into_gtpu(&mut pkt, UPF, GNB, 0, 9, 0x1234), Ok(76));
    assert_eq!(pkt.len(), frame.len() + 48);
    // the frame keeps its Ethernet header
    assert_eq!(&pkt[0..14], &frame[0..14]);
    let mut outer_ip = vec![0x45, 0x00, 0x00, 76, 0, 0, 0x40, 0, 64, 17];
    outer_ip.extend(ipv4_csum(&{
        let mut h = outer_ip.clone();
        h.extend([0, 0]);
        h.extend(UPF.to_be_bytes());
        h.extend(GNB.to_be_bytes());
        h
    })
    .to_be_bytes());
    outer_ip.extend(UPF.to_be_bytes());
    outer_ip.extend(GNB.to_be_bytes());
    assert_eq!(&pkt[14..34], outer_ip.as_slice());
    // the outer IPv4 header sums to zero with its checksum in place
    assert_eq!(ipv4_csum(&pkt[14..34]), 0);
    assert_eq!(&pkt[34..42], &[0x08, 0x68, 0x08, 0x68, 0, 56, 0, 0]);
    // version 1, protocol type GTP, an extension header following
    assert_eq!(&pkt[42..50], &[0x34, 0xff, 0, 40, 0, 0, 0x12, 0x34]);
    assert_eq!(&pkt[50..54], &[0, 0, 0, 0x85]);
    assert_eq!(&pkt[54..62], &[0, 0, 0, 0, 0, 9, 0, 0]);
    assert_eq!(&pkt[62..], &frame[14..]);
}

#[test]
fn encapsulation_of_a_short_frame_fails() {
    let mut pkt = vec![0u8; 33];
    assert_eq!(encapsulate_into_gtpu(&mut pkt, UPF, GNB, 0, 9, 1), Err(()));
    assert_eq!(pkt, vec![0u8; 33]);
}

#[test]
fn decapsulation_undoes_encapsulation() {
    let frame = udp_frame(UE, PEER, 1000, 2000);
    let mut pkt = frame.clone();
    encapsulate_into_gtpu(&mut pkt, UPF, GNB, 46, 1, 99).unwrap();
    assert_eq!(decapsulate_gtpu(&mut pkt, 8), Ok(28));
    assert_eq!(pkt, frame);
}

#[test]
fn decapsulation_of_a_short_frame_fails() {
    let mut pkt = vec![1u8; 60];
    assert_eq!(decapsulate_gtpu(&mut pkt, 8), Err(()));
    assert_eq!(pkt, vec![1u8; 60]);
    // room for the headers, but no IPv4 header behind them
    let mut pkt = vec![1u8; 14 + 40 + 14];
    assert_eq!(decapsulate_gtpu(&mut pkt, 0), Err(()));
    assert_eq!(pkt.len(), 28);
}

#[test]
fn update_moves_the_tunnel_and_keeps_the_checksum_right() {
    let mut pkt = udp_frame(GNB, UPF, 2152, 2152);
    let sum = ipv4_csum(&pkt[14..34]);
    pkt[24..26].copy_from_slice(&sum.to_be_bytes());
    assert_eq!(update_gtpu(&mut pkt, 0x0101_0101, 0x0202_0202), Ok(28));
    assert_eq!(&pkt[26..30], &[1, 1, 1, 1]);
    assert_eq!(&pkt[30..34], &[2, 2, 2, 2]);
    assert_eq!(ipv4_csum(&pkt[14..34]), 0);
}

#[test]
fn routing_rewrites_the_macs() {
    let req = RouteRequest { src_ipv4: UPF, dst_ipv4: GNB, proto: 17, tot_len: 76, ingress_ifindex: 3 };
    let params = req.fib_lookup_params();
    assert_eq!(params.family, 2);
    assert_eq!(params.ipv4_src, UPF.to_be_bytes());
    assert_eq!(params.ipv4_dst, GNB.to_be_bytes());
    assert_eq!(params.tot_len, 76);
    assert_eq!(params.ifindex, 3);

    assert!(get_fib_macs(-1, [1; 6], [2; 6]).is_none());
    let macs = get_fib_macs(0, [1; 6], [2; 6]).unwrap();
    assert_eq!(macs.src_mac, [1; 6]);
    assert_eq!(macs.dst_mac, [2; 6]);

    let frame = udp_frame(UE, PEER, 1, 2);
    let mut pkt = frame.clone();
    assert_eq!(route_packet_l2(&mut pkt, &req, None, 3), Ok(XDP_PASS));
    assert_eq!(pkt, frame);
    let fib = FibMacs { src_mac: [1; 6], dst_mac: [2; 6] };
    assert_eq!(route_packet_l2(&mut pkt, &req, Some(fib), 3), Ok(XDP_TX));
    assert_eq!(&pkt[0..6], &[2; 6]);
    assert_eq!(&pkt[6..12], &[1; 6]);
    assert_eq!(&pkt[12..], &frame[12..]);
    assert_eq!(route_packet_l2(&mut pkt, &req, Some(fib), 4), Ok(XDP_PASS));
    let mut short = vec![0u8; 10];
    assert_eq!(route_packet_l2(&mut short, &req, Some(fib), 3), Err(()));
}

#[test]
fn parsing_a_gtpu_header() {
    let pkt = gtpu_frame(255, 0x1234);
    let g = parse_gtpu_header(&pkt, UPF).unwrap();
    assert_eq!(g.message_type, GtpuMessageType::GPdu);
    assert_eq!(g.local_fteid.teid(), 0x1234);
    assert_eq!(g.local_fteid.ipv4_address(), UPF);
    assert!(g.has_flags);
    assert!(g.has_extension_header);
    // an Echo Response is reported as such
    let g = parse_gtpu_header(&gtpu_frame(2, 1), UPF).unwrap();
    assert_eq!(g.message_type, GtpuMessageType::EchoResponse);
    let g = parse_gtpu_header(&gtpu_frame(1, 1), UPF).unwrap();
    assert_eq!(g.message_type, GtpuMessageType::EchoRequest);
    // unknown message types are dropped, short packets aborted
    assert_eq!(parse_gtpu_header(&gtpu_frame(3, 1), UPF).err(), Some(XDP_DROP));
    assert_eq!(parse_gtpu_header(&pkt[..49], UPF).err(), Some(XDP_ABORTED));
    // the headers that encapsulation writes are read back
    let mut enc = udp_frame(UE, PEER, 1, 2);
    encapsulate_into_gtpu(&mut enc, UPF, GNB, 0, 1, 0x77).unwrap();
    let g = parse_gtpu_header(&enc, UPF).unwrap();
    assert_eq!(g.message_type, GtpuMessageType::GPdu);
    assert_eq!(g.local_fteid.teid(), 0x77);
    assert!(g.has_extension_header);
    // a header without the protocol type bit is handed on
    enc[42] = 0x24;
    assert_eq!(parse_gtpu_header(&enc, UPF).err(), Some(XDP_PASS));
}

#[test]
fn parsing_a_pdu_session_container() {
    let pkt = gtpu_frame(255, 1);
    let psc = parse_pdu_session_container(&pkt).unwrap();
    assert_eq!(psc.ext_tot_len(), 4);
    assert_eq!(psc.qfi(), 5);
    // without a PDU Session Container there is no QFI
    let mut none = pkt.clone();
    none[53] = 0;
    assert!(parse_pdu_session_container(&none).is_err());
    assert!(parse_pdu_session_container(&pkt[..53]).is_err());
    // a container of eight octets: the next header type is its last octet
    let mut long = pkt[..54].to_vec();
    long.extend([2, 0x00, 0x09, 0, 0, 0, 0, 0]);
    let psc = parse_pdu_session_container(&long).unwrap();
    assert_eq!((psc.ext_tot_len(), psc.qfi()), (8, 9));
    // a header of length 0 is refused
    let mut empty = pkt[..54].to_vec();
    empty.extend([0, 0x00, 0x09, 0]);
    assert!(parse_pdu_session_container(&empty).is_err());
}

#[test]
fn parsing_the_inner_headers() {
    let pkt = gtpu_frame(255, 0x42);
    let mut ctx = PacketContext::new(ParsedIpv4::new(GNB, UPF, 100), UPF);
    assert_eq!(ctx.parse_inner(&pkt), Ok(()));
    let inner = *ctx.inner().unwrap();
    assert_eq!(inner.ip.src_ipv4(), UE);
    assert_eq!(inner.ip.dst_ipv4(), PEER);
    assert_eq!(inner.ip.proto, 17);
    assert_eq!(inner.ports.src, 1000);
    assert_eq!(inner.ports.dst, 2000);
    assert_eq!(inner.psc.qfi(), 5);
    let mut ctx = PacketContext::new(ParsedIpv4::new(GNB, UPF, 100), UPF);
    assert_eq!(ctx.parse_inner(&pkt[..70]), Err(XDP_ABORTED));
    assert!(ctx.inner().is_none());
}

#[test]
fn apply_pdr_actions_and_drops() {
    let mut maps = RuleMaps { fars: HashMap::new(), qers: HashMap::new(), urrs: HashMap::new() };
    assert!(apply_pdr(&rule(5, 3, 0), &maps) == Err(XDP_DROP));
    maps.fars.insert(5, forwarding_far(OHC_GTPU_UDP_IPV4));
    // no QER gives a QFI
    assert!(apply_pdr(&rule(5, 3, 0), &maps) == Err(XDP_DROP));
    maps.qers.insert(3, open_qer(9, true));
    let created = ParsedPdr { teid: 7, qfi: 9, dscp: 10, remote_ipv4: GNB, action: PdrAction::Create };
    assert!(apply_pdr(&rule(5, 3, 0), &maps) == Ok(created));
    let forwarded = ParsedPdr { action: PdrAction::Forward, ..created };
    assert!(apply_pdr(&rule(5, 3, 1), &maps) == Ok(forwarded));
    maps.fars.insert(6, forwarding_far(0));
    let removed = ParsedPdr { action: PdrAction::Remove, ..created };
    assert!(apply_pdr(&rule(6, 3, 1), &maps) == Ok(removed));
    // a closed downlink gate drops
    maps.qers.insert(4, QerInfo { dl_gate_status: GateStatus::Closed, ..open_qer(1, true) });
    assert!(apply_pdr(&rule(5, 4, 0), &maps) == Err(XDP_DROP));
    // a FAR that does not only forward drops
    let mut dropping = forwarding_far(OHC_GTPU_UDP_IPV4);
    dropping.set_action(1);
    maps.fars.insert(8, dropping);
    assert!(apply_pdr(&rule(8, 3, 0), &maps) == Err(XDP_DROP));
}

#[test]
fn process_pdrs_applies_the_first_matching_rule() {
    let mut maps = RuleMaps { fars: HashMap::new(), qers: HashMap::new(), urrs: HashMap::new() };
    maps.fars.insert(5, forwarding_far(OHC_GTPU_UDP_IPV4));
    maps.fars.insert(6, forwarding_far(0));
    maps.qers.insert(3, open_qer(9, true));
    let mut ip = ParsedIpv4::new(PEER, UE, 28);
    ip.set_proto(17);
    let mut ctx = PacketContext::new(ip, UPF);
    ctx.set_ports(53, 4000);
    assert!(process_pdrs(&ctx, &[], &maps) == Err(XDP_DROP));
    let created = ParsedPdr { teid: 7, qfi: 9, dscp: 10, remote_ipv4: GNB, action: PdrAction::Create };
    // a PDI without SDF filters puts no constraint on the packet
    let pdrs = [rule(5, 3, 0); PDR_MAP_SIZE];
    assert!(process_pdrs(&ctx, &pdrs, &maps) == Ok(created));
    // a core-side SDF filter from the peer's port 53 to the UE
    let mut filter = SdfFilterPod::default();
    filter.set_allocated(true);
    filter.set_protocol(17);
    filter.set_src_ip(PEER);
    filter.set_src_ip_prefix(24);
    filter.set_dst_ip(UE);
    filter.set_dst_ip_prefix(32);
    filter.set_src_port_range(PortRange::new(53, 53));
    let with_filter = |f: SdfFilterPod, far_id: u32| {
        let mut pdr = rule(far_id, 3, 0);
        let mut pdi = PdiPod::new();
        pdi.set_source_interface(1);
        pdi.set_sdf(0, f);
        pdr.set_pdi(pdi);
        pdr
    };
    let matching = with_filter(filter, 6);
    let removed = ParsedPdr { action: PdrAction::Remove, ..created };
    assert!(process_pdrs(&ctx, &[matching, rule(5, 3, 0)], &maps) == Ok(removed));
    // a filter for another port does not match: the next rule is applied
    let mut other = filter;
    other.set_src_port_range(PortRange::new(80, 80));
    let pdrs = [with_filter(other, 6), rule(5, 3, 0)];
    assert!(process_pdrs(&ctx, &pdrs, &maps) == Ok(created));
    assert!(process_pdrs(&ctx, &pdrs[..1], &maps) == Err(XDP_DROP));
    // on the access side source and destination are swapped
    let mut uplink = with_filter(filter, 6);
    let mut pdi = uplink.pdi();
    pdi.set_source_interface(0);
    uplink.set_pdi(pdi);
    assert!(process_pdrs(&ctx, &[uplink], &maps) == Err(XDP_DROP));
    let mut ip = ParsedIpv4::new(UE, PEER, 28);
    ip.set_proto(17);
    let mut up_ctx = PacketContext::new(ip, UPF);
    up_ctx.set_ports(4000, 53);
    assert!(process_pdrs(&up_ctx, &[uplink], &maps) == Ok(removed));
    // another protocol does not match
    let mut ip = ParsedIpv4::new(PEER, UE, 28);
    ip.set_proto(6);
    let mut tcp_ctx = PacketContext::new(ip, UPF);
    tcp_ctx.set_ports(53, 4000);
    assert!(process_pdrs(&tcp_ctx, &[matching], &maps) == Err(XDP_DROP));
}

#[test]
fn handle_ul_dl_verdicts() {
    let maps = empty_maps(vec![UPF]);
    let frame = udp_frame(PEER, UE, 1, 2);
    let mut pkt = frame.clone();
    // no downlink rules for the UE: handed on
    assert_eq!(handle_ul_dl(&mut pkt, &maps, 1), Ok(XdpStep::Verdict(XDP_PASS)));
    assert_eq!(pkt, frame);
    // not IPv4
    let mut v6 = frame.clone();
    v6[12] = 0x86;
    v6[13] = 0xdd;
    assert_eq!(handle_ul_dl(&mut v6, &maps, 1), Ok(XdpStep::Verdict(XDP_PASS)));
    // too short for an Ethernet header
    assert_eq!(handle_ul_dl(&mut vec![0u8; 13], &maps, 1), Err(()));
    // IPv4 but the UPF has no address
    let mut p = frame.clone();
    assert_eq!(handle_ul_dl(&mut p, &empty_maps(vec![]), 1), Ok(XdpStep::Verdict(XDP_DROP)));
    // neither UDP nor TCP
    let mut icmp = frame.clone();
    icmp[23] = 1;
    assert_eq!(handle_ul_dl(&mut icmp, &maps, 1), Ok(XdpStep::Verdict(XDP_PASS)));
    // TCP too short for its header
    let mut tcp = frame.clone();
    tcp[23] = 6;
    assert_eq!(handle_ul_dl(&mut tcp, &maps, 1), Err(()));
}

#[test]
fn handle_ul_dl_gtpu() {
    let mut maps = empty_maps(vec![UPF]);
    // an Echo Request is handed on
    let mut echo = gtpu_frame(1, 5);
    assert_eq!(handle_ul_dl(&mut echo, &maps, 1), Ok(XdpStep::Verdict(XDP_PASS)));
    // a Tunnel Status message is dropped
    let mut status = gtpu_frame(253, 5);
    assert_eq!(handle_ul_dl(&mut status, &maps, 1), Ok(XdpStep::Verdict(XDP_DROP)));
    // a G-PDU of an unknown TEID is handed on
    let mut gpdu = gtpu_frame(255, 5);
    assert_eq!(handle_ul_dl(&mut gpdu, &maps, 1), Ok(XdpStep::Verdict(XDP_PASS)));
    // a G-PDU whose TEID has rules, none of which detects it, is dropped
    maps.ul_pdrs.insert(5, [rule(1, 1, 1); PDR_MAP_SIZE]);
    let frame = gtpu_frame(255, 5);
    let mut gpdu = frame.clone();
    assert_eq!(handle_ul_dl(&mut gpdu, &maps, 1), Ok(XdpStep::Verdict(XDP_DROP)));
    assert_eq!(gpdu, frame);
    // a GTP-U packet too short to parse is aborted
    let mut short = gtpu_frame(255, 5);
    short.truncate(60);
    assert_eq!(handle_ul_dl(&mut short, &maps, 1), Ok(XdpStep::Verdict(XDP_ABORTED)));
}

#[test]
fn handlers_of_parsed_packets() {
    let mut maps = empty_maps(vec![UPF]);
    let frame = udp_frame(PEER, UE, 1, 2);
    let ctx = PacketContext::new(ParsedIpv4::new(PEER, UE, 28), UPF);
    // a packet context without tunnel headers is aborted as GTP-U
    let mut pkt = frame.clone();
    assert_eq!(handle_gtp_packet(&mut pkt, &ctx, &maps, 1), Ok(XdpStep::Verdict(XDP_ABORTED)));
    assert_eq!(handle_packet(&mut pkt, &ctx, &maps, 1), Ok(XdpStep::Verdict(XDP_PASS)));
    maps.dl_pdrs.insert(UE, [rule(1, 1, 0); PDR_MAP_SIZE]);
    assert_eq!(handle_packet(&mut pkt, &ctx, &maps, 1), Ok(XdpStep::Verdict(XDP_DROP)));
    assert_eq!(pkt, frame);
}
