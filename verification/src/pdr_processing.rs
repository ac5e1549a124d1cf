//! Matching packets against Packet Detection Rules and applying the rules'
//! FARs and QERs in the datapath.
use vstd::prelude::*;

use std::collections::HashMap;

use crate::far::{FarAction, FarInfo, OhcFlags, OHC_GTPU_UDP_IPV4};
use crate::parser::{PacketContext, ParsedIpv4, ParsedPorts};
use crate::pdi::{PdiMask, PdiPod, SourceInterface, PDI_F_TEID, PDI_SDF_FILTER, PDI_UE_IPV4};
use crate::sdf::{
    SdfFilterPod, SDF_DST_ADDR, SDF_DST_PORT_RANGE, SDF_PROTOCOL, SDF_SRC_ADDR, SDF_SRC_PORT_RANGE,
};
use crate::pdr::{PdrInfo, OHR_GTPU_UDP_IPV4};
use crate::qer::{GateStatus, QerInfo};
use crate::urr::UrrInfo;
use crate::{QER_MAP_SIZE, SDF_MAP_SIZE, XDP_DROP};

verus! {

/// What is done to a packet that a rule detects.
#[derive(Debug, Clone, Copy, PartialEq, Eq, Structural)]
pub enum PdrAction {
    /// Wrap it in GTP-U (downlink from N6).
    Create,
    /// Take off its GTP-U encapsulation (uplink from N3).
    Remove,
    /// Forward it in a new tunnel (N9).
    Forward,
}

/// The outcome of the rule that detected a packet.
#[derive(Clone, Copy, PartialEq, Eq, Structural)]
pub struct ParsedPdr {
    pub teid: u32,
    pub qfi: u8,
    pub dscp: u8,
    pub remote_ipv4: u32,
    pub action: PdrAction,
}

/// The rule tables of the datapath, keyed by rule identifier.
pub struct RuleMaps {
    pub fars: HashMap<u32, FarInfo>,
    pub qers: HashMap<u32, QerInfo>,
    pub urrs: HashMap<u32, UrrInfo>,
}

/// Whether the SDF filter `f` matches a packet of protocol `proto` from
/// `src` to `dst`, from port `src_port` to port `dst_port`: each part that the
/// filter sets holds of the packet. Addresses are compared under the filter's
/// masks, ports against the filter's ranges, bounds included.
pub open spec fn sdf_filter_matches(
    f: SdfFilterPod,
    proto: u8,
    src: u32,
    dst: u32,
    src_port: u16,
    dst_port: u16,
) -> bool {
    &&& f.flags.bits & SDF_PROTOCOL == SDF_PROTOCOL ==> f.protocol == proto
    &&& f.flags.bits & SDF_SRC_ADDR == SDF_SRC_ADDR ==> src & f.src_ip_mask == f.src_ip & f.src_ip_mask
    &&& f.flags.bits & SDF_DST_ADDR == SDF_DST_ADDR ==> dst & f.dst_ip_mask == f.dst_ip & f.dst_ip_mask
    &&& f.flags.bits & SDF_SRC_PORT_RANGE == SDF_SRC_PORT_RANGE ==> f.src_port_range.start <= src_port
        <= f.src_port_range.end
    &&& f.flags.bits & SDF_DST_PORT_RANGE == SDF_DST_PORT_RANGE ==> f.dst_port_range.start <= dst_port
        <= f.dst_port_range.end
}

/// The IPv4 header and ports an SDF filter is checked against: those of the
/// inner packet of a tunnelled packet, else those of the packet itself.
pub open spec fn filtered_headers(pkt: PacketContext) -> (ParsedIpv4, ParsedPorts) {
    match pkt.inner {
        Some(inner) => (inner.ip, inner.ports),
        None => (pkt.ipv4, pkt.ports),
    }
}

/// Whether the SDF filter `f` of a PDI on the side `si` matches a packet. A
/// flow description is written for the downlink, from the remote end to the
/// UE; on the access side (uplink) the packet's source and destination are
/// its destination and source.
pub open spec fn sdf_matches_packet(f: SdfFilterPod, si: SourceInterface, pkt: PacketContext) -> bool {
    let (ip, ports) = filtered_headers(pkt);
    if si == SourceInterface::Access {
        sdf_filter_matches(f, ip.proto, ip.dst_ipv4, ip.src_ipv4, ports.dst, ports.src)
    } else {
        sdf_filter_matches(f, ip.proto, ip.src_ipv4, ip.dst_ipv4, ports.src, ports.dst)
    }
}

/// Whether the SDF filters of a PDI let a packet through: a PDI without SDF
/// filters puts no constraint; one with them lets through a packet that one of
/// its filters matches, the filters being those stored before the first free
/// place, on a PDI of the access or the core side.
pub open spec fn spec_sdf_matches(pdi: PdiPod, pkt: PacketContext) -> bool {
    let si = crate::pdi::spec_source_interface(pdi.source_interface);
    ||| pdi.pdi_mask.bits & PDI_SDF_FILTER != PDI_SDF_FILTER
    ||| (si == SourceInterface::Access || si == SourceInterface::Core) && exists|i: int|
        0 <= i < SDF_MAP_SIZE && (forall|j: int| 0 <= j <= i ==> #[trigger] pdi.sdfs[j].allocated)
            && #[trigger] sdf_matches_packet(pdi.sdfs[i], si, pkt)
}

/// Checks one SDF filter against a packet's protocol, addresses and ports.
fn filter_matches(f: &SdfFilterPod, proto: u8, src: u32, dst: u32, src_port: u16, dst_port: u16) -> (r:
    bool)
    ensures
        r == sdf_filter_matches(*f, proto, src, dst, src_port, dst_port),
{
    let bits = f.flags.bits;
    (bits & SDF_PROTOCOL != SDF_PROTOCOL || f.protocol == proto) && (bits & SDF_SRC_ADDR
        != SDF_SRC_ADDR || src & f.src_ip_mask == f.src_ip & f.src_ip_mask) && (bits & SDF_DST_ADDR
        != SDF_DST_ADDR || dst & f.dst_ip_mask == f.dst_ip & f.dst_ip_mask) && (bits
        & SDF_SRC_PORT_RANGE != SDF_SRC_PORT_RANGE || (f.src_port_range.start <= src_port
        && src_port <= f.src_port_range.end)) && (bits & SDF_DST_PORT_RANGE != SDF_DST_PORT_RANGE
        || (f.dst_port_range.start <= dst_port && dst_port <= f.dst_port_range.end))
}

/// Checks the SDF filters of a PDI against a packet.
pub fn sdf_matches(pdi: &PdiPod, pkt: &PacketContext) -> (r: bool)
    ensures
        r == spec_sdf_matches(*pdi, *pkt),
{
    if !pdi.pdi_mask().contains(PDI_SDF_FILTER) {
        return true;
    }
    let si = pdi.source_interface();
    let uplink = match si {
        SourceInterface::Access => true,
        SourceInterface::Core => false,
        _ => return false,
    };
    let (ip, ports) = match pkt.inner() {
        Some(inner) => (inner.ip, inner.ports),
        None => (pkt.ipv4, pkt.ports),
    };
    let (src, dst, src_port, dst_port) = if uplink {
        (ip.dst_ipv4, ip.src_ipv4, ports.dst, ports.src)
    } else {
        (ip.src_ipv4, ip.dst_ipv4, ports.src, ports.dst)
    };
    assert(forall|f: SdfFilterPod| #[trigger] sdf_matches_packet(f, si, *pkt)
        == sdf_filter_matches(f, ip.proto, src, dst, src_port, dst_port));
    let sdfs = pdi.sdfs();
    let mut i: usize = 0;
    while i < sdfs.len()
        invariant
            i <= sdfs@.len(),
            sdfs@ == pdi.sdfs@,
            sdfs@.len() == SDF_MAP_SIZE,
            si == crate::pdi::spec_source_interface(pdi.source_interface),
            si == SourceInterface::Access || si == SourceInterface::Core,
            pdi.pdi_mask.bits & PDI_SDF_FILTER == PDI_SDF_FILTER,
            forall|j: int| 0 <= j < i ==> #[trigger] pdi.sdfs[j].allocated,
            forall|j: int| 0 <= j < i ==> !sdf_filter_matches(#[trigger] pdi.sdfs[j], ip.proto, src, dst, src_port, dst_port),
            forall|f: SdfFilterPod| #[trigger] sdf_matches_packet(f, si, *pkt)
                == sdf_filter_matches(f, ip.proto, src, dst, src_port, dst_port),
        decreases sdfs@.len() - i,
    {
        let f = &sdfs[i];
        if !f.allocated {
            assert forall|k: int| 0 <= k < SDF_MAP_SIZE && (forall|j: int| 0 <= j <= k ==> #[trigger] pdi.sdfs[j].allocated)
                implies !sdf_matches_packet(pdi.sdfs[k], si, *pkt) by {
                if k >= i {
                    assert(pdi.sdfs[i as int].allocated);
                }
            }
            return false;
        }
        if filter_matches(f, ip.proto, src, dst, src_port, dst_port) {
            assert(sdf_matches_packet(pdi.sdfs[i as int], si, *pkt));
            return true;
        }
        i += 1;
    }
    false
}

/// Whether a packet fails the F-TEID and UE address checks of a PDI: the UE
/// address is the inner source address for a PDI on the access side, the inner
/// destination address on the core side, and the outer destination address of
/// a packet that is not tunnelled.
pub open spec fn pdi_rejects(pdi: PdiPod, pkt: PacketContext) -> bool {
    match pkt.inner {
        Some(inner) => {
            let si = crate::pdi::spec_source_interface(pdi.source_interface);
            if si == SourceInterface::Access || si == SourceInterface::Core {
                let ue_ip = if si == SourceInterface::Access {
                    inner.ip.src_ipv4
                } else {
                    inner.ip.dst_ipv4
                };
                (pdi.pdi_mask.bits & PDI_F_TEID == PDI_F_TEID && pdi.fteid != inner.gtpu.local_fteid)
                    || (pdi.pdi_mask.bits & PDI_UE_IPV4 == PDI_UE_IPV4
                    && pdi.ue_ip_address.ipv4_address != ue_ip)
            } else {
                true
            }
        },
        None => pdi.pdi_mask.bits & PDI_UE_IPV4 == PDI_UE_IPV4 && pdi.ue_ip_address.ipv4_address
            != pkt.ipv4.dst_ipv4,
    }
}

/// Whether a packet matches a PDI: it passes the F-TEID and UE address checks
/// and the SDF filters.
pub open spec fn spec_pdi_matches(pdi: PdiPod, pkt: PacketContext) -> bool {
    !pdi_rejects(pdi, pkt) && spec_sdf_matches(pdi, pkt)
}

/// A PDI without SDF filters detects a packet that is not tunnelled (from
/// N6) exactly where, if it has the UE IPv4 flag, its UE address is the
/// packet's destination; the packet's source plays no part.
pub proof fn lemma_plain_packet_detected_by_destination(pdi: PdiPod, pkt: PacketContext)
    requires
        pkt.inner is None,
        pdi.pdi_mask.bits & PDI_SDF_FILTER != PDI_SDF_FILTER,
    ensures
        spec_pdi_matches(pdi, pkt) <==> (pdi.pdi_mask.bits & PDI_UE_IPV4 == PDI_UE_IPV4
            ==> pdi.ue_ip_address.ipv4_address == pkt.ipv4.dst_ipv4),
        forall|src: u32| #[trigger] spec_pdi_matches(pdi, PacketContext { ipv4: ParsedIpv4 { src_ipv4: src, ..pkt.ipv4 }, ..pkt })
            == spec_pdi_matches(pdi, pkt),
{
}

/// A PDI without SDF filters detects a tunnelled packet exactly where it is
/// on the access or the core side, its F-TEID, where it has one, is the
/// tunnel's local end, and its UE address, where it has one, is the inner
/// source address on the access side (uplink) and the inner destination
/// address on the core side.
pub proof fn lemma_tunnelled_packet_detection(pdi: PdiPod, pkt: PacketContext)
    requires
        pkt.inner is Some,
        pdi.pdi_mask.bits & PDI_SDF_FILTER != PDI_SDF_FILTER,
    ensures
        spec_pdi_matches(pdi, pkt) <==> {
            let inner = pkt.inner->0;
            let si = crate::pdi::spec_source_interface(pdi.source_interface);
            &&& si == SourceInterface::Access || si == SourceInterface::Core
            &&& pdi.pdi_mask.bits & PDI_F_TEID == PDI_F_TEID ==> pdi.fteid == inner.gtpu.local_fteid
            &&& si == SourceInterface::Access && pdi.pdi_mask.bits & PDI_UE_IPV4 == PDI_UE_IPV4
                ==> pdi.ue_ip_address.ipv4_address == inner.ip.src_ipv4
            &&& si == SourceInterface::Core && pdi.pdi_mask.bits & PDI_UE_IPV4 == PDI_UE_IPV4
                ==> pdi.ue_ip_address.ipv4_address == inner.ip.dst_ipv4
        },
{
}

/// A filter that sets nothing matches every packet; one that sets the
/// protocol matches only packets of that protocol, and one that sets a
/// destination address matches only packets whose destination agrees with it
/// under the mask.
pub proof fn lemma_sdf_filter_parts(f: SdfFilterPod, proto: u8, src: u32, dst: u32, src_port: u16, dst_port: u16)
    ensures
        f.flags.bits == 0 ==> sdf_filter_matches(f, proto, src, dst, src_port, dst_port),
        f.flags.bits & SDF_PROTOCOL == SDF_PROTOCOL && f.protocol != proto ==> !sdf_filter_matches(
            f,
            proto,
            src,
            dst,
            src_port,
            dst_port,
        ),
        f.flags.bits & SDF_DST_ADDR == SDF_DST_ADDR && dst & f.dst_ip_mask != f.dst_ip & f.dst_ip_mask
            ==> !sdf_filter_matches(f, proto, src, dst, src_port, dst_port),
        f.flags.bits & SDF_SRC_ADDR == SDF_SRC_ADDR && src & f.src_ip_mask != f.src_ip & f.src_ip_mask
            ==> !sdf_filter_matches(f, proto, src, dst, src_port, dst_port),
        f.flags.bits & SDF_DST_PORT_RANGE == SDF_DST_PORT_RANGE && !(f.dst_port_range.start <= dst_port
            <= f.dst_port_range.end) ==> !sdf_filter_matches(f, proto, src, dst, src_port, dst_port),
{
    let b = f.flags.bits;
    assert(b == 0 ==> (b & SDF_PROTOCOL != SDF_PROTOCOL && b & SDF_SRC_ADDR != SDF_SRC_ADDR && b & SDF_DST_ADDR
        != SDF_DST_ADDR && b & SDF_SRC_PORT_RANGE != SDF_SRC_PORT_RANGE && b & SDF_DST_PORT_RANGE
        != SDF_DST_PORT_RANGE)) by (bit_vector);
}

/// A PDI without the SDF filter flag puts no constraint on the packet.
pub proof fn lemma_no_sdf_filter_no_constraint(pdi: PdiPod, pkt: PacketContext)
    requires
        pdi.pdi_mask.bits & PDI_SDF_FILTER != PDI_SDF_FILTER,
    ensures
        spec_sdf_matches(pdi, pkt),
{
}

/// Checks a packet against a PDI.
pub fn pdi_matches(pdi: &PdiPod, pkt: &PacketContext) -> (r: bool)
    ensures
        r == spec_pdi_matches(*pdi, *pkt),
{
    if let Some(inner) = pkt.inner() {
        let ue_ip = match pdi.source_interface() {
            SourceInterface::Access => inner.ip.src_ipv4(),
            SourceInterface::Core => inner.ip.dst_ipv4(),
            _ => return false,
        };
        if (pdi.pdi_mask().contains(PDI_F_TEID) && pdi.fteid() != inner.gtpu.local_fteid) || (
        pdi.pdi_mask().contains(PDI_UE_IPV4) && pdi.ue_ip_address().ipv4_address() != ue_ip) {
            return false;
        }
    } else {
        let ue_ip = pkt.dst_ipv4();
        if pdi.pdi_mask().contains(PDI_UE_IPV4) && pdi.ue_ip_address().ipv4_address() != ue_ip {
            return false;
        }
    }
    sdf_matches(pdi, pkt)
}

/// The QERs named by `ids`, taken in order: `None` where one of them closes
/// the downlink, else the QFI of the last one that has one.
pub open spec fn qer_scan(ids: Seq<u32>, qers: Map<u32, QerInfo>) -> Option<Option<u8>>
    decreases ids.len(),
{
    if ids.len() == 0 {
        Some(None)
    } else {
        match qer_scan(ids.drop_last(), qers) {
            None => None,
            Some(q) => {
                let id = ids.last();
                if qers.contains_key(id) {
                    let qer = qers[id];
                    if qer.dl_gate_status == GateStatus::Closed {
                        None
                    } else if qer.has_qfi {
                        Some(Some(qer.qfi))
                    } else {
                        Some(q)
                    }
                } else {
                    Some(q)
                }
            },
        }
    }
}

/// The action for a rule with Outer Header Removal flags `ohr` whose FAR has
/// Outer Header Creation flags `ohc`.
pub open spec fn spec_pdr_action(ohr: u8, ohc: u8) -> PdrAction {
    if ohr & OHR_GTPU_UDP_IPV4 == OHR_GTPU_UDP_IPV4 && ohc & OHC_GTPU_UDP_IPV4 == OHC_GTPU_UDP_IPV4 {
        PdrAction::Forward
    } else if ohc & OHC_GTPU_UDP_IPV4 == OHC_GTPU_UDP_IPV4 {
        PdrAction::Create
    } else {
        PdrAction::Remove
    }
}

/// What applying a detected rule gives: the rule's FAR must exist and only
/// forward, no QER of the rule may close the downlink and one must give a QFI;
/// else the packet is dropped.
pub open spec fn spec_apply_pdr(
    pdr: PdrInfo,
    fars: Map<u32, FarInfo>,
    qers: Map<u32, QerInfo>,
) -> Result<ParsedPdr, u32> {
    if !fars.contains_key(pdr.far_id) || fars[pdr.far_id].action.bits != 2 {
        Err(XDP_DROP)
    } else {
        let far = fars[pdr.far_id];
        match qer_scan(pdr.qer_ids@, qers) {
            None => Err(XDP_DROP),
            Some(None) => Err(XDP_DROP),
            Some(Some(qfi)) => Ok(
                ParsedPdr {
                    teid: far.teid,
                    qfi,
                    dscp: far.dscp,
                    remote_ipv4: far.remote_ipv4,
                    action: spec_pdr_action(pdr.outer_header_removal.bits, far.ohc.bits),
                },
            ),
        }
    }
}

/// Applies a detected rule: its FAR, its QERs and its URRs.
pub fn apply_pdr(pdr: &PdrInfo, maps: &RuleMaps) -> (r: Result<ParsedPdr, u32>)
    ensures
        r == spec_apply_pdr(*pdr, maps.fars@, maps.qers@),
{
    let far_id = pdr.far_id();
    let ohr = pdr.ohr();
    let far = match maps.fars.get(&far_id) {
        Some(far) => {
            let action = far.action();
            if action == FarAction::forw() {
                *far
            } else {
                return Err(XDP_DROP);
            }
        },
        None => return Err(XDP_DROP),
    };
    let mut qfi: u8 = 0;
    let mut allocated_qfi = false;
    let qer_ids = pdr.qer_ids();
    let mut i: usize = 0;
    while i < qer_ids.len()
        invariant
            i <= qer_ids@.len(),
            qer_ids@ == pdr.qer_ids@,
            qer_scan(qer_ids@.subrange(0, i as int), maps.qers@) == (if allocated_qfi {
                Some(Some(qfi))
            } else {
                Some(None::<u8>)
            }),
        decreases qer_ids@.len() - i,
    {
        let qer_id = qer_ids[i];
        let ghost prefix = qer_ids@.subrange(0, i + 1);
        assert(prefix.drop_last() =~= qer_ids@.subrange(0, i as int));
        assert(prefix.last() == qer_id);
        if let Some(qer) = maps.qers.get(&qer_id) {
            if qer.is_closed() {
                proof {
                    lemma_qer_scan_closed_stays(qer_ids@, maps.qers@, i + 1);
                    assert(qer_ids@.subrange(0, qer_ids@.len() as int) =~= qer_ids@);
                }
                return Err(XDP_DROP);
            }
            if qer.has_qfi() {
                qfi = qer.qfi();
                allocated_qfi = true;
            }
        }
        i += 1;
    }
    assert(qer_ids@.subrange(0, qer_ids@.len() as int) =~= qer_ids@);
    if !allocated_qfi {
        return Err(XDP_DROP);
    }
    let urr_ids = pdr.urr_ids();
    let mut j: usize = 0;
    while j < urr_ids.len()
        invariant
            j <= urr_ids@.len(),
        decreases urr_ids@.len() - j,
    {
        let urr_id = urr_ids[j];
        if let Some(urr) = maps.urrs.get(&urr_id) {
            if !urr.is_allocated() {
                break;
            }
        }
        j += 1;
    }
    let action: PdrAction = if ohr.contains(OHR_GTPU_UDP_IPV4) && far.ohc().contains(
        OhcFlags::from_bits(OHC_GTPU_UDP_IPV4),
    ) {
        PdrAction::Forward
    } else if far.ohc().contains(OhcFlags::from_bits(OHC_GTPU_UDP_IPV4)) {
        PdrAction::Create
    } else {
        PdrAction::Remove
    };
    Ok(
        ParsedPdr {
            teid: far.teid(),
            qfi,
            dscp: far.dscp(),
            remote_ipv4: far.remote_ipv4(),
            action,
        },
    )
}

/// Once a QER of a prefix closes the downlink, the scan of any longer prefix says so.
proof fn lemma_qer_scan_closed_stays(ids: Seq<u32>, qers: Map<u32, QerInfo>, k: int)
    requires
        0 <= k <= ids.len(),
        qer_scan(ids.subrange(0, k), qers) is None,
    ensures
        qer_scan(ids.subrange(0, ids.len() as int), qers) is None,
    decreases ids.len() - k,
{
    if k < ids.len() {
        let next = ids.subrange(0, k + 1);
        assert(next.drop_last() =~= ids.subrange(0, k));
        lemma_qer_scan_closed_stays(ids, qers, k + 1);
    }
}

/// Rule `i` of `pdrs` is allocated and its PDI matches the packet.
pub open spec fn detects(pdrs: Seq<PdrInfo>, pkt: PacketContext, i: int) -> bool {
    0 <= i < pdrs.len() && pdrs[i].allocated && spec_pdi_matches(pdrs[i].pdi, pkt)
}

/// The position of the first allocated rule of `pdrs` whose PDI matches the packet.
pub open spec fn first_match(pdrs: Seq<PdrInfo>, pkt: PacketContext) -> Option<int> {
    if exists|i: int| detects(pdrs, pkt, i) {
        Some(choose|i: int| detects(pdrs, pkt, i) && forall|j: int| 0 <= j < i ==> !detects(pdrs, pkt, j))
    } else {
        None
    }
}

/// What processing the rules `pdrs` for a packet gives: the outcome of the
/// first allocated rule whose PDI matches, or a drop where none matches.
pub open spec fn spec_process_pdrs(
    pkt: PacketContext,
    pdrs: Seq<PdrInfo>,
    fars: Map<u32, FarInfo>,
    qers: Map<u32, QerInfo>,
) -> Result<ParsedPdr, u32> {
    match first_match(pdrs, pkt) {
        Some(i) => spec_apply_pdr(pdrs[i], fars, qers),
        None => Err(XDP_DROP),
    }
}

/// Finds the first allocated rule of `pdrs` that detects the packet and applies it.
pub fn process_pdrs(packet_ctx: &PacketContext, pdrs: &[PdrInfo], maps: &RuleMaps) -> (r: Result<
    ParsedPdr,
    u32,
>)
    ensures
        r == spec_process_pdrs(*packet_ctx, pdrs@, maps.fars@, maps.qers@),
{
    let mut i: usize = 0;
    while i < pdrs.len()
        invariant
            i <= pdrs@.len(),
            forall|j: int| 0 <= j < i ==> !detects(pdrs@, *packet_ctx, j),
        decreases pdrs@.len() - i,
    {
        let pdr = &pdrs[i];
        if pdr.is_allocated() {
            let pdi = pdr.pdi();
            if pdi_matches(&pdi, packet_ctx) {
                proof {
                    let pc = *packet_ctx;
                    assert(detects(pdrs@, pc, i as int));
                    assert(detects(pdrs@, pc, i as int) && forall|j: int|
                        0 <= j < i ==> !detects(pdrs@, pc, j));
                    let k = choose|k: int|
                        detects(pdrs@, pc, k) && forall|j: int| 0 <= j < k ==> !detects(pdrs@, pc, j);
                    assert(detects(pdrs@, pc, k) && forall|j: int| 0 <= j < k ==> !detects(pdrs@, pc, j));
                    if k < i {
                        assert(!detects(pdrs@, pc, k));
                    } else if k > i {
                        assert(!detects(pdrs@, pc, i as int));
                    }
                    assert(first_match(pdrs@, pc) == Some(i as int));
                }
                return apply_pdr(pdr, maps);
            }
        }
        i += 1;
    }
    Err(XDP_DROP)
}

} // verus!
