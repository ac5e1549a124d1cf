//! Packet Detection Rules of PFCP requests.
use vstd::prelude::*;

use crate::fteid::Fteid;
use crate::ies::{CreatePdrIe, CreatedPdrIe, PdiIe, SourceInterfaceValue, UpdatePdrIe, UpfError};
use crate::iprule_parser::{parse_sdf_filter, spec_parse_sdf_filter, SdfFilter, SdfFilterError, SdfParse};
use crate::pdi::{PdiMask, PdiPod, PDI_F_TEID, PDI_QFI, PDI_SDF_FILTER, PDI_UE_IPV4};
use crate::pdr::{OuterHeaderRemovalFlags, PdrInfo};
use crate::pfcp::PfcpContext;
use crate::rules::helpers::{
    fteid_pod_to_ie, handle_fteid, handle_ue_ips, spec_fteid_pod_to_ie, spec_pdi_fteid,
    spec_pdi_ue_ips, spec_ueip_pod_to_ie, ueip_pod_to_ie, ReadOutcome,
};
use crate::sdf::SdfFilterPod;
use crate::session::{PfcpSession, SessionView};
use crate::ue_ip::UeIpPod;
use crate::{MAX_QFI_NUM, QER_MAP_SIZE, SDF_MAP_SIZE, URR_MAP_SIZE};

verus! {

/// `items` laid over the first positions of `base`, as far as `base` reaches.
pub open spec fn overlay<T>(base: Seq<T>, items: Seq<T>) -> Seq<T> {
    Seq::new(base.len(), |i: int| if i < items.len() { items[i] } else { base[i] })
}

/// `bits` with `flag` set where `cond` holds.
pub open spec fn set_if(bits: u16, cond: bool, flag: u16) -> u16 {
    if cond {
        bits | flag
    } else {
        bits
    }
}

proof fn lemma_or_idempotent(x: u16, m: u16)
    by (bit_vector)
    ensures
        (x | m) | m == x | m,
{
}

/// Which flags the mask of a new PDI has once the F-TEID, the UE address,
/// the QFIs and the SDF filters each may have set theirs.
proof fn lemma_fresh_mask_bits(a: bool, b: bool, c: bool, d: bool)
    by (bit_vector)
    ensures
        (set_if(set_if(set_if(set_if(0u16, a, 0x01u16), b, 0x02u16), c, 0x08u16), d, 0x04u16) & 0x01u16
            == 0x01u16) == a,
        (set_if(set_if(set_if(set_if(0u16, a, 0x01u16), b, 0x02u16), c, 0x08u16), d, 0x04u16) & 0x02u16
            == 0x02u16) == b,
{
}

/// The code a PDI stores for its source interface.
pub open spec fn spec_source_interface_code(v: SourceInterfaceValue) -> u8 {
    match v {
        SourceInterfaceValue::Access => 0,
        SourceInterfaceValue::Core => 1,
        SourceInterfaceValue::SgiLan => 2,
        SourceInterfaceValue::CpFunction => 3,
        SourceInterfaceValue::Unknown => 4,
    }
}

fn source_interface_code(v: SourceInterfaceValue) -> (r: u8)
    ensures
        r == spec_source_interface_code(v),
{
    match v {
        SourceInterfaceValue::Access => 0,
        SourceInterfaceValue::Core => 1,
        SourceInterfaceValue::SgiLan => 2,
        SourceInterfaceValue::CpFunction => 3,
        SourceInterfaceValue::Unknown => 4,
    }
}

/// Stores the QFIs of a PDI IE, as many as there is room for.
fn apply_qfis(pdi_pod: &mut PdiPod, qfis: &Vec<u8>)
    ensures
        *final(pdi_pod) == (PdiPod {
            qfis: final(pdi_pod).qfis,
            pdi_mask: PdiMask { bits: set_if(old(pdi_pod).pdi_mask.bits, qfis@.len() > 0, PDI_QFI) },
            ..*old(pdi_pod)
        }),
        final(pdi_pod).qfis@ == overlay(old(pdi_pod).qfis@, qfis@),
{
    let ghost orig = *pdi_pod;
    let mut idx: usize = 0;
    while idx < qfis.len()
        invariant
            orig == *old(pdi_pod),
            idx <= qfis@.len(),
            *pdi_pod == (PdiPod {
                qfis: pdi_pod.qfis,
                pdi_mask: PdiMask { bits: set_if(orig.pdi_mask.bits, idx > 0, PDI_QFI) },
                ..orig
            }),
            pdi_pod.qfis@ == overlay(orig.qfis@, qfis@.subrange(0, idx as int)),
            idx > MAX_QFI_NUM ==> false,
        decreases qfis@.len() - idx,
    {
        if idx < MAX_QFI_NUM {
            pdi_pod.set_qfi(idx, qfis[idx]);
            proof {
                lemma_or_idempotent(orig.pdi_mask.bits, PDI_QFI);
                assert(pdi_pod.qfis@ =~= overlay(orig.qfis@, qfis@.subrange(0, idx + 1)));
            }
        } else {
            assert(overlay(orig.qfis@, qfis@.subrange(0, idx as int)) =~= overlay(orig.qfis@, qfis@));
            return ;
        }
        idx += 1;
    }
    assert(qfis@.subrange(0, qfis@.len() as int) =~= qfis@);
}

/// Where reading the SDF filters of a PDI leads: the filters read, with the
/// allocated mark, or those read before the first refused one and why it was
/// refused; reading panics on a filter whose description panics, and on an
/// eleventh filter.
pub ghost enum SdfsOutcome {
    Read(Seq<SdfFilterPod>),
    Refused(Seq<SdfFilterPod>, SdfFilterError),
    Panics,
}

/// What reading the SDF filters `fs` in turn gives.
pub open spec fn spec_read_sdfs(fs: Seq<SdfFilter>) -> SdfsOutcome
    decreases fs.len(),
{
    if fs.len() == 0 {
        SdfsOutcome::Read(Seq::empty())
    } else {
        match spec_read_sdfs(fs.drop_last()) {
            SdfsOutcome::Read(pods) => match spec_parse_sdf_filter(fs.last().flow_description@) {
                SdfParse::Accepted(pod) => if pods.len() < SDF_MAP_SIZE {
                    SdfsOutcome::Read(pods.push(SdfFilterPod { allocated: true, ..pod }))
                } else {
                    SdfsOutcome::Panics
                },
                SdfParse::Rejected(e) => SdfsOutcome::Refused(pods, e),
                SdfParse::Panics => SdfsOutcome::Panics,
            },
            other => other,
        }
    }
}

/// The filters that reading read, whatever the outcome.
pub open spec fn sdfs_read(o: SdfsOutcome) -> Seq<SdfFilterPod> {
    match o {
        SdfsOutcome::Read(pods) => pods,
        SdfsOutcome::Refused(pods, _) => pods,
        SdfsOutcome::Panics => Seq::empty(),
    }
}

proof fn lemma_read_sdfs_len(fs: Seq<SdfFilter>)
    ensures
        spec_read_sdfs(fs) matches SdfsOutcome::Read(pods) ==> pods.len() == fs.len(),
        spec_read_sdfs(fs) matches SdfsOutcome::Refused(pods, _) ==> pods.len() < fs.len(),
        sdfs_read(spec_read_sdfs(fs)).len() <= SDF_MAP_SIZE,
    decreases fs.len(),
{
    if fs.len() > 0 {
        lemma_read_sdfs_len(fs.drop_last());
    }
}

/// Reading one more filter after a prefix that was read.
pub proof fn lemma_read_sdfs_step(fs: Seq<SdfFilter>, i: int, pods: Seq<SdfFilterPod>)
    requires
        0 <= i < fs.len(),
        spec_read_sdfs(fs.subrange(0, i)) == SdfsOutcome::Read(pods),
    ensures
        spec_read_sdfs(fs.subrange(0, i + 1)) == match spec_parse_sdf_filter(fs[i].flow_description@) {
            SdfParse::Accepted(pod) => if pods.len() < SDF_MAP_SIZE {
                SdfsOutcome::Read(pods.push(SdfFilterPod { allocated: true, ..pod }))
            } else {
                SdfsOutcome::Panics
            },
            SdfParse::Rejected(e) => SdfsOutcome::Refused(pods, e),
            SdfParse::Panics => SdfsOutcome::Panics,
        },
{
    let prefix = fs.subrange(0, i + 1);
    assert(prefix.drop_last() =~= fs.subrange(0, i));
    assert(prefix.last() == fs[i]);
}

/// Once reading a prefix of the filters was refused or panicked, reading all
/// of them ends the same way.
pub proof fn lemma_read_sdfs_prefix(fs: Seq<SdfFilter>, i: int)
    requires
        0 <= i <= fs.len(),
        !(spec_read_sdfs(fs.subrange(0, i)) is Read),
    ensures
        spec_read_sdfs(fs) == spec_read_sdfs(fs.subrange(0, i)),
    decreases fs.len() - i,
{
    if i < fs.len() {
        assert(fs.subrange(0, i + 1).drop_last() =~= fs.subrange(0, i));
        lemma_read_sdfs_prefix(fs, i + 1);
    } else {
        assert(fs.subrange(0, i) =~= fs);
    }
}

/// Reads the SDF filters of a PDI IE into `pdi_pod`, marking each allocated,
/// up to the first one refused.
fn apply_sdf_filters(pdi_pod: &mut PdiPod, sdfs: &Vec<SdfFilter>) -> (r: Result<(), UpfError>)
    requires
        !(spec_read_sdfs(sdfs@) is Panics),
    ensures
        *final(pdi_pod) == (PdiPod {
            sdfs: final(pdi_pod).sdfs,
            pdi_mask: PdiMask {
                bits: set_if(
                    old(pdi_pod).pdi_mask.bits,
                    sdfs_read(spec_read_sdfs(sdfs@)).len() > 0,
                    PDI_SDF_FILTER,
                ),
            },
            ..*old(pdi_pod)
        }),
        final(pdi_pod).sdfs@ == overlay(old(pdi_pod).sdfs@, sdfs_read(spec_read_sdfs(sdfs@))),
        match spec_read_sdfs(sdfs@) {
            SdfsOutcome::Read(_) => r is Ok,
            SdfsOutcome::Refused(_, e) => r == Err::<(), UpfError>(UpfError::SdfFilter(e)),
            SdfsOutcome::Panics => false,
        },
{
    let ghost orig = *pdi_pod;
    let ghost mut pods: Seq<SdfFilterPod> = Seq::empty();
    let mut idx: usize = 0;
    while idx < sdfs.len()
        invariant
            orig == *old(pdi_pod),
            idx <= sdfs@.len(),
            !(spec_read_sdfs(sdfs@) is Panics),
            spec_read_sdfs(sdfs@.subrange(0, idx as int)) == SdfsOutcome::Read(pods),
            pods.len() == idx,
            *pdi_pod == (PdiPod {
                sdfs: pdi_pod.sdfs,
                pdi_mask: PdiMask { bits: set_if(orig.pdi_mask.bits, idx > 0, PDI_SDF_FILTER) },
                ..orig
            }),
            pdi_pod.sdfs@ == overlay(orig.sdfs@, pods),
        decreases sdfs@.len() - idx,
    {
        proof {
            lemma_read_sdfs_step(sdfs@, idx as int, pods);
            if !(spec_read_sdfs(sdfs@.subrange(0, idx + 1)) is Read) {
                lemma_read_sdfs_prefix(sdfs@, idx + 1);
            }
        }
        let mut sdf_pod = match parse_sdf_filter(&sdfs[idx]) {
            Ok(pod) => pod,
            Err(e) => {
                return Err(UpfError::SdfFilter(e));
            },
        };
        sdf_pod.set_allocated(true);
        pdi_pod.set_sdf(idx, sdf_pod);
        proof {
            lemma_or_idempotent(orig.pdi_mask.bits, PDI_SDF_FILTER);
            pods = pods.push(sdf_pod);
            assert(pdi_pod.sdfs@ =~= overlay(orig.sdfs@, pods));
        }
        idx += 1;
    }
    assert(sdfs@.subrange(0, sdfs@.len() as int) =~= sdfs@);
    Ok(())
}

/// Stores the QER IDs of a PDR IE in order.
fn apply_qer_ids(pdr_info: &mut PdrInfo, ids: &Vec<u32>)
    requires
        ids@.len() <= QER_MAP_SIZE,
    ensures
        *final(pdr_info) == (PdrInfo { qer_ids: final(pdr_info).qer_ids, ..*old(pdr_info) }),
        final(pdr_info).qer_ids@ == overlay(old(pdr_info).qer_ids@, ids@),
{
    let ghost orig = *pdr_info;
    let mut idx: usize = 0;
    while idx < ids.len()
        invariant
            orig == *old(pdr_info),
            idx <= ids@.len(),
            ids@.len() <= QER_MAP_SIZE,
            *pdr_info == (PdrInfo { qer_ids: pdr_info.qer_ids, ..orig }),
            pdr_info.qer_ids@ == overlay(orig.qer_ids@, ids@.subrange(0, idx as int)),
        decreases ids@.len() - idx,
    {
        pdr_info.set_qer_id(idx, ids[idx]);
        assert(pdr_info.qer_ids@ =~= overlay(orig.qer_ids@, ids@.subrange(0, idx + 1)));
        idx += 1;
    }
    assert(ids@.subrange(0, ids@.len() as int) =~= ids@);
}

/// Stores the URR IDs of a PDR IE in order.
fn apply_urr_ids(pdr_info: &mut PdrInfo, ids: &Vec<u32>)
    requires
        ids@.len() <= URR_MAP_SIZE,
    ensures
        *final(pdr_info) == (PdrInfo { urr_ids: final(pdr_info).urr_ids, ..*old(pdr_info) }),
        final(pdr_info).urr_ids@ == overlay(old(pdr_info).urr_ids@, ids@),
{
    let ghost orig = *pdr_info;
    let mut idx: usize = 0;
    while idx < ids.len()
        invariant
            orig == *old(pdr_info),
            idx <= ids@.len(),
            ids@.len() <= URR_MAP_SIZE,
            *pdr_info == (PdrInfo { urr_ids: pdr_info.urr_ids, ..orig }),
            pdr_info.urr_ids@ == overlay(orig.urr_ids@, ids@.subrange(0, idx as int)),
        decreases ids@.len() - idx,
    {
        pdr_info.set_urr_id(idx, ids[idx]);
        assert(pdr_info.urr_ids@ =~= overlay(orig.urr_ids@, ids@.subrange(0, idx + 1)));
        idx += 1;
    }
    assert(ids@.subrange(0, ids@.len() as int) =~= ids@);
}

/// A PDI `pdi` is `old` with what a PDI IE gives laid over it: the F-TEID and
/// the UE address read, if any, the QFIs and the SDF filters read, each with
/// its mask bit.
pub open spec fn pdi_after_ies(
    pdi: PdiPod,
    old: PdiPod,
    ie: &PdiIe,
    fteid: Option<Fteid>,
    ue: Option<UeIpPod>,
    pods: Seq<SdfFilterPod>,
) -> bool {
    &&& pdi.pdi_mask.bits == set_if(
        set_if(
            set_if(set_if(old.pdi_mask.bits, fteid is Some, PDI_F_TEID), ue is Some, PDI_UE_IPV4),
            ie.qfis@.len() > 0,
            PDI_QFI,
        ),
        pods.len() > 0,
        PDI_SDF_FILTER,
    )
    &&& pdi.source_interface == old.source_interface
    &&& pdi.fteid == match fteid {
        Some(f) => f,
        None => old.fteid,
    }
    &&& pdi.ue_ip_address == match ue {
        Some(u) => u,
        None => old.ue_ip_address,
    }
    &&& pdi.qfis@ == overlay(old.qfis@, ie.qfis@)
    &&& pdi.sdf_ids == old.sdf_ids
    &&& pdi.sdfs@ == overlay(old.sdfs@, pods)
}

/// The PDI that a Create PDR IE builds from scratch: a new PDI of the IE's
/// source interface with what the IE gives laid over it.
pub open spec fn created_pdi(
    pdi: PdiPod,
    ie: &PdiIe,
    fteid: Option<Fteid>,
    ue: Option<UeIpPod>,
    pods: Seq<SdfFilterPod>,
) -> bool {
    exists|fresh: PdiPod|
        #![trigger pdi_after_ies(pdi, fresh, ie, fteid, ue, pods)]
        fresh.is_new_except_source() && fresh.source_interface == spec_source_interface_code(
            ie.source_interface,
        ) && pdi_after_ies(pdi, fresh, ie, fteid, ue, pods)
}

/// What the reading of the PDI IE of a PDR IE gives, up to where it stops.
pub ghost struct PdiReading {
    pub fteid: Option<Fteid>,
    pub ue: Option<UeIpPod>,
    pub sdfs: SdfsOutcome,
}

/// Where reading a Create PDR IE leads: its F-TEID, then its UE address, then
/// its SDF filters, each possibly refused; reading panics on an F-TEID or UE
/// address to be chosen, on a filter that panics, and on more filters, QER
/// IDs or URR IDs than there is room for.
pub ghost enum PdrReading {
    Refused(SessionView, UpfError),
    Read(SessionView, PdiReading),
    Panics,
}

/// The session with the local TEID of an F-TEID that was read.
pub open spec fn session_with_fteid(s: SessionView, fteid: Option<Fteid>) -> SessionView {
    match fteid {
        Some(f) => SessionView { teid: Some(f.teid), ..s },
        None => s,
    }
}

/// The session with the UE addresses that were read.
pub open spec fn session_with_ue(s: SessionView, ue: Option<UeIpPod>) -> SessionView {
    match ue {
        Some(u) => {
            let s4 = if u.v4 {
                SessionView { ue_ipv4: Some(u.ipv4_address), ..s }
            } else {
                s
            };
            if u.v6 {
                SessionView { ue_ipv6: Some(u.ipv6_address), ..s4 }
            } else {
                s4
            }
        },
        None => s,
    }
}

/// Reading a Create PDR IE against a session, up to the PDR it builds.
pub open spec fn spec_read_create_pdr(
    gtp_addr_v6: Option<u128>,
    session: SessionView,
    pdr: &CreatePdrIe,
) -> PdrReading {
    match spec_pdi_fteid(gtp_addr_v6, &pdr.pdi) {
        ReadOutcome::Panics => PdrReading::Panics,
        ReadOutcome::Refused(e) => PdrReading::Refused(session, e),
        ReadOutcome::Read(fteid) => {
            let s1 = session_with_fteid(session, fteid);
            match spec_pdi_ue_ips(&pdr.pdi) {
                ReadOutcome::Panics => PdrReading::Panics,
                ReadOutcome::Refused(e) => PdrReading::Refused(s1, e),
                ReadOutcome::Read(ue) => {
                    let s2 = session_with_ue(s1, ue);
                    match spec_read_sdfs(pdr.pdi.sdf_filters@) {
                        SdfsOutcome::Panics => PdrReading::Panics,
                        SdfsOutcome::Refused(_, e) => PdrReading::Refused(s2, UpfError::SdfFilter(e)),
                        SdfsOutcome::Read(pods) => if pdr.qer_ids@.len() > QER_MAP_SIZE
                            || pdr.urr_ids@.len() > URR_MAP_SIZE {
                            PdrReading::Panics
                        } else {
                            PdrReading::Read(s2, PdiReading { fteid, ue, sdfs: SdfsOutcome::Read(pods) })
                        },
                    }
                },
            }
        },
    }
}

/// The PDR that a Create PDR IE builds, given what its PDI gave.
pub open spec fn is_created_pdr_info(info: PdrInfo, pdr: &CreatePdrIe, rd: PdiReading) -> bool {
    &&& info.pdr_id == pdr.pdr_id
    &&& info.precedence == pdr.precedence
    &&& info.outer_header_removal.bits == match pdr.outer_header_removal {
        Some(d) => d,
        None => 0,
    }
    &&& created_pdi(info.pdi, &pdr.pdi, rd.fteid, rd.ue, sdfs_read(rd.sdfs))
    &&& info.far_id == match pdr.far_id {
        Some(id) => id,
        None => 0,
    }
    &&& info.qer_ids@ == overlay(Seq::new(QER_MAP_SIZE as nat, |i: int| 0u32), pdr.qer_ids@)
    &&& info.urr_ids@ == overlay(Seq::new(URR_MAP_SIZE as nat, |i: int| 0u32), pdr.urr_ids@)
    &&& info.allocated
}

/// The Created PDR IE that answers a Create PDR IE: the F-TEID and the UE
/// address that its PDI gave.
pub open spec fn spec_created_pdr(pdr_id: u16, rd: PdiReading) -> CreatedPdrIe {
    CreatedPdrIe {
        pdr_id,
        f_teid: match rd.fteid {
            Some(f) => Some(spec_fteid_pod_to_ie(f)),
            None => None,
        },
        ue_ip_address: match rd.ue {
            Some(u) => Some(spec_ueip_pod_to_ie(u)),
            None => None,
        },
    }
}

/// The session `s` holds the PDR `id` that a Create PDR IE built, among the
/// downlink PDRs where its PDI has a UE address and among the uplink ones
/// otherwise, and is `before` in all else.
pub open spec fn holds_created_pdr(s: SessionView, before: SessionView, pdr: &CreatePdrIe, rd: PdiReading) -> bool {
    let id = pdr.pdr_id;
    if rd.ue is Some {
        &&& s.dl_pdrs.contains_key(id)
        &&& is_created_pdr_info(s.dl_pdrs[id], pdr, rd)
        &&& s == SessionView { dl_pdrs: before.dl_pdrs.insert(id, s.dl_pdrs[id]), ..before }
    } else {
        &&& s.ul_pdrs.contains_key(id)
        &&& is_created_pdr_info(s.ul_pdrs[id], pdr, rd)
        &&& s == SessionView { ul_pdrs: before.ul_pdrs.insert(id, s.ul_pdrs[id]), ..before }
    }
}

/// Builds the PDR of a Create PDR IE and stores it in the session; the
/// session also takes the local TEID and UE addresses its PDI gives. Gives
/// the Created PDR IE to answer with.
pub fn create_pdr_rule(
    received_pdr: &CreatePdrIe,
    ctx: &PfcpContext,
    session: &mut PfcpSession,
) -> (r: Result<CreatedPdrIe, UpfError>)
    requires
        !(spec_read_create_pdr(ctx.gtp_addr_v6, old(session)@, received_pdr) is Panics),
    ensures
        match spec_read_create_pdr(ctx.gtp_addr_v6, old(session)@, received_pdr) {
            PdrReading::Refused(s, e) => final(session)@ == s && r == Err::<CreatedPdrIe, UpfError>(e),
            PdrReading::Read(s, rd) => r == Ok::<CreatedPdrIe, UpfError>(
                spec_created_pdr(received_pdr.pdr_id, rd),
            ) && holds_created_pdr(final(session)@, s, received_pdr, rd),
            PdrReading::Panics => false,
        },
{
    let pdr_id = received_pdr.pdr_id;
    let mut pdr_info = PdrInfo::new(pdr_id);
    assert(pdr_info.qer_ids@ =~= Seq::new(QER_MAP_SIZE as nat, |i: int| 0u32));
    assert(pdr_info.urr_ids@ =~= Seq::new(URR_MAP_SIZE as nat, |i: int| 0u32));
    pdr_info.set_pdr_id(pdr_id);
    pdr_info.set_precedence(received_pdr.precedence);
    if let Some(ohr) = received_pdr.outer_header_removal {
        pdr_info.set_ohr(ohr);
    }
    let mut pdi_pod = PdiPod::new();
    let source_interface = source_interface_code(received_pdr.pdi.source_interface);
    pdi_pod.set_source_interface(source_interface);
    let ghost fresh = pdi_pod;

    let fteid = match handle_fteid(&received_pdr.pdi, ctx, &mut pdi_pod) {
        Ok(f) => f,
        Err(e) => return Err(e),
    };
    if let Some(fteid_pod) = fteid {
        session.set_teid(fteid_pod.teid());
    }
    let ue = match handle_ue_ips(&received_pdr.pdi, ctx, &mut pdi_pod) {
        Ok(u) => u,
        Err(e) => return Err(e),
    };
    if let Some(ue_ip_pod) = ue {
        if ue_ip_pod.is_v4() {
            session.set_ue_ipv4(ue_ip_pod.ipv4_address());
        }
        if ue_ip_pod.is_v6() {
            session.set_ue_ipv6(ue_ip_pod.ipv6_address());
        }
    }
    let ghost s2 = session@;
    apply_qfis(&mut pdi_pod, &received_pdr.pdi.qfis);
    match apply_sdf_filters(&mut pdi_pod, &received_pdr.pdi.sdf_filters) {
        Ok(()) => {},
        Err(e) => return Err(e),
    }
    proof {
        lemma_read_sdfs_len(received_pdr.pdi.sdf_filters@);
        assert(pdi_after_ies(
            pdi_pod,
            fresh,
            &received_pdr.pdi,
            fteid,
            ue,
            sdfs_read(spec_read_sdfs(received_pdr.pdi.sdf_filters@)),
        ));
    }
    proof {
        lemma_fresh_mask_bits(
            fteid is Some,
            ue is Some,
            received_pdr.pdi.qfis@.len() > 0,
            sdfs_read(spec_read_sdfs(received_pdr.pdi.sdf_filters@)).len() > 0,
        );
    }
    pdr_info.set_pdi(pdi_pod);
    if let Some(far_id) = received_pdr.far_id {
        pdr_info.set_far_id(far_id);
    }
    apply_qer_ids(&mut pdr_info, &received_pdr.qer_ids);
    apply_urr_ids(&mut pdr_info, &received_pdr.urr_ids);
    pdr_info.set_allocated(true);

    let pdi_pod = pdr_info.pdi();
    let f_teid = if pdi_pod.pdi_mask().contains(PDI_F_TEID) {
        Some(fteid_pod_to_ie(&pdi_pod.fteid()))
    } else {
        None
    };
    let ue_ip_address = if pdi_pod.pdi_mask().contains(PDI_UE_IPV4) {
        Some(ueip_pod_to_ie(&pdi_pod.ue_ip_address()))
    } else {
        None
    };
    let created_pdr = CreatedPdrIe { pdr_id, f_teid, ue_ip_address };
    let ghost rd = PdiReading {
        fteid,
        ue,
        sdfs: spec_read_sdfs(received_pdr.pdi.sdf_filters@),
    };
    assert(s2 == session_with_ue(session_with_fteid(old(session)@, fteid), ue));
    assert(spec_read_create_pdr(ctx.gtp_addr_v6, old(session)@, received_pdr) == PdrReading::Read(s2, rd));
    assert(created_pdi(pdr_info.pdi, &received_pdr.pdi, fteid, ue, sdfs_read(rd.sdfs)));
    assert(is_created_pdr_info(pdr_info, received_pdr, rd));
    assert(created_pdr == spec_created_pdr(pdr_id, rd));
    if pdi_pod.pdi_mask().contains(PDI_UE_IPV4) {
        session.insert_dl_pdr(pdr_info.pdr_id(), pdr_info);
    } else {
        session.insert_ul_pdr(pdr_info.pdr_id(), pdr_info);
    }
    Ok(created_pdr)
}

/// An uplink PDR with the precedence and Outer Header Removal that an Update
/// PDR IE gives.
pub open spec fn with_update_header(info: PdrInfo, update: &UpdatePdrIe) -> PdrInfo {
    let with_precedence = match update.precedence {
        Some(p) => PdrInfo { precedence: p, ..info },
        None => info,
    };
    match update.outer_header_removal {
        Some(d) => PdrInfo { outer_header_removal: OuterHeaderRemovalFlags { bits: d }, ..with_precedence },
        None => with_precedence,
    }
}

/// Where applying an Update PDR IE to a session leads. Only uplink PDRs are
/// updated: one that is not among them leaves the session as it is. In a new
/// PDI, an F-TEID or a UE address that is refused is passed over, while a
/// refused SDF filter ends the update with the PDR's new precedence and Outer
/// Header Removal stored and its PDI as it was. Applying panics where reading
/// the PDI panics, and on more QER IDs or URR IDs than there is room for.
pub ghost enum UpdateReading {
    /// The session has no uplink PDR of that ID.
    Missing,
    /// The update stopped at a refused SDF filter, having stored this PDR.
    Refused(PdrInfo, UpfError),
    /// The update went through, with what the new PDI gave, if one came.
    Read(Option<PdiReading>),
    Panics,
}

/// What a value read from a PDI IE leaves, a refusal being passed over.
pub open spec fn passed_over<T>(o: ReadOutcome<Option<T>>) -> Option<T> {
    match o {
        ReadOutcome::Read(v) => v,
        _ => None,
    }
}

/// Applying an Update PDR IE to a session.
pub open spec fn spec_read_update_pdr(
    gtp_addr_v6: Option<u128>,
    session: SessionView,
    update: &UpdatePdrIe,
) -> UpdateReading {
    let id = update.pdr_id;
    if !session.ul_pdrs.contains_key(id) {
        UpdateReading::Missing
    } else {
        let info = with_update_header(session.ul_pdrs[id], update);
        let pdi_reading = match update.pdi {
            None => Ok(None),
            Some(pdi) => {
                let f = spec_pdi_fteid(gtp_addr_v6, &pdi);
                let u = spec_pdi_ue_ips(&pdi);
                if f is Panics || u is Panics {
                    Err(None)
                } else {
                    match spec_read_sdfs(pdi.sdf_filters@) {
                        SdfsOutcome::Panics => Err(None),
                        SdfsOutcome::Refused(_, e) => Err(Some(UpfError::SdfFilter(e))),
                        SdfsOutcome::Read(pods) => Ok(
                            Some(
                                PdiReading {
                                    fteid: passed_over(f),
                                    ue: passed_over(u),
                                    sdfs: SdfsOutcome::Read(pods),
                                },
                            ),
                        ),
                    }
                }
            },
        };
        match pdi_reading {
            Err(None) => UpdateReading::Panics,
            Err(Some(e)) => UpdateReading::Refused(info, e),
            Ok(rd) => if update.qer_ids@.len() > QER_MAP_SIZE || update.urr_ids@.len() > URR_MAP_SIZE {
                UpdateReading::Panics
            } else {
                UpdateReading::Read(rd)
            },
        }
    }
}

/// The uplink PDR `info` is `old` updated by an Update PDR IE, with what its
/// new PDI gave, if one came.
pub open spec fn is_updated_pdr_info(
    info: PdrInfo,
    old: PdrInfo,
    update: &UpdatePdrIe,
    rd: Option<PdiReading>,
) -> bool {
    let header = with_update_header(old, update);
    &&& info.pdr_id == old.pdr_id
    &&& info.precedence == header.precedence
    &&& info.outer_header_removal == header.outer_header_removal
    &&& match rd {
        Some(r) => pdi_after_ies(
            info.pdi,
            old.pdi,
            &update.pdi.unwrap(),
            r.fteid,
            r.ue,
            sdfs_read(r.sdfs),
        ),
        None => info.pdi == old.pdi,
    }
    &&& info.far_id == match update.far_id {
        Some(id) => id,
        None => old.far_id,
    }
    &&& info.qer_ids@ == overlay(old.qer_ids@, update.qer_ids@)
    &&& info.urr_ids@ == overlay(old.urr_ids@, update.urr_ids@)
    &&& info.allocated
}

/// The header of an uplink PDR after an Update PDR IE: its Outer Header
/// Removal description, precedence and FAR ID are those the IE gives, and
/// those of `old` where the IE gives none; its PDR ID stays.
pub open spec fn has_updated_header(info: PdrInfo, old: PdrInfo, update: UpdatePdrIe) -> bool {
    &&& info.pdr_id == old.pdr_id
    &&& info.outer_header_removal.bits == match update.outer_header_removal {
        Some(d) => d,
        None => old.outer_header_removal.bits,
    }
    &&& info.precedence == match update.precedence {
        Some(p) => p,
        None => old.precedence,
    }
}

/// An Update PDR IE for an uplink PDR of the session stores, whether it
/// goes through or stops at a refused SDF filter, that PDR with the Outer
/// Header Removal description and the precedence that the IE gives, and
/// where it goes through, with the FAR ID that it gives too.
pub proof fn lemma_update_pdr_sets_header(gtp_addr_v6: Option<u128>, session: SessionView, update: UpdatePdrIe)
    requires
        session.ul_pdrs.contains_key(update.pdr_id),
    ensures
        match spec_read_update_pdr(gtp_addr_v6, session, &update) {
            UpdateReading::Read(rd) => forall|info: PdrInfo|
                #[trigger] is_updated_pdr_info(info, session.ul_pdrs[update.pdr_id], &update, rd)
                    ==> has_updated_header(info, session.ul_pdrs[update.pdr_id], update) && info.far_id
                    == match update.far_id {
                    Some(f) => f,
                    None => session.ul_pdrs[update.pdr_id].far_id,
                },
            UpdateReading::Refused(info, _) => has_updated_header(info, session.ul_pdrs[update.pdr_id], update),
            UpdateReading::Missing => false,
            UpdateReading::Panics => true,
        },
{
}

/// Applies an Update PDR IE to the uplink PDR of the session it names.
pub fn update_pdr_rule(
    update_pdr: &UpdatePdrIe,
    ctx: &PfcpContext,
    session: &mut PfcpSession,
) -> (r: Result<(), UpfError>)
    requires
        !(spec_read_update_pdr(ctx.gtp_addr_v6, old(session)@, update_pdr) is Panics),
    ensures
        match spec_read_update_pdr(ctx.gtp_addr_v6, old(session)@, update_pdr) {
            UpdateReading::Missing => r is Ok && final(session)@ == old(session)@,
            UpdateReading::Refused(info, e) => r == Err::<(), UpfError>(e) && final(session)@
                == (SessionView {
                ul_pdrs: old(session)@.ul_pdrs.insert(update_pdr.pdr_id, info),
                ..old(session)@
            }),
            UpdateReading::Read(rd) => {
                &&& r is Ok
                &&& final(session)@.ul_pdrs.contains_key(update_pdr.pdr_id)
                &&& is_updated_pdr_info(
                    final(session)@.ul_pdrs[update_pdr.pdr_id],
                    old(session)@.ul_pdrs[update_pdr.pdr_id],
                    update_pdr,
                    rd,
                )
                &&& final(session)@ == (SessionView {
                    ul_pdrs: old(session)@.ul_pdrs.insert(
                        update_pdr.pdr_id,
                        final(session)@.ul_pdrs[update_pdr.pdr_id],
                    ),
                    ..old(session)@
                })
            },
            UpdateReading::Panics => false,
        },
{
    let pdr_id = update_pdr.pdr_id;
    let mut pdr_info = match session.ul_pdrs.get(&pdr_id) {
        Some(info) => *info,
        None => return Ok(()),
    };
    let ghost stored = pdr_info;
    if let Some(precedence) = update_pdr.precedence {
        pdr_info.set_precedence(precedence);
    }
    if let Some(ohr) = update_pdr.outer_header_removal {
        pdr_info.set_ohr(ohr);
    }
    assert(pdr_info == with_update_header(stored, update_pdr));
    if let Some(pdi) = &update_pdr.pdi {
        let mut pdi_pod = pdr_info.pdi();
        let _ = handle_fteid(pdi, ctx, &mut pdi_pod);
        let _ = handle_ue_ips(pdi, ctx, &mut pdi_pod);
        apply_qfis(&mut pdi_pod, &pdi.qfis);
        match apply_sdf_filters(&mut pdi_pod, &pdi.sdf_filters) {
            Ok(()) => {},
            Err(e) => {
                session.insert_ul_pdr(pdr_id, pdr_info);
                return Err(e);
            },
        }
        proof {
            lemma_read_sdfs_len(pdi.sdf_filters@);
        }
        pdr_info.set_pdi(pdi_pod);
    }
    if let Some(far_id) = update_pdr.far_id {
        pdr_info.set_far_id(far_id);
    }
    apply_qer_ids(&mut pdr_info, &update_pdr.qer_ids);
    apply_urr_ids(&mut pdr_info, &update_pdr.urr_ids);
    pdr_info.set_allocated(true);
    session.insert_ul_pdr(pdr_id, pdr_info);
    Ok(())
}

/// Removing a PDR leaves everything as it is.
pub fn remove_pdr_rule(pdr_id: u16) {
}

} // verus!
