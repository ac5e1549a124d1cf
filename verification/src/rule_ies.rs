//! Reading the FAR and PDR IEs of PFCP requests, which carry other IEs: each
//! grouped IE is read through the wire format, and the IEs it carries in turn.
use vstd::prelude::*;

use crate::ies::{
    CreateFarIe, CreatePdrIe, ForwardingParametersIe, FteidIe, OuterHeaderCreationIe, PdiIe,
    UeIpAddressIe, UpdateFarIe, UpdateForwardingParametersIe, UpdatePdrIe,
};
use crate::iprule_parser::SdfFilter;
use crate::wire::{
    create_far_parts_of, create_pdr_parts_of, forwarding_parameters_of, fteid_of,
    outer_header_creation_of, pdi_parts_of, read_create_far_parts, read_create_pdr_parts,
    read_forwarding_parameters, read_fteid, read_outer_header_creation, read_pdi_parts,
    read_ue_ip_address, read_update_far_parts, read_update_forwarding_parameters,
    read_update_pdr_parts, ue_ip_address_of, update_far_parts_of, update_forwarding_parameters_of,
    update_pdr_parts_of, IE_PAYLOAD_MAX,
};

verus! {

/// An optional Outer Header Creation IE read: `Some(None)` where there is
/// none, `None` where its octets do not read.
pub open spec fn spec_ohc(ohc: Option<Seq<u8>>) -> Option<Option<OuterHeaderCreationIe>> {
    match ohc {
        None => Some(None),
        Some(b) => match outer_header_creation_of(b) {
            Some(o) => Some(Some(o)),
            None => None,
        },
    }
}

/// The Create FAR IE of payload `p`, `None` where it or an IE it carries
/// does not read, or where the Forwarding Parameters, as written back, do not
/// fit in an IE.
pub open spec fn create_far_of(p: Seq<u8>) -> Option<CreateFarIe> {
    match create_far_parts_of(p) {
        None => None,
        Some((far_id, apply_action, fp)) => match fp {
            None => Some(CreateFarIe { far_id, apply_action, forwarding_parameters: None }),
            Some(fpb) => if fpb.len() > IE_PAYLOAD_MAX {
                None
            } else { match forwarding_parameters_of(fpb) {
                None => None,
                Some((destination_interface, dscp, ohc)) => match spec_ohc(ohc) {
                    None => None,
                    Some(outer_header_creation) => Some(
                        CreateFarIe {
                            far_id,
                            apply_action,
                            forwarding_parameters: Some(
                                ForwardingParametersIe { destination_interface, dscp, outer_header_creation },
                            ),
                        },
                    ),
                },
            } },
        },
    }
}

/// The Update FAR IE of payload `p`, `None` where it or an IE it carries
/// does not read, or where the Update Forwarding Parameters, as written back,
/// do not fit in an IE.
pub open spec fn update_far_of(p: Seq<u8>) -> Option<UpdateFarIe> {
    match update_far_parts_of(p) {
        None => None,
        Some((far_id, apply_action, fp)) => match fp {
            None => Some(UpdateFarIe { far_id, apply_action, update_forwarding_parameters: None }),
            Some(fpb) => if fpb.len() > IE_PAYLOAD_MAX {
                None
            } else { match update_forwarding_parameters_of(fpb) {
                None => None,
                Some((destination_interface, dscp, ohc)) => match spec_ohc(ohc) {
                    None => None,
                    Some(outer_header_creation) => Some(
                        UpdateFarIe {
                            far_id,
                            apply_action,
                            update_forwarding_parameters: Some(
                                UpdateForwardingParametersIe {
                                    destination_interface,
                                    dscp,
                                    outer_header_creation,
                                },
                            ),
                        },
                    ),
                },
            } },
        },
    }
}

fn read_ohc(ohc: &Option<Vec<u8>>) -> (r: Option<Option<OuterHeaderCreationIe>>)
    ensures
        r == spec_ohc(crate::wire::opt_bytes(*ohc)),
{
    match ohc {
        None => Some(None),
        Some(b) => match read_outer_header_creation(b.as_slice()) {
            Some(o) => Some(Some(o)),
            None => None,
        },
    }
}

/// Reads a Create FAR IE and the Forwarding Parameters and Outer Header
/// Creation it carries.
pub fn read_create_far(payload: &[u8]) -> (r: Option<CreateFarIe>)
    requires
        payload@.len() <= IE_PAYLOAD_MAX,
    ensures
        r == create_far_of(payload@),
{
    let (far_id, apply_action, fp) = match read_create_far_parts(payload) {
        Some(parts) => parts,
        None => return None,
    };
    let forwarding_parameters = match fp {
        None => None,
        Some(fpb) => {
            if fpb.len() > IE_PAYLOAD_MAX {
                return None;
            }
            let (destination_interface, dscp, ohc) = match read_forwarding_parameters(fpb.as_slice()) {
                Some(parts) => parts,
                None => return None,
            };
            let outer_header_creation = match read_ohc(&ohc) {
                Some(o) => o,
                None => return None,
            };
            Some(ForwardingParametersIe { destination_interface, dscp, outer_header_creation })
        },
    };
    Some(CreateFarIe { far_id, apply_action, forwarding_parameters })
}

/// Reads an Update FAR IE and the Update Forwarding Parameters and Outer
/// Header Creation it carries.
pub fn read_update_far(payload: &[u8]) -> (r: Option<UpdateFarIe>)
    requires
        payload@.len() <= IE_PAYLOAD_MAX,
    ensures
        r == update_far_of(payload@),
{
    let (far_id, apply_action, fp) = match read_update_far_parts(payload) {
        Some(parts) => parts,
        None => return None,
    };
    let update_forwarding_parameters = match fp {
        None => None,
        Some(fpb) => {
            if fpb.len() > IE_PAYLOAD_MAX {
                return None;
            }
            let (destination_interface, dscp, ohc) = match read_update_forwarding_parameters(
                fpb.as_slice(),
            ) {
                Some(parts) => parts,
                None => return None,
            };
            let outer_header_creation = match read_ohc(&ohc) {
                Some(o) => o,
                None => return None,
            };
            Some(UpdateForwardingParametersIe { destination_interface, dscp, outer_header_creation })
        },
    };
    Some(UpdateFarIe { far_id, apply_action, update_forwarding_parameters })
}

/// Whether the PDI IE of payload `p` fits in an IE and reads, with the F-TEID
/// and each UE IP Address it carries.
pub open spec fn pdi_reads(p: Seq<u8>) -> bool {
    p.len() <= IE_PAYLOAD_MAX && match pdi_parts_of(p) {
        None => false,
        Some((si, f, ues, qfis, sdfs)) => {
            &&& match f {
                None => true,
                Some(fb) => fteid_of(fb) is Some,
            }
            &&& forall|i: int| 0 <= i < ues.len() ==> #[trigger] ue_ip_address_of(ues[i]) is Some
        },
    }
}

/// `pdi` is the PDI IE of payload `p`, which reads.
pub open spec fn is_pdi_of(p: Seq<u8>, pdi: PdiIe) -> bool {
    match pdi_parts_of(p) {
        None => false,
        Some((si, f, ues, qfis, sdfs)) => {
            &&& pdi_reads(p)
            &&& pdi.source_interface == si
            &&& pdi.f_teid == match f {
                None => None::<FteidIe>,
                Some(fb) => fteid_of(fb),
            }
            &&& pdi.ue_ip_addresses@ == ues.map_values(|b: Seq<u8>| ue_ip_address_of(b).unwrap())
            &&& pdi.qfis@ == qfis
            &&& pdi.sdf_filters@.map_values(|s: SdfFilter| s.flow_description@) == sdfs
        },
    }
}

/// Reads a PDI IE and the F-TEID, UE IP Addresses and SDF filters it carries;
/// `None` where one of them does not read.
pub fn read_pdi(payload: &[u8]) -> (r: Option<PdiIe>)
    ensures
        r is Some <==> pdi_reads(payload@),
        r matches Some(pdi) ==> is_pdi_of(payload@, pdi),
{
    if payload.len() > IE_PAYLOAD_MAX {
        return None;
    }
    let (source_interface, f, ues, qfis, sdfs) = match read_pdi_parts(payload) {
        Some(parts) => parts,
        None => return None,
    };
    let f_teid = match f {
        None => None,
        Some(fb) => match read_fteid(fb.as_slice()) {
            Some(ft) => Some(ft),
            None => return None,
        },
    };
    let ghost ues_view = crate::wire::payloads(ues@);
    let mut ue_ip_addresses: Vec<UeIpAddressIe> = Vec::new();
    let mut i: usize = 0;
    while i < ues.len()
        invariant
            i <= ues@.len(),
            ues_view == crate::wire::payloads(ues@),
            pdi_parts_of(payload@) matches Some(t) && t.2 == ues_view,
            forall|j: int| 0 <= j < i ==> #[trigger] ue_ip_address_of(ues_view[j]) is Some,
            ue_ip_addresses@ == ues_view.subrange(0, i as int).map_values(
                |b: Seq<u8>| ue_ip_address_of(b).unwrap(),
            ),
        decreases ues@.len() - i,
    {
        match read_ue_ip_address(ues[i].as_slice()) {
            Some(u) => ue_ip_addresses.push(u),
            None => {
                proof {
                    let t = pdi_parts_of(payload@).unwrap();
                    assert(t.2 == ues_view);
                    assert(ue_ip_address_of(t.2[i as int]) is None);
                }
                return None;
            },
        }
        i += 1;
        assert(ue_ip_addresses@ =~= ues_view.subrange(0, i as int).map_values(
            |b: Seq<u8>| ue_ip_address_of(b).unwrap(),
        ));
    }
    assert(ues_view.subrange(0, ues_view.len() as int) =~= ues_view);
    let mut sdf_filters: Vec<SdfFilter> = Vec::new();
    let mut k: usize = 0;
    while k < sdfs.len()
        invariant
            k <= sdfs@.len(),
            sdf_filters@.len() == k,
            forall|j: int| 0 <= j < k ==> #[trigger] sdf_filters@[j].flow_description@ == sdfs@[j]@,
        decreases sdfs@.len() - k,
    {
        let flow_description = sdfs[k].clone();
        sdf_filters.push(SdfFilter { flow_description });
        k += 1;
    }
    assert(sdf_filters@.map_values(|s: SdfFilter| s.flow_description@) =~= sdfs@.map_values(
        |s: String| s@,
    ));
    Some(PdiIe { source_interface, f_teid, ue_ip_addresses, qfis, sdf_filters })
}

/// `r` is what reading the Create PDR IE of payload `p` gives: `None` where
/// it or its PDI does not read, or where the PDI, as written back, does not fit
/// in an IE.
pub open spec fn is_create_pdr_of(p: Seq<u8>, r: Option<CreatePdrIe>) -> bool {
    match create_pdr_parts_of(p) {
        None => r is None,
        Some((pdr_id, precedence, ohr, pdi, far_id, qer_ids, urr_ids)) => if !pdi_reads(pdi) {
            r is None
        } else {
            &&& r is Some
            &&& r->0.pdr_id == pdr_id
            &&& r->0.precedence == precedence
            &&& r->0.outer_header_removal == ohr
            &&& is_pdi_of(pdi, r->0.pdi)
            &&& r->0.far_id == far_id
            &&& r->0.qer_ids@ == qer_ids
            &&& r->0.urr_ids@ == urr_ids
        },
    }
}

/// Reads a Create PDR IE and the PDI it carries.
pub fn read_create_pdr(payload: &[u8]) -> (r: Option<CreatePdrIe>)
    requires
        payload@.len() <= IE_PAYLOAD_MAX,
    ensures
        is_create_pdr_of(payload@, r),
{
    let (pdr_id, precedence, outer_header_removal, pdi_bytes, far_id, qer_ids, urr_ids) =
        match read_create_pdr_parts(payload) {
        Some(parts) => parts,
        None => return None,
    };
    let pdi = match read_pdi(pdi_bytes.as_slice()) {
        Some(pdi) => pdi,
        None => return None,
    };
    Some(CreatePdrIe { pdr_id, precedence, outer_header_removal, pdi, far_id, qer_ids, urr_ids })
}

/// `r` is what reading the Update PDR IE of payload `p` gives: `None` where
/// it or its PDI, where it has one, does not read, or where that PDI, as
/// written back, does not fit in an IE.
pub open spec fn is_update_pdr_of(p: Seq<u8>, r: Option<UpdatePdrIe>) -> bool {
    match update_pdr_parts_of(p) {
        None => r is None,
        Some((pdr_id, precedence, ohr, pdi, far_id, qer_ids, urr_ids)) => if pdi matches Some(b)
            && !pdi_reads(b) {
            r is None
        } else {
            &&& r is Some
            &&& r->0.pdr_id == pdr_id
            &&& r->0.precedence == precedence
            &&& r->0.outer_header_removal == ohr
            &&& match pdi {
                None => r->0.pdi is None,
                Some(b) => r->0.pdi matches Some(d) && is_pdi_of(b, d),
            }
            &&& r->0.far_id == far_id
            &&& r->0.qer_ids@ == qer_ids
            &&& r->0.urr_ids@ == urr_ids
        },
    }
}

/// Reads an Update PDR IE and the PDI it carries, where it has one.
pub fn read_update_pdr(payload: &[u8]) -> (r: Option<UpdatePdrIe>)
    requires
        payload@.len() <= IE_PAYLOAD_MAX,
    ensures
        is_update_pdr_of(payload@, r),
{
    let (pdr_id, precedence, outer_header_removal, pdi_bytes, far_id, qer_ids, urr_ids) =
        match read_update_pdr_parts(payload) {
        Some(parts) => parts,
        None => return None,
    };
    let pdi = match pdi_bytes {
        None => None,
        Some(b) => match read_pdi(b.as_slice()) {
            Some(pdi) => Some(pdi),
            None => return None,
        },
    };
    Some(UpdatePdrIe { pdr_id, precedence, outer_header_removal, pdi, far_id, qer_ids, urr_ids })
}

} // verus!
