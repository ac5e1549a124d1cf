//! The PFCP wire format, through the `rs-pfcp` crate: the type of a message,
//! the IEs, and the answers to requests.
use vstd::prelude::*;

use rs_pfcp::ie::{cause::CauseValue, created_pdr::CreatedPdr, f_teid, pdr_id::PdrId, ue_ip_address};
use rs_pfcp::ie::{Ie, IeType};
use rs_pfcp::message::association_setup_response::AssociationSetupResponseBuilder;
use rs_pfcp::message::session_establishment_response::SessionEstablishmentResponseBuilder;
use rs_pfcp::message::session_modification_response::SessionModificationResponseBuilder;
use rs_pfcp::message::Message;

use rs_pfcp::ie::create_far::CreateFar;
use rs_pfcp::ie::create_pdr::CreatePdr;
use rs_pfcp::ie::forwarding_parameters::ForwardingParameters;
use rs_pfcp::ie::outer_header_creation::OuterHeaderCreation;
use rs_pfcp::ie::pdi::Pdi;
use rs_pfcp::ie::source_interface::SourceInterfaceValue as WireSourceInterface;
use rs_pfcp::ie::update_far::UpdateFar;
use rs_pfcp::ie::update_forwarding_parameters::UpdateForwardingParameters;
use rs_pfcp::ie::update_pdr::UpdatePdr;

use crate::ies::{
    CreateQerIe, CreateUrrIe, CreatedPdrIe, FteidIe, IpAddress, NodeIdValue, NodeIdView,
    OuterHeaderCreationFlags,
    OuterHeaderCreationIe, SourceInterfaceValue, UeIpAddressIe, UpdateQerIe, UpdateUrrIe,
};
use crate::parser::{be16_at, be32_at};

verus! {

/// Most octets an IE's payload, or a message handed to the wire format, can
/// take: an IE's length field has 16 bits, and `rs-pfcp` adds the lengths of
/// the IEs it walks in 16 bits.
pub const IE_PAYLOAD_MAX: usize = 65535;

/// Each payload of a list fits in an IE.
pub open spec fn ie_payloads(ps: Seq<Vec<u8>>) -> bool {
    forall|i: int| 0 <= i < ps.len() ==> #[trigger] ps[i]@.len() <= IE_PAYLOAD_MAX
}

/// Where there is a list, each of its payloads fits in an IE.
pub open spec fn opt_ie_payloads(l: Option<Vec<Vec<u8>>>) -> bool {
    match l {
        Some(ps) => ie_payloads(ps@),
        None => true,
    }
}

/// The payloads of a list, as sequences.
pub open spec fn payloads(ps: Seq<Vec<u8>>) -> Seq<Seq<u8>> {
    ps.map_values(|p: Vec<u8>| p@)
}

/// A rule ID of four octets in network byte order: FAR, QER and URR IDs.
pub open spec fn spec_id32(p: Seq<u8>) -> Option<u32> {
    if p.len() >= 4 {
        Some(be32_at(p, 0))
    } else {
        None
    }
}

/// A PDR ID: two octets in network byte order.
pub open spec fn spec_id16(p: Seq<u8>) -> Option<u16> {
    if p.len() >= 2 {
        Some(be16_at(p, 0))
    } else {
        None
    }
}

/// The SEID of an F-SEID IE: a flags octet (V6 its lowest bit, V4 the next),
/// the SEID in eight octets in network byte order, then the IPv4 address
/// where V4 is set and the IPv6 address where V6 is set.
pub open spec fn spec_fseid_seid(p: Seq<u8>) -> Option<u64> {
    if p.len() < 9 {
        None
    } else {
        let v6 = p[0] & 1 == 1;
        let v4 = p[0] & 2 == 2;
        let need = 9 + (if v4 {
            4int
        } else {
            0
        }) + (if v6 {
            16int
        } else {
            0
        });
        if p.len() < need {
            None
        } else {
            Some((be32_at(p, 1) as int * 0x1_0000_0000 + be32_at(p, 5) as int) as u64)
        }
    }
}

/// The message type of a PFCP message, as `rs_pfcp::message::parse` reads it.
pub uninterp spec fn pfcp_message_type(bytes: Seq<u8>) -> Option<u8>;

/// The Node ID of a Node ID IE as text: an IPv4 or IPv6 address written out,
/// or the FQDN.
pub uninterp spec fn node_id_text(payload: Seq<u8>) -> Option<Seq<char>>;

/// The QER that a Create QER IE names.
pub uninterp spec fn create_qer_of(payload: Seq<u8>) -> Option<CreateQerIe>;

/// The QER that an Update QER IE names.
pub uninterp spec fn update_qer_of(payload: Seq<u8>) -> Option<UpdateQerIe>;

/// The URR that a Create URR IE names.
pub uninterp spec fn create_urr_of(payload: Seq<u8>) -> Option<CreateUrrIe>;

/// The URR that an Update URR IE names.
pub uninterp spec fn update_urr_of(payload: Seq<u8>) -> Option<UpdateUrrIe>;

/// What `CreateFar::unmarshal` reads of a Create FAR IE: the FAR ID, the
/// first octet of the Apply Action, and the Forwarding Parameters as
/// `ForwardingParameters::marshal` writes them back.
pub uninterp spec fn create_far_parts_of(payload: Seq<u8>) -> Option<(u32, u8, Option<Seq<u8>>)>;

/// What `ForwardingParameters::unmarshal` reads: the Destination Interface,
/// the DSCP of the Transport Level Marking, and the Outer Header Creation as
/// `OuterHeaderCreation::marshal` writes it back.
pub uninterp spec fn forwarding_parameters_of(payload: Seq<u8>) -> Option<(u8, Option<u8>, Option<Seq<u8>>)>;

/// What `UpdateFar::unmarshal` reads of an Update FAR IE: the FAR ID, the
/// first octet of the Apply Action, and the Update Forwarding Parameters as
/// `UpdateForwardingParameters::marshal` writes them back.
pub uninterp spec fn update_far_parts_of(payload: Seq<u8>) -> Option<(u32, Option<u8>, Option<Seq<u8>>)>;

/// What `UpdateForwardingParameters::unmarshal` reads: as for the
/// Forwarding Parameters, each part optional.
pub uninterp spec fn update_forwarding_parameters_of(payload: Seq<u8>) -> Option<
    (Option<u8>, Option<u8>, Option<Seq<u8>>),
>;

/// What `OuterHeaderCreation::unmarshal` reads of an Outer Header Creation IE.
pub uninterp spec fn outer_header_creation_of(payload: Seq<u8>) -> Option<OuterHeaderCreationIe>;

/// What `CreatePdr::unmarshal` reads of a Create PDR IE: PDR ID, precedence,
/// Outer Header Removal description, the PDI as `Pdi::marshal` writes it
/// back, FAR ID, QER IDs and URR IDs.
pub uninterp spec fn create_pdr_parts_of(payload: Seq<u8>) -> Option<
    (u16, u32, Option<u8>, Seq<u8>, Option<u32>, Seq<u32>, Seq<u32>),
>;

/// What `UpdatePdr::unmarshal` reads of an Update PDR IE, as for a Create PDR
/// IE with the precedence and the PDI optional.
pub uninterp spec fn update_pdr_parts_of(payload: Seq<u8>) -> Option<
    (u16, Option<u32>, Option<u8>, Option<Seq<u8>>, Option<u32>, Seq<u32>, Seq<u32>),
>;

/// What `Pdi::unmarshal` reads of a PDI IE: the Source Interface, the F-TEID
/// and each UE IP Address as their `marshal` writes them back, the QFIs and
/// the flow description of each SDF Filter.
pub uninterp spec fn pdi_parts_of(payload: Seq<u8>) -> Option<
    (SourceInterfaceValue, Option<Seq<u8>>, Seq<Seq<u8>>, Seq<u8>, Seq<Seq<char>>),
>;

/// What `Fteid::unmarshal` reads of an F-TEID IE.
pub uninterp spec fn fteid_of(payload: Seq<u8>) -> Option<FteidIe>;

/// What `UeIpAddress::unmarshal` reads of a UE IP Address IE.
pub uninterp spec fn ue_ip_address_of(payload: Seq<u8>) -> Option<UeIpAddressIe>;

/// An optional list of octets, as a sequence.
pub open spec fn opt_bytes(b: Option<Vec<u8>>) -> Option<Seq<u8>> {
    match b {
        Some(v) => Some(v@),
        None => None,
    }
}

/// `CreateFar::unmarshal`: the parts of a Create FAR IE, `None` where it does
/// not parse. What they are is only named.
#[verifier::external_body]
pub(crate) fn read_create_far_parts(payload: &[u8]) -> (r: Option<(u32, u8, Option<Vec<u8>>)>)
    requires
        payload@.len() <= IE_PAYLOAD_MAX,
    ensures
        match r {
            Some((id, action, fp)) => create_far_parts_of(payload@) == Some((id, action, opt_bytes(fp))),
            None => create_far_parts_of(payload@) is None,
        },
{
    let f = CreateFar::unmarshal(payload).ok()?;
    Some((f.far_id.value, f.apply_action.octets()[0], f.forwarding_parameters.map(|p| p.marshal())))
}

/// `ForwardingParameters::unmarshal`: its parts, `None` where it does not
/// parse. What they are is only named.
#[verifier::external_body]
pub(crate) fn read_forwarding_parameters(payload: &[u8]) -> (r: Option<(u8, Option<u8>, Option<Vec<u8>>)>)
    requires
        payload@.len() <= IE_PAYLOAD_MAX,
    ensures
        match r {
            Some((di, dscp, ohc)) => forwarding_parameters_of(payload@) == Some((di, dscp, opt_bytes(ohc))),
            None => forwarding_parameters_of(payload@) is None,
        },
{
    let p = ForwardingParameters::unmarshal(payload).ok()?;
    Some((p.destination_interface.interface.into(), p.transport_level_marking.map(|t| t.dscp), p.outer_header_creation.map(|o| o.marshal())))
}

/// `UpdateFar::unmarshal`: the parts of an Update FAR IE, `None` where it does
/// not parse. What they are is only named.
#[verifier::external_body]
pub(crate) fn read_update_far_parts(payload: &[u8]) -> (r: Option<(u32, Option<u8>, Option<Vec<u8>>)>)
    requires
        payload@.len() <= IE_PAYLOAD_MAX,
    ensures
        match r {
            Some((id, action, fp)) => update_far_parts_of(payload@) == Some((id, action, opt_bytes(fp))),
            None => update_far_parts_of(payload@) is None,
        },
{
    let f = UpdateFar::unmarshal(payload).ok()?;
    Some((f.far_id.value, f.apply_action.map(|a| a.octets()[0]), f.update_forwarding_parameters.map(|p| p.marshal())))
}

/// `UpdateForwardingParameters::unmarshal`: its parts, `None` where it does
/// not parse. What they are is only named.
#[verifier::external_body]
pub(crate) fn read_update_forwarding_parameters(payload: &[u8]) -> (r: Option<(Option<u8>, Option<u8>, Option<Vec<u8>>)>)
    requires
        payload@.len() <= IE_PAYLOAD_MAX,
    ensures
        match r {
            Some((di, dscp, ohc)) => update_forwarding_parameters_of(payload@) == Some((di, dscp, opt_bytes(ohc))),
            None => update_forwarding_parameters_of(payload@) is None,
        },
{
    let p = UpdateForwardingParameters::unmarshal(payload).ok()?;
    Some((p.destination_interface.map(|d| d.interface.into()), p.transport_level_marking.map(|t| t.dscp), p.outer_header_creation.map(|o| o.marshal())))
}

/// `OuterHeaderCreation::unmarshal`: the description flags, the TEID and the
/// IPv4 address, `None` where the IE does not parse. What they are is only named.
#[verifier::external_body]
pub(crate) fn read_outer_header_creation(payload: &[u8]) -> (r: Option<OuterHeaderCreationIe>)
    ensures
        r == outer_header_creation_of(payload@),
{
    let o = OuterHeaderCreation::unmarshal(payload).ok()?;
    let d = o.description;
    let description = OuterHeaderCreationFlags { gtpu_udp_ipv4: d.gtpu_udp_ipv4, gtpu_udp_ipv6: d.gtpu_udp_ipv6, udp_ipv4: d.udp_ipv4, udp_ipv6: d.udp_ipv6, ipv4: d.ipv4, ipv6: d.ipv6, ctag: d.ctag, stag: d.stag };
    Some(OuterHeaderCreationIe { description, teid: o.teid.map(|t| t.0), ipv4_address: o.ipv4_address.map(u32::from) })
}

/// `CreatePdr::unmarshal`: the parts of a Create PDR IE, `None` where it does
/// not parse. What they are is only named.
#[verifier::external_body]
pub(crate) fn read_create_pdr_parts(payload: &[u8]) -> (r: Option<(u16, u32, Option<u8>, Vec<u8>, Option<u32>, Vec<u32>, Vec<u32>)>)
    requires
        payload@.len() <= IE_PAYLOAD_MAX,
    ensures
        match r {
            Some((id, prec, ohr, pdi, far, qers, urrs)) => create_pdr_parts_of(payload@) == Some((id, prec, ohr, pdi@, far, qers@, urrs@)),
            None => create_pdr_parts_of(payload@) is None,
        },
{
    let p = CreatePdr::unmarshal(payload).ok()?;
    let qers = p.qer_ids.iter().map(|q| q.value).collect();
    let urrs = p.urr_ids.iter().map(|u| u.id).collect();
    Some((p.pdr_id.value, p.precedence.value, p.outer_header_removal.map(|o| o.description), p.pdi.marshal(), p.far_id.map(|f| f.value), qers, urrs))
}

/// `UpdatePdr::unmarshal`: the parts of an Update PDR IE, `None` where it does
/// not parse. What they are is only named.
#[verifier::external_body]
pub(crate) fn read_update_pdr_parts(payload: &[u8]) -> (r: Option<(u16, Option<u32>, Option<u8>, Option<Vec<u8>>, Option<u32>, Vec<u32>, Vec<u32>)>)
    requires
        payload@.len() <= IE_PAYLOAD_MAX,
    ensures
        match r {
            Some((id, prec, ohr, pdi, far, qers, urrs)) => update_pdr_parts_of(payload@) == Some((id, prec, ohr, opt_bytes(pdi), far, qers@, urrs@)),
            None => update_pdr_parts_of(payload@) is None,
        },
{
    let p = UpdatePdr::unmarshal(payload).ok()?;
    let qers = p.qer_ids.iter().map(|q| q.value).collect();
    let urrs = p.urr_ids.iter().map(|u| u.id).collect();
    Some((p.pdr_id.value, p.precedence.map(|v| v.value), p.outer_header_removal.map(|o| o.description), p.pdi.map(|d| d.marshal()), p.far_id.map(|f| f.value), qers, urrs))
}

/// `Pdi::unmarshal`: the parts of a PDI IE, `None` where it does not parse.
/// What they are is only named.
#[verifier::external_body]
pub(crate) fn read_pdi_parts(payload: &[u8]) -> (r: Option<(SourceInterfaceValue, Option<Vec<u8>>, Vec<Vec<u8>>, Vec<u8>, Vec<String>)>)
    requires
        payload@.len() <= IE_PAYLOAD_MAX,
    ensures
        match r {
            Some((si, f, ues, qfis, sdfs)) => pdi_parts_of(payload@) == Some((si, opt_bytes(f), payloads(ues@), qfis@, sdfs@.map_values(|s: String| s@))),
            None => pdi_parts_of(payload@) is None,
        },
{
    let p = Pdi::unmarshal(payload).ok()?;
    let si = match p.source_interface.value {
        WireSourceInterface::Access => SourceInterfaceValue::Access,
        WireSourceInterface::Core => SourceInterfaceValue::Core,
        WireSourceInterface::SgiLan => SourceInterfaceValue::SgiLan,
        WireSourceInterface::CpFunction => SourceInterfaceValue::CpFunction,
        WireSourceInterface::Unknown => SourceInterfaceValue::Unknown,
    };
    let ues = p.ue_ip_addresses.iter().map(|u| u.marshal()).collect();
    let sdfs = p.sdf_filters.iter().map(|s| s.flow_description.clone()).collect();
    Some((si, p.f_teid.map(|f| f.marshal()), ues, p.qfis.iter().map(|q| q.value()).collect(), sdfs))
}

/// `Fteid::unmarshal`: the flags, TEID, addresses and CHOOSE ID of an F-TEID
/// IE, `None` where it does not parse. What they are is only named.
#[verifier::external_body]
pub(crate) fn read_fteid(payload: &[u8]) -> (r: Option<FteidIe>)
    ensures
        r == fteid_of(payload@),
{
    let f = f_teid::Fteid::unmarshal(payload).ok()?;
    Some(FteidIe { v4: f.v4, v6: f.v6, ch: f.ch, chid: f.chid, teid: f.teid.0, ipv4_address: f.ipv4_address.map(u32::from), ipv6_address: f.ipv6_address.map(u128::from), choose_id: f.choose_id })
}

/// `UeIpAddress::unmarshal`: the flags and addresses of a UE IP Address IE,
/// `None` where it does not parse. What they are is only named.
#[verifier::external_body]
pub(crate) fn read_ue_ip_address(payload: &[u8]) -> (r: Option<UeIpAddressIe>)
    ensures
        r == ue_ip_address_of(payload@),
{
    let u = ue_ip_address::UeIpAddress::unmarshal(payload).ok()?;
    Some(UeIpAddressIe { v4: u.v4, v6: u.v6, choose_ipv4: u.choose_ipv4, choose_ipv6: u.choose_ipv6, ipv4_address: u.ipv4_address.map(u32::from), ipv6_address: u.ipv6_address.map(u128::from) })
}

/// `rs_pfcp::message::parse`: the type of the message that `bytes` holds, or
/// `None` where it does not parse. What the type is, is only named here.
#[verifier::external_body]
pub(crate) fn read_message_type(bytes: &[u8]) -> (r: Option<u8>)
    requires
        bytes@.len() <= IE_PAYLOAD_MAX,
    ensures
        r == pfcp_message_type(bytes@),
{
    match rs_pfcp::message::parse(bytes) {
        Ok(msg) => Some(msg.msg_type() as u8),
        Err(_) => None,
    }
}

/// `rs_pfcp::ie::far_id::FarId::unmarshal`: the FAR ID of the first four
/// octets, `None` for fewer.
#[verifier::external_body]
pub(crate) fn read_far_id(payload: &[u8]) -> (r: Option<u32>)
    ensures
        r == spec_id32(payload@),
{
    rs_pfcp::ie::far_id::FarId::unmarshal(payload).ok().map(|f| f.value)
}

/// `rs_pfcp::ie::qer_id::QerId::unmarshal`: the QER ID of the first four
/// octets, `None` for fewer.
#[verifier::external_body]
pub(crate) fn read_qer_id(payload: &[u8]) -> (r: Option<u32>)
    ensures
        r == spec_id32(payload@),
{
    rs_pfcp::ie::qer_id::QerId::unmarshal(payload).ok().map(|q| q.value)
}

/// `rs_pfcp::ie::urr_id::UrrId::unmarshal`: the URR ID of the first four
/// octets, `None` for fewer.
#[verifier::external_body]
pub(crate) fn read_urr_id(payload: &[u8]) -> (r: Option<u32>)
    ensures
        r == spec_id32(payload@),
{
    rs_pfcp::ie::urr_id::UrrId::unmarshal(payload).ok().map(|u| u.id)
}

/// `rs_pfcp::ie::pdr_id::PdrId::unmarshal`: the PDR ID of the first two
/// octets, `None` for fewer.
#[verifier::external_body]
pub(crate) fn read_pdr_id(payload: &[u8]) -> (r: Option<u16>)
    ensures
        r == spec_id16(payload@),
{
    rs_pfcp::ie::pdr_id::PdrId::unmarshal(payload).ok().map(|p| p.value)
}

/// `rs_pfcp::ie::fseid::Fseid::unmarshal`: the SEID of an F-SEID IE, `None`
/// where the IE is shorter than its flags say.
#[verifier::external_body]
pub(crate) fn read_fseid_seid(payload: &[u8]) -> (r: Option<u64>)
    ensures
        r == spec_fseid_seid(payload@),
{
    rs_pfcp::ie::fseid::Fseid::unmarshal(payload).ok().map(|f| *f.seid)
}

/// `rs_pfcp::ie::node_id::NodeId::unmarshal`: the Node ID as text, `None`
/// where the IE does not parse. The text is only named here; that an empty
/// IE does not parse is stated.
#[verifier::external_body]
pub(crate) fn read_node_id(payload: &[u8]) -> (r: Option<String>)
    ensures
        match r {
            Some(s) => node_id_text(payload@) == Some(s@),
            None => node_id_text(payload@) is None,
        },
        payload@.len() == 0 ==> r is None,
{
    match rs_pfcp::ie::node_id::NodeId::unmarshal(payload) {
        Ok(rs_pfcp::ie::node_id::NodeId::IPv4(a)) => Some(a.to_string()),
        Ok(rs_pfcp::ie::node_id::NodeId::IPv6(a)) => Some(a.to_string()),
        Ok(rs_pfcp::ie::node_id::NodeId::FQDN(fqdn)) => Some(fqdn),
        Err(_) => None,
    }
}

/// `rs_pfcp::ie::recovery_time_stamp::RecoveryTimeStamp::unmarshal`: whether
/// the IE parses. It does not for fewer than four octets, and does for a time
/// stamp of 1970 or later. Whether an earlier one parses depends on the range
/// of the machine's clock and is left unsaid.
#[verifier::external_body]
pub(crate) fn read_recovery_time_stamp(payload: &[u8]) -> (r: bool)
    ensures
        payload@.len() < 4 ==> !r,
        payload@.len() >= 4 && be32_at(payload@, 0) >= 2_208_988_800 ==> r,
{
    rs_pfcp::ie::recovery_time_stamp::RecoveryTimeStamp::unmarshal(payload).is_ok()
}

/// `rs_pfcp::ie::create_qer::CreateQer::unmarshal`: the QER ID of a Create
/// QER IE, `None` where the IE does not parse.
#[verifier::external_body]
pub(crate) fn read_create_qer(payload: &[u8]) -> (r: Option<CreateQerIe>)
    requires
        payload@.len() <= IE_PAYLOAD_MAX,
    ensures
        r == create_qer_of(payload@),
{
    rs_pfcp::ie::create_qer::CreateQer::unmarshal(payload).ok().map(|q| CreateQerIe { qer_id: q.qer_id.value })
}

/// `rs_pfcp::ie::update_qer::UpdateQer::unmarshal`: the QER ID of an Update
/// QER IE, `None` where the IE does not parse.
#[verifier::external_body]
pub(crate) fn read_update_qer(payload: &[u8]) -> (r: Option<UpdateQerIe>)
    requires
        payload@.len() <= IE_PAYLOAD_MAX,
    ensures
        r == update_qer_of(payload@),
{
    rs_pfcp::ie::update_qer::UpdateQer::unmarshal(payload).ok().map(|q| UpdateQerIe { qer_id: q.qer_id.value })
}

/// `rs_pfcp::ie::create_urr::CreateUrr::unmarshal`: the URR ID of a Create
/// URR IE, `None` where the IE does not parse.
#[verifier::external_body]
pub(crate) fn read_create_urr(payload: &[u8]) -> (r: Option<CreateUrrIe>)
    requires
        payload@.len() <= IE_PAYLOAD_MAX,
    ensures
        r == create_urr_of(payload@),
{
    rs_pfcp::ie::create_urr::CreateUrr::unmarshal(payload).ok().map(|u| CreateUrrIe { urr_id: u.urr_id.id })
}

/// `rs_pfcp::ie::update_urr::UpdateUrr::unmarshal`: the URR ID of an Update
/// URR IE, `None` where the IE does not parse.
#[verifier::external_body]
pub(crate) fn read_update_urr(payload: &[u8]) -> (r: Option<UpdateUrrIe>)
    requires
        payload@.len() <= IE_PAYLOAD_MAX,
    ensures
        r == update_urr_of(payload@),
{
    rs_pfcp::ie::update_urr::UpdateUrr::unmarshal(payload).ok().map(|u| UpdateUrrIe { urr_id: u.urr_id.id })
}

/// The payload of the Created PDR IE that tells of a created PDR.
pub uninterp spec fn created_pdr_bytes(c: CreatedPdrIe) -> Seq<u8>;

/// The Session Establishment Response that accepts a request: Node ID and
/// F-SEID of the UPF at `up_ip`, and the Created PDR IEs of payloads `created`.
pub uninterp spec fn establishment_accepted_bytes(
    cp_seid: u64,
    sequence: u32,
    up_seid: u64,
    up_ip: IpAddress,
    created: Seq<Seq<u8>>,
) -> Seq<u8>;

/// Most characters of an FQDN (RFC 1035: 255 octets).
pub const FQDN_MAX: usize = 255;

/// The Association Setup Response that accepts a request, with the Node ID
/// `node_id` and the Recovery Time Stamp IE of payload `recovery_time_stamp`.
pub uninterp spec fn association_accepted_bytes(sequence: u32, node_id: NodeIdView, recovery_time_stamp: Seq<u8>) -> Seq<u8>;

/// `AssociationSetupResponseBuilder::new` with the cause Request Accepted,
/// the Node ID `node_id` (`node_id` for an address, `node_id_fqdn` for an
/// FQDN) and the Recovery Time Stamp IE of payload `recovery_time_stamp`,
/// built and marshalled. Building does not panic: the response has its Cause
/// and Node ID, and with an FQDN of at most 255 characters and a time stamp of
/// four octets the 16-bit lengths that `rs-pfcp` adds do not overflow. The
/// octets are named.
#[verifier::external_body]
pub(crate) fn write_association_accepted(sequence: u32, node_id: &NodeIdValue, recovery_time_stamp: &Vec<u8>) -> (r: Vec<u8>)
    requires
        node_id@ matches NodeIdView::Fqdn(f) ==> f.len() <= FQDN_MAX,
        recovery_time_stamp@.len() == 4,
    ensures
        r@ == association_accepted_bytes(sequence, node_id@, recovery_time_stamp@),
{
    let b = AssociationSetupResponseBuilder::new(sequence).cause(CauseValue::RequestAccepted);
    let b = match node_id {
        NodeIdValue::Ipv4(a) => b.node_id(a.to_be_bytes()),
        NodeIdValue::Ipv6(a) => b.node_id(a.to_be_bytes()),
        NodeIdValue::Fqdn(f) => b.node_id_fqdn(f),
    };
    b.recovery_time_stamp_ie(Ie::new(IeType::RecoveryTimeStamp, recovery_time_stamp.clone())).build().marshal()
}

/// The Session Modification Response that says the session is not found.
pub uninterp spec fn modification_not_found_bytes(up_seid: u64, sequence: u32) -> Seq<u8>;

/// The Session Modification Response that accepts a request, with the
/// Created PDR IEs of payloads `created`.
pub uninterp spec fn modification_accepted_bytes(cp_seid: u64, sequence: u32, created: Seq<Seq<u8>>) -> Seq<u8>;

/// Most octets a Created PDR IE payload takes: a PDR ID, an F-TEID with both
/// addresses and a UE IP Address with both addresses, each with its header.
pub const CREATED_PDR_MAX_LEN: usize = 60;

/// Most Created PDR IEs an answer carries: their lengths add up in a 16-bit
/// message length.
pub const CREATED_PDRS_MAX: usize = 900;

/// `rs_pfcp::ie::created_pdr::CreatedPdr::marshal` on the Created PDR with the
/// PDR ID, the F-TEID (`f_teid::Fteid::new`) and the UE IP Address
/// (`ue_ip_address::UeIpAddress::new`) of `c`. The payload is named, and is at
/// most six octets of PDR ID, 29 of F-TEID and 25 of UE IP Address.
#[verifier::external_body]
pub(crate) fn write_created_pdr(c: &CreatedPdrIe) -> (r: Vec<u8>)
    ensures
        r@ == created_pdr_bytes(*c),
        r@.len() <= CREATED_PDR_MAX_LEN,
{
    let f = c.f_teid.map(|f| f_teid::Fteid::new(f.v4, f.v6, f.teid, f.ipv4_address.map(|a| a.to_be_bytes().into()), f.ipv6_address.map(|a| a.to_be_bytes().into()), f.choose_id));
    let u = c.ue_ip_address.map(|u| ue_ip_address::UeIpAddress::new(u.ipv4_address.map(|a| a.to_be_bytes().into()), u.ipv6_address.map(|a| a.to_be_bytes().into())));
    let mut pdr = CreatedPdr::new(PdrId::new(c.pdr_id));
    if let Some(f) = f {
        pdr = pdr.f_teid(f);
    }
    if let Some(u) = u {
        pdr = pdr.ue_ip_address(u);
    }
    pdr.marshal()
}

/// `SessionEstablishmentResponseBuilder::accepted`, with `node_id` and
/// `fseid` at `up_ip` and each of `created` as a Created PDR IE, built and
/// marshalled. Building does not fail: the response has the Node ID, Cause and
/// F-SEID it needs. The octets are named.
#[verifier::external_body]
pub(crate) fn write_establishment_accepted(cp_seid: u64, sequence: u32, up_seid: u64, up_ip: IpAddress, created: &Vec<Vec<u8>>) -> (r: Vec<u8>)
    requires
        created@.len() <= CREATED_PDRS_MAX,
        forall|i: int| 0 <= i < created@.len() ==> created@[i]@.len() <= CREATED_PDR_MAX_LEN,
    ensures
        r@ == establishment_accepted_bytes(cp_seid, sequence, up_seid, up_ip, payloads(created@)),
{
    let b = SessionEstablishmentResponseBuilder::accepted(cp_seid, sequence);
    let mut b = match up_ip {
        IpAddress::V4(a) => b.node_id(a.to_be_bytes()).fseid(up_seid, a.to_be_bytes()),
        IpAddress::V6(a) => b.node_id(a.to_be_bytes()).fseid(up_seid, a.to_be_bytes()),
    };
    for p in created.iter() {
        b = b.created_pdr(Ie::new(IeType::CreatedPdr, p.clone()));
    }
    match b.build() {
        Ok(m) => m.marshal(),
        Err(_) => Vec::new(),
    }
}

/// `SessionEstablishmentResponseBuilder::new` with SEID 0 and cause Mandatory
/// IE Missing, built: building fails, as the response has no Node ID.
#[verifier::external_body]
pub(crate) fn write_establishment_no_association(sequence: u32) -> (r: Option<Vec<u8>>)
    ensures
        r is None,
{
    SessionEstablishmentResponseBuilder::new(0u64, sequence, CauseValue::MandatoryIeMissing).build().ok().map(|m| m.marshal())
}

/// `SessionModificationResponseBuilder::new` with cause Session Context Not
/// Found, marshalled. The octets are named.
#[verifier::external_body]
pub(crate) fn write_modification_not_found(up_seid: u64, sequence: u32) -> (r: Vec<u8>)
    ensures
        r@ == modification_not_found_bytes(up_seid, sequence),
{
    SessionModificationResponseBuilder::new(up_seid, sequence).cause(CauseValue::SessionContextNotFound).marshal()
}

/// `SessionModificationResponseBuilder::accepted` with each of `created` as a
/// Created PDR IE, marshalled. The octets are named.
#[verifier::external_body]
pub(crate) fn write_modification_accepted(cp_seid: u64, sequence: u32, created: &Vec<Vec<u8>>) -> (r: Vec<u8>)
    requires
        created@.len() <= CREATED_PDRS_MAX,
        forall|i: int| 0 <= i < created@.len() ==> created@[i]@.len() <= CREATED_PDR_MAX_LEN,
    ensures
        r@ == modification_accepted_bytes(cp_seid, sequence, payloads(created@)),
{
    let ies = created.iter().map(|p| Ie::new(IeType::CreatedPdr, p.clone())).collect();
    SessionModificationResponseBuilder::accepted(cp_seid, sequence).created_pdrs(ies).marshal()
}

} // verus!
