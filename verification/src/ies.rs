//! The content of the PFCP information elements that the UPF acts on, as
//! plain values, and the errors of handling them.
use vstd::prelude::*;

use crate::iprule_parser::{SdfFilter, SdfFilterError};

verus! {

/// An IPv4 or IPv6 address, as the number its octets spell in network byte order.
#[derive(Debug, Clone, Copy, PartialEq, Eq, Structural)]
pub enum IpAddress {
    V4(u32),
    V6(u128),
}

/// The Outer Header Creation Description: which outer headers to create.
#[derive(Debug, Clone, Copy, PartialEq, Eq, Structural)]
pub struct OuterHeaderCreationFlags {
    pub gtpu_udp_ipv4: bool,
    pub gtpu_udp_ipv6: bool,
    pub udp_ipv4: bool,
    pub udp_ipv6: bool,
    pub ipv4: bool,
    pub ipv6: bool,
    pub ctag: bool,
    pub stag: bool,
}

/// An Outer Header Creation IE: its description, and the TEID and IPv4
/// address of the remote tunnel end where it has them.
#[derive(Debug, Clone, Copy, PartialEq, Eq, Structural)]
pub struct OuterHeaderCreationIe {
    pub description: OuterHeaderCreationFlags,
    pub teid: Option<u32>,
    pub ipv4_address: Option<u32>,
}

/// The Forwarding Parameters of a Create FAR IE.
#[derive(Debug, Clone, Copy, PartialEq, Eq, Structural)]
pub struct ForwardingParametersIe {
    pub destination_interface: u8,
    pub dscp: Option<u8>,
    pub outer_header_creation: Option<OuterHeaderCreationIe>,
}

/// A Create FAR IE; `apply_action` is the first octet of its Apply Action.
#[derive(Debug, Clone, Copy, PartialEq, Eq, Structural)]
pub struct CreateFarIe {
    pub far_id: u32,
    pub apply_action: u8,
    pub forwarding_parameters: Option<ForwardingParametersIe>,
}

/// The Update Forwarding Parameters of an Update FAR IE.
#[derive(Debug, Clone, Copy, PartialEq, Eq, Structural)]
pub struct UpdateForwardingParametersIe {
    pub destination_interface: Option<u8>,
    pub dscp: Option<u8>,
    pub outer_header_creation: Option<OuterHeaderCreationIe>,
}

/// An Update FAR IE.
#[derive(Debug, Clone, Copy, PartialEq, Eq, Structural)]
pub struct UpdateFarIe {
    pub far_id: u32,
    pub apply_action: Option<u8>,
    pub update_forwarding_parameters: Option<UpdateForwardingParametersIe>,
}

/// A Create QER IE.
#[derive(Debug, Clone, Copy, PartialEq, Eq, Structural)]
pub struct CreateQerIe {
    pub qer_id: u32,
}

/// An Update QER IE.
#[derive(Debug, Clone, Copy, PartialEq, Eq, Structural)]
pub struct UpdateQerIe {
    pub qer_id: u32,
}

/// A Create URR IE.
#[derive(Debug, Clone, Copy, PartialEq, Eq, Structural)]
pub struct CreateUrrIe {
    pub urr_id: u32,
}

/// An Update URR IE.
#[derive(Debug, Clone, Copy, PartialEq, Eq, Structural)]
pub struct UpdateUrrIe {
    pub urr_id: u32,
}

/// An F-TEID IE: the flags V4, V6, CH and CHID, the TEID, the addresses, and
/// the CHOOSE ID.
#[derive(Debug, Clone, Copy, PartialEq, Eq, Structural)]
pub struct FteidIe {
    pub v4: bool,
    pub v6: bool,
    pub ch: bool,
    pub chid: bool,
    pub teid: u32,
    pub ipv4_address: Option<u32>,
    pub ipv6_address: Option<u128>,
    pub choose_id: u8,
}

/// A UE IP Address IE: the flags V4, V6, CHV4 and CHV6, and the addresses.
#[derive(Debug, Clone, Copy, PartialEq, Eq, Structural)]
pub struct UeIpAddressIe {
    pub v4: bool,
    pub v6: bool,
    pub choose_ipv4: bool,
    pub choose_ipv6: bool,
    pub ipv4_address: Option<u32>,
    pub ipv6_address: Option<u128>,
}

/// The interface a PDI's packets come from.
#[derive(Debug, Clone, Copy, PartialEq, Eq, Structural)]
pub enum SourceInterfaceValue {
    Access,
    Core,
    SgiLan,
    CpFunction,
    Unknown,
}

/// A PDI IE.
pub struct PdiIe {
    pub source_interface: SourceInterfaceValue,
    pub f_teid: Option<FteidIe>,
    pub ue_ip_addresses: Vec<UeIpAddressIe>,
    pub qfis: Vec<u8>,
    pub sdf_filters: Vec<SdfFilter>,
}

/// A Create PDR IE; `outer_header_removal` is the description octet of its
/// Outer Header Removal.
pub struct CreatePdrIe {
    pub pdr_id: u16,
    pub precedence: u32,
    pub outer_header_removal: Option<u8>,
    pub pdi: PdiIe,
    pub far_id: Option<u32>,
    pub qer_ids: Vec<u32>,
    pub urr_ids: Vec<u32>,
}

/// An Update PDR IE.
pub struct UpdatePdrIe {
    pub pdr_id: u16,
    pub precedence: Option<u32>,
    pub outer_header_removal: Option<u8>,
    pub pdi: Option<PdiIe>,
    pub far_id: Option<u32>,
    pub qer_ids: Vec<u32>,
    pub urr_ids: Vec<u32>,
}

/// A Created PDR IE: what the UPF tells the SMF of a PDR it created.
#[derive(Debug, Clone, Copy, PartialEq, Eq, Structural)]
pub struct CreatedPdrIe {
    pub pdr_id: u16,
    pub f_teid: Option<FteidIe>,
    pub ue_ip_address: Option<UeIpAddressIe>,
}

/// The IEs of a Session Establishment Request that the UPF acts on. An IE
/// that could not be read is `None`.
pub struct SessionEstablishmentRequestIes {
    pub sequence: u32,
    /// The SEID of the request's CP F-SEID.
    pub cp_seid: Option<u64>,
    /// The request's Node ID, as text.
    pub node_id: Option<String>,
    pub create_fars: Vec<Option<CreateFarIe>>,
    pub create_qers: Vec<Option<CreateQerIe>>,
    pub create_urrs: Vec<Option<CreateUrrIe>>,
    pub create_pdrs: Vec<Option<CreatePdrIe>>,
}

/// How a Session Establishment Request is answered.
pub enum SessionEstablishmentResponseIes {
    /// There is no association with the requester: the answer has SEID 0 and
    /// the cause Mandatory IE Missing.
    NoAssociation { sequence: u32 },
    /// The session was established: the answer has the CP SEID, the local
    /// SEID for the UP F-SEID, and the Created PDR IEs.
    Accepted { cp_seid: u64, sequence: u32, up_seid: u64, created_pdrs: Vec<CreatedPdrIe> },
}

/// The IEs of a Session Modification Request that the UPF acts on. A list
/// the request does not have is `None`; an IE that could not be read is
/// `None` in its list.
pub struct SessionModificationRequestIes {
    pub sequence: u32,
    /// The SEID of the request's header.
    pub up_seid: Option<u64>,
    pub remove_fars: Option<Vec<Option<u32>>>,
    pub remove_qers: Option<Vec<Option<u32>>>,
    pub remove_urrs: Option<Vec<Option<u32>>>,
    pub remove_pdrs: Option<Vec<Option<u16>>>,
    pub create_fars: Option<Vec<Option<CreateFarIe>>>,
    pub create_qers: Option<Vec<Option<CreateQerIe>>>,
    pub create_urrs: Option<Vec<Option<CreateUrrIe>>>,
    pub create_pdrs: Option<Vec<Option<CreatePdrIe>>>,
    pub update_fars: Option<Vec<Option<UpdateFarIe>>>,
    pub update_qers: Option<Vec<Option<UpdateQerIe>>>,
    pub update_urrs: Option<Vec<Option<UpdateUrrIe>>>,
    pub update_pdrs: Option<Vec<Option<UpdatePdrIe>>>,
}

/// How a Session Modification Request is answered.
pub enum SessionModificationResponseIes {
    /// There is no session of that SEID: the answer has the SEID and the
    /// cause Session Context Not Found.
    SessionNotFound { up_seid: u64, sequence: u32 },
    /// The request was accepted: the answer has the session's CP SEID and the
    /// Created PDR IEs.
    Accepted { cp_seid: u64, sequence: u32, created_pdrs: Vec<CreatedPdrIe> },
}

/// A Node ID as its IE carries it: an IPv4 address, an IPv6 address or an
/// FQDN.
#[derive(Debug, Clone, PartialEq, Eq)]
pub enum NodeIdValue {
    Ipv4(u32),
    Ipv6(u128),
    Fqdn(String),
}

/// A Node ID, with the FQDN as its characters.
pub ghost enum NodeIdView {
    Ipv4(u32),
    Ipv6(u128),
    Fqdn(Seq<char>),
}

impl View for NodeIdValue {
    type V = NodeIdView;

    open spec fn view(&self) -> NodeIdView {
        match self {
            NodeIdValue::Ipv4(a) => NodeIdView::Ipv4(*a),
            NodeIdValue::Ipv6(a) => NodeIdView::Ipv6(*a),
            NodeIdValue::Fqdn(f) => NodeIdView::Fqdn(f@),
        }
    }
}

/// Why handling a PFCP request failed.
#[derive(Debug, Clone, Copy, PartialEq, Eq, Structural)]
pub enum UpfError {
    /// An F-TEID has neither the V4 nor the V6 flag.
    FteidWithoutAddress,
    /// An F-TEID to be chosen asks for IPv6, and GTP-U has no IPv6 address.
    FteidIpv6Unavailable,
    /// A PDI holds more than one UE IP Address.
    TooManyUeIpAddresses,
    /// A UE IP Address has none of the flags V4, V6, CHV4 and CHV6.
    UeIpWithoutAddress,
    /// A UE IP Address has the V4 flag and no IPv4 address.
    UeIpv4Missing,
    /// A UE IP Address has the V6 flag and no IPv6 address.
    UeIpv6Missing,
    /// An SDF filter of a PDI was refused.
    SdfFilter(SdfFilterError),
    /// The request has no SEID.
    MissingSeid,
    /// The request's Node ID could not be read.
    InvalidNodeId,
    /// A Create FAR IE could not be read.
    InvalidCreateFar,
    /// A Create QER IE could not be read.
    InvalidCreateQer,
    /// A Create URR IE could not be read.
    InvalidCreateUrr,
    /// A Create PDR IE could not be read.
    InvalidCreatePdr,
    /// A Remove FAR IE could not be read.
    InvalidRemoveFar,
    /// A Remove QER IE could not be read.
    InvalidRemoveQer,
    /// A Remove URR IE could not be read.
    InvalidRemoveUrr,
    /// A Remove PDR IE could not be read.
    InvalidRemovePdr,
    /// An Update FAR IE could not be read.
    InvalidUpdateFar,
    /// An Update QER IE could not be read.
    InvalidUpdateQer,
    /// An Update URR IE could not be read.
    InvalidUpdateUrr,
    /// An Update PDR IE could not be read.
    InvalidUpdatePdr,
    /// The session to compile has no local TEID.
    SessionWithoutTeid,
    /// The session to compile has no UE IP address.
    SessionWithoutUeIp,
}

} // verus!
