//! Reading PFCP requests into the values that their handlers take: the
//! message type and the IEs, read through the wire format.
use vstd::prelude::*;

use crate::ies::{
    CreateFarIe, CreatePdrIe, CreateQerIe, CreateUrrIe, SessionEstablishmentRequestIes,
    SessionModificationRequestIes, UpdateFarIe, UpdatePdrIe, UpdateQerIe, UpdateUrrIe,
};
use crate::parser::be32_at;
use crate::rule_ies::{
    create_far_of, is_create_pdr_of, is_update_pdr_of, read_create_far, read_create_pdr,
    read_update_far, read_update_pdr, update_far_of,
};
use crate::wire::{
    create_qer_of, create_urr_of, node_id_text, pfcp_message_type, read_create_qer,
    read_create_urr, read_far_id, read_fseid_seid, read_message_type, read_node_id, read_pdr_id,
    read_qer_id, read_recovery_time_stamp, read_update_qer, read_update_urr, read_urr_id,
    payloads, spec_fseid_seid, spec_id16, spec_id32, update_qer_of, update_urr_of, ie_payloads,
    opt_ie_payloads, IE_PAYLOAD_MAX,
};

verus! {

/// The PFCP messages that the UPF tells apart.
#[derive(Debug, Clone, Copy, PartialEq, Eq, Structural)]
pub enum PfcpMessageKind {
    HeartbeatRequest,
    AssociationSetupRequest,
    SessionEstablishmentRequest,
    SessionModificationRequest,
    SessionDeletionRequest,
    /// A message of another type, which is not handled.
    Unsupported,
    /// Bytes that do not parse as a PFCP message.
    Unparsable,
}

/// The kind of a message of type `t` (3GPP TS 29.244, Table 7.3-1).
pub open spec fn message_kind(t: Option<u8>) -> PfcpMessageKind {
    match t {
        None => PfcpMessageKind::Unparsable,
        Some(v) => if v == 1 {
            PfcpMessageKind::HeartbeatRequest
        } else if v == 5 {
            PfcpMessageKind::AssociationSetupRequest
        } else if v == 50 {
            PfcpMessageKind::SessionEstablishmentRequest
        } else if v == 52 {
            PfcpMessageKind::SessionModificationRequest
        } else if v == 54 {
            PfcpMessageKind::SessionDeletionRequest
        } else {
            PfcpMessageKind::Unsupported
        },
    }
}

/// Tells what kind of PFCP message `bytes` holds.
pub fn classify_message(bytes: &[u8]) -> (r: PfcpMessageKind)
    requires
        bytes@.len() <= IE_PAYLOAD_MAX,
    ensures
        r == message_kind(pfcp_message_type(bytes@)),
{
    match read_message_type(bytes) {
        None => PfcpMessageKind::Unparsable,
        Some(1) => PfcpMessageKind::HeartbeatRequest,
        Some(5) => PfcpMessageKind::AssociationSetupRequest,
        Some(50) => PfcpMessageKind::SessionEstablishmentRequest,
        Some(52) => PfcpMessageKind::SessionModificationRequest,
        Some(54) => PfcpMessageKind::SessionDeletionRequest,
        Some(_) => PfcpMessageKind::Unsupported,
    }
}

/// An Association Setup Request: its sequence number, and the payloads of its
/// Node ID and Recovery Time Stamp IEs.
pub struct AssociationSetupRequestWire {
    pub sequence: u32,
    pub node_id: Vec<u8>,
    pub recovery_time_stamp: Vec<u8>,
}

/// What reading an Association Setup Request gives.
#[derive(Debug, PartialEq, Eq)]
pub enum AssociationSetupReading {
    /// The Node ID of the requester, as text.
    Read(String),
    /// The Node ID does not parse, which the UPF does not handle.
    NodeIdUnreadable,
    /// The Recovery Time Stamp does not parse, which the UPF does not handle.
    RecoveryTimeStampUnreadable,
}

/// Reads the Node ID and the Recovery Time Stamp of an Association Setup
/// Request, in that order.
pub fn read_association_setup_request(w: &AssociationSetupRequestWire) -> (r: AssociationSetupReading)
    ensures
        node_id_text(w.node_id@) is None <==> r is NodeIdUnreadable,
        r matches AssociationSetupReading::Read(s) ==> node_id_text(w.node_id@) == Some(s@)
            && w.recovery_time_stamp@.len() >= 4,
        node_id_text(w.node_id@) is Some && w.recovery_time_stamp@.len() < 4
            ==> r is RecoveryTimeStampUnreadable,
        node_id_text(w.node_id@) is Some && w.recovery_time_stamp@.len() >= 4 && be32_at(
            w.recovery_time_stamp@,
            0,
        ) >= 2_208_988_800 ==> r is Read,
{
    let rnode_id = match read_node_id(w.node_id.as_slice()) {
        Some(id) => id,
        None => return AssociationSetupReading::NodeIdUnreadable,
    };
    if !read_recovery_time_stamp(w.recovery_time_stamp.as_slice()) {
        return AssociationSetupReading::RecoveryTimeStampUnreadable;
    }
    AssociationSetupReading::Read(rnode_id)
}

/// A Session Establishment Request: its sequence number and the payloads of
/// its F-SEID, Node ID, Create FAR, Create QER, Create URR and Create PDR IEs.
pub struct SessionEstablishmentRequestWire {
    pub sequence: u32,
    pub fseid: Vec<u8>,
    pub node_id: Vec<u8>,
    pub create_fars: Vec<Vec<u8>>,
    pub create_qers: Vec<Vec<u8>>,
    pub create_urrs: Vec<Vec<u8>>,
    pub create_pdrs: Vec<Vec<u8>>,
}

/// A Session Modification Request: its sequence number and SEID, and the
/// payloads of its Remove, Create and Update IEs; each list where the request
/// has one.
pub struct SessionModificationRequestWire {
    pub sequence: u32,
    pub up_seid: Option<u64>,
    pub remove_fars: Option<Vec<Vec<u8>>>,
    pub remove_qers: Option<Vec<Vec<u8>>>,
    pub remove_urrs: Option<Vec<Vec<u8>>>,
    pub remove_pdrs: Option<Vec<Vec<u8>>>,
    pub create_fars: Option<Vec<Vec<u8>>>,
    pub create_qers: Option<Vec<Vec<u8>>>,
    pub create_urrs: Option<Vec<Vec<u8>>>,
    pub create_pdrs: Option<Vec<Vec<u8>>>,
    pub update_fars: Option<Vec<Vec<u8>>>,
    pub update_qers: Option<Vec<Vec<u8>>>,
    pub update_urrs: Option<Vec<Vec<u8>>>,
    pub update_pdrs: Option<Vec<Vec<u8>>>,
}

/// `r` is the Create PDR IEs of the payloads `ps`, each as read.
pub open spec fn create_pdrs_read(ps: Seq<Vec<u8>>, r: Seq<Option<CreatePdrIe>>) -> bool {
    &&& r.len() == ps.len()
    &&& forall|i: int| 0 <= i < ps.len() ==> #[trigger] is_create_pdr_of(ps[i]@, r[i])
}

/// `r` is the Update PDR IEs of the payloads `ps`, each as read.
pub open spec fn update_pdrs_read(ps: Seq<Vec<u8>>, r: Seq<Option<UpdatePdrIe>>) -> bool {
    &&& r.len() == ps.len()
    &&& forall|i: int| 0 <= i < ps.len() ==> #[trigger] is_update_pdr_of(ps[i]@, r[i])
}

/// Where there is a list of Create PDR IEs, it is read into `r`.
pub open spec fn opt_create_pdrs_read(l: Option<Vec<Vec<u8>>>, r: Option<Vec<Option<CreatePdrIe>>>) -> bool {
    match l {
        None => r is None,
        Some(ps) => r matches Some(v) && create_pdrs_read(ps@, v@),
    }
}

/// Where there is a list of Update PDR IEs, it is read into `r`.
pub open spec fn opt_update_pdrs_read(l: Option<Vec<Vec<u8>>>, r: Option<Vec<Option<UpdatePdrIe>>>) -> bool {
    match l {
        None => r is None,
        Some(ps) => r matches Some(v) && update_pdrs_read(ps@, v@),
    }
}

fn read_create_fars(ps: &Vec<Vec<u8>>) -> (r: Vec<Option<CreateFarIe>>)
    requires
        ie_payloads(ps@),
    ensures
        r@ == payloads(ps@).map_values(|p: Seq<u8>| create_far_of(p)),
{
    let mut r: Vec<Option<CreateFarIe>> = Vec::new();
    let mut i: usize = 0;
    while i < ps.len()
        invariant
            ie_payloads(ps@),
            i <= ps@.len(),
            r@ == payloads(ps@.subrange(0, i as int)).map_values(|p: Seq<u8>| create_far_of(p)),
        decreases ps@.len() - i,
    {
        r.push(read_create_far(ps[i].as_slice()));
        i += 1;
        assert(r@ =~= payloads(ps@.subrange(0, i as int)).map_values(|p: Seq<u8>| create_far_of(p)));
    }
    assert(ps@.subrange(0, ps@.len() as int) =~= ps@);
    r
}

fn read_update_fars(ps: &Vec<Vec<u8>>) -> (r: Vec<Option<UpdateFarIe>>)
    requires
        ie_payloads(ps@),
    ensures
        r@ == payloads(ps@).map_values(|p: Seq<u8>| update_far_of(p)),
{
    let mut r: Vec<Option<UpdateFarIe>> = Vec::new();
    let mut i: usize = 0;
    while i < ps.len()
        invariant
            ie_payloads(ps@),
            i <= ps@.len(),
            r@ == payloads(ps@.subrange(0, i as int)).map_values(|p: Seq<u8>| update_far_of(p)),
        decreases ps@.len() - i,
    {
        r.push(read_update_far(ps[i].as_slice()));
        i += 1;
        assert(r@ =~= payloads(ps@.subrange(0, i as int)).map_values(|p: Seq<u8>| update_far_of(p)));
    }
    assert(ps@.subrange(0, ps@.len() as int) =~= ps@);
    r
}

fn read_create_pdrs(ps: &Vec<Vec<u8>>) -> (r: Vec<Option<CreatePdrIe>>)
    requires
        ie_payloads(ps@),
    ensures
        create_pdrs_read(ps@, r@),
{
    let mut r: Vec<Option<CreatePdrIe>> = Vec::new();
    let mut i: usize = 0;
    while i < ps.len()
        invariant
            ie_payloads(ps@),
            i <= ps@.len(),
            r@.len() == i,
            forall|j: int| 0 <= j < i ==> #[trigger] is_create_pdr_of(ps@[j]@, r@[j]),
        decreases ps@.len() - i,
    {
        r.push(read_create_pdr(ps[i].as_slice()));
        i += 1;
    }
    r
}

fn read_update_pdrs(ps: &Vec<Vec<u8>>) -> (r: Vec<Option<UpdatePdrIe>>)
    requires
        ie_payloads(ps@),
    ensures
        update_pdrs_read(ps@, r@),
{
    let mut r: Vec<Option<UpdatePdrIe>> = Vec::new();
    let mut i: usize = 0;
    while i < ps.len()
        invariant
            ie_payloads(ps@),
            i <= ps@.len(),
            r@.len() == i,
            forall|j: int| 0 <= j < i ==> #[trigger] is_update_pdr_of(ps@[j]@, r@[j]),
        decreases ps@.len() - i,
    {
        r.push(read_update_pdr(ps[i].as_slice()));
        i += 1;
    }
    r
}

/// A list where there is one, as a sequence.
pub open spec fn opt_seq<T>(l: Option<Vec<T>>) -> Option<Seq<T>> {
    match l {
        Some(v) => Some(v@),
        None => None,
    }
}

/// Each payload of a list read with `read`, where there is a list.
pub open spec fn read_list<T>(l: Option<Vec<Vec<u8>>>, read: spec_fn(Seq<u8>) -> Option<T>) -> Option<Seq<Option<T>>> {
    match l {
        Some(v) => Some(payloads(v@).map_values(read)),
        None => None,
    }
}

fn read_create_qers(ps: &Vec<Vec<u8>>) -> (r: Vec<Option<CreateQerIe>>)
    requires
        ie_payloads(ps@),
    ensures
        r@ == payloads(ps@).map_values(|p: Seq<u8>| create_qer_of(p)),
{
    let mut r: Vec<Option<CreateQerIe>> = Vec::new();
    let mut i: usize = 0;
    while i < ps.len()
        invariant
            ie_payloads(ps@),
            i <= ps@.len(),
            r@ == payloads(ps@.subrange(0, i as int)).map_values(|p: Seq<u8>| create_qer_of(p)),
        decreases ps@.len() - i,
    {
        r.push(read_create_qer(ps[i].as_slice()));
        i += 1;
        assert(r@ =~= payloads(ps@.subrange(0, i as int)).map_values(|p: Seq<u8>| create_qer_of(p)));
    }
    assert(ps@.subrange(0, ps@.len() as int) =~= ps@);
    r
}

fn read_create_urrs(ps: &Vec<Vec<u8>>) -> (r: Vec<Option<CreateUrrIe>>)
    requires
        ie_payloads(ps@),
    ensures
        r@ == payloads(ps@).map_values(|p: Seq<u8>| create_urr_of(p)),
{
    let mut r: Vec<Option<CreateUrrIe>> = Vec::new();
    let mut i: usize = 0;
    while i < ps.len()
        invariant
            ie_payloads(ps@),
            i <= ps@.len(),
            r@ == payloads(ps@.subrange(0, i as int)).map_values(|p: Seq<u8>| create_urr_of(p)),
        decreases ps@.len() - i,
    {
        r.push(read_create_urr(ps[i].as_slice()));
        i += 1;
        assert(r@ =~= payloads(ps@.subrange(0, i as int)).map_values(|p: Seq<u8>| create_urr_of(p)));
    }
    assert(ps@.subrange(0, ps@.len() as int) =~= ps@);
    r
}

fn read_update_qers(ps: &Vec<Vec<u8>>) -> (r: Vec<Option<UpdateQerIe>>)
    requires
        ie_payloads(ps@),
    ensures
        r@ == payloads(ps@).map_values(|p: Seq<u8>| update_qer_of(p)),
{
    let mut r: Vec<Option<UpdateQerIe>> = Vec::new();
    let mut i: usize = 0;
    while i < ps.len()
        invariant
            ie_payloads(ps@),
            i <= ps@.len(),
            r@ == payloads(ps@.subrange(0, i as int)).map_values(|p: Seq<u8>| update_qer_of(p)),
        decreases ps@.len() - i,
    {
        r.push(read_update_qer(ps[i].as_slice()));
        i += 1;
        assert(r@ =~= payloads(ps@.subrange(0, i as int)).map_values(|p: Seq<u8>| update_qer_of(p)));
    }
    assert(ps@.subrange(0, ps@.len() as int) =~= ps@);
    r
}

fn read_update_urrs(ps: &Vec<Vec<u8>>) -> (r: Vec<Option<UpdateUrrIe>>)
    requires
        ie_payloads(ps@),
    ensures
        r@ == payloads(ps@).map_values(|p: Seq<u8>| update_urr_of(p)),
{
    let mut r: Vec<Option<UpdateUrrIe>> = Vec::new();
    let mut i: usize = 0;
    while i < ps.len()
        invariant
            ie_payloads(ps@),
            i <= ps@.len(),
            r@ == payloads(ps@.subrange(0, i as int)).map_values(|p: Seq<u8>| update_urr_of(p)),
        decreases ps@.len() - i,
    {
        r.push(read_update_urr(ps[i].as_slice()));
        i += 1;
        assert(r@ =~= payloads(ps@.subrange(0, i as int)).map_values(|p: Seq<u8>| update_urr_of(p)));
    }
    assert(ps@.subrange(0, ps@.len() as int) =~= ps@);
    r
}

/// Which rule IDs are read from a list of payloads.
pub enum RuleIdKind {
    Far,
    Qer,
    Urr,
}

fn read_rule_id(kind: &RuleIdKind, p: &[u8]) -> (r: Option<u32>)
    ensures
        r == spec_id32(p@),
{
    match kind {
        RuleIdKind::Far => read_far_id(p),
        RuleIdKind::Qer => read_qer_id(p),
        RuleIdKind::Urr => read_urr_id(p),
    }
}

fn read_rule_ids(kind: &RuleIdKind, ps: &Vec<Vec<u8>>) -> (r: Vec<Option<u32>>)
    ensures
        r@ == payloads(ps@).map_values(|p: Seq<u8>| spec_id32(p)),
{
    let mut r: Vec<Option<u32>> = Vec::new();
    let mut i: usize = 0;
    while i < ps.len()
        invariant
            i <= ps@.len(),
            r@ == payloads(ps@.subrange(0, i as int)).map_values(|p: Seq<u8>| spec_id32(p)),
        decreases ps@.len() - i,
    {
        r.push(read_rule_id(kind, ps[i].as_slice()));
        i += 1;
        assert(r@ =~= payloads(ps@.subrange(0, i as int)).map_values(|p: Seq<u8>| spec_id32(p)));
    }
    assert(ps@.subrange(0, ps@.len() as int) =~= ps@);
    r
}

fn read_pdr_ids(ps: &Vec<Vec<u8>>) -> (r: Vec<Option<u16>>)
    ensures
        r@ == payloads(ps@).map_values(|p: Seq<u8>| spec_id16(p)),
{
    let mut r: Vec<Option<u16>> = Vec::new();
    let mut i: usize = 0;
    while i < ps.len()
        invariant
            i <= ps@.len(),
            r@ == payloads(ps@.subrange(0, i as int)).map_values(|p: Seq<u8>| spec_id16(p)),
        decreases ps@.len() - i,
    {
        r.push(read_pdr_id(ps[i].as_slice()));
        i += 1;
        assert(r@ =~= payloads(ps@.subrange(0, i as int)).map_values(|p: Seq<u8>| spec_id16(p)));
    }
    assert(ps@.subrange(0, ps@.len() as int) =~= ps@);
    r
}

/// Reads the F-SEID, Node ID, Create FAR, Create QER, Create URR and Create
/// PDR IEs of a Session Establishment Request.
pub fn read_session_establishment_request(w: SessionEstablishmentRequestWire) -> (r:
    SessionEstablishmentRequestIes)
    requires
        ie_payloads(w.create_fars@),
        ie_payloads(w.create_qers@),
        ie_payloads(w.create_urrs@),
        ie_payloads(w.create_pdrs@),
    ensures
        r.sequence == w.sequence,
        r.cp_seid == spec_fseid_seid(w.fseid@),
        match r.node_id {
            Some(n) => node_id_text(w.node_id@) == Some(n@),
            None => node_id_text(w.node_id@) is None,
        },
        r.create_fars@ == payloads(w.create_fars@).map_values(|p: Seq<u8>| create_far_of(p)),
        r.create_qers@ == payloads(w.create_qers@).map_values(|p: Seq<u8>| create_qer_of(p)),
        r.create_urrs@ == payloads(w.create_urrs@).map_values(|p: Seq<u8>| create_urr_of(p)),
        create_pdrs_read(w.create_pdrs@, r.create_pdrs@),
{
    let cp_seid = read_fseid_seid(w.fseid.as_slice());
    let node_id = read_node_id(w.node_id.as_slice());
    let create_qers = read_create_qers(&w.create_qers);
    let create_urrs = read_create_urrs(&w.create_urrs);
    let create_fars = read_create_fars(&w.create_fars);
    let create_pdrs = read_create_pdrs(&w.create_pdrs);
    SessionEstablishmentRequestIes {
        sequence: w.sequence,
        cp_seid,
        node_id,
        create_fars,
        create_qers,
        create_urrs,
        create_pdrs,
    }
}

fn read_opt_rule_ids(kind: &RuleIdKind, l: &Option<Vec<Vec<u8>>>) -> (r: Option<Vec<Option<u32>>>)
    ensures
        opt_seq(r) == read_list(*l, |p: Seq<u8>| spec_id32(p)),
{
    match l {
        Some(ps) => Some(read_rule_ids(kind, ps)),
        None => None,
    }
}

/// Reads the Remove, Create and Update IEs of a Session Modification Request.
pub fn read_session_modification_request(w: SessionModificationRequestWire) -> (r:
    SessionModificationRequestIes)
    requires
        opt_ie_payloads(w.create_fars),
        opt_ie_payloads(w.create_qers),
        opt_ie_payloads(w.create_urrs),
        opt_ie_payloads(w.create_pdrs),
        opt_ie_payloads(w.update_fars),
        opt_ie_payloads(w.update_qers),
        opt_ie_payloads(w.update_urrs),
        opt_ie_payloads(w.update_pdrs),
    ensures
        r.sequence == w.sequence,
        r.up_seid == w.up_seid,
        opt_seq(r.remove_fars) == read_list(w.remove_fars, |p: Seq<u8>| spec_id32(p)),
        opt_seq(r.remove_qers) == read_list(w.remove_qers, |p: Seq<u8>| spec_id32(p)),
        opt_seq(r.remove_urrs) == read_list(w.remove_urrs, |p: Seq<u8>| spec_id32(p)),
        opt_seq(r.remove_pdrs) == read_list(w.remove_pdrs, |p: Seq<u8>| spec_id16(p)),
        opt_seq(r.create_fars) == read_list(w.create_fars, |p: Seq<u8>| create_far_of(p)),
        opt_seq(r.create_qers) == read_list(w.create_qers, |p: Seq<u8>| create_qer_of(p)),
        opt_seq(r.create_urrs) == read_list(w.create_urrs, |p: Seq<u8>| create_urr_of(p)),
        opt_create_pdrs_read(w.create_pdrs, r.create_pdrs),
        opt_seq(r.update_fars) == read_list(w.update_fars, |p: Seq<u8>| update_far_of(p)),
        opt_seq(r.update_qers) == read_list(w.update_qers, |p: Seq<u8>| update_qer_of(p)),
        opt_seq(r.update_urrs) == read_list(w.update_urrs, |p: Seq<u8>| update_urr_of(p)),
        opt_update_pdrs_read(w.update_pdrs, r.update_pdrs),
{
    let remove_fars = read_opt_rule_ids(&RuleIdKind::Far, &w.remove_fars);
    let remove_qers = read_opt_rule_ids(&RuleIdKind::Qer, &w.remove_qers);
    let remove_urrs = read_opt_rule_ids(&RuleIdKind::Urr, &w.remove_urrs);
    let remove_pdrs = match &w.remove_pdrs {
        Some(ps) => Some(read_pdr_ids(ps)),
        None => None,
    };
    let create_qers = match &w.create_qers {
        Some(ps) => Some(read_create_qers(ps)),
        None => None,
    };
    let create_urrs = match &w.create_urrs {
        Some(ps) => Some(read_create_urrs(ps)),
        None => None,
    };
    let update_qers = match &w.update_qers {
        Some(ps) => Some(read_update_qers(ps)),
        None => None,
    };
    let update_urrs = match &w.update_urrs {
        Some(ps) => Some(read_update_urrs(ps)),
        None => None,
    };
    let create_fars = match &w.create_fars {
        Some(ps) => Some(read_create_fars(ps)),
        None => None,
    };
    let create_pdrs = match &w.create_pdrs {
        Some(ps) => Some(read_create_pdrs(ps)),
        None => None,
    };
    let update_fars = match &w.update_fars {
        Some(ps) => Some(read_update_fars(ps)),
        None => None,
    };
    let update_pdrs = match &w.update_pdrs {
        Some(ps) => Some(read_update_pdrs(ps)),
        None => None,
    };
    SessionModificationRequestIes {
        sequence: w.sequence,
        up_seid: w.up_seid,
        remove_fars,
        remove_qers,
        remove_urrs,
        remove_pdrs,
        create_fars,
        create_qers,
        create_urrs,
        create_pdrs,
        update_fars,
        update_qers,
        update_urrs,
        update_pdrs,
    }
}

} // verus!
