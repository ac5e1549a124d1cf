//! PFCP sessions and the handling of the requests that create and modify them.
use vstd::prelude::*;

use std::collections::HashMap;

use crate::far::FarInfo;
use crate::ies::{
    CreateFarIe, CreatePdrIe, CreatedPdrIe, SessionEstablishmentRequestIes,
    SessionEstablishmentResponseIes, SessionModificationRequestIes,
    SessionModificationResponseIes, UpdateFarIe, UpdatePdrIe, UpfError,
};
use crate::pdr::PdrInfo;
use crate::pfcp::{association_index, lemma_association_index_first, seid_allocated, PfcpContext};
use crate::qer::QerInfo;
use crate::rules::far::{
    create_far_panics, create_far_rule, remove_far_rule, spec_create_far_rule, spec_far_of_create,
    spec_update_far_rule, update_far_rule,
};
use crate::rules::pdr::{
    create_pdr_rule, holds_created_pdr, is_updated_pdr_info, remove_pdr_rule, spec_created_pdr,
    session_with_fteid, session_with_ue,
    spec_read_create_pdr, spec_read_update_pdr, update_pdr_rule, PdrReading, UpdateReading,
};
use crate::rules::qer::{create_qer_rule, remove_qer_rule, update_qer_rule};
use crate::rules::urr::{create_urr_rule, remove_urr_rule, update_urr_rule};
use crate::rules::helpers::{spec_pdi_ue_ips, ReadOutcome};
use crate::urr::UrrInfo;

verus! {

/// The rules of a PFCP session, as the UPF keeps them until they are compiled
/// into the datapath's maps.
pub struct PfcpSession {
    pub cp_seid: u64,
    /// The Node ID of the control plane function, the key of its association.
    pub remote_nodeid: String,
    /// Uplink PDRs by PDR ID.
    pub ul_pdrs: HashMap<u16, PdrInfo>,
    /// Downlink PDRs by PDR ID.
    pub dl_pdrs: HashMap<u16, PdrInfo>,
    /// FARs by FAR ID.
    pub fars: HashMap<u32, FarInfo>,
    pub qers: HashMap<u32, QerInfo>,
    pub urrs: HashMap<u32, UrrInfo>,
    /// The local TEID of the session's uplink tunnel, once a PDR set it.
    pub teid: Option<u32>,
    /// The UE's IPv4 address, once a PDR set it.
    pub ue_ipv4: Option<u32>,
    /// The UE's IPv6 address, once a PDR set it.
    pub ue_ipv6: Option<u128>,
}

/// What a session holds, its maps as maps.
pub struct SessionView {
    pub cp_seid: u64,
    pub remote_nodeid: Seq<char>,
    pub ul_pdrs: Map<u16, PdrInfo>,
    pub dl_pdrs: Map<u16, PdrInfo>,
    pub fars: Map<u32, FarInfo>,
    pub qers: Map<u32, QerInfo>,
    pub urrs: Map<u32, UrrInfo>,
    pub teid: Option<u32>,
    pub ue_ipv4: Option<u32>,
    pub ue_ipv6: Option<u128>,
}

impl View for PfcpSession {
    type V = SessionView;

    open spec fn view(&self) -> SessionView {
        SessionView {
            cp_seid: self.cp_seid,
            remote_nodeid: self.remote_nodeid@,
            ul_pdrs: self.ul_pdrs@,
            dl_pdrs: self.dl_pdrs@,
            fars: self.fars@,
            qers: self.qers@,
            urrs: self.urrs@,
            teid: self.teid,
            ue_ipv4: self.ue_ipv4,
            ue_ipv6: self.ue_ipv6,
        }
    }
}

impl Clone for PfcpSession {
    fn clone(&self) -> (r: Self)
        ensures
            r@ == self@,
    {
        PfcpSession {
            cp_seid: self.cp_seid,
            remote_nodeid: self.remote_nodeid.clone(),
            ul_pdrs: self.ul_pdrs.clone(),
            dl_pdrs: self.dl_pdrs.clone(),
            fars: self.fars.clone(),
            qers: self.qers.clone(),
            urrs: self.urrs.clone(),
            teid: self.teid,
            ue_ipv4: self.ue_ipv4,
            ue_ipv6: self.ue_ipv6,
        }
    }
}

/// A session of the control plane function `remote_nodeid` that holds no rule yet.
pub open spec fn empty_session(remote_nodeid: Seq<char>, cp_seid: u64) -> SessionView {
    SessionView {
        cp_seid,
        remote_nodeid,
        ul_pdrs: Map::empty(),
        dl_pdrs: Map::empty(),
        fars: Map::empty(),
        qers: Map::empty(),
        urrs: Map::empty(),
        teid: None,
        ue_ipv4: None,
        ue_ipv6: None,
    }
}

impl PfcpSession {
    pub fn new(remote_nodeid: String, cp_seid: u64) -> (r: Self)
        ensures
            r@ == empty_session(remote_nodeid@, cp_seid),
    {
        Self {
            cp_seid,
            remote_nodeid,
            ul_pdrs: HashMap::new(),
            dl_pdrs: HashMap::new(),
            fars: HashMap::new(),
            qers: HashMap::new(),
            urrs: HashMap::new(),
            teid: None,
            ue_ipv4: None,
            ue_ipv6: None,
        }
    }

    pub fn cp_seid(&self) -> (r: u64)
        ensures
            r == self.cp_seid,
    {
        self.cp_seid
    }

    pub fn insert_ul_pdr(&mut self, id: u16, info: PdrInfo)
        ensures
            final(self)@ == (SessionView { ul_pdrs: old(self)@.ul_pdrs.insert(id, info), ..old(self)@ }),
    {
        self.ul_pdrs.insert(id, info);
    }

    pub fn insert_dl_pdr(&mut self, id: u16, info: PdrInfo)
        ensures
            final(self)@ == (SessionView { dl_pdrs: old(self)@.dl_pdrs.insert(id, info), ..old(self)@ }),
    {
        self.dl_pdrs.insert(id, info);
    }

    pub fn insert_far(&mut self, id: u32, info: FarInfo)
        ensures
            final(self)@ == (SessionView { fars: old(self)@.fars.insert(id, info), ..old(self)@ }),
    {
        self.fars.insert(id, info);
    }

    pub fn teid(&self) -> (r: Option<u32>)
        ensures
            r == self.teid,
    {
        self.teid
    }

    pub fn set_teid(&mut self, teid: u32)
        ensures
            final(self)@ == (SessionView { teid: Some(teid), ..old(self)@ }),
    {
        self.teid = Some(teid);
    }

    pub fn ue_ipv4(&self) -> (r: Option<u32>)
        ensures
            r == self.ue_ipv4,
    {
        self.ue_ipv4
    }

    pub fn set_ue_ipv4(&mut self, ue_ipv4: u32)
        ensures
            final(self)@ == (SessionView { ue_ipv4: Some(ue_ipv4), ..old(self)@ }),
    {
        self.ue_ipv4 = Some(ue_ipv4);
    }

    pub fn ue_ipv6(&self) -> (r: Option<u128>)
        ensures
            r == self.ue_ipv6,
    {
        self.ue_ipv6
    }

    pub fn set_ue_ipv6(&mut self, ue_ipv6: u128)
        ensures
            final(self)@ == (SessionView { ue_ipv6: Some(ue_ipv6), ..old(self)@ }),
    {
        self.ue_ipv6 = Some(ue_ipv6);
    }
}


/// Applying Create FAR IEs in turn to a session: the first that could not be
/// read refuses the request.
pub open spec fn spec_create_fars(s: SessionView, fars: Seq<Option<CreateFarIe>>) -> Result<
    SessionView,
    UpfError,
>
    decreases fars.len(),
{
    if fars.len() == 0 {
        Ok(s)
    } else {
        match spec_create_fars(s, fars.drop_last()) {
            Err(e) => Err(e),
            Ok(s1) => match fars.last() {
                None => Err(UpfError::InvalidCreateFar),
                Some(f) => Ok(spec_create_far_rule(s1, f)),
            },
        }
    }
}

/// Whether applying Create FAR IEs in turn reaches one that panics.
pub open spec fn create_fars_panic(s: SessionView, fars: Seq<Option<CreateFarIe>>) -> bool
    decreases fars.len(),
{
    if fars.len() == 0 {
        false
    } else if create_fars_panic(s, fars.drop_last()) {
        true
    } else {
        spec_create_fars(s, fars.drop_last()) is Ok && match fars.last() {
            Some(f) => create_far_panics(f),
            None => false,
        }
    }
}

proof fn lemma_create_fars_prefix(s: SessionView, fars: Seq<Option<CreateFarIe>>, i: int)
    requires
        0 <= i <= fars.len(),
    ensures
        spec_create_fars(s, fars.subrange(0, i)) is Err ==> spec_create_fars(s, fars)
            == spec_create_fars(s, fars.subrange(0, i)),
        create_fars_panic(s, fars.subrange(0, i)) ==> create_fars_panic(s, fars),
    decreases fars.len() - i,
{
    if i < fars.len() {
        assert(fars.subrange(0, i + 1).drop_last() =~= fars.subrange(0, i));
        lemma_create_fars_prefix(s, fars, i + 1);
    } else {
        assert(fars.subrange(0, i) =~= fars);
    }
}

/// Whether every IE of a list could be read.
pub open spec fn all_read<T>(items: Seq<Option<T>>) -> bool {
    forall|i: int| 0 <= i < items.len() ==> items[i] is Some
}

/// Creating the PDR of `ie` turns session `before` into `after` and is
/// answered by `created`.
pub open spec fn pdr_step(
    gtp_addr_v6: Option<u128>,
    before: SessionView,
    ie: Option<CreatePdrIe>,
    after: SessionView,
    created: CreatedPdrIe,
) -> bool {
    match ie {
        Some(p) => match spec_read_create_pdr(gtp_addr_v6, before, &p) {
            PdrReading::Read(s, rd) => created == spec_created_pdr(p.pdr_id, rd) && holds_created_pdr(
                after,
                s,
                &p,
                rd,
            ),
            _ => false,
        },
        None => false,
    }
}

/// The session runs through `views` as the PDRs of `pdrs` are created in
/// turn, each answered by the matching entry of `created`.
pub open spec fn creates_pdrs(
    gtp_addr_v6: Option<u128>,
    views: Seq<SessionView>,
    pdrs: Seq<Option<CreatePdrIe>>,
    created: Seq<CreatedPdrIe>,
) -> bool {
    &&& views.len() == pdrs.len() + 1
    &&& created.len() == pdrs.len()
    &&& forall|i: int|
        0 <= i < pdrs.len() ==> #[trigger] pdr_step(
            gtp_addr_v6,
            views[i],
            pdrs[i],
            views[i + 1],
            created[i],
        )
}

/// How creating the PDR of `ie` on session `s` fails, if it does.
pub open spec fn pdr_failure(gtp_addr_v6: Option<u128>, s: SessionView, ie: Option<CreatePdrIe>) -> Option<
    UpfError,
> {
    match ie {
        None => Some(UpfError::InvalidCreatePdr),
        Some(p) => match spec_read_create_pdr(gtp_addr_v6, s, &p) {
            PdrReading::Refused(_, e) => Some(e),
            _ => None,
        },
    }
}

/// Whether creating the PDR of `ie` on session `s` panics.
pub open spec fn pdr_panics(gtp_addr_v6: Option<u128>, s: SessionView, ie: Option<CreatePdrIe>) -> bool {
    match ie {
        Some(p) => spec_read_create_pdr(gtp_addr_v6, s, &p) is Panics,
        None => false,
    }
}

/// Whether creating the PDRs of `pdrs` in turn on session `s` reaches one
/// that panics.
pub open spec fn create_pdrs_panic(
    gtp_addr_v6: Option<u128>,
    s: SessionView,
    pdrs: Seq<Option<CreatePdrIe>>,
) -> bool {
    exists|k: int, views: Seq<SessionView>, created: Seq<CreatedPdrIe>|
        #![trigger creates_pdrs(gtp_addr_v6, views, pdrs.subrange(0, k), created)]
        0 <= k < pdrs.len() && views.len() > 0 && views[0] == s && creates_pdrs(
            gtp_addr_v6,
            views,
            pdrs.subrange(0, k),
            created,
        ) && pdr_panics(gtp_addr_v6, views.last(), pdrs[k])
}

/// Creating the PDRs of `pdrs` in turn on session `s` stops, at the PDR `k`,
/// with the error `e`.
pub open spec fn create_pdrs_fail(
    gtp_addr_v6: Option<u128>,
    s: SessionView,
    pdrs: Seq<Option<CreatePdrIe>>,
    e: UpfError,
) -> bool {
    exists|k: int, views: Seq<SessionView>, created: Seq<CreatedPdrIe>|
        #![trigger creates_pdrs(gtp_addr_v6, views, pdrs.subrange(0, k), created)]
        0 <= k < pdrs.len() && views.len() > 0 && views[0] == s && creates_pdrs(
            gtp_addr_v6,
            views,
            pdrs.subrange(0, k),
            created,
        ) && pdr_failure(gtp_addr_v6, views.last(), pdrs[k]) == Some(e)
}

/// Creating the PDRs of `pdrs` in turn on session `s` goes through, ending in
/// session `last`, the PDRs answered by `created`.
pub open spec fn create_pdrs_done(
    gtp_addr_v6: Option<u128>,
    s: SessionView,
    pdrs: Seq<Option<CreatePdrIe>>,
    last: SessionView,
    created: Seq<CreatedPdrIe>,
) -> bool {
    exists|views: Seq<SessionView>|
        #![trigger creates_pdrs(gtp_addr_v6, views, pdrs, created)]
        views.len() > 0 && views[0] == s && creates_pdrs(gtp_addr_v6, views, pdrs, created)
            && views.last() == last
}

/// The session that a Session Establishment Request builds before its PDRs,
/// or the error that stops it.
pub open spec fn spec_session_before_pdrs(
    s: SessionView,
    req: &SessionEstablishmentRequestIes,
) -> Result<SessionView, UpfError> {
    match spec_create_fars(s, req.create_fars@) {
        Err(e) => Err(e),
        Ok(s1) => if !all_read(req.create_qers@) {
            Err(UpfError::InvalidCreateQer)
        } else if !all_read(req.create_urrs@) {
            Err(UpfError::InvalidCreateUrr)
        } else {
            Ok(s1)
        },
    }
}

/// How far a Session Establishment Request gets before the session is built.
pub ghost enum EstablishmentStage {
    /// The request has no SEID or no readable Node ID.
    Refused(UpfError),
    /// There is no association with the requester.
    NoAssociation,
    /// The association `i` hands out the local SEID `up_seid`, and the
    /// session is built from `session`.
    Build { i: int, up_seid: u64, session: SessionView },
}

/// The first steps of handling a Session Establishment Request.
pub open spec fn establishment_stage(
    assocs: Seq<(String, crate::association::PfcpAssociation)>,
    req: &SessionEstablishmentRequestIes,
) -> EstablishmentStage {
    match req.cp_seid {
        None => EstablishmentStage::Refused(UpfError::MissingSeid),
        Some(cp_seid) => match req.node_id {
            None => EstablishmentStage::Refused(UpfError::InvalidNodeId),
            Some(node_id) => match association_index(assocs, node_id@) {
                None => EstablishmentStage::NoAssociation,
                Some(i) => EstablishmentStage::Build {
                    i,
                    up_seid: (assocs[i].1.lseid + 1) as u64,
                    session: empty_session(node_id@, cp_seid),
                },
            },
        },
    }
}

/// Whether handling a Session Establishment Request panics: on the last
/// local SEID of the association running out, on a FAR that panics, or on a
/// PDR that panics.
pub open spec fn establishment_panics(ctx: &PfcpContext, req: &SessionEstablishmentRequestIes) -> bool {
    match establishment_stage(ctx.associations@, req) {
        EstablishmentStage::Build { i, up_seid, session } => ctx.associations@[i].1.lseid == u64::MAX
            || create_fars_panic(session, req.create_fars@) || match spec_session_before_pdrs(
            session,
            req,
        ) {
            Ok(s) => create_pdrs_panic(ctx.gtp_addr_v6, s, req.create_pdrs@),
            Err(_) => false,
        },
        _ => false,
    }
}

/// Once applying Create FAR IEs stops without a panic, no longer list of
/// them panics.
proof fn lemma_create_fars_stopped(s: SessionView, fars: Seq<Option<CreateFarIe>>, i: int)
    requires
        0 <= i <= fars.len(),
        spec_create_fars(s, fars.subrange(0, i)) is Err,
        !create_fars_panic(s, fars.subrange(0, i)),
    ensures
        !create_fars_panic(s, fars),
    decreases fars.len() - i,
{
    if i < fars.len() {
        let next = fars.subrange(0, i + 1);
        assert(next.drop_last() =~= fars.subrange(0, i));
        lemma_create_fars_stopped(s, fars, i + 1);
    } else {
        assert(fars.subrange(0, i) =~= fars);
    }
}

/// Applies the Create FAR IEs of `fars` in turn to `session`, as long as each
/// could be read; tells whether one of them panics and, where none does,
/// whether each could be read.
fn create_fars_would_panic(session: &mut PfcpSession, fars: &Vec<Option<CreateFarIe>>) -> (r: (bool, bool))
    ensures
        r.0 == create_fars_panic(old(session)@, fars@),
        !r.0 ==> (r.1 <==> spec_create_fars(old(session)@, fars@) is Ok),
        !r.0 && r.1 ==> spec_create_fars(old(session)@, fars@) == Ok::<SessionView, UpfError>(final(session)@),
{
    let ghost s0 = session@;
    let mut idx: usize = 0;
    while idx < fars.len()
        invariant
            s0 == old(session)@,
            idx <= fars@.len(),
            !create_fars_panic(s0, fars@.subrange(0, idx as int)),
            spec_create_fars(s0, fars@.subrange(0, idx as int)) == Ok::<SessionView, UpfError>(session@),
        decreases fars@.len() - idx,
    {
        let ghost prefix = fars@.subrange(0, idx + 1);
        assert(prefix.drop_last() =~= fars@.subrange(0, idx as int));
        match &fars[idx] {
            Some(far) => {
                if crate::rules::checks::create_far_would_panic(far) {
                    proof {
                        lemma_create_fars_prefix(s0, fars@, idx + 1);
                    }
                    return (true, false);
                }
                create_far_rule(far, session);
            },
            None => {
                proof {
                    lemma_create_fars_stopped(s0, fars@, idx + 1);
                    lemma_create_fars_prefix(s0, fars@, idx + 1);
                }
                return (false, false);
            },
        }
        idx += 1;
    }
    assert(fars@.subrange(0, fars@.len() as int) =~= fars@);
    (false, true)
}

/// The IDs of the uplink PDRs once the PDR of `ie` is created on a session
/// whose uplink PDR IDs are `d`: a PDR without a UE address joins them.
pub open spec fn ul_ids_step(d: Set<u16>, ie: Option<CreatePdrIe>) -> Set<u16> {
    match ie {
        Some(p) => match spec_pdi_ue_ips(&p.pdi) {
            ReadOutcome::Read(Some(_)) => d,
            _ => d.insert(p.pdr_id),
        },
        None => d,
    }
}

/// The IDs of the uplink PDRs once the PDRs of `pdrs` are created in turn.
pub open spec fn ul_ids_after(d: Set<u16>, pdrs: Seq<Option<CreatePdrIe>>) -> Set<u16>
    decreases pdrs.len(),
{
    if pdrs.len() == 0 {
        d
    } else {
        ul_ids_step(ul_ids_after(d, pdrs.drop_last()), pdrs.last())
    }
}

proof fn lemma_pdr_step_ul_ids(
    gtp_addr_v6: Option<u128>,
    before: SessionView,
    ie: Option<CreatePdrIe>,
    after: SessionView,
    c: CreatedPdrIe,
)
    requires
        pdr_step(gtp_addr_v6, before, ie, after, c),
    ensures
        after.ul_pdrs.dom() == ul_ids_step(before.ul_pdrs.dom(), ie),
{
    let p = ie.unwrap();
    match spec_read_create_pdr(gtp_addr_v6, before, &p) {
        PdrReading::Read(s, rd) => {
            assert(s.ul_pdrs == before.ul_pdrs);
            if rd.ue is Some {
                assert(after.ul_pdrs == s.ul_pdrs);
            } else {
                assert(after.ul_pdrs.dom() =~= before.ul_pdrs.dom().insert(p.pdr_id));
            }
        },
        _ => {},
    }
}

proof fn lemma_chain_ul_ids(
    gtp_addr_v6: Option<u128>,
    views: Seq<SessionView>,
    pdrs: Seq<Option<CreatePdrIe>>,
    created: Seq<CreatedPdrIe>,
    i: int,
)
    requires
        creates_pdrs(gtp_addr_v6, views, pdrs, created),
        0 <= i <= pdrs.len(),
    ensures
        views[i].ul_pdrs.dom() == ul_ids_after(views[0].ul_pdrs.dom(), pdrs.subrange(0, i)),
    decreases i,
{
    if i > 0 {
        lemma_chain_ul_ids(gtp_addr_v6, views, pdrs, created, i - 1);
        let j = i - 1;
        assert(pdr_step(gtp_addr_v6, views[j], pdrs[j], views[j + 1], created[j]));
        lemma_pdr_step_ul_ids(gtp_addr_v6, views[j], pdrs[j], views[j + 1], created[j]);
        assert(pdrs.subrange(0, i).drop_last() =~= pdrs.subrange(0, i - 1));
    } else {
        assert(pdrs.subrange(0, 0).len() == 0);
    }
}

/// Whether the Create PDR IE `ie` reads on session `t`.
pub open spec fn pdr_reads_on(gtp_addr_v6: Option<u128>, ie: Option<CreatePdrIe>, t: SessionView) -> bool {
    match ie {
        Some(p) => spec_read_create_pdr(gtp_addr_v6, t, &p) is Read,
        None => false,
    }
}

/// Whether some PDR of a chain from `s` panics, where the PDRs before `j`
/// read on every session and `pdrs[j]` does not read on any: none does.
proof fn lemma_pdrs_stop_without_panic(
    gtp_addr_v6: Option<u128>,
    s: SessionView,
    pdrs: Seq<Option<CreatePdrIe>>,
    j: int,
)
    requires
        0 <= j < pdrs.len(),
        forall|k: int, t: SessionView| 0 <= k < j ==> #[trigger] pdr_reads_on(gtp_addr_v6, pdrs[k], t),
        forall|t: SessionView| !#[trigger] pdr_reads_on(gtp_addr_v6, pdrs[j], t),
        forall|t: SessionView| !#[trigger] pdr_panics(gtp_addr_v6, t, pdrs[j]),
    ensures
        !create_pdrs_panic(gtp_addr_v6, s, pdrs),
        forall|s2: SessionView, created: Seq<CreatedPdrIe>| !#[trigger] create_pdrs_done(gtp_addr_v6, s, pdrs, s2, created),
{
    assert forall|s2: SessionView, created: Seq<CreatedPdrIe>| !#[trigger] create_pdrs_done(gtp_addr_v6, s, pdrs, s2, created) by {
        if create_pdrs_done(gtp_addr_v6, s, pdrs, s2, created) {
            let views = choose|views: Seq<SessionView>| views.len() > 0 && views[0] == s && creates_pdrs(gtp_addr_v6, views, pdrs, created)
                && views.last() == s2;
            assert(pdr_step(gtp_addr_v6, views[j], pdrs[j], views[j + 1], created[j]));
            assert(!pdr_reads_on(gtp_addr_v6, pdrs[j], views[j]));
        }
    }
    assert forall|k: int, views: Seq<SessionView>, created: Seq<CreatedPdrIe>|
        0 <= k < pdrs.len() && views.len() > 0 && views[0] == s && #[trigger] creates_pdrs(
            gtp_addr_v6,
            views,
            pdrs.subrange(0, k),
            created,
        ) implies !pdr_panics(gtp_addr_v6, views.last(), pdrs[k]) by {
        if k > j {
            assert(pdr_step(gtp_addr_v6, views[j], pdrs.subrange(0, k)[j], views[j + 1], created[j]));
            assert(!pdr_reads_on(gtp_addr_v6, pdrs[j], views[j]));
        } else if k < j {
            assert(pdr_reads_on(gtp_addr_v6, pdrs[k], views.last()));
        } else {
            assert(!pdr_panics(gtp_addr_v6, views.last(), pdrs[j]));
        }
    }
}

/// Creates the PDRs of `pdrs` in turn on `session` where each reads, telling
/// whether one of them panics and, where none does, whether all are created.
fn create_pdrs_would_panic(ctx: &PfcpContext, session: &mut PfcpSession, pdrs: &Vec<Option<CreatePdrIe>>) -> (r:
    (bool, bool))
    ensures
        r.0 == create_pdrs_panic(ctx.gtp_addr_v6, old(session)@, pdrs@),
        !r.0 && r.1 ==> exists|created: Seq<CreatedPdrIe>|
            create_pdrs_done(ctx.gtp_addr_v6, old(session)@, pdrs@, final(session)@, created),
        !r.0 && r.1 ==> forall|s2: SessionView, created: Seq<CreatedPdrIe>|
            #[trigger] create_pdrs_done(ctx.gtp_addr_v6, old(session)@, pdrs@, s2, created)
                ==> s2.ul_pdrs.dom() == final(session)@.ul_pdrs.dom(),
        !r.0 && !r.1 ==> forall|s2: SessionView, created: Seq<CreatedPdrIe>|
            !#[trigger] create_pdrs_done(ctx.gtp_addr_v6, old(session)@, pdrs@, s2, created),
{
    let ghost s0 = session@;
    let ghost mut views: Seq<SessionView> = seq![s0];
    let ghost mut created: Seq<CreatedPdrIe> = Seq::empty();
    let mut idx: usize = 0;
    while idx < pdrs.len()
        invariant
            s0 == old(session)@,
            idx <= pdrs@.len(),
            views.len() > 0,
            views[0] == s0,
            views.last() == session@,
            creates_pdrs(ctx.gtp_addr_v6, views, pdrs@.subrange(0, idx as int), created),
            forall|k: int, t: SessionView| 0 <= k < idx ==> #[trigger] pdr_reads_on(ctx.gtp_addr_v6, pdrs@[k], t),
        decreases pdrs@.len() - idx,
    {
        match &pdrs[idx] {
            None => {
                proof {
                    lemma_pdrs_stop_without_panic(ctx.gtp_addr_v6, s0, pdrs@, idx as int);
                }
                return (false, false);
            },
            Some(pdr) => {
                let check = crate::rules::checks::check_create_pdr(ctx.gtp_addr_v6, pdr);
                proof {
                    assert forall|t: SessionView| #[trigger] spec_read_create_pdr(ctx.gtp_addr_v6, t, pdr) is Read
                        <==> check == crate::rules::checks::ReadCheck::Reads by {
                        assert(crate::rules::checks::pdr_reading_check(spec_read_create_pdr(ctx.gtp_addr_v6, t, pdr)) == check);
                    }
                    assert forall|t: SessionView| #[trigger] spec_read_create_pdr(ctx.gtp_addr_v6, t, pdr) is Panics
                        <==> check == crate::rules::checks::ReadCheck::Panics by {
                        assert(crate::rules::checks::pdr_reading_check(spec_read_create_pdr(ctx.gtp_addr_v6, t, pdr)) == check);
                    }
                }
                match check {
                    crate::rules::checks::ReadCheck::Panics => {
                        proof {
                            let t = views.last();
                            assert(spec_read_create_pdr(ctx.gtp_addr_v6, t, pdr) is Panics);
                            assert(pdr_panics(ctx.gtp_addr_v6, views.last(), pdrs@[idx as int]));
                            assert(creates_pdrs(ctx.gtp_addr_v6, views, pdrs@.subrange(0, idx as int), created));
                        }
                        return (true, false);
                    },
                    crate::rules::checks::ReadCheck::Refused => {
                        proof {
                            lemma_pdrs_stop_without_panic(ctx.gtp_addr_v6, s0, pdrs@, idx as int);
                        }
                        return (false, false);
                    },
                    crate::rules::checks::ReadCheck::Reads => {
                        proof {
                            let t = views.last();
                            assert(spec_read_create_pdr(ctx.gtp_addr_v6, t, pdr) is Read);
                        }
                        match create_pdr_step(ctx, session, &pdrs[idx]) {
                            Ok(c) => {
                                proof {
                                    lemma_extend_pdr_chain(
                                        ctx.gtp_addr_v6,
                                        views,
                                        pdrs@,
                                        created,
                                        idx as int,
                                        session@,
                                        c,
                                    );
                                    views = views.push(session@);
                                    created = created.push(c);
                                }
                            },
                            Err(_) => {
                                proof {
                                    let t = views.last();
                                    assert(spec_read_create_pdr(ctx.gtp_addr_v6, t, pdr) is Read);
                                }
                                return (false, false);
                            },
                        }
                    },
                }
            },
        }
        idx += 1;
    }
    proof {
        assert forall|k: int, vs: Seq<SessionView>, cs: Seq<CreatedPdrIe>|
            0 <= k < pdrs@.len() && vs.len() > 0 && vs[0] == s0 && #[trigger] creates_pdrs(
                ctx.gtp_addr_v6,
                vs,
                pdrs@.subrange(0, k),
                cs,
            ) implies !pdr_panics(ctx.gtp_addr_v6, vs.last(), pdrs@[k]) by {
            assert(pdr_reads_on(ctx.gtp_addr_v6, pdrs@[k], vs.last()));
        }
        assert(pdrs@.subrange(0, pdrs@.len() as int) =~= pdrs@);
        assert(create_pdrs_done(ctx.gtp_addr_v6, s0, pdrs@, session@, created));
        assert forall|s2: SessionView, cs: Seq<CreatedPdrIe>|
            #[trigger] create_pdrs_done(ctx.gtp_addr_v6, s0, pdrs@, s2, cs)
                implies s2.ul_pdrs.dom() == session@.ul_pdrs.dom() by {
            let vs = choose|vs: Seq<SessionView>| vs.len() > 0 && vs[0] == s0 && creates_pdrs(ctx.gtp_addr_v6, vs, pdrs@, cs)
                && vs.last() == s2;
            lemma_chain_ul_ids(ctx.gtp_addr_v6, vs, pdrs@, cs, pdrs@.len() as int);
            lemma_chain_ul_ids(ctx.gtp_addr_v6, views, pdrs@, created, pdrs@.len() as int);
        }
    }
    (false, true)
}

/// Whether handling a Session Establishment Request would panic: it is
/// followed on a copy of the session it builds up to the first rule that
/// panics, is refused or cannot be read.
#[verifier::loop_isolation(false)]
pub fn establishment_would_panic(ctx: &PfcpContext, req: &SessionEstablishmentRequestIes) -> (r: bool)
    ensures
        r == establishment_panics(ctx, req),
{
    let cp_seid = match req.cp_seid {
        Some(seid) => seid,
        None => return false,
    };
    let node_id = match &req.node_id {
        Some(node_id) => node_id,
        None => return false,
    };
    proof {
        lemma_association_index_first(ctx.associations@, node_id@);
    }
    let i = match ctx.find_association(node_id) {
        Some(i) => i,
        None => return false,
    };
    let n = ctx.associations.len();
    assert(association_index(ctx.associations@, node_id@) == Some(i as int));
    assert(req.cp_seid == Some(cp_seid));
    assert(req.node_id == Some(*node_id));
    let ghost stage = establishment_stage(ctx.associations@, req);
    assert(stage == EstablishmentStage::Build {
        i: i as int,
        up_seid: (ctx.associations@[i as int].1.lseid + 1) as u64,
        session: empty_session(node_id@, cp_seid),
    });
    if ctx.associations[i].1.lseid == u64::MAX {
        return true;
    }
    let mut session = PfcpSession::new(node_id.clone(), cp_seid);
    let ghost s0 = session@;
    let (fars_panic, fars_read) = create_fars_would_panic(&mut session, &req.create_fars);
    if fars_panic {
        return true;
    }
    if !fars_read {
        return false;
    }
    let mut j: usize = 0;
    while j < req.create_qers.len()
        invariant
            j <= req.create_qers@.len(),
            forall|k: int| 0 <= k < j ==> req.create_qers@[k] is Some,
        decreases req.create_qers@.len() - j,
    {
        if req.create_qers[j].is_none() {
            assert(!all_read(req.create_qers@));
            return false;
        }
        j += 1;
    }
    let mut j: usize = 0;
    while j < req.create_urrs.len()
        invariant
            j <= req.create_urrs@.len(),
            forall|k: int| 0 <= k < j ==> req.create_urrs@[k] is Some,
        decreases req.create_urrs@.len() - j,
    {
        if req.create_urrs[j].is_none() {
            assert(!all_read(req.create_urrs@));
            return false;
        }
        j += 1;
    }
    let (pdrs_panic, _) = create_pdrs_would_panic(ctx, &mut session, &req.create_pdrs);
    pdrs_panic
}

/// Handles a Session Establishment Request: allocates a local SEID from the
/// requester's association, builds the session from the request's FARs,
/// QERs, URRs and PDRs, stores it under the local SEID, and answers with the
/// PDRs created.
pub fn handle_session_establishment_request(
    ctx: &mut PfcpContext,
    req: &SessionEstablishmentRequestIes,
) -> (r: Result<SessionEstablishmentResponseIes, UpfError>)
    requires
        !establishment_panics(old(ctx), req),
    ensures
        crate::pfcp::distinct_node_ids(old(ctx).associations@) ==> crate::pfcp::distinct_node_ids(
            final(ctx).associations@,
        ),
        final(ctx).node_id == old(ctx).node_id,
        final(ctx).gtp_addr_v4 == old(ctx).gtp_addr_v4,
        final(ctx).gtp_addr_v6 == old(ctx).gtp_addr_v6,
        final(ctx).resource_manager == old(ctx).resource_manager,
        match establishment_stage(old(ctx).associations@, req) {
            EstablishmentStage::Refused(e) => r == Err::<SessionEstablishmentResponseIes, UpfError>(e)
                && final(ctx).associations@ == old(ctx).associations@ && final(ctx).sessions@ == old(ctx).sessions@,
            EstablishmentStage::NoAssociation => r matches Ok(
                SessionEstablishmentResponseIes::NoAssociation { sequence },
            ) && sequence == req.sequence && final(ctx).associations@ == old(ctx).associations@
                && final(ctx).sessions@ == old(ctx).sessions@,
            EstablishmentStage::Build { i, up_seid, session } => {
                &&& seid_allocated(old(ctx).associations@, final(ctx).associations@, i)
                &&& match spec_session_before_pdrs(session, req) {
                    Err(e) => r == Err::<SessionEstablishmentResponseIes, UpfError>(e) && final(ctx).sessions@ == old(ctx).sessions@,
                    Ok(s) => match r {
                        Ok(SessionEstablishmentResponseIes::Accepted {
                            cp_seid,
                            sequence,
                            up_seid: u,
                            created_pdrs,
                        }) => {
                            &&& cp_seid == req.cp_seid.unwrap()
                            &&& sequence == req.sequence
                            &&& u == up_seid
                            &&& final(ctx).sessions@.contains_key(up_seid)
                            &&& final(ctx).sessions@ == old(ctx).sessions@.insert(
                                up_seid,
                                final(ctx).sessions@[up_seid],
                            )
                            &&& create_pdrs_done(
                                old(ctx).gtp_addr_v6,
                                s,
                                req.create_pdrs@,
                                final(ctx).sessions@[up_seid]@,
                                created_pdrs@,
                            )
                        },
                        Ok(SessionEstablishmentResponseIes::NoAssociation { .. }) => false,
                        Err(e) => create_pdrs_fail(old(ctx).gtp_addr_v6, s, req.create_pdrs@, e)
                            && final(ctx).sessions@ == old(ctx).sessions@,
                    },
                }
            },
        },
{
    proof {
        if let Some(node_id) = &req.node_id {
            lemma_association_index_first(ctx.associations@, node_id@);
        }
    }
    let cp_seid = match req.cp_seid {
        Some(seid) => seid,
        None => return Err(UpfError::MissingSeid),
    };
    let cp_nodeid = match &req.node_id {
        Some(node_id) => node_id.clone(),
        None => return Err(UpfError::InvalidNodeId),
    };
    let up_seid: u64 = match ctx.allocate_up_seid(&cp_nodeid) {
        Some(seid) => seid,
        None => return Ok(SessionEstablishmentResponseIes::NoAssociation { sequence: req.sequence }),
    };
    let mut session = PfcpSession::new(cp_nodeid, cp_seid);
    let created_pdrs = match build_session(ctx, &mut session, req) {
        Ok(created) => created,
        Err(e) => return Err(e),
    };
    let ghost last = session@;
    ctx.insert_session(up_seid, session);
    assert(ctx.sessions@[up_seid]@ == last);
    Ok(
        SessionEstablishmentResponseIes::Accepted {
            cp_seid,
            sequence: req.sequence,
            up_seid,
            created_pdrs,
        },
    )
}

/// Creates the PDR of one Create PDR IE of a request.
fn create_pdr_step(
    ctx: &PfcpContext,
    session: &mut PfcpSession,
    ie: &Option<CreatePdrIe>,
) -> (r: Result<CreatedPdrIe, UpfError>)
    requires
        !pdr_panics(ctx.gtp_addr_v6, old(session)@, *ie),
    ensures
        match r {
            Ok(c) => pdr_step(ctx.gtp_addr_v6, old(session)@, *ie, final(session)@, c),
            Err(e) => pdr_failure(ctx.gtp_addr_v6, old(session)@, *ie) == Some(e),
        },
        r is Ok ==> final(session)@.cp_seid == old(session)@.cp_seid,
{
    match ie {
        Some(received_pdr) => create_pdr_rule(received_pdr, ctx, session),
        None => Err(UpfError::InvalidCreatePdr),
    }
}

/// A chain of created PDRs grows by one step.
proof fn lemma_extend_pdr_chain(
    gtp_addr_v6: Option<u128>,
    views: Seq<SessionView>,
    pdrs: Seq<Option<CreatePdrIe>>,
    created: Seq<CreatedPdrIe>,
    i: int,
    after: SessionView,
    c: CreatedPdrIe,
)
    requires
        0 <= i < pdrs.len(),
        creates_pdrs(gtp_addr_v6, views, pdrs.subrange(0, i), created),
        pdr_step(gtp_addr_v6, views.last(), pdrs[i], after, c),
    ensures
        creates_pdrs(gtp_addr_v6, views.push(after), pdrs.subrange(0, i + 1), created.push(c)),
{
    let nv = views.push(after);
    let pre = pdrs.subrange(0, i + 1);
    let nc = created.push(c);
    assert forall|j: int| 0 <= j < pre.len() implies #[trigger] pdr_step(
        gtp_addr_v6,
        nv[j],
        pre[j],
        nv[j + 1],
        nc[j],
    ) by {
        if j < i {
            assert(pdr_step(gtp_addr_v6, views[j], pdrs.subrange(0, i)[j], views[j + 1], created[j]));
        }
    }
}

/// Creates the PDRs of Create PDR IEs in turn; gives the Created PDR IEs.
fn create_pdrs(
    ctx: &PfcpContext,
    session: &mut PfcpSession,
    pdrs: &Vec<Option<CreatePdrIe>>,
) -> (r: Result<Vec<CreatedPdrIe>, UpfError>)
    requires
        !create_pdrs_panic(ctx.gtp_addr_v6, old(session)@, pdrs@),
    ensures
        match r {
            Ok(created) => create_pdrs_done(
                ctx.gtp_addr_v6,
                old(session)@,
                pdrs@,
                final(session)@,
                created@,
            ),
            Err(e) => create_pdrs_fail(ctx.gtp_addr_v6, old(session)@, pdrs@, e),
        },
        r is Ok ==> final(session)@.cp_seid == old(session)@.cp_seid,
{
    let ghost s_pdrs = session@;
    let mut created_pdrs: Vec<CreatedPdrIe> = Vec::new();
    let ghost mut views: Seq<SessionView> = seq![s_pdrs];
    let mut idx: usize = 0;
    while idx < pdrs.len()
        invariant
            s_pdrs == old(session)@,
            session@.cp_seid == s_pdrs.cp_seid,
            idx <= pdrs@.len(),
            !create_pdrs_panic(ctx.gtp_addr_v6, s_pdrs, pdrs@),
            views.len() > 0,
            views[0] == s_pdrs,
            views.last() == session@,
            creates_pdrs(
                ctx.gtp_addr_v6,
                views,
                pdrs@.subrange(0, idx as int),
                created_pdrs@,
            ),
        decreases pdrs@.len() - idx,
    {
        let ghost before = session@;
        assert(!pdr_panics(ctx.gtp_addr_v6, views.last(), pdrs@[idx as int]));
        match create_pdr_step(ctx, session, &pdrs[idx]) {
            Ok(created) => {
                proof {
                    lemma_extend_pdr_chain(
                        ctx.gtp_addr_v6,
                        views,
                        pdrs@,
                        created_pdrs@,
                        idx as int,
                        session@,
                        created,
                    );
                    views = views.push(session@);
                }
                created_pdrs.push(created);
            },
            Err(e) => {
                return Err(e);
            },
        }
        idx += 1;
    }
    assert(pdrs@.subrange(0, pdrs@.len() as int) =~= pdrs@);
    assert(creates_pdrs(ctx.gtp_addr_v6, views, pdrs@, created_pdrs@));
    Ok(created_pdrs)
}

/// Builds a session from the FARs, QERs, URRs and PDRs of a Session
/// Establishment Request, in that order; gives the Created PDR IEs.
fn build_session(
    ctx: &PfcpContext,
    session: &mut PfcpSession,
    req: &SessionEstablishmentRequestIes,
) -> (r: Result<Vec<CreatedPdrIe>, UpfError>)
    requires
        !create_fars_panic(old(session)@, req.create_fars@),
        spec_session_before_pdrs(old(session)@, req) matches Ok(s) ==> !create_pdrs_panic(
            ctx.gtp_addr_v6,
            s,
            req.create_pdrs@,
        ),
    ensures
        match spec_session_before_pdrs(old(session)@, req) {
            Err(e) => r == Err::<Vec<CreatedPdrIe>, UpfError>(e),
            Ok(s) => match r {
                Ok(created) => create_pdrs_done(
                    ctx.gtp_addr_v6,
                    s,
                    req.create_pdrs@,
                    final(session)@,
                    created@,
                ),
                Err(e) => create_pdrs_fail(ctx.gtp_addr_v6, s, req.create_pdrs@, e),
            },
        },
{
    let ghost s0 = session@;


    let mut idx: usize = 0;
    while idx < req.create_fars.len()
        invariant
            s0 == old(session)@,
            idx <= req.create_fars@.len(),
            !create_fars_panic(s0, req.create_fars@),
            spec_create_fars(s0, req.create_fars@.subrange(0, idx as int)) == Ok::<
                SessionView,
                UpfError,
            >(session@),
            !create_fars_panic(s0, req.create_fars@.subrange(0, idx as int)),
        decreases req.create_fars@.len() - idx,
    {
        let ghost prefix = req.create_fars@.subrange(0, idx + 1);
        assert(prefix.drop_last() =~= req.create_fars@.subrange(0, idx as int));
        match &req.create_fars[idx] {
            Some(received_far) => {
                proof {
                    lemma_create_fars_prefix(s0, req.create_fars@, idx + 1);
                }
                create_far_rule(received_far, session);
            },
            None => {
                proof {
                    lemma_create_fars_prefix(s0, req.create_fars@, idx + 1);
                }
                return Err(UpfError::InvalidCreateFar);
            },
        }
        idx += 1;
    }
    assert(req.create_fars@.subrange(0, req.create_fars@.len() as int) =~= req.create_fars@);

    let mut idx: usize = 0;
    while idx < req.create_qers.len()
        invariant
            s0 == old(session)@,
            idx <= req.create_qers@.len(),
            forall|j: int| 0 <= j < idx ==> req.create_qers@[j] is Some,
            spec_create_fars(s0, req.create_fars@) == Ok::<SessionView, UpfError>(session@),
        decreases req.create_qers@.len() - idx,
    {
        match &req.create_qers[idx] {
            Some(received_qer) => create_qer_rule(received_qer, session),
            None => {
                assert(!all_read(req.create_qers@));
                return Err(UpfError::InvalidCreateQer);
            },
        }
        idx += 1;
    }

    let mut idx: usize = 0;
    while idx < req.create_urrs.len()
        invariant
            s0 == old(session)@,
            idx <= req.create_urrs@.len(),
            forall|j: int| 0 <= j < idx ==> req.create_urrs@[j] is Some,
            all_read(req.create_qers@),
            spec_create_fars(s0, req.create_fars@) == Ok::<SessionView, UpfError>(session@),
        decreases req.create_urrs@.len() - idx,
    {
        match &req.create_urrs[idx] {
            Some(received_urr) => create_urr_rule(received_urr, session),
            None => {
                assert(!all_read(req.create_urrs@));
                return Err(UpfError::InvalidCreateUrr);
            },
        }
        idx += 1;
    }
    let ghost s_pdrs = session@;
    assert(spec_session_before_pdrs(s0, req) == Ok::<SessionView, UpfError>(s_pdrs));

    create_pdrs(ctx, session, &req.create_pdrs)
}


/// The entries of a list that a request may lack: none where it lacks it.
pub open spec fn listed<T>(list: Option<Vec<T>>) -> Seq<T> {
    match list {
        Some(v) => v@,
        None => Seq::empty(),
    }
}

/// Applying Update FAR IEs in turn to a session: the first that could not
/// be read refuses the request.
pub open spec fn spec_update_fars(s: SessionView, fars: Seq<Option<UpdateFarIe>>) -> Result<
    SessionView,
    UpfError,
>
    decreases fars.len(),
{
    if fars.len() == 0 {
        Ok(s)
    } else {
        match spec_update_fars(s, fars.drop_last()) {
            Err(e) => Err(e),
            Ok(s1) => match fars.last() {
                None => Err(UpfError::InvalidUpdateFar),
                Some(f) => Ok(spec_update_far_rule(s1, f)),
            },
        }
    }
}

proof fn lemma_update_fars_prefix(s: SessionView, fars: Seq<Option<UpdateFarIe>>, i: int)
    requires
        0 <= i <= fars.len(),
    ensures
        spec_update_fars(s, fars.subrange(0, i)) is Err ==> spec_update_fars(s, fars)
            == spec_update_fars(s, fars.subrange(0, i)),
    decreases fars.len() - i,
{
    if i < fars.len() {
        assert(fars.subrange(0, i + 1).drop_last() =~= fars.subrange(0, i));
        lemma_update_fars_prefix(s, fars, i + 1);
    } else {
        assert(fars.subrange(0, i) =~= fars);
    }
}

/// Applying the Update PDR IE `ie` turns session `before` into `after`: an
/// uplink PDR it names is updated, and a session without it is unchanged.
pub open spec fn update_step(
    gtp_addr_v6: Option<u128>,
    before: SessionView,
    ie: Option<UpdatePdrIe>,
    after: SessionView,
) -> bool {
    match ie {
        Some(u) => match spec_read_update_pdr(gtp_addr_v6, before, &u) {
            UpdateReading::Missing => after == before,
            UpdateReading::Read(rd) => {
                &&& after.ul_pdrs.contains_key(u.pdr_id)
                &&& is_updated_pdr_info(after.ul_pdrs[u.pdr_id], before.ul_pdrs[u.pdr_id], &u, rd)
                &&& after == SessionView {
                    ul_pdrs: before.ul_pdrs.insert(u.pdr_id, after.ul_pdrs[u.pdr_id]),
                    ..before
                }
            },
            _ => false,
        },
        None => false,
    }
}

/// The session runs through `views` as the Update PDR IEs `updates` are
/// applied in turn.
pub open spec fn updates_pdrs(
    gtp_addr_v6: Option<u128>,
    views: Seq<SessionView>,
    updates: Seq<Option<UpdatePdrIe>>,
) -> bool {
    &&& views.len() == updates.len() + 1
    &&& forall|i: int|
        0 <= i < updates.len() ==> #[trigger] update_step(gtp_addr_v6, views[i], updates[i], views[i + 1])
}

/// How applying the Update PDR IE `ie` to session `s` fails, if it does.
pub open spec fn update_failure(gtp_addr_v6: Option<u128>, s: SessionView, ie: Option<UpdatePdrIe>) -> Option<
    UpfError,
> {
    match ie {
        None => Some(UpfError::InvalidUpdatePdr),
        Some(u) => match spec_read_update_pdr(gtp_addr_v6, s, &u) {
            UpdateReading::Refused(_, e) => Some(e),
            _ => None,
        },
    }
}

/// Whether applying the Update PDR IE `ie` to session `s` panics.
pub open spec fn update_panics(gtp_addr_v6: Option<u128>, s: SessionView, ie: Option<UpdatePdrIe>) -> bool {
    match ie {
        Some(u) => spec_read_update_pdr(gtp_addr_v6, s, &u) is Panics,
        None => false,
    }
}

/// Whether applying the Update PDR IEs in turn to `s` reaches one that panics.
pub open spec fn update_pdrs_panic(
    gtp_addr_v6: Option<u128>,
    s: SessionView,
    updates: Seq<Option<UpdatePdrIe>>,
) -> bool {
    exists|k: int, views: Seq<SessionView>|
        #![trigger updates_pdrs(gtp_addr_v6, views, updates.subrange(0, k))]
        0 <= k < updates.len() && views.len() > 0 && views[0] == s && updates_pdrs(
            gtp_addr_v6,
            views,
            updates.subrange(0, k),
        ) && update_panics(gtp_addr_v6, views.last(), updates[k])
}

/// Applying the Update PDR IEs in turn to `s` stops with the error `e`.
pub open spec fn update_pdrs_fail(
    gtp_addr_v6: Option<u128>,
    s: SessionView,
    updates: Seq<Option<UpdatePdrIe>>,
    e: UpfError,
) -> bool {
    exists|k: int, views: Seq<SessionView>|
        #![trigger updates_pdrs(gtp_addr_v6, views, updates.subrange(0, k))]
        0 <= k < updates.len() && views.len() > 0 && views[0] == s && updates_pdrs(
            gtp_addr_v6,
            views,
            updates.subrange(0, k),
        ) && update_failure(gtp_addr_v6, views.last(), updates[k]) == Some(e)
}

/// Applying the Update PDR IEs in turn to `s` goes through and gives `last`.
pub open spec fn update_pdrs_done(
    gtp_addr_v6: Option<u128>,
    s: SessionView,
    updates: Seq<Option<UpdatePdrIe>>,
    last: SessionView,
) -> bool {
    exists|views: Seq<SessionView>|
        #![trigger updates_pdrs(gtp_addr_v6, views, updates)]
        views.len() > 0 && views[0] == s && updates_pdrs(gtp_addr_v6, views, updates) && views.last()
            == last
}

/// The checks of the Remove IEs of a Session Modification Request: the first
/// list with an IE that could not be read refuses the request.
pub open spec fn spec_check_removals(req: &SessionModificationRequestIes) -> Result<(), UpfError> {
    if !all_read(listed(req.remove_fars)) {
        Err(UpfError::InvalidRemoveFar)
    } else if !all_read(listed(req.remove_qers)) {
        Err(UpfError::InvalidRemoveQer)
    } else if !all_read(listed(req.remove_urrs)) {
        Err(UpfError::InvalidRemoveUrr)
    } else if !all_read(listed(req.remove_pdrs)) {
        Err(UpfError::InvalidRemovePdr)
    } else {
        Ok(())
    }
}

/// The session that a Session Modification Request makes of `s` before its
/// Create PDR IEs, or the error that stops it.
pub open spec fn spec_modified_before_pdrs(s: SessionView, req: &SessionModificationRequestIes) -> Result<
    SessionView,
    UpfError,
> {
    match spec_check_removals(req) {
        Err(e) => Err(e),
        Ok(()) => match spec_create_fars(s, listed(req.create_fars)) {
            Err(e) => Err(e),
            Ok(s1) => if !all_read(listed(req.create_qers)) {
                Err(UpfError::InvalidCreateQer)
            } else if !all_read(listed(req.create_urrs)) {
                Err(UpfError::InvalidCreateUrr)
            } else {
                Ok(s1)
            },
        },
    }
}

/// The session that a Session Modification Request makes of `s`, once its
/// PDRs are created, before its Update PDR IEs, or the error that stops it.
pub open spec fn spec_modified_before_updates(s: SessionView, req: &SessionModificationRequestIes) -> Result<
    SessionView,
    UpfError,
> {
    match spec_update_fars(s, listed(req.update_fars)) {
        Err(e) => Err(e),
        Ok(s1) => if !all_read(listed(req.update_qers)) {
            Err(UpfError::InvalidUpdateQer)
        } else if !all_read(listed(req.update_urrs)) {
            Err(UpfError::InvalidUpdateUrr)
        } else {
            Ok(s1)
        },
    }
}

/// Whether handling a Session Modification Request on session `s` panics:
/// on a FAR, a created PDR or an updated PDR that panics.
pub open spec fn modification_panics(
    gtp_addr_v6: Option<u128>,
    s: SessionView,
    req: &SessionModificationRequestIes,
) -> bool {
    ||| spec_check_removals(req) is Ok && create_fars_panic(s, listed(req.create_fars))
    ||| match spec_modified_before_pdrs(s, req) {
        Ok(s1) => {
            ||| create_pdrs_panic(gtp_addr_v6, s1, listed(req.create_pdrs))
            ||| exists|s2: SessionView, created: Seq<CreatedPdrIe>|
                #![trigger create_pdrs_done(gtp_addr_v6, s1, listed(req.create_pdrs), s2, created)]
                create_pdrs_done(gtp_addr_v6, s1, listed(req.create_pdrs), s2, created) && match spec_modified_before_updates(
                    s2,
                    req,
                ) {
                    Ok(s3) => update_pdrs_panic(gtp_addr_v6, s3, listed(req.update_pdrs)),
                    Err(_) => false,
                }
        },
        Err(_) => false,
    }
}

/// Handling a Session Modification Request on session `s` goes through,
/// answered by `created`, and makes it the session `modified`.
pub open spec fn modification_done(
    gtp_addr_v6: Option<u128>,
    s: SessionView,
    req: &SessionModificationRequestIes,
    created: Seq<CreatedPdrIe>,
    modified: SessionView,
) -> bool {
    match spec_modified_before_pdrs(s, req) {
        Ok(s1) => exists|s2: SessionView|
            #![trigger create_pdrs_done(gtp_addr_v6, s1, listed(req.create_pdrs), s2, created)]
            create_pdrs_done(gtp_addr_v6, s1, listed(req.create_pdrs), s2, created) && match spec_modified_before_updates(
                s2,
                req,
            ) {
                Ok(s3) => update_pdrs_done(gtp_addr_v6, s3, listed(req.update_pdrs), modified),
                Err(_) => false,
            },
        Err(_) => false,
    }
}

/// Handling a Session Modification Request on session `s` stops with the
/// error `e`.
pub open spec fn modification_fails(
    gtp_addr_v6: Option<u128>,
    s: SessionView,
    req: &SessionModificationRequestIes,
    e: UpfError,
) -> bool {
    match spec_modified_before_pdrs(s, req) {
        Err(e1) => e1 == e,
        Ok(s1) => {
            ||| create_pdrs_fail(gtp_addr_v6, s1, listed(req.create_pdrs), e)
            ||| exists|s2: SessionView, created: Seq<CreatedPdrIe>|
                #![trigger create_pdrs_done(gtp_addr_v6, s1, listed(req.create_pdrs), s2, created)]
                create_pdrs_done(gtp_addr_v6, s1, listed(req.create_pdrs), s2, created) && match spec_modified_before_updates(
                    s2,
                    req,
                ) {
                    Err(e2) => e2 == e,
                    Ok(s3) => update_pdrs_fail(gtp_addr_v6, s3, listed(req.update_pdrs), e),
                }
        },
    }
}

/// Applies one Update PDR IE of a request.
fn update_pdr_step(
    ctx: &PfcpContext,
    session: &mut PfcpSession,
    ie: &Option<UpdatePdrIe>,
) -> (r: Result<(), UpfError>)
    requires
        !update_panics(ctx.gtp_addr_v6, old(session)@, *ie),
    ensures
        match r {
            Ok(()) => update_step(ctx.gtp_addr_v6, old(session)@, *ie, final(session)@),
            Err(e) => update_failure(ctx.gtp_addr_v6, old(session)@, *ie) == Some(e),
        },
        r is Ok ==> final(session)@.cp_seid == old(session)@.cp_seid,
{
    match ie {
        Some(received_pdr) => update_pdr_rule(received_pdr, ctx, session),
        None => Err(UpfError::InvalidUpdatePdr),
    }
}

/// A chain of updated PDRs grows by one step.
proof fn lemma_extend_update_chain(
    gtp_addr_v6: Option<u128>,
    views: Seq<SessionView>,
    updates: Seq<Option<UpdatePdrIe>>,
    i: int,
    after: SessionView,
)
    requires
        0 <= i < updates.len(),
        updates_pdrs(gtp_addr_v6, views, updates.subrange(0, i)),
        update_step(gtp_addr_v6, views.last(), updates[i], after),
    ensures
        updates_pdrs(gtp_addr_v6, views.push(after), updates.subrange(0, i + 1)),
{
    let nv = views.push(after);
    let pre = updates.subrange(0, i + 1);
    assert forall|j: int| 0 <= j < pre.len() implies #[trigger] update_step(
        gtp_addr_v6,
        nv[j],
        pre[j],
        nv[j + 1],
    ) by {
        if j < i {
            assert(update_step(gtp_addr_v6, views[j], updates.subrange(0, i)[j], views[j + 1]));
        }
    }
}

/// Checks that every Remove IE of a request could be read; removing a rule
/// does nothing.
fn check_removals(req: &SessionModificationRequestIes) -> (r: Result<(), UpfError>)
    ensures
        r == spec_check_removals(req),
{
    if let Some(remove_fars) = &req.remove_fars {
        let mut idx: usize = 0;
        while idx < remove_fars.len()
            invariant
                req.remove_fars == Some(*remove_fars),
                idx <= remove_fars@.len(),
                forall|j: int| 0 <= j < idx ==> remove_fars@[j] is Some,
            decreases remove_fars@.len() - idx,
        {
            match remove_fars[idx] {
                Some(far_id) => remove_far_rule(far_id),
                None => {
                    assert(!all_read(listed(req.remove_fars)));
                    return Err(UpfError::InvalidRemoveFar);
                },
            }
            idx += 1;
        }
    }
    if let Some(remove_qers) = &req.remove_qers {
        let mut idx: usize = 0;
        while idx < remove_qers.len()
            invariant
                all_read(listed(req.remove_fars)),
                req.remove_qers == Some(*remove_qers),
                idx <= remove_qers@.len(),
                forall|j: int| 0 <= j < idx ==> remove_qers@[j] is Some,
            decreases remove_qers@.len() - idx,
        {
            match remove_qers[idx] {
                Some(qer_id) => remove_qer_rule(qer_id),
                None => {
                    assert(!all_read(listed(req.remove_qers)));
                    return Err(UpfError::InvalidRemoveQer);
                },
            }
            idx += 1;
        }
    }
    if let Some(remove_urrs) = &req.remove_urrs {
        let mut idx: usize = 0;
        while idx < remove_urrs.len()
            invariant
                all_read(listed(req.remove_fars)),
                all_read(listed(req.remove_qers)),
                req.remove_urrs == Some(*remove_urrs),
                idx <= remove_urrs@.len(),
                forall|j: int| 0 <= j < idx ==> remove_urrs@[j] is Some,
            decreases remove_urrs@.len() - idx,
        {
            match remove_urrs[idx] {
                Some(urr_id) => remove_urr_rule(urr_id),
                None => {
                    assert(!all_read(listed(req.remove_urrs)));
                    return Err(UpfError::InvalidRemoveUrr);
                },
            }
            idx += 1;
        }
    }
    if let Some(remove_pdrs) = &req.remove_pdrs {
        let mut idx: usize = 0;
        while idx < remove_pdrs.len()
            invariant
                all_read(listed(req.remove_fars)),
                all_read(listed(req.remove_qers)),
                all_read(listed(req.remove_urrs)),
                req.remove_pdrs == Some(*remove_pdrs),
                idx <= remove_pdrs@.len(),
                forall|j: int| 0 <= j < idx ==> remove_pdrs@[j] is Some,
            decreases remove_pdrs@.len() - idx,
        {
            match remove_pdrs[idx] {
                Some(pdr_id) => remove_pdr_rule(pdr_id),
                None => {
                    assert(!all_read(listed(req.remove_pdrs)));
                    return Err(UpfError::InvalidRemovePdr);
                },
            }
            idx += 1;
        }
    }
    Ok(())
}


/// Applies the Remove, Create FAR, Create QER and Create URR IEs of a Session
/// Modification Request to a session.
fn modify_before_pdrs(session: &mut PfcpSession, req: &SessionModificationRequestIes) -> (r: Result<
    (),
    UpfError,
>)
    requires
        !(spec_check_removals(req) is Ok && create_fars_panic(old(session)@, listed(req.create_fars))),
    ensures
        match spec_modified_before_pdrs(old(session)@, req) {
            Err(e) => r == Err::<(), UpfError>(e),
            Ok(s1) => r is Ok && final(session)@ == s1,
        },
        r is Ok ==> final(session)@.cp_seid == old(session)@.cp_seid,
{
    match check_removals(req) {
        Ok(()) => {},
        Err(e) => return Err(e),
    }
    let ghost s0 = session@;
    if let Some(create_fars) = &req.create_fars {
        let mut idx: usize = 0;
        while idx < create_fars.len()
            invariant
                s0 == old(session)@,
                session@.cp_seid == s0.cp_seid,
                spec_check_removals(req) == Ok::<(), UpfError>(()),
                req.create_fars == Some(*create_fars),
                idx <= create_fars@.len(),
                !create_fars_panic(s0, create_fars@),
                spec_create_fars(s0, create_fars@.subrange(0, idx as int)) == Ok::<
                    SessionView,
                    UpfError,
                >(session@),
            decreases create_fars@.len() - idx,
        {
            let ghost prefix = create_fars@.subrange(0, idx + 1);
            assert(prefix.drop_last() =~= create_fars@.subrange(0, idx as int));
            proof {
                lemma_create_fars_prefix(s0, create_fars@, idx + 1);
            }
            match &create_fars[idx] {
                Some(received_far) => create_far_rule(received_far, session),
                None => return Err(UpfError::InvalidCreateFar),
            }
            idx += 1;
        }
        assert(create_fars@.subrange(0, create_fars@.len() as int) =~= create_fars@);
    }
    assert(spec_create_fars(s0, listed(req.create_fars)) == Ok::<SessionView, UpfError>(session@));
    if let Some(create_qers) = &req.create_qers {
        let mut idx: usize = 0;
        while idx < create_qers.len()
            invariant
                s0 == old(session)@,
                session@.cp_seid == s0.cp_seid,
                spec_check_removals(req) == Ok::<(), UpfError>(()),
                req.create_qers == Some(*create_qers),
                idx <= create_qers@.len(),
                forall|j: int| 0 <= j < idx ==> create_qers@[j] is Some,
                spec_create_fars(s0, listed(req.create_fars)) == Ok::<SessionView, UpfError>(session@),
            decreases create_qers@.len() - idx,
        {
            match &create_qers[idx] {
                Some(received_qer) => create_qer_rule(received_qer, session),
                None => {
                    assert(!all_read(listed(req.create_qers)));
                    return Err(UpfError::InvalidCreateQer);
                },
            }
            idx += 1;
        }
    }
    if let Some(create_urrs) = &req.create_urrs {
        let mut idx: usize = 0;
        while idx < create_urrs.len()
            invariant
                s0 == old(session)@,
                session@.cp_seid == s0.cp_seid,
                spec_check_removals(req) == Ok::<(), UpfError>(()),
                all_read(listed(req.create_qers)),
                req.create_urrs == Some(*create_urrs),
                idx <= create_urrs@.len(),
                forall|j: int| 0 <= j < idx ==> create_urrs@[j] is Some,
                spec_create_fars(s0, listed(req.create_fars)) == Ok::<SessionView, UpfError>(session@),
            decreases create_urrs@.len() - idx,
        {
            match &create_urrs[idx] {
                Some(received_urr) => create_urr_rule(received_urr, session),
                None => {
                    assert(!all_read(listed(req.create_urrs)));
                    return Err(UpfError::InvalidCreateUrr);
                },
            }
            idx += 1;
        }
    }
    Ok(())
}

/// Applies the Update FAR, Update QER and Update URR IEs of a Session
/// Modification Request to a session.
fn modify_before_updates(session: &mut PfcpSession, req: &SessionModificationRequestIes) -> (r: Result<
    (),
    UpfError,
>)
    ensures
        match spec_modified_before_updates(old(session)@, req) {
            Err(e) => r == Err::<(), UpfError>(e),
            Ok(s1) => r is Ok && final(session)@ == s1,
        },
        r is Ok ==> final(session)@.cp_seid == old(session)@.cp_seid,
{
    let ghost s0 = session@;
    if let Some(update_fars) = &req.update_fars {
        let mut idx: usize = 0;
        while idx < update_fars.len()
            invariant
                s0 == old(session)@,
                session@.cp_seid == s0.cp_seid,
                req.update_fars == Some(*update_fars),
                idx <= update_fars@.len(),
                spec_update_fars(s0, update_fars@.subrange(0, idx as int)) == Ok::<
                    SessionView,
                    UpfError,
                >(session@),
            decreases update_fars@.len() - idx,
        {
            let ghost prefix = update_fars@.subrange(0, idx + 1);
            assert(prefix.drop_last() =~= update_fars@.subrange(0, idx as int));
            proof {
                lemma_update_fars_prefix(s0, update_fars@, idx + 1);
            }
            match &update_fars[idx] {
                Some(received_far) => update_far_rule(received_far, session),
                None => return Err(UpfError::InvalidUpdateFar),
            }
            idx += 1;
        }
        assert(update_fars@.subrange(0, update_fars@.len() as int) =~= update_fars@);
    }
    assert(spec_update_fars(s0, listed(req.update_fars)) == Ok::<SessionView, UpfError>(session@));
    if let Some(update_qers) = &req.update_qers {
        let mut idx: usize = 0;
        while idx < update_qers.len()
            invariant
                s0 == old(session)@,
                session@.cp_seid == s0.cp_seid,
                req.update_qers == Some(*update_qers),
                idx <= update_qers@.len(),
                forall|j: int| 0 <= j < idx ==> update_qers@[j] is Some,
                spec_update_fars(s0, listed(req.update_fars)) == Ok::<SessionView, UpfError>(session@),
            decreases update_qers@.len() - idx,
        {
            match &update_qers[idx] {
                Some(received_qer) => update_qer_rule(received_qer, session),
                None => {
                    assert(!all_read(listed(req.update_qers)));
                    return Err(UpfError::InvalidUpdateQer);
                },
            }
            idx += 1;
        }
    }
    if let Some(update_urrs) = &req.update_urrs {
        let mut idx: usize = 0;
        while idx < update_urrs.len()
            invariant
                s0 == old(session)@,
                session@.cp_seid == s0.cp_seid,
                all_read(listed(req.update_qers)),
                req.update_urrs == Some(*update_urrs),
                idx <= update_urrs@.len(),
                forall|j: int| 0 <= j < idx ==> update_urrs@[j] is Some,
                spec_update_fars(s0, listed(req.update_fars)) == Ok::<SessionView, UpfError>(session@),
            decreases update_urrs@.len() - idx,
        {
            match &update_urrs[idx] {
                Some(received_urr) => update_urr_rule(received_urr, session),
                None => {
                    assert(!all_read(listed(req.update_urrs)));
                    return Err(UpfError::InvalidUpdateUrr);
                },
            }
            idx += 1;
        }
    }
    Ok(())
}

/// Applies Update PDR IEs in turn.
fn update_pdrs(ctx: &PfcpContext, session: &mut PfcpSession, updates: &Vec<Option<UpdatePdrIe>>) -> (r:
    Result<(), UpfError>)
    requires
        !update_pdrs_panic(ctx.gtp_addr_v6, old(session)@, updates@),
    ensures
        match r {
            Ok(()) => update_pdrs_done(ctx.gtp_addr_v6, old(session)@, updates@, final(session)@),
            Err(e) => update_pdrs_fail(ctx.gtp_addr_v6, old(session)@, updates@, e),
        },
        r is Ok ==> final(session)@.cp_seid == old(session)@.cp_seid,
{
    let ghost s0 = session@;
    let ghost mut views: Seq<SessionView> = seq![s0];
    let mut idx: usize = 0;
    while idx < updates.len()
        invariant
            s0 == old(session)@,
            session@.cp_seid == s0.cp_seid,
            idx <= updates@.len(),
            !update_pdrs_panic(ctx.gtp_addr_v6, s0, updates@),
            views.len() > 0,
            views[0] == s0,
            views.last() == session@,
            updates_pdrs(ctx.gtp_addr_v6, views, updates@.subrange(0, idx as int)),
        decreases updates@.len() - idx,
    {
        assert(!update_panics(ctx.gtp_addr_v6, views.last(), updates@[idx as int]));
        match update_pdr_step(ctx, session, &updates[idx]) {
            Ok(()) => {
                proof {
                    lemma_extend_update_chain(ctx.gtp_addr_v6, views, updates@, idx as int, session@);
                    views = views.push(session@);
                }
            },
            Err(e) => {
                return Err(e);
            },
        }
        idx += 1;
    }
    assert(updates@.subrange(0, updates@.len() as int) =~= updates@);
    assert(updates_pdrs(ctx.gtp_addr_v6, views, updates@));
    Ok(())
}

proof fn lemma_update_step_ul_ids(
    gtp_addr_v6: Option<u128>,
    before: SessionView,
    ie: Option<UpdatePdrIe>,
    after: SessionView,
)
    requires
        update_step(gtp_addr_v6, before, ie, after),
    ensures
        after.ul_pdrs.dom() == before.ul_pdrs.dom(),
{
    let u = ie.unwrap();
    match spec_read_update_pdr(gtp_addr_v6, before, &u) {
        UpdateReading::Read(rd) => {
            assert(before.ul_pdrs.contains_key(u.pdr_id));
            assert(after.ul_pdrs.dom() =~= before.ul_pdrs.dom());
        },
        _ => {},
    }
}

proof fn lemma_updates_ul_ids(
    gtp_addr_v6: Option<u128>,
    views: Seq<SessionView>,
    updates: Seq<Option<UpdatePdrIe>>,
    i: int,
)
    requires
        updates_pdrs(gtp_addr_v6, views, updates),
        0 <= i <= updates.len(),
    ensures
        views[i].ul_pdrs.dom() == views[0].ul_pdrs.dom(),
    decreases i,
{
    if i > 0 {
        lemma_updates_ul_ids(gtp_addr_v6, views, updates, i - 1);
        let j = i - 1;
        assert(update_step(gtp_addr_v6, views[j], updates[j], views[j + 1]));
        lemma_update_step_ul_ids(gtp_addr_v6, views[j], updates[j], views[j + 1]);
    }
}

/// Whether applying Update FAR IEs goes through does not depend on the
/// session, and leaves its uplink PDRs as they are.
proof fn lemma_update_fars_shape(s: SessionView, t: SessionView, fars: Seq<Option<UpdateFarIe>>)
    ensures
        (spec_update_fars(s, fars) is Ok) == (spec_update_fars(t, fars) is Ok),
        spec_update_fars(s, fars) matches Ok(s1) ==> s1.ul_pdrs == s.ul_pdrs,
    decreases fars.len(),
{
    if fars.len() > 0 {
        lemma_update_fars_shape(s, t, fars.drop_last());
    }
}

/// The Update PDR IE `ie` goes through on session `t`: it reads, or names no
/// uplink PDR of `t`.
pub open spec fn update_passes_on(gtp_addr_v6: Option<u128>, t: SessionView, ie: Option<UpdatePdrIe>) -> bool {
    match ie {
        Some(u) => spec_read_update_pdr(gtp_addr_v6, t, &u) is Missing || spec_read_update_pdr(
            gtp_addr_v6,
            t,
            &u,
        ) is Read,
        None => false,
    }
}

/// The Update PDR IE `ie` stops the request on session `t`, without a panic.
pub open spec fn update_stops_on(gtp_addr_v6: Option<u128>, t: SessionView, ie: Option<UpdatePdrIe>) -> bool {
    match ie {
        Some(u) => spec_read_update_pdr(gtp_addr_v6, t, &u) is Refused,
        None => true,
    }
}

/// Where the Update PDR IEs before `j` go through and the one at `j` stops
/// the request on every session with the uplink PDRs of `s3`, none panics.
proof fn lemma_updates_stop_without_panic(
    gtp_addr_v6: Option<u128>,
    s3: SessionView,
    updates: Seq<Option<UpdatePdrIe>>,
    j: int,
)
    requires
        0 <= j <= updates.len(),
        forall|k: int, t: SessionView|
            0 <= k < j && t.ul_pdrs.dom() == s3.ul_pdrs.dom() ==> #[trigger] update_passes_on(gtp_addr_v6, t, updates[k]),
        j < updates.len() ==> forall|t: SessionView|
            t.ul_pdrs.dom() == s3.ul_pdrs.dom() ==> #[trigger] update_stops_on(gtp_addr_v6, t, updates[j]),
    ensures
        !update_pdrs_panic(gtp_addr_v6, s3, updates),
{
    assert forall|k: int, views: Seq<SessionView>|
        0 <= k < updates.len() && views.len() > 0 && views[0] == s3 && #[trigger] updates_pdrs(
            gtp_addr_v6,
            views,
            updates.subrange(0, k),
        ) implies !update_panics(gtp_addr_v6, views.last(), updates[k]) by {
        let pre = updates.subrange(0, k);
        lemma_updates_ul_ids(gtp_addr_v6, views, pre, k);
        if k < j {
            assert(update_passes_on(gtp_addr_v6, views[k], updates[k]));
        } else if k == j {
            assert(update_stops_on(gtp_addr_v6, views[k], updates[k]));
        } else {
            lemma_updates_ul_ids(gtp_addr_v6, views, pre, j);
            assert(update_step(gtp_addr_v6, views[j], pre[j], views[j + 1]));
            assert(update_stops_on(gtp_addr_v6, views[j], updates[j]));
        }
    }
}

/// Applies the Update PDR IEs of `updates` in turn to `session` where each
/// goes through, telling whether one of them panics; where none does, none
/// does on any session with the same uplink PDRs either.
fn update_pdrs_would_panic(ctx: &PfcpContext, session: &mut PfcpSession, updates: &Vec<Option<UpdatePdrIe>>) -> (r:
    bool)
    ensures
        r == update_pdrs_panic(ctx.gtp_addr_v6, old(session)@, updates@),
        !r ==> forall|t: SessionView|
            t.ul_pdrs.dom() == old(session)@.ul_pdrs.dom() ==> !#[trigger] update_pdrs_panic(
                ctx.gtp_addr_v6,
                t,
                updates@,
            ),
{
    let ghost s0 = session@;
    let ghost d = s0.ul_pdrs.dom();
    let ghost mut views: Seq<SessionView> = seq![s0];
    let mut idx: usize = 0;
    while idx < updates.len()
        invariant
            s0 == old(session)@,
            d == s0.ul_pdrs.dom(),
            idx <= updates@.len(),
            views.len() > 0,
            views[0] == s0,
            views.last() == session@,
            session@.ul_pdrs.dom() == d,
            updates_pdrs(ctx.gtp_addr_v6, views, updates@.subrange(0, idx as int)),
            forall|k: int, t: SessionView|
                0 <= k < idx && t.ul_pdrs.dom() == d ==> #[trigger] update_passes_on(ctx.gtp_addr_v6, t, updates@[k]),
        decreases updates@.len() - idx,
    {
        match &updates[idx] {
            None => {
                proof {
                    assert forall|t: SessionView| t.ul_pdrs.dom() == d implies !#[trigger] update_pdrs_panic(
                        ctx.gtp_addr_v6,
                        t,
                        updates@,
                    ) by {
                        assert forall|t2: SessionView| t2.ul_pdrs.dom() == t.ul_pdrs.dom() implies #[trigger] update_stops_on(
                            ctx.gtp_addr_v6,
                            t2,
                            updates@[idx as int],
                        ) by {}
                        lemma_updates_stop_without_panic(ctx.gtp_addr_v6, t, updates@, idx as int);
                    }
                }
                return false;
            },
            Some(u) => {
                if session.ul_pdrs.contains_key(&u.pdr_id) {
                    let check = crate::rules::checks::check_update_pdr(ctx.gtp_addr_v6, u);
                    proof {
                        assert forall|t: SessionView| t.ul_pdrs.dom() == d implies #[trigger] crate::rules::checks::update_reading_check(
                            spec_read_update_pdr(ctx.gtp_addr_v6, t, u),
                        ) == check by {
                            assert(t.ul_pdrs.contains_key(u.pdr_id));
                        }
                    }
                    match check {
                        crate::rules::checks::ReadCheck::Panics => {
                            proof {
                                let t = views.last();
                                assert(crate::rules::checks::update_reading_check(spec_read_update_pdr(ctx.gtp_addr_v6, t, u)) == check);
                                assert(update_panics(ctx.gtp_addr_v6, views.last(), updates@[idx as int]));
                                assert(updates_pdrs(ctx.gtp_addr_v6, views, updates@.subrange(0, idx as int)));
                            }
                            return true;
                        },
                        crate::rules::checks::ReadCheck::Refused => {
                            proof {
                                assert forall|t: SessionView| t.ul_pdrs.dom() == d implies !#[trigger] update_pdrs_panic(
                                    ctx.gtp_addr_v6,
                                    t,
                                    updates@,
                                ) by {
                                    assert forall|t2: SessionView| t2.ul_pdrs.dom() == t.ul_pdrs.dom() implies #[trigger] update_stops_on(
                                        ctx.gtp_addr_v6,
                                        t2,
                                        updates@[idx as int],
                                    ) by {
                                        assert(crate::rules::checks::update_reading_check(spec_read_update_pdr(ctx.gtp_addr_v6, t2, u)) == check);
                                    }
                                    lemma_updates_stop_without_panic(ctx.gtp_addr_v6, t, updates@, idx as int);
                                }
                            }
                            return false;
                        },
                        crate::rules::checks::ReadCheck::Reads => {
                            proof {
                                assert forall|t: SessionView| t.ul_pdrs.dom() == d implies #[trigger] update_passes_on(
                                    ctx.gtp_addr_v6,
                                    t,
                                    updates@[idx as int],
                                ) by {
                                    assert(crate::rules::checks::update_reading_check(spec_read_update_pdr(ctx.gtp_addr_v6, t, u)) == check);
                                }
                                let t = views.last();
                                assert(update_passes_on(ctx.gtp_addr_v6, t, updates@[idx as int]));
                            }
                            match update_pdr_step(ctx, session, &updates[idx]) {
                                Ok(()) => {
                                    proof {
                                        lemma_update_step_ul_ids(ctx.gtp_addr_v6, views.last(), updates@[idx as int], session@);
                                        lemma_extend_update_chain(ctx.gtp_addr_v6, views, updates@, idx as int, session@);
                                        views = views.push(session@);
                                    }
                                },
                                Err(_) => {
                                    return false;
                                },
                            }
                        },
                    }
                } else {
                    proof {
                        assert forall|t: SessionView| t.ul_pdrs.dom() == d implies #[trigger] update_passes_on(
                            ctx.gtp_addr_v6,
                            t,
                            updates@[idx as int],
                        ) by {
                            assert(!t.ul_pdrs.contains_key(u.pdr_id));
                        }
                        assert(update_step(ctx.gtp_addr_v6, session@, updates@[idx as int], session@));
                        lemma_extend_update_chain(ctx.gtp_addr_v6, views, updates@, idx as int, session@);
                        views = views.push(session@);
                    }
                }
            },
        }
        idx += 1;
    }
    proof {
        assert forall|t: SessionView| t.ul_pdrs.dom() == d implies !#[trigger] update_pdrs_panic(
            ctx.gtp_addr_v6,
            t,
            updates@,
        ) by {
            lemma_updates_stop_without_panic(ctx.gtp_addr_v6, t, updates@, updates@.len() as int);
        }
    }
    false
}

/// Whether handling a Session Modification Request on `session` would panic:
/// it is followed on a copy of the session up to the first rule that panics,
/// is refused or cannot be read.
#[verifier::loop_isolation(false)]
pub fn modification_would_panic(ctx: &PfcpContext, session: &PfcpSession, req: &SessionModificationRequestIes) -> (r:
    bool)
    ensures
        r == modification_panics(ctx.gtp_addr_v6, session@, req),
{
    let ghost g = ctx.gtp_addr_v6;
    let ghost s = session@;
    if check_removals(req).is_err() {
        return false;
    }
    let mut sim = session.clone();
    if let Some(fars) = &req.create_fars {
        let (fars_panic, fars_read) = create_fars_would_panic(&mut sim, fars);
        if fars_panic {
            return true;
        }
        if !fars_read {
            return false;
        }
    }
    assert(!create_fars_panic(s, listed(req.create_fars)));
    assert(spec_create_fars(s, listed(req.create_fars)) == Ok::<SessionView, UpfError>(sim@));
    if let Some(qers) = &req.create_qers {
        let mut j: usize = 0;
        while j < qers.len()
            invariant
                j <= qers@.len(),
                forall|k: int| 0 <= k < j ==> qers@[k] is Some,
            decreases qers@.len() - j,
        {
            if qers[j].is_none() {
                assert(!all_read(listed(req.create_qers)));
                return false;
            }
            j += 1;
        }
    }
    if let Some(urrs) = &req.create_urrs {
        let mut j: usize = 0;
        while j < urrs.len()
            invariant
                j <= urrs@.len(),
                forall|k: int| 0 <= k < j ==> urrs@[k] is Some,
            decreases urrs@.len() - j,
        {
            if urrs[j].is_none() {
                assert(!all_read(listed(req.create_urrs)));
                return false;
            }
            j += 1;
        }
    }
    let ghost s1 = sim@;
    assert(spec_modified_before_pdrs(s, req) == Ok::<SessionView, UpfError>(s1));
    if let Some(pdrs) = &req.create_pdrs {
        let (pdrs_panic, pdrs_done) = create_pdrs_would_panic(ctx, &mut sim, pdrs);
        if pdrs_panic {
            return true;
        }
        if !pdrs_done {
            return false;
        }
    } else {
        assert(creates_pdrs(g, seq![s1], Seq::empty(), Seq::empty()));
        assert(create_pdrs_done(g, s1, listed(req.create_pdrs), s1, Seq::empty()));
        assert forall|s2: SessionView, c: Seq<CreatedPdrIe>|
            #[trigger] create_pdrs_done(g, s1, listed(req.create_pdrs), s2, c)
                implies s2.ul_pdrs.dom() == s1.ul_pdrs.dom() by {
            let vs = choose|vs: Seq<SessionView>| vs.len() > 0 && vs[0] == s1 && creates_pdrs(g, vs, listed(req.create_pdrs), c)
                && vs.last() == s2;
            assert(vs.len() == 1);
        }
        assert(!create_pdrs_panic(g, s1, listed(req.create_pdrs)));
    }
    let ghost s2 = sim@;
    assert(!create_pdrs_panic(g, s1, listed(req.create_pdrs)));
    assert(exists|c: Seq<CreatedPdrIe>| create_pdrs_done(g, s1, listed(req.create_pdrs), s2, c));
    assert(forall|t: SessionView, c: Seq<CreatedPdrIe>|
        #[trigger] create_pdrs_done(g, s1, listed(req.create_pdrs), t, c) ==> t.ul_pdrs.dom() == s2.ul_pdrs.dom());
    proof {
        lemma_update_fars_shape(s2, s2, listed(req.update_fars));
    }
    match modify_before_updates(&mut sim, req) {
        Ok(()) => {},
        Err(_) => {
            proof {
                assert forall|t: SessionView| !(#[trigger] spec_modified_before_updates(t, req) is Ok) by {
                    lemma_update_fars_shape(t, s2, listed(req.update_fars));
                }
            }
            return false;
        },
    }
    let ghost s3 = sim@;
    assert(s3.ul_pdrs == s2.ul_pdrs);
    let r = match &req.update_pdrs {
        Some(updates) => update_pdrs_would_panic(ctx, &mut sim, updates),
        None => {
            assert forall|t: SessionView| !#[trigger] update_pdrs_panic(g, t, listed(req.update_pdrs)) by {}
            false
        },
    };
    proof {
        if r {
            let c = choose|c: Seq<CreatedPdrIe>| create_pdrs_done(g, s1, listed(req.create_pdrs), s2, c);
            assert(create_pdrs_done(g, s1, listed(req.create_pdrs), s2, c));
            assert(spec_modified_before_updates(s2, req) == Ok::<SessionView, UpfError>(s3));
        } else {
            assert forall|t: SessionView, c: Seq<CreatedPdrIe>|
                #[trigger] create_pdrs_done(g, s1, listed(req.create_pdrs), t, c) implies !(
                spec_modified_before_updates(t, req) matches Ok(t3) && update_pdrs_panic(g, t3, listed(req.update_pdrs))) by {
                lemma_update_fars_shape(t, s2, listed(req.update_fars));
                if let Ok(t3) = spec_modified_before_updates(t, req) {
                    assert(t3.ul_pdrs == t.ul_pdrs);
                    assert(t3.ul_pdrs.dom() == s3.ul_pdrs.dom());
                    assert(!update_pdrs_panic(g, t3, listed(req.update_pdrs)));
                }
            }
        }
    }
    r
}

/// Creating FARs keeps the CP SEID and the FARs already there, and stores
/// each FAR that carries Forwarding Parameters.
proof fn lemma_create_fars_keep(s: SessionView, fars: Seq<Option<CreateFarIe>>)
    ensures
        spec_create_fars(s, fars) matches Ok(s1) ==> {
            &&& s1.cp_seid == s.cp_seid
            &&& s.fars.dom().subset_of(s1.fars.dom())
            &&& forall|i: int| 0 <= i < fars.len() ==> (#[trigger] fars[i] matches Some(f) ==> (f.forwarding_parameters is Some
                ==> s1.fars.contains_key(f.far_id)))
        },
    decreases fars.len(),
{
    if fars.len() > 0 {
        let pre = fars.drop_last();
        lemma_create_fars_keep(s, pre);
        if let Ok(s1) = spec_create_fars(s, fars) {
            let s0 = spec_create_fars(s, pre).unwrap();
            let f = fars.last().unwrap();
            assert(s1 == spec_create_far_rule(s0, f));
            assert forall|i: int| 0 <= i < fars.len() implies (#[trigger] fars[i] matches Some(g) ==> (g.forwarding_parameters is Some
                ==> s1.fars.contains_key(g.far_id))) by {
                if i < fars.len() - 1 {
                    assert(pre[i] == fars[i]);
                }
            }
        }
    }
}

/// Applying Update FAR IEs keeps the CP SEID, the PDRs and which FARs there are.
proof fn lemma_update_fars_keep(s: SessionView, fars: Seq<Option<UpdateFarIe>>)
    ensures
        spec_update_fars(s, fars) matches Ok(s1) ==> {
            &&& s1.cp_seid == s.cp_seid
            &&& s1.ul_pdrs == s.ul_pdrs
            &&& s1.dl_pdrs == s.dl_pdrs
            &&& s1.fars.dom() == s.fars.dom()
        },
    decreases fars.len(),
{
    if fars.len() > 0 {
        lemma_update_fars_keep(s, fars.drop_last());
        if let Ok(s1) = spec_update_fars(s, fars) {
            let s0 = spec_update_fars(s, fars.drop_last()).unwrap();
            let f = fars.last().unwrap();
            assert(s1 == spec_update_far_rule(s0, f));
            assert(s1.fars.dom() =~= s0.fars.dom());
        }
    }
}

/// Along a chain of created PDRs the CP SEID and the FARs stay, no PDR goes,
/// and each PDR created is among the uplink or the downlink PDRs.
proof fn lemma_create_chain_keeps(
    gtp_addr_v6: Option<u128>,
    views: Seq<SessionView>,
    pdrs: Seq<Option<CreatePdrIe>>,
    created: Seq<CreatedPdrIe>,
    i: int,
)
    requires
        creates_pdrs(gtp_addr_v6, views, pdrs, created),
        0 <= i <= pdrs.len(),
    ensures
        views[i].cp_seid == views[0].cp_seid,
        views[i].fars == views[0].fars,
        views[0].ul_pdrs.dom().subset_of(views[i].ul_pdrs.dom()),
        views[0].dl_pdrs.dom().subset_of(views[i].dl_pdrs.dom()),
        forall|k: int| 0 <= k < i ==> (#[trigger] pdrs[k] matches Some(p) && (views[i].ul_pdrs.contains_key(p.pdr_id)
            || views[i].dl_pdrs.contains_key(p.pdr_id))),
    decreases i,
{
    if i > 0 {
        lemma_create_chain_keeps(gtp_addr_v6, views, pdrs, created, i - 1);
        let j = i - 1;
        assert(pdr_step(gtp_addr_v6, views[j], pdrs[j], views[j + 1], created[j]));
        let p = pdrs[j].unwrap();
        let b = views[j];
        let a = views[j + 1];
        match spec_read_create_pdr(gtp_addr_v6, b, &p) {
            PdrReading::Read(s2, rd) => {
                assert(s2.cp_seid == b.cp_seid && s2.fars == b.fars && s2.ul_pdrs == b.ul_pdrs && s2.dl_pdrs == b.dl_pdrs);
                assert(a.cp_seid == b.cp_seid && a.fars == b.fars);
                assert(b.ul_pdrs.dom().subset_of(a.ul_pdrs.dom()));
                assert(b.dl_pdrs.dom().subset_of(a.dl_pdrs.dom()));
                assert(a.ul_pdrs.contains_key(p.pdr_id) || a.dl_pdrs.contains_key(p.pdr_id));
            },
            _ => {},
        }
        assert forall|k: int| 0 <= k < i implies (#[trigger] pdrs[k] matches Some(q) && (views[i].ul_pdrs.contains_key(q.pdr_id)
            || views[i].dl_pdrs.contains_key(q.pdr_id))) by {
            if k < j {
                assert(pdrs[k] matches Some(q) && (views[j].ul_pdrs.contains_key(q.pdr_id)
                    || views[j].dl_pdrs.contains_key(q.pdr_id)));
            }
        }
    }
}

/// Along a chain of updated PDRs the CP SEID, the FARs and the downlink PDRs
/// stay, and so do the uplink PDRs' IDs.
proof fn lemma_update_chain_keeps(
    gtp_addr_v6: Option<u128>,
    views: Seq<SessionView>,
    updates: Seq<Option<UpdatePdrIe>>,
    i: int,
)
    requires
        updates_pdrs(gtp_addr_v6, views, updates),
        0 <= i <= updates.len(),
    ensures
        views[i].cp_seid == views[0].cp_seid,
        views[i].fars == views[0].fars,
        views[i].dl_pdrs == views[0].dl_pdrs,
        views[i].ul_pdrs.dom() == views[0].ul_pdrs.dom(),
    decreases i,
{
    if i > 0 {
        lemma_update_chain_keeps(gtp_addr_v6, views, updates, i - 1);
        let j = i - 1;
        assert(update_step(gtp_addr_v6, views[j], updates[j], views[j + 1]));
        lemma_update_step_ul_ids(gtp_addr_v6, views[j], updates[j], views[j + 1]);
    }
}

/// A Session Modification Request that goes through leaves the session with
/// each FAR of its Create FAR IEs that carries Forwarding Parameters, with
/// each PDR of its Create PDR IEs among its uplink or downlink PDRs, and with
/// its CP SEID.
pub proof fn lemma_modification_keeps_created_rules(
    gtp_addr_v6: Option<u128>,
    s: SessionView,
    req: &SessionModificationRequestIes,
    created: Seq<CreatedPdrIe>,
    modified: SessionView,
)
    requires
        modification_done(gtp_addr_v6, s, req, created, modified),
    ensures
        modified.cp_seid == s.cp_seid,
        forall|i: int| 0 <= i < listed(req.create_fars).len() ==> (#[trigger] listed(req.create_fars)[i] matches Some(f)
            ==> (f.forwarding_parameters is Some ==> modified.fars.contains_key(f.far_id))),
        forall|i: int| 0 <= i < listed(req.create_pdrs).len() ==> (#[trigger] listed(req.create_pdrs)[i] matches Some(p)
            && (modified.ul_pdrs.contains_key(p.pdr_id) || modified.dl_pdrs.contains_key(p.pdr_id))),
{
    let s1 = spec_modified_before_pdrs(s, req).unwrap();
    assert(spec_create_fars(s, listed(req.create_fars)) == Ok::<SessionView, UpfError>(s1));
    lemma_create_fars_keep(s, listed(req.create_fars));
    let pdrs = listed(req.create_pdrs);
    let s2 = choose|s2: SessionView| create_pdrs_done(gtp_addr_v6, s1, pdrs, s2, created)
        && match spec_modified_before_updates(s2, req) {
        Ok(s3) => update_pdrs_done(gtp_addr_v6, s3, listed(req.update_pdrs), modified),
        Err(_) => false,
    };
    let views = choose|views: Seq<SessionView>| views.len() > 0 && views[0] == s1 && creates_pdrs(gtp_addr_v6, views, pdrs, created)
        && views.last() == s2;
    lemma_create_chain_keeps(gtp_addr_v6, views, pdrs, created, pdrs.len() as int);
    let s3 = spec_modified_before_updates(s2, req).unwrap();
    assert(spec_update_fars(s2, listed(req.update_fars)) == Ok::<SessionView, UpfError>(s3));
    lemma_update_fars_keep(s2, listed(req.update_fars));
    let ups = listed(req.update_pdrs);
    let uviews = choose|uviews: Seq<SessionView>| uviews.len() > 0 && uviews[0] == s3 && updates_pdrs(gtp_addr_v6, uviews, ups)
        && uviews.last() == modified;
    lemma_update_chain_keeps(gtp_addr_v6, uviews, ups, ups.len() as int);
    assert forall|i: int| 0 <= i < listed(req.create_pdrs).len() implies (#[trigger] listed(req.create_pdrs)[i] matches Some(p)
        && (modified.ul_pdrs.contains_key(p.pdr_id) || modified.dl_pdrs.contains_key(p.pdr_id))) by {
        assert(pdrs[i] matches Some(p) && (s2.ul_pdrs.contains_key(p.pdr_id) || s2.dl_pdrs.contains_key(p.pdr_id)));
    }
    assert forall|i: int| 0 <= i < listed(req.create_fars).len() implies (#[trigger] listed(req.create_fars)[i] matches Some(f)
        ==> (f.forwarding_parameters is Some ==> modified.fars.contains_key(f.far_id))) by {
        assert(s2.fars == s1.fars);
    }
}

/// Handles a Session Modification Request. The session it names is
/// modified as the request says, in this order: Remove IEs, which remove
/// nothing; Create FAR, QER, URR and PDR IEs; Update FAR, QER, URR and PDR
/// IEs. The modified session is stored in place of the old one, and the
/// request is answered with the PDRs created. A request that fails leaves
/// the stored session as it was.
pub fn handle_session_modification_request(
    ctx: &mut PfcpContext,
    req: &SessionModificationRequestIes,
) -> (r: Result<SessionModificationResponseIes, UpfError>)
    requires
        match req.up_seid {
            Some(up) => old(ctx).sessions@.contains_key(up) ==> !modification_panics(
                old(ctx).gtp_addr_v6,
                old(ctx).sessions@[up]@,
                req,
            ),
            None => true,
        },
    ensures
        final(ctx).node_id == old(ctx).node_id,
        final(ctx).gtp_addr_v4 == old(ctx).gtp_addr_v4,
        final(ctx).gtp_addr_v6 == old(ctx).gtp_addr_v6,
        final(ctx).associations == old(ctx).associations,
        final(ctx).resource_manager == old(ctx).resource_manager,
        !(r matches Ok(SessionModificationResponseIes::Accepted { .. })) ==> final(ctx).sessions@
            == old(ctx).sessions@,
        match req.up_seid {
            None => r == Err::<SessionModificationResponseIes, UpfError>(UpfError::MissingSeid),
            Some(up) => if !old(ctx).sessions@.contains_key(up) {
                r matches Ok(SessionModificationResponseIes::SessionNotFound { up_seid, sequence })
                    && up_seid == up && sequence == req.sequence
            } else {
                let s = old(ctx).sessions@[up]@;
                match r {
                    Ok(SessionModificationResponseIes::Accepted { cp_seid, sequence, created_pdrs }) => {
                        &&& cp_seid == s.cp_seid
                        &&& sequence == req.sequence
                        &&& final(ctx).sessions@.contains_key(up)
                        &&& final(ctx).sessions@ == old(ctx).sessions@.insert(up, final(ctx).sessions@[up])
                        &&& modification_done(old(ctx).gtp_addr_v6, s, req, created_pdrs@, final(ctx).sessions@[up]@)
                        &&& final(ctx).sessions@[up]@.cp_seid == s.cp_seid
                    },
                    Ok(SessionModificationResponseIes::SessionNotFound { .. }) => false,
                    Err(e) => modification_fails(old(ctx).gtp_addr_v6, s, req, e),
                }
            },
        },
{
    let up_seid = match req.up_seid {
        Some(seid) => seid,
        None => return Err(UpfError::MissingSeid),
    };
    let mut session = match ctx.get_session(up_seid) {
        Some(session) => session,
        None => {
            return Ok(
                SessionModificationResponseIes::SessionNotFound { up_seid, sequence: req.sequence },
            )
        },
    };
    let cp_seid = session.cp_seid();
    let ghost s = session@;
    match modify_before_pdrs(&mut session, req) {
        Ok(()) => {},
        Err(e) => return Err(e),
    }
    let ghost s1 = session@;
    let created_pdrs = match &req.create_pdrs {
        Some(pdr_ies) => match create_pdrs(&*ctx, &mut session, pdr_ies) {
            Ok(created) => created,
            Err(e) => return Err(e),
        },
        None => {
            assert(creates_pdrs(ctx.gtp_addr_v6, seq![s1], Seq::empty(), Seq::empty()));
            Vec::new()
        },
    };
    let ghost s2 = session@;
    assert(create_pdrs_done(ctx.gtp_addr_v6, s1, listed(req.create_pdrs), s2, created_pdrs@));
    match modify_before_updates(&mut session, req) {
        Ok(()) => {},
        Err(e) => return Err(e),
    }
    let ghost s3 = session@;
    if let Some(updates) = &req.update_pdrs {
        match update_pdrs(&*ctx, &mut session, updates) {
            Ok(()) => {},
            Err(e) => return Err(e),
        }
    } else {
        assert(updates_pdrs(ctx.gtp_addr_v6, seq![s3], Seq::empty()));
    }
    assert(update_pdrs_done(ctx.gtp_addr_v6, s3, listed(req.update_pdrs), session@));
    ctx.insert_session(up_seid, session);
    Ok(
        SessionModificationResponseIes::Accepted {
            cp_seid,
            sequence: req.sequence,
            created_pdrs,
        },
    )
}

} // verus!
