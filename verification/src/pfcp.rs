//! The state of the PFCP side of the UPF: its associations and sessions.
use vstd::prelude::*;

use std::collections::HashMap;
use vstd::std_specs::iter::IteratorSpec;

use crate::association::PfcpAssociation;
use crate::datapath::DatapathMaps;
use crate::ies::{IpAddress, UpfError};
use crate::pdr::PdrInfo;
use crate::resource_manager::ResourceManager;
use crate::session::PfcpSession;
use crate::PDR_MAP_SIZE;

verus! {

/// What the PFCP side of the UPF keeps.
pub struct PfcpContext {
    /// The UPF's own Node ID.
    pub node_id: String,
    /// The IPv4 address of the UPF's GTP-U interface.
    pub gtp_addr_v4: u32,
    /// The IPv6 address of the UPF's GTP-U interface, if it has one.
    pub gtp_addr_v6: Option<u128>,
    /// Associations, each with the remote Node ID it is known by.
    pub associations: Vec<(String, PfcpAssociation)>,
    /// Sessions by local SEID.
    pub sessions: HashMap<u64, PfcpSession>,
    pub resource_manager: ResourceManager,
}

/// No two associations are known by the same remote Node ID: the entries
/// stand for a map from Node ID to association.
pub open spec fn distinct_node_ids(assocs: Seq<(String, PfcpAssociation)>) -> bool {
    forall|i: int, j: int| 0 <= i < j < assocs.len() ==> assocs[i].0@ != assocs[j].0@
}

/// Whether the association entry `i` of `assocs` is the first one known by `key`.
pub open spec fn is_first_association(assocs: Seq<(String, PfcpAssociation)>, key: Seq<char>, i: int) -> bool {
    &&& 0 <= i < assocs.len()
    &&& assocs[i].0@ == key
    &&& forall|j: int| 0 <= j < i ==> assocs[j].0@ != key
}

/// The position of the association known by `key`, if there is one.
pub open spec fn association_index(assocs: Seq<(String, PfcpAssociation)>, key: Seq<char>) -> Option<int> {
    if exists|i: int| 0 <= i < assocs.len() && assocs[i].0@ == key {
        Some(choose|i: int| is_first_association(assocs, key, i))
    } else {
        None
    }
}

/// Where `key` occurs, it occurs a first time.
proof fn lemma_first_association_exists(assocs: Seq<(String, PfcpAssociation)>, key: Seq<char>, i: int)
    requires
        0 <= i < assocs.len(),
        assocs[i].0@ == key,
    ensures
        exists|k: int| is_first_association(assocs, key, k),
    decreases i,
{
    if exists|j: int| 0 <= j < i && assocs[j].0@ == key {
        let j = choose|j: int| 0 <= j < i && assocs[j].0@ == key;
        lemma_first_association_exists(assocs, key, j);
    } else {
        assert(is_first_association(assocs, key, i));
    }
}

/// The position that [`association_index`] gives is that of the first entry
/// known by `key`.
pub proof fn lemma_association_index_first(assocs: Seq<(String, PfcpAssociation)>, key: Seq<char>)
    ensures
        match association_index(assocs, key) {
            Some(i) => is_first_association(assocs, key, i),
            None => forall|j: int| 0 <= j < assocs.len() ==> assocs[j].0@ != key,
        },
{
    if exists|i: int| 0 <= i < assocs.len() && assocs[i].0@ == key {
        let i = choose|i: int| 0 <= i < assocs.len() && assocs[i].0@ == key;
        lemma_first_association_exists(assocs, key, i);
    }
}

/// The first position of `key` is unique, and exists where `key` occurs.
proof fn lemma_association_index(assocs: Seq<(String, PfcpAssociation)>, key: Seq<char>, i: int)
    requires
        0 <= i < assocs.len(),
        assocs[i].0@ == key,
        forall|j: int| 0 <= j < i ==> assocs[j].0@ != key,
    ensures
        association_index(assocs, key) == Some(i),
{
    assert(is_first_association(assocs, key, i));
    let k = choose|k: int| is_first_association(assocs, key, k);
    assert(is_first_association(assocs, key, k));
    if k < i {
        assert(assocs[k].0@ != key);
    }
    if i < k {
        assert(assocs[i].0@ != key);
    }
}

/// `after` is `before` with the last local SEID of association `i` one higher.
pub open spec fn seid_allocated(
    before: Seq<(String, PfcpAssociation)>,
    after: Seq<(String, PfcpAssociation)>,
    i: int,
) -> bool {
    &&& after.len() == before.len()
    &&& after[i].0 == before[i].0
    &&& after[i].1.lseid == before[i].1.lseid + 1
    &&& after[i].1.lnode_id == before[i].1.lnode_id
    &&& after[i].1.laddr == before[i].1.laddr
    &&& after[i].1.sessions == before[i].1.sessions
    &&& forall|j: int| 0 <= j < before.len() && j != i ==> after[j] == before[j]
}

/// The local SEIDs that an association hands out one after the other differ,
/// each larger than the one before, and the other associations are left as
/// they were.
pub proof fn lemma_up_seids_increase(
    a0: Seq<(String, PfcpAssociation)>,
    a1: Seq<(String, PfcpAssociation)>,
    a2: Seq<(String, PfcpAssociation)>,
    i: int,
)
    requires
        0 <= i < a0.len(),
        seid_allocated(a0, a1, i),
        seid_allocated(a1, a2, i),
    ensures
        a0[i].1.lseid + 1 < a1[i].1.lseid + 1,
        a1[i].1.lseid == a0[i].1.lseid + 1,
        a2[i].1.lseid == a1[i].1.lseid + 1,
        forall|j: int| 0 <= j < a0.len() && j != i ==> a2[j] == a0[j],
{
}

impl PfcpContext {
    /// A context without associations or sessions.
    pub fn new(node_id: String, gtp_addr_v4: u32, gtp_addr_v6: Option<u128>) -> (r: Self)
        ensures
            r.node_id@ == node_id@,
            r.gtp_addr_v4 == gtp_addr_v4,
            r.gtp_addr_v6 == gtp_addr_v6,
            r.associations@.len() == 0,
            distinct_node_ids(r.associations@),
            r.sessions@ == Map::<u64, PfcpSession>::empty(),
            r.resource_manager.teids@ == Map::<u8, u32>::empty(),
    {
        Self {
            node_id,
            gtp_addr_v4,
            gtp_addr_v6,
            associations: Vec::new(),
            sessions: HashMap::new(),
            resource_manager: ResourceManager::new(),
        }
    }

    pub fn gtp_addr_v4(&self) -> (r: u32)
        ensures
            r == self.gtp_addr_v4,
    {
        self.gtp_addr_v4
    }

    pub fn gtp_addr_v6(&self) -> (r: Option<u128>)
        ensures
            r == self.gtp_addr_v6,
    {
        self.gtp_addr_v6
    }

    pub fn node_id(&self) -> (r: &str)
        ensures
            r@ == self.node_id@,
    {
        self.node_id.as_str()
    }

    /// Finds the association known by `rnode_id`.
    pub fn find_association(&self, rnode_id: &String) -> (r: Option<usize>)
        ensures
            match association_index(self.associations@, rnode_id@) {
                Some(i) => r == Some(i as usize),
                None => r is None,
            },
    {
        proof {
            lemma_association_index_first(self.associations@, rnode_id@);
        }
        let mut i: usize = 0;
        while i < self.associations.len()
            invariant
                i <= self.associations@.len(),
                forall|j: int| 0 <= j < i ==> self.associations@[j].0@ != rnode_id@,
            decreases self.associations@.len() - i,
        {
            if self.associations[i].0 == *rnode_id {
                proof {
                    lemma_association_index(self.associations@, rnode_id@, i as int);
                }
                return Some(i);
            }
            i += 1;
        }
        None
    }

    /// Hands out the next local SEID of the association known by `rnode_id`;
    /// `None` where there is no such association.
    pub fn allocate_up_seid(&mut self, rnode_id: &String) -> (r: Option<u64>)
        requires
            association_index(old(self).associations@, rnode_id@) matches Some(i)
                ==> old(self).associations@[i].1.lseid < u64::MAX,
        ensures
            final(self).node_id == old(self).node_id,
            final(self).gtp_addr_v4 == old(self).gtp_addr_v4,
            final(self).gtp_addr_v6 == old(self).gtp_addr_v6,
            final(self).sessions@ == old(self).sessions@,
            final(self).resource_manager == old(self).resource_manager,
            final(self).associations@.len() == old(self).associations@.len(),
            distinct_node_ids(old(self).associations@) ==> distinct_node_ids(final(self).associations@),
            match association_index(old(self).associations@, rnode_id@) {
                None => r is None && final(self).associations@ == old(self).associations@,
                Some(i) => r == Some((old(self).associations@[i].1.lseid + 1) as u64)
                    && seid_allocated(old(self).associations@, final(self).associations@, i),
            },
    {
        proof {
            lemma_association_index_first(self.associations@, rnode_id@);
        }
        match self.find_association(rnode_id) {
            None => None,
            Some(i) => {
                let (key, mut association) = self.associations.remove(i);
                let seid = association.allocate_lseid();
                self.associations.insert(i, (key, association));
                Some(seid)
            },
        }
    }

    /// Stores `association` under `rnode_id`, in place of the one known by
    /// that Node ID, which is given back.
    pub fn insert_association(&mut self, rnode_id: String, association: PfcpAssociation) -> (r:
        Option<PfcpAssociation>)
        ensures
            final(self).node_id == old(self).node_id,
            final(self).gtp_addr_v4 == old(self).gtp_addr_v4,
            final(self).gtp_addr_v6 == old(self).gtp_addr_v6,
            final(self).sessions@ == old(self).sessions@,
            final(self).resource_manager == old(self).resource_manager,
            distinct_node_ids(old(self).associations@) ==> distinct_node_ids(final(self).associations@),
            match association_index(old(self).associations@, rnode_id@) {
                None => r is None && final(self).associations@ == old(self).associations@.push(
                    (rnode_id, association),
                ),
                Some(i) => r == Some(old(self).associations@[i].1)
                    && final(self).associations@ == old(self).associations@.update(
                    i,
                    (rnode_id, association),
                ),
            },
    {
        proof {
            lemma_association_index_first(self.associations@, rnode_id@);
        }
        match self.find_association(&rnode_id) {
            None => {
                self.associations.push((rnode_id, association));
                None
            },
            Some(i) => {
                let (_key, previous) = self.associations.remove(i);
                self.associations.insert(i, (rnode_id, association));
                Some(previous)
            },
        }
    }

    /// A copy of the session with local SEID `key`.
    pub fn get_session(&self, key: u64) -> (r: Option<PfcpSession>)
        ensures
            match r {
                Some(s) => self.sessions@.contains_key(key) && s@ == self.sessions@[key]@,
                None => !self.sessions@.contains_key(key),
            },
    {
        match self.sessions.get(&key) {
            Some(s) => Some(s.clone()),
            None => None,
        }
    }

    /// Stores `session` under the local SEID `lseid`.
    pub fn insert_session(&mut self, lseid: u64, session: PfcpSession)
        ensures
            final(self).sessions@ == old(self).sessions@.insert(lseid, session),
            final(self).node_id == old(self).node_id,
            final(self).gtp_addr_v4 == old(self).gtp_addr_v4,
            final(self).gtp_addr_v6 == old(self).gtp_addr_v6,
            final(self).associations == old(self).associations,
            final(self).resource_manager == old(self).resource_manager,
    {
        self.sessions.insert(lseid, session);
    }
}

/// A Heartbeat Request is always answered.
pub fn handle_hearbeat_request() -> (r: Result<(), UpfError>)
    ensures
        r is Ok,
{
    Ok(())
}

/// Sets up an association with the control plane function `rnode_id` at
/// `remote_ip`, in place of any earlier one with that Node ID; the request is
/// accepted.
pub fn handle_association_setup_request(
    ctx: &mut PfcpContext,
    rnode_id: String,
    remote_ip: IpAddress,
) -> (r: Option<PfcpAssociation>)
    ensures
        final(ctx).sessions@ == old(ctx).sessions@,
        final(ctx).associations@.len() >= 1,
        distinct_node_ids(old(ctx).associations@) ==> distinct_node_ids(final(ctx).associations@),
        match association_index(old(ctx).associations@, rnode_id@) {
            None => r is None && final(ctx).associations@.len() == old(ctx).associations@.len() + 1
                && final(ctx).associations@.drop_last() == old(ctx).associations@,
            Some(i) => r == Some(old(ctx).associations@[i].1) && final(ctx).associations@.len()
                == old(ctx).associations@.len() && forall|j: int|
                0 <= j < old(ctx).associations@.len() && j != i ==> final(ctx).associations@[j]
                    == old(ctx).associations@[j],
        },
        match association_index(final(ctx).associations@, rnode_id@) {
            Some(i) => {
                &&& final(ctx).associations@[i].1.lnode_id@ == rnode_id@
                &&& final(ctx).associations@[i].1.laddr == remote_ip
                &&& final(ctx).associations@[i].1.lseid == 1
                &&& final(ctx).associations@[i].1.sessions@ == Map::<u64, PfcpSession>::empty()
            },
            None => false,
        },
{
    let association = PfcpAssociation::new(rnode_id.clone(), remote_ip);
    let ghost a = association;
    let ghost key = rnode_id@;
    let ghost old_assocs = ctx.associations@;
    proof {
        lemma_association_index_first(old_assocs, key);
    }
    let r = ctx.insert_association(rnode_id, association);
    proof {
        match association_index(old_assocs, key) {
            None => {
                let n = old_assocs.len() as int;
                assert(forall|j: int| 0 <= j < n ==> ctx.associations@[j].0@ != key);
                lemma_association_index(ctx.associations@, key, n);
                assert(ctx.associations@.drop_last() =~= old_assocs);
            },
            Some(i) => {
                assert(is_first_association(old_assocs, key, i));
                lemma_association_index(ctx.associations@, key, i);
            },
        }
    }
    r
}


/// `ids` lists each key of `m` once.
pub open spec fn lists_keys(ids: Seq<u16>, m: Map<u16, PdrInfo>) -> bool {
    &&& ids.no_duplicates()
    &&& forall|j: int| 0 <= j < ids.len() ==> #[trigger] m.contains_key(ids[j])
    &&& forall|k: u16| #[trigger] m.contains_key(k) ==> ids.contains(k)
}

/// The PDRs of `pdrs` are ordered by precedence.
pub open spec fn by_precedence(pdrs: Seq<PdrInfo>) -> bool {
    forall|i: int, j: int| 0 <= i <= j < pdrs.len() ==> #[trigger] pdrs[i].precedence <= #[trigger] pdrs[j].precedence
}

/// `pdrs` holds the PDRs of `m`, each once, ordered by precedence.
pub open spec fn sorted_pdrs(pdrs: Seq<PdrInfo>, m: Map<u16, PdrInfo>) -> bool {
    exists|ids: Seq<u16>|
        #![trigger lists_keys(ids, m)]
        ids.len() == pdrs.len() && lists_keys(ids, m) && (forall|j: int|
            0 <= j < ids.len() ==> pdrs[j] == m[ids[j]]) && by_precedence(pdrs)
}

/// The rule array of the datapath for the PDRs of `m`: those PDRs, each
/// once, ordered by precedence, then new unallocated PDRs.
pub open spec fn compiled_pdrs(slice: Seq<PdrInfo>, m: Map<u16, PdrInfo>) -> bool {
    &&& slice.len() == PDR_MAP_SIZE
    &&& exists|n: int|
        #![trigger slice.subrange(0, n)]
        0 <= n <= PDR_MAP_SIZE && sorted_pdrs(slice.subrange(0, n), m) && forall|i: int|
            n <= i < PDR_MAP_SIZE ==> #[trigger] slice[i].is_new(0)
}

/// The position before which `p` goes among `pdrs`: behind every PDR of no
/// higher precedence.
fn insert_position(pdrs: &Vec<PdrInfo>, p: &PdrInfo) -> (pos: usize)
    requires
        by_precedence(pdrs@),
    ensures
        pos <= pdrs@.len(),
        forall|i: int| 0 <= i < pos ==> pdrs@[i].precedence <= p.precedence,
        forall|i: int| pos <= i < pdrs@.len() ==> pdrs@[i].precedence > p.precedence,
{
    let mut pos: usize = 0;
    while pos < pdrs.len()
        invariant
            pos <= pdrs@.len(),
            by_precedence(pdrs@),
            forall|i: int| 0 <= i < pos ==> pdrs@[i].precedence <= p.precedence,
        decreases pdrs@.len() - pos,
    {
        if pdrs[pos].precedence > p.precedence {
            assert forall|i: int| pos <= i < pdrs@.len() implies pdrs@[i].precedence > p.precedence by {
                assert(pdrs@[pos as int].precedence <= pdrs@[i].precedence);
            }
            return pos;
        }
        pos += 1;
    }
    pos
}

/// The PDRs of `m`, in the order the map gives them, with their keys.
fn collect_pdrs(m: &HashMap<u16, PdrInfo>) -> (r: (Vec<PdrInfo>, Ghost<Seq<u16>>))
    ensures
        r.0@.len() == r.1@.len(),
        lists_keys(r.1@, m@),
        forall|j: int| 0 <= j < r.1@.len() ==> r.0@[j] == m@[r.1@[j]],
{
    broadcast use vstd::std_specs::hash::group_hash_axioms;
    let mut out: Vec<PdrInfo> = Vec::new();
    let ghost mut ids: Seq<u16> = Seq::empty();
    for item in it: m.iter()
        invariant
            it.seq() == vstd::std_specs::hash::spec_hash_map_iter(m).remaining(),
            it.seq().no_duplicates(),
            out@.len() == it.index(),
            ids.len() == it.index(),
            forall|q: int| 0 <= q < ids.len() ==> ids[q] == *it.seq()[q].0,
            forall|q: int| 0 <= q < ids.len() ==> out@[q] == *it.seq()[q].1,
    {
        let (k, p) = item;
        out.push(*p);
        proof {
            ids = ids.push(*k);
        }
    }
    proof {
        let v = vstd::std_specs::hash::spec_hash_map_iter(m).remaining();
        assert forall|j: int| 0 <= j < ids.len() implies #[trigger] m@.contains_key(ids[j])
            && out@[j] == m@[ids[j]] by {
            assert(m@.contains_key(*v[j].0));
        }
        assert forall|k: u16| #[trigger] m@.contains_key(k) implies ids.contains(k) by {
            assert(v.contains((&k, &m@[k])));
            let q = choose|q: int| 0 <= q < v.len() && v[q] == (&k, &m@[k]);
            assert(ids[q] == k);
        }
        assert forall|a: int, b: int| 0 <= a < ids.len() && 0 <= b < ids.len() && a != b implies ids[a]
            != ids[b] by {
            if ids[a] == ids[b] {
                assert(m@.contains_key(*v[a].0));
                assert(m@.contains_key(*v[b].0));
                assert(v[a] == v[b]);
            }
        }
    }
    (out, Ghost(ids))
}

/// The PDRs of `v`, whose keys `src` lists the keys of `m`, ordered by
/// precedence; PDRs of equal precedence keep their order.
fn sort_pdrs(v: &Vec<PdrInfo>, Ghost(src): Ghost<Seq<u16>>, Ghost(m): Ghost<Map<u16, PdrInfo>>) -> (r: Vec<
    PdrInfo,
>)
    requires
        v@.len() == src.len(),
        lists_keys(src, m),
        forall|j: int| 0 <= j < src.len() ==> v@[j] == m[src[j]],
    ensures
        sorted_pdrs(r@, m),
        r@.len() == v@.len(),
{
    let mut out: Vec<PdrInfo> = Vec::new();
    let ghost mut ids: Seq<u16> = Seq::empty();
    let mut i: usize = 0;
    while i < v.len()
        invariant
            v@.len() == src.len(),
            lists_keys(src, m),
            forall|j: int| 0 <= j < src.len() ==> v@[j] == m[src[j]],
            i <= v@.len(),
            out@.len() == i,
            ids.len() == i,
            ids.no_duplicates(),
            forall|j: int| 0 <= j < ids.len() ==> #[trigger] src.subrange(0, i as int).contains(ids[j]),
            forall|q: int| 0 <= q < i ==> ids.contains(#[trigger] src[q]),
            forall|j: int| 0 <= j < ids.len() ==> #[trigger] out@[j] == m[ids[j]],
            by_precedence(out@),
        decreases v@.len() - i,
    {
        let p = v[i];
        let pos = insert_position(&out, &p);
        let ghost old_out = out@;
        let ghost old_ids = ids;
        let ghost k = src[i as int];
        out.insert(pos, p);
        proof {
            ids = ids.insert(pos as int, k);
            assert(!old_ids.contains(k)) by {
                if old_ids.contains(k) {
                    let j = choose|j: int| 0 <= j < old_ids.len() && old_ids[j] == k;
                    assert(src.subrange(0, i as int).contains(old_ids[j]));
                    let q = choose|q: int| 0 <= q < i && src.subrange(0, i as int)[q] == k;
                    assert(src[q] == src[i as int]);
                }
            }
            assert(ids.no_duplicates()) by {
                assert forall|a: int, b: int| 0 <= a < ids.len() && 0 <= b < ids.len() && a != b implies ids[a]
                    != ids[b] by {
                    if a != pos && b != pos {
                        let a0 = if a < pos { a } else { a - 1 };
                        let b0 = if b < pos { b } else { b - 1 };
                        assert(ids[a] == old_ids[a0]);
                        assert(ids[b] == old_ids[b0]);
                    } else if a == pos {
                        let b0 = if b < pos { b } else { b - 1 };
                        assert(ids[b] == old_ids[b0]);
                        assert(old_ids.contains(old_ids[b0]));
                    } else {
                        let a0 = if a < pos { a } else { a - 1 };
                        assert(ids[a] == old_ids[a0]);
                        assert(old_ids.contains(old_ids[a0]));
                    }
                }
            }
            assert forall|j: int| 0 <= j < ids.len() implies #[trigger] src.subrange(0, i + 1).contains(ids[j]) by {
                if j == pos {
                    assert(src.subrange(0, i + 1)[i as int] == k);
                } else {
                    let j0 = if j < pos { j } else { j - 1 };
                    assert(ids[j] == old_ids[j0]);
                    assert(src.subrange(0, i as int).contains(old_ids[j0]));
                    let q = choose|q: int| 0 <= q < i && src.subrange(0, i as int)[q] == old_ids[j0];
                    assert(src.subrange(0, i + 1)[q] == old_ids[j0]);
                }
            }
            assert forall|q: int| 0 <= q < i + 1 implies ids.contains(#[trigger] src[q]) by {
                if q == i {
                    assert(ids[pos as int] == k);
                } else {
                    assert(old_ids.contains(src[q]));
                    let j = choose|j: int| 0 <= j < old_ids.len() && old_ids[j] == src[q];
                    let j1 = if j < pos { j } else { j + 1 };
                    assert(ids[j1] == src[q]);
                }
            }
            assert forall|j: int| 0 <= j < ids.len() implies #[trigger] out@[j] == m[ids[j]] by {
                if j != pos {
                    let j0 = if j < pos { j } else { j - 1 };
                    assert(out@[j] == old_out[j0]);
                    assert(ids[j] == old_ids[j0]);
                }
            }
            assert(by_precedence(out@)) by {
                assert forall|a: int, b: int| 0 <= a <= b < out@.len() implies #[trigger] out@[a].precedence
                    <= #[trigger] out@[b].precedence by {
                    let a0 = if a < pos { a } else { a - 1 };
                    let b0 = if b < pos { b } else { b - 1 };
                    if a != pos && b != pos {
                        assert(out@[a] == old_out[a0]);
                        assert(out@[b] == old_out[b0]);
                        assert(old_out[a0].precedence <= old_out[b0].precedence);
                    } else if a == pos && b != pos {
                        assert(out@[b] == old_out[b0]);
                    } else if a != pos && b == pos {
                        assert(out@[a] == old_out[a0]);
                    }
                }
            }
        }
        i += 1;
    }
    proof {
        assert(src.subrange(0, i as int) =~= src);
        assert(lists_keys(ids, m)) by {
            assert forall|j: int| 0 <= j < ids.len() implies #[trigger] m.contains_key(ids[j]) by {
                assert(src.contains(ids[j]));
                let q = choose|q: int| 0 <= q < src.len() && src[q] == ids[j];
                assert(m.contains_key(src[q]));
            }
            assert forall|k: u16| #[trigger] m.contains_key(k) implies ids.contains(k) by {
                assert(src.contains(k));
                let q = choose|q: int| 0 <= q < src.len() && src[q] == k;
                assert(ids.contains(src[q]));
            }
        }
    }
    out
}

/// A list of each key of a map once is as long as the map.
proof fn lemma_lists_keys_len(ids: Seq<u16>, m: Map<u16, PdrInfo>)
    requires
        lists_keys(ids, m),
    ensures
        ids.len() == m.dom().len(),
{
    ids.unique_seq_to_set();
    assert(ids.to_set() =~= m.dom());
}

/// The PDRs of `m` ordered by precedence.
fn sort_by_precedence(m: &HashMap<u16, PdrInfo>) -> (r: Vec<PdrInfo>)
    ensures
        sorted_pdrs(r@, m@),
        r@.len() == m@.dom().len(),
{
    let (pdrs, ids) = collect_pdrs(m);
    proof {
        lemma_lists_keys_len(ids@, m@);
    }
    sort_pdrs(&pdrs, ids, Ghost(m@))
}

/// The rule array of the datapath for PDRs ordered by precedence: those
/// PDRs, then new unallocated PDRs.
fn pdr_slice(pdrs: &Vec<PdrInfo>) -> (r: [PdrInfo; PDR_MAP_SIZE])
    requires
        pdrs@.len() <= PDR_MAP_SIZE,
    ensures
        r@.subrange(0, pdrs@.len() as int) == pdrs@,
        forall|i: int| pdrs@.len() <= i < PDR_MAP_SIZE ==> #[trigger] r@[i].is_new(0),
{
    let d = PdrInfo::default();
    let mut slice = [d, d, d, d, d, d, d, d, d, d];
    let mut idx: usize = 0;
    while idx < pdrs.len()
        invariant
            pdrs@.len() <= PDR_MAP_SIZE,
            idx <= pdrs@.len(),
            d.is_new(0),
            forall|j: int| 0 <= j < idx ==> slice@[j] == pdrs@[j],
            forall|j: int| idx <= j < PDR_MAP_SIZE ==> slice@[j] == d,
        decreases pdrs@.len() - idx,
    {
        slice[idx] = pdrs[idx];
        idx += 1;
    }
    assert(slice@.subrange(0, pdrs@.len() as int) =~= pdrs@);
    slice
}

/// Stores every entry of `src` in `dst`, in place of any there under the same key.
fn insert_all<V: Copy>(dst: &mut HashMap<u32, V>, src: &HashMap<u32, V>)
    ensures
        final(dst)@ == old(dst)@.union_prefer_right(src@),
{
    broadcast use vstd::std_specs::hash::group_hash_axioms;
    let ghost orig = dst@;
    for item in it: src.iter()
        invariant
            orig == old(dst)@,
            it.seq() == vstd::std_specs::hash::spec_hash_map_iter(src).remaining(),
            forall|k: u32|
                #![trigger dst@.contains_key(k)]
                dst@.contains_key(k) <==> (orig.contains_key(k) || exists|q: int|
                    0 <= q < it.index() && *it.seq()[q].0 == k),
            forall|k: u32|
                #![trigger dst@[k]]
                dst@.contains_key(k) ==> dst@[k] == if exists|q: int|
                    0 <= q < it.index() && *it.seq()[q].0 == k {
                    src@[k]
                } else {
                    orig[k]
                },
    {
        let (k, v) = item;
        dst.insert(*k, *v);
    }
    proof {
        let sq = vstd::std_specs::hash::spec_hash_map_iter(src).remaining();
        assert forall|k: u32| #[trigger] src@.contains_key(k) implies exists|q: int|
            0 <= q < sq.len() && *sq[q].0 == k by {
            assert(sq.contains((&k, &src@[k])));
        }
        assert forall|k: u32| (exists|q: int| 0 <= q < sq.len() && *sq[q].0 == k) implies #[trigger] src@.contains_key(k) by {
            let q = choose|q: int| 0 <= q < sq.len() && *sq[q].0 == k;
            assert(src@.contains_key(*sq[q].0));
        }
        assert(dst@ =~= orig.union_prefer_right(src@));
    }
}

impl PfcpContext {
    /// Writes a session's rules into the datapath's maps: its FARs, QERs and
    /// URRs, its uplink PDRs ordered by precedence under its local TEID, and
    /// its downlink PDRs ordered by precedence under its UE IPv4 address. Sessions that cannot be
    /// compiled are left out: more PDRs than the datapath's array holds, or a
    /// UE IPv6 address.
    pub fn compile_session(&self, session: &PfcpSession, maps: &mut DatapathMaps) -> (r: Result<(), UpfError>)
        requires
            session.teid is Some ==> session.ul_pdrs@.dom().len() <= PDR_MAP_SIZE
                && session.dl_pdrs@.dom().len() <= PDR_MAP_SIZE && session.ue_ipv6 is None,
        ensures
            final(maps).int_ips@ == old(maps).int_ips@,
            match session.teid {
                None => r == Err::<(), UpfError>(UpfError::SessionWithoutTeid) && final(maps).ul_pdrs@
                    == old(maps).ul_pdrs@ && final(maps).dl_pdrs@ == old(maps).dl_pdrs@ && final(maps).rules.fars@ == old(maps).rules.fars@ && final(maps).rules.qers@ == old(maps).rules.qers@ && final(maps).rules.urrs@ == old(maps).rules.urrs@,
                Some(teid) => {
                    &&& final(maps).rules.fars@ == old(maps).rules.fars@.union_prefer_right(session.fars@)
                    &&& final(maps).rules.qers@ == old(maps).rules.qers@.union_prefer_right(session.qers@)
                    &&& final(maps).rules.urrs@ == old(maps).rules.urrs@.union_prefer_right(session.urrs@)
                    &&& final(maps).ul_pdrs@.contains_key(teid)
                    &&& compiled_pdrs(final(maps).ul_pdrs@[teid]@, session.ul_pdrs@)
                    &&& final(maps).ul_pdrs@ == old(maps).ul_pdrs@.insert(teid, final(maps).ul_pdrs@[teid])
                    &&& match session.ue_ipv4 {
                        None => r == Err::<(), UpfError>(UpfError::SessionWithoutUeIp) && final(maps).dl_pdrs@ == old(maps).dl_pdrs@,
                        Some(ue_ipv4) => {
                            &&& r is Ok
                            &&& final(maps).dl_pdrs@.contains_key(ue_ipv4)
                            &&& compiled_pdrs(final(maps).dl_pdrs@[ue_ipv4]@, session.dl_pdrs@)
                            &&& final(maps).dl_pdrs@ == old(maps).dl_pdrs@.insert(ue_ipv4, final(maps).dl_pdrs@[ue_ipv4])
                        },
                    }
                },
            },
    {
        let teid = match session.teid() {
            Some(teid) => teid,
            None => return Err(UpfError::SessionWithoutTeid),
        };
        let ul_pdrs = sort_by_precedence(&session.ul_pdrs);
        let ul_pdr_slice = pdr_slice(&ul_pdrs);
        let dl_pdrs = sort_by_precedence(&session.dl_pdrs);
        let dl_pdr_slice = pdr_slice(&dl_pdrs);
        insert_all(&mut maps.rules.fars, &session.fars);
        insert_all(&mut maps.rules.qers, &session.qers);
        insert_all(&mut maps.rules.urrs, &session.urrs);
        maps.ul_pdrs.insert(teid, ul_pdr_slice);
        match session.ue_ipv4() {
            None => Err(UpfError::SessionWithoutUeIp),
            Some(ue_ipv4) => {
                maps.dl_pdrs.insert(ue_ipv4, dl_pdr_slice);
                Ok(())
            },
        }
    }
}

} // verus!
