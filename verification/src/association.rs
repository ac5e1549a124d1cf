//! PFCP associations with control plane functions.
use vstd::prelude::*;

use std::collections::HashMap;

use crate::ies::IpAddress;
use crate::session::PfcpSession;

verus! {

/// An association with a control plane function.
pub struct PfcpAssociation {
    /// The Node ID the association is known by.
    pub lnode_id: String,
    pub laddr: IpAddress,
    /// The last local SEID handed out.
    pub lseid: u64,
    /// Sessions by local SEID.
    pub sessions: HashMap<u64, PfcpSession>,
}

impl PfcpAssociation {
    /// A new association; the first local SEID it hands out is 2.
    pub fn new(lnode_id: String, laddr: IpAddress) -> (r: Self)
        ensures
            r.lnode_id@ == lnode_id@,
            r.laddr == laddr,
            r.lseid == 1,
            r.sessions@ == Map::<u64, PfcpSession>::empty(),
    {
        Self { lnode_id, laddr, sessions: HashMap::new(), lseid: 1 }
    }

    pub fn lnode_id(&self) -> (r: &str)
        ensures
            r@ == self.lnode_id@,
    {
        self.lnode_id.as_str()
    }

    pub fn laddr(&self) -> (r: IpAddress)
        ensures
            r == self.laddr,
    {
        self.laddr
    }

    /// Hands out the next local SEID: one more than the last one, so that no
    /// two allocations give the same SEID.
    pub fn allocate_lseid(&mut self) -> (r: u64)
        requires
            old(self).lseid < u64::MAX,
        ensures
            r == old(self).lseid + 1,
            final(self).lseid == r,
            final(self).lnode_id == old(self).lnode_id,
            final(self).laddr == old(self).laddr,
            final(self).sessions == old(self).sessions,
    {
        self.lseid += 1;
        self.lseid
    }

    /// A copy of the session with local SEID `key`.
    pub fn get_session(&self, key: u64) -> (r: Option<PfcpSession>)
        ensures
            match r {
                Some(s) => self.sessions@.contains_key(key) && s@ == self.sessions@[key]@,
                None => !self.sessions@.contains_key(key),
            },
    {
        match self.sessions.get(&key) {
            Some(s) => Some(s.clone()),
            None => None,
        }
    }

    /// Stores `session` under the last local SEID handed out.
    pub fn insert_session(&mut self, session: PfcpSession)
        ensures
            final(self).sessions@ == old(self).sessions@.insert(old(self).lseid, session),
            final(self).lseid == old(self).lseid,
            final(self).lnode_id == old(self).lnode_id,
            final(self).laddr == old(self).laddr,
    {
        self.sessions.insert(self.lseid, session);
    }
}

} // verus!
