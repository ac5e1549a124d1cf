//! Fully qualified tunnel endpoint identifiers.
use vstd::prelude::*;

verus! {

/// A local or remote F-TEID: the TEID and the addresses of the tunnel endpoint.
/// `v4` and `v6` say which of the two addresses is present.
#[derive(Clone, Copy, PartialEq, Eq, Structural)]
pub struct Fteid {
    pub teid: u32,
    pub ipv4_address: u32,
    pub ipv6_address: u128,
    pub v4: bool,
    pub v6: bool,
}

impl Default for Fteid {
    fn default() -> (r: Self)
        ensures
            r == Fteid::spec_default(),
    {
        Fteid { teid: 0, ipv4_address: 0, ipv6_address: 0, v4: false, v6: false }
    }
}

impl Fteid {
    /// The F-TEID with no address and TEID 0.
    pub open spec fn spec_default() -> Fteid {
        Fteid { teid: 0, ipv4_address: 0, ipv6_address: 0, v4: false, v6: false }
    }

    /// The IPv4 F-TEID `ipv4_address`/`teid`.
    pub open spec fn spec_new(teid: u32, ipv4_address: u32) -> Fteid {
        Fteid { teid, ipv4_address, ipv6_address: 0, v4: true, v6: false }
    }

    pub fn new(teid: u32, ipv4_address: u32) -> (r: Self)
        ensures
            r == Fteid::spec_new(teid, ipv4_address),
    {
        Self { teid, ipv4_address, ipv6_address: 0, v4: true, v6: false }
    }

    pub fn teid(&self) -> (r: u32)
        ensures
            r == self.teid,
    {
        self.teid
    }

    pub fn set_teid(&mut self, teid: u32)
        ensures
            *final(self) == (Fteid { teid, ..*old(self) }),
    {
        self.teid = teid;
    }

    pub fn ipv4_address(&self) -> (r: u32)
        ensures
            r == self.ipv4_address,
    {
        self.ipv4_address
    }

    /// Stores the IPv4 address and marks it present.
    pub fn set_ipv4_address(&mut self, ipv4_address: u32)
        ensures
            *final(self) == (Fteid { ipv4_address, v4: true, ..*old(self) }),
    {
        self.ipv4_address = ipv4_address;
        self.v4 = true;
    }

    pub fn ipv6_address(&self) -> (r: u128)
        ensures
            r == self.ipv6_address,
    {
        self.ipv6_address
    }

    /// Stores the IPv6 address and marks it present.
    pub fn set_ipv6_address(&mut self, ipv6_address: u128)
        ensures
            *final(self) == (Fteid { ipv6_address, v6: true, ..*old(self) }),
    {
        self.ipv6_address = ipv6_address;
        self.v6 = true;
    }

    pub fn is_v4(&self) -> (r: bool)
        ensures
            r == self.v4,
    {
        self.v4
    }

    pub fn is_v6(&self) -> (r: bool)
        ensures
            r == self.v6,
    {
        self.v6
    }
}

} // verus!
