//! UE IP addresses as the datapath stores them.
use vstd::prelude::*;

verus! {

/// The UE's addresses, the IPv6 one as the number its sixteen octets spell in
/// network byte order; `v4` and `v6` say which of them is present.
#[derive(Clone, Copy, PartialEq, Eq, Structural)]
pub struct UeIpPod {
    pub v4: bool,
    pub v6: bool,
    pub ipv4_address: u32,
    pub ipv6_address: u128,
}

impl Default for UeIpPod {
    fn default() -> (r: Self)
        ensures
            !r.v4,
            !r.v6,
            r.ipv4_address == 0,
            r.ipv6_address == 0,
    {
        UeIpPod { v4: false, v6: false, ipv4_address: 0, ipv6_address: 0 }
    }
}

impl UeIpPod {
    pub fn new(ipv4_address: u32, ipv6_address: u128, v4: bool, v6: bool) -> (r: Self)
        ensures
            r == (UeIpPod { v4, v6, ipv4_address, ipv6_address }),
    {
        Self { v4, v6, ipv4_address, ipv6_address }
    }

    pub fn is_v4(&self) -> (r: bool)
        ensures
            r == self.v4,
    {
        self.v4
    }

    pub fn is_v6(&self) -> (r: bool)
        ensures
            r == self.v6,
    {
        self.v6
    }

    pub fn ipv4_address(&self) -> (r: u32)
        ensures
            r == self.ipv4_address,
    {
        self.ipv4_address
    }

    /// Stores the IPv4 address and marks it present.
    pub fn set_ipv4_address(&mut self, ipv4_address: u32)
        ensures
            *final(self) == (UeIpPod { v4: true, ipv4_address, ..*old(self) }),
    {
        self.v4 = true;
        self.ipv4_address = ipv4_address;
    }

    pub fn ipv6_address(&self) -> (r: u128)
        ensures
            r == self.ipv6_address,
    {
        self.ipv6_address
    }

    /// Stores the IPv6 address and marks it present.
    pub fn set_ipv6_address(&mut self, ipv6_address: u128)
        ensures
            *final(self) == (UeIpPod { v6: true, ipv6_address, ..*old(self) }),
    {
        self.v6 = true;
        self.ipv6_address = ipv6_address;
    }
}

} // verus!
