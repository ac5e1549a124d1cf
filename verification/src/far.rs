//! Forwarding Action Rules as the datapath stores them.
use vstd::prelude::*;

verus! {

/// Apply Action flags of a FAR (octet 5 of the Apply Action IE).
#[derive(Clone, Copy, PartialEq, Eq, Structural)]
pub struct FarAction {
    pub bits: u8,
}

/// The bits of [`FarAction`] that carry a meaning.
pub const FAR_ACTION_ALL: u8 = 0x1f;

impl FarAction {
    /// No action bit set.
    pub fn empty() -> (r: Self)
        ensures
            r.bits == 0,
    {
        FarAction { bits: 0 }
    }

    /// Drop the packets.
    pub fn drop_flag() -> (r: Self)
        ensures
            r.bits == 1,
    {
        FarAction { bits: 1 }
    }

    /// Forward the packets.
    pub fn forw() -> (r: Self)
        ensures
            r.bits == 2,
    {
        FarAction { bits: 2 }
    }

    /// Buffer the packets.
    pub fn buff() -> (r: Self)
        ensures
            r.bits == 4,
    {
        FarAction { bits: 4 }
    }

    /// Notify the CP function.
    pub fn nocp() -> (r: Self)
        ensures
            r.bits == 8,
    {
        FarAction { bits: 8 }
    }

    /// Duplicate the packets.
    pub fn dupl() -> (r: Self)
        ensures
            r.bits == 16,
    {
        FarAction { bits: 16 }
    }

    /// Keeps the known action bits of `bits` and clears the others.
    pub fn from_bits_truncate(bits: u8) -> (r: Self)
        ensures
            r.bits == bits & FAR_ACTION_ALL,
    {
        FarAction { bits: bits & FAR_ACTION_ALL }
    }

    pub fn bits(&self) -> (r: u8)
        ensures
            r == self.bits,
    {
        self.bits
    }

    /// Whether every bit of `other` is set in `self`.
    pub fn contains(&self, other: FarAction) -> (r: bool)
        ensures
            r == (self.bits & other.bits == other.bits),
    {
        self.bits & other.bits == other.bits
    }
}

/// Outer Header Creation description flags.
#[derive(Clone, Copy, PartialEq, Eq, Structural)]
pub struct OhcFlags {
    pub bits: u8,
}

impl OhcFlags {
    pub fn empty() -> (r: Self)
        ensures
            r.bits == 0,
    {
        OhcFlags { bits: 0 }
    }

    /// Builds the flags from their raw bits; every bit of a `u8` has a meaning.
    pub fn from_bits(bits: u8) -> (r: Self)
        ensures
            r.bits == bits,
    {
        OhcFlags { bits }
    }

    pub fn bits(&self) -> (r: u8)
        ensures
            r == self.bits,
    {
        self.bits
    }

    pub fn contains(&self, other: OhcFlags) -> (r: bool)
        ensures
            r == (self.bits & other.bits == other.bits),
    {
        self.bits & other.bits == other.bits
    }

    /// Sets every bit of `other` in `self`.
    pub fn insert(&mut self, other: OhcFlags)
        ensures
            final(self).bits == old(self).bits | other.bits,
    {
        self.bits = self.bits | other.bits;
    }
}

/// Bit of [`OhcFlags`]: GTP-U/UDP/IPv4.
pub const OHC_GTPU_UDP_IPV4: u8 = 0x01;
/// Bit of [`OhcFlags`]: GTP-U/UDP/IPv6.
pub const OHC_GTPU_UDP_IPV6: u8 = 0x02;
/// Bit of [`OhcFlags`]: UDP/IPv4.
pub const OHC_UDP_IPV4: u8 = 0x04;
/// Bit of [`OhcFlags`]: UDP/IPv6.
pub const OHC_UDP_IPV6: u8 = 0x08;
/// Bit of [`OhcFlags`]: IPv4.
pub const OHC_IPV4: u8 = 0x10;
/// Bit of [`OhcFlags`]: IPv6.
pub const OHC_IPV6: u8 = 0x20;
/// Bit of [`OhcFlags`]: C-TAG.
pub const OHC_CTAG: u8 = 0x40;
/// Bit of [`OhcFlags`]: S-TAG.
pub const OHC_STAG: u8 = 0x80;

pub struct OuterHeaderCreation {
    pub flags: OhcFlags,
    pub teid: u32,
    pub ipv4_address: u32,
    pub port_number: u16,
}

#[derive(Clone, Copy, PartialEq, Eq, Structural)]
pub struct FarInfo {
    pub destination_interface: u8,
    pub action: FarAction,
    pub dscp: u8,
    pub teid: u32,
    pub remote_ipv4: u32,
    pub ohc: OhcFlags,
}

impl Default for FarInfo {
    fn default() -> (r: Self)
        ensures
            r == FarInfo::spec_new(),
    {
        Self::new()
    }
}

impl FarInfo {
    /// A FAR with every field zero and no flag set.
    pub open spec fn spec_new() -> FarInfo {
        FarInfo {
            destination_interface: 0,
            action: FarAction { bits: 0 },
            dscp: 0,
            teid: 0,
            remote_ipv4: 0,
            ohc: OhcFlags { bits: 0 },
        }
    }

    pub fn new() -> (r: Self)
        ensures
            r == FarInfo::spec_new(),
    {
        Self {
            destination_interface: 0,
            action: FarAction::empty(),
            dscp: 0,
            teid: 0,
            remote_ipv4: 0,
            ohc: OhcFlags::empty(),
        }
    }

    pub fn destination_interface(&self) -> (r: u8)
        ensures
            r == self.destination_interface,
    {
        self.destination_interface
    }

    pub fn set_destination_interface(&mut self, destination_interface: u8)
        ensures
            *final(self) == (FarInfo { destination_interface, ..*old(self) }),
    {
        self.destination_interface = destination_interface;
    }

    pub fn action(&self) -> (r: FarAction)
        ensures
            r == self.action,
    {
        self.action
    }

    /// Stores the known action bits of `action`, dropping the others.
    pub fn set_action(&mut self, action: u8)
        ensures
            *final(self) == (FarInfo {
                action: FarAction { bits: action & FAR_ACTION_ALL },
                ..*old(self)
            }),
    {
        self.action = FarAction::from_bits_truncate(action);
    }

    pub fn dscp(&self) -> (r: u8)
        ensures
            r == self.dscp,
    {
        self.dscp
    }

    pub fn set_dscp(&mut self, tos: u8)
        ensures
            *final(self) == (FarInfo { dscp: tos, ..*old(self) }),
    {
        self.dscp = tos;
    }

    pub fn teid(&self) -> (r: u32)
        ensures
            r == self.teid,
    {
        self.teid
    }

    pub fn set_teid(&mut self, teid: u32)
        ensures
            *final(self) == (FarInfo { teid, ..*old(self) }),
    {
        self.teid = teid;
    }

    pub fn remote_ipv4(&self) -> (r: u32)
        ensures
            r == self.remote_ipv4,
    {
        self.remote_ipv4
    }

    pub fn set_remote_ipv4(&mut self, remote_ipv4: u32)
        ensures
            *final(self) == (FarInfo { remote_ipv4, ..*old(self) }),
    {
        self.remote_ipv4 = remote_ipv4;
    }

    pub fn ohc(&self) -> (r: OhcFlags)
        ensures
            r == self.ohc,
    {
        self.ohc
    }

    pub fn set_ohc(&mut self, ohc: OhcFlags)
        ensures
            *final(self) == (FarInfo { ohc, ..*old(self) }),
    {
        self.ohc = ohc;
    }
}

} // verus!
