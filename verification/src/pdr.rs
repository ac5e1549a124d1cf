//! Packet Detection Rules as the datapath stores them.
use vstd::prelude::*;

use crate::pdi::PdiPod;
use crate::{QER_MAP_SIZE, URR_MAP_SIZE};

verus! {

/// Outer Header Removal description flags.
#[derive(Clone, Copy, PartialEq, Eq, Structural)]
pub struct OuterHeaderRemovalFlags {
    pub bits: u8,
}

/// Bit of [`OuterHeaderRemovalFlags`]: GTP-U/UDP/IPv4.
pub const OHR_GTPU_UDP_IPV4: u8 = 0x01;

impl OuterHeaderRemovalFlags {
    pub fn empty() -> (r: Self)
        ensures
            r.bits == 0,
    {
        OuterHeaderRemovalFlags { bits: 0 }
    }

    /// Builds the flags from their raw bits; every bit of a `u8` has a meaning.
    pub fn from_bits_truncate(bits: u8) -> (r: Self)
        ensures
            r.bits == bits,
    {
        OuterHeaderRemovalFlags { bits }
    }

    pub fn bits(&self) -> (r: u8)
        ensures
            r == self.bits,
    {
        self.bits
    }

    pub fn contains(&self, bits: u8) -> (r: bool)
        ensures
            r == (self.bits & bits == bits),
    {
        self.bits & bits == bits
    }
}

#[derive(Clone, Copy)]
pub struct PdrInfo {
    pub pdr_id: u16,
    pub precedence: u32,
    pub outer_header_removal: OuterHeaderRemovalFlags,
    pub pdi: PdiPod,
    pub far_id: u32,
    pub qer_ids: [u32; QER_MAP_SIZE],
    pub urr_ids: [u32; URR_MAP_SIZE],
    pub allocated: bool,
}

impl Default for PdrInfo {
    fn default() -> (r: Self)
        ensures
            r.is_new(0),
    {
        Self::new(0)
    }
}

impl PdrInfo {
    /// `self` is the unallocated rule `pdr_id` with every other field zero.
    pub open spec fn is_new(&self, pdr_id: u16) -> bool {
        &&& self.pdr_id == pdr_id
        &&& self.precedence == 0
        &&& self.outer_header_removal.bits == 0
        &&& self.pdi.is_new()
        &&& self.far_id == 0
        &&& forall|i: int| 0 <= i < QER_MAP_SIZE ==> self.qer_ids[i] == 0
        &&& forall|i: int| 0 <= i < URR_MAP_SIZE ==> self.urr_ids[i] == 0
        &&& !self.allocated
    }

    pub fn new(pdr_id: u16) -> (r: Self)
        ensures
            r.is_new(pdr_id),
    {
        Self {
            pdr_id,
            precedence: 0,
            outer_header_removal: OuterHeaderRemovalFlags::empty(),
            pdi: PdiPod::new(),
            far_id: 0,
            qer_ids: [0u32; 10],
            urr_ids: [0u32; 10],
            allocated: false,
        }
    }

    pub fn is_allocated(&self) -> (r: bool)
        ensures
            r == self.allocated,
    {
        self.allocated
    }

    pub fn set_allocated(&mut self, allocated: bool)
        ensures
            *final(self) == (PdrInfo { allocated, ..*old(self) }),
    {
        self.allocated = allocated;
    }

    pub fn pdr_id(&self) -> (r: u16)
        ensures
            r == self.pdr_id,
    {
        self.pdr_id
    }

    pub fn set_pdr_id(&mut self, pdr_id: u16)
        ensures
            *final(self) == (PdrInfo { pdr_id, ..*old(self) }),
    {
        self.pdr_id = pdr_id;
    }

    pub fn precedence(&self) -> (r: u32)
        ensures
            r == self.precedence,
    {
        self.precedence
    }

    pub fn set_precedence(&mut self, precedence: u32)
        ensures
            *final(self) == (PdrInfo { precedence, ..*old(self) }),
    {
        self.precedence = precedence;
    }

    pub fn ohr(&self) -> (r: OuterHeaderRemovalFlags)
        ensures
            r == self.outer_header_removal,
    {
        self.outer_header_removal
    }

    pub fn pdi(&self) -> (r: PdiPod)
        ensures
            r == self.pdi,
    {
        self.pdi
    }

    pub fn set_pdi(&mut self, pdi: PdiPod)
        ensures
            *final(self) == (PdrInfo { pdi, ..*old(self) }),
    {
        self.pdi = pdi;
    }

    pub fn far_id(&self) -> (r: u32)
        ensures
            r == self.far_id,
    {
        self.far_id
    }

    pub fn qer_ids(&self) -> (r: &[u32])
        ensures
            r@ == self.qer_ids@,
    {
        self.qer_ids.as_slice()
    }

    pub fn urr_ids(&self) -> (r: &[u32])
        ensures
            r@ == self.urr_ids@,
    {
        self.urr_ids.as_slice()
    }

    /// Stores the Outer Header Removal description; every bit is kept.
    pub fn set_ohr(&mut self, ohr: u8)
        ensures
            *final(self) == (PdrInfo {
                outer_header_removal: OuterHeaderRemovalFlags { bits: ohr },
                ..*old(self)
            }),
    {
        self.outer_header_removal = OuterHeaderRemovalFlags::from_bits_truncate(ohr);
    }

    pub fn set_far_id(&mut self, value: u32)
        ensures
            *final(self) == (PdrInfo { far_id: value, ..*old(self) }),
    {
        self.far_id = value;
    }

    pub fn set_qer_id(&mut self, idx: usize, qer_id: u32)
        requires
            idx < QER_MAP_SIZE,
        ensures
            *final(self) == (PdrInfo { qer_ids: final(self).qer_ids, ..*old(self) }),
            final(self).qer_ids@ == old(self).qer_ids@.update(idx as int, qer_id),
    {
        self.qer_ids[idx] = qer_id;
    }

    pub fn set_urr_id(&mut self, idx: usize, urr_id: u32)
        requires
            idx < URR_MAP_SIZE,
        ensures
            *final(self) == (PdrInfo { urr_ids: final(self).urr_ids, ..*old(self) }),
            final(self).urr_ids@ == old(self).urr_ids@.update(idx as int, urr_id),
    {
        self.urr_ids[idx] = urr_id;
    }
}

} // verus!
