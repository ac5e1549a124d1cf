//! Packet Detection Information as the datapath stores it.
use vstd::prelude::*;

use crate::fteid::Fteid;
use crate::sdf::SdfFilterPod;
use crate::ue_ip::UeIpPod;
use crate::{MAX_QFI_NUM, SDF_MAP_SIZE};

verus! {

/// Which match fields of a PDI are set.
#[derive(Clone, Copy, PartialEq, Eq, Structural)]
pub struct PdiMask {
    pub bits: u16,
}

/// Bit of [`PdiMask`]: the local F-TEID is set.
pub const PDI_F_TEID: u16 = 0x01;
/// Bit of [`PdiMask`]: the UE IP address is set.
pub const PDI_UE_IPV4: u16 = 0x02;
/// Bit of [`PdiMask`]: SDF filters are set.
pub const PDI_SDF_FILTER: u16 = 0x04;
/// Bit of [`PdiMask`]: QFIs are set.
pub const PDI_QFI: u16 = 0x08;

impl PdiMask {
    pub fn empty() -> (r: Self)
        ensures
            r.bits == 0,
    {
        PdiMask { bits: 0 }
    }

    pub fn from_bits(bits: u16) -> (r: Self)
        ensures
            r.bits == bits,
    {
        PdiMask { bits }
    }

    pub fn bits(&self) -> (r: u16)
        ensures
            r == self.bits,
    {
        self.bits
    }

    pub fn contains(&self, bits: u16) -> (r: bool)
        ensures
            r == (self.bits & bits == bits),
    {
        self.bits & bits == bits
    }
}

/// The interface a packet comes in on.
#[derive(Debug, Clone, Copy, PartialEq, Eq, Structural)]
pub enum SourceInterface {
    Access,
    Core,
    SgiLan,
    CpFunction,
    Unknown,
}

/// The source interface that the value `v` stands for.
pub open spec fn spec_source_interface(v: u8) -> SourceInterface {
    if v == 0 {
        SourceInterface::Access
    } else if v == 1 {
        SourceInterface::Core
    } else if v == 2 {
        SourceInterface::SgiLan
    } else if v == 3 {
        SourceInterface::CpFunction
    } else {
        SourceInterface::Unknown
    }
}

impl From<u8> for SourceInterface {
    fn from(v: u8) -> (r: Self)
        ensures
            r == spec_source_interface(v),
    {
        match v {
            0 => SourceInterface::Access,
            1 => SourceInterface::Core,
            2 => SourceInterface::SgiLan,
            3 => SourceInterface::CpFunction,
            _ => SourceInterface::Unknown,
        }
    }
}

impl vstd::std_specs::convert::FromSpecImpl<u8> for SourceInterface {
    open spec fn obeys_from_spec() -> bool {
        true
    }

    open spec fn from_spec(v: u8) -> Self {
        spec_source_interface(v)
    }
}

#[derive(Clone, Copy)]
pub struct PdiPod {
    pub pdi_mask: PdiMask,
    pub source_interface: u8,
    pub fteid: Fteid,
    pub ue_ip_address: UeIpPod,
    pub qfis: [u8; MAX_QFI_NUM],
    pub sdf_ids: [u32; SDF_MAP_SIZE],
    pub sdfs: [SdfFilterPod; SDF_MAP_SIZE],
}

impl Default for PdiPod {
    fn default() -> (r: Self)
        ensures
            r.is_new(),
    {
        Self::new()
    }
}

impl PdiPod {
    /// `self` is a PDI that matches on nothing: no mask bit, every field zero.
    pub open spec fn is_new(&self) -> bool {
        &&& self.pdi_mask.bits == 0
        &&& self.source_interface == 0
        &&& self.fteid == Fteid::spec_default()
        &&& !self.ue_ip_address.v4 && !self.ue_ip_address.v6
        &&& self.ue_ip_address.ipv4_address == 0
        &&& self.ue_ip_address.ipv6_address == 0
        &&& forall|i: int| 0 <= i < MAX_QFI_NUM ==> self.qfis[i] == 0
        &&& forall|i: int| 0 <= i < SDF_MAP_SIZE ==> self.sdf_ids[i] == 0
        &&& forall|i: int| 0 <= i < SDF_MAP_SIZE ==> self.sdfs[i] == SdfFilterPod::spec_default()
    }

    /// `self` is a new PDI but for its source interface.
    pub open spec fn is_new_except_source(&self) -> bool {
        PdiPod { source_interface: 0, ..*self }.is_new()
    }

    pub fn new() -> (r: Self)
        ensures
            r.is_new(),
    {
        let sdf = SdfFilterPod::default();
        let r = Self {
            pdi_mask: PdiMask::empty(),
            source_interface: 0,
            fteid: Fteid::default(),
            ue_ip_address: UeIpPod::default(),
            qfis: [0u8; 5],
            sdf_ids: [0u32; 10],
            sdfs: [sdf, sdf, sdf, sdf, sdf, sdf, sdf, sdf, sdf, sdf],
        };
        r
    }

    pub fn pdi_mask(&self) -> (r: PdiMask)
        ensures
            r == self.pdi_mask,
    {
        self.pdi_mask
    }

    /// Sets the bits of `flag` in the mask.
    pub fn set_flag(&mut self, flag: PdiMask)
        ensures
            *final(self) == (PdiPod {
                pdi_mask: PdiMask { bits: old(self).pdi_mask.bits | flag.bits },
                ..*old(self)
            }),
    {
        self.pdi_mask = PdiMask { bits: self.pdi_mask.bits | flag.bits };
    }

    pub fn source_interface(&self) -> (r: SourceInterface)
        ensures
            r == spec_source_interface(self.source_interface),
    {
        SourceInterface::from(self.source_interface)
    }

    pub fn set_source_interface(&mut self, source_interface: u8)
        ensures
            *final(self) == (PdiPod { source_interface, ..*old(self) }),
    {
        self.source_interface = source_interface;
    }

    pub fn fteid(&self) -> (r: Fteid)
        ensures
            r == self.fteid,
    {
        self.fteid
    }

    /// Stores the local F-TEID and marks it as a match field.
    pub fn set_fteid(&mut self, fteid: Fteid)
        ensures
            *final(self) == (PdiPod {
                fteid,
                pdi_mask: PdiMask { bits: old(self).pdi_mask.bits | PDI_F_TEID },
                ..*old(self)
            }),
    {
        self.fteid = fteid;
        self.set_flag(PdiMask { bits: PDI_F_TEID });
    }

    pub fn ue_ipv4_address(&self) -> (r: u32)
        ensures
            r == self.ue_ip_address.ipv4_address,
    {
        self.ue_ip_address.ipv4_address
    }

    /// Stores the UE IPv4 address and marks the UE address as a match field.
    pub fn set_ue_ipv4_address(&mut self, ue_ipv4_address: u32)
        ensures
            *final(self) == (PdiPod {
                ue_ip_address: UeIpPod {
                    v4: true,
                    ipv4_address: ue_ipv4_address,
                    ..old(self).ue_ip_address
                },
                pdi_mask: PdiMask { bits: old(self).pdi_mask.bits | PDI_UE_IPV4 },
                ..*old(self)
            }),
    {
        self.ue_ip_address.set_ipv4_address(ue_ipv4_address);
        self.set_flag(PdiMask { bits: PDI_UE_IPV4 });
    }

    pub fn ue_ip_address(&self) -> (r: UeIpPod)
        ensures
            r == self.ue_ip_address,
    {
        self.ue_ip_address
    }

    /// Stores the UE addresses and marks the UE address as a match field.
    pub fn set_ue_ip_address(&mut self, ue_ip_address: UeIpPod)
        ensures
            *final(self) == (PdiPod {
                ue_ip_address,
                pdi_mask: PdiMask { bits: old(self).pdi_mask.bits | PDI_UE_IPV4 },
                ..*old(self)
            }),
    {
        self.ue_ip_address = ue_ip_address;
        self.set_flag(PdiMask { bits: PDI_UE_IPV4 });
    }

    pub fn qfis(&self) -> (r: &[u8])
        ensures
            r@ == self.qfis@,
    {
        self.qfis.as_slice()
    }

    /// Stores `qfi` at position `idx` and marks QFIs as a match field.
    pub fn set_qfi(&mut self, idx: usize, qfi: u8)
        requires
            idx < MAX_QFI_NUM,
        ensures
            *final(self) == (PdiPod {
                qfis: final(self).qfis,
                pdi_mask: PdiMask { bits: old(self).pdi_mask.bits | PDI_QFI },
                ..*old(self)
            }),
            final(self).qfis@ == old(self).qfis@.update(idx as int, qfi),
    {
        self.qfis[idx] = qfi;
        self.set_flag(PdiMask { bits: PDI_QFI });
    }

    pub fn sdf_ids(&self) -> (r: &[u32])
        ensures
            r@ == self.sdf_ids@,
    {
        self.sdf_ids.as_slice()
    }

    pub fn sdfs(&self) -> (r: &[SdfFilterPod])
        ensures
            r@ == self.sdfs@,
    {
        self.sdfs.as_slice()
    }

    /// Stores the SDF filter `sdf` at position `idx` and marks SDF filters as a
    /// match field.
    pub fn set_sdf(&mut self, idx: usize, sdf: SdfFilterPod)
        requires
            idx < SDF_MAP_SIZE,
        ensures
            *final(self) == (PdiPod {
                sdfs: final(self).sdfs,
                pdi_mask: PdiMask { bits: old(self).pdi_mask.bits | PDI_SDF_FILTER },
                ..*old(self)
            }),
            final(self).sdfs@ == old(self).sdfs@.update(idx as int, sdf),
    {
        self.sdfs[idx] = sdf;
        self.set_flag(PdiMask { bits: PDI_SDF_FILTER });
    }
}

} // verus!
