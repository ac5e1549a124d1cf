//! Service Data Flow filters as the datapath stores them.
use vstd::prelude::*;

verus! {

/// Which parts of an SDF filter are set.
#[derive(Debug, Clone, Copy, PartialEq, Eq, Structural)]
pub struct SdfFlags {
    pub bits: u8,
}

/// Bit of [`SdfFlags`]: the protocol is set.
pub const SDF_PROTOCOL: u8 = 0x01;
/// Bit of [`SdfFlags`]: the source address is set.
pub const SDF_SRC_ADDR: u8 = 0x02;
/// Bit of [`SdfFlags`]: the destination address is set.
pub const SDF_DST_ADDR: u8 = 0x04;
/// Bit of [`SdfFlags`]: the source port range is set.
pub const SDF_SRC_PORT_RANGE: u8 = 0x08;
/// Bit of [`SdfFlags`]: the destination port range is set.
pub const SDF_DST_PORT_RANGE: u8 = 0x10;

impl SdfFlags {
    pub fn empty() -> (r: Self)
        ensures
            r.bits == 0,
    {
        SdfFlags { bits: 0 }
    }

    pub fn bits(&self) -> (r: u8)
        ensures
            r == self.bits,
    {
        self.bits
    }

    pub fn contains(&self, bits: u8) -> (r: bool)
        ensures
            r == (self.bits & bits == bits),
    {
        self.bits & bits == bits
    }
}

#[derive(Debug, Clone, Copy, PartialEq, Eq, Structural)]
pub struct PortRange {
    pub start: u16,
    pub end: u16,
}

impl Default for PortRange {
    fn default() -> (r: Self)
        ensures
            r == (PortRange { start: 0, end: 0 }),
    {
        PortRange { start: 0, end: 0 }
    }
}

impl PortRange {
    pub fn new(start: u16, end: u16) -> (r: Self)
        ensures
            r == (PortRange { start, end }),
    {
        Self { start, end }
    }

    pub fn start(&self) -> (r: u16)
        ensures
            r == self.start,
    {
        self.start
    }

    pub fn set_start(&mut self, start: u16)
        ensures
            *final(self) == (PortRange { start, ..*old(self) }),
    {
        self.start = start;
    }

    pub fn end(&self) -> (r: u16)
        ensures
            r == self.end,
    {
        self.end
    }

    pub fn set_end(&mut self, end: u16)
        ensures
            *final(self) == (PortRange { end, ..*old(self) }),
    {
        self.end = end;
    }
}

#[derive(Debug, Clone, Copy, PartialEq, Eq, Structural)]
pub struct SdfFilterPod {
    pub protocol: u8,
    pub src_ip: u32,
    pub src_ip_mask: u32,
    pub dst_ip: u32,
    pub dst_ip_mask: u32,
    pub src_port_range: PortRange,
    pub dst_port_range: PortRange,
    pub flags: SdfFlags,
    pub allocated: bool,
}

/// The network mask of an IPv4 prefix of `prefix` bits.
pub open spec fn spec_prefix_to_mask(prefix: u32) -> u32 {
    if prefix == 0 {
        0
    } else {
        (0xffff_ffffu32 << ((32 - prefix) as u32)) as u32
    }
}

/// The network mask of an IPv4 prefix of `prefix` bits; a prefix longer than
/// 32 bits has no mask.
pub fn prefix_to_mask(prefix: u32) -> (r: u32)
    requires
        prefix <= 32,
    ensures
        r == spec_prefix_to_mask(prefix),
        forall|i: u32| #![auto] i < 32 ==> ((r >> i) & 1 == 1 <==> i + prefix >= 32),
{
    assert(!0u32 == 0xffff_ffffu32) by (bit_vector);
    let r = if prefix == 0 {
        0
    } else {
        !0u32 << (32 - prefix)
    };
    assert(forall|i: u32| #![auto] i < 32 ==> ((r >> i) & 1 == 1 <==> i + prefix >= 32))
        by (bit_vector)
        requires
            prefix <= 32,
            r == (if prefix == 0 { 0u32 } else { (0xffff_ffffu32 << ((32 - prefix) as u32)) as u32 }),
    ;
    r
}

/// `pod` with the protocol set to `protocol`.
pub open spec fn with_protocol(pod: SdfFilterPod, protocol: u8) -> SdfFilterPod {
    SdfFilterPod { protocol, flags: SdfFlags { bits: pod.flags.bits | SDF_PROTOCOL }, ..pod }
}

/// `pod` with the source address set to `src_ip`.
pub open spec fn with_src_ip(pod: SdfFilterPod, src_ip: u32) -> SdfFilterPod {
    SdfFilterPod { src_ip, flags: SdfFlags { bits: pod.flags.bits | SDF_SRC_ADDR }, ..pod }
}

/// `pod` with the source mask of a `prefix`-bit prefix.
pub open spec fn with_src_prefix(pod: SdfFilterPod, prefix: u32) -> SdfFilterPod {
    SdfFilterPod { src_ip_mask: spec_prefix_to_mask(prefix), ..pod }
}

/// `pod` with the destination address set to `dst_ip`.
pub open spec fn with_dst_ip(pod: SdfFilterPod, dst_ip: u32) -> SdfFilterPod {
    SdfFilterPod { dst_ip, flags: SdfFlags { bits: pod.flags.bits | SDF_DST_ADDR }, ..pod }
}

/// `pod` with the destination mask of a `prefix`-bit prefix.
pub open spec fn with_dst_prefix(pod: SdfFilterPod, prefix: u32) -> SdfFilterPod {
    SdfFilterPod { dst_ip_mask: spec_prefix_to_mask(prefix), ..pod }
}

/// `pod` with the source port range set to `range`.
pub open spec fn with_src_ports(pod: SdfFilterPod, range: PortRange) -> SdfFilterPod {
    SdfFilterPod {
        src_port_range: range,
        flags: SdfFlags { bits: pod.flags.bits | SDF_SRC_PORT_RANGE },
        ..pod
    }
}

/// `pod` with the destination port range set to `range`.
pub open spec fn with_dst_ports(pod: SdfFilterPod, range: PortRange) -> SdfFilterPod {
    SdfFilterPod {
        dst_port_range: range,
        flags: SdfFlags { bits: pod.flags.bits | SDF_DST_PORT_RANGE },
        ..pod
    }
}

impl Default for SdfFilterPod {
    fn default() -> (r: Self)
        ensures
            r == SdfFilterPod::spec_default(),
    {
        SdfFilterPod {
            protocol: 0,
            src_ip: 0,
            src_ip_mask: 0,
            dst_ip: 0,
            dst_ip_mask: 0,
            src_port_range: PortRange { start: 0, end: 0 },
            dst_port_range: PortRange { start: 0, end: 0 },
            flags: SdfFlags { bits: 0 },
            allocated: false,
        }
    }
}

impl SdfFilterPod {
    /// The filter with every field zero: it matches any packet.
    pub open spec fn spec_default() -> SdfFilterPod {
        SdfFilterPod {
            protocol: 0,
            src_ip: 0,
            src_ip_mask: 0,
            dst_ip: 0,
            dst_ip_mask: 0,
            src_port_range: PortRange { start: 0, end: 0 },
            dst_port_range: PortRange { start: 0, end: 0 },
            flags: SdfFlags { bits: 0 },
            allocated: false,
        }
    }

    pub fn is_allocated(&self) -> (r: bool)
        ensures
            r == self.allocated,
    {
        self.allocated
    }

    pub fn set_allocated(&mut self, allocated: bool)
        ensures
            *final(self) == (SdfFilterPod { allocated, ..*old(self) }),
    {
        self.allocated = allocated;
    }

    pub fn protocol(&self) -> (r: u8)
        ensures
            r == self.protocol,
    {
        self.protocol
    }

    pub fn set_protocol(&mut self, protocol: u8)
        ensures
            *final(self) == with_protocol(*old(self), protocol),
    {
        self.flags = SdfFlags { bits: self.flags.bits | SDF_PROTOCOL };
        self.protocol = protocol;
    }

    pub fn src_ip(&self) -> (r: u32)
        ensures
            r == self.src_ip,
    {
        self.src_ip
    }

    pub fn set_src_ip(&mut self, src_addr: u32)
        ensures
            *final(self) == with_src_ip(*old(self), src_addr),
    {
        self.flags = SdfFlags { bits: self.flags.bits | SDF_SRC_ADDR };
        self.src_ip = src_addr;
    }

    pub fn set_src_ip_prefix(&mut self, src_ip_prefix: u32)
        requires
            src_ip_prefix <= 32,
        ensures
            *final(self) == with_src_prefix(*old(self), src_ip_prefix),
    {
        self.src_ip_mask = prefix_to_mask(src_ip_prefix);
    }

    pub fn dst_ip(&self) -> (r: u32)
        ensures
            r == self.dst_ip,
    {
        self.dst_ip
    }

    pub fn set_dst_ip(&mut self, dst_addr: u32)
        ensures
            *final(self) == with_dst_ip(*old(self), dst_addr),
    {
        self.flags = SdfFlags { bits: self.flags.bits | SDF_DST_ADDR };
        self.dst_ip = dst_addr;
    }

    pub fn set_dst_ip_prefix(&mut self, dst_ip_prefix: u32)
        requires
            dst_ip_prefix <= 32,
        ensures
            *final(self) == with_dst_prefix(*old(self), dst_ip_prefix),
    {
        self.dst_ip_mask = prefix_to_mask(dst_ip_prefix);
    }

    pub fn src_port_range(&self) -> (r: PortRange)
        ensures
            r == self.src_port_range,
    {
        self.src_port_range
    }

    pub fn set_src_port_range(&mut self, src_port_range: PortRange)
        ensures
            *final(self) == with_src_ports(*old(self), src_port_range),
    {
        self.flags = SdfFlags { bits: self.flags.bits | SDF_SRC_PORT_RANGE };
        self.src_port_range = src_port_range;
    }

    pub fn dst_port_range(&self) -> (r: PortRange)
        ensures
            r == self.dst_port_range,
    {
        self.dst_port_range
    }

    pub fn set_dst_port_range(&mut self, dst_port_range: PortRange)
        ensures
            *final(self) == with_dst_ports(*old(self), dst_port_range),
    {
        self.flags = SdfFlags { bits: self.flags.bits | SDF_DST_PORT_RANGE };
        self.dst_port_range = dst_port_range;
    }
}

} // verus!
