//! PDU Session Container extension headers (3GPP TS 38.415).
use vstd::prelude::*;

use crate::gtpu::{be32, be32_bytes, read_be32, write_be32};

verus! {

/// DL PDU SESSION INFORMATION (3GPP TS 38.415), two octets.
#[derive(Clone, Copy, PartialEq, Eq, Structural)]
pub struct DLPduSession {
    pub pt_flags: u8,
    pub flags_qfi: u8,
}

/// UL PDU SESSION INFORMATION (3GPP TS 38.415), two octets.
#[derive(Clone, Copy, PartialEq, Eq, Structural)]
pub struct ULPduSession {
    pub pt_flags: u8,
    pub n39di_nie_qfi: u8,
}

/// A downlink PDU Session Container extension header as it lies on the wire:
/// a length of four octets in network byte order, the content, the next
/// extension header type and one octet of padding.
#[derive(Clone, Copy)]
pub struct GtpuDLPduExtensionHdr {
    pub length: [u8; 4],
    pub content: DLPduSession,
    pub next_ext_hdr_type: u8,
}

/// An uplink PDU Session Container extension header as it lies on the wire.
#[derive(Clone, Copy)]
pub struct GtpuULPduExtensionHdr {
    pub length: [u8; 4],
    pub content: ULPduSession,
    pub next_ext_hdr_type: u8,
}

/// Length in bytes of [`GtpuDLPduExtensionHdr`], padding included.
pub const GTPU_DL_PDU_EXT_HDR_LEN: usize = 8;
/// Length in bytes of [`DLPduSession`].
pub const DL_PDU_SESSION_LEN: usize = 2;
/// Length in bytes of [`ULPduSession`].
pub const UL_PDU_SESSION_LEN: usize = 2;

impl GtpuDLPduExtensionHdr {
    /// The seven octets of the header that its fields cover, as they lie on
    /// the wire; the octet of padding behind them is not part of it.
    pub open spec fn spec_bytes(&self) -> Seq<u8> {
        self.length@ + seq![self.content.pt_flags, self.content.flags_qfi, self.next_ext_hdr_type]
    }

    /// The header that lies in `pkt` at `off`.
    pub fn from_bytes(pkt: &[u8], off: usize) -> (r: Self)
        requires
            off + GTPU_DL_PDU_EXT_HDR_LEN <= pkt@.len(),
        ensures
            r.spec_bytes() == pkt@.subrange(off as int, off + 7),
    {
        let r = GtpuDLPduExtensionHdr {
            length: [pkt[off], pkt[off + 1], pkt[off + 2], pkt[off + 3]],
            content: DLPduSession { pt_flags: pkt[off + 4], flags_qfi: pkt[off + 5] },
            next_ext_hdr_type: pkt[off + 6],
        };
        assert(r.spec_bytes() =~= pkt@.subrange(off as int, off + 7));
        r
    }

    /// The octets of the header's fields as they go on the wire.
    pub fn to_bytes(&self) -> (r: Vec<u8>)
        ensures
            r@ == self.spec_bytes(),
    {
        let r = vec![
            self.length[0],
            self.length[1],
            self.length[2],
            self.length[3],
            self.content.pt_flags,
            self.content.flags_qfi,
            self.next_ext_hdr_type,
        ];
        assert(r@ =~= self.spec_bytes());
        r
    }

    pub fn length(&self) -> (r: u32)
        ensures
            r == be32(self.length[0], self.length[1], self.length[2], self.length[3]),
    {
        read_be32(self.length[0], self.length[1], self.length[2], self.length[3])
    }

    pub fn set_length(&mut self, length: u32)
        ensures
            final(self).content == old(self).content,
            final(self).next_ext_hdr_type == old(self).next_ext_hdr_type,
            be32(final(self).length[0], final(self).length[1], final(self).length[2], final(self).length[3])
                == length,
            final(self).length[0] == length / 0x100_0000,
            final(self).length[1] == (length / 0x1_0000) % 256,
            final(self).length[2] == (length / 0x100) % 256,
            final(self).length[3] == length % 256,
            final(self).length@ == be32_bytes(length),
    {
        self.length = write_be32(length);
    }

    pub fn set_content(&mut self, content: DLPduSession)
        ensures
            final(self).content == content,
            final(self).length == old(self).length,
            final(self).next_ext_hdr_type == old(self).next_ext_hdr_type,
    {
        self.content = content
    }

    pub fn set_next_extension_header(&mut self, neh_type: u8)
        ensures
            final(self).next_ext_hdr_type == neh_type,
            final(self).length == old(self).length,
            final(self).content == old(self).content,
    {
        self.next_ext_hdr_type = neh_type;
    }
}

impl Default for DLPduSession {
    fn default() -> (r: Self)
        ensures
            r == (DLPduSession { pt_flags: 0, flags_qfi: 0 }),
    {
        DLPduSession { pt_flags: 0, flags_qfi: 0 }
    }
}

impl DLPduSession {
    pub fn pdu_type(&self) -> (r: u8)
        ensures
            r == self.pt_flags >> 4,
    {
        self.pt_flags >> 4
    }

    /// Sets the 4-bit PDU Type, keeping the low four bits of the first octet.
    pub fn set_pdu_type(&mut self, pdu_type: u8)
        ensures
            *final(self) == (DLPduSession {
                pt_flags: (pdu_type << 4) | (old(self).pt_flags & 0x0F),
                ..*old(self)
            }),
            pdu_type < 16 ==> final(self).pt_flags >> 4 == pdu_type,
            final(self).pt_flags & 0x0F == old(self).pt_flags & 0x0F,
    {
        let old_flags = self.pt_flags;
        let preserved_bits = self.pt_flags & 0x0F;
        self.pt_flags = (pdu_type << 4) | preserved_bits;
        let nf = self.pt_flags;
        assert((pdu_type < 16 ==> nf >> 4 == pdu_type) && nf & 0x0F == old_flags & 0x0F) by (bit_vector)
            requires
                nf == (pdu_type << 4) | (old_flags & 0x0F),
        ;
    }

    /// Whether the QoS Monitoring Packet flag is set.
    pub fn has_qmp(&self) -> (r: bool)
        ensures
            r == (self.pt_flags & 0x08 != 0),
    {
        self.pt_flags & 0x08 != 0
    }

    /// Sets the QMP flag; `qmp` is meant to be 0 or 1.
    pub fn set_qmp(&mut self, qmp: u8)
        ensures
            *final(self) == (DLPduSession {
                pt_flags: (qmp << 3) | (old(self).pt_flags & 0xF7),
                ..*old(self)
            }),
            qmp < 2 ==> (final(self).pt_flags & 0x08 != 0) == (qmp == 1),
    {
        let old_flags = self.pt_flags;
        let preserved_bits = self.pt_flags & 0xF7;
        self.pt_flags = (qmp << 3) | preserved_bits;
        let nf = self.pt_flags;
        assert(qmp < 2 ==> ((nf & 0x08 != 0) == (qmp == 1))) by (bit_vector)
            requires
                nf == (qmp << 3) | (old_flags & 0xF7),
        ;
    }

    /// Whether the Sequence Number Presence flag is set.
    pub fn snp(&self) -> (r: bool)
        ensures
            r == (self.pt_flags & 0x04 != 0),
    {
        self.pt_flags & 0x04 != 0
    }

    /// Sets the SNP flag; `snp` is meant to be 0 or 1.
    pub fn set_snp(&mut self, snp: u8)
        ensures
            *final(self) == (DLPduSession {
                pt_flags: (snp << 2) | (old(self).pt_flags & 0xFB),
                ..*old(self)
            }),
    {
        let preserved_bits = self.pt_flags & 0xFB;
        self.pt_flags = (snp << 2) | preserved_bits;
    }

    /// Whether the MBS Sequence Number Presence flag is set.
    pub fn msnp(&self) -> (r: bool)
        ensures
            r == (self.pt_flags & 0x02 != 0),
    {
        self.pt_flags & 0x02 != 0
    }

    /// Sets the MSNP flag; `msnp` is meant to be 0 or 1.
    pub fn set_msnp(&mut self, msnp: u8)
        ensures
            *final(self) == (DLPduSession {
                pt_flags: (msnp << 1) | (old(self).pt_flags & 0xFD),
                ..*old(self)
            }),
    {
        let preserved_bits = self.pt_flags & 0xFD;
        self.pt_flags = (msnp << 1) | preserved_bits;
    }

    /// Whether the Paging Policy Presence flag is set.
    pub fn has_ppp(&self) -> (r: bool)
        ensures
            r == (self.flags_qfi & 0x80 != 0),
    {
        self.flags_qfi & 0x80 != 0
    }

    /// Sets the PPP flag, the top bit of the second octet; `ppp` is meant to
    /// be 0 or 1. The RQI flag, the QFI and the first octet are kept.
    pub fn set_ppp(&mut self, ppp: u8)
        ensures
            *final(self) == (DLPduSession {
                flags_qfi: (ppp << 7) | (old(self).flags_qfi & 0x7F),
                ..*old(self)
            }),
            ppp < 2 ==> (final(self).flags_qfi & 0x80 != 0) == (ppp == 1),
            final(self).flags_qfi & 0x7F == old(self).flags_qfi & 0x7F,
    {
        let old_flags = self.flags_qfi;
        let preserved_bits = self.flags_qfi & 0x7F;
        self.flags_qfi = (ppp << 7) | preserved_bits;
        let nf = self.flags_qfi;
        assert((ppp < 2 ==> ((nf & 0x80 != 0) == (ppp == 1))) && nf & 0x7F == old_flags & 0x7F)
            by (bit_vector)
            requires
                nf == (ppp << 7) | (old_flags & 0x7F),
        ;
    }

    /// Whether the Reflective QoS Indicator is set.
    pub fn has_rqi(&self) -> (r: bool)
        ensures
            r == (self.flags_qfi & 0x40 != 0),
    {
        self.flags_qfi & 0x40 != 0
    }

    /// Sets the RQI flag; `rqi` is meant to be 0 or 1.
    pub fn set_rqi(&mut self, rqi: u8)
        ensures
            *final(self) == (DLPduSession {
                flags_qfi: (rqi << 6) | (old(self).flags_qfi & 0xBF),
                ..*old(self)
            }),
    {
        let preserved_bits = self.flags_qfi & 0xBF;
        self.flags_qfi = (rqi << 6) | preserved_bits;
    }

    /// The 6-bit QoS Flow Identifier.
    pub fn qfi(&self) -> (r: u8)
        ensures
            r == self.flags_qfi & 0x3F,
            r < 64,
    {
        let f = self.flags_qfi;
        assert(f & 0x3F < 64) by (bit_vector);
        f & 0x3F
    }

    /// Sets the 6-bit QFI, keeping the PPP and RQI flags and the first octet.
    pub fn set_qfi(&mut self, qfi: u8)
        ensures
            *final(self) == (DLPduSession {
                flags_qfi: (old(self).flags_qfi & 0xC0) | qfi,
                ..*old(self)
            }),
            qfi < 64 ==> final(self).flags_qfi & 0x3F == qfi,
            qfi < 64 ==> final(self).flags_qfi & 0xC0 == old(self).flags_qfi & 0xC0,
    {
        let old_flags = self.flags_qfi;
        let preserved_bits = self.flags_qfi & 0xC0;
        self.flags_qfi = preserved_bits | qfi;
        let nf = self.flags_qfi;
        assert(qfi < 64 ==> (nf & 0x3F == qfi && nf & 0xC0 == old_flags & 0xC0)) by (bit_vector)
            requires
                nf == (old_flags & 0xC0) | qfi,
        ;
    }
}

impl ULPduSession {
    /// The 6-bit QoS Flow Identifier.
    pub fn qfi(&self) -> (r: u8)
        ensures
            r == self.n39di_nie_qfi & 0x3F,
            r < 64,
    {
        let f = self.n39di_nie_qfi;
        assert(f & 0x3F < 64) by (bit_vector);
        f & 0x3F
    }
}

} // verus!
