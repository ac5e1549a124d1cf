//! GTP-U header (3GPP TS 29.281) and its fields.
use vstd::prelude::*;

use vstd::arithmetic::div_mod::{
    lemma_div_denominator, lemma_fundamental_div_mod, lemma_fundamental_div_mod_converse,
};

verus! {

/// The mandatory part of a GTP-U header, as it lies on the wire.
#[derive(Clone, Copy)]
pub struct GtpuHdr {
    pub v_pt_flags: u8,
    pub msg_type: u8,
    pub msg_len: [u8; 2],
    pub teid: [u8; 4],
}

/// The optional fields of a GTP-U header, as they lie on the wire.
#[derive(Clone, Copy)]
pub struct GtpuOptFields {
    pub seq_number: [u8; 2],
    pub npdu_num: u8,
    pub next_ext_hdr_type: u8,
}

/// Length in bytes of [`GtpuHdr`].
pub const GTPU_HDR_BASE_LEN: usize = 8;
/// Length in bytes of [`GtpuOptFields`].
pub const GTPU_OPT_FIELDS_LEN: usize = 4;

/// The value of two bytes read in network byte order.
pub open spec fn be16(b0: u8, b1: u8) -> u16 {
    (b0 as int * 256 + b1 as int) as u16
}

/// The value of four bytes read in network byte order.
pub open spec fn be32(b0: u8, b1: u8, b2: u8, b3: u8) -> u32 {
    (b0 as int * 0x100_0000 + b1 as int * 0x1_0000 + b2 as int * 0x100 + b3 as int) as u32
}

/// The two bytes of `v` in network byte order.
pub open spec fn be16_bytes(v: u16) -> Seq<u8> {
    seq![(v / 256) as u8, (v % 256) as u8]
}

/// The four bytes of `v` in network byte order.
pub open spec fn be32_bytes(v: u32) -> Seq<u8> {
    seq![
        (v / 0x100_0000) as u8,
        ((v / 0x1_0000) % 256) as u8,
        ((v / 0x100) % 256) as u8,
        (v % 256) as u8,
    ]
}

/// Two bytes read in network byte order and written back are the same bytes.
pub proof fn lemma_be16_roundtrip(b0: u8, b1: u8)
    ensures
        be16_bytes(be16(b0, b1)) == seq![b0, b1],
{
    assert(be16_bytes(be16(b0, b1)) =~= seq![b0, b1]);
}

/// Four bytes read in network byte order and written back are the same bytes.
pub proof fn lemma_be32_roundtrip(b0: u8, b1: u8, b2: u8, b3: u8)
    ensures
        be32_bytes(be32(b0, b1, b2, b3)) == seq![b0, b1, b2, b3],
{
    let v = be32(b0, b1, b2, b3);
    let x = b0 as int * 0x100_0000 + b1 as int * 0x1_0000 + b2 as int * 0x100 + b3 as int;
    assert(v == x);
    let r1 = b1 as int * 0x1_0000 + b2 as int * 0x100 + b3 as int;
    let h1 = b0 as int * 0x100 + b1 as int;
    let h2 = b0 as int * 0x1_0000 + b1 as int * 0x100 + b2 as int;
    lemma_fundamental_div_mod_converse(x, 0x100_0000, b0 as int, r1);
    lemma_fundamental_div_mod_converse(x, 0x1_0000, h1, b2 as int * 0x100 + b3 as int);
    lemma_fundamental_div_mod_converse(h1, 256, b0 as int, b1 as int);
    lemma_fundamental_div_mod_converse(x, 0x100, h2, b3 as int);
    lemma_fundamental_div_mod_converse(h2, 256, b0 as int * 0x100 + b1 as int, b2 as int);
    lemma_fundamental_div_mod_converse(x, 256, b0 as int * 0x1_0000 + b1 as int * 0x100 + b2 as int * 1, b3 as int);
    assert(be32_bytes(v) =~= seq![b0, b1, b2, b3]);
}

/// The bytes of `v` read back in network byte order give `v`.
pub proof fn lemma_be16_bytes_value(v: u16)
    ensures
        be16(be16_bytes(v)[0], be16_bytes(v)[1]) == v,
{
    lemma_fundamental_div_mod_converse(v as int, 256, v as int / 256, v as int % 256);
}

/// The bytes of `v` read back in network byte order give `v`.
pub proof fn lemma_be32_bytes_value(v: u32)
    ensures
        be32(be32_bytes(v)[0], be32_bytes(v)[1], be32_bytes(v)[2], be32_bytes(v)[3]) == v,
{
    let x = v as int;
    let q1 = x / 0x100;
    let q2 = x / 0x1_0000;
    let q3 = x / 0x100_0000;
    lemma_fundamental_div_mod(x, 0x100);
    lemma_fundamental_div_mod(q1, 0x100);
    lemma_fundamental_div_mod(q2, 0x100);
    lemma_div_denominator(x, 0x100, 0x100);
    lemma_div_denominator(x, 0x1_0000, 0x100);
    assert(q3 < 0x100);
}

/// Reads two bytes in network byte order.
pub fn read_be16(b0: u8, b1: u8) -> (r: u16)
    ensures
        r == be16(b0, b1),
{
    b0 as u16 * 256 + b1 as u16
}

/// Reads four bytes in network byte order.
pub fn read_be32(b0: u8, b1: u8, b2: u8, b3: u8) -> (r: u32)
    ensures
        r == be32(b0, b1, b2, b3),
{
    b0 as u32 * 0x100_0000 + b1 as u32 * 0x1_0000 + b2 as u32 * 0x100 + b3 as u32
}

/// Writes `v` as two bytes in network byte order.
pub fn write_be16(v: u16) -> (r: [u8; 2])
    ensures
        be16(r[0], r[1]) == v,
        r@ == be16_bytes(v),
        r[0] == v / 256,
        r[1] == v % 256,
{
    [(v / 256) as u8, (v % 256) as u8]
}

/// Writes `v` as four bytes in network byte order.
pub fn write_be32(v: u32) -> (r: [u8; 4])
    ensures
        be32(r[0], r[1], r[2], r[3]) == v,
        r@ == be32_bytes(v),
        r[0] == v / 0x100_0000,
        r[1] == (v / 0x1_0000) % 256,
        r[2] == (v / 0x100) % 256,
        r[3] == v % 256,
{
    [(v / 0x100_0000) as u8, ((v / 0x1_0000) % 256) as u8, ((v / 0x100) % 256) as u8, (v % 256) as u8]
}

/// GTP-U message types (Table 6.1-1 of 3GPP TS 29.281).
#[derive(Clone, Copy, PartialEq, Eq, Structural, Debug)]
pub enum GtpuMessageType {
    EchoRequest,
    EchoResponse,
    ErrorIndication,
    SupportedExtensionHeaders,
    TunnelStatus,
    EndMarker,
    GPdu,
}

/// The wire value of a message type.
pub open spec fn message_type_value(t: GtpuMessageType) -> u8 {
    match t {
        GtpuMessageType::EchoRequest => 1,
        GtpuMessageType::EchoResponse => 2,
        GtpuMessageType::ErrorIndication => 26,
        GtpuMessageType::SupportedExtensionHeaders => 31,
        GtpuMessageType::TunnelStatus => 253,
        GtpuMessageType::EndMarker => 254,
        GtpuMessageType::GPdu => 255,
    }
}

/// The message type a wire value stands for; an unknown value is given back.
pub open spec fn message_type_of(byte: u8) -> Result<GtpuMessageType, u8> {
    if byte == 1 {
        Ok(GtpuMessageType::EchoRequest)
    } else if byte == 2 {
        Ok(GtpuMessageType::EchoResponse)
    } else if byte == 26 {
        Ok(GtpuMessageType::ErrorIndication)
    } else if byte == 31 {
        Ok(GtpuMessageType::SupportedExtensionHeaders)
    } else if byte == 253 {
        Ok(GtpuMessageType::TunnelStatus)
    } else if byte == 254 {
        Ok(GtpuMessageType::EndMarker)
    } else if byte == 255 {
        Ok(GtpuMessageType::GPdu)
    } else {
        Err(byte)
    }
}

impl From<GtpuMessageType> for u8 {
    fn from(val: GtpuMessageType) -> (r: u8)
        ensures
            r == message_type_value(val),
    {
        match val {
            GtpuMessageType::EchoRequest => 1,
            GtpuMessageType::EchoResponse => 2,
            GtpuMessageType::ErrorIndication => 26,
            GtpuMessageType::SupportedExtensionHeaders => 31,
            GtpuMessageType::TunnelStatus => 253,
            GtpuMessageType::EndMarker => 254,
            GtpuMessageType::GPdu => 255,
        }
    }
}

impl vstd::std_specs::convert::FromSpecImpl<GtpuMessageType> for u8 {
    open spec fn obeys_from_spec() -> bool {
        true
    }

    open spec fn from_spec(v: GtpuMessageType) -> u8 {
        message_type_value(v)
    }
}

impl TryFrom<u8> for GtpuMessageType {
    type Error = u8;

    fn try_from(byte: u8) -> (r: Result<Self, Self::Error>)
        ensures
            r == message_type_of(byte),
    {
        match byte {
            1 => Ok(Self::EchoRequest),
            2 => Ok(Self::EchoResponse),
            26 => Ok(Self::ErrorIndication),
            31 => Ok(Self::SupportedExtensionHeaders),
            253 => Ok(Self::TunnelStatus),
            254 => Ok(Self::EndMarker),
            255 => Ok(Self::GPdu),
            _ => Err(byte),
        }
    }
}

impl vstd::std_specs::convert::TryFromSpecImpl<u8> for GtpuMessageType {
    open spec fn obeys_try_from_spec() -> bool {
        true
    }

    open spec fn try_from_spec(v: u8) -> Result<Self, u8> {
        message_type_of(v)
    }
}

/// A message type read back from its wire value is the same message type, and
/// a wire value that names a message type is that type's value.
pub proof fn lemma_message_type_roundtrip(t: GtpuMessageType, byte: u8)
    ensures
        message_type_of(message_type_value(t)) == Ok::<GtpuMessageType, u8>(t),
        message_type_of(byte) matches Ok(u) ==> message_type_value(u) == byte,
        message_type_of(byte) matches Err(e) ==> e == byte,
{
}

/// GTP-U extension header types (Figure 5.2.1-3 of 3GPP TS 29.281), those in use here.
#[derive(Clone, Copy, PartialEq, Eq, Structural, Debug)]
pub enum GtpuExtensionType {
    NoMoreExtensions,
    UdpPort,
    PduSessionContainer,
}

/// The wire value of an extension header type.
pub open spec fn extension_type_value(t: GtpuExtensionType) -> u8 {
    match t {
        GtpuExtensionType::NoMoreExtensions => 0x00,
        GtpuExtensionType::UdpPort => 0x40,
        GtpuExtensionType::PduSessionContainer => 0x85,
    }
}

/// The extension header type a wire value stands for; an unknown value is given back.
pub open spec fn extension_type_of(byte: u8) -> Result<GtpuExtensionType, u8> {
    if byte == 0x00 {
        Ok(GtpuExtensionType::NoMoreExtensions)
    } else if byte == 0x40 {
        Ok(GtpuExtensionType::UdpPort)
    } else if byte == 0x85 {
        Ok(GtpuExtensionType::PduSessionContainer)
    } else {
        Err(byte)
    }
}

impl From<GtpuExtensionType> for u8 {
    fn from(val: GtpuExtensionType) -> (r: u8)
        ensures
            r == extension_type_value(val),
    {
        match val {
            GtpuExtensionType::NoMoreExtensions => 0x00,
            GtpuExtensionType::UdpPort => 0x40,
            GtpuExtensionType::PduSessionContainer => 0x85,
        }
    }
}

impl vstd::std_specs::convert::FromSpecImpl<GtpuExtensionType> for u8 {
    open spec fn obeys_from_spec() -> bool {
        true
    }

    open spec fn from_spec(v: GtpuExtensionType) -> u8 {
        extension_type_value(v)
    }
}

impl TryFrom<u8> for GtpuExtensionType {
    type Error = u8;

    fn try_from(byte: u8) -> (r: Result<Self, Self::Error>)
        ensures
            r == extension_type_of(byte),
    {
        match byte {
            0x00 => Ok(Self::NoMoreExtensions),
            0x40 => Ok(Self::UdpPort),
            0x85 => Ok(Self::PduSessionContainer),
            _ => Err(byte),
        }
    }
}

impl vstd::std_specs::convert::TryFromSpecImpl<u8> for GtpuExtensionType {
    open spec fn obeys_try_from_spec() -> bool {
        true
    }

    open spec fn try_from_spec(v: u8) -> Result<Self, u8> {
        extension_type_of(v)
    }
}

/// An extension header type read back from its wire value is the same type, and
/// a wire value that names a type is that type's value.
pub proof fn lemma_extension_type_roundtrip(t: GtpuExtensionType, byte: u8)
    ensures
        extension_type_of(extension_type_value(t)) == Ok::<GtpuExtensionType, u8>(t),
        extension_type_of(byte) matches Ok(u) ==> extension_type_value(u) == byte,
        extension_type_of(byte) matches Err(e) ==> e == byte,
{
}

impl GtpuHdr {
    /// The eight octets of the header as they lie on the wire.
    pub open spec fn spec_bytes(&self) -> Seq<u8> {
        seq![self.v_pt_flags, self.msg_type] + self.msg_len@ + self.teid@
    }

    /// The header that lies in `pkt` at `off`.
    pub fn from_bytes(pkt: &[u8], off: usize) -> (r: Self)
        requires
            off + GTPU_HDR_BASE_LEN <= pkt@.len(),
        ensures
            r.spec_bytes() == pkt@.subrange(off as int, off + GTPU_HDR_BASE_LEN),
    {
        let r = GtpuHdr {
            v_pt_flags: pkt[off],
            msg_type: pkt[off + 1],
            msg_len: [pkt[off + 2], pkt[off + 3]],
            teid: [pkt[off + 4], pkt[off + 5], pkt[off + 6], pkt[off + 7]],
        };
        assert(r.spec_bytes() =~= pkt@.subrange(off as int, off + GTPU_HDR_BASE_LEN));
        r
    }

    /// The header's octets as they go on the wire.
    pub fn to_bytes(&self) -> (r: Vec<u8>)
        ensures
            r@ == self.spec_bytes(),
    {
        let r = vec![
            self.v_pt_flags,
            self.msg_type,
            self.msg_len[0],
            self.msg_len[1],
            self.teid[0],
            self.teid[1],
            self.teid[2],
            self.teid[3],
        ];
        assert(r@ =~= self.spec_bytes());
        r
    }

    /// The 3-bit Version value.
    pub open spec fn spec_version(&self) -> u8 {
        (self.v_pt_flags & 0xE0) >> 5
    }

    /// The 1-bit Protocol Type value.
    pub open spec fn spec_protocol_type(&self) -> u8 {
        (self.v_pt_flags & 0x10) >> 4
    }

    /// Gets the 3-bit Version value.
    pub fn version(&self) -> (r: u8)
        ensures
            r == self.spec_version(),
            r < 8,
    {
        let f = self.v_pt_flags;
        let r = (f & 0xE0) >> 5;
        assert(((f & 0xE0) >> 5) < 8) by (bit_vector);
        r
    }

    /// Sets the 3-bit Version value, keeping the other bits of the first octet.
    pub fn set_version(&mut self, version: u8)
        ensures
            final(self).v_pt_flags == ((version & 0x07) << 5) | (old(self).v_pt_flags & 0x1F),
            final(self).spec_version() == version & 0x07,
            final(self).v_pt_flags & 0x1F == old(self).v_pt_flags & 0x1F,
            final(self).msg_type == old(self).msg_type,
            final(self).msg_len == old(self).msg_len,
            final(self).teid == old(self).teid,
    {
        let preserved_bits = self.v_pt_flags & 0x1F;
        let old_flags = self.v_pt_flags;
        self.v_pt_flags = ((version & 0x07) << 5) | preserved_bits;
        let nf = self.v_pt_flags;
        assert(((nf & 0xE0) >> 5) == version & 0x07 && nf & 0x1F == old_flags & 0x1F) by (bit_vector)
            requires
                nf == ((version & 0x07) << 5) | (old_flags & 0x1F),
        ;
    }

    /// Gets the 1-bit Protocol Type (PT) value.
    pub fn protocol_type(&self) -> (r: u8)
        ensures
            r == self.spec_protocol_type(),
            r < 2,
    {
        let f = self.v_pt_flags;
        let r = (f & 0x10) >> 4;
        assert(((f & 0x10) >> 4) < 2) by (bit_vector);
        r
    }

    /// Sets the 1-bit Protocol Type (PT) value; `pt` is meant to be 0 or 1.
    pub fn set_protocol_type(&mut self, pt: u8)
        ensures
            final(self).v_pt_flags == (pt << 4) | (old(self).v_pt_flags & 0xEF),
            pt < 2 ==> final(self).spec_protocol_type() == pt,
            pt < 2 ==> final(self).v_pt_flags & 0xEF == old(self).v_pt_flags & 0xEF,
            final(self).msg_type == old(self).msg_type,
            final(self).msg_len == old(self).msg_len,
            final(self).teid == old(self).teid,
    {
        let preserved_bits = self.v_pt_flags & 0xEF;
        let old_flags = self.v_pt_flags;
        self.v_pt_flags = (pt << 4) | preserved_bits;
        let nf = self.v_pt_flags;
        assert(pt < 2 ==> ((nf & 0x10) >> 4) == pt && nf & 0xEF == old_flags & 0xEF) by (bit_vector)
            requires
                nf == (pt << 4) | (old_flags & 0xEF),
        ;
    }

    /// Whether any of the E, S and PN flags is set.
    pub fn has_flags(&self) -> (r: bool)
        ensures
            r == (self.v_pt_flags & 0x07 != 0),
    {
        self.v_pt_flags & 0x07 != 0
    }

    /// Whether the E flag is set.
    pub fn has_extension_header(&self) -> (r: bool)
        ensures
            r == (self.v_pt_flags & 0x04 != 0),
    {
        (self.v_pt_flags & 0x04) != 0
    }

    /// Sets the 1-bit Extension Header (E) value; `e` is meant to be 0 or 1.
    pub fn set_extension_header(&mut self, e: u8)
        ensures
            final(self).v_pt_flags == (e << 2) | (old(self).v_pt_flags & 0xFB),
            e < 2 ==> (final(self).v_pt_flags & 0x04 != 0) == (e == 1),
            e < 2 ==> final(self).v_pt_flags & 0xFB == old(self).v_pt_flags & 0xFB,
            final(self).msg_type == old(self).msg_type,
            final(self).msg_len == old(self).msg_len,
            final(self).teid == old(self).teid,
    {
        let preserved_bits = self.v_pt_flags & 0xFB;
        let old_flags = self.v_pt_flags;
        self.v_pt_flags = (e << 2) | preserved_bits;
        let nf = self.v_pt_flags;
        assert(e < 2 ==> ((nf & 0x04 != 0) == (e == 1)) && nf & 0xFB == old_flags & 0xFB)
            by (bit_vector)
            requires
                nf == (e << 2) | (old_flags & 0xFB),
        ;
    }

    /// Whether the S flag is set.
    pub fn has_sequence_number(&self) -> (r: bool)
        ensures
            r == (self.v_pt_flags & 0x02 != 0),
    {
        (self.v_pt_flags & 0x02) != 0
    }

    /// Whether the PN flag is set.
    pub fn has_npdu_number(&self) -> (r: bool)
        ensures
            r == (self.v_pt_flags & 0x01 != 0),
    {
        (self.v_pt_flags & 0x01) != 0
    }

    /// Gets the Message Type; an unknown value is given back as the error.
    pub fn message_type(&self) -> (r: Result<GtpuMessageType, u8>)
        ensures
            r == message_type_of(self.msg_type),
    {
        match GtpuMessageType::try_from(self.msg_type) {
            Ok(t) => Ok(t),
            Err(e) => Err(e),
        }
    }

    /// Sets the 8-bit Message Type value.
    pub fn set_message_type(&mut self, message_type: u8)
        ensures
            *final(self) == (GtpuHdr { msg_type: message_type, ..*old(self) }),
    {
        self.msg_type = message_type;
    }

    /// Gets the Message Length in host byte order.
    pub fn message_length(&self) -> (r: u16)
        ensures
            r == be16(self.msg_len[0], self.msg_len[1]),
    {
        read_be16(self.msg_len[0], self.msg_len[1])
    }

    /// Sets the Message Length, stored in network byte order.
    pub fn set_message_length(&mut self, message_length: u16)
        ensures
            *final(self) == (GtpuHdr { msg_len: final(self).msg_len, ..*old(self) }),
            be16(final(self).msg_len[0], final(self).msg_len[1]) == message_length,
            final(self).msg_len@ == be16_bytes(message_length),
    {
        self.msg_len = write_be16(message_length);
    }

    /// Gets the Tunnel Endpoint Identifier (TEID) in host byte order.
    pub fn teid(&self) -> (r: u32)
        ensures
            r == be32(self.teid[0], self.teid[1], self.teid[2], self.teid[3]),
    {
        read_be32(self.teid[0], self.teid[1], self.teid[2], self.teid[3])
    }

    /// Sets the TEID, stored in network byte order.
    pub fn set_teid(&mut self, teid: u32)
        ensures
            *final(self) == (GtpuHdr { teid: final(self).teid, ..*old(self) }),
            be32(final(self).teid[0], final(self).teid[1], final(self).teid[2], final(self).teid[3])
                == teid,
            final(self).teid@ == be32_bytes(teid),
    {
        self.teid = write_be32(teid);
    }
}

impl GtpuOptFields {
    /// The four octets of the optional fields as they lie on the wire.
    pub open spec fn spec_bytes(&self) -> Seq<u8> {
        self.seq_number@ + seq![self.npdu_num, self.next_ext_hdr_type]
    }

    /// The optional fields that lie in `pkt` at `off`.
    pub fn from_bytes(pkt: &[u8], off: usize) -> (r: Self)
        requires
            off + GTPU_OPT_FIELDS_LEN <= pkt@.len(),
        ensures
            r.spec_bytes() == pkt@.subrange(off as int, off + GTPU_OPT_FIELDS_LEN),
    {
        let r = GtpuOptFields {
            seq_number: [pkt[off], pkt[off + 1]],
            npdu_num: pkt[off + 2],
            next_ext_hdr_type: pkt[off + 3],
        };
        assert(r.spec_bytes() =~= pkt@.subrange(off as int, off + GTPU_OPT_FIELDS_LEN));
        r
    }

    /// The optional fields' octets as they go on the wire.
    pub fn to_bytes(&self) -> (r: Vec<u8>)
        ensures
            r@ == self.spec_bytes(),
    {
        let r = vec![self.seq_number[0], self.seq_number[1], self.npdu_num, self.next_ext_hdr_type];
        assert(r@ =~= self.spec_bytes());
        r
    }

    /// The four octets of the optional fields read as one number in network
    /// byte order: the sequence number field is read together with the two
    /// octets behind it.
    pub fn sequence_number(&self) -> (r: u32)
        ensures
            r == be32(
                self.seq_number[0],
                self.seq_number[1],
                self.npdu_num,
                self.next_ext_hdr_type,
            ),
    {
        read_be32(self.seq_number[0], self.seq_number[1], self.npdu_num, self.next_ext_hdr_type)
    }

    /// Writes `seq_number` in network byte order over the four octets of the
    /// optional fields, starting at the sequence number field.
    pub fn set_sequence_number(&mut self, seq_number: u32)
        ensures
            be32(
                final(self).seq_number[0],
                final(self).seq_number[1],
                final(self).npdu_num,
                final(self).next_ext_hdr_type,
            ) == seq_number,
            final(self).spec_bytes() == be32_bytes(seq_number),
    {
        let b = write_be32(seq_number);
        self.seq_number = [b[0], b[1]];
        self.npdu_num = b[2];
        self.next_ext_hdr_type = b[3];
        assert(self.spec_bytes() =~= b@);
    }

    pub fn npdu_number(&self) -> (r: u8)
        ensures
            r == self.npdu_num,
    {
        self.npdu_num
    }

    pub fn set_npdu_number(&mut self, npdu: u8)
        ensures
            *final(self) == (GtpuOptFields { npdu_num: npdu, ..*old(self) }),
    {
        self.npdu_num = npdu;
    }

    pub fn set_next_extension_header(&mut self, next_ext_hdr_type: u8)
        ensures
            *final(self) == (GtpuOptFields { next_ext_hdr_type, ..*old(self) }),
    {
        self.next_ext_hdr_type = next_ext_hdr_type;
    }

    /// Gets the Next Extension Header Type; an unknown value is given back as the error.
    pub fn next_extension_header_type(&self) -> (r: Result<GtpuExtensionType, u8>)
        ensures
            r == extension_type_of(self.next_ext_hdr_type),
    {
        match GtpuExtensionType::try_from(self.next_ext_hdr_type) {
            Ok(t) => Ok(t),
            Err(e) => Err(e),
        }
    }
}

} // verus!
