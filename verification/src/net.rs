//! Ethernet, IPv4 and UDP headers as they lie in a packet, and the IPv4
//! header checksum.
use vstd::prelude::*;

use crate::checksum::{csum_fold_u64, spec_csum_fold_u64};
use crate::gtpu::{
    be16_bytes, be32, be32_bytes, lemma_be16_bytes_value, lemma_be16_roundtrip,
    lemma_be32_bytes_value, lemma_be32_roundtrip, read_be16, read_be32, write_be16, write_be32,
};
use crate::parser::{be16_at, be32_at, read_be32_at, IPV4_HDR_LEN, UDP_HDR_LEN};

verus! {

/// `s` with the bytes from `off` on overwritten by `b`.
pub open spec fn splice(s: Seq<u8>, off: int, b: Seq<u8>) -> Seq<u8> {
    s.subrange(0, off) + b + s.subrange(off + b.len(), s.len() as int)
}

/// `n` bytes of zero.
pub open spec fn zeros(n: nat) -> Seq<u8> {
    Seq::new(n, |i: int| 0u8)
}

/// The `n` bytes of `pkt` from `off` on.
pub fn read_bytes(pkt: &[u8], off: usize, n: usize) -> (r: Vec<u8>)
    requires
        off + n <= pkt@.len(),
    ensures
        r@ == pkt@.subrange(off as int, off + n),
{
    let mut r: Vec<u8> = Vec::new();
    let len = pkt.len();
    let mut i: usize = 0;
    while i < n
        invariant
            i <= n,
            len == pkt@.len(),
            off + n <= len,
            r@ == pkt@.subrange(off as int, off + i),
        decreases n - i,
    {
        r.push(pkt[off + i]);
        i += 1;
        assert(r@ =~= pkt@.subrange(off as int, off + i));
    }
    r
}

/// Overwrites the bytes of `pkt` from `off` on with `bytes`.
pub fn write_bytes(pkt: &mut Vec<u8>, off: usize, bytes: &[u8])
    requires
        off + bytes@.len() <= old(pkt)@.len(),
    ensures
        final(pkt)@ == splice(old(pkt)@, off as int, bytes@),
{
    let ghost orig = pkt@;
    let len = pkt.len();
    let mut i: usize = 0;
    while i < bytes.len()
        invariant
            i <= bytes@.len(),
            pkt@.len() == orig.len(),
            len == orig.len(),
            off + bytes@.len() <= orig.len(),
            forall|j: int|
                0 <= j < orig.len() ==> #[trigger] pkt@[j] == (if off <= j < off + i {
                    bytes@[j - off]
                } else {
                    orig[j]
                }),
        decreases bytes@.len() - i,
    {
        pkt[off + i] = bytes[i];
        i += 1;
    }
    assert(pkt@ =~= splice(orig, off as int, bytes@));
}

/// An IPv4 header without options, its fields as numbers.
#[derive(Clone, Copy, PartialEq, Eq, Structural, Debug)]
pub struct Ipv4Hdr {
    pub vihl: u8,
    pub tos: u8,
    pub tot_len: u16,
    pub id: u16,
    pub frags: u16,
    pub ttl: u8,
    pub proto: u8,
    pub check: u16,
    pub src_addr: u32,
    pub dst_addr: u32,
}

/// A UDP header, its fields as numbers.
#[derive(Clone, Copy, PartialEq, Eq, Structural, Debug)]
pub struct UdpHdr {
    pub src: u16,
    pub dst: u16,
    pub len: u16,
    pub check: u16,
}

/// The IPv4 header that lies in `pkt` at `off`.
pub open spec fn ipv4_hdr_at(pkt: Seq<u8>, off: int) -> Ipv4Hdr {
    Ipv4Hdr {
        vihl: pkt[off],
        tos: pkt[off + 1],
        tot_len: be16_at(pkt, off + 2),
        id: be16_at(pkt, off + 4),
        frags: be16_at(pkt, off + 6),
        ttl: pkt[off + 8],
        proto: pkt[off + 9],
        check: be16_at(pkt, off + 10),
        src_addr: be32_at(pkt, off + 12),
        dst_addr: be32_at(pkt, off + 16),
    }
}

impl Ipv4Hdr {
    /// The twenty octets of the header as they lie on the wire.
    pub open spec fn spec_bytes(&self) -> Seq<u8> {
        seq![self.vihl, self.tos] + be16_bytes(self.tot_len) + be16_bytes(self.id) + be16_bytes(
            self.frags,
        ) + seq![self.ttl, self.proto] + be16_bytes(self.check) + be32_bytes(self.src_addr)
            + be32_bytes(self.dst_addr)
    }

    /// The header that lies in `pkt` at `off`.
    pub fn from_bytes(pkt: &[u8], off: usize) -> (r: Self)
        requires
            off + IPV4_HDR_LEN <= pkt@.len(),
        ensures
            r == ipv4_hdr_at(pkt@, off as int),
            r.spec_bytes() == pkt@.subrange(off as int, off + IPV4_HDR_LEN),
    {
        let r = Ipv4Hdr {
            vihl: pkt[off],
            tos: pkt[off + 1],
            tot_len: read_be16(pkt[off + 2], pkt[off + 3]),
            id: read_be16(pkt[off + 4], pkt[off + 5]),
            frags: read_be16(pkt[off + 6], pkt[off + 7]),
            ttl: pkt[off + 8],
            proto: pkt[off + 9],
            check: read_be16(pkt[off + 10], pkt[off + 11]),
            src_addr: read_be32(pkt[off + 12], pkt[off + 13], pkt[off + 14], pkt[off + 15]),
            dst_addr: read_be32(pkt[off + 16], pkt[off + 17], pkt[off + 18], pkt[off + 19]),
        };
        proof {
            let p = pkt@;
            let o = off as int;
            lemma_be16_roundtrip(p[o + 2], p[o + 3]);
            lemma_be16_roundtrip(p[o + 4], p[o + 5]);
            lemma_be16_roundtrip(p[o + 6], p[o + 7]);
            lemma_be16_roundtrip(p[o + 10], p[o + 11]);
            lemma_be32_roundtrip(p[o + 12], p[o + 13], p[o + 14], p[o + 15]);
            lemma_be32_roundtrip(p[o + 16], p[o + 17], p[o + 18], p[o + 19]);
            assert(r.spec_bytes() =~= p.subrange(o, o + IPV4_HDR_LEN));
        }
        r
    }

    /// The header's octets as they go on the wire.
    pub fn to_bytes(&self) -> (r: Vec<u8>)
        ensures
            r@ == self.spec_bytes(),
    {
        let tl = write_be16(self.tot_len);
        let id = write_be16(self.id);
        let fr = write_be16(self.frags);
        let ck = write_be16(self.check);
        let sa = write_be32(self.src_addr);
        let da = write_be32(self.dst_addr);
        let r = vec![
            self.vihl,
            self.tos,
            tl[0],
            tl[1],
            id[0],
            id[1],
            fr[0],
            fr[1],
            self.ttl,
            self.proto,
            ck[0],
            ck[1],
            sa[0],
            sa[1],
            sa[2],
            sa[3],
            da[0],
            da[1],
            da[2],
            da[3],
        ];
        assert(r@ =~= self.spec_bytes());
        r
    }

    /// Sets the version and the header length, the latter given in bytes.
    pub fn set_vihl(&mut self, version: u8, ihl_in_bytes: u8)
        ensures
            *final(self) == (Ipv4Hdr {
                vihl: ((version & 0xF) << 4) | ((ihl_in_bytes / 4) & 0xF),
                ..*old(self)
            }),
    {
        let ihl_in_words = ihl_in_bytes / 4;
        self.vihl = ((version & 0xF) << 4) | (ihl_in_words & 0xF);
    }

    /// Sets the type of service octet from the DSCP and ECN values.
    pub fn set_tos(&mut self, dscp: u8, ecn: u8)
        ensures
            *final(self) == (Ipv4Hdr { tos: ((dscp & 0x3F) << 2) | (ecn & 0x3), ..*old(self) }),
    {
        self.tos = ((dscp & 0x3F) << 2) | (ecn & 0x3);
    }

    pub fn tot_len(&self) -> (r: u16)
        ensures
            r == self.tot_len,
    {
        self.tot_len
    }

    pub fn set_tot_len(&mut self, len: u16)
        ensures
            *final(self) == (Ipv4Hdr { tot_len: len, ..*old(self) }),
    {
        self.tot_len = len;
    }

    pub fn set_id(&mut self, id: u16)
        ensures
            *final(self) == (Ipv4Hdr { id, ..*old(self) }),
    {
        self.id = id;
    }

    /// Sets the three flag bits and the 13-bit fragment offset.
    pub fn set_frags(&mut self, flags: u8, offset: u16)
        ensures
            *final(self) == (Ipv4Hdr {
                frags: (((flags as u16) & 0x7) << 13) | (offset & 0x1FFF),
                ..*old(self)
            }),
    {
        self.frags = (((flags as u16) & 0x7) << 13) | (offset & 0x1FFF);
    }

    pub fn proto(&self) -> (r: u8)
        ensures
            r == self.proto,
    {
        self.proto
    }

    pub fn set_proto(&mut self, proto: u8)
        ensures
            *final(self) == (Ipv4Hdr { proto, ..*old(self) }),
    {
        self.proto = proto;
    }

    pub fn checksum(&self) -> (r: u16)
        ensures
            r == self.check,
    {
        self.check
    }

    pub fn set_checksum(&mut self, checksum: u16)
        ensures
            *final(self) == (Ipv4Hdr { check: checksum, ..*old(self) }),
    {
        self.check = checksum;
    }

    pub fn src_addr(&self) -> (r: u32)
        ensures
            r == self.src_addr,
    {
        self.src_addr
    }

    pub fn dst_addr(&self) -> (r: u32)
        ensures
            r == self.dst_addr,
    {
        self.dst_addr
    }

    pub fn set_src_addr(&mut self, src: u32)
        ensures
            *final(self) == (Ipv4Hdr { src_addr: src, ..*old(self) }),
    {
        self.src_addr = src;
    }

    pub fn set_dst_addr(&mut self, dst: u32)
        ensures
            *final(self) == (Ipv4Hdr { dst_addr: dst, ..*old(self) }),
    {
        self.dst_addr = dst;
    }
}

impl UdpHdr {
    /// The eight octets of the header as they lie on the wire.
    pub open spec fn spec_bytes(&self) -> Seq<u8> {
        be16_bytes(self.src) + be16_bytes(self.dst) + be16_bytes(self.len) + be16_bytes(self.check)
    }

    /// The header that lies in `pkt` at `off`.
    pub fn from_bytes(pkt: &[u8], off: usize) -> (r: Self)
        requires
            off + UDP_HDR_LEN <= pkt@.len(),
        ensures
            r.spec_bytes() == pkt@.subrange(off as int, off + UDP_HDR_LEN),
    {
        let r = UdpHdr {
            src: read_be16(pkt[off], pkt[off + 1]),
            dst: read_be16(pkt[off + 2], pkt[off + 3]),
            len: read_be16(pkt[off + 4], pkt[off + 5]),
            check: read_be16(pkt[off + 6], pkt[off + 7]),
        };
        proof {
            let p = pkt@;
            let o = off as int;
            lemma_be16_roundtrip(p[o], p[o + 1]);
            lemma_be16_roundtrip(p[o + 2], p[o + 3]);
            lemma_be16_roundtrip(p[o + 4], p[o + 5]);
            lemma_be16_roundtrip(p[o + 6], p[o + 7]);
            assert(r.spec_bytes() =~= p.subrange(o, o + UDP_HDR_LEN));
        }
        r
    }

    /// The header's octets as they go on the wire.
    pub fn to_bytes(&self) -> (r: Vec<u8>)
        ensures
            r@ == self.spec_bytes(),
    {
        let s = write_be16(self.src);
        let d = write_be16(self.dst);
        let l = write_be16(self.len);
        let c = write_be16(self.check);
        let r = vec![s[0], s[1], d[0], d[1], l[0], l[1], c[0], c[1]];
        assert(r@ =~= self.spec_bytes());
        r
    }

    pub fn set_src_port(&mut self, port: u16)
        ensures
            *final(self) == (UdpHdr { src: port, ..*old(self) }),
    {
        self.src = port;
    }

    pub fn set_dst_port(&mut self, port: u16)
        ensures
            *final(self) == (UdpHdr { dst: port, ..*old(self) }),
    {
        self.dst = port;
    }

    pub fn set_len(&mut self, len: u16)
        ensures
            *final(self) == (UdpHdr { len, ..*old(self) }),
    {
        self.len = len;
    }

    pub fn set_checksum(&mut self, check: u16)
        ensures
            *final(self) == (UdpHdr { check, ..*old(self) }),
    {
        self.check = check;
    }
}

/// The sum of the first `n` 32-bit words of `h`, each read in network byte order.
pub open spec fn word_sum(h: Seq<u8>, n: nat) -> int
    decreases n,
{
    if n == 0 {
        0
    } else {
        word_sum(h, (n - 1) as nat) + be32_at(h, 4 * (n - 1))
    }
}

/// The checksum of a header: the sum of its 32-bit words folded to 16 bits
/// and complemented.
pub open spec fn spec_ipv4_csum(h: Seq<u8>) -> u16 {
    spec_csum_fold_u64(word_sum(h, h.len() / 4) as u64)
}

/// The sum of the five 32-bit words of an IPv4 header, from its fields.
pub open spec fn ipv4_word_sum(h: Ipv4Hdr) -> int {
    (h.vihl as int * 0x100_0000 + h.tos as int * 0x1_0000 + h.tot_len as int) + (h.id as int
        * 0x1_0000 + h.frags as int) + (h.ttl as int * 0x100_0000 + h.proto as int * 0x1_0000
        + h.check as int) + h.src_addr as int + h.dst_addr as int
}

/// Whether the checksum of an IPv4 header is right: the header's 32-bit
/// words add up to a multiple of 0xffff.
pub open spec fn ipv4_checksum_ok(h: Ipv4Hdr) -> bool {
    word_sum(h.spec_bytes(), 5) % 0xffff == 0
}

/// The words of an IPv4 header on the wire add up as its fields do.
pub proof fn lemma_ipv4_word_sum(h: Ipv4Hdr)
    ensures
        word_sum(h.spec_bytes(), 5) == ipv4_word_sum(h),
        h.spec_bytes().len() == 20,
{
    let b = h.spec_bytes();
    let tl = be16_bytes(h.tot_len);
    let id = be16_bytes(h.id);
    let fr = be16_bytes(h.frags);
    let ck = be16_bytes(h.check);
    let sa = be32_bytes(h.src_addr);
    let da = be32_bytes(h.dst_addr);
    assert(b =~= seq![
        h.vihl, h.tos, tl[0], tl[1], id[0], id[1], fr[0], fr[1], h.ttl, h.proto, ck[0], ck[1],
        sa[0], sa[1], sa[2], sa[3], da[0], da[1], da[2], da[3],
    ]);
    lemma_be16_bytes_value(h.tot_len);
    lemma_be16_bytes_value(h.id);
    lemma_be16_bytes_value(h.frags);
    lemma_be16_bytes_value(h.check);
    lemma_be32_bytes_value(h.src_addr);
    lemma_be32_bytes_value(h.dst_addr);
    reveal_with_fuel(word_sum, 6);
    assert(be32_at(b, 0) == h.vihl as int * 0x100_0000 + h.tos as int * 0x1_0000
        + h.tot_len as int);
    assert(be32_at(b, 4) == h.id as int * 0x1_0000 + h.frags as int);
    assert(be32_at(b, 8) == h.ttl as int * 0x100_0000 + h.proto as int * 0x1_0000
        + h.check as int);
    assert(be32_at(b, 12) == h.src_addr);
    assert(be32_at(b, 16) == h.dst_addr);
}

proof fn lemma_word_sum_bound(h: Seq<u8>, n: nat)
    ensures
        0 <= word_sum(h, n) <= n * 0xffff_ffff,
    decreases n,
{
    if n > 0 {
        lemma_word_sum_bound(h, (n - 1) as nat);
    }
}

/// Computes the checksum of a header of at most sixty bytes made of whole 32-bit words.
pub fn ipv4_csum(hdr: &[u8]) -> (r: u16)
    requires
        hdr@.len() % 4 == 0,
        hdr@.len() <= 60,
    ensures
        r == spec_ipv4_csum(hdr@),
{
    let mut sum: u64 = 0;
    let mut off: usize = 0;
    let ghost mut n: nat = 0;
    while off < hdr.len()
        invariant
            hdr@.len() % 4 == 0,
            hdr@.len() <= 60,
            off == 4 * n,
            off <= hdr@.len(),
            sum == word_sum(hdr@, n),
        decreases hdr@.len() - off,
    {
        proof {
            lemma_word_sum_bound(hdr@, n);
        }
        sum = sum + read_be32_at(hdr, off) as u64;
        off += 4;
        proof {
            n = n + 1;
        }
    }
    assert(n == hdr@.len() / 4);
    csum_fold_u64(sum)
}

} // verus!
