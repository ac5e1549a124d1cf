//! Internet checksum arithmetic (ones' complement sums, RFC 1071 / RFC 1624).
use vstd::prelude::*;

verus! {

/// Ones' complement addition of two 32-bit words: the sum with its carry added back.
pub open spec fn spec_csum_add(csum: u32, addend: u32) -> u32 {
    if csum as int + addend as int <= 0xffff_ffff {
        (csum as int + addend as int) as u32
    } else {
        (csum as int + addend as int - 0xffff_ffff) as u32
    }
}

/// One folding step: the high half of the word added to its low half.
pub open spec fn fold_step32(csum: u32) -> u32 {
    ((csum & 0xffff) as int + (csum >> 16) as int) as u32
}

/// One folding step on a 64-bit word.
pub open spec fn fold_step64(csum: u64) -> u64 {
    ((csum & 0xffff) as int + (csum >> 16) as int) as u64
}

/// `csum` folded twice to 16 bits and complemented.
pub open spec fn spec_csum_fold_u32(csum: u32) -> u16 {
    !(fold_step32(fold_step32(csum)) as u16)
}

/// `csum` folded four times to 16 bits and complemented.
pub open spec fn spec_csum_fold_u64(csum: u64) -> u16 {
    !(fold_step64(fold_step64(fold_step64(fold_step64(csum)))) as u16)
}

/// The checksum `csum` updated for a 32-bit word that changed from `from` to
/// `to` (RFC 1624, equation 3).
pub open spec fn spec_csum_replace4(csum: u32, from: u32, to: u32) -> u16 {
    spec_csum_fold_u32(spec_csum_add(spec_csum_add(!csum, !from), to))
}

/// Adds `addend` to `csum` in ones' complement arithmetic.
pub fn csum_add(csum: u32, addend: u32) -> (r: u32)
    ensures
        r == spec_csum_add(csum, addend),
        r as int % 0xffff_ffff == (csum as int + addend as int) % 0xffff_ffff,
{
    let res = csum.wrapping_add(addend);
    let r = res.wrapping_add((res < addend) as u32);
    assert(r as int % 0xffff_ffff == (csum as int + addend as int) % 0xffff_ffff) by {
        if csum as int + addend as int > 0xffff_ffff {
            assert((csum as int + addend as int - 0xffff_ffff) % 0xffff_ffff
                == (csum as int + addend as int) % 0xffff_ffff) by (nonlinear_arith);
        }
    }
    r
}

/// A folding step keeps the value modulo 0xffff.
proof fn lemma_fold_step32(csum: u32)
    ensures
        fold_step32(csum) as int % 0xffff == csum as int % 0xffff,
        fold_step32(csum) <= 0x1fffe,
        csum <= 0x1fffe ==> fold_step32(csum) <= 0xffff,
{
    let l = csum & 0xffff;
    let h = csum >> 16;
    assert(l == csum % 0x10000 && h == csum / 0x10000) by (bit_vector)
        requires
            l == csum & 0xffff,
            h == csum >> 16,
    ;
    assert(l as int + h as int == csum as int - 0xffff * h as int) by (nonlinear_arith)
        requires
            l == csum % 0x10000,
            h == csum / 0x10000,
    ;
    assert((csum as int - 0xffff * h as int) % 0xffff == csum as int % 0xffff) by (nonlinear_arith);
    assert(h <= 0xffff) by (bit_vector)
        requires
            h == csum >> 16,
    ;
    assert(csum <= 0x1fffe ==> h <= 1) by (bit_vector)
        requires
            h == csum >> 16,
    ;
    assert(csum <= 0x1fffe && h == 1 ==> l <= 0xfffe) by (bit_vector)
        requires
            l == csum & 0xffff,
            h == csum >> 16,
    ;
}

/// A folding step on a 64-bit word keeps the value modulo 0xffff, and leaves
/// at most 0xffff plus the high part of the word.
proof fn lemma_fold_step64(csum: u64)
    ensures
        fold_step64(csum) as int % 0xffff == csum as int % 0xffff,
        fold_step64(csum) as int <= 0xffff + csum as int / 0x10000,
        csum <= 0x1fffe ==> fold_step64(csum) <= 0xffff,
{
    let l = csum & 0xffff;
    let h = csum >> 16;
    assert(l == csum % 0x10000 && h == csum / 0x10000) by (bit_vector)
        requires
            l == csum & 0xffff,
            h == csum >> 16,
    ;
    assert(l as int + h as int == csum as int - 0xffff * h as int) by (nonlinear_arith)
        requires
            l == csum % 0x10000,
            h == csum / 0x10000,
    ;
    assert((csum as int - 0xffff * h as int) % 0xffff == csum as int % 0xffff) by (nonlinear_arith);
    assert(h <= 0xffff_ffff_ffff) by (bit_vector)
        requires
            h == csum >> 16,
    ;
}

/// Folds a 32-bit partial sum to 16 bits and complements it.
pub fn csum_fold_u32(csum: u32) -> (r: u16)
    ensures
        r == spec_csum_fold_u32(csum),
        fold_step32(fold_step32(csum)) <= 0xffff,
        fold_step32(fold_step32(csum)) as int % 0xffff == csum as int % 0xffff,
        r as int == 0xffff - fold_step32(fold_step32(csum)) as int,
{
    let mut c = csum;
    proof {
        lemma_fold_step32(csum);
        lemma_fold_step32(fold_step32(csum));
    }
    assert(c & 0xffff <= 0xffff && c >> 16 <= 0xffff) by (bit_vector);
    c = (c & 0xffff).wrapping_add(c >> 16);
    assert(c == fold_step32(csum));
    assert(c & 0xffff <= 0xffff && c >> 16 <= 0xffff) by (bit_vector);
    c = (c & 0xffff).wrapping_add(c >> 16);
    assert(c == fold_step32(fold_step32(csum)));
    let r = !(c as u16);
    let cc = c as u16;
    assert(!cc as int == 0xffff - cc as int) by (bit_vector);
    r
}

/// Folds a 64-bit partial sum to 16 bits, in four steps, and complements it.
pub fn csum_fold_u64(csum: u64) -> (r: u16)
    ensures
        r == spec_csum_fold_u64(csum),
{
    let mut c = csum;
    let ghost orig = csum;
    let mut i: u32 = 0;
    while i < 4
        invariant
            i <= 4,
            i == 0 ==> c == orig,
            i == 1 ==> c == fold_step64(orig),
            i == 2 ==> c == fold_step64(fold_step64(orig)),
            i == 3 ==> c == fold_step64(fold_step64(fold_step64(orig))),
            i == 4 ==> c == fold_step64(fold_step64(fold_step64(fold_step64(orig)))),
        decreases 4 - i,
    {
        let l = c & 0xffff;
        let h = c >> 16;
        assert(l <= 0xffff && h <= 0xffff_ffff_ffff) by (bit_vector)
            requires
                l == c & 0xffff,
                h == c >> 16,
        ;
        c = l.wrapping_add(h);
        i = i + 1;
    }
    !(c as u16)
}

/// Folding a sum of less than 2^40 gives the complement of a number of at most
/// 0xffff that is the sum modulo 0xffff: added to the sum, the checksum gives
/// a multiple of 0xffff.
pub proof fn lemma_csum_fold_u64_complements(s: u64)
    requires
        s < 0x100_0000_0000,
    ensures
        (s as int + spec_csum_fold_u64(s) as int) % 0xffff == 0,
{
    let f1 = fold_step64(s);
    let f2 = fold_step64(f1);
    let f3 = fold_step64(f2);
    let f4 = fold_step64(f3);
    lemma_fold_step64(s);
    lemma_fold_step64(f1);
    lemma_fold_step64(f2);
    lemma_fold_step64(f3);
    assert(f4 <= 0xffff);
    let c = f4 as u16;
    assert(c == f4);
    assert(!c as int == 0xffff - c as int) by (bit_vector);
    assert((s as int + 0xffff - f4 as int) % 0xffff == 0) by (nonlinear_arith)
        requires
            f4 as int % 0xffff == s as int % 0xffff,
    ;
}

/// Updates the checksum `csum` for a 32-bit word that changed from `from` to `to`.
pub fn csum_replace4(csum: u32, from: u32, to: u32) -> (r: u16)
    ensures
        r == spec_csum_replace4(csum, from, to),
{
    let tmp = csum_add(!csum, !from);
    csum_fold_u32(csum_add(tmp, to))
}

/// Incremental update (RFC 1624): the complement of the updated checksum is,
/// modulo 0xffff, the old complement with the old word taken out and the new
/// word put in.
pub proof fn lemma_csum_replace4_incremental(csum: u32, from: u32, to: u32)
    ensures
        (0xffff - spec_csum_replace4(csum, from, to) as int) % 0xffff
            == (to as int - from as int - csum as int) % 0xffff,
{
    let a = spec_csum_add(!csum, !from);
    let b = spec_csum_add(a, to);
    assert(!csum as int == 0xffff_ffff - csum as int) by (bit_vector);
    assert(!from as int == 0xffff_ffff - from as int) by (bit_vector);
    assert(a as int % 0xffff_ffff == (!csum as int + !from as int) % 0xffff_ffff) by {
        if !csum as int + !from as int > 0xffff_ffff {
            let s = !csum as int + !from as int;
            assert((s - 0xffff_ffff) % 0xffff_ffff == s % 0xffff_ffff) by (nonlinear_arith);
        }
    }
    assert(b as int % 0xffff_ffff == (a as int + to as int) % 0xffff_ffff) by {
        if a as int + to as int > 0xffff_ffff {
            let s = a as int + to as int;
            assert((s - 0xffff_ffff) % 0xffff_ffff == s % 0xffff_ffff) by (nonlinear_arith);
        }
    }
    // 0xffff divides 0xffff_ffff, so congruences modulo 0xffff_ffff carry over.
    assert forall|x: int, y: int| x % 0xffff_ffff == y % 0xffff_ffff implies #[trigger] (x % 0xffff)
        == #[trigger] (y % 0xffff) by {
        assert(x % 0xffff == y % 0xffff) by (nonlinear_arith)
            requires
                x % 0xffff_ffff == y % 0xffff_ffff,
        ;
    }
    lemma_fold_step32(b);
    lemma_fold_step32(fold_step32(b));
    let c = fold_step32(fold_step32(b));
    let cc = c as u16;
    assert(!cc as int == 0xffff - cc as int) by (bit_vector);
    let s1 = !csum as int + !from as int;
    assert(a as int % 0xffff == s1 % 0xffff);
    assert(b as int % 0xffff == (a as int + to as int) % 0xffff);
    assert((a as int + to as int) % 0xffff == (s1 + to as int) % 0xffff) by (nonlinear_arith)
        requires
            a as int % 0xffff == s1 % 0xffff,
    ;
    assert((s1 + to as int) % 0xffff == (to as int - from as int - csum as int) % 0xffff)
        by (nonlinear_arith)
        requires
            s1 == 0xffff_ffff - csum as int + 0xffff_ffff - from as int,
    ;
}

} // verus!
