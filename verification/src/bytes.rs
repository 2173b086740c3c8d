use vstd::prelude::*;

verus! {

/// Big-endian byte layout of a 32-bit integer.
pub open spec fn be4(x: u32) -> Seq<u8> {
    seq![(x >> 24u32) as u8, (x >> 16u32) as u8, (x >> 8u32) as u8, x as u8]
}

/// Two integers with the same big-endian bytes are the same integer.
pub proof fn lemma_be4_injective(x: u32, y: u32)
    requires
        be4(x) == be4(y),
    ensures
        x == y,
{
    assert(be4(x)[0] == be4(y)[0]);
    assert(be4(x)[1] == be4(y)[1]);
    assert(be4(x)[2] == be4(y)[2]);
    assert(be4(x)[3] == be4(y)[3]);
    assert(((x >> 24u32) as u8 == (y >> 24u32) as u8 && (x >> 16u32) as u8 == (y >> 16u32) as u8
        && (x >> 8u32) as u8 == (y >> 8u32) as u8 && x as u8 == y as u8) ==> x == y)
        by (bit_vector);
}

pub fn u32_to_be(x: u32) -> (r: Vec<u8>)
    ensures
        r@ == be4(x),
{
    let mut r: Vec<u8> = Vec::new();
    r.push((x >> 24u32) as u8);
    r.push((x >> 16u32) as u8);
    r.push((x >> 8u32) as u8);
    r.push(x as u8);
    proof {
        assert(r@ =~= be4(x));
    }
    r
}

/// The 32-bit integer spelled by four big-endian bytes.
pub open spec fn u32_of_be(b0: u8, b1: u8, b2: u8, b3: u8) -> u32 {
    (b0 * 0x1000000 + b1 * 0x10000 + b2 * 0x100 + b3) as u32
}

pub fn read_u32_be(b: &Vec<u8>, off: usize) -> (x: u32)
    requires
        off + 4 <= b@.len(),
    ensures
        x == u32_of_be(b@[off as int], b@[off as int + 1], b@[off as int + 2], b@[off as int + 3]),
{
    let n = b.len();
    let b0 = b[off];
    let b1 = b[off + 1];
    let b2 = b[off + 2];
    let b3 = b[off + 3];
    (b0 as u32) * 0x1000000 + (b1 as u32) * 0x10000 + (b2 as u32) * 0x100 + (b3 as u32)
}

/// Byte-wise equality of two byte vectors.
pub fn bytes_eq(a: &Vec<u8>, b: &Vec<u8>) -> (r: bool)
    ensures
        r == (a@ == b@),
{
    if a.len() != b.len() {
        return false;
    }
    let mut i: usize = 0;
    while i < a.len()
        invariant
            i <= a@.len(),
            a@.len() == b@.len(),
            forall|j: int| 0 <= j < i ==> a@[j] == b@[j],
        decreases a@.len() - i,
    {
        if a[i] != b[i] {
            return false;
        }
        i += 1;
    }
    proof {
        assert(a@ =~= b@);
    }
    true
}

/// Appends all of `src` to `dst`.
pub fn extend_from(dst: &mut Vec<u8>, src: &Vec<u8>)
    ensures
        final(dst)@ == old(dst)@ + src@,
{
    let mut i: usize = 0;
    while i < src.len()
        invariant
            i <= src@.len(),
            dst@ == old(dst)@ + src@.subrange(0, i as int),
        decreases src@.len() - i,
    {
        dst.push(src[i]);
        proof {
            assert(old(dst)@ + src@.subrange(0, i as int) + seq![src@[i as int]] =~= old(dst)@
                + src@.subrange(0, i as int + 1));
        }
        i += 1;
    }
    proof {
        assert(old(dst)@ + src@.subrange(0, src@.len() as int) =~= old(dst)@ + src@);
    }
}

/// A fresh vector with the same bytes.
pub fn clone_bytes(v: &Vec<u8>) -> (r: Vec<u8>)
    ensures
        r@ == v@,
{
    let n = v.len();
    let r = copy_range(v, 0, n);
    proof {
        assert(v@.subrange(0, v@.len() as int) =~= v@);
    }
    r
}

/// A fresh vector of fresh rows with the same bytes.
pub fn clone_rows(v: &Vec<Vec<u8>>) -> (r: Vec<Vec<u8>>)
    ensures
        r.deep_view() == v.deep_view(),
        r@.len() == v@.len(),
        forall|i: int| 0 <= i < v@.len() ==> (#[trigger] r@[i])@ == v@[i]@,
{
    let mut r: Vec<Vec<u8>> = Vec::new();
    let mut i: usize = 0;
    while i < v.len()
        invariant
            i <= v@.len(),
            r@.len() == i,
            forall|j: int| 0 <= j < i ==> (#[trigger] r@[j])@ == v@[j]@,
        decreases v@.len() - i,
    {
        r.push(clone_bytes(&v[i]));
        i += 1;
    }
    proof {
        assert forall|i: int| 0 <= i < v@.len() implies r.deep_view()[i] == v.deep_view()[i] by {
            assert(r.deep_view()[i] =~= r@[i]@);
            assert(v.deep_view()[i] =~= v@[i]@);
        }
        assert(r.deep_view() =~= v.deep_view());
    }
    r
}

/// The bytes of `src` from `start` (inclusive) to `end` (exclusive), as a new vector.
pub fn copy_range(src: &Vec<u8>, start: usize, end: usize) -> (r: Vec<u8>)
    requires
        start <= end <= src@.len(),
    ensures
        r@ == src@.subrange(start as int, end as int),
{
    let mut r: Vec<u8> = Vec::new();
    let mut i: usize = start;
    while i < end
        invariant
            start <= i <= end <= src@.len(),
            r@ == src@.subrange(start as int, i as int),
        decreases end - i,
    {
        r.push(src[i]);
        proof {
            assert(src@.subrange(start as int, i as int) + seq![src@[i as int]] =~= src@.subrange(
                start as int, i as int + 1));
        }
        i += 1;
    }
    r
}

} // verus!
