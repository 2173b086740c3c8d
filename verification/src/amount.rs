use vstd::prelude::*;

use crate::bytes::{bytes_eq, clone_bytes};

verus! {

/// A 256-bit unsigned transfer amount, kept as its 32 big-endian bytes.
/// The token ledger itself counts in 64-bit units, so every amount that
/// reaches a token operation must fit in the low eight bytes.
pub struct Amount {
    pub bytes: Vec<u8>,
}

impl View for Amount {
    type V = Seq<u8>;

    open spec fn view(&self) -> Seq<u8> {
        self.bytes@
    }
}

pub open spec fn amount_wf(a: Seq<u8>) -> bool {
    a.len() == 32
}

/// The amount's high 24 bytes are zero, so it is expressible in the
/// token ledger's 64-bit units.
pub open spec fn amount_fits_u64(a: Seq<u8>) -> bool {
    forall|i: int| 0 <= i < 24 ==> #[trigger] a[i] == 0
}

/// The value of the low eight bytes, big-endian.
pub open spec fn amount_u64(a: Seq<u8>) -> int {
    a[24] * 0x100000000000000 + a[25] * 0x1000000000000 + a[26] * 0x10000000000 + a[27]
        * 0x100000000 + a[28] * 0x1000000 + a[29] * 0x10000 + a[30] * 0x100 + a[31]
}

impl Amount {
    pub open spec fn wf(&self) -> bool {
        amount_wf(self@)
    }

    /// The zero amount.
    pub fn zero() -> (r: Amount)
        ensures
            r.wf(),
            amount_fits_u64(r@),
            amount_u64(r@) == 0,
            forall|i: int| 0 <= i < 32 ==> #[trigger] r@[i] == 0,
    {
        let mut b: Vec<u8> = Vec::new();
        let mut i: usize = 0;
        while i < 32
            invariant
                i <= 32,
                b@.len() == i,
                forall|j: int| 0 <= j < i ==> #[trigger] b@[j] == 0,
            decreases 32 - i,
        {
            b.push(0);
            i += 1;
        }
        Amount { bytes: b }
    }

    /// The amount worth `x` ledger units.
    pub fn from_u64(x: u64) -> (r: Amount)
        ensures
            r.wf(),
            amount_fits_u64(r@),
            amount_u64(r@) == x,
    {
        let mut b: Vec<u8> = Vec::new();
        let mut i: usize = 0;
        while i < 24
            invariant
                i <= 24,
                b@.len() == i,
                forall|j: int| 0 <= j < i ==> #[trigger] b@[j] == 0,
            decreases 24 - i,
        {
            b.push(0);
            i += 1;
        }
        let b24: u8 = (x >> 56u64) as u8;
        let b25: u8 = (x >> 48u64) as u8;
        let b26: u8 = (x >> 40u64) as u8;
        let b27: u8 = (x >> 32u64) as u8;
        let b28: u8 = (x >> 24u64) as u8;
        let b29: u8 = (x >> 16u64) as u8;
        let b30: u8 = (x >> 8u64) as u8;
        let b31: u8 = x as u8;
        b.push(b24);
        b.push(b25);
        b.push(b26);
        b.push(b27);
        b.push(b28);
        b.push(b29);
        b.push(b30);
        b.push(b31);
        proof {
            assert((b24 == (x >> 56u64) as u8 && b25 == (x >> 48u64) as u8 && b26 == (x
                >> 40u64) as u8 && b27 == (x >> 32u64) as u8 && b28 == (x >> 24u64) as u8 && b29
                == (x >> 16u64) as u8 && b30 == (x >> 8u64) as u8 && b31 == x as u8) ==> (
            b24 as int) * 0x100000000000000 + (b25 as int) * 0x1000000000000 + (b26 as int)
                * 0x10000000000 + (b27 as int) * 0x100000000 + (b28 as int) * 0x1000000 + (
            b29 as int) * 0x10000 + (b30 as int) * 0x100 + (b31 as int) == x) by (bit_vector);
        }
        Amount { bytes: b }
    }

    /// The amount in ledger units; callers must have established that it
    /// fits.
    pub fn as_u64(&self) -> (r: u64)
        requires
            self.wf(),
            amount_fits_u64(self@),
        ensures
            r == amount_u64(self@),
    {
        let b = &self.bytes;
        (b[24] as u64) * 0x100000000000000 + (b[25] as u64) * 0x1000000000000 + (b[26] as u64)
            * 0x10000000000 + (b[27] as u64) * 0x100000000 + (b[28] as u64) * 0x1000000 + (
        b[29] as u64) * 0x10000 + (b[30] as u64) * 0x100 + (b[31] as u64)
    }

    /// Whether the amount fits the token ledger's 64-bit units.
    pub fn fits_u64(&self) -> (r: bool)
        requires
            self.wf(),
        ensures
            r == amount_fits_u64(self@),
    {
        let b = &self.bytes;
        let mut i: usize = 0;
        while i < 24
            invariant
                i <= 24,
                self.wf(),
                b == &self.bytes,
                forall|j: int| 0 <= j < i ==> #[trigger] b@[j] == 0,
            decreases 24 - i,
        {
            if b[i] != 0 {
                return false;
            }
            i += 1;
        }
        true
    }

    /// A fresh amount with the same bytes.
    pub fn duplicate(&self) -> (r: Amount)
        ensures
            r@ == self@,
    {
        Amount { bytes: clone_bytes(&self.bytes) }
    }

    /// Byte-wise equality, which on well-formed amounts is value equality.
    pub fn same_as(&self, other: &Amount) -> (r: bool)
        ensures
            r == (self@ == other@),
    {
        bytes_eq(&self.bytes, &other.bytes)
    }
}

} // verus!
