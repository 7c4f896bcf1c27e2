use vstd::prelude::*;

use crate::error::Error;

verus! {

/// Positions are grouped eight to a byte.
pub const BUCKET_SIZE: usize = 8;

/// Positions go up to `u8::MAX`, so at most 256 / 8 bytes are ever needed.
pub const MAX_BUCKETS: usize = 32;

/// Whether position `k` (0 is the leftmost, most significant bit) is set in `b`.
pub open spec fn byte_bit(b: u8, k: nat) -> bool {
    k < 8 && b & (0x80u8 >> (k as u8)) != 0
}

/// Whether position `pos` is set in the bytes `s`: byte `pos / 8`, bit `pos % 8`.
pub open spec fn bit_at(s: Seq<u8>, pos: nat) -> bool {
    (pos / 8) < s.len() && byte_bit(s[(pos / 8) as int], pos % 8)
}

/// Number of one bits in a byte.
pub open spec fn pop(b: u8) -> nat
    decreases b,
{
    if b == 0 {
        0
    } else {
        (b % 2) as nat + pop(b / 2)
    }
}

/// Number of one bits in a sequence of bytes.
pub open spec fn ones(s: Seq<u8>) -> nat
    decreases s.len(),
{
    if s.len() == 0 {
        0
    } else {
        ones(s.drop_last()) + pop(s.last())
    }
}

proof fn lemma_or_bit(b: u8, j: u8, k: u8)
    requires
        j < 8,
        k < 8,
    ensures
        ((b | (0x80u8 >> k)) & (0x80u8 >> j) != 0) == ((b & (0x80u8 >> j) != 0) || j == k),
{
    assert(j < 8 && k < 8 ==> (((b | (0x80u8 >> k)) & (0x80u8 >> j) != 0) == ((b & (0x80u8
        >> j) != 0) || j == k))) by (bit_vector);
}

proof fn lemma_and_bit(x: u8, y: u8, j: u8)
    requires
        j < 8,
    ensures
        ((x & y) & (0x80u8 >> j) != 0) == ((x & (0x80u8 >> j) != 0) && (y & (0x80u8 >> j) != 0)),
{
    assert(((x & y) & (0x80u8 >> j) != 0) == ((x & (0x80u8 >> j) != 0) && (y & (0x80u8 >> j)
        != 0))) by (bit_vector);
}

proof fn lemma_zero_byte(j: u8)
    requires
        j < 8,
    ensures
        0u8 & (0x80u8 >> j) == 0,
{
    assert(0u8 & (0x80u8 >> j) == 0) by (bit_vector);
}

proof fn lemma_msb_lsb(b: u8, k: u8, t: u8)
    requires
        k < 8,
        k + t == 7,
    ensures
        (b & (0x80u8 >> k) != 0) == ((b >> t) & 1u8 == 1u8),
{
    assert(k < 8 && k + t == 7 ==> ((b & (0x80u8 >> k) != 0) == ((b >> t) & 1u8 == 1u8)))
        by (bit_vector);
}

/// A bit vector of up to 256 positions, stored eight positions to a byte, the
/// first position in the most significant bit of the first byte. A set position
/// stays set: the vector never shrinks.
#[derive(Clone, Debug, PartialEq, Eq)]
pub struct BitVec {
    inner: Vec<u8>,
}

impl View for BitVec {
    type V = Seq<u8>;

    closed spec fn view(&self) -> Seq<u8> {
        self.inner@
    }
}

impl Default for BitVec {
    fn default() -> (r: BitVec)
        ensures
            r@ == Seq::<u8>::empty(),
    {
        BitVec { inner: Vec::new() }
    }
}

impl BitVec {
    /// At most `MAX_BUCKETS` bytes.
    pub open spec fn wf(&self) -> bool {
        self@.len() <= MAX_BUCKETS
    }

    /// Whether position `pos` is set.
    pub open spec fn has(&self, pos: nat) -> bool {
        bit_at(self@, pos)
    }

    /// The empty bit vector.
    pub fn new() -> (r: BitVec)
        ensures
            r@ == Seq::<u8>::empty(),
            r.wf(),
    {
        BitVec { inner: Vec::new() }
    }

    /// Takes the bytes of a bit vector, as they travel on the wire; more than
    /// `MAX_BUCKETS` bytes is a malformed message.
    pub fn from_bytes(bytes: Vec<u8>) -> (r: Result<BitVec, Error>)
        ensures
            bytes@.len() <= MAX_BUCKETS ==> (r matches Ok(bv) && bv@ == bytes@),
            bytes@.len() > MAX_BUCKETS ==> r == Err::<BitVec, Error>(Error::SerializationError),
    {
        if bytes.len() > MAX_BUCKETS {
            return Err(Error::SerializationError);
        }
        Ok(BitVec { inner: bytes })
    }

    /// The bytes of the bit vector.
    pub fn as_bytes(&self) -> (r: &Vec<u8>)
        ensures
            r@ == self@,
    {
        &self.inner
    }

    /// Sets the bit at position `pos`.
    pub fn set(&mut self, pos: u8)
        requires
            old(self).wf(),
        ensures
            final(self).wf(),
            forall|p: nat| #[trigger] final(self).has(p) == (old(self).has(p) || p == pos),
            final(self)@.len() == if old(self)@.len() > pos / 8 {
                old(self)@.len() as int
            } else {
                pos / 8 + 1
            },
    {
        let bucket: usize = pos as usize / BUCKET_SIZE;
        let ghost before = self@;
        while self.inner.len() <= bucket
            invariant
                self.inner@.len() <= bucket + 1 || self.inner@ == before,
                before.len() <= self.inner@.len(),
                forall|i: int| 0 <= i < before.len() ==> self.inner@[i] == before[i],
                forall|i: int| before.len() <= i < self.inner@.len() ==> self.inner@[i] == 0u8,
                before.len() > bucket ==> self.inner@ == before,
            decreases bucket + 1 - self.inner@.len(),
        {
            self.inner.push(0);
        }
        let bucket_pos = pos as usize - (bucket * BUCKET_SIZE);
        let ghost mid = self.inner@;
        let b = self.inner[bucket];
        self.inner.set(bucket, b | (0b1000_0000u8 >> bucket_pos as u8));
        assert forall|p: nat| #[trigger] self.has(p) == (bit_at(before, p) || p == pos) by {
            if p / 8 < self.inner@.len() {
                lemma_or_bit(mid[(p / 8) as int], (p % 8) as u8, bucket_pos as u8);
                if p / 8 >= before.len() {
                    lemma_zero_byte((p % 8) as u8);
                }
            }
        }
    }

    /// Whether the bit at position `pos` is set.
    pub fn is_set(&self, pos: u8) -> (r: bool)
        ensures
            r == self.has(pos as nat),
    {
        let bucket: usize = pos as usize / BUCKET_SIZE;
        if self.inner.len() <= bucket {
            return false;
        }
        let bucket_pos = pos as usize - (bucket * BUCKET_SIZE);
        (self.inner[bucket] & (0b1000_0000u8 >> bucket_pos as u8)) != 0
    }

    /// The number of set positions.
    pub fn count_ones(&self) -> (r: u32)
        requires
            self.wf(),
        ensures
            r == ones(self@),
    {
        let mut total: u32 = 0;
        let mut i: usize = 0;
        while i < self.inner.len()
            invariant
                i <= self.inner@.len() <= MAX_BUCKETS,
                total == ones(self.inner@.subrange(0, i as int)),
                total <= 8 * i,
            decreases self.inner@.len() - i,
        {
            let c = byte_ones(self.inner[i]);
            assert(self.inner@.subrange(0, i + 1).drop_last() == self.inner@.subrange(0, i as int));
            total = total + c;
            i = i + 1;
        }
        assert(self.inner@.subrange(0, i as int) == self.inner@);
        total
    }

    /// The last set position, if any is set.
    pub fn last_set_bit(&self) -> (r: Option<u8>)
        requires
            self.wf(),
        ensures
            (r matches Some(p) ==> self.has(p as nat) && forall|q: nat| #[trigger] self.has(q) ==> q
                <= p),
            r is None ==> forall|q: nat| !#[trigger] self.has(q),
    {
        let mut j: usize = self.inner.len();
        while j > 0
            invariant
                j <= self.inner@.len() <= MAX_BUCKETS,
                forall|i: int| j <= i < self.inner@.len() ==> self.inner@[i] == 0u8,
            decreases j,
        {
            let byte = self.inner[j - 1];
            if byte != 0 {
                let tz = byte.trailing_zeros();
                proof {
                    vstd::std_specs::bits::axiom_u8_trailing_zeros(byte);
                }
                let k: u8 = 7 - tz as u8;
                let p: u8 = (8 * (j - 1) + k as usize) as u8;
                proof {
                    lemma_msb_lsb(byte, k, tz as u8);
                    assert(p as nat / 8 == j - 1);
                    assert(p as nat % 8 == k);
                    assert forall|q: nat| #[trigger] self.has(q) implies q <= p by {
                        if q / 8 > j - 1 {
                            lemma_zero_byte((q % 8) as u8);
                        } else if q / 8 == j - 1 && q % 8 > k {
                            let kq = (q % 8) as u8;
                            let t: u8 = (7 - kq) as u8;
                            lemma_msb_lsb(byte, kq, t);
                        }
                    }
                }
                return Some(p);
            }
            j = j - 1;
        }
        proof {
            assert forall|q: nat| !#[trigger] self.has(q) by {
                if q / 8 < self.inner@.len() {
                    lemma_zero_byte((q % 8) as u8);
                }
            }
        }
        None
    }

    /// The positions set in both vectors.
    pub fn bitand(self, other: BitVec) -> (r: BitVec)
        requires
            self.wf(),
        ensures
            r.wf(),
            r@.len() == if self@.len() < other@.len() {
                self@.len()
            } else {
                other@.len()
            },
            forall|p: nat| #[trigger] r.has(p) == (self.has(p) && other.has(p)),
    {
        let len = if self.inner.len() < other.inner.len() {
            self.inner.len()
        } else {
            other.inner.len()
        };
        let mut ret = BitVec { inner: Vec::with_capacity(len) };
        let mut i: usize = 0;
        while i < len
            invariant
                i <= len,
                len <= self.inner@.len(),
                len <= other.inner@.len(),
                ret.inner@.len() == i,
                forall|k: int|
                    0 <= k < i ==> ret.inner@[k] == self.inner@[k] & other.inner@[k],
            decreases len - i,
        {
            ret.inner.push(self.inner[i] & other.inner[i]);
            i = i + 1;
        }
        assert forall|p: nat| #[trigger] ret.has(p) == (self.has(p) && other.has(p)) by {
            if p / 8 < len {
                let k = (p / 8) as int;
                lemma_and_bit(self.inner@[k], other.inner@[k], (p % 8) as u8);
            }
        }
        ret
    }
}

/// Number of one bits in `b`.
fn byte_ones(b: u8) -> (r: u32)
    ensures
        r == pop(b),
        r <= 8,
{
    let mut x: u8 = b;
    let mut c: u32 = 0;
    proof {
        lemma_pop_bound(b);
    }
    while x != 0
        invariant
            c + pop(x) == pop(b),
            pop(b) <= 8,
        decreases x,
    {
        assert(x & 1 == x % 2) by (bit_vector);
        assert(x >> 1 == x / 2) by (bit_vector);
        c = c + (x & 1) as u32;
        x = x >> 1;
    }
    c
}

proof fn lemma_pop_bound(b: u8)
    ensures
        pop(b) <= 8,
{
    lemma_pop_le_width(b as nat, b);
}

proof fn lemma_pop_le_width(n: nat, b: u8)
    requires
        n == b,
    ensures
        pop(b) <= 8,
        b < 128 ==> pop(b) <= 7,
        b < 64 ==> pop(b) <= 6,
        b < 32 ==> pop(b) <= 5,
        b < 16 ==> pop(b) <= 4,
        b < 8 ==> pop(b) <= 3,
        b < 4 ==> pop(b) <= 2,
        b < 2 ==> pop(b) <= 1,
        b < 1 ==> pop(b) == 0,
    decreases n,
{
    if b != 0 {
        lemma_pop_le_width((b / 2) as nat, b / 2);
    }
}

} // verus!
