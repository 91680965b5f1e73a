//! SPI frame values: 1 to 16 significant bits plus the declared bit length.

use vstd::prelude::*;

verus! {

/// Smallest bit length a frame may declare.
pub const MIN_FRAME_BITS: u8 = 1;

/// Largest bit length a frame may declare.
pub const MAX_FRAME_BITS: u8 = 16;

/// Mask selecting the low `len` bits of a 16-bit value.
pub open spec fn spec_mask(len: u8) -> u16
    recommends
        MIN_FRAME_BITS <= len <= MAX_FRAME_BITS,
{
    if len >= 16 {
        0xffffu16
    } else {
        ((1u16 << len) - 1) as u16
    }
}

/// One SPI frame: a numeric value together with its declared bit length.
///
/// The invariant is that the value has no bits set outside the declared
/// length; `new` refuses any value that would break it.
pub struct Word {
    pub value: u16,
    pub len: u8,
}

impl Word {
    /// The frame invariant: a declared length between 1 and 16 bits, and a
    /// value confined to that many low bits.
    pub open spec fn wf(&self) -> bool {
        &&& MIN_FRAME_BITS <= self.len <= MAX_FRAME_BITS
        &&& self.value & spec_mask(self.len) == self.value
    }

    /// Builds a frame, refusing values with bits set outside the declared
    /// length and lengths outside 1..=16.
    pub fn new(value: u16, len: u8) -> (r: Option<Word>)
        ensures
            r is Some <==> (MIN_FRAME_BITS <= len <= MAX_FRAME_BITS && value & spec_mask(
                len,
            ) == value),
            r is Some ==> {
                &&& r->0.value == value
                &&& r->0.len == len
                &&& r->0.wf()
            },
    {
        if len < MIN_FRAME_BITS || len > MAX_FRAME_BITS {
            return None;
        }
        let m = mask_for(len);
        if value & m == value {
            Some(Word { value, len })
        } else {
            None
        }
    }

    /// The raw value to place in the transmit register.
    pub fn value_to_transmit(&self) -> (r: u16)
        ensures
            r == self.value,
    {
        self.value
    }

    /// Rebuilds a frame from a raw receive-register value, masking it down to
    /// the expected bit length.
    pub fn from_received(raw: u16, len: u8) -> (r: Word)
        requires
            MIN_FRAME_BITS <= len <= MAX_FRAME_BITS,
        ensures
            r.len == len,
            r.value == raw & spec_mask(len),
            r.wf(),
    {
        let m = mask_for(len);
        let value = raw & m;
        proof {
            lemma_mask_idempotent(raw, m);
        }
        Word { value, len }
    }
}

/// Computes the mask for a declared bit length.
pub(crate) fn mask_for(len: u8) -> (m: u16)
    requires
        MIN_FRAME_BITS <= len <= MAX_FRAME_BITS,
    ensures
        m == spec_mask(len),
{
    if len == 16 {
        0xffff
    } else {
        assert((1u16 << len) >= 1) by (bit_vector)
            requires
                len < 16,
        ;
        (1u16 << len) - 1
    }
}

/// Masking is idempotent, so a masked value satisfies the frame invariant.
proof fn lemma_mask_idempotent(x: u16, m: u16)
    ensures
        (x & m) & m == x & m,
{
    assert((x & m) & m == x & m) by (bit_vector);
}

} // verus!
