//! Additional functionality for working with bytes.

use vstd::prelude::*;

verus! {

/// Whether bit `n` (0 = least significant) of `v` is set.
pub open spec fn bit_of(v: u8, n: u8) -> bool {
    (v >> n) & 1u8 == 1u8
}

/// `v` with bit `n` turned on when `set` holds, off otherwise.
pub open spec fn with_bit(v: u8, n: u8, set: bool) -> u8 {
    if set {
        v | (1u8 << n)
    } else {
        v & !(1u8 << n)
    }
}

/// The low byte (bits 0-7) of a word.
pub open spec fn lo_of(w: u16) -> u8 {
    (w % 256) as u8
}

/// The high byte (bits 8-15) of a word.
pub open spec fn hi_of(w: u16) -> u8 {
    (w / 256) as u8
}

/// The word whose high byte is `hi` and whose low byte is `lo`.
pub open spec fn word_of(hi: u8, lo: u8) -> u16 {
    (hi * 256 + lo) as u16
}

/// Extension trait providing additional methods for `u8`.
pub trait ByteExt: Sized {
    /// Whether bit `n` of the value is set.
    spec fn spec_has_bit(&self, n: u8) -> bool;

    /// The value with bit `n` set to `set`.
    spec fn spec_with_bit(&self, n: u8, set: bool) -> Self;

    /// Returns whether the byte has its nth bit set.
    fn has_bit_set(&self, n: u8) -> (r: bool)
        requires
            n <= 7,
        ensures
            r == self.spec_has_bit(n),
    ;

    /// If `set` is true, flips bit `n` on, and vice-versa.
    fn set_bit(&mut self, n: u8, set: bool)
        requires
            n <= 7,
        ensures
            *final(self) == old(self).spec_with_bit(n, set),
    ;
}

impl ByteExt for u8 {
    open spec fn spec_has_bit(&self, n: u8) -> bool {
        bit_of(*self, n)
    }

    open spec fn spec_with_bit(&self, n: u8, set: bool) -> u8 {
        with_bit(*self, n, set)
    }

    fn has_bit_set(&self, n: u8) -> (r: bool) {
        let v: u8 = *self;
        let r = (v & (1u8 << n)) != 0;
        assert(r == bit_of(v, n)) by (bit_vector)
            requires
                n <= 7,
                r == ((v & (1u8 << n)) != 0),
        ;
        r
    }

    fn set_bit(&mut self, n: u8, set: bool) {
        if set {
            *self = *self | (1u8 << n);
        } else {
            *self = *self & !(1u8 << n);
        }
    }
}

/// Extension trait providing additional methods for `u16`.
pub trait WordExt: Sized {
    /// The low byte of the value.
    spec fn spec_lo(&self) -> u8;

    /// The high byte of the value.
    spec fn spec_hi(&self) -> u8;

    /// Returns the low byte (bits 0-7) of the word.
    fn lo(&self) -> (r: u8)
        ensures
            r == self.spec_lo(),
    ;

    /// Returns the high byte (bits 8-15) of the word.
    fn hi(&self) -> (r: u8)
        ensures
            r == self.spec_hi(),
    ;
}

impl WordExt for u16 {
    open spec fn spec_lo(&self) -> u8 {
        lo_of(*self)
    }

    open spec fn spec_hi(&self) -> u8 {
        hi_of(*self)
    }

    fn lo(&self) -> (r: u8) {
        let w: u16 = *self;
        let r = w as u8;
        assert(r == lo_of(w)) by (bit_vector)
            requires
                r == w as u8,
        ;
        r
    }

    fn hi(&self) -> (r: u8) {
        let w: u16 = *self;
        let r = ((w >> 8) & 0xffu16) as u8;
        assert(r == hi_of(w)) by (bit_vector)
            requires
                r == ((w >> 8) & 0xffu16) as u8,
        ;
        r
    }
}

/// Turning bit `n` on and then off again gives back a byte whose bit `n` was
/// off; whatever the byte, every other bit keeps its value and bit `n` ends off.
pub proof fn lemma_set_then_clear(v: u8, n: u8)
    requires
        n <= 7,
    ensures
        !bit_of(v, n) ==> with_bit(with_bit(v, n, true), n, false) == v,
        !bit_of(with_bit(with_bit(v, n, true), n, false), n),
        forall|m: u8|
            m <= 7 && m != n ==> #[trigger] bit_of(with_bit(with_bit(v, n, true), n, false), m)
                == bit_of(v, m),
{
    let w = with_bit(with_bit(v, n, true), n, false);
    assert(w == (v | (1u8 << n)) & !(1u8 << n));
    assert(!bit_of(v, n) ==> (v | (1u8 << n)) & !(1u8 << n) == v) by (bit_vector)
        requires
            n <= 7,
    ;
    assert(!bit_of(w, n)) by (bit_vector)
        requires
            n <= 7,
            w == (v | (1u8 << n)) & !(1u8 << n),
    ;
    assert forall|m: u8| m <= 7 && m != n implies #[trigger] bit_of(w, m) == bit_of(v, m) by {
        assert(bit_of(w, m) == bit_of(v, m)) by (bit_vector)
            requires
                n <= 7,
                m <= 7,
                m != n,
                w == (v | (1u8 << n)) & !(1u8 << n),
        ;
    }
}

/// Splitting a word into its high and low bytes and joining them again gives
/// back the word.
pub proof fn lemma_split_join(v: u16)
    ensures
        ((hi_of(v) as u16) << 8u16) + (lo_of(v) as u16) == v,
        word_of(hi_of(v), lo_of(v)) == v,
{
    let h = hi_of(v);
    let l = lo_of(v);
    assert(((h as u16) << 8u16) + (l as u16) == v) by (bit_vector)
        requires
            h == (v / 256) as u8,
            l == (v % 256) as u8,
    ;
}

} // verus!
