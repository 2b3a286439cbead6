use vstd::prelude::*;

verus! {

use crate::constants::{KEY_BYTES_LEN, KEY_NUM};
use vstd::arithmetic::div_mod::lemma_fundamental_div_mod;

/// One bit per physical key, packed least-significant-bit first within each
/// byte: key `i` lives in bit `i % 8` of byte `i / 8`.
pub type BitKeyStates = [u8; KEY_BYTES_LEN];

/// True when bit `i` of `x` is set.
pub open spec fn u8_bit(x: u8, i: u8) -> bool {
    (x >> i) & 1 == 1
}

/// True when bit `index` of the packed key bitset `bytes` is set.
pub open spec fn bit_at(bytes: Seq<u8>, index: int) -> bool
    recommends
        0 <= index < 8 * bytes.len(),
{
    u8_bit(bytes[index / 8], (index % 8) as u8)
}

/// A zero byte has no bit set.
pub proof fn lemma_zero_bit(i: u8)
    by (bit_vector)
    ensures
        !u8_bit(0u8, i),
{
}

/// Flipping bit `i` of a byte inverts exactly that bit.
pub proof fn lemma_xor_bit_same(x: u8, i: u8)
    by (bit_vector)
    requires
        i < 8,
    ensures
        u8_bit(x ^ (1u8 << i), i) == !u8_bit(x, i),
{
}

/// Flipping bit `i` of a byte leaves every other bit unchanged.
pub proof fn lemma_xor_bit_other(x: u8, i: u8, j: u8)
    by (bit_vector)
    requires
        i < 8,
        j < 8,
        i != j,
    ensures
        u8_bit(x ^ (1u8 << i), j) == u8_bit(x, j),
{
}

/// Setting bit `i` of a byte makes exactly that bit true.
pub proof fn lemma_or_bit_same(x: u8, i: u8)
    by (bit_vector)
    requires
        i < 8,
    ensures
        u8_bit(x | (1u8 << i), i),
{
}

/// Setting bit `i` of a byte leaves every other bit unchanged.
pub proof fn lemma_or_bit_other(x: u8, i: u8, j: u8)
    by (bit_vector)
    requires
        i < 8,
        j < 8,
        i != j,
    ensures
        u8_bit(x | (1u8 << i), j) == u8_bit(x, j),
{
}

/// Two key indices that share a byte and a bit position are the same index.
proof fn lemma_same_slot_same_index(i: int, j: int)
    requires
        0 <= i,
        0 <= j,
        i / 8 == j / 8,
        i % 8 == j % 8,
    ensures
        i == j,
{
    lemma_fundamental_div_mod(i, 8);
    lemma_fundamental_div_mod(j, 8);
}

/// The debounced press state of the whole matrix, one bit per key.
pub trait KeyStates: Sized {
    /// Whether key `index` is recorded as pressed.
    spec fn pressed_at(&self, index: int) -> bool;

    /// Flip the recorded state of key `index`, leaving every other key
    /// unchanged.
    fn toggle(&mut self, index: usize)
        requires
            index < KEY_NUM,
        ensures
            final(self).pressed_at(index as int) == !old(self).pressed_at(index as int),
            forall|j: int|
                0 <= j < KEY_NUM && j != index as int ==> final(self).pressed_at(j) == old(
                    self,
                ).pressed_at(j),
    ;

    /// Read the recorded state of key `index`.
    fn is_pressed(&self, index: usize) -> (pressed: bool)
        requires
            index < KEY_NUM,
        ensures
            pressed == self.pressed_at(index as int),
    ;
}

impl KeyStates for BitKeyStates {
    open spec fn pressed_at(&self, index: int) -> bool {
        bit_at(self@, index)
    }

    fn toggle(&mut self, index: usize) {
        let byte: usize = index / 8;
        let sh: u8 = (index % 8) as u8;
        self[byte] = self[byte] ^ (1u8 << sh);
        proof {
            assert forall|j: int| 0 <= j < KEY_NUM implies #[trigger] bit_at(self@, j) == (if j
                == index as int {
                !bit_at(old(self)@, j)
            } else {
                bit_at(old(self)@, j)
            }) by {
                if j / 8 == byte as int {
                    if j == index as int {
                        lemma_xor_bit_same(old(self)@[byte as int], sh);
                    } else if j % 8 == index as int % 8 {
                        lemma_same_slot_same_index(j, index as int);
                    } else {
                        lemma_xor_bit_other(old(self)@[byte as int], sh, (j % 8) as u8);
                    }
                }
            }
        }
    }

    fn is_pressed(&self, index: usize) -> (pressed: bool) {
        let byte: usize = index / 8;
        let sh: u8 = (index % 8) as u8;
        (self[byte] >> sh) & 1 == 1
    }
}

} // verus!
