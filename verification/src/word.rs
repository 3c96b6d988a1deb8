//! 256-bit unsigned words: amounts, chain identifiers, intent identifiers and
//! timestamps.

use vstd::arithmetic::div_mod::{
    lemma_div_pos_is_pos, lemma_fundamental_div_mod, lemma_fundamental_div_mod_converse,
    lemma_mod_bound, lemma_small_mod,
};
use vstd::arithmetic::mul::lemma_mul_inequality;
use vstd::prelude::*;

verus! {

/// Two to the power 128: the weight of the high half of a word.
pub open spec fn half_modulus() -> nat {
    0x1_0000_0000_0000_0000_0000_0000_0000_0000nat
}

/// Two to the power 256: the number of distinct words.
pub open spec fn word_modulus() -> nat {
    half_modulus() * half_modulus()
}

/// An unsigned 256-bit integer, held as two 128-bit halves.
#[derive(Clone, Copy, Debug, PartialEq, Eq, Structural)]
pub struct U256 {
    pub high: u128,
    pub low: u128,
}

impl View for U256 {
    type V = nat;

    /// The number that the word stands for.
    open spec fn view(&self) -> nat {
        self.high as nat * half_modulus() + self.low as nat
    }
}

/// The word that stands for `n`, reduced modulo two to the power 256.
pub open spec fn word_of(n: nat) -> U256 {
    U256 {
        high: ((n / half_modulus()) % half_modulus()) as u128,
        low: (n % half_modulus()) as u128,
    }
}

/// Every word is the word of the number it stands for, and every number below
/// two to the power 256 is what its word stands for.
pub proof fn lemma_word_of(w: U256, n: nat)
    ensures
        word_of(w@) == w,
        n < word_modulus() ==> word_of(n)@ == n,
{
    let half = half_modulus() as int;
    lemma_fundamental_div_mod_converse(w@ as int, half, w.high as int, w.low as int);
    lemma_small_mod(w.high as nat, half_modulus());
    if n < word_modulus() {
        lemma_fundamental_div_mod(n as int, half);
        let q = n as int / half;
        lemma_mod_bound(n as int, half);
        lemma_div_pos_is_pos(n as int, half);
        assert(q < half) by {
            if q >= half {
                lemma_mul_inequality(half, q, half);
            }
        }
        lemma_small_mod(q as nat, half_modulus());
    }
}

/// The successor of a word stands for one more, and that of the largest word
/// for 0.
pub proof fn lemma_successor(w: U256)
    ensures
        w.successor()@ == (if w@ + 1 < word_modulus() {
            w@ + 1
        } else {
            0
        }),
{
    let sum = w@ + 1;
    if sum < word_modulus() {
        lemma_small_mod(sum, word_modulus());
        lemma_word_of(w, sum);
    } else {
        lemma_fundamental_div_mod_converse(sum as int, word_modulus() as int, 1, 0);
        lemma_word_of(w, 0);
    }
}

/// Two words that stand for the same number are the same word, and every
/// word stands for a number below two to the power 256.
pub proof fn lemma_view_injective(a: U256, b: U256)
    ensures
        (a@ == b@) <==> (a == b),
        a@ < word_modulus(),
        b@ < word_modulus(),
{
}

impl U256 {
    /// The word 0.
    pub open spec fn spec_zero() -> U256 {
        U256 { high: 0, low: 0 }
    }

    /// The word 1.
    pub open spec fn spec_one() -> U256 {
        U256 { high: 0, low: 1 }
    }

    /// The word that stands for `x`.
    pub open spec fn spec_from_u64(x: u64) -> U256 {
        U256 { high: 0, low: x as u128 }
    }

    /// The word 0.
    #[verifier::when_used_as_spec(spec_zero)]
    pub fn zero() -> (r: U256)
        ensures
            r@ == 0,
            r == Self::spec_zero(),
    {
        U256 { high: 0, low: 0 }
    }

    /// The word 1.
    #[verifier::when_used_as_spec(spec_one)]
    pub fn one() -> (r: U256)
        ensures
            r@ == 1,
            r == Self::spec_one(),
    {
        U256 { high: 0, low: 1 }
    }

    /// The largest word, two to the power 256 minus one.
    pub fn max_value() -> (r: U256)
        ensures
            r@ == word_modulus() - 1,
    {
        U256 { high: u128::MAX, low: u128::MAX }
    }

    /// The word that stands for `x`.
    #[verifier::when_used_as_spec(spec_from_u64)]
    pub fn from_u64(x: u64) -> (r: U256)
        ensures
            r@ == x,
            r == Self::spec_from_u64(x),
    {
        U256 { high: 0, low: x as u128 }
    }

    /// The word that stands for `x`.
    pub fn from_u128(x: u128) -> (r: U256)
        ensures
            r@ == x,
    {
        U256 { high: 0, low: x }
    }

    /// Whether the word is 0.
    pub fn is_zero(&self) -> (r: bool)
        ensures
            r == (self@ == 0),
    {
        self.high == 0 && self.low == 0
    }

    /// Whether `self` is strictly below `other`.
    pub fn lt(&self, other: &U256) -> (r: bool)
        ensures
            r == (self@ < other@),
    {
        self.high < other.high || (self.high == other.high && self.low < other.low)
    }

    /// Whether `self` is strictly above `other`.
    pub fn gt(&self, other: &U256) -> (r: bool)
        ensures
            r == (self@ > other@),
    {
        other.lt(self)
    }

    /// The sum modulo two to the power 256, and whether the true sum was too
    /// large for a word.
    pub fn overflowing_add(self, rhs: U256) -> (r: (U256, bool))
        ensures
            r.1 == (self@ + rhs@ >= word_modulus()),
            r.0@ + (if r.1 { word_modulus() } else { 0 }) == self@ + rhs@,
    {
        let low: u128 = self.low.wrapping_add(rhs.low);
        let carry: bool = self.low.checked_add(rhs.low).is_none();
        let partial: u128 = self.high.wrapping_add(rhs.high);
        let spill: bool = self.high.checked_add(rhs.high).is_none();
        if carry {
            let high: u128 = partial.wrapping_add(1);
            (U256 { high, low }, spill || partial == u128::MAX)
        } else {
            (U256 { high: partial, low }, spill)
        }
    }

    /// The sum modulo two to the power 256.
    pub open spec fn spec_wrapping_add(self, rhs: U256) -> U256 {
        word_of((self@ + rhs@) % word_modulus())
    }

    /// The word after this one; the word after the largest is 0.
    pub open spec fn successor(self) -> U256 {
        self.spec_wrapping_add(U256::one())
    }

    /// The sum modulo two to the power 256.
    pub fn wrapping_add(self, rhs: U256) -> (r: U256)
        ensures
            r@ == (self@ + rhs@) % word_modulus(),
            r == self.spec_wrapping_add(rhs),
    {
        let (sum, overflow) = self.overflowing_add(rhs);
        proof {
            let quotient: int = if overflow { 1 } else { 0 };
            lemma_fundamental_div_mod_converse(
                (self@ + rhs@) as int,
                word_modulus() as int,
                quotient,
                sum@ as int,
            );
            lemma_word_of(sum, 0);
        }
        sum
    }

    /// The sum, where it fits in a word.
    pub fn checked_add(self, rhs: U256) -> (r: Option<U256>)
        ensures
            r is Some <==> self@ + rhs@ < word_modulus(),
            r matches Some(sum) ==> sum@ == self@ + rhs@,
    {
        let (sum, overflow) = self.overflowing_add(rhs);
        if overflow {
            None
        } else {
            Some(sum)
        }
    }
}

} // verus!
