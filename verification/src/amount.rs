//! Amounts of the smallest currency unit: unsigned integers of 256 bits, as
//! the node reports them, and their conversion to whole units for display.

use vstd::prelude::*;
use vstd::arithmetic::power::pow;
use web3::types::U256;

verus! {

/// The decimal places between the smallest unit and the whole unit.
pub const UNIT_DECIMALS: usize = 18;

/// The value that four 64-bit words stand for, the least significant first.
pub open spec fn words_value(words: [u64; 4]) -> nat {
    (words[0] + words[1] * 0x1_0000_0000_0000_0000 + words[2]
        * 0x1_0000_0000_0000_0000_0000_0000_0000_0000 + words[3]
        * 0x1_0000_0000_0000_0000_0000_0000_0000_0000_0000_0000_0000_0000) as nat
}

/// How many of the smallest unit make one whole unit: ten to the eighteenth.
pub open spec fn unit_divisor() -> nat {
    1_000_000_000_000_000_000
}

/// An unsigned integer below two to the 256th. It is held as four 64-bit
/// words, the least significant first; its view is the number they stand for.
#[derive(Clone, Copy, Debug, PartialEq, Eq)]
pub struct Amount {
    words: [u64; 4],
}

impl View for Amount {
    type V = nat;

    open spec fn view(&self) -> nat {
        words_value(self.words())
    }
}

/// `U256::exp10`: ten to the power `n`. The outside function panics where
/// the power leaves 256 bits, which it does from the exponent 78 on.
#[verifier::external_body]
fn u256_exp10(n: usize) -> (r: Amount)
    requires
        n <= 77,
    ensures
        r@ == pow(10, n as nat),
{
    Amount { words: U256::exp10(n).0 }
}

/// `U256::checked_div`: nothing where the divisor is zero, and else the
/// quotient, rounded towards zero.
#[verifier::external_body]
pub(crate) fn u256_checked_div(dividend: Amount, divisor: Amount) -> (r: Option<Amount>)
    ensures
        match r {
            Some(q) => divisor@ != 0 && q@ == dividend@ / divisor@,
            None => divisor@ == 0,
        },
{
    match U256(dividend.words).checked_div(U256(divisor.words)) {
        Some(q) => Some(Amount { words: q.0 }),
        None => None,
    }
}

/// Ten to the power of the unit's decimal places is the unit divisor.
proof fn lemma_unit_divisor()
    ensures
        pow(10, UNIT_DECIMALS as nat) == unit_divisor(),
{
    reveal_with_fuel(pow, 19);
}

impl Amount {
    /// The four words, the least significant first.
    pub closed spec fn words(&self) -> [u64; 4] {
        self.words
    }

    /// The amount that four words stand for, the least significant first.
    pub fn from_words(words: [u64; 4]) -> (r: Amount)
        ensures
            r.words() == words,
            r@ == words_value(words),
    {
        Amount { words }
    }

    /// The four words of the amount, the least significant first.
    pub fn to_words(&self) -> (r: [u64; 4])
        ensures
            r == self.words(),
            words_value(r) == self@,
    {
        self.words
    }

    /// The amount `value`.
    pub fn from_u64(value: u64) -> (r: Amount)
        ensures
            r@ == value,
    {
        Amount { words: [value, 0, 0, 0] }
    }

    /// The amount `value`.
    pub fn from_u128(value: u128) -> (r: Amount)
        ensures
            r@ == value,
    {
        let low: u64 = (value % 0x1_0000_0000_0000_0000) as u64;
        let high: u64 = (value / 0x1_0000_0000_0000_0000) as u64;
        Amount { words: [low, high, 0, 0] }
    }

    /// The amount as a 128-bit integer, where it fits in one.
    pub fn to_u128(&self) -> (r: Option<u128>)
        ensures
            self@ <= u128::MAX ==> r == Some(self@ as u128),
            self@ > u128::MAX ==> r is None,
    {
        if self.words[2] == 0 && self.words[3] == 0 {
            let low: u128 = self.words[0] as u128;
            let high: u128 = self.words[1] as u128;
            Some(high * 0x1_0000_0000_0000_0000 + low)
        } else {
            None
        }
    }
}

/// One whole unit, in the smallest unit.
pub fn one_unit() -> (r: Amount)
    ensures
        r@ == unit_divisor(),
{
    proof {
        lemma_unit_divisor();
    }
    u256_exp10(UNIT_DECIMALS)
}

/// The whole units in a balance, for display: the balance divided by ten to
/// the eighteenth, the remainder dropped.
pub fn whole_units(balance: Amount) -> (r: Amount)
    ensures
        r@ == balance@ / unit_divisor(),
{
    let unit = one_unit();
    match u256_checked_div(balance, unit) {
        Some(q) => q,
        None => {
            assert(false);
            vstd::pervasive::unreached()
        },
    }
}

} // verus!
