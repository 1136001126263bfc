//! Free space as an exact share of a volume's capacity.

use vstd::prelude::*;
use vstd::arithmetic::div_mod::{lemma_fundamental_div_mod, lemma_mod_bound};
use crate::text::{decimal, decimal_text, digit, digit_text};

verus! {

/// The share `available / total * 100` of a volume that is free, kept as the
/// two byte counts so that every comparison is exact.
///
/// With `total == 0` the share has no finite value: it lies above every
/// threshold when `available > 0`, and neither above nor below any threshold
/// when `available == 0`.
#[derive(Clone, Copy, Debug, PartialEq, Eq)]
pub struct Percentage {
    pub total: u64,
    pub available: u64,
}

/// `numerator / denominator` rounded to the nearest whole number, a tie going
/// to the even neighbour.
pub open spec fn nearest(numerator: nat, denominator: nat) -> nat
    recommends
        denominator > 0,
{
    let quotient = numerator / denominator;
    let remainder = numerator % denominator;
    if 2 * remainder > denominator || (2 * remainder == denominator && quotient % 2 == 1) {
        quotient + 1
    } else {
        quotient
    }
}

impl Percentage {
    /// The share is strictly greater than `percent` percent.
    pub open spec fn exceeds(self, percent: nat) -> bool {
        self.available * 100 > percent * self.total
    }

    /// The share is strictly less than `percent` percent.
    pub open spec fn is_below(self, percent: nat) -> bool {
        self.available * 100 < percent * self.total
    }

    /// The share in hundredths of a percent, rounded to the nearest.
    pub open spec fn hundredths(self) -> nat
        recommends
            self.total > 0,
    {
        nearest(self.available as nat * 10000, self.total as nat)
    }

    /// The share as it is written in the log: with two decimals, as in
    /// `22.00`; `NaN` and `inf` where the volume has no capacity.
    pub open spec fn numeral(self) -> Seq<char> {
        if self.total == 0 {
            if self.available == 0 {
                seq!['N', 'a', 'N']
            } else {
                seq!['i', 'n', 'f']
            }
        } else {
            let rounded = self.hundredths();
            decimal(rounded / 100) + seq!['.', digit(rounded / 10 % 10), digit(rounded % 10)]
        }
    }

    /// Tells whether the share is strictly greater than `percent` percent.
    pub fn above(&self, percent: u8) -> (result: bool)
        ensures
            result == self.exceeds(percent as nat),
    {
        proof {
            lemma_bound_fits(percent, self.total);
        }
        let scaled: u128 = (self.available as u128) * 100;
        let bound: u128 = (percent as u128) * (self.total as u128);
        scaled > bound
    }

    /// Tells whether the share is strictly less than `percent` percent.
    pub fn below(&self, percent: u8) -> (result: bool)
        ensures
            result == self.is_below(percent as nat),
    {
        proof {
            lemma_bound_fits(percent, self.total);
        }
        let scaled: u128 = (self.available as u128) * 100;
        let bound: u128 = (percent as u128) * (self.total as u128);
        scaled < bound
    }

    /// The share in hundredths of a percent, rounded to the nearest, a tie
    /// going to the even neighbour.
    fn rounded_hundredths(&self) -> (result: u128)
        requires
            self.total > 0,
        ensures
            result == self.hundredths(),
    {
        let numerator: u128 = (self.available as u128) * 10000;
        let denominator: u128 = self.total as u128;
        let quotient: u128 = numerator / denominator;
        let remainder: u128 = numerator % denominator;
        proof {
            lemma_mod_bound(numerator as int, denominator as int);
            lemma_fundamental_div_mod(numerator as int, denominator as int);
            assert(quotient <= numerator) by (nonlinear_arith)
                requires
                    numerator == denominator * quotient + remainder,
                    denominator >= 1,
                    remainder >= 0,
                    quotient >= 0,
            ;
        }
        let twice: u128 = 2 * remainder;
        if twice > denominator || (twice == denominator && quotient % 2 == 1) {
            quotient + 1
        } else {
            quotient
        }
    }

    /// Writes the share as the log shows it.
    pub fn text(&self) -> (result: String)
        ensures
            result@ == self.numeral(),
    {
        if self.total == 0 {
            proof {
                reveal_strlit("NaN");
                reveal_strlit("inf");
            }
            if self.available == 0 {
                let result: String = String::from_str("NaN");
                assert(result@ =~= self.numeral());
                result
            } else {
                let result: String = String::from_str("inf");
                assert(result@ =~= self.numeral());
                result
            }
        } else {
            let rounded: u128 = self.rounded_hundredths();
            let mut result: String = decimal_text(rounded / 100);
            result.append(".");
            result.append(digit_text((rounded / 10 % 10) as u8));
            result.append(digit_text((rounded % 10) as u8));
            proof {
                reveal_strlit(".");
                assert(result@ =~= self.numeral());
            }
            result
        }
    }
}

/// The free share of a volume with `total` bytes of which `available` are free.
pub fn calculate_percentage(total: u64, available: u64) -> (result: Percentage)
    ensures
        result == (Percentage { total, available }),
{
    Percentage { total, available }
}

proof fn lemma_bound_fits(percent: u8, total: u64)
    ensures
        percent * total <= u128::MAX,
{
    assert(percent * total <= 255 * 0xffff_ffff_ffff_ffff) by (nonlinear_arith)
        requires
            0 <= percent <= 255,
            0 <= total <= 0xffff_ffff_ffff_ffff,
    ;
}

/// Of a volume that has capacity and no more free bytes than that, the share
/// lies between 0 and 100 percent, both included, and so does what is
/// written of it.
pub proof fn lemma_percentage_within_bounds(total: u64, available: u64)
    requires
        total > 0,
        available <= total,
    ensures
        !(Percentage { total, available }).is_below(0),
        !(Percentage { total, available }).exceeds(100),
        (Percentage { total, available }).hundredths() <= 10000,
{
    let numerator = available as nat * 10000;
    let denominator = total as nat;
    let quotient = numerator / denominator;
    let remainder = numerator % denominator;
    lemma_mod_bound(numerator as int, denominator as int);
    lemma_fundamental_div_mod(numerator as int, denominator as int);
    assert(quotient < 10000 || (quotient == 10000 && remainder == 0)) by (nonlinear_arith)
        requires
            numerator == denominator * quotient + remainder,
            numerator <= denominator * 10000,
            denominator >= 1,
            0 <= remainder < denominator,
            quotient >= 0,
    ;
}

} // verus!
