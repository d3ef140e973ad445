//! A validated price scalar.

use vstd::prelude::*;
use crate::decimal::signed_milli_to_string_trim;
use crate::decimal::spec_signed_milli_chars_trim;

verus! {

/// Accepted price range in thousandths: [1, 100000) currency units.
pub open spec fn price_in_range(m: int) -> bool {
    1000 <= m < 100_000_000
}

/// A stock price in thousandths of a currency unit, constrained to the
/// range [1, 100000) units. Constructed only through the validating
/// factory [`StockPrice::new`] and never mutated.
#[derive(Debug, Clone, Copy, PartialEq, Eq, Structural)]
pub struct StockPrice {
    milli: i64,
}

/// Rounds a milli-scaled difference to hundredths, half away from zero.
pub open spec fn round_half_centi(d: int) -> int {
    if d >= 0 {
        (d + 5) / 10
    } else {
        -((-d + 5) / 10)
    }
}

/// The message with which an out-of-range value is rejected.
pub open spec fn spec_reject_msg(m: int) -> Seq<char> {
    "Failed to new StockPrice; Abnormal prices: "@ + spec_signed_milli_chars_trim(m)
}

impl StockPrice {
    /// The held value in thousandths.
    pub closed spec fn spec_milli(self) -> int {
        self.milli as int
    }

    /// The range invariant every constructed price satisfies.
    pub open spec fn wf(self) -> bool {
        price_in_range(self.spec_milli())
    }

    /// Validating factory: accepts exactly the values in [1, 100000)
    /// units; anything else is rejected with a message embedding the
    /// offending value.
    pub fn new(milli: i64) -> (r: Result<StockPrice, String>)
        ensures
            r is Ok <==> price_in_range(milli as int),
            r is Ok ==> r->Ok_0.spec_milli() == milli as int && r->Ok_0.wf(),
            r is Err ==> r->Err_0@ == spec_reject_msg(milli as int),
    {
        if 1000 <= milli && milli < 100_000_000 {
            Ok(StockPrice { milli })
        } else {
            let r = String::from_str("Failed to new StockPrice; Abnormal prices: ").concat(
                signed_milli_to_string_trim(milli).as_str(),
            );
            proof {
                assert(r@ =~= spec_reject_msg(milli as int));
            }
            Err(r)
        }
    }

    /// The held value in thousandths.
    pub fn milli(&self) -> (m: i64)
        ensures
            m == self.spec_milli(),
    {
        self.milli
    }

    /// The difference of two prices in hundredths of a unit (the
    /// displayed daily delta), rounded half away from zero.
    pub fn sub(self, rhs: StockPrice) -> (d: i64)
        requires
            self.wf(),
            rhs.wf(),
        ensures
            d == round_half_centi(self.spec_milli() - rhs.spec_milli()),
    {
        let diff: i64 = self.milli - rhs.milli;
        if diff >= 0 {
            let q = ((diff as u64) + 5) / 10;
            q as i64
        } else {
            let q = (((-diff) as u64) + 5) / 10;
            -(q as i64)
        }
    }
}

/// Delta rounding law: the rounded delta is the closest multiple of one
/// hundredth; a tie (half a hundredth exactly) rounds away from zero.
pub proof fn lemma_round_half_centi(d: int)
    ensures
        -5 <= 10 * round_half_centi(d) - d <= 5,
        10 * round_half_centi(d) - d == 5 ==> d >= 0,
        10 * round_half_centi(d) - d == -5 ==> d <= 0,
        d >= 0 ==> round_half_centi(d) >= 0,
        d <= 0 ==> round_half_centi(d) <= 0,
{
    if d >= 0 {
        vstd::arithmetic::div_mod::lemma_fundamental_div_mod(d + 5, 10);
        vstd::arithmetic::div_mod::lemma_mod_bound(d + 5, 10);
        vstd::arithmetic::div_mod::lemma_div_pos_is_pos(d + 5, 10);
    } else {
        vstd::arithmetic::div_mod::lemma_fundamental_div_mod(-d + 5, 10);
        vstd::arithmetic::div_mod::lemma_mod_bound(-d + 5, 10);
        vstd::arithmetic::div_mod::lemma_div_pos_is_pos(-d + 5, 10);
    }
}

} // verus!
