use crate::error::ErrorCode;
use crate::math::u256::lemma_word_product;
use vstd::prelude::*;

verus! {

/// Checked multiply and divide, with the product held in a wider type.
pub trait MulDiv: Sized {
    /// What `mul_div` returns.
    spec fn mul_div_spec(self, num: Self, div: Self) -> Result<Self, ErrorCode>;

    /// `self * num / div`, rounded down.
    fn mul_div(self, num: Self, div: Self) -> (r: Result<Self, ErrorCode>)
        ensures
            r == self.mul_div_spec(num, div),
    ;
}

impl MulDiv for u64 {
    open spec fn mul_div_spec(self, num: u64, div: u64) -> Result<u64, ErrorCode> {
        if div == 0 {
            Err(ErrorCode::MathZeroDivision)
        } else if (self * num) / (div as int) > u64::MAX {
            Err(ErrorCode::MathOverflowConversion)
        } else {
            Ok(((self * num) / (div as int)) as u64)
        }
    }

    fn mul_div(self, num: u64, div: u64) -> (r: Result<u64, ErrorCode>)
        ensures
            div == 0 ==> r == Err::<u64, ErrorCode>(ErrorCode::MathZeroDivision),
            div != 0 && (self * num) / (div as int) > u64::MAX ==> r == Err::<u64, ErrorCode>(
                ErrorCode::MathOverflowConversion,
            ),
            div != 0 && (self * num) / (div as int) <= u64::MAX ==> r == Ok::<u64, ErrorCode>(
                ((self * num) / (div as int)) as u64,
            ),
    {
        proof {
            lemma_word_product(self as int, num as int);
        }
        let product: u128 = (self as u128) * (num as u128);
        if div == 0 {
            return Err(ErrorCode::MathZeroDivision);
        }
        let q: u128 = product / (div as u128);
        if q > u64::MAX as u128 {
            Err(ErrorCode::MathOverflowConversion)
        } else {
            Ok(q as u64)
        }
    }
}

} // verus!
