use crate::error::ErrorCode;
use crate::math::u256::{lemma_word_product, pow128, pow256, pow64, U256};
use vstd::prelude::*;

verus! {

/// Addition, subtraction, multiplication and division that report a result
/// out of range, or a division by zero, as an error of their own.
pub trait SafeArithmetics: Sized {
    /// The number that a value stands for.
    spec fn value(&self) -> nat;

    /// One more than the largest number the type holds.
    spec fn limit() -> nat;

    fn safe_add(&self, rhs: Self) -> (r: Result<Self, ErrorCode>)
        ensures
            self.value() + rhs.value() < Self::limit() ==> r is Ok && r->Ok_0.value()
                == self.value() + rhs.value(),
            self.value() + rhs.value() >= Self::limit() ==> r == Err::<Self, ErrorCode>(
                ErrorCode::MathOverflowAdd,
            ),
    ;

    fn safe_sub(&self, rhs: Self) -> (r: Result<Self, ErrorCode>)
        ensures
            self.value() >= rhs.value() ==> r is Ok && r->Ok_0.value() == self.value()
                - rhs.value(),
            self.value() < rhs.value() ==> r == Err::<Self, ErrorCode>(
                ErrorCode::MathOverflowSub,
            ),
    ;

    fn safe_mul(&self, rhs: Self) -> (r: Result<Self, ErrorCode>)
        ensures
            self.value() * rhs.value() < Self::limit() ==> r is Ok && r->Ok_0.value()
                == self.value() * rhs.value(),
            self.value() * rhs.value() >= Self::limit() ==> r == Err::<Self, ErrorCode>(
                ErrorCode::MathOverflowMul,
            ),
    ;

    fn safe_div(&self, rhs: Self) -> (r: Result<Self, ErrorCode>)
        ensures
            rhs.value() != 0 ==> r is Ok && r->Ok_0.value() == self.value() / rhs.value(),
            rhs.value() == 0 ==> r == Err::<Self, ErrorCode>(ErrorCode::MathZeroDivision),
    ;
}

impl SafeArithmetics for u64 {
    open spec fn value(&self) -> nat {
        *self as nat
    }

    open spec fn limit() -> nat {
        pow64() as nat
    }

    fn safe_add(&self, rhs: u64) -> (r: Result<u64, ErrorCode>)
        ensures
            *self + rhs <= u64::MAX ==> r is Ok && r->Ok_0 == *self + rhs,
            *self + rhs > u64::MAX ==> r == Err::<u64, ErrorCode>(ErrorCode::MathOverflowAdd),
    {
        proof {
            assert(self.value() == *self as nat && rhs.value() == rhs as nat);
            assert(Self::limit() == pow64());
        }
        match self.checked_add(rhs) {
            Some(v) => Ok(v),
            None => Err(ErrorCode::MathOverflowAdd),
        }
    }

    fn safe_sub(&self, rhs: u64) -> (r: Result<u64, ErrorCode>)
        ensures
            *self >= rhs ==> r is Ok && r->Ok_0 == *self - rhs,
            *self < rhs ==> r == Err::<u64, ErrorCode>(ErrorCode::MathOverflowSub),
    {
        proof {
            assert(self.value() == *self as nat && rhs.value() == rhs as nat);
            assert(Self::limit() == pow64());
        }
        match self.checked_sub(rhs) {
            Some(v) => Ok(v),
            None => Err(ErrorCode::MathOverflowSub),
        }
    }

    fn safe_mul(&self, rhs: u64) -> (r: Result<u64, ErrorCode>)
        ensures
            *self * rhs <= u64::MAX ==> r is Ok && r->Ok_0 == *self * rhs,
            *self * rhs > u64::MAX ==> r == Err::<u64, ErrorCode>(ErrorCode::MathOverflowMul),
    {
        proof {
            assert(self.value() == *self as nat && rhs.value() == rhs as nat);
            assert(Self::limit() == pow64());
        }
        match self.checked_mul(rhs) {
            Some(v) => Ok(v),
            None => Err(ErrorCode::MathOverflowMul),
        }
    }

    fn safe_div(&self, rhs: u64) -> (r: Result<u64, ErrorCode>)
        ensures
            rhs != 0 ==> r is Ok && r->Ok_0 == *self / rhs,
            rhs == 0 ==> r == Err::<u64, ErrorCode>(ErrorCode::MathZeroDivision),
    {
        proof {
            assert(self.value() == *self as nat && rhs.value() == rhs as nat);
            assert(Self::limit() == pow64());
        }
        match self.checked_div(rhs) {
            Some(v) => Ok(v),
            None => Err(ErrorCode::MathZeroDivision),
        }
    }
}

impl SafeArithmetics for u128 {
    open spec fn value(&self) -> nat {
        *self as nat
    }

    open spec fn limit() -> nat {
        pow128() as nat
    }

    fn safe_add(&self, rhs: u128) -> (r: Result<u128, ErrorCode>)
        ensures
            *self + rhs <= u128::MAX ==> r is Ok && r->Ok_0 == *self + rhs,
            *self + rhs > u128::MAX ==> r == Err::<u128, ErrorCode>(ErrorCode::MathOverflowAdd),
    {
        proof {
            assert(self.value() == *self as nat && rhs.value() == rhs as nat);
            assert(Self::limit() == pow128());
        }
        match self.checked_add(rhs) {
            Some(v) => Ok(v),
            None => Err(ErrorCode::MathOverflowAdd),
        }
    }

    fn safe_sub(&self, rhs: u128) -> (r: Result<u128, ErrorCode>)
        ensures
            *self >= rhs ==> r is Ok && r->Ok_0 == *self - rhs,
            *self < rhs ==> r == Err::<u128, ErrorCode>(ErrorCode::MathOverflowSub),
    {
        proof {
            assert(self.value() == *self as nat && rhs.value() == rhs as nat);
            assert(Self::limit() == pow128());
        }
        match self.checked_sub(rhs) {
            Some(v) => Ok(v),
            None => Err(ErrorCode::MathOverflowSub),
        }
    }

    fn safe_mul(&self, rhs: u128) -> (r: Result<u128, ErrorCode>)
        ensures
            *self * rhs <= u128::MAX ==> r is Ok && r->Ok_0 == *self * rhs,
            *self * rhs > u128::MAX ==> r == Err::<u128, ErrorCode>(ErrorCode::MathOverflowMul),
    {
        proof {
            assert(self.value() == *self as nat && rhs.value() == rhs as nat);
            assert(Self::limit() == pow128());
        }
        match self.checked_mul(rhs) {
            Some(v) => Ok(v),
            None => Err(ErrorCode::MathOverflowMul),
        }
    }

    fn safe_div(&self, rhs: u128) -> (r: Result<u128, ErrorCode>)
        ensures
            rhs != 0 ==> r is Ok && r->Ok_0 == *self / rhs,
            rhs == 0 ==> r == Err::<u128, ErrorCode>(ErrorCode::MathZeroDivision),
    {
        proof {
            assert(self.value() == *self as nat && rhs.value() == rhs as nat);
            assert(Self::limit() == pow128());
        }
        match self.checked_div(rhs) {
            Some(v) => Ok(v),
            None => Err(ErrorCode::MathZeroDivision),
        }
    }
}

impl SafeArithmetics for U256 {
    open spec fn value(&self) -> nat {
        self@
    }

    open spec fn limit() -> nat {
        pow256() as nat
    }

    fn safe_add(&self, rhs: U256) -> (r: Result<U256, ErrorCode>)
        ensures
            self@ + rhs@ < pow256() ==> r is Ok && r->Ok_0@ == self@ + rhs@,
            self@ + rhs@ >= pow256() ==> r == Err::<U256, ErrorCode>(ErrorCode::MathOverflowAdd),
    {
        proof {
            assert(self.value() == self@ && rhs.value() == rhs@);
            assert(Self::limit() == pow256());
        }
        match self.checked_add(&rhs) {
            Some(v) => Ok(v),
            None => Err(ErrorCode::MathOverflowAdd),
        }
    }

    fn safe_sub(&self, rhs: U256) -> (r: Result<U256, ErrorCode>)
        ensures
            self@ >= rhs@ ==> r is Ok && r->Ok_0@ == self@ - rhs@,
            self@ < rhs@ ==> r == Err::<U256, ErrorCode>(ErrorCode::MathOverflowSub),
    {
        proof {
            assert(self.value() == self@ && rhs.value() == rhs@);
            assert(Self::limit() == pow256());
        }
        match self.checked_sub(&rhs) {
            Some(v) => Ok(v),
            None => Err(ErrorCode::MathOverflowSub),
        }
    }

    fn safe_mul(&self, rhs: U256) -> (r: Result<U256, ErrorCode>)
        ensures
            self@ * rhs@ < pow256() ==> r is Ok && r->Ok_0@ == self@ * rhs@,
            self@ * rhs@ >= pow256() ==> r == Err::<U256, ErrorCode>(ErrorCode::MathOverflowMul),
    {
        proof {
            assert(self.value() == self@ && rhs.value() == rhs@);
            assert(Self::limit() == pow256());
        }
        match self.checked_mul(&rhs) {
            Some(v) => Ok(v),
            None => Err(ErrorCode::MathOverflowMul),
        }
    }

    fn safe_div(&self, rhs: U256) -> (r: Result<U256, ErrorCode>)
        ensures
            rhs@ != 0 ==> r is Ok && r->Ok_0@ == self@ / rhs@,
            rhs@ == 0 ==> r == Err::<U256, ErrorCode>(ErrorCode::MathZeroDivision),
    {
        proof {
            assert(self.value() == self@ && rhs.value() == rhs@);
            assert(Self::limit() == pow256());
        }
        match self.checked_div(&rhs) {
            Some(v) => Ok(v),
            None => Err(ErrorCode::MathZeroDivision),
        }
    }
}

/// What multiplying `a` by `b` and dividing by `d` gives in a type that holds
/// the numbers below `limit`: the quotient rounded down, or rounded up where
/// `round_up` is set, with the product taken in twice the type's width.
pub open spec fn mul_div_outcome(a: nat, b: nat, d: nat, round_up: bool, limit: nat) -> Result<
    nat,
    ErrorCode,
> {
    if round_up && a * b + d == 0 {
        Err(ErrorCode::MathOverflowSub)
    } else if d == 0 {
        Err(ErrorCode::MathZeroDivision)
    } else {
        let q = if round_up {
            ((a * b + d - 1) / (d as int)) as nat
        } else {
            (a * b) / d
        };
        if q >= limit {
            Err(ErrorCode::MathOverflowConversion)
        } else {
            Ok(q)
        }
    }
}

/// What `a * b / d` gives on `u64`, with a 128-bit product.
pub open spec fn mul_div_u64(a: u64, b: u64, d: u64, round_up: bool) -> Result<u64, ErrorCode> {
    match mul_div_outcome(a as nat, b as nat, d as nat, round_up, pow64() as nat) {
        Ok(q) => Ok(q as u64),
        Err(e) => Err(e),
    }
}

/// What `a * b / d` gives on `u128`, with a 256-bit product.
pub open spec fn mul_div_u128(a: u128, b: u128, d: u128, round_up: bool) -> Result<
    u128,
    ErrorCode,
> {
    match mul_div_outcome(a as nat, b as nat, d as nat, round_up, pow128() as nat) {
        Ok(q) => Ok(q as u128),
        Err(e) => Err(e),
    }
}

/// Multiply, then divide, with the product held in twice the width.
pub trait SafeMulDiv: Sized {
    /// The number that a value stands for.
    spec fn number(&self) -> nat;

    /// One more than the largest number the type holds.
    spec fn bound() -> nat;

    /// `self * mul / div`, rounded down.
    fn safe_mul_div(&self, mul: Self, div: Self) -> (r: Result<Self, ErrorCode>)
        ensures
            match r {
                Ok(v) => mul_div_outcome(
                    self.number(),
                    mul.number(),
                    div.number(),
                    false,
                    Self::bound(),
                ) == Ok::<nat, ErrorCode>(v.number()),
                Err(e) => mul_div_outcome(
                    self.number(),
                    mul.number(),
                    div.number(),
                    false,
                    Self::bound(),
                ) == Err::<nat, ErrorCode>(e),
            },
    {
        self.safe_mul_div_is_round(mul, div, false)
    }

    /// `self * mul / div`, rounded up.
    fn safe_mul_div_round_up(&self, mul: Self, div: Self) -> (r: Result<Self, ErrorCode>)
        ensures
            match r {
                Ok(v) => mul_div_outcome(
                    self.number(),
                    mul.number(),
                    div.number(),
                    true,
                    Self::bound(),
                ) == Ok::<nat, ErrorCode>(v.number()),
                Err(e) => mul_div_outcome(
                    self.number(),
                    mul.number(),
                    div.number(),
                    true,
                    Self::bound(),
                ) == Err::<nat, ErrorCode>(e),
            },
    {
        self.safe_mul_div_is_round(mul, div, true)
    }

    /// `self * mul / div`, rounded up where `is_round` is set.
    fn safe_mul_div_is_round(&self, mul: Self, div: Self, is_round: bool) -> (r: Result<
        Self,
        ErrorCode,
    >)
        ensures
            match r {
                Ok(v) => mul_div_outcome(
                    self.number(),
                    mul.number(),
                    div.number(),
                    is_round,
                    Self::bound(),
                ) == Ok::<nat, ErrorCode>(v.number()),
                Err(e) => mul_div_outcome(
                    self.number(),
                    mul.number(),
                    div.number(),
                    is_round,
                    Self::bound(),
                ) == Err::<nat, ErrorCode>(e),
            },
    ;
}

/// The product of two 128-bit numbers leaves room for one more below 2^256.
pub proof fn lemma_half_product(a: int, b: int)
    by (nonlinear_arith)
    requires
        0 <= a < 0x1_0000_0000_0000_0000_0000_0000_0000_0000int,
        0 <= b < 0x1_0000_0000_0000_0000_0000_0000_0000_0000int,
    ensures
        0 <= a * b
            <= 0xffff_ffff_ffff_ffff_ffff_ffff_ffff_fffe_0000_0000_0000_0000_0000_0000_0000_0001int,
{
}

impl SafeMulDiv for u64 {
    open spec fn number(&self) -> nat {
        *self as nat
    }

    open spec fn bound() -> nat {
        pow64() as nat
    }

    fn safe_mul_div(&self, mul: u64, div: u64) -> (r: Result<u64, ErrorCode>)
        ensures
            r == mul_div_u64(*self, mul, div, false),
    {
        self.safe_mul_div_is_round(mul, div, false)
    }

    fn safe_mul_div_round_up(&self, mul: u64, div: u64) -> (r: Result<u64, ErrorCode>)
        ensures
            r == mul_div_u64(*self, mul, div, true),
    {
        self.safe_mul_div_is_round(mul, div, true)
    }

    fn safe_mul_div_is_round(&self, mul: u64, div: u64, is_round: bool) -> (r: Result<
        u64,
        ErrorCode,
    >)
        ensures
            r == mul_div_u64(*self, mul, div, is_round),
    {
        proof {
            lemma_word_product(*self as int, mul as int);
        }
        let mut num: u128 = (*self as u128).safe_mul(mul as u128)?;
        let div_aux: u128 = div as u128;
        if is_round {
            num = num.safe_add(div_aux)?.safe_sub(1)?;
        }
        let q: u128 = num.safe_div(div_aux)?;
        if q > u64::MAX as u128 {
            Err(ErrorCode::MathOverflowConversion)
        } else {
            Ok(q as u64)
        }
    }
}

impl SafeMulDiv for u128 {
    open spec fn number(&self) -> nat {
        *self as nat
    }

    open spec fn bound() -> nat {
        pow128() as nat
    }

    fn safe_mul_div(&self, mul: u128, div: u128) -> (r: Result<u128, ErrorCode>)
        ensures
            r == mul_div_u128(*self, mul, div, false),
    {
        self.safe_mul_div_is_round(mul, div, false)
    }

    fn safe_mul_div_round_up(&self, mul: u128, div: u128) -> (r: Result<u128, ErrorCode>)
        ensures
            r == mul_div_u128(*self, mul, div, true),
    {
        self.safe_mul_div_is_round(mul, div, true)
    }

    fn safe_mul_div_is_round(&self, mul: u128, div: u128, is_round: bool) -> (r: Result<
        u128,
        ErrorCode,
    >)
        ensures
            r == mul_div_u128(*self, mul, div, is_round),
    {
        proof {
            lemma_half_product(*self as int, mul as int);
        }
        let mut num: U256 = U256::from_u128(*self).safe_mul(U256::from_u128(mul))?;
        let div_aux: U256 = U256::from_u128(div);
        if is_round {
            num = num.safe_add(div_aux)?.safe_sub(U256::one())?;
        }
        match num.safe_div(div_aux)?.try_into_u128() {
            Some(q) => Ok(q),
            None => Err(ErrorCode::MathOverflowConversion),
        }
    }
}

} // verus!
