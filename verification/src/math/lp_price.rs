use crate::error::ErrorCode;
use crate::math::mul_div::MulDiv;
use crate::math::u256::lemma_word_product;
use std::cmp::Ordering;
use vstd::prelude::*;
use vstd::std_specs::cmp::{PartialEqSpecImpl, PartialOrdSpecImpl};

verus! {

/// The price of a strategy token: `total_tokens` of the input token are
/// shared out over `minted_tokens` strategy tokens. Two prices are compared
/// as the fractions `total_tokens / minted_tokens`, by cross-multiplication.
#[derive(Copy, Clone, Debug)]
pub struct LpPrice {
    /// Total amount of tokens to be distributed
    pub total_tokens: u64,
    /// Supply of strategy tokens
    pub minted_tokens: u64,
}

impl Default for LpPrice {
    fn default() -> (r: LpPrice)
        ensures
            r.total_tokens == 0,
            r.minted_tokens == 0,
    {
        LpPrice { total_tokens: 0, minted_tokens: 0 }
    }
}

impl LpPrice {
    /// The bytes a price takes when stored.
    pub const SIZE: usize = 16;

    /// `self.total_tokens * other.minted_tokens`.
    pub open spec fn cross_left(&self, other: &LpPrice) -> int {
        self.total_tokens * other.minted_tokens
    }

    /// `other.total_tokens * self.minted_tokens`.
    pub open spec fn cross_right(&self, other: &LpPrice) -> int {
        other.total_tokens * self.minted_tokens
    }

    /// Both cross products, which decide how two prices compare.
    pub fn cross_products(&self, other: &LpPrice) -> (r: (u128, u128))
        ensures
            r.0 == self.cross_left(other),
            r.1 == self.cross_right(other),
    {
        proof {
            lemma_word_product(self.total_tokens as int, other.minted_tokens as int);
            lemma_word_product(other.total_tokens as int, self.minted_tokens as int);
        }
        let lhs: u128 = (self.total_tokens as u128) * (other.minted_tokens as u128);
        let rhs: u128 = (other.total_tokens as u128) * (self.minted_tokens as u128);
        (lhs, rhs)
    }

    /// Transform input token amount to LP amount
    pub fn token_to_lp(&self, amount: u64) -> (r: Result<u64, ErrorCode>)
        ensures
            self.minted_tokens == 0 ==> r == Ok::<u64, ErrorCode>(amount),
            self.minted_tokens != 0 ==> r == amount.mul_div_spec(
                self.minted_tokens,
                self.total_tokens,
            ),
    {
        if self.minted_tokens == 0 {
            Ok(amount)
        } else {
            amount.mul_div(self.minted_tokens, self.total_tokens)
        }
    }

    /// Transform LP amount to input token amount
    pub fn lp_to_token(&self, lp_amount: u64) -> (r: Result<u64, ErrorCode>)
        ensures
            self.minted_tokens == 0 ==> r == Ok::<u64, ErrorCode>(lp_amount),
            self.minted_tokens != 0 ==> r == lp_amount.mul_div_spec(
                self.total_tokens,
                self.minted_tokens,
            ),
    {
        if self.minted_tokens == 0 {
            Ok(lp_amount)
        } else {
            lp_amount.mul_div(self.total_tokens, self.minted_tokens)
        }
    }
}

impl PartialEq for LpPrice {
    fn eq(&self, other: &LpPrice) -> (r: bool) {
        let (lhs, rhs) = self.cross_products(other);
        lhs == rhs
    }
}

impl PartialEqSpecImpl for LpPrice {
    open spec fn obeys_eq_spec() -> bool {
        true
    }

    open spec fn eq_spec(&self, other: &LpPrice) -> bool {
        self.cross_left(other) == self.cross_right(other)
    }
}

impl PartialOrd for LpPrice {
    fn partial_cmp(&self, other: &LpPrice) -> (r: Option<Ordering>) {
        let (lhs, rhs) = self.cross_products(other);
        if lhs < rhs {
            Some(Ordering::Less)
        } else if lhs == rhs {
            Some(Ordering::Equal)
        } else {
            Some(Ordering::Greater)
        }
    }
}

impl PartialOrdSpecImpl for LpPrice {
    open spec fn obeys_partial_cmp_spec() -> bool {
        true
    }

    open spec fn partial_cmp_spec(&self, other: &LpPrice) -> Option<Ordering> {
        if self.cross_left(other) < self.cross_right(other) {
            Some(Ordering::Less)
        } else if self.cross_left(other) == self.cross_right(other) {
            Some(Ordering::Equal)
        } else {
            Some(Ordering::Greater)
        }
    }
}

} // verus!
