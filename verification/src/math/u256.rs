use vstd::arithmetic::div_mod::lemma_fundamental_div_mod_converse;
use vstd::arithmetic::power2::{lemma2_to64, lemma_pow2_adds, lemma_pow2_pos, lemma_pow2_unfold, pow2};
use vstd::prelude::*;

verus! {

/// 2^64, the weight of one Q64.64 unit.
pub open spec fn pow64() -> int {
    0x1_0000_0000_0000_0000
}

/// 2^128.
pub open spec fn pow128() -> int {
    0x1_0000_0000_0000_0000_0000_0000_0000_0000int
}

/// 2^192.
pub open spec fn pow192() -> int {
    0x1_0000_0000_0000_0000_0000_0000_0000_0000_0000_0000_0000_0000int
}

/// 2^256, one more than the largest value a `U256` holds.
pub open spec fn pow256() -> int {
    0x1_0000_0000_0000_0000_0000_0000_0000_0000_0000_0000_0000_0000_0000_0000_0000_0000int
}

/// 2^255, the weight of the top bit.
pub open spec fn pow255() -> int {
    0x8000_0000_0000_0000_0000_0000_0000_0000_0000_0000_0000_0000_0000_0000_0000_0000int
}

/// 2^64 as a number to compute with: one in Q64.64.
pub const WORD: u128 = 0x1_0000_0000_0000_0000;

/// 2^127, the weight of the top bit of one half.
pub const HALF_RANGE: u128 = 0x8000_0000_0000_0000_0000_0000_0000_0000;

/// An unsigned 256-bit integer, held as two 128-bit halves. Its view is the
/// number it stands for, `hi * 2^128 + lo`.
#[derive(Clone, Copy, Debug, PartialEq, Eq, Structural)]
pub struct U256 {
    pub hi: u128,
    pub lo: u128,
}

impl View for U256 {
    type V = nat;

    open spec fn view(&self) -> nat {
        (self.hi as nat) * (pow128() as nat) + (self.lo as nat)
    }
}

/// The product of two 64-bit words fits in 128 bits.
pub proof fn lemma_word_product(a: int, b: int)
    by (nonlinear_arith)
    requires
        0 <= a < 0x1_0000_0000_0000_0000,
        0 <= b < 0x1_0000_0000_0000_0000,
    ensures
        0 <= a * b <= 0xffff_ffff_ffff_fffe_0000_0000_0000_0001,
{
}

/// The product of two sums, term by term.
proof fn lemma_binomial(x: int, a: int, y: int, b: int)
    by (nonlinear_arith)
    ensures
        (x + a) * (y + b) == x * y + x * b + a * y + a * b,
{
}

/// A factor moved across a product.
proof fn lemma_regroup(a: int, w: int, b: int)
    by (nonlinear_arith)
    ensures
        (a * w) * b == (a * b) * w,
        a * (b * w) == (a * b) * w,
{
}

/// A product of two multiples of `w` is a multiple of `w * w`.
proof fn lemma_regroup_square(a: int, b: int, w: int)
    ensures
        (a * w) * (b * w) == (a * b) * (w * w),
{
    lemma_regroup(a, w, b * w);
    lemma_regroup(a, b, w);
    assert((a * w) * (b * w) == (a * (b * w)) * w);
    assert(a * (b * w) == (a * b) * w);
    vstd::arithmetic::mul::lemma_mul_is_associative(a * b, w, w);
}

/// The schoolbook expansion of a product of two two-word numbers.
pub proof fn lemma_cross_product(a1: int, a0: int, b1: int, b0: int, w: int)
    ensures
        (a1 * w + a0) * (b1 * w + b0) == (a1 * b1) * (w * w) + (a0 * b1) * w + (a1 * b0) * w + a0
            * b0,
{
    lemma_binomial(a1 * w, a0, b1 * w, b0);
    lemma_regroup_square(a1, b1, w);
    lemma_regroup(a1, w, b0);
    lemma_regroup(a0, w, b1);
}

/// Adding up the four partial products with their carries gives the two halves.
proof fn lemma_carry_chain(
    p11: int,
    p01: int,
    p10: int,
    p00: int,
    c0: int,
    c1: int,
    c2: int,
    r0: int,
    r1: int,
    r2: int,
    hi: int,
    lo: int,
)
    requires
        hi == p11 + c1 + c2,
        p00 == c0 * 0x1_0000_0000_0000_0000 + r0,
        p01 + c0 == c1 * 0x1_0000_0000_0000_0000 + r1,
        p10 + r1 == c2 * 0x1_0000_0000_0000_0000 + r2,
        lo == r2 * 0x1_0000_0000_0000_0000 + r0,
    ensures
        hi * pow128() + lo == p11 * pow128() + p01 * pow64() + p10 * pow64() + p00,
{
}

/// The full product of two 128-bit integers.
pub fn mul_wide(a: u128, b: u128) -> (r: U256)
    ensures
        r@ == a * b,
{
    let a1: u128 = a / WORD;
    let a0: u128 = a % WORD;
    let b1: u128 = b / WORD;
    let b0: u128 = b % WORD;
    proof {
        lemma_word_product(a0 as int, b0 as int);
        lemma_word_product(a0 as int, b1 as int);
        lemma_word_product(a1 as int, b0 as int);
        lemma_word_product(a1 as int, b1 as int);
        lemma_cross_product(a1 as int, a0 as int, b1 as int, b0 as int, pow64());
        assert(pow64() * pow64() == pow128());
    }
    let p00: u128 = a0 * b0;
    let p01: u128 = a0 * b1;
    let p10: u128 = a1 * b0;
    let p11: u128 = a1 * b1;
    let mid: u128 = p01 + p00 / WORD;
    let mid2: u128 = p10 + mid % WORD;
    let lo: u128 = (mid2 % WORD) * WORD + p00 % WORD;
    let hi: u128 = p11 + mid / WORD + mid2 / WORD;
    proof {
        assert(a * b == (a1 * pow64() + a0) * (b1 * pow64() + b0)) by {
            assert(a == a1 * pow64() + a0);
            assert(b == b1 * pow64() + b0);
        }
        assert((a1 * b1) * (pow64() * pow64()) == p11 * pow128());
        lemma_carry_chain(
            p11 as int,
            p01 as int,
            p10 as int,
            p00 as int,
            p00 as int / 0x1_0000_0000_0000_0000,
            mid as int / 0x1_0000_0000_0000_0000,
            mid2 as int / 0x1_0000_0000_0000_0000,
            p00 as int % 0x1_0000_0000_0000_0000,
            mid as int % 0x1_0000_0000_0000_0000,
            mid2 as int % 0x1_0000_0000_0000_0000,
            hi as int,
            lo as int,
        );
    }
    U256 { hi, lo }
}

/// A two-half number times a one-half number, half by half.
proof fn lemma_mul_by_half(xh: int, xl: int, y: int, w: int)
    by (nonlinear_arith)
    ensures
        (xh * w + xl) * y == (xh * y) * w + xl * y,
        y * (xh * w + xl) == (xh * y) * w + xl * y,
{
}

/// Two numbers of at least `w` have a product of at least `w * w`.
proof fn lemma_mul_both_large(a: int, b: int, w: int)
    by (nonlinear_arith)
    requires
        0 <= w <= a,
        0 <= w <= b,
    ensures
        a * b >= w * w,
{
}

/// A high half that overflows makes the whole product overflow.
proof fn lemma_high_half_overflow(t: int, rest: int, w: int)
    by (nonlinear_arith)
    requires
        t >= w,
        w >= 0,
        rest >= 0,
    ensures
        t * w + rest >= w * w,
{
}

impl U256 {
    /// Zero.
    pub fn zero() -> (r: U256)
        ensures
            r@ == 0,
    {
        U256 { hi: 0, lo: 0 }
    }

    /// One.
    pub fn one() -> (r: U256)
        ensures
            r@ == 1,
    {
        U256 { hi: 0, lo: 1 }
    }

    /// The 256-bit integer with the value of `x`.
    pub fn from_u64(x: u64) -> (r: U256)
        ensures
            r@ == x,
    {
        U256 { hi: 0, lo: x as u128 }
    }

    /// The 256-bit integer with the value of `x`.
    pub fn from_u128(x: u128) -> (r: U256)
        ensures
            r@ == x,
    {
        U256 { hi: 0, lo: x }
    }

    /// The value is below 2^256.
    pub proof fn lemma_view_bounds(self)
        ensures
            self@ < pow256(),
            self@ == self.hi * pow128() + self.lo,
    {
        assert(self.hi * pow128() <= (pow128() - 1) * pow128()) by (nonlinear_arith)
            requires
                self.hi <= pow128() - 1,
        ;
    }

    /// Whether the value is zero.
    pub fn is_zero(&self) -> (b: bool)
        ensures
            b == (self@ == 0),
    {
        proof {
            self.lemma_view_bounds();
            if self.hi > 0 {
                assert(self.hi * pow128() >= pow128()) by (nonlinear_arith)
                    requires
                        self.hi >= 1,
                ;
            }
        }
        self.hi == 0 && self.lo == 0
    }

    /// Whether the value is less than that of `other`.
    pub fn lt(&self, other: &U256) -> (b: bool)
        ensures
            b == (self@ < other@),
    {
        proof {
            if self.hi < other.hi {
                assert(self.hi * pow128() + pow128() <= other.hi * pow128()) by (nonlinear_arith)
                    requires
                        self.hi + 1 <= other.hi,
                ;
            } else if other.hi < self.hi {
                assert(other.hi * pow128() + pow128() <= self.hi * pow128()) by (nonlinear_arith)
                    requires
                        other.hi + 1 <= self.hi,
                ;
            }
        }
        self.hi < other.hi || (self.hi == other.hi && self.lo < other.lo)
    }

    /// Whether the value is at most that of `other`.
    pub fn le(&self, other: &U256) -> (b: bool)
        ensures
            b == (self@ <= other@),
    {
        !other.lt(self)
    }

    /// The sum, or `None` where it does not fit in 256 bits.
    pub fn checked_add(&self, rhs: &U256) -> (r: Option<U256>)
        ensures
            self@ + rhs@ < pow256() ==> r.is_some() && r.unwrap()@ == self@ + rhs@,
            self@ + rhs@ >= pow256() ==> r.is_none(),
    {
        proof {
            self.lemma_view_bounds();
            rhs.lemma_view_bounds();
        }
        let fits: bool = self.lo <= u128::MAX - rhs.lo;
        let lo: u128 = if fits {
            self.lo + rhs.lo
        } else {
            self.lo - (u128::MAX - rhs.lo) - 1
        };
        let carry: u128 = if fits {
            0
        } else {
            1
        };
        assert(self.lo + rhs.lo == carry * pow128() + lo);
        assert(self@ + rhs@ == (self.hi + rhs.hi + carry) * pow128() + lo) by {
            lemma_sum_halves(
                self.hi as int,
                self.lo as int,
                rhs.hi as int,
                rhs.lo as int,
                carry as int,
                lo as int,
            );
        }
        if self.hi > u128::MAX - rhs.hi {
            proof {
                lemma_high_half_overflow(self.hi + rhs.hi + carry, lo as int, pow128());
            }
            return None;
        }
        let h: u128 = self.hi + rhs.hi;
        if h > u128::MAX - carry {
            proof {
                lemma_high_half_overflow(self.hi + rhs.hi + carry, lo as int, pow128());
            }
            return None;
        }
        let r = U256 { hi: h + carry, lo };
        proof {
            r.lemma_view_bounds();
        }
        Some(r)
    }

    /// The difference, or `None` where `rhs` is the larger.
    pub fn checked_sub(&self, rhs: &U256) -> (r: Option<U256>)
        ensures
            self@ >= rhs@ ==> r.is_some() && r.unwrap()@ == self@ - rhs@,
            self@ < rhs@ ==> r.is_none(),
    {
        if self.lt(rhs) {
            return None;
        }
        proof {
            self.lemma_view_bounds();
            rhs.lemma_view_bounds();
            if self.hi < rhs.hi {
                assert(self.hi * pow128() + pow128() <= rhs.hi * pow128()) by (nonlinear_arith)
                    requires
                        self.hi + 1 <= rhs.hi,
                ;
            }
        }
        let borrow: u128 = if self.lo < rhs.lo {
            1
        } else {
            0
        };
        let lo: u128 = if self.lo < rhs.lo {
            u128::MAX - rhs.lo + self.lo + 1
        } else {
            self.lo - rhs.lo
        };
        let hi: u128 = self.hi - rhs.hi - borrow;
        let r = U256 { hi, lo };
        proof {
            lemma_difference_halves(
                self.hi as int,
                self.lo as int,
                rhs.hi as int,
                rhs.lo as int,
                borrow as int,
                lo as int,
            );
        }
        Some(r)
    }

    /// The product, or `None` where it does not fit in 256 bits.
    pub fn checked_mul(&self, rhs: &U256) -> (r: Option<U256>)
        ensures
            self@ * rhs@ < pow256() ==> r.is_some() && r.unwrap()@ == self@ * rhs@,
            self@ * rhs@ >= pow256() ==> r.is_none(),
    {
        proof {
            self.lemma_view_bounds();
            rhs.lemma_view_bounds();
        }
        if self.hi != 0 && rhs.hi != 0 {
            proof {
                assert(self.hi * pow128() >= pow128()) by (nonlinear_arith)
                    requires
                        self.hi >= 1,
                ;
                assert(rhs.hi * pow128() >= pow128()) by (nonlinear_arith)
                    requires
                        rhs.hi >= 1,
                ;
                lemma_mul_both_large(self@ as int, rhs@ as int, pow128());
            }
            return None;
        }
        let x: U256 = if self.hi == 0 {
            *rhs
        } else {
            *self
        };
        let y: u128 = if self.hi == 0 {
            self.lo
        } else {
            rhs.lo
        };
        let low = mul_wide(x.lo, y);
        proof {
            low.lemma_view_bounds();
            lemma_mul_by_half(x.hi as int, x.lo as int, y as int, pow128());
            assert(self@ * rhs@ == (x.hi * y) * pow128() + x.lo * y);
        }
        match x.hi.checked_mul(y) {
            None => {
                proof {
                    lemma_high_half_overflow(x.hi * y, x.lo * y, pow128());
                }
                None
            },
            Some(t) => {
                proof {
                    lemma_sum_halves(t as int, 0, low.hi as int, low.lo as int, 0, low.lo as int);
                }
                if t > u128::MAX - low.hi {
                    proof {
                        lemma_high_half_overflow(t + low.hi, low.lo as int, pow128());
                    }
                    None
                } else {
                    let r = U256 { hi: t + low.hi, lo: low.lo };
                    proof {
                        r.lemma_view_bounds();
                    }
                    Some(r)
                }
            },
        }
    }
}

/// Adding two two-half numbers half by half.
proof fn lemma_sum_halves(ah: int, al: int, bh: int, bl: int, carry: int, lo: int)
    requires
        al + bl == carry * pow128() + lo,
    ensures
        (ah * pow128() + al) + (bh * pow128() + bl) == (ah + bh + carry) * pow128() + lo,
{
    assert((ah + bh + carry) * pow128() == ah * pow128() + bh * pow128() + carry * pow128())
        by (nonlinear_arith);
}

/// Subtracting two two-half numbers half by half.
proof fn lemma_difference_halves(ah: int, al: int, bh: int, bl: int, borrow: int, lo: int)
    requires
        al - bl == lo - borrow * pow128(),
    ensures
        (ah * pow128() + al) - (bh * pow128() + bl) == (ah - bh - borrow) * pow128() + lo,
{
    assert((ah - bh - borrow) * pow128() == ah * pow128() - bh * pow128() - borrow * pow128())
        by (nonlinear_arith);
}

/// The power of two of the library's arithmetic lemmas, at 256 and at 0.
proof fn lemma_pow2_256()
    ensures
        pow2(256) == pow256(),
        pow2(0) == 1,
{
    lemma2_to64();
    lemma_pow2_adds(64, 64);
    lemma_pow2_adds(128, 128);
    assert(pow2(64) * pow2(64) == pow128()) by (nonlinear_arith)
        requires
            pow2(64) == 0x1_0000_0000_0000_0000,
    ;
    assert(pow2(128) * pow2(128) == pow256()) by (nonlinear_arith)
        requires
            pow2(128) == pow128(),
    ;
}

/// One step of reading a number bit by bit from the top. `cur` holds the
/// bits not yet read, moved up to the top of the 256-bit range.
proof fn lemma_read_bit(n: int, nh: int, low: int, w: int, cur: int, bit: int)
    requires
        w > 0,
        n == nh * (2 * w) + low,
        0 <= low < 2 * w,
        cur * (2 * w) == low * pow256(),
        0 <= cur < pow256(),
        bit == (if cur >= pow255() {
            1int
        } else {
            0int
        }),
    ensures
        n == (2 * nh + bit) * w + (low - bit * w),
        0 <= low - bit * w < w,
        (2 * cur - bit * pow256()) * w == (low - bit * w) * pow256(),
{
    let p = pow256();
    let cw = cur * w;
    assert(cur * (2 * w) == 2 * cw) by (nonlinear_arith)
        requires
            cw == cur * w,
    ;
    assert(nh * (2 * w) == (2 * nh) * w) by (nonlinear_arith);
    assert((2 * nh + bit) * w == (2 * nh) * w + bit * w) by (nonlinear_arith);
    assert((2 * cur - bit * p) * w == 2 * cw - (bit * w) * p) by (nonlinear_arith)
        requires
            cw == cur * w,
    ;
    assert((low - bit * w) * p == low * p - (bit * w) * p) by (nonlinear_arith);
    if bit == 1 {
        assert(2 * cw >= w * p) by (nonlinear_arith)
            requires
                cw == cur * w,
                2 * cur >= p,
                w > 0,
        ;
        assert(low >= w) by (nonlinear_arith)
            requires
                low * p >= w * p,
                p > 0,
        ;
    } else {
        assert(2 * cw < w * p) by (nonlinear_arith)
            requires
                cw == cur * w,
                2 * cur < p,
                w > 0,
        ;
        assert(low < w) by (nonlinear_arith)
            requires
                low * p < w * p,
                p > 0,
        ;
    }
}

/// One step of long division in base two.
proof fn lemma_divide_bit(nh: int, q: int, d: int, rem: int, bit: int)
    by (nonlinear_arith)
    requires
        nh == q * d + rem,
        0 <= rem < d,
        0 <= bit <= 1,
    ensures
        2 * rem + bit >= d ==> 2 * nh + bit == (2 * q + 1) * d + (2 * rem + bit - d),
        2 * rem + bit < d ==> 2 * nh + bit == (2 * q) * d + (2 * rem + bit),
{
}

/// A quotient is never larger than what it was divided out of.
proof fn lemma_quotient_bound(nh: int, q: int, d: int, rem: int)
    by (nonlinear_arith)
    requires
        nh == q * d + rem,
        0 <= rem,
        d >= 1,
        q >= 0,
    ensures
        q <= nh,
{
}

/// The high part of a number is never larger than the number.
proof fn lemma_high_part_bound(n: int, nh: int, w: int, low: int)
    by (nonlinear_arith)
    requires
        n == nh * w + low,
        w >= 1,
        low >= 0,
        nh >= 0,
    ensures
        nh <= n,
{
}

impl U256 {
    /// Twice the value, without the bit that leaves the 256-bit range.
    fn double_wrapping(&self) -> (r: U256)
        ensures
            self@ >= pow255() ==> r@ == 2 * self@ - pow256(),
            self@ < pow255() ==> r@ == 2 * self@,
            (self.hi >= HALF_RANGE) == (self@ >= pow255()),
    {
        let th: u128 = self.hi / HALF_RANGE;
        let hr: u128 = self.hi % HALF_RANGE;
        let tl: u128 = self.lo / HALF_RANGE;
        let lr: u128 = self.lo % HALF_RANGE;
        let r = U256 { hi: hr * 2 + tl, lo: lr * 2 };
        proof {
            lemma_double_halves(
                self.hi as int,
                self.lo as int,
                th as int,
                hr as int,
                tl as int,
                lr as int,
            );
        }
        r
    }

    /// The quotient rounded down, or `None` where `rhs` is zero.
    pub fn checked_div(&self, rhs: &U256) -> (r: Option<U256>)
        ensures
            rhs@ == 0 ==> r.is_none(),
            rhs@ != 0 ==> r.is_some() && r.unwrap()@ == self@ / rhs@,
    {
        if rhs.is_zero() {
            return None;
        }
        let mut q = U256::zero();
        let mut rem = U256::zero();
        let mut cur = *self;
        let mut i: u32 = 256;
        let ghost mut nh: int = 0;
        let ghost mut low: int = self@ as int;
        proof {
            lemma_pow2_256();
            self.lemma_view_bounds();
            assert(0 * pow2(256) == 0) by (nonlinear_arith);
        }
        while i > 0
            invariant
                i <= 256,
                rhs@ > 0,
                self@ == nh * pow2(i as nat) + low,
                0 <= low < pow2(i as nat),
                cur@ * pow2(i as nat) == low * pow256(),
                nh == q@ * rhs@ + rem@,
                rem@ < rhs@,
                nh >= 0,
            decreases i,
        {
            let next = cur.double_wrapping();
            let top: bool = cur.hi >= HALF_RANGE;
            let ghost bit: int = if top {
                1
            } else {
                0
            };
            proof {
                cur.lemma_view_bounds();
                self.lemma_view_bounds();
                rhs.lemma_view_bounds();
                rem.lemma_view_bounds();
                q.lemma_view_bounds();
                lemma_pow2_unfold(i as nat);
                lemma_pow2_pos((i - 1) as nat);
                let w = pow2((i - 1) as nat) as int;
                lemma_read_bit(self@ as int, nh, low, w, cur@ as int, bit);
                lemma_divide_bit(nh, q@ as int, rhs@ as int, rem@ as int, bit);
                lemma_high_part_bound(self@ as int, 2 * nh + bit, w, low - bit * w);
            }
            let rem1 = if top {
                rem.checked_add(&U256::one()).unwrap()
            } else {
                rem
            };
            let gap = rhs.checked_sub(&rem).unwrap();
            let q2 = q.checked_add(&q);
            proof {
                if 2 * rem@ + bit >= rhs@ {
                    lemma_quotient_bound(
                        2 * nh + bit,
                        2 * (q@ as int) + 1,
                        rhs@ as int,
                        2 * rem@ + bit - rhs@,
                    );
                } else {
                    lemma_quotient_bound(
                        2 * nh + bit,
                        2 * (q@ as int),
                        rhs@ as int,
                        2 * rem@ + bit,
                    );
                }
            }
            if rem1.lt(&gap) {
                rem = rem.checked_add(&rem1).unwrap();
                q = q2.unwrap();
            } else {
                rem = rem1.checked_sub(&gap).unwrap();
                q = q2.unwrap().checked_add(&U256::one()).unwrap();
            }
            cur = next;
            i = i - 1;
            proof {
                low = low - bit * (pow2(i as nat) as int);
                nh = 2 * nh + bit;
            }
        }
        proof {
            lemma_pow2_256();
            assert(nh * 1 == nh) by (nonlinear_arith);
            lemma_fundamental_div_mod_converse(self@ as int, rhs@ as int, q@ as int, rem@ as int);
        }
        Some(q)
    }
}

/// Doubling a two-half number, half by half.
proof fn lemma_double_halves(hi: int, lo: int, th: int, hr: int, tl: int, lr: int)
    requires
        hi == th * 0x8000_0000_0000_0000_0000_0000_0000_0000 + hr,
        lo == tl * 0x8000_0000_0000_0000_0000_0000_0000_0000 + lr,
        0 <= th <= 1,
        0 <= tl <= 1,
        0 <= hr < 0x8000_0000_0000_0000_0000_0000_0000_0000,
        0 <= lr < 0x8000_0000_0000_0000_0000_0000_0000_0000,
    ensures
        (hr * 2 + tl) * pow128() + lr * 2 == 2 * (hi * pow128() + lo) - th * pow256(),
        (th == 1) == (hi * pow128() + lo >= pow255()),
{
    assert((hr * 2 + tl) * pow128() == hr * 2 * pow128() + tl * pow128()) by (nonlinear_arith);
    assert(hi * pow128() == th * pow255() + hr * pow128()) by (nonlinear_arith)
        requires
            hi == th * 0x8000_0000_0000_0000_0000_0000_0000_0000 + hr,
            0x8000_0000_0000_0000_0000_0000_0000_0000 * pow128() == pow255(),
    ;
    assert(hr * pow128() <= 0x7fff_ffff_ffff_ffff_ffff_ffff_ffff_ffff * pow128())
        by (nonlinear_arith)
        requires
            hr <= 0x7fff_ffff_ffff_ffff_ffff_ffff_ffff_ffff,
    ;
}

/// Moving a two-half number up by one word, word by word.
proof fn lemma_shift_up(hi: int, lo: int, hq: int, hr: int, lq: int, lr: int)
    requires
        hi == hq * 0x1_0000_0000_0000_0000 + hr,
        lo == lq * 0x1_0000_0000_0000_0000 + lr,
        0 <= hq,
        0 <= hr < 0x1_0000_0000_0000_0000,
        0 <= lq < 0x1_0000_0000_0000_0000,
        0 <= lr < 0x1_0000_0000_0000_0000,
    ensures
        (hi * pow128() + lo) * pow64() == hq * pow256() + ((hr * 0x1_0000_0000_0000_0000 + lq)
            * pow128() + lr * 0x1_0000_0000_0000_0000),
        0 <= (hr * 0x1_0000_0000_0000_0000 + lq) * pow128() + lr * 0x1_0000_0000_0000_0000
            < pow256(),
{
    let x = hr * 0x1_0000_0000_0000_0000 + lq;
    assert((hi * pow128() + lo) * pow64() == hi * pow192() + lo * pow64()) by (nonlinear_arith)
        requires
            pow128() * pow64() == pow192(),
    ;
    assert(hi * pow192() == hq * pow256() + hr * pow192()) by (nonlinear_arith)
        requires
            hi == hq * 0x1_0000_0000_0000_0000 + hr,
            0x1_0000_0000_0000_0000 * pow192() == pow256(),
    ;
    assert(x * pow128() == hr * pow192() + lq * pow128()) by (nonlinear_arith)
        requires
            x == hr * 0x1_0000_0000_0000_0000 + lq,
            0x1_0000_0000_0000_0000 * pow128() == pow192(),
    ;
    assert(0 <= x * pow128() <= (pow128() - 1) * pow128()) by (nonlinear_arith)
        requires
            0 <= x <= pow128() - 1,
    ;
}

/// Moving a two-half number down by one word, word by word.
proof fn lemma_shift_down(hi: int, lo: int, hq: int, hr: int, lq: int, lr: int)
    requires
        hi == hq * 0x1_0000_0000_0000_0000 + hr,
        lo == lq * 0x1_0000_0000_0000_0000 + lr,
        0 <= hq,
        0 <= hr < 0x1_0000_0000_0000_0000,
        0 <= lq < 0x1_0000_0000_0000_0000,
        0 <= lr < 0x1_0000_0000_0000_0000,
    ensures
        hi * pow128() + lo == (hq * pow128() + (hr * 0x1_0000_0000_0000_0000 + lq)) * pow64()
            + lr,
{
    let x = hr * 0x1_0000_0000_0000_0000 + lq;
    assert((hq * pow128() + x) * pow64() == hq * pow192() + x * pow64()) by (nonlinear_arith)
        requires
            pow128() * pow64() == pow192(),
    ;
    assert(hi * pow128() == hq * pow192() + hr * pow128()) by (nonlinear_arith)
        requires
            hi == hq * 0x1_0000_0000_0000_0000 + hr,
            0x1_0000_0000_0000_0000 * pow128() == pow192(),
    ;
}

impl U256 {
    /// The value moved up by 64 bits; what leaves the 256-bit range is lost.
    pub fn shl_word(&self) -> (r: U256)
        ensures
            r@ == (self@ * pow64()) % pow256(),
            self@ < pow192() ==> r@ == self@ * pow64(),
    {
        let hq: u128 = self.hi / WORD;
        let hr: u128 = self.hi % WORD;
        let lq: u128 = self.lo / WORD;
        let lr: u128 = self.lo % WORD;
        let r = U256 { hi: hr * WORD + lq, lo: lr * WORD };
        proof {
            lemma_shift_up(
                self.hi as int,
                self.lo as int,
                hq as int,
                hr as int,
                lq as int,
                lr as int,
            );
            lemma_fundamental_div_mod_converse(
                self@ * pow64(),
                pow256(),
                hq as int,
                r@ as int,
            );
            if self@ < pow192() {
                if hq >= 1 {
                    assert(self.hi * pow128() >= pow192()) by (nonlinear_arith)
                        requires
                            self.hi >= 0x1_0000_0000_0000_0000,
                            0x1_0000_0000_0000_0000 * pow128() == pow192(),
                    ;
                }
            }
        }
        r
    }

    /// The value moved down by 64 bits.
    pub fn shr_word(&self) -> (r: U256)
        ensures
            r@ == self@ / (pow64() as nat),
    {
        let hq: u128 = self.hi / WORD;
        let hr: u128 = self.hi % WORD;
        let lq: u128 = self.lo / WORD;
        let lr: u128 = self.lo % WORD;
        let r = U256 { hi: hq, lo: hr * WORD + lq };
        proof {
            lemma_shift_down(
                self.hi as int,
                self.lo as int,
                hq as int,
                hr as int,
                lq as int,
                lr as int,
            );
            lemma_fundamental_div_mod_converse(self@ as int, pow64(), r@ as int, lr as int);
        }
        r
    }

    /// The lowest 64 bits: the fraction of a Q64.64 number.
    pub fn low_word(&self) -> (r: u64)
        ensures
            r == self@ % (pow64() as nat),
    {
        let hq: u128 = self.hi / WORD;
        let hr: u128 = self.hi % WORD;
        let lq: u128 = self.lo / WORD;
        let lr: u128 = self.lo % WORD;
        proof {
            lemma_shift_down(
                self.hi as int,
                self.lo as int,
                hq as int,
                hr as int,
                lq as int,
                lr as int,
            );
            lemma_fundamental_div_mod_converse(
                self@ as int,
                pow64(),
                hq * pow128() + (hr * 0x1_0000_0000_0000_0000 + lq),
                lr as int,
            );
        }
        lr as u64
    }

    /// The value as a `u128`, or `None` where it does not fit.
    pub fn try_into_u128(&self) -> (r: Option<u128>)
        ensures
            self@ < pow128() ==> r == Some(self@ as u128),
            self@ >= pow128() ==> r.is_none(),
    {
        proof {
            if self.hi >= 1 {
                assert(self.hi * pow128() >= pow128()) by (nonlinear_arith)
                    requires
                        self.hi >= 1,
                ;
            }
        }
        if self.hi == 0 {
            Some(self.lo)
        } else {
            None
        }
    }

    /// The value as a `u64`, or `None` where it does not fit.
    pub fn try_into_u64(&self) -> (r: Option<u64>)
        ensures
            self@ < pow64() ==> r == Some(self@ as u64),
            self@ >= pow64() ==> r.is_none(),
    {
        proof {
            if self.hi >= 1 {
                assert(self.hi * pow128() >= pow128()) by (nonlinear_arith)
                    requires
                        self.hi >= 1,
                ;
            }
        }
        if self.hi == 0 && self.lo < WORD {
            Some(self.lo as u64)
        } else {
            None
        }
    }
}

} // verus!
