//! Decimal numbers as market data carries them: a sign, a 96-bit mantissa and a
//! power-of-ten scale, the representation of `rust_decimal::Decimal`.

use vstd::prelude::*;

verus! {

/// The largest mantissa a decimal can hold, `2^96 - 1`.
pub const MAX_MANTISSA: u128 = 79228162514264337593543950335;

/// The largest scale a decimal can hold.
pub const MAX_SCALE: u32 = 28;

/// `10^n`.
pub open spec fn pow10(n: nat) -> nat
    decreases n,
{
    if n == 0 {
        1
    } else {
        10 * pow10((n - 1) as nat)
    }
}

pub proof fn lemma_pow10_positive(n: nat)
    ensures
        pow10(n) >= 1,
    decreases n,
{
    if n > 0 {
        lemma_pow10_positive((n - 1) as nat);
    }
}

pub proof fn lemma_pow10_add(a: nat, b: nat)
    ensures
        pow10(a + b) == pow10(a) * pow10(b),
    decreases a,
{
    if a > 0 {
        lemma_pow10_add((a - 1) as nat, b);
        let x = pow10((a - 1) as nat);
        let y = pow10(b);
        assert(pow10(a + b) == 10 * pow10((a - 1 + b) as nat));
        assert(pow10(a) == 10 * x);
        assert(pow10((a - 1 + b) as nat) == x * y);
        assert(10 * (x * y) == (10 * x) * y) by (nonlinear_arith);
        assert(pow10(a + b) == pow10(a) * y);
    } else {
        assert(pow10(0) == 1);
        assert(pow10(0) * pow10(b) == pow10(b));
    }
}

/// A decimal number `(-1)^negative * mantissa / 10^scale`.
#[derive(Clone, Copy, Debug, PartialEq, Eq, Structural)]
pub struct Dec {
    pub negative: bool,
    pub mantissa: u128,
    pub scale: u32,
}

impl Dec {
    /// Within the range that `rust_decimal::Decimal` represents.
    pub open spec fn wf(&self) -> bool {
        self.mantissa <= MAX_MANTISSA && self.scale <= MAX_SCALE
    }

    /// The numerator of the value over `10^scale`.
    pub open spec fn signed_mantissa(&self) -> int {
        if self.negative {
            -(self.mantissa as int)
        } else {
            self.mantissa as int
        }
    }

    /// The value is zero or above (a zero with the sign flag set counts as zero).
    pub open spec fn is_nonneg(&self) -> bool {
        !self.negative || self.mantissa == 0
    }

    /// The value of `self` is at most the value of `o`.
    pub open spec fn le(&self, o: Dec) -> bool {
        self.signed_mantissa() * pow10(o.scale as nat) <= o.signed_mantissa() * pow10(
            self.scale as nat,
        )
    }

    /// Whether `self` is within the range that `rust_decimal::Decimal` represents.
    pub fn in_range(&self) -> (r: bool)
        ensures
            r == self.wf(),
    {
        self.mantissa <= MAX_MANTISSA && self.scale <= MAX_SCALE
    }

    pub fn new(negative: bool, mantissa: u128, scale: u32) -> (r: Dec)
        ensures
            r == (Dec { negative, mantissa, scale }),
    {
        Dec { negative, mantissa, scale }
    }
}

/// `am / 10^ascale <= bm / 10^bscale`, for magnitudes.
fn magnitude_le(am: u128, ascale: u32, bm: u128, bscale: u32) -> (r: bool)
    requires
        am <= MAX_MANTISSA,
        bm <= MAX_MANTISSA,
    ensures
        r == (am * pow10(bscale as nat) <= bm * pow10(ascale as nat)),
{
    if ascale >= bscale {
        let k: u32 = ascale - bscale;
        let mut t: u128 = bm;
        let mut i: u32 = 0;
        proof {
            assert(pow10(0) == 1);
            lemma_pow10_positive(bscale as nat);
            lemma_pow10_add(k as nat, bscale as nat);
        }
        while i < k
            invariant
                i <= k,
                k == ascale - bscale,
                t == bm * pow10(i as nat),
                am <= MAX_MANTISSA,
                pow10(bscale as nat) >= 1,
                pow10(ascale as nat) == pow10(k as nat) * pow10(bscale as nat),
            decreases k - i,
        {
            if t >= am {
                proof {
                    lemma_pow10_add(i as nat, (k - i) as nat);
                    lemma_pow10_positive((k - i) as nat);
                    let rest = pow10((k - i) as nat);
                    let pb = pow10(bscale as nat);
                    assert(bm * pow10(k as nat) == t * rest) by (nonlinear_arith)
                        requires
                            t == bm * pow10(i as nat),
                            pow10(k as nat) == pow10(i as nat) * rest,
                    ;
                    assert(am * pb <= bm * pow10(k as nat) * pb) by (nonlinear_arith)
                        requires
                            bm * pow10(k as nat) == t * rest,
                            rest >= 1,
                            t >= am,
                            am >= 0,
                            pb >= 1,
                    ;
                    assert(bm * pow10(ascale as nat) == bm * pow10(k as nat) * pb)
                        by (nonlinear_arith)
                        requires
                            pow10(ascale as nat) == pow10(k as nat) * pb,
                    ;
                }
                return true;
            }
            proof {
                assert(pow10((i + 1) as nat) == 10 * pow10(i as nat));
                assert(t * 10 == bm * pow10((i + 1) as nat)) by (nonlinear_arith)
                    requires
                        t == bm * pow10(i as nat),
                        pow10((i + 1) as nat) == 10 * pow10(i as nat),
                ;
            }
            t = t * 10;
            i = i + 1;
        }
        proof {
            let pb = pow10(bscale as nat);
            assert(bm * pow10(ascale as nat) == t * pb) by (nonlinear_arith)
                requires
                    pow10(ascale as nat) == pow10(k as nat) * pb,
                    t == bm * pow10(k as nat),
            ;
            assert((am <= t) == (am * pb <= t * pb)) by (nonlinear_arith)
                requires
                    pb >= 1,
            ;
        }
        am <= t
    } else {
        let k: u32 = bscale - ascale;
        let mut t: u128 = am;
        let mut i: u32 = 0;
        proof {
            assert(pow10(0) == 1);
            lemma_pow10_positive(ascale as nat);
            lemma_pow10_add(k as nat, ascale as nat);
        }
        while i < k
            invariant
                i <= k,
                k == bscale - ascale,
                t == am * pow10(i as nat),
                bm <= MAX_MANTISSA,
                pow10(ascale as nat) >= 1,
                pow10(bscale as nat) == pow10(k as nat) * pow10(ascale as nat),
            decreases k - i,
        {
            if t > bm {
                proof {
                    lemma_pow10_add(i as nat, (k - i) as nat);
                    lemma_pow10_positive((k - i) as nat);
                    let rest = pow10((k - i) as nat);
                    let pa = pow10(ascale as nat);
                    assert(am * pow10(k as nat) == t * rest) by (nonlinear_arith)
                        requires
                            t == am * pow10(i as nat),
                            pow10(k as nat) == pow10(i as nat) * rest,
                    ;
                    assert(am * pow10(k as nat) * pa > bm * pa) by (nonlinear_arith)
                        requires
                            am * pow10(k as nat) == t * rest,
                            rest >= 1,
                            t > bm,
                            bm >= 0,
                            pa >= 1,
                    ;
                    assert(am * pow10(bscale as nat) == am * pow10(k as nat) * pa)
                        by (nonlinear_arith)
                        requires
                            pow10(bscale as nat) == pow10(k as nat) * pa,
                    ;
                }
                return false;
            }
            proof {
                assert(pow10((i + 1) as nat) == 10 * pow10(i as nat));
                assert(t * 10 == am * pow10((i + 1) as nat)) by (nonlinear_arith)
                    requires
                        t == am * pow10(i as nat),
                        pow10((i + 1) as nat) == 10 * pow10(i as nat),
                ;
            }
            t = t * 10;
            i = i + 1;
        }
        proof {
            let pa = pow10(ascale as nat);
            assert(am * pow10(bscale as nat) == t * pa) by (nonlinear_arith)
                requires
                    pow10(bscale as nat) == pow10(k as nat) * pa,
                    t == am * pow10(k as nat),
            ;
            assert((t <= bm) == (t * pa <= bm * pa)) by (nonlinear_arith)
                requires
                    pa >= 1,
            ;
        }
        t <= bm
    }
}

/// Whether the value of `a` is at most the value of `b`.
pub fn dec_le(a: &Dec, b: &Dec) -> (r: bool)
    requires
        a.wf(),
        b.wf(),
    ensures
        r == a.le(*b),
{
    let pa = Ghost(pow10(a.scale as nat));
    let pb = Ghost(pow10(b.scale as nat));
    proof {
        lemma_pow10_positive(a.scale as nat);
        lemma_pow10_positive(b.scale as nat);
    }
    if a.negative && b.negative {
        let r = magnitude_le(b.mantissa, b.scale, a.mantissa, a.scale);
        proof {
            let am = a.mantissa as int;
            let bm = b.mantissa as int;
            assert((-am * pb@ <= -bm * pa@) == (bm * pa@ <= am * pb@)) by (nonlinear_arith);
        }
        r
    } else if !a.negative && !b.negative {
        magnitude_le(a.mantissa, a.scale, b.mantissa, b.scale)
    } else if a.negative {
        proof {
            let am = a.mantissa as int;
            let bm = b.mantissa as int;
            assert(-am * pb@ <= bm * pa@) by (nonlinear_arith)
                requires
                    am >= 0,
                    bm >= 0,
                    pa@ >= 1,
                    pb@ >= 1,
            ;
        }
        true
    } else {
        proof {
            let am = a.mantissa as int;
            let bm = b.mantissa as int;
            assert((am * pb@ <= -bm * pa@) == (am == 0 && bm == 0)) by (nonlinear_arith)
                requires
                    am >= 0,
                    bm >= 0,
                    pa@ >= 1,
                    pb@ >= 1,
            ;
        }
        a.mantissa == 0 && b.mantissa == 0
    }
}

} // verus!
