//! An exact decimal scalar: an integer mantissa together with a base-ten
//! scale, denoting the rational number `mantissa / 10^scale`.
//!
//! Type-effectiveness multipliers, attack powers, damage amounts and health
//! values are all such scalars, so that quantities like 0.25 (two halved
//! matchups) or 0.375 (a halved-twice matchup with the same-type attack
//! bonus) are represented exactly, with no binary floating point involved.

use vstd::prelude::*;

verus! {

/// Largest scale an operation may produce; it keeps every aligned mantissa
/// within the range of the 128-bit intermediates used by the arithmetic.
pub const MAX_SCALE: u32 = 18;

/// Mathematical model of a [`Scalar`]: the same mantissa/scale pair over
/// unbounded integers, denoting `mantissa / 10^scale`.
pub struct ScalarValue {
    pub mantissa: int,
    pub scale: nat,
}

/// Ten raised to `e`, the denominator belonging to a scale of `e`.
pub open spec fn pow10(e: nat) -> int
    decreases e,
{
    if e == 0 {
        1
    } else {
        10 * pow10((e - 1) as nat)
    }
}

pub proof fn lemma_pow10_pos(e: nat)
    ensures
        pow10(e) >= 1,
    decreases e,
{
    if e > 0 {
        lemma_pow10_pos((e - 1) as nat);
    }
}

pub proof fn lemma_pow10_mono(e1: nat, e2: nat)
    requires
        e1 <= e2,
    ensures
        pow10(e1) <= pow10(e2),
    decreases e2,
{
    if e1 < e2 {
        lemma_pow10_mono(e1, (e2 - 1) as nat);
        lemma_pow10_pos((e2 - 1) as nat);
    }
}

/// Splitting an exponent splits the power into a product.
pub proof fn lemma_pow10_adds(e1: nat, e2: nat)
    ensures
        pow10(e1 + e2) == pow10(e1) * pow10(e2),
    decreases e1,
{
    if e1 == 0 {
        assert(pow10(e2) == 1 * pow10(e2));
    } else {
        lemma_pow10_adds((e1 - 1) as nat, e2);
        assert(pow10(e1 + e2) == 10 * pow10((e1 - 1) as nat + e2));
        assert(10 * (pow10((e1 - 1) as nat) * pow10(e2)) == (10 * pow10((e1 - 1) as nat)) * pow10(
            e2,
        )) by (nonlinear_arith);
    }
}

pub proof fn lemma_pow10_bound(e: nat)
    requires
        e <= MAX_SCALE,
    ensures
        1 <= pow10(e) <= 1_000_000_000_000_000_000,
{
    lemma_pow10_pos(e);
    lemma_pow10_mono(e, MAX_SCALE as nat);
    reveal_with_fuel(pow10, 19);
    assert(pow10(MAX_SCALE as nat) == 1_000_000_000_000_000_000);
}

impl ScalarValue {
    /// The exact product: mantissas multiply and scales add, as in
    /// `(a / 10^s) * (b / 10^t) == (a * b) / 10^(s + t)`.
    pub open spec fn times(self, other: ScalarValue) -> ScalarValue {
        ScalarValue { mantissa: self.mantissa * other.mantissa, scale: self.scale + other.scale }
    }

    /// The mantissa this value has once rewritten at the coarser scale
    /// `target`; meaningful when `target >= self.scale`.
    pub open spec fn scaled_to(self, target: nat) -> int {
        self.mantissa * pow10((target - self.scale) as nat)
    }

    /// The common scale at which `self` and `other` can be compared.
    pub open spec fn common_scale(self, other: ScalarValue) -> nat {
        if self.scale >= other.scale {
            self.scale
        } else {
            other.scale
        }
    }

    /// The aligned difference `self - other`, as an integer mantissa at the
    /// common scale.
    pub open spec fn aligned_diff(self, other: ScalarValue) -> int {
        let target: nat = self.common_scale(other);
        self.scaled_to(target) - other.scaled_to(target)
    }

    /// The difference `self - other`, clamped at zero: the sole mutation
    /// path for health values.
    pub open spec fn minus_clamped(self, other: ScalarValue) -> ScalarValue {
        let diff: int = self.aligned_diff(other);
        if diff < 0 {
            ScalarValue { mantissa: 0, scale: 0 }
        } else {
            ScalarValue { mantissa: diff, scale: self.common_scale(other) }
        }
    }

    /// Denoted-value comparison by cross-multiplication: the denominators
    /// `10^scale` are positive, so `a/10^s < b/10^t` iff `a*10^t < b*10^s`.
    pub open spec fn val_lt(self, other: ScalarValue) -> bool {
        self.mantissa * pow10(other.scale) < other.mantissa * pow10(self.scale)
    }
}

/// An exact decimal number `mantissa / 10^scale`, e.g. `Scalar::new(25, 2)`
/// for 0.25. Two scalars are `==` when they agree in both mantissa and
/// scale; the arithmetic here keeps results at the scale the operands
/// determine, so equal computations yield equal representations.
#[derive(Clone, Copy, Debug, PartialEq, Eq, Structural)]
pub struct Scalar {
    pub mantissa: i64,
    pub scale: u32,
}

impl View for Scalar {
    type V = ScalarValue;

    open spec fn view(&self) -> ScalarValue {
        ScalarValue { mantissa: self.mantissa as int, scale: self.scale as nat }
    }
}

impl Scalar {
    pub fn new(mantissa: i64, scale: u32) -> (r: Scalar)
        ensures
            r@ == (ScalarValue { mantissa: mantissa as int, scale: scale as nat }),
    {
        Scalar { mantissa, scale }
    }

    /// The exact product of two scalars.
    pub fn times(self, other: Scalar) -> (r: Scalar)
        requires
            self@.scale + other@.scale <= MAX_SCALE,
            i64::MIN <= self@.mantissa * other@.mantissa <= i64::MAX,
        ensures
            r@ == self@.times(other@),
    {
        let product: i128 = (self.mantissa as i128) * (other.mantissa as i128);
        Scalar { mantissa: product as i64, scale: self.scale + other.scale }
    }

    /// The difference `self - other`, clamped at zero. Alignment happens on
    /// 128-bit intermediates, which the scale cap keeps in range.
    pub fn minus_clamped(self, other: Scalar) -> (r: Scalar)
        requires
            self@.scale <= MAX_SCALE,
            other@.scale <= MAX_SCALE,
            self@.aligned_diff(other@) <= i64::MAX,
        ensures
            r@ == self@.minus_clamped(other@),
    {
        let target: u32 = if self.scale >= other.scale {
            self.scale
        } else {
            other.scale
        };
        proof {
            lemma_pow10_bound((target - self.scale) as nat);
            lemma_pow10_bound((target - other.scale) as nat);
            lemma_aligned_mantissa_in_range(self.mantissa as int, (target - self.scale) as nat);
            lemma_aligned_mantissa_in_range(other.mantissa as int, (target - other.scale) as nat);
        }
        let a: i128 = (self.mantissa as i128) * pow10_i128(target - self.scale);
        let b: i128 = (other.mantissa as i128) * pow10_i128(target - other.scale);
        let diff: i128 = a - b;
        if diff < 0 {
            Scalar { mantissa: 0, scale: 0 }
        } else {
            Scalar { mantissa: diff as i64, scale: target }
        }
    }
}

/// A mantissa scaled by at most `10^MAX_SCALE` stays well within `i128`.
proof fn lemma_aligned_mantissa_in_range(mantissa: int, e: nat)
    requires
        i64::MIN <= mantissa <= i64::MAX,
        e <= MAX_SCALE,
    ensures
        -0x10000000000000000000000000000000 <= mantissa * pow10(e)
            <= 0x10000000000000000000000000000000,
{
    lemma_pow10_bound(e);
    assert(-0x10000000000000000000000000000000 <= mantissa * pow10(e)
        <= 0x10000000000000000000000000000000) by (nonlinear_arith)
        requires
            -0x8000000000000000 <= mantissa <= 0x7fffffffffffffff,
            1 <= pow10(e) <= 1_000_000_000_000_000_000,
    ;
}

/// Ten raised to `e`, on the 128-bit integers the alignment arithmetic uses.
fn pow10_i128(e: u32) -> (r: i128)
    requires
        e <= MAX_SCALE,
    ensures
        r == pow10(e as nat),
{
    proof {
        lemma_pow10_bound(e as nat);
    }
    let mut result: i128 = 1;
    let mut i: u32 = 0;
    while i < e
        invariant
            i <= e,
            e <= MAX_SCALE,
            result == pow10(i as nat),
        decreases e - i,
    {
        proof {
            lemma_pow10_bound(i as nat);
        }
        result = result * 10;
        i = i + 1;
    }
    result
}

} // verus!
