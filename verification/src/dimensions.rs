//! Target dimensions of a resize, under the sizing policies of
//! [`ResizeOptions`].
//!
//! All scaling is exact integer arithmetic: a quotient is truncated toward
//! zero and a result that does not fit in 32 bits is held at `u32::MAX`.

use crate::error::{Error, ErrorView, OptionsFault, OptionsFaultView};
use vstd::arithmetic::div_mod::{lemma_div_multiples_vanish_quotient, lemma_fundamental_div_mod, lemma_mod_bound};
use vstd::arithmetic::power2::{
    lemma2_to64, lemma2_to64_rest, lemma_pow2_pos, lemma_pow2_strictly_increases, lemma_pow2_unfold, pow2,
};
use vstd::prelude::*;

verus! {

/// A non-negative percentage, held exactly as `mantissa * 2^exponent`.
///
/// Every finite non-negative binary fraction has a value of this type, so a
/// percentage that arrives as a binary floating-point number loses nothing.
#[derive(Clone, Copy, Debug, PartialEq, Eq, Structural)]
pub struct Percentage {
    pub mantissa: u32,
    pub exponent: i32,
}

impl Percentage {
    /// The percentage `mantissa * 2^exponent`.
    pub fn new(mantissa: u32, exponent: i32) -> (p: Percentage)
        ensures
            p.mantissa == mantissa,
            p.exponent == exponent,
    {
        Percentage { mantissa, exponent }
    }

    /// The percentage that the 32 bits of a binary number in the IEEE 754
    /// single format stand for: a sign bit, eight bits of biased exponent
    /// and 23 bits of fraction. A negative number and one that is no number
    /// count as zero; infinity counts as `2^(2^31 - 1)`, under which every
    /// dimension but zero is held at the largest value.
    pub open spec fn of_single_bits(bits: u32) -> Percentage {
        let biased = (bits / 0x80_0000) % 0x100;
        let fraction = bits % 0x80_0000;
        if bits >= 0x8000_0000 {
            Percentage { mantissa: 0, exponent: 0 }
        } else if biased == 255 {
            if fraction == 0 {
                Percentage { mantissa: 1, exponent: i32::MAX }
            } else {
                Percentage { mantissa: 0, exponent: 0 }
            }
        } else if biased == 0 {
            Percentage { mantissa: fraction as u32, exponent: (-149) as i32 }
        } else {
            Percentage { mantissa: (fraction + 0x80_0000) as u32, exponent: (biased - 150) as i32 }
        }
    }

    /// The percentage that the bits of a binary number in the IEEE 754
    /// single format stand for.
    pub fn from_single_bits(bits: u32) -> (p: Percentage)
        ensures
            p == Self::of_single_bits(bits),
    {
        let biased: u32 = (bits / 0x80_0000) % 0x100;
        let fraction: u32 = bits % 0x80_0000;
        if bits >= 0x8000_0000 {
            Percentage { mantissa: 0, exponent: 0 }
        } else if biased == 255 {
            if fraction == 0 {
                Percentage { mantissa: 1, exponent: i32::MAX }
            } else {
                Percentage { mantissa: 0, exponent: 0 }
            }
        } else if biased == 0 {
            Percentage { mantissa: fraction, exponent: -149 }
        } else {
            Percentage { mantissa: fraction + 0x80_0000, exponent: biased as i32 - 150 }
        }
    }

    /// Whether this percentage stands for the whole number `percent`.
    pub open spec fn is_whole(self, percent: nat) -> bool {
        if self.exponent >= 0 {
            self.mantissa * pow2(self.exponent as nat) == percent
        } else {
            self.mantissa == percent * pow2((-self.exponent) as nat)
        }
    }

    /// A whole number of percent.
    pub fn whole(percent: u32) -> (p: Percentage)
        ensures
            p.mantissa == percent,
            p.exponent == 0,
            p.is_whole(percent as nat),
    {
        proof {
            lemma2_to64();
            assert(percent * pow2(0) == percent) by (nonlinear_arith)
                requires
                    pow2(0) == 1,
            ;
        }
        Percentage { mantissa: percent, exponent: 0 }
    }
}

/// How a resize chooses its target dimensions.
///
/// A percentage, where present, decides alone. Otherwise `width` and
/// `height` decide, each scaling the other axis when `maintain_aspect` is
/// set.
#[derive(Clone, Copy, Debug, PartialEq, Eq, Structural)]
pub struct ResizeOptions {
    pub width: Option<u32>,
    pub height: Option<u32>,
    pub percentage: Option<Percentage>,
    pub maintain_aspect: bool,
}

/// `v`, held at `u32::MAX` where it is larger.
pub open spec fn saturated(v: int) -> int {
    if v > u32::MAX {
        u32::MAX as int
    } else {
        v
    }
}

/// `original` scaled to `p` percent: `original * p / 100`, truncated and
/// saturated.
pub open spec fn scaled_by_percentage(original: int, p: Percentage) -> int {
    if p.exponent >= 0 {
        saturated((original * p.mantissa * pow2(p.exponent as nat) as int) / 100)
    } else {
        saturated((original * p.mantissa) / (100 * pow2((-p.exponent) as nat) as int))
    }
}

/// `length` scaled by the ratio `target / source`: `length * target /
/// source`, truncated and saturated.
pub open spec fn scaled_by_ratio(length: int, target: int, source: int) -> int
    recommends
        source > 0,
{
    saturated((length * target) / source)
}

/// Whether the plan is defined: the policy in `options` scales by no ratio
/// to an original dimension that is zero.
pub open spec fn plan_defined(original_width: u32, original_height: u32, options: ResizeOptions) -> bool {
    options.percentage is None && options.maintain_aspect ==> {
        &&& options.width is Some ==> original_width > 0
        &&& options.width is None && options.height is Some ==> original_height > 0
    }
}

/// The target dimensions: the first rule that applies decides.
pub open spec fn planned(original_width: u32, original_height: u32, options: ResizeOptions) -> (int, int) {
    if let Some(p) = options.percentage {
        (scaled_by_percentage(original_width as int, p), scaled_by_percentage(original_height as int, p))
    } else if options.maintain_aspect {
        if let Some(width) = options.width {
            (width as int, scaled_by_ratio(original_height as int, width as int, original_width as int))
        } else if let Some(height) = options.height {
            (scaled_by_ratio(original_width as int, height as int, original_height as int), height as int)
        } else {
            (original_width as int, original_height as int)
        }
    } else {
        (
            (if let Some(width) = options.width { width } else { original_width }) as int,
            (if let Some(height) = options.height { height } else { original_height }) as int,
        )
    }
}

/// `2^k` for `k <= 64`.
fn power_of_two(k: u32) -> (r: u128)
    requires
        k <= 64,
    ensures
        r == pow2(k as nat),
        1 <= r <= 0x1_0000_0000_0000_0000,
{
    let mut r: u128 = 1;
    let mut i: u32 = 0;
    proof {
        lemma2_to64();
    }
    while i < k
        invariant
            i <= k <= 64,
            r == pow2(i as nat),
            r >= 1,
            pow2(64) == 0x1_0000_0000_0000_0000,
            r <= pow2(64),
        decreases k - i,
    {
        proof {
            lemma_pow2_unfold((i + 1) as nat);
            if i + 1 < 64 {
                lemma_pow2_strictly_increases((i + 1) as nat, 64);
            }
        }
        r = r * 2;
        i = i + 1;
    }
    proof {
        lemma2_to64_rest();
    }
    r
}

/// The product of two 32-bit numbers, which always fits in 64 bits.
fn wide_product(a: u32, b: u32) -> (r: u64)
    ensures
        r == a * b,
{
    assert(a * b <= 0xffff_ffff * 0xffff_ffff) by (nonlinear_arith)
        requires
            a <= 0xffff_ffff,
            b <= 0xffff_ffff,
    ;
    a as u64 * b as u64
}

/// `v` as a `u32`, held at `u32::MAX` where it is larger.
fn saturate(v: u128) -> (r: u32)
    ensures
        r == saturated(v as int),
{
    if v > 0xffff_ffff {
        u32::MAX
    } else {
        v as u32
    }
}

/// Scales one dimension to `p` percent of itself.
pub fn scale_by_percentage(original: u32, p: Percentage) -> (r: u32)
    ensures
        r == scaled_by_percentage(original as int, p),
{
    let product: u64 = wide_product(original, p.mantissa);
    if p.exponent >= 0 {
        let e: u32 = p.exponent as u32;
        if product == 0 {
            assert((0 * pow2(e as nat) as int) / 100 == 0) by (nonlinear_arith);
            0
        } else if e >= 40 {
            proof {
                lemma2_to64_rest();
                if e > 40 {
                    lemma_pow2_strictly_increases(40, e as nat);
                }
                assert((product as int * pow2(e as nat) as int) / 100 > u32::MAX) by (nonlinear_arith)
                    requires
                        product >= 1,
                        pow2(e as nat) >= 0x100_0000_0000,
                ;
            }
            u32::MAX
        } else {
            let factor: u128 = power_of_two(e);
            proof {
                lemma2_to64_rest();
                lemma_pow2_strictly_increases(e as nat, 40);
                assert(product * factor < 0x1_0000_0000_0000_0000_0000_0000_0000) by (nonlinear_arith)
                    requires
                        product < 0x1_0000_0000_0000_0000,
                        factor < 0x100_0000_0000,
                ;
            }
            saturate((product as u128 * factor) / 100)
        }
    } else {
        if p.exponent <= -64 {
            proof {
                let k: nat = (-p.exponent) as nat;
                lemma2_to64_rest();
                if k > 64 {
                    lemma_pow2_strictly_increases(64, k);
                }
                assert((product as int) / (100 * pow2(k) as int) == 0) by (nonlinear_arith)
                    requires
                        0 <= product < 0x1_0000_0000_0000_0000,
                        pow2(k) >= 0x1_0000_0000_0000_0000,
                ;
            }
            0
        } else {
            let k: u32 = (-p.exponent) as u32;
            let factor: u128 = power_of_two(k);
            saturate(product as u128 / (100 * factor))
        }
    }
}

/// Scales `length` by the ratio of `target` to `source`.
pub fn scale_by_ratio(length: u32, target: u32, source: u32) -> (r: u32)
    requires
        source > 0,
    ensures
        r == scaled_by_ratio(length as int, target as int, source as int),
{
    let product: u64 = wide_product(length, target);
    saturate((product / source as u64) as u128)
}

/// The target dimensions of a resize of an image of `original_width` by
/// `original_height` under `options`.
pub fn plan(original_width: u32, original_height: u32, options: &ResizeOptions) -> (target: (u32, u32))
    requires
        plan_defined(original_width, original_height, *options),
    ensures
        (target.0 as int, target.1 as int) == planned(original_width, original_height, *options),
{
    if let Some(p) = options.percentage {
        (scale_by_percentage(original_width, p), scale_by_percentage(original_height, p))
    } else if options.maintain_aspect {
        if let Some(width) = options.width {
            (width, scale_by_ratio(original_height, width, original_width))
        } else if let Some(height) = options.height {
            (scale_by_ratio(original_width, height, original_height), height)
        } else {
            (original_width, original_height)
        }
    } else {
        (
            match options.width {
                Some(width) => width,
                None => original_width,
            },
            match options.height {
                Some(height) => height,
                None => original_height,
            },
        )
    }
}

/// Whether the policy in `options` can be planned for an image of the
/// given dimensions.
pub fn is_plan_defined(original_width: u32, original_height: u32, options: &ResizeOptions) -> (defined: bool)
    ensures
        defined == plan_defined(original_width, original_height, *options),
{
    if options.percentage.is_some() || !options.maintain_aspect {
        true
    } else if options.width.is_some() {
        original_width > 0
    } else if options.height.is_some() {
        original_height > 0
    } else {
        true
    }
}

/// The outcome of planning with the original dimensions validated first.
pub open spec fn planned_checked(original_width: u32, original_height: u32, options: ResizeOptions) -> Result<
    (int, int),
    ErrorView,
> {
    if plan_defined(original_width, original_height, options) {
        Ok(planned(original_width, original_height, options))
    } else {
        Err(ErrorView::InvalidOptions(OptionsFaultView::EmptySource))
    }
}

/// The target dimensions of a resize, or the failure that reports an
/// original dimension of zero that the policy would divide by.
pub fn plan_checked(original_width: u32, original_height: u32, options: &ResizeOptions) -> (outcome: Result<
    (u32, u32),
    Error,
>)
    ensures
        match outcome {
            Ok(target) => planned_checked(original_width, original_height, *options) == Ok::<(int, int), ErrorView>(
                (target.0 as int, target.1 as int),
            ),
            Err(error) => planned_checked(original_width, original_height, *options) == Err::<(int, int), ErrorView>(
                error@,
            ),
        },
{
    if is_plan_defined(original_width, original_height, options) {
        Ok(plan(original_width, original_height, options))
    } else {
        Err(Error::InvalidOptions(OptionsFault::EmptySource))
    }
}

/// Scaling by a ratio truncates: where the result is not held at the
/// largest value, it is the one whole number `r` with `r * source <=
/// length * target < (r + 1) * source`.
pub proof fn lemma_ratio_truncates(length: int, target: int, source: int)
    requires
        0 <= length,
        0 <= target,
        0 < source,
        (length * target) / source <= u32::MAX,
    ensures
        scaled_by_ratio(length, target, source) * source <= length * target,
        length * target < (scaled_by_ratio(length, target, source) + 1) * source,
{
    let product = length * target;
    lemma_fundamental_div_mod(product, source);
    lemma_mod_bound(product, source);
    assert((product / source) * source == source * (product / source)) by (nonlinear_arith);
    assert((product / source + 1) * source == source * (product / source) + source) by (nonlinear_arith);
}

/// A percentage that stands for a whole number scales as that number
/// does, however it is written as mantissa and exponent.
pub proof fn lemma_whole_percentage(original: int, p: Percentage, percent: nat)
    requires
        0 <= original,
        p.is_whole(percent),
    ensures
        scaled_by_percentage(original, p) == saturated((original * percent) / 100),
{
    if p.exponent >= 0 {
        let factor = pow2(p.exponent as nat) as int;
        assert(original * p.mantissa * factor == original * percent) by (nonlinear_arith)
            requires
                p.mantissa * factor == percent,
        ;
    } else {
        let factor = pow2((-p.exponent) as nat) as int;
        lemma_pow2_pos((-p.exponent) as nat);
        assert(original * p.mantissa == factor * (original * percent)) by (nonlinear_arith)
            requires
                p.mantissa == percent * factor,
        ;
        assert(0 <= original * percent) by (nonlinear_arith)
            requires
                0 <= original,
                0 <= percent,
        ;
        assert(100 * factor == factor * 100);
        lemma_div_multiples_vanish_quotient(factor, original * percent, 100);
    }
}

/// At fifty percent each target dimension is half of the original,
/// truncated.
pub proof fn lemma_half_percentage(original_width: u32, original_height: u32, options: ResizeOptions)
    requires
        options.percentage matches Some(p) && p.is_whole(50),
    ensures
        planned(original_width, original_height, options) == (
            (original_width / 2) as int,
            (original_height / 2) as int,
        ),
{
    let p = options.percentage->0;
    lemma_whole_percentage(original_width as int, p, 50);
    lemma_whole_percentage(original_height as int, p, 50);
    assert((original_width * 50) / 100 == original_width / 2) by (nonlinear_arith);
    assert((original_height * 50) / 100 == original_height / 2) by (nonlinear_arith);
}

/// At a hundred percent the target dimensions are the original ones.
pub proof fn lemma_full_percentage(original_width: u32, original_height: u32, options: ResizeOptions)
    requires
        options.percentage matches Some(p) && p.is_whole(100),
    ensures
        planned(original_width, original_height, options) == (original_width as int, original_height as int),
{
    let p = options.percentage->0;
    lemma_whole_percentage(original_width as int, p, 100);
    lemma_whole_percentage(original_height as int, p, 100);
    assert((original_width * 100) / 100 == original_width) by (nonlinear_arith);
    assert((original_height * 100) / 100 == original_height) by (nonlinear_arith);
}

/// With no percentage, no width and no height the target dimensions are
/// the original ones, whether the aspect is maintained or not.
pub proof fn lemma_unsized_plan_keeps_dimensions(original_width: u32, original_height: u32, options: ResizeOptions)
    requires
        options.percentage is None,
        options.width is None,
        options.height is None,
    ensures
        plan_defined(original_width, original_height, options),
        planned(original_width, original_height, options) == (original_width as int, original_height as int),
{
}

/// A percentage decides alone: width, height and aspect do not matter.
pub proof fn lemma_percentage_takes_precedence(
    original_width: u32,
    original_height: u32,
    options: ResizeOptions,
    others: ResizeOptions,
)
    requires
        options.percentage is Some,
        others.percentage == options.percentage,
    ensures
        plan_defined(original_width, original_height, options),
        planned(original_width, original_height, options) == planned(original_width, original_height, others),
{
}

/// A percentage of zero gives a target without area.
pub proof fn lemma_zero_percentage(original_width: u32, original_height: u32, options: ResizeOptions)
    requires
        options.percentage matches Some(p) && p.mantissa == 0,
    ensures
        planned(original_width, original_height, options) == (0int, 0int),
{
    let p = options.percentage->0;
    assert(original_width * 0 == 0 && original_height * 0 == 0);
    if p.exponent >= 0 {
        assert((0 * pow2(p.exponent as nat) as int) / 100 == 0) by (nonlinear_arith);
    } else {
        lemma_pow2_pos((-p.exponent) as nat);
        assert(0int / (100 * pow2((-p.exponent) as nat) as int) == 0) by (nonlinear_arith)
            requires
                pow2((-p.exponent) as nat) > 0,
        ;
    }
}

} // verus!
