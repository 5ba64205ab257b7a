//! The range resolver: axis bounds from explicit options or from the data.
//!
//! Coordinates are IEEE-754 binary64 bit patterns (see [`crate::bits`]).
//! In explicit mode the caller's bounds pass through after validation.
//! In auto mode the resolver finds the numeric extremes of each axis and
//! decides how the plot is padded around them: by a fixed unit when the
//! data span is numerically indistinguishable from zero, else by two
//! percent of the span. The padding arithmetic itself is carried out by
//! the machine's binary64 operations outside this crate; every decision
//! made here is verified.

use vstd::prelude::*;

use crate::bits;
use crate::bits::{ge_bits, lt_bits, mag_bits, nan_bits, EPSILON_BITS, NEG_INF_BITS, POS_INF_BITS};
use crate::errors::PlotError;

verus! {

/// Caller-supplied plot configuration. The four bounds hold binary64 bit
/// patterns and are meaningful only when `auto_range` is zero.
#[derive(Clone, Copy, Debug, PartialEq, Eq, Structural)]
pub struct PlotOptions {
    /// Width of the output raster in pixels; zero is invalid.
    pub width: u32,
    /// Height of the output raster in pixels; zero is invalid.
    pub height: u32,
    /// Radius of each point marker in pixels.
    pub marker_radius: u32,
    /// Nonzero selects auto mode for the range resolver.
    pub auto_range: u8,
    /// Explicit lower X bound (binary64 bit pattern).
    pub x_min: u64,
    /// Explicit upper X bound (binary64 bit pattern).
    pub x_max: u64,
    /// Explicit lower Y bound (binary64 bit pattern).
    pub y_min: u64,
    /// Explicit upper Y bound (binary64 bit pattern).
    pub y_max: u64,
}

/// The resolved plan for the axis ranges of one plot.
#[derive(Clone, Copy, Debug, PartialEq, Eq, Structural)]
pub enum RangePlan {
    /// Validated explicit bounds, passed through unchanged.
    Explicit { x_min: u64, x_max: u64, y_min: u64, y_max: u64 },
    /// Auto mode: the numeric extremes of the data, still to be padded.
    Auto { x_data_min: u64, x_data_max: u64, y_data_min: u64, y_data_max: u64 },
}

/// How an auto-mode axis is padded around its data extremes.
#[derive(Clone, Copy, Debug, PartialEq, Eq, Structural)]
pub enum PaddingKind {
    /// The span is numerically indistinguishable from zero: pad by a
    /// fixed unit on each side, so the range never degenerates.
    Unit,
    /// Pad by two percent of the span on each side.
    Proportional,
}

/// The numeric minimum of a sequence of binary64 patterns, folded left
/// from positive infinity; NaN elements never win the comparison.
pub open spec fn fold_min(s: Seq<u64>) -> u64
    decreases s.len(),
{
    if s.len() == 0 {
        POS_INF_BITS
    } else {
        let prev = fold_min(s.drop_last());
        if lt_bits(s.last(), prev) {
            s.last()
        } else {
            prev
        }
    }
}

/// The numeric maximum of a sequence of binary64 patterns, folded left
/// from negative infinity; NaN elements never win the comparison.
pub open spec fn fold_max(s: Seq<u64>) -> u64
    decreases s.len(),
{
    if s.len() == 0 {
        NEG_INF_BITS
    } else {
        let prev = fold_max(s.drop_last());
        if lt_bits(prev, s.last()) {
            s.last()
        } else {
            prev
        }
    }
}

/// The numeric minimum of the data, as executable code.
pub fn data_min(v: &Vec<u64>) -> (r: u64)
    ensures
        r == fold_min(v@),
{
    let mut acc: u64 = POS_INF_BITS;
    let mut i: usize = 0;
    while i < v.len()
        invariant
            i <= v@.len(),
            acc == fold_min(v@.take(i as int)),
        decreases v@.len() - i,
    {
        let x = v[i];
        if bits::lt(x, acc) {
            acc = x;
        }
        proof {
            assert(v@.take(i + 1 as int).drop_last() =~= v@.take(i as int));
            assert(v@.take(i + 1 as int).last() == v@[i as int]);
        }
        i = i + 1;
    }
    proof {
        assert(v@.take(v@.len() as int) =~= v@);
    }
    acc
}

/// The numeric maximum of the data, as executable code.
pub fn data_max(v: &Vec<u64>) -> (r: u64)
    ensures
        r == fold_max(v@),
{
    let mut acc: u64 = NEG_INF_BITS;
    let mut i: usize = 0;
    while i < v.len()
        invariant
            i <= v@.len(),
            acc == fold_max(v@.take(i as int)),
        decreases v@.len() - i,
    {
        let x = v[i];
        if bits::lt(acc, x) {
            acc = x;
        }
        proof {
            assert(v@.take(i + 1 as int).drop_last() =~= v@.take(i as int));
            assert(v@.take(i + 1 as int).last() == v@[i as int]);
        }
        i = i + 1;
    }
    proof {
        assert(v@.take(v@.len() as int) =~= v@);
    }
    acc
}

/// The padding an auto-mode axis gets for a given span pattern: a fixed
/// unit when the span's magnitude is below the binary64 machine epsilon
/// (this also catches both zeros), else two percent of the span. A NaN
/// span is not below epsilon, so it keeps proportional padding.
pub open spec fn spec_padding_kind(span: u64) -> PaddingKind {
    if lt_bits(mag_bits(span), EPSILON_BITS) {
        PaddingKind::Unit
    } else {
        PaddingKind::Proportional
    }
}

/// Decides the padding of an auto-mode axis from its span pattern.
pub fn padding_kind(span: u64) -> (r: PaddingKind)
    ensures
        r == spec_padding_kind(span),
{
    if bits::lt(bits::magnitude(span), EPSILON_BITS) {
        PaddingKind::Unit
    } else {
        PaddingKind::Proportional
    }
}

/// What the plot planner returns for given data and options: dimensions
/// are checked first, then the range is resolved. In explicit mode a
/// lower bound that is not numerically below its upper bound is rejected
/// (the X axis is checked before the Y axis); in auto mode resolution
/// always succeeds.
pub open spec fn spec_plan_scatter(xs: Seq<u64>, ys: Seq<u64>, opt: PlotOptions) -> Result<
    RangePlan,
    PlotError,
> {
    if opt.width == 0 || opt.height == 0 {
        Err(PlotError::InvalidDimensions)
    } else if opt.auto_range != 0 {
        Ok(
            RangePlan::Auto {
                x_data_min: fold_min(xs),
                x_data_max: fold_max(xs),
                y_data_min: fold_min(ys),
                y_data_max: fold_max(ys),
            },
        )
    } else if ge_bits(opt.x_min, opt.x_max) {
        Err(PlotError::InvalidXRange)
    } else if ge_bits(opt.y_min, opt.y_max) {
        Err(PlotError::InvalidYRange)
    } else {
        Ok(
            RangePlan::Explicit {
                x_min: opt.x_min,
                x_max: opt.x_max,
                y_min: opt.y_min,
                y_max: opt.y_max,
            },
        )
    }
}

/// Validates the plot dimensions and resolves the axis ranges for one
/// plot. This is the whole decision a render call makes before the
/// external engine is handed the plan.
pub fn plan_scatter(xs: &Vec<u64>, ys: &Vec<u64>, opt: &PlotOptions) -> (r: Result<
    RangePlan,
    PlotError,
>)
    ensures
        r == spec_plan_scatter(xs@, ys@, *opt),
{
    if opt.width == 0 || opt.height == 0 {
        return Err(PlotError::InvalidDimensions);
    }
    if opt.auto_range != 0 {
        let x_data_min = data_min(xs);
        let x_data_max = data_max(xs);
        let y_data_min = data_min(ys);
        let y_data_max = data_max(ys);
        Ok(RangePlan::Auto { x_data_min, x_data_max, y_data_min, y_data_max })
    } else {
        if bits::ge(opt.x_min, opt.x_max) {
            return Err(PlotError::InvalidXRange);
        }
        if bits::ge(opt.y_min, opt.y_max) {
            return Err(PlotError::InvalidYRange);
        }
        Ok(RangePlan::Explicit { x_min: opt.x_min, x_max: opt.x_max, y_min: opt.y_min, y_max: opt.y_max })
    }
}

/// Law: planning succeeds for every input the interface allows: positive
/// dimensions, and either auto mode or an explicit range whose lower
/// bounds are numerically below their upper bounds.
pub proof fn lemma_plan_success(xs: Seq<u64>, ys: Seq<u64>, opt: PlotOptions)
    requires
        opt.width > 0,
        opt.height > 0,
        opt.auto_range == 0 ==> !ge_bits(opt.x_min, opt.x_max) && !ge_bits(opt.y_min, opt.y_max),
    ensures
        spec_plan_scatter(xs, ys, opt) is Ok,
{
}

/// Law: an explicit range whose lower bound is not numerically below its
/// upper bound is rejected as a range error before any engine work.
pub proof fn lemma_invalid_explicit_range_rejected(xs: Seq<u64>, ys: Seq<u64>, opt: PlotOptions)
    requires
        opt.width > 0,
        opt.height > 0,
        opt.auto_range == 0,
        ge_bits(opt.x_min, opt.x_max) || ge_bits(opt.y_min, opt.y_max),
    ensures
        spec_plan_scatter(xs, ys, opt) == Err::<RangePlan, PlotError>(PlotError::InvalidXRange)
            || spec_plan_scatter(xs, ys, opt) == Err::<RangePlan, PlotError>(
            PlotError::InvalidYRange,
        ),
{
}

/// Law: range resolution is deterministic and idempotent. Two calls on
/// identical data and options plan the same ranges; the plan depends on
/// nothing but its inputs.
pub proof fn lemma_plan_deterministic(
    xs1: Seq<u64>,
    ys1: Seq<u64>,
    xs2: Seq<u64>,
    ys2: Seq<u64>,
    opt: PlotOptions,
)
    requires
        xs1 == xs2,
        ys1 == ys2,
    ensures
        spec_plan_scatter(xs1, ys1, opt) == spec_plan_scatter(xs2, ys2, opt),
{
}

/// Law: when every point of an axis holds one value that is not NaN,
/// the resolved extremes are both that value, so the span the padding
/// decision sees is the value minus itself.
pub proof fn lemma_constant_data_extremes(s: Seq<u64>, v: u64)
    requires
        s.len() >= 1,
        forall|i: int| 0 <= i < s.len() ==> s[i] == v,
        !nan_bits(v),
    ensures
        fold_min(s) == v,
        fold_max(s) == v,
    decreases s.len(),
{
    assert(s.last() == v);
    if s.len() == 1 {
        assert(s.drop_last().len() == 0);
        assert(fold_min(s.drop_last()) == POS_INF_BITS);
        assert(fold_max(s.drop_last()) == NEG_INF_BITS);
        assert(!lt_bits(v, POS_INF_BITS) ==> v == POS_INF_BITS) by {
            assert(mag_bits(POS_INF_BITS) == POS_INF_BITS);
        }
        assert(!lt_bits(NEG_INF_BITS, v) ==> v == NEG_INF_BITS) by {
            assert(mag_bits(NEG_INF_BITS) == POS_INF_BITS);
        }
    } else {
        assert(forall|i: int| 0 <= i < s.drop_last().len() ==> s.drop_last()[i] == v);
        lemma_constant_data_extremes(s.drop_last(), v);
        assert(!lt_bits(v, v));
    }
}

/// Law: the resolved extremes of an auto-mode axis enclose the data.
/// They are never NaN, and no data value that is not NaN lies
/// numerically below the minimum or above the maximum.
pub proof fn lemma_fold_extremes_bound_data(s: Seq<u64>)
    ensures
        !nan_bits(fold_min(s)),
        !nan_bits(fold_max(s)),
        forall|i: int| 0 <= i < s.len() && !nan_bits(s[i]) ==> !lt_bits(s[i], fold_min(s)),
        forall|i: int| 0 <= i < s.len() && !nan_bits(s[i]) ==> !lt_bits(fold_max(s), s[i]),
    decreases s.len(),
{
    if s.len() > 0 {
        lemma_fold_extremes_bound_data(s.drop_last());
        let t = s.drop_last();
        let prev_min = fold_min(t);
        let prev_max = fold_max(t);
        assert forall|i: int|
            0 <= i < s.len() && !nan_bits(s[i]) implies !lt_bits(s[i], fold_min(s)) by {
            if i < s.len() - 1 {
                assert(t[i] == s[i]);
                if lt_bits(s.last(), prev_min) && lt_bits(s[i], s.last()) {
                    bits::lemma_lt_transitive(s[i], s.last(), prev_min);
                }
            } else {
                bits::lemma_lt_irreflexive(s.last());
            }
        }
        assert forall|i: int|
            0 <= i < s.len() && !nan_bits(s[i]) implies !lt_bits(fold_max(s), s[i]) by {
            if i < s.len() - 1 {
                assert(t[i] == s[i]);
                if lt_bits(prev_max, s.last()) && lt_bits(s.last(), s[i]) {
                    bits::lemma_lt_transitive(prev_max, s.last(), s[i]);
                }
            } else {
                bits::lemma_lt_irreflexive(s.last());
            }
        }
    }
}

/// Law: each resolved extreme of an auto-mode axis is taken from the
/// data itself, unless nothing in the data ever wins a comparison (an
/// empty axis, or one holding only NaN), in which case it stays at the
/// infinity the fold starts from.
pub proof fn lemma_fold_extremes_from_data(s: Seq<u64>)
    ensures
        fold_min(s) == POS_INF_BITS || s.contains(fold_min(s)),
        fold_max(s) == NEG_INF_BITS || s.contains(fold_max(s)),
    decreases s.len(),
{
    if s.len() > 0 {
        lemma_fold_extremes_from_data(s.drop_last());
        if s.drop_last().contains(fold_min(s.drop_last())) {
            let j = choose|j: int|
                0 <= j < s.drop_last().len() && s.drop_last()[j] == fold_min(s.drop_last());
            assert(s[j] == fold_min(s.drop_last()));
        }
        if s.drop_last().contains(fold_max(s.drop_last())) {
            let j = choose|j: int|
                0 <= j < s.drop_last().len() && s.drop_last()[j] == fold_max(s.drop_last());
            assert(s[j] == fold_max(s.drop_last()));
        }
        assert(s[s.len() - 1] == s.last());
    }
}

/// Law: a span of either zero pattern gets the fixed unit padding, so a
/// degenerate axis (all points equal) never keeps a zero-width range.
pub proof fn lemma_zero_span_padding()
    ensures
        spec_padding_kind(0) == PaddingKind::Unit,
        spec_padding_kind(bits::SIGN_BIT) == PaddingKind::Unit,
{
}

} // verus!
