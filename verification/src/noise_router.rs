use vstd::prelude::*;

use crate::double_bits::{
    double_is_nan, double_le, double_lt, less_than, order_key, HALF, MINUS_HALF,
    MINUS_THREE_QUARTERS, ONE, ONE_AND_A_HALF, THREE, THREE_QUARTERS, TWO, ZERO,
};

verus! {

/// Parameters of a "find top surface" density component: the lowest block
/// height that is searched and the height of one noise cell.
pub struct FindTopSurfaceData {
    pub lower_bound: i32,
    pub cell_height: i32,
}

/// The two scaling curves that a "weird scaled" sampler can apply.
#[derive(Copy, Clone)]
pub enum WeirdScaledMapper {
    Caves,
    Tunnels,
}

impl WeirdScaledMapper {
    /// The largest factor that the mapper's curve can give: `2.0` for
    /// tunnels and `3.0` for caves.
    pub open spec fn max_multiplier_of(self) -> u64 {
        match self {
            WeirdScaledMapper::Tunnels => TWO,
            WeirdScaledMapper::Caves => THREE,
        }
    }

    /// The mapper's step curve at `value` (a binary64 bit pattern).
    ///
    /// Tunnels: below `-0.5` it is `0.75`, below `0.0` it is `1.0`, below
    /// `0.5` it is `1.5`, and `2.0` elsewhere. Caves: below `-0.75` it is
    /// `0.5`, below `-0.5` it is `0.75`, below `0.5` it is `1.0`, below
    /// `0.75` it is `2.0`, and `3.0` elsewhere. A NaN is below nothing, so it
    /// falls in the last step.
    pub open spec fn scale_of(self, value: u64) -> u64 {
        match self {
            WeirdScaledMapper::Tunnels => {
                if double_lt(value, MINUS_HALF) {
                    THREE_QUARTERS
                } else if double_lt(value, ZERO) {
                    ONE
                } else if double_lt(value, HALF) {
                    ONE_AND_A_HALF
                } else {
                    TWO
                }
            },
            WeirdScaledMapper::Caves => {
                if double_lt(value, MINUS_THREE_QUARTERS) {
                    HALF
                } else if double_lt(value, MINUS_HALF) {
                    THREE_QUARTERS
                } else if double_lt(value, HALF) {
                    ONE
                } else if double_lt(value, THREE_QUARTERS) {
                    TWO
                } else {
                    THREE
                }
            },
        }
    }

    /// The largest factor that `scale` can give, as a binary64 bit pattern.
    pub fn max_multiplier(&self) -> (r: u64)
        ensures
            r == self.max_multiplier_of(),
    {
        match self {
            WeirdScaledMapper::Tunnels => TWO,
            WeirdScaledMapper::Caves => THREE,
        }
    }

    /// The factor by which a weird-scaled sampler stretches the noise
    /// coordinates for the input `value`; `value` and the result are binary64
    /// bit patterns.
    pub fn scale(&self, value: u64) -> (r: u64)
        ensures
            r == self.scale_of(value),
            *self == WeirdScaledMapper::Tunnels ==> {
                &&& below_step(value, MINUS_HALF) ==> r == THREE_QUARTERS
                &&& in_steps(value, MINUS_HALF, ZERO) ==> r == ONE
                &&& in_steps(value, ZERO, HALF) ==> r == ONE_AND_A_HALF
                &&& from_step(value, HALF) ==> r == TWO
            },
            *self == WeirdScaledMapper::Caves ==> {
                &&& below_step(value, MINUS_THREE_QUARTERS) ==> r == HALF
                &&& in_steps(value, MINUS_THREE_QUARTERS, MINUS_HALF) ==> r
                    == THREE_QUARTERS
                &&& in_steps(value, MINUS_HALF, HALF) ==> r == ONE
                &&& in_steps(value, HALF, THREE_QUARTERS) ==> r == TWO
                &&& from_step(value, THREE_QUARTERS) ==> r == THREE
            },
    {
        match self {
            WeirdScaledMapper::Tunnels => {
                if less_than(value, MINUS_HALF) {
                    THREE_QUARTERS
                } else if less_than(value, ZERO) {
                    ONE
                } else if less_than(value, HALF) {
                    ONE_AND_A_HALF
                } else {
                    TWO
                }
            },
            WeirdScaledMapper::Caves => {
                if less_than(value, MINUS_THREE_QUARTERS) {
                    HALF
                } else if less_than(value, MINUS_HALF) {
                    THREE_QUARTERS
                } else if less_than(value, HALF) {
                    ONE
                } else if less_than(value, THREE_QUARTERS) {
                    TWO
                } else {
                    THREE
                }
            },
        }
    }
}

/// `value` lies in the step that starts at `lo` (included) and ends at `hi`
/// (excluded), compared as doubles.
pub open spec fn in_steps(value: u64, lo: u64, hi: u64) -> bool {
    &&& !double_is_nan(value)
    &&& order_key(lo) <= order_key(value)
    &&& order_key(value) < order_key(hi)
}

/// `value` lies before the step boundary `hi` (excluded), compared as doubles.
pub open spec fn below_step(value: u64, hi: u64) -> bool {
    !double_is_nan(value) && order_key(value) < order_key(hi)
}

/// `value` lies at or after the step boundary `lo`, or is a NaN (which
/// compares below nothing).
pub open spec fn from_step(value: u64, lo: u64) -> bool {
    double_is_nan(value) || order_key(lo) <= order_key(value)
}

/// The tunnels curve, step by step: `0.75` below `-0.5`, `1.0` from `-0.5`
/// up to (not including) `0.0`, `1.5` from `0.0` up to `0.5`, and `2.0` from
/// `0.5` on and for a NaN.
pub proof fn lemma_tunnels_steps(value: u64)
    ensures
        below_step(value, MINUS_HALF) ==> WeirdScaledMapper::Tunnels.scale_of(value)
            == THREE_QUARTERS,
        in_steps(value, MINUS_HALF, ZERO) ==> WeirdScaledMapper::Tunnels.scale_of(
            value,
        ) == ONE,
        in_steps(value, ZERO, HALF) ==> WeirdScaledMapper::Tunnels.scale_of(
            value,
        ) == ONE_AND_A_HALF,
        from_step(value, HALF) ==> WeirdScaledMapper::Tunnels.scale_of(
            value,
        ) == TWO,
{
}

/// The caves curve, step by step: `0.5` below `-0.75`, `0.75` from `-0.75` up
/// to (not including) `-0.5`, `1.0` from `-0.5` up to `0.5`, `2.0` from `0.5`
/// up to `0.75`, and `3.0` from `0.75` on and for a NaN.
pub proof fn lemma_caves_steps(value: u64)
    ensures
        below_step(value, MINUS_THREE_QUARTERS) ==> WeirdScaledMapper::Caves.scale_of(value)
            == HALF,
        in_steps(value, MINUS_THREE_QUARTERS, MINUS_HALF)
            ==> WeirdScaledMapper::Caves.scale_of(value) == THREE_QUARTERS,
        in_steps(value, MINUS_HALF, HALF) ==> WeirdScaledMapper::Caves.scale_of(
            value,
        ) == ONE,
        in_steps(value, HALF, THREE_QUARTERS)
            ==> WeirdScaledMapper::Caves.scale_of(value) == TWO,
        from_step(value, THREE_QUARTERS)
            ==> WeirdScaledMapper::Caves.scale_of(value) == THREE,
{
}

/// The factor of a mapper's curve never exceeds its maximum multiplier, for
/// every input, NaN included.
pub proof fn lemma_scale_at_most_max_multiplier(mapper: WeirdScaledMapper, value: u64)
    ensures
        double_le(mapper.scale_of(value), mapper.max_multiplier_of()),
{
}

/// The factor of a mapper's curve is never below one half, for every input,
/// NaN included.
pub proof fn lemma_scale_at_least_half(mapper: WeirdScaledMapper, value: u64)
    ensures
        double_le(HALF, mapper.scale_of(value)),
{
}

/// A mapper's curve is monotone: a larger (non-NaN) input never gives a
/// smaller factor.
pub proof fn lemma_scale_monotone(mapper: WeirdScaledMapper, a: u64, b: u64)
    requires
        double_le(a, b),
    ensures
        double_le(mapper.scale_of(a), mapper.scale_of(b)),
{
}

/// The operation that combines the two arguments of a binary component.
#[derive(Copy, Clone)]
pub enum BinaryOperation {
    Add,
    Mul,
    Min,
    Max,
}

/// The data of a binary component.
pub struct BinaryData {
    pub operation: BinaryOperation,
}

/// The operation that a linear component applies with its constant argument.
#[derive(Copy, Clone)]
pub enum LinearOperation {
    Add,
    Mul,
}

/// The operation that a unary component applies to its input.
#[derive(Copy, Clone)]
pub enum UnaryOperation {
    Abs,
    Square,
    Cube,
    HalfNegative,
    QuarterNegative,
    Squeeze,
    Invert,
}

/// The data of a unary component.
pub struct UnaryData {
    pub operation: UnaryOperation,
}

/// The bounds of a clamp component, as binary64 bit patterns.
pub struct ClampData {
    pub min_value: u64,
    pub max_value: u64,
}

impl ClampData {
    /// `density.clamp(min_value, max_value)`: the lower bound below it, the
    /// upper bound above it, and `density` itself otherwise (a NaN among
    /// them).
    pub open spec fn clamped(self, density: u64) -> u64 {
        if double_lt(density, self.min_value) {
            self.min_value
        } else if double_lt(self.max_value, density) {
            self.max_value
        } else {
            density
        }
    }

    /// Whether the bounds can be handed to `f64::clamp`, which panics on a
    /// NaN bound and on a lower bound above the upper one.
    pub open spec fn valid_bounds(self) -> bool {
        &&& !double_is_nan(self.min_value)
        &&& !double_is_nan(self.max_value)
        &&& double_le(self.min_value, self.max_value)
    }

    /// Clamps `density` (a binary64 bit pattern) to the bounds.
    pub fn apply_density(&self, density: u64) -> (r: u64)
        requires
            self.valid_bounds(),
        ensures
            r == self.clamped(density),
            double_lt(density, self.min_value) ==> r == self.min_value,
            double_lt(self.max_value, density) ==> r == self.max_value,
            double_le(self.min_value, density) && double_le(density, self.max_value) ==> r
                == density,
            double_is_nan(density) ==> r == density,
    {
        let mut x = density;
        if less_than(x, self.min_value) {
            x = self.min_value;
        }
        if less_than(self.max_value, x) {
            x = self.max_value;
        }
        x
    }
}

/// A density below the lower bound is clamped to the lower bound, and one
/// above the upper bound to the upper bound.
pub proof fn lemma_clamp_out_of_bounds(data: ClampData, density: u64)
    requires
        data.valid_bounds(),
    ensures
        double_lt(density, data.min_value) ==> data.clamped(density) == data.min_value,
        double_lt(data.max_value, density) ==> data.clamped(density) == data.max_value,
{
}

/// A clamped non-NaN density lies between the bounds, and clamping it again
/// changes nothing.
pub proof fn lemma_clamp_within_bounds(data: ClampData, density: u64)
    requires
        data.valid_bounds(),
        !double_is_nan(density),
    ensures
        double_le(data.min_value, data.clamped(density)),
        double_le(data.clamped(density), data.max_value),
        data.clamped(data.clamped(density)) == data.clamped(density),
{
}

/// A density between the bounds, or a NaN, comes out of a clamp unchanged.
pub proof fn lemma_clamp_keeps_values_in_bounds(data: ClampData, density: u64)
    requires
        data.valid_bounds(),
        double_is_nan(density) || (double_le(data.min_value, density) && double_le(
            density,
            data.max_value,
        )),
    ensures
        data.clamped(density) == density,
{
}

/// The caching or interpolation behaviour that a wrapper component adds
/// around its input.
#[derive(Copy, Clone)]
pub enum WrapperType {
    Interpolated,
    CacheFlat,
    Cache2D,
    CacheOnce,
    CellCache,
}

} // verus!
