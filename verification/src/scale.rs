//! The scale engine: the per-call decisions of an intercepted entry point.
//!
//! An intercepted call always obtains the genuine value first; these
//! functions then decide whether that value passes through unchanged and,
//! when it does not, which two factors make up the scale. The factors are
//! bit patterns selected from the settings; multiplying them, and comparing
//! the product against one, is floating-point work left to the unverified
//! shell, which reports the outcome back to [`final_value`].

use vstd::prelude::*;

use crate::settings::Settings;
use crate::settings::is_scroll_axis;
use crate::settings::spec_axis_base;
use crate::settings::spec_source_mul;
use crate::settings::DEFAULT_SCALE_BITS;

verus! {

/// The two factors whose product is the scale of one intercepted call.
#[derive(Clone, Copy, Debug, PartialEq, Eq)]
pub struct ScaleFactors {
    /// Per-axis base factor.
    pub axis_factor: u64,
    /// Per-source multiplier; neutral (one) where no source is known.
    pub source_factor: u64,
}

/// Whether a call proceeds to scaling at all: only when scaling is not
/// disabled and the axis is one of the two recognized scroll axes.
pub open spec fn spec_should_scale(disable: bool, axis: i32) -> bool {
    !disable && is_scroll_axis(axis)
}

/// The per-source multiplier of a call, neutral where the axis source could
/// not be queried.
pub open spec fn spec_source_mul_opt(s: Settings, source: Option<i32>) -> u64 {
    match source {
        Some(code) => spec_source_mul(s, code),
        None => DEFAULT_SCALE_BITS,
    }
}

/// The factors of a call: the axis base and the per-source multiplier.
pub open spec fn spec_scale_factors(s: Settings, axis: i32, source: Option<i32>) -> ScaleFactors {
    ScaleFactors {
        axis_factor: spec_axis_base(s, axis),
        source_factor: spec_source_mul_opt(s, source),
    }
}

/// The value an intercepted call returns, once the shell has multiplied the
/// genuine value by the scale: the scaled value, except that a scale within
/// tolerance of one keeps the genuine value, bit for bit.
pub open spec fn spec_final_value(orig_bits: u64, scaled_bits: u64, scale_near_one: bool) -> u64 {
    if scale_near_one {
        orig_bits
    } else {
        scaled_bits
    }
}

/// Decides whether an intercepted call attempts scaling.
///
/// Only when this returns `true` does the entry point query the axis source
/// and compute a scale; otherwise the genuine value passes through.
pub fn should_scale(disable: bool, axis: i32) -> (b: bool)
    ensures
        b == spec_should_scale(disable, axis),
        disable ==> !b,
        !is_scroll_axis(axis) ==> !b,
{
    !disable && (axis == crate::settings::AXIS_SCROLL_VERTICAL
        || axis == crate::settings::AXIS_SCROLL_HORIZONTAL)
}

/// Selects the two factors of a call's scale: the axis base (override or
/// base scale) and the per-source multiplier (configured or neutral; also
/// neutral where the source query was unavailable).
pub fn scale_factors(s: &Settings, axis: i32, source: Option<i32>) -> (f: ScaleFactors)
    ensures
        f == spec_scale_factors(*s, axis, source),
        f.axis_factor == spec_axis_base(*s, axis),
        f.source_factor == spec_source_mul_opt(*s, source),
{
    let axis_factor = s.axis_base(axis);
    let source_factor = match source {
        Some(code) => s.source_mul(code),
        None => DEFAULT_SCALE_BITS,
    };
    ScaleFactors { axis_factor, source_factor }
}

/// Chooses the value an intercepted call returns after the shell has
/// computed the scaled value and compared the scale against one.
///
/// A scale within tolerance of one is treated as a no-op: the genuine value
/// comes back bit for bit, so no floating-point drift is introduced.
pub fn final_value(orig_bits: u64, scaled_bits: u64, scale_near_one: bool) -> (r: u64)
    ensures
        r == spec_final_value(orig_bits, scaled_bits, scale_near_one),
        scale_near_one ==> r == orig_bits,
        !scale_near_one ==> r == scaled_bits,
{
    if scale_near_one {
        orig_bits
    } else {
        scaled_bits
    }
}

/// For every configuration and every source, a call on an axis outside the
/// two recognized scroll axes never scales: the genuine value passes
/// through exactly.
pub proof fn lemma_pass_through_unrecognized_axis(disable: bool, axis: i32)
    requires
        !is_scroll_axis(axis),
    ensures
        !spec_should_scale(disable, axis),
{
}

/// For every axis and every source, a call under an active disable flag
/// never scales: the genuine value passes through exactly.
pub proof fn lemma_pass_through_disabled(axis: i32)
    ensures
        !spec_should_scale(true, axis),
{
}

/// Whenever the computed scale lies within tolerance of one, the call
/// returns the genuine value bit for bit, whatever the scaled value was.
pub proof fn lemma_near_one_keeps_genuine_value(orig_bits: u64, scaled_bits: u64)
    ensures
        spec_final_value(orig_bits, scaled_bits, true) == orig_bits,
{
}

} // verus!
