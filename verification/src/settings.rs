//! The scaling settings record and its per-axis / per-source selection rules.
//!
//! A scale value is stored as the IEEE-754 bit pattern of the configured
//! number. The record only selects among the stored patterns; it never
//! interprets them numerically.

use vstd::prelude::*;

verus! {

/// Bit pattern of the number one: the default base scale and the neutral
/// per-source multiplier.
pub const DEFAULT_SCALE_BITS: u64 = 0x3FF0000000000000;

/// Axis identifier for vertical scrolling.
pub const AXIS_SCROLL_VERTICAL: i32 = 0;
/// Axis identifier for horizontal scrolling.
pub const AXIS_SCROLL_HORIZONTAL: i32 = 1;

/// Axis-source identifier for a scroll wheel.
pub const SOURCE_WHEEL: i32 = 0;
/// Axis-source identifier for touchpad fingers.
pub const SOURCE_FINGER: i32 = 1;
/// Axis-source identifier for continuous (trackpoint-like) motion.
pub const SOURCE_CONTINUOUS: i32 = 2;
/// Axis-source identifier for a tilting scroll wheel.
pub const SOURCE_WHEEL_TILT: i32 = 3;

/// Immutable scaling configuration, resolved once per process.
///
/// Every field holds the bit pattern of a configured scale value; the
/// optional fields are absent where the corresponding value was not
/// configured (or failed to parse, which is treated the same way).
#[derive(Clone, Copy, Debug, PartialEq, Eq)]
pub struct Settings {
    /// Base scale, applied to both scroll axes unless overridden.
    pub scale: u64,
    /// Per-axis override for horizontal scrolling.
    pub scale_x: Option<u64>,
    /// Per-axis override for vertical scrolling.
    pub scale_y: Option<u64>,
    /// Per-source multiplier for wheel scrolling.
    pub scale_wheel: Option<u64>,
    /// Per-source multiplier for finger scrolling.
    pub scale_finger: Option<u64>,
    /// Per-source multiplier for continuous scrolling and wheel tilt.
    pub scale_continuous: Option<u64>,
}

/// The settings record determined by the optional configuration inputs.
pub open spec fn spec_settings(
    scale: Option<u64>,
    scale_x: Option<u64>,
    scale_y: Option<u64>,
    scale_wheel: Option<u64>,
    scale_finger: Option<u64>,
    scale_continuous: Option<u64>,
) -> Settings {
    Settings {
        scale: match scale {
            Some(bits) => bits,
            None => DEFAULT_SCALE_BITS,
        },
        scale_x,
        scale_y,
        scale_wheel,
        scale_finger,
        scale_continuous,
    }
}

/// Whether an axis identifier names one of the two recognized scroll axes.
pub open spec fn is_scroll_axis(axis: i32) -> bool {
    axis == AXIS_SCROLL_VERTICAL || axis == AXIS_SCROLL_HORIZONTAL
}

/// The per-axis base factor: the axis override where one is configured,
/// otherwise the base scale.
pub open spec fn spec_axis_base(s: Settings, axis: i32) -> u64 {
    if axis == AXIS_SCROLL_HORIZONTAL {
        match s.scale_x {
            Some(bits) => bits,
            None => s.scale,
        }
    } else if axis == AXIS_SCROLL_VERTICAL {
        match s.scale_y {
            Some(bits) => bits,
            None => s.scale,
        }
    } else {
        s.scale
    }
}

/// The per-source multiplier: the configured multiplier for a recognized
/// source, otherwise neutral (one).
pub open spec fn spec_source_mul(s: Settings, source: i32) -> u64 {
    if source == SOURCE_WHEEL {
        match s.scale_wheel {
            Some(bits) => bits,
            None => DEFAULT_SCALE_BITS,
        }
    } else if source == SOURCE_FINGER {
        match s.scale_finger {
            Some(bits) => bits,
            None => DEFAULT_SCALE_BITS,
        }
    } else if source == SOURCE_CONTINUOUS || source == SOURCE_WHEEL_TILT {
        match s.scale_continuous {
            Some(bits) => bits,
            None => DEFAULT_SCALE_BITS,
        }
    } else {
        DEFAULT_SCALE_BITS
    }
}

impl Settings {
    /// Builds the settings record from the optional configuration inputs.
    ///
    /// A missing base scale falls back to one; missing overrides stay
    /// absent, so selection falls through to the base scale (per axis) or
    /// to the neutral multiplier (per source).
    pub fn new(
        scale: Option<u64>,
        scale_x: Option<u64>,
        scale_y: Option<u64>,
        scale_wheel: Option<u64>,
        scale_finger: Option<u64>,
        scale_continuous: Option<u64>,
    ) -> (s: Settings)
        ensures
            s == spec_settings(scale, scale_x, scale_y, scale_wheel, scale_finger,
                scale_continuous),
    {
        Settings {
            scale: match scale {
                Some(bits) => bits,
                None => DEFAULT_SCALE_BITS,
            },
            scale_x,
            scale_y,
            scale_wheel,
            scale_finger,
            scale_continuous,
        }
    }

    /// The factor tied to the axis itself: the per-axis override where one
    /// is configured, the base scale everywhere else.
    pub fn axis_base(&self, axis: i32) -> (bits: u64)
        ensures
            bits == spec_axis_base(*self, axis),
    {
        if axis == AXIS_SCROLL_HORIZONTAL {
            match self.scale_x {
                Some(bits) => bits,
                None => self.scale,
            }
        } else if axis == AXIS_SCROLL_VERTICAL {
            match self.scale_y {
                Some(bits) => bits,
                None => self.scale,
            }
        } else {
            self.scale
        }
    }

    /// The multiplier tied to the axis source: the configured per-source
    /// multiplier for a recognized source, neutral for every other source.
    pub fn source_mul(&self, source: i32) -> (bits: u64)
        ensures
            bits == spec_source_mul(*self, source),
    {
        if source == SOURCE_WHEEL {
            match self.scale_wheel {
                Some(bits) => bits,
                None => DEFAULT_SCALE_BITS,
            }
        } else if source == SOURCE_FINGER {
            match self.scale_finger {
                Some(bits) => bits,
                None => DEFAULT_SCALE_BITS,
            }
        } else if source == SOURCE_CONTINUOUS || source == SOURCE_WHEEL_TILT {
            match self.scale_continuous {
                Some(bits) => bits,
                None => DEFAULT_SCALE_BITS,
            }
        } else {
            DEFAULT_SCALE_BITS
        }
    }
}

/// Resolving the configuration is idempotent: the same configuration inputs
/// determine one settings record, bit for bit, so two resolutions in one
/// process cannot disagree.
pub proof fn lemma_settings_resolution_idempotent(
    first: Settings,
    second: Settings,
    scale: Option<u64>,
    scale_x: Option<u64>,
    scale_y: Option<u64>,
    scale_wheel: Option<u64>,
    scale_finger: Option<u64>,
    scale_continuous: Option<u64>,
)
    requires
        first == spec_settings(scale, scale_x, scale_y, scale_wheel, scale_finger,
            scale_continuous),
        second == spec_settings(scale, scale_x, scale_y, scale_wheel, scale_finger,
            scale_continuous),
    ensures
        first == second,
{
}

} // verus!
