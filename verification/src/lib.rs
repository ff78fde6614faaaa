//! Verified core of a scroll-scaling interposer for a pointer-input library.
//!
//! The library holds the pure decision logic of the interposer: resolving the
//! scaling settings, classifying axes and axis sources, selecting the scale
//! factors for a call, choosing which genuine entry point to call through,
//! and driving the symbol-lookup fallback. Scale values are carried as the
//! IEEE-754 bit patterns of the configured numbers (`u64`), which this crate
//! selects but never does arithmetic on; the thin unverified shell performs
//! the floating-point multiplications, the dynamic-loader calls and the
//! diagnostics.

use vstd::prelude::*;

pub mod flags;
pub mod hooks;
pub mod lookup;
pub mod scale;
pub mod settings;

pub use flags::is_truthy;
pub use hooks::Hook;
pub use hooks::SlotPresence;
pub use hooks::StartupOutcome;
pub use hooks::Trampoline;
pub use hooks::primary_resolution_outcome;
pub use hooks::select_trampoline;
pub use lookup::LookupStep;
pub use lookup::lookup_advance;
pub use lookup::lookup_start;
pub use lookup::soname_candidates;
pub use scale::ScaleFactors;
pub use scale::final_value;
pub use scale::scale_factors;
pub use scale::should_scale;
pub use settings::Settings;
pub use settings::AXIS_SCROLL_HORIZONTAL;
pub use settings::AXIS_SCROLL_VERTICAL;
pub use settings::DEFAULT_SCALE_BITS;
pub use settings::SOURCE_CONTINUOUS;
pub use settings::SOURCE_FINGER;
pub use settings::SOURCE_WHEEL;
pub use settings::SOURCE_WHEEL_TILT;

verus! {

/// Opaque handle to a pointer event of the underlying input library.
///
/// Intercepted entry points receive such a handle and pass it through to the
/// genuine implementation untouched; nothing in the scaling logic reads it.
#[allow(non_camel_case_types)]
pub struct libinput_event_pointer {
    _priv: [u8; 0],
}

} // verus!
