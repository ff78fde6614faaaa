//! Trampoline selection for the intercepted entry points.
//!
//! Each intercepted entry point prefers the genuine implementation of its
//! own name and falls back along a fixed chain when that symbol is absent.
//! The primary value query has no fallback: its absence is fatal, because no
//! safe substitute value exists for it.

use vstd::prelude::*;

verus! {

/// The four intercepted entry points.
#[derive(Clone, Copy, Debug, PartialEq, Eq)]
pub enum Hook {
    /// The primary axis-value query.
    AxisValue,
    /// The version-suffixed axis-value query.
    AxisValueV120,
    /// The alternate scroll-value query.
    ScrollValue,
    /// The version-suffixed alternate scroll-value query.
    ScrollValueV120,
}

/// One resolved genuine implementation a hook may call through.
#[derive(Clone, Copy, Debug, PartialEq, Eq, Structural)]
pub enum Trampoline {
    /// The primary axis-value query (always present once startup succeeds).
    Primary,
    /// The version-suffixed axis-value query.
    V120,
    /// The alternate scroll-value query.
    Scroll,
    /// The version-suffixed alternate scroll-value query.
    ScrollV120,
}

/// Which of the optional genuine symbols resolved. The primary symbol is
/// not listed: without it the process never gets this far.
#[derive(Clone, Copy, Debug, PartialEq, Eq)]
pub struct SlotPresence {
    /// The version-suffixed axis-value query resolved.
    pub v120: bool,
    /// The alternate scroll-value query resolved.
    pub scroll: bool,
    /// The version-suffixed alternate scroll-value query resolved.
    pub scroll_v120: bool,
}

/// The trampoline an entry point calls through: its own symbol where
/// present, else the first present symbol of its fallback chain, ending at
/// the primary query.
pub open spec fn spec_select_trampoline(hook: Hook, p: SlotPresence) -> Trampoline {
    match hook {
        Hook::AxisValue => Trampoline::Primary,
        Hook::AxisValueV120 => if p.v120 {
            Trampoline::V120
        } else {
            Trampoline::Primary
        },
        Hook::ScrollValue => if p.scroll {
            Trampoline::Scroll
        } else {
            Trampoline::Primary
        },
        Hook::ScrollValueV120 => if p.scroll_v120 {
            Trampoline::ScrollV120
        } else if p.scroll {
            Trampoline::Scroll
        } else {
            Trampoline::Primary
        },
    }
}

/// Picks the genuine implementation an intercepted entry point calls
/// through, preferring its own symbol and falling back along its chain.
pub fn select_trampoline(hook: Hook, p: &SlotPresence) -> (t: Trampoline)
    ensures
        t == spec_select_trampoline(hook, *p),
{
    match hook {
        Hook::AxisValue => Trampoline::Primary,
        Hook::AxisValueV120 => if p.v120 {
            Trampoline::V120
        } else {
            Trampoline::Primary
        },
        Hook::ScrollValue => if p.scroll {
            Trampoline::Scroll
        } else {
            Trampoline::Primary
        },
        Hook::ScrollValueV120 => if p.scroll_v120 {
            Trampoline::ScrollV120
        } else if p.scroll {
            Trampoline::Scroll
        } else {
            Trampoline::Primary
        },
    }
}

/// What startup does once resolution of the primary symbol has finished.
#[derive(Clone, Copy, Debug, PartialEq, Eq)]
pub enum StartupOutcome {
    /// The primary symbol resolved: keep its address and serve calls.
    Proceed {
        /// Address of the genuine primary implementation.
        addr: usize,
    },
    /// The primary symbol is absent: the process must terminate before any
    /// intercepted call returns a value.
    AbortProcess,
}

/// Decides the fate of the process after resolving the mandatory primary
/// symbol: proceed with its address, or abort because no safe fallback
/// value exists for the primary query.
///
/// This is the single decision point for the fatal condition, so its
/// abort verdict can be examined without terminating anything.
pub fn primary_resolution_outcome(resolved: Option<usize>) -> (o: StartupOutcome)
    ensures
        resolved matches Some(addr) ==> o == (StartupOutcome::Proceed { addr }),
        resolved is None ==> o == StartupOutcome::AbortProcess,
{
    match resolved {
        Some(addr) => StartupOutcome::Proceed { addr },
        None => StartupOutcome::AbortProcess,
    }
}

} // verus!
