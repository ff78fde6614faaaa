//! The symbol-lookup strategy: ordered fallback, first success wins.
//!
//! A genuine symbol is searched for in two stages: first by asking the
//! dynamic loader for the next definition visible past this module, then by
//! explicitly loading the target library under a fixed, ordered list of
//! versioned names. The loader calls themselves are outside work; this
//! module fixes the order of attempts as a step-by-step plan, which the
//! unverified shell drives by performing one lookup per step and feeding
//! the outcome back into [`lookup_advance`].

use vstd::prelude::*;

verus! {

/// One step of the symbol search.
#[derive(Clone, Copy, Debug, PartialEq, Eq)]
pub enum LookupStep {
    /// Ask the dynamic loader for the next definition of the symbol,
    /// skipping this module's own export.
    TryNext,
    /// Load the library name at this position of the candidate list and
    /// look the symbol up in it.
    TryCandidate {
        /// Position in the candidate list.
        idx: usize,
    },
    /// The search ended at a genuine implementation.
    Resolved {
        /// Address the symbol resolved to.
        addr: usize,
    },
    /// Every stage failed: the symbol is absent.
    NotFound,
}

/// The step after `step`, given the outcome of the lookup that `step` asked
/// for: a found address ends the search at once; a failure moves on to the
/// next candidate, or to `NotFound` past the last one.
pub open spec fn spec_lookup_advance(
    step: LookupStep,
    outcome: Option<usize>,
    num_candidates: usize,
) -> LookupStep {
    match outcome {
        Some(addr) => LookupStep::Resolved { addr },
        None => match step {
            LookupStep::TryNext => if num_candidates > 0 {
                LookupStep::TryCandidate { idx: 0 }
            } else {
                LookupStep::NotFound
            },
            LookupStep::TryCandidate { idx } => if idx + 1 < num_candidates {
                LookupStep::TryCandidate { idx: (idx + 1) as usize }
            } else {
                LookupStep::NotFound
            },
            _ => step,
        },
    }
}

/// The first step of every symbol search: the skip-self loader query.
pub fn lookup_start() -> (s: LookupStep)
    ensures
        s == LookupStep::TryNext,
{
    LookupStep::TryNext
}

/// Advances the symbol search by one step.
///
/// `outcome` is what the lookup that `step` asked for returned: the address
/// found, or nothing. A found address resolves the search immediately; a
/// failed skip-self query falls back to the first library candidate; a
/// failed candidate moves to the next, and past the last the search ends
/// unresolved.
pub fn lookup_advance(step: LookupStep, outcome: Option<usize>, num_candidates: usize) -> (n:
    LookupStep)
    requires
        step is TryNext || step is TryCandidate,
        step matches LookupStep::TryCandidate { idx } ==> idx < num_candidates,
    ensures
        n == spec_lookup_advance(step, outcome, num_candidates),
        outcome matches Some(addr) ==> n == (LookupStep::Resolved { addr }),
        n is TryCandidate ==> n->idx < num_candidates,
{
    match outcome {
        Some(addr) => LookupStep::Resolved { addr },
        None => match step {
            LookupStep::TryNext => if num_candidates > 0 {
                LookupStep::TryCandidate { idx: 0 }
            } else {
                LookupStep::NotFound
            },
            LookupStep::TryCandidate { idx } => if idx < num_candidates - 1 {
                LookupStep::TryCandidate { idx: idx + 1 }
            } else {
                LookupStep::NotFound
            },
            _ => step,
        },
    }
}

/// The ordered library names the second stage tries: most recent versioned
/// name first, the unversioned name last.
pub fn soname_candidates() -> (names: Vec<&'static str>)
    ensures
        names@.len() == 4,
        names@[0]@ == "libinput.so.10"@,
        names@[1]@ == "libinput.so.9"@,
        names@[2]@ == "libinput.so.8"@,
        names@[3]@ == "libinput.so"@,
{
    let mut names: Vec<&'static str> = Vec::new();
    names.push("libinput.so.10");
    names.push("libinput.so.9");
    names.push("libinput.so.8");
    names.push("libinput.so");
    names
}

} // verus!
