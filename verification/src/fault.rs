//! Fault injection for the open and close transitions.
//!
//! Each transition draws a simulated fault with a fixed, very low
//! probability. The probability source is a pluggable policy, so callers
//! can disable faults or force them deterministically.

use rand::Rng;
use vstd::prelude::*;

verus! {

/// Decides whether a simulated fault fires on a state transition.
#[derive(Debug, Clone, Copy, PartialEq, Eq, Structural)]
pub enum FaultPolicy {
    /// Faults never fire: every transition succeeds.
    Never,
    /// Faults always fire: every transition fails.
    Always,
    /// A fault fires with probability `1/n`, drawn independently per call.
    OneIn(u32),
}

impl FaultPolicy {
    /// A policy is well formed when its denominator is at least one;
    /// a draw with denominator zero is meaningless.
    pub open spec fn wf(self) -> bool {
        match self {
            FaultPolicy::OneIn(n) => n >= 1,
            _ => true,
        }
    }
}

/// Relies on rand's `thread_rng` and `Rng::gen_ratio`: returns true with
/// probability `1/denominator`. Nothing can be promised of a single random
/// draw, except that `gen_ratio` documents a guaranteed `true` when the
/// numerator equals the denominator. `gen_ratio` panics when the numerator
/// exceeds the denominator, so a zero denominator is excluded.
#[verifier::external_body]
fn one_in(denominator: u32) -> (fires: bool)
    requires
        denominator >= 1,
    ensures
        denominator == 1 ==> fires,
{
    rand::thread_rng().gen_ratio(1, denominator)
}

/// Draws one fault decision under the given policy.
///
/// `Never` and `Always` are deterministic; `OneIn` may come out either way.
pub fn fault_fires(policy: &FaultPolicy) -> (fires: bool)
    requires
        policy.wf(),
    ensures
        *policy is Never ==> !fires,
        *policy is Always ==> fires,
        *policy == FaultPolicy::OneIn(1u32) ==> fires,
{
    match policy {
        FaultPolicy::Never => false,
        FaultPolicy::Always => true,
        FaultPolicy::OneIn(n) => one_in(*n),
    }
}

} // verus!
