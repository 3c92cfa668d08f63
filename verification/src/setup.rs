//! The one-time setup of the engine.
//!
//! The engine's tables are loaded by a setup call that must run once, before
//! the first evaluation. A flag, false when the process starts, records that
//! the call has been claimed. Callers hold a lock while they consult the flag
//! and, where it tells them to, run the setup; so the consultations of a
//! process form one sequence, and this module says what each of them answers.

use vstd::prelude::*;

verus! {

/// Whether a consultation that finds the flag as `initialized` has to run the
/// setup.
pub open spec fn setup_due(initialized: bool) -> bool {
    !initialized
}

/// Consults the flag: tells whether the engine's setup is due, and leaves the
/// flag set, so that no later consultation finds it due again.
pub fn claim_setup(initialized: &mut bool) -> (due: bool)
    ensures
        due == setup_due(*old(initialized)),
        *final(initialized),
{
    let due: bool = !*initialized;
    *initialized = true;
    due
}

/// How many of `calls` consecutive consultations find the setup due, from a
/// flag that starts as `initialized`.
pub open spec fn setups_due(initialized: bool, calls: nat) -> nat
    decreases calls,
{
    if calls == 0 {
        0
    } else {
        let first: nat = if setup_due(initialized) { 1 } else { 0 };
        first + setups_due(true, (calls - 1) as nat)
    }
}

/// Over any number of consultations the setup is due exactly once when the
/// flag starts false, and never when it starts true. As the flag is set from
/// the first consultation on, the one that finds the setup due is the first.
pub proof fn lemma_setup_due_once(calls: nat)
    ensures
        setups_due(true, calls) == 0,
        setups_due(false, calls) == (if calls == 0 { 0nat } else { 1nat }),
    decreases calls,
{
    if calls > 0 {
        lemma_setup_due_once((calls - 1) as nat);
    }
}

} // verus!
