//! The time axis of a simulation run.

use vstd::prelude::*;

verus! {

/// The time-step indices of a run of `n_steps` steps, in order:
/// `0, 1, ..., n_steps - 1`.
///
/// The sample times of a run are these indices scaled by the time step
/// `dt`, so every per-step computation walks this sequence.
pub fn step_indices(n_steps: u8) -> (r: Vec<u8>)
    ensures
        r@.len() == n_steps as int,
        forall|i: int| 0 <= i < r@.len() ==> r@[i] as int == i,
{
    let mut v: Vec<u8> = Vec::new();
    let mut s: u8 = 0;
    while s < n_steps
        invariant
            s <= n_steps,
            v@.len() == s as int,
            forall|i: int| 0 <= i < v@.len() ==> v@[i] as int == i,
        decreases n_steps as int - s as int,
    {
        v.push(s);
        s = s + 1;
    }
    v
}

} // verus!
