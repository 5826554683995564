//! The entity spawner's schedule: a time accumulator and a spawn
//! threshold that starts at 30 seconds and shrinks by the factor 0.95
//! (here `* 95 / 100` on milliseconds) each time a letter spawns, with no
//! floor.

use vstd::prelude::*;

use crate::SPAWN_TIME_MS;

verus! {

/// The spawn threshold in force after `k` letters have spawned since the
/// last restart: 30 seconds decayed `k` times by the factor 0.95.
pub open spec fn spawn_interval(k: nat) -> int
    decreases k,
{
    if k == 0 {
        SPAWN_TIME_MS as int
    } else {
        spawn_interval((k - 1) as nat) * 95 / 100
    }
}

/// One decay step keeps the threshold within `[0, previous]`.
pub proof fn lemma_decay_step(t: int)
    requires
        t >= 0,
    ensures
        0 <= t * 95 / 100 <= t,
{
    assert(0 <= t * 95 / 100 <= t) by (nonlinear_arith)
        requires
            t >= 0,
    ;
}

/// The spawn threshold never leaves `[0, SPAWN_TIME_MS]` and never
/// increases from one spawn to the next.
pub proof fn lemma_interval_bounds(k: nat)
    ensures
        0 <= spawn_interval(k) <= SPAWN_TIME_MS,
        spawn_interval(k + 1) <= spawn_interval(k),
    decreases k,
{
    if k == 0 {
        lemma_decay_step(SPAWN_TIME_MS as int);
    } else {
        lemma_interval_bounds((k - 1) as nat);
        lemma_decay_step(spawn_interval(k));
    }
}

/// The accumulator and spawn count after the spawner catches up: while
/// the accumulated time exceeds the positive threshold, one letter spawns,
/// the threshold's worth of time is consumed, and the threshold decays.
/// Returns the remaining accumulated time and the new spawn count.
pub open spec fn drain(acc: int, k: nat) -> (int, nat)
    decreases acc,
{
    if acc > spawn_interval(k) && spawn_interval(k) > 0 {
        drain(acc - spawn_interval(k), k + 1)
    } else {
        (acc, k)
    }
}

/// Catching up never loses spawns and leaves the accumulator at or below
/// its starting value and nonnegative whenever it started nonnegative.
pub proof fn lemma_drain_bounds(acc: int, k: nat)
    requires
        acc >= 0,
    ensures
        drain(acc, k).1 >= k,
        0 <= drain(acc, k).0 <= acc,
        spawn_interval(drain(acc, k).1) <= spawn_interval(k),
        drain(acc, k).0 <= spawn_interval(drain(acc, k).1) || spawn_interval(drain(acc, k).1)
            <= 0,
    decreases acc,
{
    lemma_interval_bounds(k);
    if acc > spawn_interval(k) && spawn_interval(k) > 0 {
        lemma_drain_bounds(acc - spawn_interval(k), k + 1);
    }
}

} // verus!
