//! The triangular thread profile as a function of helix phase.
//!
//! Phase is counted in whole units of which `turn` make one full turn, and a
//! height is counted in the same units: a height of `turn` is the crest, a
//! height of 0 the root.

use vstd::prelude::*;
use vstd::arithmetic::div_mod::{lemma_fundamental_div_mod, lemma_mod_multiples_vanish, lemma_mod_bound, lemma_small_mod};

verus! {

/// One period of a symmetric triangular wave: with `x` the position within
/// the turn, the height is `2x` on the first half turn and `2(1 - x)` on the
/// second.
pub open spec fn profile(phase: int, turn: int) -> int {
    let x = phase % turn;
    if 2 * x < turn {
        2 * x
    } else {
        2 * (turn - x)
    }
}

/// Height of the thread profile at `phase`, out of `turn`. The phase may lie
/// any number of turns before or after the start.
pub fn tri_profile(phase: i64, turn: u64) -> (h: u64)
    requires
        turn > 0,
    ensures
        h == profile(phase as int, turn as int),
        h <= turn,
{
    let x: u64 = if phase >= 0 {
        (phase as u64) % turn
    } else {
        // As far before the start as `back + 1` units.
        let back: u64 = (-(phase + 1)) as u64;
        let over: u64 = back % turn;
        proof {
            let whole = (back as int) / (turn as int);
            lemma_fundamental_div_mod(back as int, turn as int);
            assert(phase as int == (turn - 1 - over) + (-(whole + 1)) * turn) by (nonlinear_arith)
                requires
                    back == turn * whole + over,
                    phase == -(back + 1),
            ;
            lemma_mod_multiples_vanish(-(whole + 1), turn - 1 - over, turn as int);
            assert(turn * (-(whole + 1)) + (turn - 1 - over) == (turn - 1 - over) + (-(whole + 1))
                * turn) by (nonlinear_arith);
            lemma_small_mod((turn - 1 - over) as nat, turn as nat);
        }
        turn - 1 - over
    };
    if x < turn - x {
        2 * x
    } else {
        2 * (turn - x)
    }
}

/// The profile repeats with every full turn, forwards and backwards.
pub proof fn profile_is_periodic(phase: int, turn: int, turns: int)
    requires
        turn > 0,
    ensures
        profile(phase + turns * turn, turn) == profile(phase, turn),
{
    lemma_mod_multiples_vanish(turns, phase, turn);
    assert(turn * turns + phase == phase + turns * turn) by (nonlinear_arith);
}

/// The height never leaves the band between root and crest.
pub proof fn profile_is_bounded(phase: int, turn: int)
    requires
        turn > 0,
    ensures
        0 <= profile(phase, turn) <= turn,
{
    lemma_mod_bound(phase, turn);
}

/// The profile is at the root at phase 0 and again after one full turn.
pub proof fn profile_starts_at_root(turn: int)
    requires
        turn > 0,
    ensures
        profile(0, turn) == 0,
        profile(turn, turn) == profile(0, turn),
{
    lemma_small_mod(0, turn as nat);
    profile_is_periodic(0, turn, 1);
}

/// Half a turn on, the profile is at the crest.
pub proof fn profile_peaks_at_half_turn(turn: int)
    requires
        turn > 0,
        turn % 2 == 0,
    ensures
        profile(turn / 2, turn) == turn,
{
    lemma_small_mod((turn / 2) as nat, turn as nat);
}

/// One unit of phase changes the height by at most two units, so the profile
/// has no jump anywhere, the seam between two turns included.
pub proof fn profile_is_continuous(phase: int, turn: int)
    requires
        turn > 0,
    ensures
        -2 <= profile(phase + 1, turn) - profile(phase, turn) <= 2,
{
    let x = phase % turn;
    lemma_mod_bound(phase, turn);
    lemma_fundamental_div_mod(phase, turn);
    let q = phase / turn;
    if x + 1 < turn {
        assert(phase + 1 == (x + 1) + q * turn) by (nonlinear_arith)
            requires
                phase == turn * q + x,
        ;
        lemma_mod_multiples_vanish(q, x + 1, turn);
        assert(turn * q + (x + 1) == (x + 1) + q * turn) by (nonlinear_arith);
        lemma_small_mod((x + 1) as nat, turn as nat);
        assert((phase + 1) % turn == x + 1);
    } else {
        assert(phase + 1 == turn * (q + 1) + 0) by (nonlinear_arith)
            requires
                phase == turn * q + x,
                x + 1 == turn,
        ;
        lemma_mod_multiples_vanish(q + 1, 0, turn);
        lemma_small_mod(0, turn as nat);
        assert((phase + 1) % turn == 0);
    }
}

/// Within either half of a turn the profile is a straight line: it rises by
/// two units per unit of phase up to the crest and falls by two after it.
pub proof fn profile_is_piecewise_linear(phase: int, turn: int)
    requires
        turn > 0,
        0 <= phase,
        phase + 1 < turn,
    ensures
        2 * (phase + 1) < turn ==> profile(phase + 1, turn) - profile(phase, turn) == 2,
        turn <= 2 * phase ==> profile(phase + 1, turn) - profile(phase, turn) == -2,
{
    lemma_small_mod(phase as nat, turn as nat);
    lemma_small_mod((phase + 1) as nat, turn as nat);
}

} // verus!
