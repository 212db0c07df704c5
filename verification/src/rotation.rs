//! The spin of the mesh about its vertical axis.
//!
//! The mesh turns at a constant rate: the angle is `(pi / 45) * t * 2` for
//! `t` seconds since start, one full turn every 45 seconds.

use vstd::prelude::*;
use vstd::arithmetic::div_mod::{lemma_fundamental_div_mod, lemma_fundamental_div_mod_converse};
use crate::ratio::Rational;

verus! {

/// The number of nanoseconds in a second.
pub const SECOND_NANOS: u64 = 1_000_000_000;

/// The time one full turn takes, in nanoseconds: 45 seconds.
pub const TURN_NANOS: u64 = 45_000_000_000;

/// The angle after `elapsed_nanos`, as a multiple of pi: `(1 / 45) * t * 2`
/// with `t` in seconds.
pub open spec fn angle_over_pi(elapsed_nanos: nat) -> Rational {
    Rational { num: 2 * (elapsed_nanos as int), den: TURN_NANOS as int }
}

/// The number of full turns completed after `elapsed_nanos`.
pub open spec fn turns_after(elapsed_nanos: nat) -> nat {
    elapsed_nanos / (TURN_NANOS as nat)
}

/// The time since the last full turn was completed.
pub open spec fn phase_after(elapsed_nanos: nat) -> nat {
    elapsed_nanos % (TURN_NANOS as nat)
}

/// An angle split into full turns and the rest.
#[derive(Clone, Copy, Debug, PartialEq, Eq, Structural)]
pub struct Rotation {
    /// The number of full turns completed.
    pub turns: u128,
    /// The time into the current turn, less than `TURN_NANOS`. The angle
    /// within the turn is `2 * pi * phase_nanos / TURN_NANOS`.
    pub phase_nanos: u64,
}

/// The rotation reached `elapsed_nanos` after start.
pub fn rotation(elapsed_nanos: u128) -> (rotation: Rotation)
    ensures
        rotation.turns == turns_after(elapsed_nanos as nat),
        rotation.phase_nanos == phase_after(elapsed_nanos as nat),
        rotation.phase_nanos < TURN_NANOS,
        rotation.turns * TURN_NANOS + rotation.phase_nanos == elapsed_nanos,
{
    let turns: u128 = elapsed_nanos / (TURN_NANOS as u128);
    let phase: u128 = elapsed_nanos % (TURN_NANOS as u128);
    proof {
        lemma_fundamental_div_mod(elapsed_nanos as int, TURN_NANOS as int);
    }
    Rotation { turns, phase_nanos: phase as u64 }
}

/// The angle is 0 at the start and two pi, one full turn, after 45 seconds.
pub proof fn lemma_angle_at_start_and_after_one_turn()
    ensures
        angle_over_pi(0).same(Rational::whole(0)),
        angle_over_pi((45 * SECOND_NANOS) as nat).same(Rational::whole(2)),
        turns_after(0) == 0 && phase_after(0) == 0,
        turns_after((45 * SECOND_NANOS) as nat) == 1 && phase_after((45 * SECOND_NANOS) as nat)
            == 0,
{
}

/// Every 45 seconds the angle grows by two pi: one more full turn, and the
/// same place within the turn.
pub proof fn lemma_full_turn_every_period(elapsed_nanos: nat)
    ensures
        angle_over_pi(elapsed_nanos + TURN_NANOS as nat).minus(angle_over_pi(elapsed_nanos)).same(
            Rational::whole(2),
        ),
        turns_after(elapsed_nanos + TURN_NANOS as nat) == turns_after(elapsed_nanos) + 1,
        phase_after(elapsed_nanos + TURN_NANOS as nat) == phase_after(elapsed_nanos),
{
    let period = TURN_NANOS as int;
    let t = elapsed_nanos as int;
    lemma_fundamental_div_mod(t, period);
    assert(t + period == (t / period + 1) * period + t % period) by (nonlinear_arith)
        requires
            t == period * (t / period) + t % period,
    ;
    lemma_fundamental_div_mod_converse(t + period, period, t / period + 1, t % period);
    assert((2 * (t + period) * period - 2 * t * period) * 1 == 2 * (period * period))
        by (nonlinear_arith);
}

/// The angle within the turn and the count of full turns make up the angle.
pub proof fn lemma_rotation_is_angle(elapsed_nanos: nat)
    ensures
        angle_over_pi(elapsed_nanos).same(
            Rational::whole(2 * (turns_after(elapsed_nanos) as int)).plus(
                angle_over_pi(phase_after(elapsed_nanos)),
            ),
        ),
        Rational::whole(0).le(angle_over_pi(phase_after(elapsed_nanos))),
        angle_over_pi(phase_after(elapsed_nanos)).lt(Rational::whole(2)),
{
    let period = TURN_NANOS as int;
    let t = elapsed_nanos as int;
    let q = t / period;
    let r = t % period;
    lemma_fundamental_div_mod(t, period);
    assert((2 * t) * (1 * period) == (2 * q * period + 2 * r * 1) * period) by (nonlinear_arith)
        requires
            t == period * q + r,
    ;
}

} // verus!
