//! Angular motion along an orbit: advancing a position by one tick, and
//! the laws of repeated advancement (zero elapsed time changes nothing;
//! whole revolutions return to the start).

use vstd::prelude::*;
use vstd::arithmetic::div_mod::{lemma_add_mod_noop, lemma_small_mod};
use vstd::arithmetic::mul::{lemma_mul_is_distributive_add_other_way, lemma_mul_nonnegative};

use crate::units::TWO_PI_MILLI;

verus! {

/// The position reached from `position` after time `dt` at `speed`
/// milli-radians per tick, normalized into `[0, TWO_PI_MILLI)`.
pub open spec fn advanced_position(position: int, speed: int, dt: int) -> int {
    (position + speed * dt) % (TWO_PI_MILLI as int)
}

/// The position reached after `ticks` advancements of `dt` each.
pub open spec fn advanced_many(position: int, speed: int, dt: int, ticks: nat) -> int
    decreases ticks,
{
    if ticks == 0 {
        position
    } else {
        advanced_position(advanced_many(position, speed, dt, (ticks - 1) as nat), speed, dt)
    }
}

/// Advance an orbit position by one tick of length `dt`.
pub fn advance_position(position: u64, speed: u64, dt: u64) -> (advanced: u64)
    requires
        position < TWO_PI_MILLI,
        speed <= TWO_PI_MILLI,
    ensures
        advanced == advanced_position(position as int, speed as int, dt as int),
        advanced < TWO_PI_MILLI,
{
    proof {
        assert((speed as int) * (dt as int) <= 6283 * (u64::MAX as int)
            && 0 <= (speed as int) * (dt as int)) by (nonlinear_arith)
            requires
                speed <= 6283,
                dt <= u64::MAX;
    }
    let travelled: u128 = (speed as u128) * (dt as u128);
    let raw: u128 = (position as u128) + travelled;
    (raw % (TWO_PI_MILLI as u128)) as u64
}

/// A tick of zero elapsed time leaves a normalized position unchanged.
pub proof fn lemma_advance_zero_dt(position: int, speed: int)
    requires
        0 <= position < TWO_PI_MILLI,
    ensures
        advanced_position(position, speed, 0) == position,
{
    lemma_small_mod(position as nat, TWO_PI_MILLI as nat);
}

/// Repeated advancement accumulates: `ticks` steps of `dt` land on the
/// single normalized displacement `ticks * speed * dt`.
pub proof fn lemma_advance_accumulates(position: int, speed: int, dt: int, ticks: nat)
    requires
        0 <= position < TWO_PI_MILLI,
        0 <= speed,
        0 <= dt,
    ensures
        advanced_many(position, speed, dt, ticks) == (position + ticks * (speed * dt)) % (
        TWO_PI_MILLI as int),
    decreases ticks,
{
    let turn = TWO_PI_MILLI as int;
    lemma_mul_nonnegative(speed, dt);
    if ticks == 0 {
        lemma_small_mod(position as nat, TWO_PI_MILLI as nat);
        assert(0 * (speed * dt) == 0);
    } else {
        let rest = (ticks - 1) as nat;
        lemma_advance_accumulates(position, speed, dt, rest);
        let base = position + rest * (speed * dt);
        lemma_mul_nonnegative(rest as int, speed * dt);
        lemma_add_mod_noop(base, speed * dt, turn);
        lemma_small_mod(((speed * dt) % turn) as nat, TWO_PI_MILLI as nat);
        assert((base % turn + (speed * dt) % turn) % turn == (base + speed * dt) % turn);
        assert((base % turn) % turn == base % turn) by {
            lemma_small_mod((base % turn) as nat, TWO_PI_MILLI as nat);
        }
        assert(advanced_many(position, speed, dt, ticks) == (base % turn + speed * dt) % turn)
            by {
            lemma_add_mod_noop(base % turn, speed * dt, turn);
        }
        assert(base + speed * dt == position + ticks * (speed * dt)) by {
            lemma_mul_is_distributive_add_other_way(speed * dt, rest as int, 1);
        }
        lemma_add_mod_noop(base, speed * dt, turn);
    }
}

/// Whole revolutions return to the start: if the total displacement of
/// `ticks` steps is a multiple of a full turn, the position is unchanged.
pub proof fn lemma_advance_whole_revolutions(position: int, speed: int, dt: int, ticks: nat)
    requires
        0 <= position < TWO_PI_MILLI,
        0 <= speed,
        0 <= dt,
        (ticks * (speed * dt)) % (TWO_PI_MILLI as int) == 0,
    ensures
        advanced_many(position, speed, dt, ticks) == position,
{
    let turn = TWO_PI_MILLI as int;
    lemma_advance_accumulates(position, speed, dt, ticks);
    lemma_mul_nonnegative(ticks as int, speed * dt);
    lemma_add_mod_noop(position, ticks * (speed * dt), turn);
    lemma_small_mod(position as nat, TWO_PI_MILLI as nat);
    assert((position + 0) % turn == position % turn);
    lemma_small_mod((position % turn) as nat, TWO_PI_MILLI as nat);
}

} // verus!
