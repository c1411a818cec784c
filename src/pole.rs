//! One first-order stage: `state' = state + k * (input - state)`.
//!
//! The admitted part of the error is rounded away from zero (towards the input), so a
//! stage with a positive gain never stalls short of a constant input, and since it
//! admits at most the whole error it never passes it.
use vstd::arithmetic::div_mod::lemma_div_is_ordered;
use vstd::arithmetic::div_mod::lemma_fundamental_div_mod_converse;
use vstd::prelude::*;
use crate::gain::GAIN_ONE;

verus! {

/// `a / b` rounded up, for `a >= 0` and `b > 0`.
pub open spec fn ceil_div(a: int, b: int) -> int {
    (a + b - 1) / b
}

/// The part of an error `e >= 0` that a gain `k` (a fraction of [`GAIN_ONE`]) admits.
pub open spec fn admitted(k: int, e: int) -> int {
    ceil_div(k * e, GAIN_ONE as int)
}

/// The state of a stage after one step from `state` towards `input` with gain `k`.
pub open spec fn pole_next(state: int, input: int, k: int) -> int {
    if input >= state {
        state + admitted(k, input - state)
    } else {
        state - admitted(k, state - input)
    }
}

/// `b` lies between `a` and `c`, inclusive, in either order.
pub open spec fn between(a: int, b: int, c: int) -> bool {
    (a <= b && b <= c) || (c <= b && b <= a)
}

/// The distance between two values.
pub open spec fn dist(a: int, b: int) -> int {
    if a >= b {
        a - b
    } else {
        b - a
    }
}

/// `m - n`, or zero where `n` exceeds `m`.
pub open spec fn monus(m: int, n: nat) -> int {
    if m >= n {
        m - n
    } else {
        0
    }
}

/// A gain admits none of the error, or part of it, or all of it; a positive gain
/// admits at least one unit of a nonzero error.
pub proof fn lemma_admitted_bounds(k: int, e: int)
    requires
        0 <= k <= GAIN_ONE,
        e >= 0,
    ensures
        0 <= admitted(k, e) <= e,
        k > 0 && e > 0 ==> admitted(k, e) >= 1,
        k == 0 ==> admitted(k, e) == 0,
{
    let one = GAIN_ONE as int;
    assert(0 <= k * e <= one * e) by (nonlinear_arith)
        requires
            0 <= k <= one,
            e >= 0,
    ;
    lemma_div_is_ordered(k * e + one - 1, one * e + one - 1, one);
    lemma_fundamental_div_mod_converse(one * e + one - 1, one, e, one - 1);
    lemma_div_is_ordered(one - 1, k * e + one - 1, one);
    lemma_fundamental_div_mod_converse(one - 1, one, 0, one - 1);
    if k > 0 && e > 0 {
        assert(k * e >= 1) by (nonlinear_arith)
            requires
                k >= 1,
                e >= 1,
        ;
        lemma_div_is_ordered(one, k * e + one - 1, one);
        lemma_fundamental_div_mod_converse(one, one, 1, 0);
    }
    if k == 0 {
        assert(k * e == 0);
    }
}

/// One step never passes the input: the new state lies between the old state and
/// the input, no farther from the input than before, and strictly nearer when the
/// gain is positive and the state is not yet the input.
pub proof fn lemma_pole_step_approaches(state: int, input: int, k: int)
    requires
        0 <= k <= GAIN_ONE,
    ensures
        between(state, pole_next(state, input, k), input),
        dist(input, pole_next(state, input, k)) <= dist(input, state),
        k > 0 && state != input ==> dist(input, pole_next(state, input, k)) < dist(input, state),
{
    if input >= state {
        lemma_admitted_bounds(k, input - state);
    } else {
        lemma_admitted_bounds(k, state - input);
    }
}

/// A stage that has reached its input stays there; in particular a stage at rest
/// fed with zero returns zero on every step.
pub proof fn lemma_zero_is_fixed(k: int)
    requires
        0 <= k <= GAIN_ONE,
    ensures
        pole_next(0, 0, k) == 0,
        forall|x: int| pole_next(x, x, k) == x,
{
    assert forall|x: int| pole_next(x, x, k) == x by {
        lemma_admitted_bounds(k, 0);
    }
}

/// The state of a stage after `n` steps with the constant input `input`.
pub open spec fn pole_run(state: int, input: int, k: int, n: nat) -> int
    decreases n,
{
    if n == 0 {
        state
    } else {
        pole_next(pole_run(state, input, k, (n - 1) as nat), input, k)
    }
}

/// Step response: fed a constant input, a stage moves towards it monotonically
/// without passing it, and with a positive gain it reaches the input after at
/// most as many steps as the initial distance, and stays there.
pub proof fn lemma_pole_step_response(state: int, input: int, k: int, n: nat)
    requires
        0 <= k <= GAIN_ONE,
    ensures
        between(state, pole_run(state, input, k, n), input),
        between(pole_run(state, input, k, n), pole_run(state, input, k, n + 1), input),
        k > 0 ==> dist(input, pole_run(state, input, k, n)) <= monus(dist(input, state), n),
        k > 0 && n >= dist(input, state) ==> pole_run(state, input, k, n) == input,
    decreases n,
{
    let cur = pole_run(state, input, k, n);
    lemma_pole_step_approaches(cur, input, k);
    if n > 0 {
        let prev = pole_run(state, input, k, (n - 1) as nat);
        lemma_pole_step_response(state, input, k, (n - 1) as nat);
        lemma_pole_step_approaches(prev, input, k);
    }
}

/// One step of a stage, computed without overflow.
pub fn pole_step(state: i32, input: i32, k: u32) -> (r: i32)
    requires
        k <= GAIN_ONE,
    ensures
        r == pole_next(state as int, input as int, k as int),
{
    proof {
        lemma_pole_step_approaches(state as int, input as int, k as int);
    }
    if input >= state {
        let e: u64 = (input as i64 - state as i64) as u64;
        assert(k * e <= GAIN_ONE * e) by (nonlinear_arith)
            requires
                k <= GAIN_ONE,
        ;
        let a: u64 = (k as u64 * e + (GAIN_ONE as u64 - 1)) / GAIN_ONE as u64;
        (state as i64 + a as i64) as i32
    } else {
        let e: u64 = (state as i64 - input as i64) as u64;
        assert(k * e <= GAIN_ONE * e) by (nonlinear_arith)
            requires
                k <= GAIN_ONE,
        ;
        let a: u64 = (k as u64 * e + (GAIN_ONE as u64 - 1)) / GAIN_ONE as u64;
        (state as i64 - a as i64) as i32
    }
}

} // verus!
