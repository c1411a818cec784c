//! Laws of cascades of two and three stages that share one gain, as the two- and
//! three-pole filters run them: each step feeds the input to the first stage and each
//! stage's new output to the next.
use vstd::prelude::*;
use crate::gain::GAIN_ONE;
use crate::pole::{between, dist, lemma_pole_step_approaches, monus, pole_next};

verus! {

/// The outputs `(first, second)` of a two-stage cascade after one step.
pub open spec fn cascade2_next(s1: int, s: int, x: int, k: int) -> (int, int) {
    let n1 = pole_next(s1, x, k);
    (n1, pole_next(s, n1, k))
}

/// The outputs `(first, second, third)` of a three-stage cascade after one step.
pub open spec fn cascade3_next(s1: int, s2: int, s: int, x: int, k: int) -> (int, int, int) {
    let n1 = pole_next(s1, x, k);
    let n2 = pole_next(s2, n1, k);
    (n1, n2, pole_next(s, n2, k))
}

/// The outputs of a two-stage cascade after `n` steps with the constant input `x`.
pub open spec fn cascade2_run(s1: int, s: int, x: int, k: int, n: nat) -> (int, int)
    decreases n,
{
    if n == 0 {
        (s1, s)
    } else {
        let p = cascade2_run(s1, s, x, k, (n - 1) as nat);
        cascade2_next(p.0, p.1, x, k)
    }
}

/// The outputs of a three-stage cascade after `n` steps with the constant input `x`.
pub open spec fn cascade3_run(s1: int, s2: int, s: int, x: int, k: int, n: nat) -> (
    int,
    int,
    int,
)
    decreases n,
{
    if n == 0 {
        (s1, s2, s)
    } else {
        let p = cascade3_run(s1, s2, s, x, k, (n - 1) as nat);
        cascade3_next(p.0, p.1, p.2, x, k)
    }
}

/// One step of a two-stage cascade whose stages lie in order between its output and
/// the input `x` (as they do from rest): the order is kept, no stage passes `x`, the
/// summed distance to `x` does not grow, and it shrinks while the output differs from
/// `x` and the gain is positive. A cascade that rests at `x` stays there.
pub proof fn lemma_cascade2_step(s1: int, s: int, x: int, k: int)
    requires
        0 <= k <= GAIN_ONE,
        between(s, s1, x),
    ensures
        ({
            let (n1, n) = cascade2_next(s1, s, x, k);
            &&& between(n, n1, x)
            &&& between(s1, n1, x)
            &&& between(s, n, x)
            &&& dist(x, n1) + dist(x, n) <= dist(x, s1) + dist(x, s)
            &&& (k > 0 && s != x ==> dist(x, n1) + dist(x, n) < dist(x, s1) + dist(x, s))
            &&& (s1 == x && s == x ==> n1 == x && n == x)
        }),
{
    let n1 = pole_next(s1, x, k);
    lemma_pole_step_approaches(s1, x, k);
    lemma_pole_step_approaches(s, n1, k);
}

/// One step of a three-stage cascade whose stages lie in order between its output and
/// the input `x`: as for two stages.
pub proof fn lemma_cascade3_step(s1: int, s2: int, s: int, x: int, k: int)
    requires
        0 <= k <= GAIN_ONE,
        between(s2, s1, x),
        between(s, s2, x),
    ensures
        ({
            let (n1, n2, n) = cascade3_next(s1, s2, s, x, k);
            &&& between(n2, n1, x)
            &&& between(n, n2, x)
            &&& between(s1, n1, x)
            &&& between(s2, n2, x)
            &&& between(s, n, x)
            &&& dist(x, n1) + dist(x, n2) + dist(x, n) <= dist(x, s1) + dist(x, s2) + dist(x, s)
            &&& (k > 0 && s != x ==> dist(x, n1) + dist(x, n2) + dist(x, n) < dist(x, s1) + dist(
                x,
                s2,
            ) + dist(x, s))
            &&& (s1 == x && s2 == x && s == x ==> n1 == x && n2 == x && n == x)
        }),
{
    let n1 = pole_next(s1, x, k);
    let n2 = pole_next(s2, n1, k);
    lemma_pole_step_approaches(s1, x, k);
    lemma_pole_step_approaches(s2, n1, k);
    lemma_pole_step_approaches(s, n2, k);
}

/// Step response of a two-stage cascade started with its stages in order (as from
/// rest): fed a constant input, the output moves towards it monotonically and never
/// passes it, and with a positive gain both stages reach it after at most twice as
/// many steps as the output's initial distance.
pub proof fn lemma_cascade2_step_response(s1: int, s: int, x: int, k: int, n: nat)
    requires
        0 <= k <= GAIN_ONE,
        between(s, s1, x),
    ensures
        ({
            let (r1, r) = cascade2_run(s1, s, x, k, n);
            &&& between(r, r1, x)
            &&& between(s, r, x)
            &&& between(r, cascade2_run(s1, s, x, k, n + 1).1, x)
            &&& (k > 0 ==> dist(x, r1) + dist(x, r) <= monus(dist(x, s1) + dist(x, s), n))
            &&& (k > 0 && n >= 2 * dist(x, s) ==> r1 == x && r == x)
        }),
    decreases n,
{
    let (r1, r) = cascade2_run(s1, s, x, k, n);
    if n > 0 {
        let (p1, p) = cascade2_run(s1, s, x, k, (n - 1) as nat);
        lemma_cascade2_step_response(s1, s, x, k, (n - 1) as nat);
        lemma_cascade2_step(p1, p, x, k);
    }
    lemma_cascade2_step(r1, r, x, k);
}

/// Step response of a three-stage cascade started with its stages in order (as from
/// rest): fed a constant input, the output moves towards it monotonically and never
/// passes it, and with a positive gain all stages reach it after at most three times
/// as many steps as the output's initial distance.
pub proof fn lemma_cascade3_step_response(s1: int, s2: int, s: int, x: int, k: int, n: nat)
    requires
        0 <= k <= GAIN_ONE,
        between(s2, s1, x),
        between(s, s2, x),
    ensures
        ({
            let (r1, r2, r) = cascade3_run(s1, s2, s, x, k, n);
            &&& between(r2, r1, x)
            &&& between(r, r2, x)
            &&& between(s, r, x)
            &&& between(r, cascade3_run(s1, s2, s, x, k, n + 1).2, x)
            &&& (k > 0 ==> dist(x, r1) + dist(x, r2) + dist(x, r) <= monus(
                dist(x, s1) + dist(x, s2) + dist(x, s),
                n,
            ))
            &&& (k > 0 && n >= 3 * dist(x, s) ==> r1 == x && r2 == x && r == x)
        }),
    decreases n,
{
    let (r1, r2, r) = cascade3_run(s1, s2, s, x, k, n);
    if n > 0 {
        let (p1, p2, p) = cascade3_run(s1, s2, s, x, k, (n - 1) as nat);
        lemma_cascade3_step_response(s1, s2, s, x, k, (n - 1) as nat);
        lemma_cascade3_step(p1, p2, p, x, k);
    }
    lemma_cascade3_step(r1, r2, r, x, k);
}

} // verus!
