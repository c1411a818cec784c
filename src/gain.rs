//! The per-step gain of a cascade stage, derived from the cutoff frequency,
//! the sample period and the number of cascaded stages.
use vstd::arithmetic::div_mod::lemma_fundamental_div_mod;
use vstd::arithmetic::div_mod::lemma_fundamental_div_mod_converse;
use vstd::prelude::*;

verus! {

/// The gain that admits the whole error each step (`k == 1`).
pub const GAIN_ONE: u32 = 16_777_216;

/// Scale of the cutoff correction constants: a correction `c` is held as `floor(c * 10^9)`.
pub const CORRECTION_SCALE: u64 = 1_000_000_000;

/// `2 * pi`, scaled by `10^9` and rounded down.
pub const TWO_PI_E9: u64 = 6_283_185_307;

/// Product of the three scales in `2*pi*c*f*dt`: that of `2*pi`, that of the
/// correction, and millihertz times microseconds (`10^-9` of a cycle).
pub const OMEGA_SCALE: u128 = 1_000_000_000_000_000_000_000_000_000;

/// Why a filter could not be built or retuned.
#[derive(PartialEq, Eq, Structural, Debug, Clone, Copy)]
pub enum FilterError {
    /// The cutoff frequency or the sample period was zero.
    InvalidParameter,
}

/// The cutoff correction of a cascade of `order` identical stages, `1 / sqrt(2^(1/order) - 1)`,
/// scaled by [`CORRECTION_SCALE`] and rounded down. With it the cascade's -3 dB point
/// lands on the requested cutoff; a single stage needs none.
pub open spec fn correction_e9(order: int) -> int {
    if order == 1 {
        1_000_000_000
    } else if order == 2 {
        1_553_773_974
    } else {
        1_961_459_176
    }
}

/// `b` raised to the power `e`.
pub open spec fn power(b: int, e: nat) -> int
    decreases e,
{
    if e == 0 {
        1
    } else {
        b * power(b, (e - 1) as nat)
    }
}

/// `2*pi*c*f*dt` scaled by [`OMEGA_SCALE`]: the normalized angular cutoff of one stage.
pub open spec fn omega_scaled(order: int, cutoff_mhz: int, dt_us: int) -> int {
    TWO_PI_E9 * correction_e9(order) * cutoff_mhz * dt_us
}

/// The gain `k = dt / (rc + dt)` with `rc = 1 / (2*pi*c*f)`, that is
/// `omega / (1 + omega)`, as a fraction of [`GAIN_ONE`] rounded down.
pub open spec fn stage_gain(order: int, cutoff_mhz: int, dt_us: int) -> int {
    let w = omega_scaled(order, cutoff_mhz, dt_us);
    (GAIN_ONE * w) / (w + OMEGA_SCALE)
}

/// Whether a cutoff and a sample period can configure a filter.
pub open spec fn valid_params(cutoff_mhz: int, dt_us: int) -> bool {
    cutoff_mhz > 0 && dt_us > 0
}

/// The correction constants are exact: `correction_e9(n)` is `floor(10^9 * c)` for the
/// `c > 0` with `c == 1 / sqrt(2^(1/n) - 1)`, that is `(1 + 1/c^2)^n == 2`. As
/// `(1 + 1/c^2)^n` falls as `c` grows, `C = correction_e9(n)` is that floor exactly
/// when `(C^2 + S^2)^n >= 2 * C^(2n)` and `((C+1)^2 + S^2)^n < 2 * (C+1)^(2n)`, with
/// `S == 10^9`. For a single stage the correction is exactly one.
pub proof fn lemma_correction_is_floor(n: nat)
    requires
        1 <= n <= 3,
    ensures
        ({
            let c = correction_e9(n as int);
            let s = CORRECTION_SCALE as int;
            &&& power(c * c + s * s, n) >= 2 * power(c * c, n)
            &&& power((c + 1) * (c + 1) + s * s, n) < 2 * power((c + 1) * (c + 1), n)
        }),
        n == 1 ==> correction_e9(n as int) == CORRECTION_SCALE,
{
    let s = CORRECTION_SCALE as int;
    let c = correction_e9(n as int);
    let lo = c * c + s * s;
    let hi = (c + 1) * (c + 1) + s * s;
    let c2 = c * c;
    let d2 = (c + 1) * (c + 1);
    lemma_power_small(lo, n);
    lemma_power_small(hi, n);
    lemma_power_small(c2, n);
    lemma_power_small(d2, n);
    if n == 1 {
        assert(lo >= 2 * c2 && hi < 2 * d2) by (nonlinear_arith)
            requires
                c == 1_000_000_000,
                s == 1_000_000_000,
                lo == c * c + s * s,
                hi == (c + 1) * (c + 1) + s * s,
                c2 == c * c,
                d2 == (c + 1) * (c + 1),
        ;
    } else if n == 2 {
        assert(lo * lo >= 2 * (c2 * c2) && hi * hi < 2 * (d2 * d2)) by (nonlinear_arith)
            requires
                c == 1_553_773_974,
                s == 1_000_000_000,
                lo == c * c + s * s,
                hi == (c + 1) * (c + 1) + s * s,
                c2 == c * c,
                d2 == (c + 1) * (c + 1),
        ;
    } else {
        assert(lo * lo * lo >= 2 * (c2 * c2 * c2) && hi * hi * hi < 2 * (d2 * d2 * d2)) by (nonlinear_arith)
            requires
                c == 1_961_459_176,
                s == 1_000_000_000,
                lo == c * c + s * s,
                hi == (c + 1) * (c + 1) + s * s,
                c2 == c * c,
                d2 == (c + 1) * (c + 1),
        ;
    }
}

proof fn lemma_power_small(b: int, n: nat)
    requires
        1 <= n <= 3,
    ensures
        n == 1 ==> power(b, n) == b,
        n == 2 ==> power(b, n) == b * b,
        n == 3 ==> power(b, n) == b * b * b,
{
    reveal_with_fuel(power, 4);
    assert(b * (b * 1) == b * b) by (nonlinear_arith);
    assert(b * (b * (b * 1)) == b * b * b) by (nonlinear_arith);
}

/// `floor(one * a / (a + b))` computed as `one - ceil(one * b / (a + b))`.
proof fn lemma_gain_complement(one: int, a: int, b: int)
    requires
        one >= 0,
        a >= 0,
        b > 0,
    ensures
        (one * a) / (a + b) == one - (one * b + a + b - 1) / (a + b),
        0 <= (one * a) / (a + b) <= one,
{
    let d = a + b;
    let x = one * b + d - 1;
    let r = x / d;
    lemma_fundamental_div_mod(x, d);
    let m = x % d;
    assert(r * d == x - m);
    assert(one * a == (one - r) * d + (r * d - one * b)) by (nonlinear_arith)
        requires
            d == a + b,
    ;
    lemma_fundamental_div_mod_converse(one * a, d, one - r, r * d - one * b);
    assert(0 <= one * a) by (nonlinear_arith)
        requires
            one >= 0,
            a >= 0,
    ;
    assert(one * a <= one * d) by (nonlinear_arith)
        requires
            one >= 0,
            d == a + b,
            b > 0,
    ;
    let q = one - r;
    let m2 = r * d - one * b;
    assert(0 <= q <= one) by (nonlinear_arith)
        requires
            q * d + m2 == one * a,
            0 <= m2 < d,
            0 <= one * a <= one * d,
            d > 0,
    ;
}

/// The gain is a fraction between nothing and the whole error: `0 <= k <= 1` for
/// every valid cutoff and sample period and every cascade order.
pub proof fn lemma_gain_in_unit_range(order: int, cutoff_mhz: int, dt_us: int)
    requires
        1 <= order <= 3,
        valid_params(cutoff_mhz, dt_us),
    ensures
        0 <= stage_gain(order, cutoff_mhz, dt_us) <= GAIN_ONE,
{
    let w = omega_scaled(order, cutoff_mhz, dt_us);
    assert(w >= 0) by (nonlinear_arith)
        requires
            w == TWO_PI_E9 * correction_e9(order) * cutoff_mhz * dt_us,
            correction_e9(order) > 0,
            cutoff_mhz > 0,
            dt_us > 0,
    ;
    lemma_gain_complement(GAIN_ONE as int, w, OMEGA_SCALE as int);
}

/// The scaled correction constant of a cascade of `order` stages.
fn correction(order: u8) -> (r: u64)
    requires
        1 <= order <= 3,
    ensures
        r == correction_e9(order as int),
{
    if order == 1 {
        1_000_000_000
    } else if order == 2 {
        1_553_773_974
    } else {
        1_961_459_176
    }
}

/// The per-step gain of each stage of a cascade of `order` stages with cutoff
/// `cutoff_mhz` millihertz, sampled every `dt_us` microseconds. A zero cutoff or
/// period is refused.
pub fn filter_gain(order: u8, cutoff_mhz: u32, dt_us: u32) -> (r: Result<u32, FilterError>)
    requires
        1 <= order <= 3,
    ensures
        r == (if valid_params(cutoff_mhz as int, dt_us as int) {
            Ok::<u32, FilterError>(stage_gain(order as int, cutoff_mhz as int, dt_us as int) as u32)
        } else {
            Err::<u32, FilterError>(FilterError::InvalidParameter)
        }),
        r matches Ok(k) ==> 0 <= k <= GAIN_ONE,
{
    if cutoff_mhz == 0 || dt_us == 0 {
        return Err(FilterError::InvalidParameter);
    }
    let c = correction(order);
    let cf: u128 = (TWO_PI_E9 as u128) * (c as u128);
    assert(cf <= 6_283_185_307 * 1_961_459_176) by (nonlinear_arith)
        requires
            cf == TWO_PI_E9 * c,
            c <= 1_961_459_176,
    ;
    assert(cf * cutoff_mhz <= 6_283_185_307 * 1_961_459_176 * 0xffff_ffff) by (nonlinear_arith)
        requires
            cf <= 6_283_185_307 * 1_961_459_176,
            cutoff_mhz <= 0xffff_ffff,
    ;
    let cfd: u128 = cf * (cutoff_mhz as u128);
    assert(cfd * dt_us <= 6_283_185_307 * 1_961_459_176 * 0xffff_ffff * 0xffff_ffff)
        by (nonlinear_arith)
        requires
            cfd <= 6_283_185_307 * 1_961_459_176 * 0xffff_ffff,
            dt_us <= 0xffff_ffff,
    ;
    let w: u128 = cfd * (dt_us as u128);
    assert(w == omega_scaled(order as int, cutoff_mhz as int, dt_us as int));
    let d: u128 = w + OMEGA_SCALE;
    let up: u128 = ((GAIN_ONE as u128) * OMEGA_SCALE + d - 1) / d;
    proof {
        lemma_gain_complement(GAIN_ONE as int, w as int, OMEGA_SCALE as int);
    }
    Ok(GAIN_ONE - up as u32)
}

} // verus!
