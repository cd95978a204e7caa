//! The animation of controls.
//!
//! A control animates between two states in [`CONTROL_DURATION_NANOS`] along
//! the CSS curve `cubic-bezier(0.2, 0, 0.2, 1)`. Time is a count of
//! nanoseconds since a fixed instant; progress is a fixed-point number in
//! units of `2^-39`, so [`PROGRESS_ONE`] stands for `1.0`.
//!
//! In a [`ControlAnimation`], a change of value starts a transition at its
//! instant, from where a running transition has got to; a transition runs
//! for the duration; the progress shown is the eased share of the way from
//! where the transition started to where it heads.
use vstd::prelude::*;

verus! {

/// How long a control takes to animate, in nanoseconds (150 ms).
pub const CONTROL_DURATION_NANOS: u64 = 150_000_000u64;

/// Progress `1.0`: progress is counted in units of `2^-39`.
pub const PROGRESS_ONE: u64 = 0x80_0000_0000u64;

/// How far a pressed control moves down and right: bits of `1.0f32` pixels.
pub const PRESS_TRANSLATE: u32 = 0x3f80_0000u32;

/// The curve's parameter `t` is searched in units of `2^-13`; this is `1.0`.
pub const CURVE_STEPS: u64 = 8192u64;

/// How many times the search halves its interval.
pub const SEARCH_ROUNDS: u64 = 12u64;

/// `5 * 2^39 * x(t)` for `t = step / 2^13`, where
/// `x(t) = 3 (1 - t)^2 t * 0.2 + 3 (1 - t) t^2 * 0.2 + t^3 = 0.6 t (1 - t) + t^3`
/// is the horizontal coordinate of the curve.
pub open spec fn curve_x_scaled(step: int) -> int {
    3 * step * (8192 - step) * 8192 + 5 * step * step * step
}

/// Whether the curve at `t = step / 2^13` is left of `x = num / den`.
pub open spec fn left_of(step: int, num: int, den: int) -> bool {
    den * curve_x_scaled(step) < num * (5 * PROGRESS_ONE)
}

/// The bisection on `[low, high]` (in units of `2^-13`) that looks for the
/// parameter `t` where the curve reaches `x = num / den`, after `rounds`
/// more halvings: the midpoint of the last interval.
pub open spec fn bisect(num: int, den: int, low: int, high: int, rounds: nat) -> int
    decreases rounds,
{
    if rounds == 0 {
        (low + high) / 2
    } else {
        let mid = (low + high) / 2;
        if left_of(mid, num, den) {
            bisect(num, den, mid, high, (rounds - 1) as nat)
        } else {
            bisect(num, den, low, mid, (rounds - 1) as nat)
        }
    }
}

/// `t^2 (3 - 2 t)` for `t = step / 2^13`, in units of `2^-39`.
pub open spec fn smoothstep_scaled(step: int) -> int {
    step * step * (3 * 8192 - 2 * step)
}

/// The control easing of `x = num / den`, in units of `2^-39`: the curve's
/// parameter found by twelve halvings of `[0, 1]`, smoothed by `t^2 (3 - 2 t)`.
pub open spec fn control_ease(num: int, den: int) -> int {
    smoothstep_scaled(bisect(num, den, 0, 8192, 12))
}

proof fn lemma_curve_bound(step: int)
    requires
        0 <= step <= 8192,
    ensures
        0 <= curve_x_scaled(step) <= 5 * PROGRESS_ONE,
{
    assert(0 <= 3 * step * (8192 - step) * 8192) by (nonlinear_arith)
        requires
            0 <= step <= 8192,
    ;
    assert(3 * step * (8192 - step) * 8192 + 5 * step * step * step <= 5 * 0x80_0000_0000int) by (nonlinear_arith)
        requires
            0 <= step <= 8192,
    ;
    assert(0 <= 5 * step * step * step) by (nonlinear_arith)
        requires
            0 <= step,
    ;
}

proof fn lemma_smoothstep_bound(step: int)
    requires
        0 <= step <= 8192,
    ensures
        0 <= smoothstep_scaled(step) <= PROGRESS_ONE,
{
    assert(0 <= step * step * (3 * 8192 - 2 * step)) by (nonlinear_arith)
        requires
            0 <= step <= 8192,
    ;
    assert(step * step * (3 * 8192 - 2 * step) <= 0x80_0000_0000int) by (nonlinear_arith)
        requires
            0 <= step <= 8192,
    ;
}

/// The search stays inside the interval it starts from.
proof fn lemma_bisect_range(num: int, den: int, low: int, high: int, rounds: nat)
    requires
        0 <= low <= high,
    ensures
        low <= bisect(num, den, low, high, rounds) <= high,
    decreases rounds,
{
    if rounds > 0 {
        let mid = (low + high) / 2;
        lemma_bisect_range(num, den, mid, high, (rounds - 1) as nat);
        lemma_bisect_range(num, den, low, mid, (rounds - 1) as nat);
    }
}

/// The control easing: CSS `cubic-bezier(0.2, 0, 0.2, 1)`, evaluated by
/// inverting `x(t)`, of `x = num / den`, in units of `2^-39`. Any `x` above
/// `1` eases as `1` does.
pub fn control_ease_out(num: u64, den: u64) -> (eased: u64)
    requires
        0 < den,
    ensures
        eased == control_ease(num as int, den as int),
        eased <= PROGRESS_ONE,
{
    let mut low: u64 = 0;
    let mut high: u64 = CURVE_STEPS;
    let mut round: u64 = 0;
    while round < SEARCH_ROUNDS
        invariant
            0 < den,
            round <= SEARCH_ROUNDS,
            low <= high <= CURVE_STEPS,
            bisect(num as int, den as int, 0, 8192, 12) == bisect(
                num as int,
                den as int,
                low as int,
                high as int,
                (SEARCH_ROUNDS - round) as nat,
            ),
        decreases SEARCH_ROUNDS - round,
    {
        let mid: u64 = (low + high) / 2;
        proof {
            lemma_curve_bound(mid as int);
            assert(den as int * curve_x_scaled(mid as int) <= den as int * (5 * PROGRESS_ONE)) by (nonlinear_arith)
                requires
                    0 <= curve_x_scaled(mid as int) <= 5 * PROGRESS_ONE,
                    0 < den,
            ;
            assert(num as int * (5 * PROGRESS_ONE) <= 0xffff_ffff_ffff_ffffint * (5 * PROGRESS_ONE)) by (nonlinear_arith)
                requires
                    num <= 0xffff_ffff_ffff_ffffint,
            ;
        }
        let m: u128 = mid as u128;
        assert(m * m <= 8192 * 8192) by (nonlinear_arith)
            requires
                m <= 8192,
        ;
        let square: u128 = m * m;
        assert(square * m <= 8192 * 8192 * 8192) by (nonlinear_arith)
            requires
                square <= 8192 * 8192,
                m <= 8192,
        ;
        let cube: u128 = square * m;
        assert(m * ((8192 - m) as u128) <= 8192 * 8192) by (nonlinear_arith)
            requires
                m <= 8192,
        ;
        let spread: u128 = m * ((CURVE_STEPS - mid) as u128);
        let curve: u128 = 3 * spread * (CURVE_STEPS as u128) + 5 * cube;
        assert(curve == curve_x_scaled(mid as int)) by (nonlinear_arith)
            requires
                m == mid,
                square == m * m,
                cube == square * m,
                spread == m * (8192 - m),
                curve == 3 * spread * 8192 + 5 * cube,
        ;
        let left = (den as u128) * curve < (num as u128) * (5 * (PROGRESS_ONE as u128));
        if left {
            low = mid;
        } else {
            high = mid;
        }
        round = round + 1;
    }
    let step: u64 = (low + high) / 2;
    proof {
        lemma_bisect_range(num as int, den as int, 0, 8192, 12);
        lemma_smoothstep_bound(step as int);
    }
    assert(step * step <= 8192 * 8192) by (nonlinear_arith)
        requires
            step <= 8192,
    ;
    let square: u64 = step * step;
    assert(square * (3 * 8192 - 2 * step) <= 8192 * 8192 * 3 * 8192) by (nonlinear_arith)
        requires
            square <= 8192 * 8192,
            step <= 8192,
    ;
    square * (3 * CURVE_STEPS - 2 * step)
}


/// The easing starts at (almost) zero: below `0.001` at `x = 0`.
pub proof fn lemma_control_ease_starts_at_zero()
    ensures
        control_ease(0, 1) < PROGRESS_ONE / 1000,
{
    assert(curve_x_scaled(4096) == 755914244096) by (nonlinear_arith);
    assert(bisect(0, 1, 0, 8192, 12) == bisect(0, 1, 0, 4096, 11));
    assert(curve_x_scaled(2048) == 352187318272) by (nonlinear_arith);
    assert(bisect(0, 1, 0, 4096, 11) == bisect(0, 1, 0, 2048, 10));
    assert(curve_x_scaled(1024) == 185757335552) by (nonlinear_arith);
    assert(bisect(0, 1, 0, 2048, 10) == bisect(0, 1, 0, 1024, 9));
    assert(curve_x_scaled(512) == 97307852800) by (nonlinear_arith);
    assert(bisect(0, 1, 0, 1024, 9) == bisect(0, 1, 0, 512, 8));
    assert(curve_x_scaled(256) == 50012880896) by (nonlinear_arith);
    assert(bisect(0, 1, 0, 512, 8) == bisect(0, 1, 0, 256, 7));
    assert(curve_x_scaled(128) == 25377636352) by (nonlinear_arith);
    assert(bisect(0, 1, 0, 256, 7) == bisect(0, 1, 0, 128, 6));
    assert(curve_x_scaled(64) == 12785549312) by (nonlinear_arith);
    assert(bisect(0, 1, 0, 128, 6) == bisect(0, 1, 0, 64, 5));
    assert(curve_x_scaled(32) == 6417448960) by (nonlinear_arith);
    assert(bisect(0, 1, 0, 64, 5) == bisect(0, 1, 0, 32, 4));
    assert(curve_x_scaled(16) == 3214954496) by (nonlinear_arith);
    assert(bisect(0, 1, 0, 32, 4) == bisect(0, 1, 0, 16, 3));
    assert(curve_x_scaled(8) == 1609042432) by (nonlinear_arith);
    assert(bisect(0, 1, 0, 16, 3) == bisect(0, 1, 0, 8, 2));
    assert(curve_x_scaled(4) == 804913472) by (nonlinear_arith);
    assert(bisect(0, 1, 0, 8, 2) == bisect(0, 1, 0, 4, 1));
    assert(curve_x_scaled(2) == 402554920) by (nonlinear_arith);
    assert(bisect(0, 1, 0, 4, 1) == bisect(0, 1, 0, 2, 0));
    assert(bisect(0, 1, 0, 2, 0) == 1);
    assert(smoothstep_scaled(1) == 24574) by (nonlinear_arith);
}

/// The easing is an ease-out: past `0.5` at `x = 0.5`.
pub proof fn lemma_control_ease_is_past_half_at_half_time()
    ensures
        control_ease(1, 2) > PROGRESS_ONE / 2,
{
    assert(curve_x_scaled(4096) == 755914244096) by (nonlinear_arith);
    assert(bisect(1, 2, 0, 8192, 12) == bisect(1, 2, 4096, 8192, 11));
    assert(curve_x_scaled(6144) == 1468878815232) by (nonlinear_arith);
    assert(bisect(1, 2, 4096, 8192, 11) == bisect(1, 2, 4096, 6144, 10));
    assert(curve_x_scaled(5120) == 1057635696640) by (nonlinear_arith);
    assert(bisect(1, 2, 4096, 6144, 10) == bisect(1, 2, 5120, 6144, 9));
    assert(curve_x_scaled(5632) == 1247553781760) by (nonlinear_arith);
    assert(bisect(1, 2, 5120, 6144, 9) == bisect(1, 2, 5632, 6144, 8));
    assert(curve_x_scaled(5888) == 1354038771712) by (nonlinear_arith);
    assert(bisect(1, 2, 5632, 6144, 8) == bisect(1, 2, 5888, 6144, 7));
    assert(curve_x_scaled(6016) == 1410382954496) by (nonlinear_arith);
    assert(bisect(1, 2, 5888, 6144, 7) == bisect(1, 2, 5888, 6016, 6));
    assert(curve_x_scaled(5952) == 1381945835520) by (nonlinear_arith);
    assert(bisect(1, 2, 5888, 6016, 6) == bisect(1, 2, 5888, 5952, 5));
    assert(curve_x_scaled(5920) == 1367926538240) by (nonlinear_arith);
    assert(bisect(1, 2, 5888, 5952, 5) == bisect(1, 2, 5920, 5952, 4));
    assert(curve_x_scaled(5936) == 1374919684096) by (nonlinear_arith);
    assert(bisect(1, 2, 5920, 5952, 4) == bisect(1, 2, 5920, 5936, 3));
    assert(curve_x_scaled(5928) == 1371418993152) by (nonlinear_arith);
    assert(bisect(1, 2, 5920, 5936, 3) == bisect(1, 2, 5928, 5936, 2));
    assert(curve_x_scaled(5932) == 1373168308160) by (nonlinear_arith);
    assert(bisect(1, 2, 5928, 5936, 2) == bisect(1, 2, 5932, 5936, 1));
    assert(curve_x_scaled(5934) == 1374043738392) by (nonlinear_arith);
    assert(bisect(1, 2, 5932, 5936, 1) == bisect(1, 2, 5934, 5936, 0));
    assert(bisect(1, 2, 5934, 5936, 0) == 5935);
    assert(smoothstep_scaled(5935) == 447559002850) by (nonlinear_arith);
}

/// The easing ends at (almost) one: within `0.001` of `1.0` at `x = 1`.
pub proof fn lemma_control_ease_ends_at_one()
    ensures
        PROGRESS_ONE - PROGRESS_ONE / 1000 < control_ease(1, 1) <= PROGRESS_ONE,
{
    assert(curve_x_scaled(4096) == 755914244096) by (nonlinear_arith);
    assert(bisect(1, 1, 0, 8192, 12) == bisect(1, 1, 4096, 8192, 11));
    assert(curve_x_scaled(6144) == 1468878815232) by (nonlinear_arith);
    assert(bisect(1, 1, 4096, 8192, 11) == bisect(1, 1, 6144, 8192, 10));
    assert(curve_x_scaled(7168) == 2021855854592) by (nonlinear_arith);
    assert(bisect(1, 1, 6144, 8192, 10) == bisect(1, 1, 7168, 8192, 9));
    assert(curve_x_scaled(7680) == 2361560924160) by (nonlinear_arith);
    assert(bisect(1, 1, 7168, 8192, 9) == bisect(1, 1, 7680, 8192, 8));
    assert(curve_x_scaled(7936) == 2548979204096) by (nonlinear_arith);
    assert(bisect(1, 1, 7680, 8192, 8) == bisect(1, 1, 7936, 8192, 7));
    assert(curve_x_scaled(8064) == 2647299981312) by (nonlinear_arith);
    assert(bisect(1, 1, 7936, 8192, 7) == bisect(1, 1, 8064, 8192, 6));
    assert(curve_x_scaled(8128) == 2697640804352) by (nonlinear_arith);
    assert(bisect(1, 1, 8064, 8192, 6) == bisect(1, 1, 8128, 8192, 5));
    assert(curve_x_scaled(8160) == 2723109765120) by (nonlinear_arith);
    assert(bisect(1, 1, 8128, 8192, 5) == bisect(1, 1, 8160, 8192, 4));
    assert(curve_x_scaled(8176) == 2735919312896) by (nonlinear_arith);
    assert(bisect(1, 1, 8160, 8192, 4) == bisect(1, 1, 8176, 8192, 3));
    assert(curve_x_scaled(8184) == 2742342907392) by (nonlinear_arith);
    assert(bisect(1, 1, 8176, 8192, 3) == bisect(1, 1, 8184, 8192, 2));
    assert(curve_x_scaled(8188) == 2745559416512) by (nonlinear_arith);
    assert(bisect(1, 1, 8184, 8192, 2) == bisect(1, 1, 8188, 8192, 1));
    assert(curve_x_scaled(8190) == 2747168849880) by (nonlinear_arith);
    assert(bisect(1, 1, 8188, 8192, 1) == bisect(1, 1, 8190, 8192, 0));
    assert(bisect(1, 1, 8190, 8192, 0) == 8191);
    assert(smoothstep_scaled(8191) == 549755789314) by (nonlinear_arith);
}

proof fn lemma_left_of_monotone(step: int, n1: int, d1: int, n2: int, d2: int)
    requires
        0 <= step <= 8192,
        0 < d1,
        0 < d2,
        0 <= n1,
        n1 * d2 <= n2 * d1,
        left_of(step, n1, d1),
    ensures
        left_of(step, n2, d2),
{
    lemma_curve_bound(step);
    let c = curve_x_scaled(step);
    let k = 5 * PROGRESS_ONE as int;
    assert(d2 * c < n2 * k) by (nonlinear_arith)
        requires
            0 <= c,
            0 < k,
            0 < d1,
            0 < d2,
            d1 * c < n1 * k,
            n1 * d2 <= n2 * d1,
    {
        assert(d2 * (d1 * c) < d2 * (n1 * k));
        assert(d2 * (n1 * k) == (n1 * d2) * k);
        assert((n1 * d2) * k <= (n2 * d1) * k);
        assert(d1 * (d2 * c) < d1 * (n2 * k));
    }
}

/// The search is monotone: a larger `x` never finds a smaller parameter.
proof fn lemma_bisect_monotone(n1: int, d1: int, n2: int, d2: int, low: int, high: int, rounds: nat)
    requires
        0 <= low <= high <= 8192,
        0 < d1,
        0 < d2,
        0 <= n1,
        n1 * d2 <= n2 * d1,
    ensures
        bisect(n1, d1, low, high, rounds) <= bisect(n2, d2, low, high, rounds),
    decreases rounds,
{
    if rounds > 0 {
        let mid = (low + high) / 2;
        let r = (rounds - 1) as nat;
        if left_of(mid, n1, d1) {
            lemma_left_of_monotone(mid, n1, d1, n2, d2);
            lemma_bisect_monotone(n1, d1, n2, d2, mid, high, r);
        } else if left_of(mid, n2, d2) {
            lemma_bisect_range(n1, d1, low, mid, r);
            lemma_bisect_range(n2, d2, mid, high, r);
        } else {
            lemma_bisect_monotone(n1, d1, n2, d2, low, mid, r);
        }
    }
}

proof fn lemma_smoothstep_monotone(a: int, b: int)
    requires
        0 <= a <= b <= 8192,
    ensures
        smoothstep_scaled(a) <= smoothstep_scaled(b),
{
    assert(a * a * (3 * 8192 - 2 * a) <= b * b * (3 * 8192 - 2 * b)) by (nonlinear_arith)
        requires
            0 <= a <= b <= 8192,
    {
        assert(b * b * (3 * 8192 - 2 * b) - a * a * (3 * 8192 - 2 * a) == (b - a) * (3 * 8192 * (a
            + b) - 2 * (a * a + a * b + b * b)));
        assert(a * a <= 8192 * a);
        assert(b * b <= 8192 * b);
        assert(a * b <= 8192 * a);
        assert(a * b <= 8192 * b);
        assert(2 * (a * a + a * b + b * b) <= 3 * 8192 * (a + b));
        assert(0 <= (b - a) * (3 * 8192 * (a + b) - 2 * (a * a + a * b + b * b)));
    }
}

/// The easing never goes back: a later point of the curve is never lower.
pub proof fn lemma_control_ease_monotone(n1: int, d1: int, n2: int, d2: int)
    requires
        0 < d1,
        0 < d2,
        0 <= n1,
        n1 * d2 <= n2 * d1,
    ensures
        control_ease(n1, d1) <= control_ease(n2, d2),
{
    lemma_bisect_monotone(n1, d1, n2, d2, 0, 8192, 12);
    lemma_bisect_range(n1, d1, 0, 8192, 12);
    lemma_bisect_range(n2, d2, 0, 8192, 12);
    lemma_smoothstep_monotone(bisect(n1, d1, 0, 8192, 12), bisect(n2, d2, 0, 8192, 12));
}

/// The curve stays left of `x = 1` until its very end.
proof fn lemma_curve_below_one(step: int)
    requires
        0 <= step < 8192,
    ensures
        curve_x_scaled(step) < 5 * PROGRESS_ONE,
{
    assert(3 * step * (8192 - step) * 8192 + 5 * step * step * step < 5 * (8192 * 8192 * 8192)) by (nonlinear_arith)
        requires
            0 <= step < 8192,
    {
        assert(5 * (8192 * 8192 * 8192) - (3 * step * (8192 - step) * 8192 + 5 * step * step * step)
            == (8192 - step) * (5 * 8192 * 8192 + 2 * 8192 * step + 5 * step * step));
        assert(0 < (8192 - step) * (5 * 8192 * 8192 + 2 * 8192 * step + 5 * step * step));
    }
}

proof fn lemma_bisect_saturates(num: int, den: int, low: int, rounds: nat)
    requires
        0 < den <= num,
        0 <= low < 8192,
    ensures
        bisect(num, den, low, 8192, rounds) == bisect(1, 1, low, 8192, rounds),
    decreases rounds,
{
    if rounds > 0 {
        let mid = (low + 8192) / 2;
        lemma_curve_below_one(mid);
        lemma_curve_bound(mid);
        let c = curve_x_scaled(mid);
        let k = 5 * PROGRESS_ONE as int;
        assert(den * c < num * k) by (nonlinear_arith)
            requires
                0 <= c < k,
                0 < den <= num,
        {
            assert(den * c < den * k);
            assert(den * k <= num * k);
        }
        lemma_bisect_saturates(num, den, mid, (rounds - 1) as nat);
    }
}

/// Past its end the easing stays at its end: any `x >= 1` eases as `x = 1`.
pub proof fn lemma_control_ease_saturates(num: int, den: int)
    requires
        0 < den <= num,
    ensures
        control_ease(num, den) == control_ease(1, 1),
{
    lemma_bisect_saturates(num, den, 0, 12);
    lemma_bisect_saturates(1, 1, 0, 12);
}

/// The easing of any `x >= 0` lies between `0` and `1`.
pub proof fn lemma_control_ease_bounded(num: int, den: int)
    ensures
        0 <= control_ease(num, den) <= PROGRESS_ONE,
{
    lemma_bisect_range(num, den, 0, 8192, 12);
    lemma_smoothstep_bound(bisect(num, den, 0, 8192, 12));
}

/// The width of the search interval, in units of `2^-13`, with `rounds`
/// halvings still to go.
pub open spec fn grid_width(rounds: nat) -> int
    decreases rounds,
{
    if rounds == 0 {
        2
    } else {
        2 * grid_width((rounds - 1) as nat)
    }
}

proof fn lemma_grid_width_positive(rounds: nat)
    ensures
        grid_width(rounds) >= 2,
        grid_width(rounds) % 2 == 0,
    decreases rounds,
{
    if rounds > 0 {
        lemma_grid_width_positive((rounds - 1) as nat);
    }
}

/// The search keeps the point where the curve reaches `x` inside its
/// interval, and ends one grid step away from either end.
proof fn lemma_bisect_brackets(num: int, den: int, low: int, high: int, rounds: nat)
    requires
        0 <= low,
        high <= 8192,
        high - low == grid_width(rounds),
        low == 0 || left_of(low, num, den),
        high == 8192 || !left_of(high, num, den),
    ensures
        ({
            let step = bisect(num, den, low, high, rounds);
            &&& low + 1 <= step <= high - 1
            &&& step - 1 == 0 || left_of(step - 1, num, den)
            &&& step + 1 == 8192 || !left_of(step + 1, num, den)
        }),
    decreases rounds,
{
    if rounds > 0 {
        let r = (rounds - 1) as nat;
        lemma_grid_width_positive(r);
        let mid = (low + high) / 2;
        assert(mid == low + grid_width(r));
        assert(high - mid == grid_width(r));
        if left_of(mid, num, den) {
            lemma_bisect_brackets(num, den, mid, high, r);
        } else {
            lemma_bisect_brackets(num, den, low, mid, r);
        }
    }
}

/// One grid step moves `y(t) = t^2 (3 - 2 t)` by at most `1.5 * 2^-13`
/// (in units of `2^-39`: `3 * 2^25`).
proof fn lemma_smoothstep_step(step: int)
    requires
        0 <= step < 8192,
    ensures
        0 <= smoothstep_scaled(step + 1) - smoothstep_scaled(step) <= 3 * 0x200_0000,
{
    lemma_smoothstep_monotone(step, step + 1);
    assert((step - 4095) * (step - 4096) >= 0) by (nonlinear_arith)
        requires
            step <= 4095 || step >= 4096,
    ;
    assert((step + 1) * (step + 1) * (3 * 8192 - 2 * (step + 1)) - step * step * (3 * 8192 - 2 * step)
        <= 3 * 0x200_0000) by (nonlinear_arith)
        requires
            (step - 4095) * (step - 4096) >= 0,
    {
        assert((step + 1) * (step + 1) * (3 * 8192 - 2 * (step + 1)) - step * step * (3 * 8192 - 2
            * step) == -6 * step * step + 49146 * step + 24574);
        assert(3 * 0x200_0000 - (-6 * step * step + 49146 * step + 24574) == 6 * ((step - 4095) * (
        step - 4096)) + 2);
    }
}

/// The easing is the curve's height where it reaches `x = num / den`: the
/// search ends at a parameter `t = step / 2^13` with the curve left of `x`
/// one grid step before it (or `t - 2^-13 = 0`, where the curve starts) and
/// not left of `x` one grid step after it (or `t + 2^-13 = 1`, where the
/// curve ends). The result is `y(t) = t^2 (3 - 2 t)`, the curve's height
/// for `cubic-bezier(0.2, 0, 0.2, 1)`, which rises by at most `1.5 * 2^-13`
/// over either of those grid steps: it is the height where the curve
/// reaches `x`, to within `1.5 * 2^-13`.
pub proof fn lemma_control_ease_is_on_the_curve(num: int, den: int)
    ensures
        ({
            let step = bisect(num, den, 0, 8192, 12);
            &&& control_ease(num, den) == smoothstep_scaled(step)
            &&& 1 <= step <= 8191
            &&& step - 1 == 0 || left_of(step - 1, num, den)
            &&& step + 1 == 8192 || !left_of(step + 1, num, den)
            &&& 0 <= smoothstep_scaled(step) - smoothstep_scaled(step - 1) <= 3 * 0x200_0000
            &&& 0 <= smoothstep_scaled(step + 1) - smoothstep_scaled(step) <= 3 * 0x200_0000
        }),
{
    reveal_with_fuel(grid_width, 13);
    assert(grid_width(12) == 8192);
    lemma_bisect_brackets(num, den, 0, 8192, 12);
    let step = bisect(num, den, 0, 8192, 12);
    lemma_smoothstep_step(step - 1);
    lemma_smoothstep_step(step);
}

/// Where progress heads for a value: `1.0` for `true`, `0.0` for `false`.
pub open spec fn target_progress(value: bool) -> int {
    if value {
        PROGRESS_ONE as int
    } else {
        0
    }
}

/// Nanoseconds from `start` to `now`; zero when `now` is not later.
pub open spec fn elapsed_since(start: u64, now: u64) -> int {
    if now >= start {
        now - start
    } else {
        0
    }
}

/// Whether a transition that started at `started` is still running at `now`.
pub open spec fn running(started: Option<u64>, now: u64) -> bool {
    match started {
        Some(start) => elapsed_since(start, now) < CONTROL_DURATION_NANOS,
        None => false,
    }
}

/// The eased share of a transition done at `now`: the easing of the elapsed
/// share of the duration, which counts as whole once the duration is over;
/// zero when nothing ever started.
pub open spec fn eased_share(started: Option<u64>, now: u64) -> int {
    match started {
        Some(start) => if elapsed_since(start, now) < CONTROL_DURATION_NANOS {
            control_ease(elapsed_since(start, now), CONTROL_DURATION_NANOS as int)
        } else {
            control_ease(CONTROL_DURATION_NANOS as int, CONTROL_DURATION_NANOS as int)
        },
        None => 0,
    }
}

/// The point `share` of the way from `origin` to `destination` (share in
/// units of `2^-39`), rounded towards `origin`.
pub open spec fn blend(origin: int, destination: int, share: int) -> int {
    if destination >= origin {
        origin + share * (destination - origin) / (PROGRESS_ONE as int)
    } else {
        origin - share * (origin - destination) / (PROGRESS_ONE as int)
    }
}

proof fn lemma_blend_between(origin: int, destination: int, share: int)
    requires
        0 <= share <= PROGRESS_ONE,
    ensures
        destination >= origin ==> origin <= blend(origin, destination, share) <= destination,
        destination < origin ==> destination <= blend(origin, destination, share) <= origin,
{
    let one = PROGRESS_ONE as int;
    if destination >= origin {
        let d = destination - origin;
        assert(0 <= share * d <= one * d) by (nonlinear_arith)
            requires
                0 <= share <= one,
                0 <= d,
        ;
        assert(share * d / one <= d) by (nonlinear_arith)
            requires
                0 <= share * d <= one * d,
                one > 0,
        ;
        assert(0 <= share * d / one) by (nonlinear_arith)
            requires
                0 <= share * d,
                one > 0,
        ;
    } else {
        let d = origin - destination;
        assert(0 <= share * d <= one * d) by (nonlinear_arith)
            requires
                0 <= share <= one,
                0 <= d,
        ;
        assert(share * d / one <= d) by (nonlinear_arith)
            requires
                0 <= share * d <= one * d,
                one > 0,
        ;
        assert(0 <= share * d / one) by (nonlinear_arith)
            requires
                0 <= share * d,
                one > 0,
        ;
    }
}

/// A boolean that animates its changes like a control does.
///
/// It records the value it heads to, the progress it started the running
/// transition from, and when that transition started.
#[derive(Debug, Clone, Copy)]
pub struct ControlAnimation {
    value: bool,
    origin: u64,
    started: Option<u64>,
}

impl ControlAnimation {
    #[verifier::type_invariant]
    spec fn inv(self) -> bool {
        self.origin <= PROGRESS_ONE
    }

    /// The value the animation heads to.
    pub closed spec fn spec_value(self) -> bool {
        self.value
    }

    /// The progress the running (or last) transition started from.
    pub closed spec fn spec_origin(self) -> int {
        self.origin as int
    }

    /// When the running (or last) transition started, if one ever did.
    pub closed spec fn spec_started(self) -> Option<u64> {
        self.started
    }

    /// Whether a transition is running at `now`.
    pub open spec fn animating_at(self, now: u64) -> bool {
        running(self.spec_started(), now)
    }

    /// The progress at `now`: the eased share of the way from the origin to
    /// where the value heads.
    pub open spec fn progress_at(self, now: u64) -> int {
        blend(self.spec_origin(), target_progress(self.spec_value()), eased_share(self.spec_started(), now))
    }

    /// The progress a transition towards a new value starts from: where the
    /// running transition is at `now`, or where the finished one headed.
    pub open spec fn origin_for_change(self, now: u64) -> int {
        if self.animating_at(now) {
            self.progress_at(now)
        } else {
            target_progress(self.spec_value())
        }
    }

    /// The animation after heading to `value` from `now` on.
    pub closed spec fn after_go(self, value: bool, now: u64) -> ControlAnimation {
        if value == self.value {
            self
        } else {
            ControlAnimation { value, origin: self.origin_for_change(now) as u64, started: Some(now) }
        }
    }

    /// The animation at rest on `value`.
    pub closed spec fn at_rest(value: bool) -> ControlAnimation {
        ControlAnimation { value, origin: if value { PROGRESS_ONE } else { 0 }, started: None }
    }

    /// After heading to `value`, the animation heads there; if it already
    /// did, nothing changed.
    pub proof fn lemma_after_go_heads_there(self, value: bool, now: u64)
        ensures
            self.after_go(value, now).spec_value() == value,
            value == self.spec_value() ==> self.after_go(value, now) == self,
            value != self.spec_value() ==> self.after_go(value, now).spec_started() == Some(now),
    {
    }

    /// An animation at rest heads to its value, from it, and never started.
    pub proof fn lemma_at_rest(value: bool)
        ensures
            Self::at_rest(value).spec_value() == value,
            Self::at_rest(value).spec_origin() == target_progress(value),
            Self::at_rest(value).spec_started() is None,
    {
    }

    /// The value the animation heads to.
    pub fn value(&self) -> (value: bool)
        ensures
            value == self.spec_value(),
    {
        self.value
    }

    /// Whether a transition is running at `now`.
    pub fn is_animating(&self, now: u64) -> (r: bool)
        ensures
            r == self.animating_at(now),
    {
        match self.started {
            Some(start) => {
                let elapsed: u64 = if now >= start { now - start } else { 0 };
                elapsed < CONTROL_DURATION_NANOS
            },
            None => false,
        }
    }

    /// The progress at `now`, in units of `2^-39`.
    ///
    /// For a transition from rest this is how far it went from `0.0` to
    /// `1.0` (or back); interpolating `start..end` by it gives what the
    /// animation shows between those two values.
    pub fn progress(&self, now: u64) -> (progress: u64)
        ensures
            progress == self.progress_at(now),
            progress <= PROGRESS_ONE,
    {
        proof {
            use_type_invariant(self);
        }
        let share: u64 = match self.started {
            Some(start) => {
                let elapsed: u64 = if now >= start { now - start } else { 0 };
                if elapsed < CONTROL_DURATION_NANOS {
                    control_ease_out(elapsed, CONTROL_DURATION_NANOS)
                } else {
                    control_ease_out(CONTROL_DURATION_NANOS, CONTROL_DURATION_NANOS)
                }
            },
            None => 0,
        };
        let destination: u64 = if self.value { PROGRESS_ONE } else { 0 };
        proof {
            lemma_blend_between(self.origin as int, destination as int, share as int);
        }
        if destination >= self.origin {
            let gap: u64 = destination - self.origin;
            assert(share as int * gap as int <= PROGRESS_ONE as int * PROGRESS_ONE as int) by (nonlinear_arith)
                requires
                    share <= PROGRESS_ONE,
                    gap <= PROGRESS_ONE,
            ;
            let part: u128 = (share as u128) * (gap as u128) / (PROGRESS_ONE as u128);
            self.origin + part as u64
        } else {
            let gap: u64 = self.origin - destination;
            assert(share as int * gap as int <= PROGRESS_ONE as int * PROGRESS_ONE as int) by (nonlinear_arith)
                requires
                    share <= PROGRESS_ONE,
                    gap <= PROGRESS_ONE,
            ;
            let part: u128 = (share as u128) * (gap as u128) / (PROGRESS_ONE as u128);
            self.origin - part as u64
        }
    }

    /// Heads to `value` from `now` on. Nothing changes when it already heads
    /// there; otherwise a new transition starts at `now`, from where the
    /// running one is, or from the value it had reached.
    pub fn go_mut(&mut self, value: bool, now: u64)
        ensures
            *final(self) == old(self).after_go(value, now),
            value == old(self).spec_value() ==> *final(self) == *old(self),
            value != old(self).spec_value() ==> {
                &&& final(self).spec_value() == value
                &&& final(self).spec_started() == Some(now)
                &&& final(self).spec_origin() == old(self).origin_for_change(now)
            },
    {
        if self.value != value {
            let origin = if self.is_animating(now) {
                self.progress(now)
            } else if self.value {
                PROGRESS_ONE
            } else {
                0
            };
            proof {
                use_type_invariant(&*self);
            }
            *self = ControlAnimation { value, origin, started: Some(now) };
        }
    }
}

/// A transition runs from the instant it starts until the control duration
/// has passed, and not a nanosecond longer.
pub proof fn lemma_transition_runs_for_duration(start: u64, now: u64)
    ensures
        running(Some(start), now) <==> (now as int) < start + CONTROL_DURATION_NANOS,
{
}

/// Changing the value starts a transition that runs for the control
/// duration from the instant of the change.
pub proof fn lemma_change_animates_for_duration(animation: ControlAnimation, value: bool, at: u64, now: u64)
    requires
        value != animation.spec_value(),
    ensures
        animation.after_go(value, at).animating_at(now) <==> (now as int) < at + CONTROL_DURATION_NANOS,
        animation.after_go(value, at).spec_value() == value,
{
    animation.lemma_after_go_heads_there(value, at);
}

proof fn lemma_eased_share_bound(started: Option<u64>, now: u64)
    ensures
        0 <= eased_share(started, now) <= PROGRESS_ONE,
{
    let d = CONTROL_DURATION_NANOS as int;
    if let Some(start) = started {
        let e = elapsed_since(start, now);
        let n = if e < d { e } else { d };
        lemma_bisect_range(n, d, 0, 8192, 12);
        lemma_smoothstep_bound(bisect(n, d, 0, 8192, 12));
    }
}

/// The progress always lies between the progress the transition started
/// from and the one it heads to.
pub proof fn lemma_progress_between_origin_and_target(animation: ControlAnimation, now: u64)
    ensures
        ({
            let origin = animation.spec_origin();
            let target = target_progress(animation.spec_value());
            let p = animation.progress_at(now);
            &&& target >= origin ==> origin <= p <= target
            &&& target < origin ==> target <= p <= origin
        }),
{
    lemma_eased_share_bound(animation.spec_started(), now);
    lemma_blend_between(
        animation.spec_origin(),
        target_progress(animation.spec_value()),
        eased_share(animation.spec_started(), now),
    );
}

/// A transition that started from rest ends within `0.001` of where it
/// heads once the control duration has passed.
pub proof fn lemma_finished_transition_reaches_target(animation: ControlAnimation, start: u64, now: u64)
    requires
        animation.spec_started() == Some(start),
        animation.spec_origin() == target_progress(!animation.spec_value()),
        now as int >= start + CONTROL_DURATION_NANOS,
    ensures
        animation.spec_value() ==> animation.progress_at(now) > PROGRESS_ONE - PROGRESS_ONE / 1000,
        !animation.spec_value() ==> animation.progress_at(now) < PROGRESS_ONE / 1000,
        !animation.animating_at(now),
{
    let d = CONTROL_DURATION_NANOS as int;
    lemma_control_ease_monotone(d, d, 1, 1);
    lemma_control_ease_monotone(1, 1, d, d);
    lemma_control_ease_ends_at_one();
    let e = control_ease(d, d);
    assert(eased_share(Some(start), now) == e);
    let one = PROGRESS_ONE as int;
    assert(e * one / one == e) by (nonlinear_arith)
        requires
            one > 0,
    ;
}

/// While a transition from rest runs, its progress is the easing of the
/// share of the control duration that has elapsed since it started: from
/// `0.0` towards `1.0`, or from `1.0` back towards `0.0`.
pub proof fn lemma_progress_from_rest(animation: ControlAnimation, start: u64, now: u64)
    requires
        animation.spec_started() == Some(start),
        animation.spec_origin() == target_progress(!animation.spec_value()),
        start <= now,
        (now as int) < start + CONTROL_DURATION_NANOS,
    ensures
        animation.animating_at(now),
        animation.spec_value() ==> animation.progress_at(now) == control_ease(
            now - start,
            CONTROL_DURATION_NANOS as int,
        ),
        !animation.spec_value() ==> animation.progress_at(now) == PROGRESS_ONE - control_ease(
            now - start,
            CONTROL_DURATION_NANOS as int,
        ),
{
    let e = control_ease(now - start, CONTROL_DURATION_NANOS as int);
    lemma_control_ease_bounded(now - start, CONTROL_DURATION_NANOS as int);
    let one = PROGRESS_ONE as int;
    assert(e * one / one == e) by (nonlinear_arith)
        requires
            one > 0,
    ;
}

/// Turning an animation at rest on `value` towards the other value at
/// `start` shows, at any instant within the control duration after it,
/// the easing of the elapsed share of the duration; halfway through, that
/// is the easing of one half.
pub proof fn lemma_change_from_rest_eases(value: bool, start: u64, now: u64)
    requires
        start <= now,
        (now as int) < start + CONTROL_DURATION_NANOS,
    ensures
        ({
            let turned = ControlAnimation::at_rest(value).after_go(!value, start);
            let eased = control_ease(now - start, CONTROL_DURATION_NANOS as int);
            &&& turned.animating_at(now)
            &&& !value ==> turned.progress_at(now) == eased
            &&& value ==> turned.progress_at(now) == PROGRESS_ONE - eased
            &&& (now as int) == start + CONTROL_DURATION_NANOS / 2 ==> eased == control_ease(1, 2)
        }),
{
    let rest = ControlAnimation::at_rest(value);
    ControlAnimation::lemma_at_rest(value);
    rest.lemma_after_go_heads_there(!value, start);
    let turned = rest.after_go(!value, start);
    assert(!rest.animating_at(start));
    assert(turned.spec_origin() == target_progress(value));
    lemma_progress_from_rest(turned, start, now);
    let d = CONTROL_DURATION_NANOS as int;
    if (now as int) == start + d / 2 {
        lemma_control_ease_monotone(now - start, d, 1, 2);
        lemma_control_ease_monotone(1, 2, now - start, d);
    }
}

/// An animation at rest does not run and shows the value it rests on.
pub proof fn lemma_rest_shows_value(value: bool, now: u64)
    ensures
        !ControlAnimation::at_rest(value).animating_at(now),
        ControlAnimation::at_rest(value).progress_at(now) == target_progress(value),
{
    ControlAnimation::lemma_at_rest(value);
}

/// Progress never moves away from where the animation heads: between two
/// instants, it gets closer to the target or stays.
pub proof fn lemma_progress_moves_towards_target(animation: ControlAnimation, t1: u64, t2: u64)
    requires
        t1 <= t2,
    ensures
        ({
            let origin = animation.spec_origin();
            let target = target_progress(animation.spec_value());
            &&& target >= origin ==> animation.progress_at(t1) <= animation.progress_at(t2)
            &&& target < origin ==> animation.progress_at(t1) >= animation.progress_at(t2)
        }),
{
    let d = CONTROL_DURATION_NANOS as int;
    let started = animation.spec_started();
    let s1 = eased_share(started, t1);
    let s2 = eased_share(started, t2);
    lemma_eased_share_bound(started, t1);
    lemma_eased_share_bound(started, t2);
    if let Some(start) = started {
        let e1 = elapsed_since(start, t1);
        let e2 = elapsed_since(start, t2);
        let n1 = if e1 < d { e1 } else { d };
        let n2 = if e2 < d { e2 } else { d };
        assert(n1 <= n2);
        assert(n1 * d <= n2 * d) by (nonlinear_arith)
            requires
                n1 <= n2,
                0 < d,
        ;
        lemma_control_ease_monotone(n1, d, n2, d);
    }
    assert(s1 <= s2);
    let origin = animation.spec_origin();
    let target = target_progress(animation.spec_value());
    let one = PROGRESS_ONE as int;
    if target >= origin {
        let g = target - origin;
        assert(s1 * g / one <= s2 * g / one) by (nonlinear_arith)
            requires
                0 <= s1 <= s2,
                0 <= g,
                one > 0,
        {
            assert(s1 * g <= s2 * g);
        }
    } else {
        let g = origin - target;
        assert(s1 * g / one <= s2 * g / one) by (nonlinear_arith)
            requires
                0 <= s1 <= s2,
                0 <= g,
                one > 0,
        {
            assert(s1 * g <= s2 * g);
        }
    }
}

/// The animation of a control: at rest on `value`, animating its changes for
/// [`CONTROL_DURATION_NANOS`] with the control easing.
pub fn control_animation(value: bool) -> (animation: ControlAnimation)
    ensures
        animation == ControlAnimation::at_rest(value),
        animation.spec_value() == value,
        animation.spec_origin() == target_progress(value),
        animation.spec_started() is None,
{
    ControlAnimation { value, origin: if value { PROGRESS_ONE } else { 0 }, started: None }
}

} // verus!
