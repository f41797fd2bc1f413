//! The first size of the main window, chosen from the size of the monitor it opens on.

use vstd::prelude::*;

verus! {

/// Width used when no monitor geometry is known.
pub const FALLBACK_WIDTH: i32 = 1360;
/// Height used when no monitor geometry is known.
pub const FALLBACK_HEIGHT: i32 = 860;
/// Smallest width the window asks for, monitor permitting.
pub const MINIMUM_WIDTH: i32 = 960;
/// Smallest height the window asks for, monitor permitting.
pub const MINIMUM_HEIGHT: i32 = 640;
/// Largest width the window asks for.
pub const MAXIMUM_WIDTH: i32 = 1920;
/// Largest height the window asks for.
pub const MAXIMUM_HEIGHT: i32 = 1200;
/// Space left free on each monitor dimension.
pub const MONITOR_MARGIN: i32 = 48;

/// Division that rounds toward zero, as integer division does on `i32`.
pub open spec fn trunc_div(a: int, b: int) -> int
    recommends
        b > 0,
{
    if a >= 0 {
        a / b
    } else {
        -((-a) / b)
    }
}

/// `value` rounded toward zero to a multiple of the 4 px spacing unit.
pub open spec fn spec_floor_to_spacing(value: int) -> int {
    trunc_div(value, 4) * 4
}

/// `value * factor`, clamped to the range of `i32`.
pub open spec fn spec_saturating_mul(value: int, factor: int) -> int {
    let product = value * factor;
    if product > i32::MAX {
        i32::MAX as int
    } else if product < i32::MIN {
        i32::MIN as int
    } else {
        product
    }
}

pub open spec fn spec_min(a: int, b: int) -> int {
    if a <= b {
        a
    } else {
        b
    }
}

pub open spec fn spec_max(a: int, b: int) -> int {
    if a >= b {
        a
    } else {
        b
    }
}

/// 80 % of the monitor dimension, on the spacing grid.
pub open spec fn spec_target(dimension: int) -> int {
    spec_floor_to_spacing(trunc_div(spec_saturating_mul(dimension, 80), 100))
}

/// What is left of the monitor dimension after the margin, on the spacing grid.
pub open spec fn spec_available(dimension: int) -> int {
    spec_floor_to_spacing(spec_max(dimension - MONITOR_MARGIN, 0))
}

/// One window dimension: the target raised to `minimum`, capped at `maximum`, and never
/// larger than what the monitor leaves after its margin.
pub open spec fn spec_fit(dimension: int, minimum: int, maximum: int) -> int {
    spec_min(spec_min(spec_max(spec_target(dimension), minimum), maximum), spec_available(dimension))
}

/// The size chosen for a monitor of the given size, or the fallback without one.
pub open spec fn spec_initial_window_size(monitor_size: Option<(i32, i32)>) -> (int, int) {
    match monitor_size {
        None => (FALLBACK_WIDTH as int, FALLBACK_HEIGHT as int),
        Some((width, height)) => (
            spec_fit(width as int, MINIMUM_WIDTH as int, MAXIMUM_WIDTH as int),
            spec_fit(height as int, MINIMUM_HEIGHT as int, MAXIMUM_HEIGHT as int),
        ),
    }
}

/// A monitor dimension the sizing accepts: subtracting the margin must not overflow.
pub open spec fn dimension_in_range(dimension: i32) -> bool {
    dimension >= i32::MIN + MONITOR_MARGIN
}

/// Rounds `value` toward zero to a multiple of 4.
pub fn floor_to_spacing(value: i32) -> (r: i32)
    ensures
        r as int == spec_floor_to_spacing(value as int),
{
    value / 4 * 4
}

/// `value * factor`, saturating at the bounds of `i32`.
fn saturating_mul(value: i32, factor: i32) -> (r: i32)
    ensures
        r as int == spec_saturating_mul(value as int, factor as int),
{
    assert(i32::MIN as int * i32::MAX as int <= value as int * factor as int
        <= i32::MIN as int * i32::MIN as int) by (nonlinear_arith)
        requires
            i32::MIN <= value <= i32::MAX,
            i32::MIN <= factor <= i32::MAX,
    ;
    let product: i64 = (value as i64) * (factor as i64);
    if product > i32::MAX as i64 {
        i32::MAX
    } else if product < i32::MIN as i64 {
        i32::MIN
    } else {
        product as i32
    }
}

/// Fits one monitor dimension between `minimum` and `maximum`, keeping the margin.
fn fit(dimension: i32, minimum: i32, maximum: i32) -> (r: i32)
    requires
        dimension_in_range(dimension),
    ensures
        r as int == spec_fit(dimension as int, minimum as int, maximum as int),
{
    let target = floor_to_spacing(saturating_mul(dimension, 80) / 100);
    let margin_left = dimension - MONITOR_MARGIN;
    let available = floor_to_spacing(if margin_left >= 0 { margin_left } else { 0 });
    let raised = if target >= minimum { target } else { minimum };
    let capped = if raised <= maximum { raised } else { maximum };
    if capped <= available {
        capped
    } else {
        available
    }
}

/// The first size of the main window for a monitor of `monitor_size` (width, height);
/// without monitor geometry the fallback size.
pub fn initial_window_size(monitor_size: Option<(i32, i32)>) -> (r: (i32, i32))
    requires
        monitor_size matches Some((w, h)) ==> dimension_in_range(w) && dimension_in_range(h),
    ensures
        (r.0 as int, r.1 as int) == spec_initial_window_size(monitor_size),
{
    match monitor_size {
        None => (FALLBACK_WIDTH, FALLBACK_HEIGHT),
        Some((width, height)) => (
            fit(width, MINIMUM_WIDTH, MAXIMUM_WIDTH),
            fit(height, MINIMUM_HEIGHT, MAXIMUM_HEIGHT),
        ),
    }
}

/// Every size chosen for a monitor stays on the 4 px spacing grid, never exceeds the
/// maximum, never reaches into the monitor margin, is never negative, and reaches the
/// minimum whenever the monitor leaves room for it.
pub proof fn lemma_fit_bounds(dimension: i32, minimum: i32, maximum: i32)
    requires
        dimension_in_range(dimension),
        0 <= minimum <= maximum,
        minimum % 4 == 0,
        maximum % 4 == 0,
    ensures
        spec_fit(dimension as int, minimum as int, maximum as int) % 4 == 0,
        spec_fit(dimension as int, minimum as int, maximum as int) <= maximum,
        0 <= spec_fit(dimension as int, minimum as int, maximum as int),
        spec_fit(dimension as int, minimum as int, maximum as int) <= spec_max(
            dimension - MONITOR_MARGIN,
            0,
        ),
        spec_available(dimension as int) >= minimum ==> spec_fit(
            dimension as int,
            minimum as int,
            maximum as int,
        ) >= minimum,
{
    let target = spec_target(dimension as int);
    let available = spec_available(dimension as int);
    let left = spec_max(dimension - MONITOR_MARGIN, 0);
    assert(trunc_div(left, 4) == left / 4);
    assert(available % 4 == 0 && available <= left && available >= 0);
    let t = trunc_div(spec_saturating_mul(dimension as int, 80), 100);
    assert(target % 4 == 0) by {
        if t >= 0 {
            assert(trunc_div(t, 4) * 4 == (t / 4) * 4);
        } else {
            assert(trunc_div(t, 4) * 4 == -((-t) / 4) * 4);
        }
    }
}

/// The chosen window size satisfies the bounds of `lemma_fit_bounds` in both dimensions.
pub proof fn lemma_initial_window_size_bounds(width: i32, height: i32)
    requires
        dimension_in_range(width),
        dimension_in_range(height),
    ensures
        ({
            let (w, h) = spec_initial_window_size(Some((width, height)));
            &&& w % 4 == 0 && h % 4 == 0
            &&& 0 <= w <= MAXIMUM_WIDTH && 0 <= h <= MAXIMUM_HEIGHT
            &&& w <= spec_max(width - MONITOR_MARGIN, 0)
            &&& h <= spec_max(height - MONITOR_MARGIN, 0)
            &&& spec_available(width as int) >= MINIMUM_WIDTH ==> w >= MINIMUM_WIDTH
            &&& spec_available(height as int) >= MINIMUM_HEIGHT ==> h >= MINIMUM_HEIGHT
        }),
{
    lemma_fit_bounds(width, MINIMUM_WIDTH, MAXIMUM_WIDTH);
    lemma_fit_bounds(height, MINIMUM_HEIGHT, MAXIMUM_HEIGHT);
}

/// `bound` rounded down to the 4 px spacing grid: the largest multiple of 4 not above it.
pub open spec fn spacing_floor_of(r: int, bound: int) -> bool {
    &&& r % 4 == 0
    &&& r <= bound
    &&& bound < r + 4
}

/// Without monitor geometry the window is 1360 x 860. On a monitor of `width` x `height`
/// (not so large that 80 % of it overflows), each dimension is the largest multiple of 4
/// within 80 % of the monitor dimension raised to the minimum (960 wide, 640 high), capped at
/// the maximum (1920 wide, 1200 high), and within the monitor dimension less its 48 px margin.
pub proof fn lemma_initial_window_size_is_four_fifths(width: i32, height: i32)
    requires
        0 <= width <= 26_843_545,
        0 <= height <= 26_843_545,
    ensures
        spec_initial_window_size(None) == (1360int, 860int),
        ({
            let (w, h) = spec_initial_window_size(Some((width, height)));
            let bw = spec_min(
                spec_min(spec_max(width * 80 / 100, 960), 1920),
                spec_max(width - 48, 0),
            );
            let bh = spec_min(
                spec_min(spec_max(height * 80 / 100, 640), 1200),
                spec_max(height - 48, 0),
            );
            spacing_floor_of(w, bw) && spacing_floor_of(h, bh)
        }),
{
    lemma_fit_is_spacing_floor(width as int, 960, 1920);
    lemma_fit_is_spacing_floor(height as int, 640, 1200);
}

proof fn lemma_fit_is_spacing_floor(d: int, lo: int, hi: int)
    requires
        0 <= d <= 26_843_545,
        0 <= lo <= hi,
        lo % 4 == 0,
        hi % 4 == 0,
    ensures
        spacing_floor_of(
            spec_fit(d, lo, hi),
            spec_min(spec_min(spec_max(d * 80 / 100, lo), hi), spec_max(d - 48, 0)),
        ),
{
    assert(0 <= d * 80 <= i32::MAX) by (nonlinear_arith)
        requires
            0 <= d <= 26_843_545,
    ;
    assert(spec_saturating_mul(d, 80) == d * 80);
    let p = d * 80 / 100;
    assert(p >= 0) by (nonlinear_arith)
        requires
            d * 80 >= 0,
            p == d * 80 / 100,
    ;
    assert(trunc_div(d * 80, 100) == p);
    let left = spec_max(d - 48, 0);
    assert(spec_floor_to_spacing(p) == p / 4 * 4);
    assert(spec_floor_to_spacing(left) == left / 4 * 4);
}

} // verus!
