use vstd::prelude::*;
use vstd::arithmetic::div_mod::{
    lemma_div_by_multiple,
    lemma_div_is_ordered,
    lemma_div_pos_is_pos,
    lemma_fundamental_div_mod,
    lemma_mod_pos_bound,
};

verus! {

/// How a buffer of fixed size is placed in a window of any size.
#[derive(Debug, Clone, Copy, PartialEq, Eq, Structural)]
pub enum ScaleMode {
    /// Fills the whole window, ignoring the aspect ratio.
    Stretch,
    /// Largest size that fits inside the window, aspect ratio kept (letterboxing).
    Fit,
    /// Smallest size that covers the window, aspect ratio kept (cropping).
    Fill,
    /// Largest whole multiple of the buffer size that fits, at least one.
    Integer,
    /// One window pixel per buffer pixel, centered.
    Unscaled,
}

/// Where the scaled buffer stands in the window: its top-left corner (which may
/// lie left of or above the window) and its scaled size.
#[derive(Debug, Clone, Copy, PartialEq, Eq, Structural)]
pub struct Layout {
    pub offset_x: i64,
    pub offset_y: i64,
    pub scaled_width: u64,
    pub scaled_height: u64,
}

impl Layout {
    pub open spec fn as_tuple(self) -> (int, int, int, int) {
        (self.offset_x as int, self.offset_y as int, self.scaled_width as int, self.scaled_height as int)
    }
}

/// `(window - scaled) / 2`, the division truncating toward zero.
pub open spec fn centered(window: int, scaled: int) -> int {
    if scaled <= window {
        (window - scaled) / 2
    } else {
        -((scaled - window) / 2)
    }
}

/// `(window - buffer) / 2`, or zero where the buffer is the larger.
pub open spec fn centered_saturating(window: int, buffer: int) -> int {
    if buffer <= window {
        (window - buffer) / 2
    } else {
        0
    }
}

/// The window-to-buffer ratio along x is at most the one along y
/// (`window_w / buffer_w <= window_h / buffer_h`).
pub open spec fn width_ratio_is_smaller(bw: int, bh: int, ww: int, wh: int) -> bool {
    ww * bh <= wh * bw
}

/// A buffer scaled by the ratio `num / den`, with both sizes truncated and centered.
pub open spec fn scaled_by(bw: int, bh: int, ww: int, wh: int, num: int, den: int) -> (
    int,
    int,
    int,
    int,
) {
    let sw = bw * num / den;
    let sh = bh * num / den;
    (centered(ww, sw), centered(wh, sh), sw, sh)
}

/// The whole-number scale of the integer mode.
pub open spec fn integer_scale(bw: int, bh: int, ww: int, wh: int) -> int {
    let k = if ww / bw <= wh / bh {
        ww / bw
    } else {
        wh / bh
    };
    if k < 1 {
        1
    } else {
        k
    }
}

/// The layout of each scale mode: `(offset_x, offset_y, scaled_width, scaled_height)`.
pub open spec fn layout_of(bw: int, bh: int, ww: int, wh: int, mode: ScaleMode) -> (
    int,
    int,
    int,
    int,
) {
    match mode {
        ScaleMode::Stretch => (0, 0, ww, wh),
        ScaleMode::Fit => if width_ratio_is_smaller(bw, bh, ww, wh) {
            scaled_by(bw, bh, ww, wh, ww, bw)
        } else {
            scaled_by(bw, bh, ww, wh, wh, bh)
        },
        ScaleMode::Fill => if width_ratio_is_smaller(bw, bh, ww, wh) {
            scaled_by(bw, bh, ww, wh, wh, bh)
        } else {
            scaled_by(bw, bh, ww, wh, ww, bw)
        },
        ScaleMode::Integer => {
            let k = integer_scale(bw, bh, ww, wh);
            (centered(ww, bw * k), centered(wh, bh * k), bw * k, bh * k)
        },
        ScaleMode::Unscaled => (centered_saturating(ww, bw), centered_saturating(wh, bh), bw, bh),
    }
}

proof fn lemma_centered_inside(w: int, s: int)
    requires
        0 <= s <= w,
    ensures
        0 <= centered(w, s),
        centered(w, s) + s <= w,
{
}

/// `floor(n * num / den) <= lim` where `n * num <= lim * den`.
proof fn lemma_scaled_at_most(n: int, num: int, den: int, lim: int)
    requires
        0 <= n,
        0 <= num,
        0 < den,
        0 <= lim,
        n * num <= lim * den,
    ensures
        0 <= n * num / den <= lim,
{
    assert(0 <= n * num) by (nonlinear_arith)
        requires
            0 <= n,
            0 <= num,
    ;
    lemma_div_is_ordered(n * num, lim * den, den);
    lemma_div_by_multiple(lim, den);
    lemma_div_pos_is_pos(n * num, den);
}

/// `floor(n * num / den) >= lim` where `n * num >= lim * den`.
proof fn lemma_scaled_at_least(n: int, num: int, den: int, lim: int)
    requires
        0 <= n,
        0 <= num,
        0 < den,
        0 <= lim,
        n * num >= lim * den,
    ensures
        n * num / den >= lim,
{
    lemma_div_is_ordered(lim * den, n * num, den);
    lemma_div_by_multiple(lim, den);
}

/// `n * (w / n) <= w`.
proof fn lemma_whole_multiple_fits(n: int, w: int, k: int)
    requires
        0 < n,
        0 <= w,
        0 <= k <= w / n,
    ensures
        n * k <= w,
{
    lemma_fundamental_div_mod(w, n);
    lemma_mod_pos_bound(w, n);
    assert(n * k <= n * (w / n)) by (nonlinear_arith)
        requires
            0 < n,
            k <= w / n,
    ;
}

/// Where the buffer is no larger than the window, `w / n` is at least one.
proof fn lemma_ratio_at_least_one(n: int, w: int)
    requires
        0 < n <= w,
    ensures
        w / n >= 1,
{
    lemma_div_is_ordered(n, w, n);
    lemma_div_by_multiple(1, n);
}

/// Under every scale mode but fill, the scaled buffer lies inside the window:
/// `0 <= offset` and `offset + scaled <= window` in each dimension. The integer
/// and unscaled modes keep the buffer at its size at least, so for them this
/// holds where the buffer is no larger than the window.
pub proof fn lemma_layout_within_window(bw: int, bh: int, ww: int, wh: int, mode: ScaleMode)
    requires
        bw > 0,
        bh > 0,
        ww > 0,
        wh > 0,
        mode != ScaleMode::Fill,
        mode == ScaleMode::Integer || mode == ScaleMode::Unscaled ==> bw <= ww && bh <= wh,
    ensures
        ({
            let l = layout_of(bw, bh, ww, wh, mode);
            &&& 0 <= l.2
            &&& 0 <= l.3
            &&& 0 <= l.0
            &&& l.0 + l.2 <= ww
            &&& 0 <= l.1
            &&& l.1 + l.3 <= wh
        }),
{
    match mode {
        ScaleMode::Fit => {
            if width_ratio_is_smaller(bw, bh, ww, wh) {
                assert(bw * ww <= ww * bw && bh * ww <= wh * bw) by (nonlinear_arith)
                    requires
                        ww * bh <= wh * bw,
                ;
                lemma_scaled_at_most(bw, ww, bw, ww);
                lemma_scaled_at_least(bw, ww, bw, ww);
                lemma_scaled_at_most(bh, ww, bw, wh);
                let sw = bw * ww / bw;
                let sh = bh * ww / bw;
                lemma_centered_inside(ww, sw);
                lemma_centered_inside(wh, sh);
            } else {
                assert(bw * wh <= ww * bh && bh * wh <= wh * bh) by (nonlinear_arith)
                    requires
                        ww * bh > wh * bw,
                ;
                lemma_scaled_at_most(bw, wh, bh, ww);
                lemma_scaled_at_most(bh, wh, bh, wh);
                lemma_scaled_at_least(bh, wh, bh, wh);
                let sw = bw * wh / bh;
                let sh = bh * wh / bh;
                lemma_centered_inside(ww, sw);
                lemma_centered_inside(wh, sh);
            }
        },
        ScaleMode::Integer => {
            lemma_ratio_at_least_one(bw, ww);
            lemma_ratio_at_least_one(bh, wh);
            let k = integer_scale(bw, bh, ww, wh);
            lemma_whole_multiple_fits(bw, ww, k);
            lemma_whole_multiple_fits(bh, wh, k);
            lemma_centered_inside(ww, bw * k);
            lemma_centered_inside(wh, bh * k);
        },
        _ => {},
    }
}

/// Under the fill mode the scaled buffer covers the whole window:
/// `offset <= 0` and `offset + scaled >= window` in each dimension, so every
/// window pixel shows a buffer pixel and what lies outside is cropped.
pub proof fn lemma_fill_covers_window(bw: int, bh: int, ww: int, wh: int)
    requires
        bw > 0,
        bh > 0,
        ww >= 0,
        wh >= 0,
    ensures
        ({
            let l = layout_of(bw, bh, ww, wh, ScaleMode::Fill);
            &&& l.0 <= 0
            &&& l.0 + l.2 >= ww
            &&& l.1 <= 0
            &&& l.1 + l.3 >= wh
        }),
{
    if width_ratio_is_smaller(bw, bh, ww, wh) {
        assert(bw * wh >= ww * bh && bh * wh >= wh * bh) by (nonlinear_arith)
            requires
                ww * bh <= wh * bw,
        ;
        lemma_scaled_at_least(bw, wh, bh, ww);
        lemma_scaled_at_least(bh, wh, bh, wh);
    } else {
        assert(bw * ww >= ww * bw && bh * ww >= wh * bw) by (nonlinear_arith)
            requires
                ww * bh > wh * bw,
        ;
        lemma_scaled_at_least(bw, ww, bw, ww);
        lemma_scaled_at_least(bh, ww, bw, wh);
    }
}

pub(crate) proof fn lemma_u32_product(a: int, b: int)
    requires
        0 <= a <= u32::MAX,
        0 <= b <= u32::MAX,
    ensures
        0 <= a * b <= u32::MAX * u32::MAX,
{
    assert(0 <= a * b <= u32::MAX * u32::MAX) by (nonlinear_arith)
        requires
            0 <= a <= u32::MAX,
            0 <= b <= u32::MAX,
    ;
}

fn center(window: u64, scaled: u64) -> (r: i64)
    ensures
        r as int == centered(window as int, scaled as int),
{
    if scaled <= window {
        ((window - scaled) / 2) as i64
    } else {
        -(((scaled - window) / 2) as i64)
    }
}

fn scale_by(bw: u32, bh: u32, ww: u32, wh: u32, num: u32, den: u32) -> (r: Layout)
    requires
        den > 0,
    ensures
        r.as_tuple() == scaled_by(bw as int, bh as int, ww as int, wh as int, num as int, den as int),
{
    proof {
        lemma_u32_product(bw as int, num as int);
        lemma_u32_product(bh as int, num as int);
    }
    let sw = (bw as u64) * (num as u64) / (den as u64);
    let sh = (bh as u64) * (num as u64) / (den as u64);
    Layout {
        offset_x: center(ww as u64, sw),
        offset_y: center(wh as u64, sh),
        scaled_width: sw,
        scaled_height: sh,
    }
}

/// Computes where a `buffer_width` x `buffer_height` buffer stands in a
/// `window_width` x `window_height` window under `scale_mode`.
pub fn calculate_scaled_dimensions(
    buffer_width: u32,
    buffer_height: u32,
    window_width: u32,
    window_height: u32,
    scale_mode: ScaleMode,
) -> (r: Layout)
    requires
        buffer_width > 0,
        buffer_height > 0,
    ensures
        r.as_tuple() == layout_of(
            buffer_width as int,
            buffer_height as int,
            window_width as int,
            window_height as int,
            scale_mode,
        ),
{
    let (bw, bh, ww, wh) = (buffer_width, buffer_height, window_width, window_height);
    proof {
        lemma_u32_product(ww as int, bh as int);
        lemma_u32_product(wh as int, bw as int);
    }
    let width_smaller = (ww as u64) * (bh as u64) <= (wh as u64) * (bw as u64);
    match scale_mode {
        ScaleMode::Stretch => Layout {
            offset_x: 0,
            offset_y: 0,
            scaled_width: ww as u64,
            scaled_height: wh as u64,
        },
        ScaleMode::Fit => if width_smaller {
            scale_by(bw, bh, ww, wh, ww, bw)
        } else {
            scale_by(bw, bh, ww, wh, wh, bh)
        },
        ScaleMode::Fill => if width_smaller {
            scale_by(bw, bh, ww, wh, wh, bh)
        } else {
            scale_by(bw, bh, ww, wh, ww, bw)
        },
        ScaleMode::Integer => {
            let kx = ww / bw;
            let ky = wh / bh;
            let k = if kx <= ky {
                kx
            } else {
                ky
            };
            let k = if k < 1 {
                1
            } else {
                k
            };
            proof {
                lemma_u32_product(bw as int, k as int);
                lemma_u32_product(bh as int, k as int);
            }
            let sw = (bw as u64) * (k as u64);
            let sh = (bh as u64) * (k as u64);
            Layout {
                offset_x: center(ww as u64, sw),
                offset_y: center(wh as u64, sh),
                scaled_width: sw,
                scaled_height: sh,
            }
        },
        ScaleMode::Unscaled => {
            let ox = if bw <= ww {
                (ww - bw) / 2
            } else {
                0
            };
            let oy = if bh <= wh {
                (wh - bh) / 2
            } else {
                0
            };
            Layout {
                offset_x: ox as i64,
                offset_y: oy as i64,
                scaled_width: bw as u64,
                scaled_height: bh as u64,
            }
        },
    }
}

} // verus!
