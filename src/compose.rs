use vstd::prelude::*;
use vstd::arithmetic::div_mod::{
    lemma_div_pos_is_pos,
    lemma_fundamental_div_mod,
    lemma_fundamental_div_mod_converse,
    lemma_mod_pos_bound,
    lemma_multiply_divide_lt,
};
use crate::layout::{lemma_u32_product, layout_of, ScaleMode};

verus! {

/// An opaque packed pixel with the given red, green and blue: `0xFFRRGGBB`.
pub open spec fn pack_rgb(r: u8, g: u8, b: u8) -> u32 {
    (0xFF00_0000int + r as int * 0x1_0000 + g as int * 0x100 + b as int) as u32
}

/// The packed value of the buffer pixel at column `sx`, row `sy` (RGBA bytes,
/// alpha ignored).
pub open spec fn source_pixel(buffer: Seq<u8>, bw: int, sx: int, sy: int) -> u32 {
    let base = 4 * (sy * bw + sx);
    pack_rgb(buffer[base], buffer[base + 1], buffer[base + 2])
}

/// The scaled span `[offset, offset + scaled)` holds the window coordinate `d`.
pub open spec fn covers(d: int, offset: int, scaled: int) -> bool {
    offset <= d < offset + scaled
}

/// The frame pixel at index `i` once the buffer has been copied, per the layout
/// `l`, into a `ww` x `wh` window whose pixel there was `prev`. Window pixels
/// outside the layout and indices past the window keep `prev`; a covered one
/// shows the nearest buffer pixel.
pub open spec fn region_pixel(
    buffer: Seq<u8>,
    bw: int,
    bh: int,
    ww: int,
    wh: int,
    l: (int, int, int, int),
    i: int,
    prev: u32,
) -> u32 {
    if 0 < ww && i < ww * wh && covers(i % ww, l.0, l.2) && covers(i / ww, l.1, l.3) {
        source_pixel(buffer, bw, (i % ww - l.0) * bw / l.2, (i / ww - l.1) * bh / l.3)
    } else {
        prev
    }
}

/// A packed pixel keeps red, green and blue and is always fully opaque:
/// `0xAARRGGBB` with alpha `0xFF`, whatever alpha the source had.
pub proof fn lemma_pack_channels(r: u8, g: u8, b: u8)
    ensures
        pack_rgb(r, g, b) / 0x100_0000 == 0xFF,
        (pack_rgb(r, g, b) / 0x1_0000) % 0x100 == r,
        (pack_rgb(r, g, b) / 0x100) % 0x100 == g,
        pack_rgb(r, g, b) % 0x100 == b,
{
    let p = pack_rgb(r, g, b) as int;
    assert(p == 0xFF00_0000 + r * 0x1_0000 + g * 0x100 + b);
    lemma_fundamental_div_mod_converse(p, 0x100_0000, 0xFF, r * 0x1_0000 + g * 0x100 + b);
    lemma_fundamental_div_mod_converse(p, 0x1_0000, 0xFF00 + r, g * 0x100 + b);
    lemma_fundamental_div_mod_converse(0xFF00 + r, 0x100, 0xFF, r as int);
    lemma_fundamental_div_mod_converse(p, 0x100, 0xFF_0000 + r * 0x100 + g, b as int);
    lemma_fundamental_div_mod_converse(0xFF_0000 + r * 0x100 + g, 0x100, 0xFF00 + r, g as int);
}

/// A copy writes inside the window only: a frame pixel that changes lies at an
/// index below `ww * wh`, at a column below `ww` and a row below `wh`.
pub proof fn lemma_copy_stays_in_window(
    buffer: Seq<u8>,
    bw: int,
    bh: int,
    ww: int,
    wh: int,
    l: (int, int, int, int),
    i: int,
    prev: u32,
)
    requires
        0 <= i,
        ww >= 0,
        wh >= 0,
    ensures
        region_pixel(buffer, bw, bh, ww, wh, l, i, prev) != prev ==> {
            &&& 0 < ww
            &&& i < ww * wh
            &&& 0 <= i % ww < ww
            &&& 0 <= i / ww < wh
        },
{
    if region_pixel(buffer, bw, bh, ww, wh, l, i, prev) != prev {
        let q = i / ww;
        let rem = i % ww;
        lemma_fundamental_div_mod(i, ww);
        lemma_mod_pos_bound(i, ww);
        lemma_div_pos_is_pos(i, ww);
        assert(q < wh) by (nonlinear_arith)
            requires
                i == ww * q + rem,
                0 <= rem,
                i < ww * wh,
                ww > 0,
        ;
    }
}

/// Packs red, green and blue into an opaque pixel.
pub fn pack(r: u8, g: u8, b: u8) -> (p: u32)
    ensures
        p == pack_rgb(r, g, b),
{
    0xFF00_0000u32 + (r as u32) * 0x1_0000 + (g as u32) * 0x100 + (b as u32)
}

/// Parameters for copying a buffer into a window frame.
pub(crate) struct CopyBufferParams {
    pub(crate) buffer_width: u32,
    pub(crate) buffer_height: u32,
    pub(crate) window_width: u32,
    pub(crate) window_height: u32,
    pub(crate) offset_x: i64,
    pub(crate) offset_y: i64,
    pub(crate) scaled_width: u64,
    pub(crate) scaled_height: u64,
}

impl CopyBufferParams {
    pub(crate) open spec fn layout(&self) -> (int, int, int, int) {
        (self.offset_x as int, self.offset_y as int, self.scaled_width as int, self.scaled_height as int)
    }

    pub(crate) open spec fn fits(&self, buffer: Seq<u8>) -> bool {
        &&& self.buffer_width > 0
        &&& self.buffer_height > 0
        &&& buffer.len() == 4 * self.buffer_width * self.buffer_height
    }

    pub(crate) open spec fn pixel(&self, buffer: Seq<u8>, i: int, prev: u32) -> u32 {
        region_pixel(
            buffer,
            self.buffer_width as int,
            self.buffer_height as int,
            self.window_width as int,
            self.window_height as int,
            self.layout(),
            i,
            prev,
        )
    }
}

proof fn lemma_scaled_coord(x: int, n: int, s: int)
    requires
        0 <= x < s,
        0 < n,
    ensures
        0 <= x * n / s < n,
        s <= u64::MAX && n <= u32::MAX ==> x * n <= u64::MAX * u32::MAX,
{
    assert(0 <= x * n < s * n) by (nonlinear_arith)
        requires
            0 <= x < s,
            0 < n,
    ;
    if s <= u64::MAX && n <= u32::MAX {
        assert(s * n <= u64::MAX * u32::MAX) by (nonlinear_arith)
            requires
                0 < s <= u64::MAX,
                0 < n <= u32::MAX,
        ;
    }
    lemma_multiply_divide_lt(x * n, s, n);
    lemma_div_pos_is_pos(x * n, s);
}

proof fn lemma_pixel_index(sx: int, sy: int, bw: int, bh: int)
    requires
        0 <= sx < bw,
        0 <= sy < bh,
    ensures
        0 <= sy * bw + sx < bw * bh,
        4 * (sy * bw + sx) + 4 <= 4 * bw * bh,
{
    assert(0 <= sy * bw + sx < bw * bh && 4 * (sy * bw + sx) + 4 <= 4 * bw * bh) by (nonlinear_arith)
        requires
            0 <= sx < bw,
            0 <= sy < bh,
    ;
}

/// The buffer pixel that the layout shows at window column `dx`, row `dy`.
fn sample(buffer: &[u8], p: &CopyBufferParams, dx: u32, dy: u32) -> (r: Option<u32>)
    requires
        p.fits(buffer@),
    ensures
        r == (if covers(dx as int, p.offset_x as int, p.scaled_width as int) && covers(
            dy as int,
            p.offset_y as int,
            p.scaled_height as int,
        ) {
            Some(
                source_pixel(
                    buffer@,
                    p.buffer_width as int,
                    (dx - p.offset_x) * p.buffer_width / (p.scaled_width as int),
                    (dy - p.offset_y) * p.buffer_height / (p.scaled_height as int),
                ),
            )
        } else {
            None
        }),
{
    let x: i128 = dx as i128 - p.offset_x as i128;
    let y: i128 = dy as i128 - p.offset_y as i128;
    if x < 0 || x >= p.scaled_width as i128 || y < 0 || y >= p.scaled_height as i128 {
        return None;
    }
    let bw = p.buffer_width;
    let bh = p.buffer_height;
    proof {
        lemma_scaled_coord(x as int, bw as int, p.scaled_width as int);
        lemma_scaled_coord(y as int, bh as int, p.scaled_height as int);
    }
    let sx = (x as u128) * (bw as u128) / (p.scaled_width as u128);
    let sy = (y as u128) * (bh as u128) / (p.scaled_height as u128);
    proof {
        lemma_pixel_index(sx as int, sy as int, bw as int, bh as int);
    }
    let sxu = sx as usize;
    let syu = sy as usize;
    let bwu = bw as usize;
    assert(sxu == sx && syu == sy && bwu == bw);
    assert(buffer@.len() == buffer.len() && buffer.len() <= usize::MAX);
    let base: usize = (syu * bwu + sxu) * 4;
    Some(pack(buffer[base], buffer[base + 1], buffer[base + 2]))
}

/// Copies the covered part of the buffer into the frame, nearest-neighbour,
/// clipped to the window; other pixels keep their value.
pub(crate) fn copy_buffer_scaled(surface_buffer: &mut [u32], buffer: &[u8], params: CopyBufferParams)
    requires
        params.fits(buffer@),
    ensures
        final(surface_buffer)@.len() == old(surface_buffer)@.len(),
        forall|i: int|
            0 <= i < old(surface_buffer)@.len() ==> final(surface_buffer)@[i] == params.pixel(
                buffer@,
                i,
                old(surface_buffer)@[i],
            ),
{
    let ghost start = surface_buffer@;
    let len = surface_buffer.len();
    let ww = params.window_width;
    let wh = params.window_height;
    if ww == 0 {
        return;
    }
    proof {
        lemma_u32_product(ww as int, wh as int);
        if wh == 0 {
            assert(ww * wh == 0) by (nonlinear_arith)
                requires
                    wh == 0,
            ;
        }
    }
    let total: u64 = (ww as u64) * (wh as u64);
    let mut i: usize = 0;
    let mut dx: u32 = 0;
    let mut dy: u32 = 0;
    while i < len && (i as u64) < total
        invariant
            params.fits(buffer@),
            ww == params.window_width,
            wh == params.window_height,
            ww > 0,
            total == ww * wh,
            len == surface_buffer@.len(),
            len == start.len(),
            i <= len,
            dx < ww,
            i == dy * ww + dx,
            i < total ==> dy < wh,
            forall|j: int| 0 <= j < i ==> surface_buffer@[j] == params.pixel(buffer@, j, start[j]),
            forall|j: int| i <= j < len ==> surface_buffer@[j] == start[j],
        decreases len - i,
    {
        proof {
            lemma_fundamental_div_mod_converse(i as int, ww as int, dy as int, dx as int);
        }
        match sample(buffer, &params, dx, dy) {
            Some(v) => {
                surface_buffer[i] = v;
            },
            Option::None => {},
        }
        assert(surface_buffer@[i as int] == params.pixel(buffer@, i as int, start[i as int]));
        i = i + 1;
        if dx + 1 == ww {
            dx = 0;
            dy = dy + 1;
            assert((dy as int) * (ww as int) == (dy - 1) * ww + ww) by (nonlinear_arith);
        } else {
            dx = dx + 1;
        }
        proof {
            if (i as int) < total {
                assert(dy < wh) by (nonlinear_arith)
                    requires
                        i == dy * ww + dx,
                        i < ww * wh,
                        0 <= dx,
                        ww > 0,
                ;
            }
        }
    }
}

/// The frame of `len` pixels that a render presents: the background everywhere,
/// then the buffer copied in under the layout of `mode`.
pub open spec fn composed_frame(
    buffer: Seq<u8>,
    bw: int,
    bh: int,
    ww: int,
    wh: int,
    mode: ScaleMode,
    background: u32,
    len: nat,
) -> Seq<u32> {
    Seq::new(
        len,
        |i: int| region_pixel(buffer, bw, bh, ww, wh, layout_of(bw, bh, ww, wh, mode), i, background),
    )
}

/// Sets every pixel of the frame to `color`.
pub fn fill_background(surface_buffer: &mut [u32], color: u32)
    ensures
        final(surface_buffer)@ == Seq::new(old(surface_buffer)@.len(), |i: int| color),
{
    let len = surface_buffer.len();
    let mut i: usize = 0;
    while i < len
        invariant
            len == surface_buffer@.len(),
            i <= len,
            forall|j: int| 0 <= j < i ==> surface_buffer@[j] == color,
        decreases len - i,
    {
        surface_buffer[i] = color;
        i = i + 1;
    }
    assert(surface_buffer@ =~= Seq::new(len as nat, |i: int| color));
}

/// Copies the buffer over the whole window, nearest-neighbour.
pub(crate) fn copy_buffer_stretch(
    surface_buffer: &mut [u32],
    buffer: &[u8],
    buffer_width: u32,
    buffer_height: u32,
    window_width: u32,
    window_height: u32,
)
    requires
        buffer_width > 0,
        buffer_height > 0,
        buffer@.len() == 4 * buffer_width * buffer_height,
    ensures
        final(surface_buffer)@.len() == old(surface_buffer)@.len(),
        forall|i: int|
            0 <= i < old(surface_buffer)@.len() ==> final(surface_buffer)@[i] == region_pixel(
                buffer@,
                buffer_width as int,
                buffer_height as int,
                window_width as int,
                window_height as int,
                layout_of(
                    buffer_width as int,
                    buffer_height as int,
                    window_width as int,
                    window_height as int,
                    ScaleMode::Stretch,
                ),
                i,
                old(surface_buffer)@[i],
            ),
{
    copy_buffer_scaled(
        surface_buffer,
        buffer,
        CopyBufferParams {
            buffer_width,
            buffer_height,
            window_width,
            window_height,
            offset_x: 0,
            offset_y: 0,
            scaled_width: window_width as u64,
            scaled_height: window_height as u64,
        },
    );
}

/// Copies the buffer one to one, centered, clipped to the smaller of buffer and
/// window in each dimension.
pub(crate) fn copy_buffer_centered(
    surface_buffer: &mut [u32],
    buffer: &[u8],
    buffer_width: u32,
    buffer_height: u32,
    window_width: u32,
    window_height: u32,
)
    requires
        buffer_width > 0,
        buffer_height > 0,
        buffer@.len() == 4 * buffer_width * buffer_height,
    ensures
        final(surface_buffer)@.len() == old(surface_buffer)@.len(),
        forall|i: int|
            0 <= i < old(surface_buffer)@.len() ==> final(surface_buffer)@[i] == region_pixel(
                buffer@,
                buffer_width as int,
                buffer_height as int,
                window_width as int,
                window_height as int,
                layout_of(
                    buffer_width as int,
                    buffer_height as int,
                    window_width as int,
                    window_height as int,
                    ScaleMode::Unscaled,
                ),
                i,
                old(surface_buffer)@[i],
            ),
{
    let offset_x = if buffer_width <= window_width {
        (window_width - buffer_width) / 2
    } else {
        0
    };
    let offset_y = if buffer_height <= window_height {
        (window_height - buffer_height) / 2
    } else {
        0
    };
    copy_buffer_scaled(
        surface_buffer,
        buffer,
        CopyBufferParams {
            buffer_width,
            buffer_height,
            window_width,
            window_height,
            offset_x: offset_x as i64,
            offset_y: offset_y as i64,
            scaled_width: buffer_width as u64,
            scaled_height: buffer_height as u64,
        },
    );
}

} // verus!
