use vstd::prelude::*;
use crate::cache::{action_for, reconciled, CacheAction, RenderStateCache};
use crate::compose::{
    composed_frame,
    copy_buffer_centered,
    copy_buffer_scaled,
    copy_buffer_stretch,
    fill_background,
    pack,
    pack_rgb,
    CopyBufferParams,
};
use crate::layout::{calculate_scaled_dimensions, ScaleMode};

verus! {

/// Why a render did not present a frame.
#[derive(Debug, Clone, PartialEq, Eq)]
pub enum RenderError {
    /// The buffer's length is not `buffer_width * buffer_height * 4`.
    BufferSizeMismatch { expected: u128, actual: usize, buffer_width: u32, buffer_height: u32 },
    /// The window could not be resolved (it is gone or cannot be locked).
    WindowUnavailable,
    /// The native surface could not be created, resized, acquired or presented.
    SurfaceFailure { message: String },
    /// The render-state cache could not be locked.
    LockFailure,
}

/// Options for building a [`PixelRenderer`].
#[derive(Debug, Clone)]
pub struct RenderOptions {
    /// Width of the source buffer in pixels.
    pub buffer_width: u32,
    /// Height of the source buffer in pixels.
    pub buffer_height: u32,
    /// Scaling mode (default: fit).
    pub scale_mode: Option<ScaleMode>,
    /// Background color for letterboxing, `[r, g, b, a]` (default: opaque black).
    pub background_color: Option<Vec<u8>>,
}

impl Default for RenderOptions {
    fn default() -> (r: Self)
        ensures
            r.buffer_width == 800,
            r.buffer_height == 600,
            r.scale_mode == Some(ScaleMode::Fit),
            r.background_color matches Some(c) && c@ == seq![0u8, 0, 0, 255],
    {
        RenderOptions {
            buffer_width: 800,
            buffer_height: 600,
            scale_mode: Some(ScaleMode::Fit),
            background_color: Some(vec![0, 0, 0, 255]),
        }
    }
}

/// The configuration of a renderer, as contracts see it.
pub struct RendererView {
    pub buffer_width: u32,
    pub buffer_height: u32,
    pub scale_mode: ScaleMode,
    /// `[r, g, b, a]`.
    pub background_color: Seq<u8>,
}

/// The background color of renderers that were given none.
pub open spec fn default_background() -> Seq<u8> {
    seq![0u8, 0, 0, 255]
}

/// The background color that `with_options` takes from a requested one: its
/// first four bytes, or the default where fewer were given.
pub open spec fn background_from(requested: Option<Vec<u8>>) -> Seq<u8> {
    match requested {
        Some(c) => if c@.len() >= 4 {
            c@.subrange(0, 4)
        } else {
            default_background()
        },
        Option::None => default_background(),
    }
}

/// A render's frame depends on the renderer, the buffer, the window size and
/// the frame's length alone, never on what the surface held before: rendering
/// twice with the same window size and buffer presents the same frame.
pub proof fn lemma_render_is_idempotent(
    r: PixelRenderer,
    buffer: Seq<u8>,
    window_width: u32,
    window_height: u32,
    first: Seq<u32>,
    second: Seq<u32>,
)
    requires
        first.len() == second.len(),
    ensures
        composed_frame(
            buffer,
            r@.buffer_width as int,
            r@.buffer_height as int,
            window_width as int,
            window_height as int,
            r@.scale_mode,
            r.background_pixel(),
            first.len(),
        ) == composed_frame(
            buffer,
            r@.buffer_width as int,
            r@.buffer_height as int,
            window_width as int,
            window_height as int,
            r@.scale_mode,
            r.background_pixel(),
            second.len(),
        ),
{
}

/// Presents fixed-size RGBA buffers in windows of any size.
pub struct PixelRenderer {
    buffer_width: u32,
    buffer_height: u32,
    scale_mode: ScaleMode,
    bg_color: [u8; 4],
}

impl View for PixelRenderer {
    type V = RendererView;

    closed spec fn view(&self) -> RendererView {
        RendererView {
            buffer_width: self.buffer_width,
            buffer_height: self.buffer_height,
            scale_mode: self.scale_mode,
            background_color: self.bg_color@,
        }
    }
}

impl PixelRenderer {
    /// Buffer dimensions are positive and the background has four channels.
    pub open spec fn wf(&self) -> bool {
        &&& self@.buffer_width > 0
        &&& self@.buffer_height > 0
        &&& self@.background_color.len() == 4
    }

    /// The byte length a buffer must have.
    pub open spec fn expected_len(&self) -> int {
        4 * self@.buffer_width * self@.buffer_height
    }

    /// The background as an opaque packed pixel.
    pub open spec fn background_pixel(&self) -> u32 {
        pack_rgb(self@.background_color[0], self@.background_color[1], self@.background_color[2])
    }

    /// The error a buffer of `len` bytes gives.
    pub open spec fn mismatch(&self, len: usize) -> RenderError {
        RenderError::BufferSizeMismatch {
            expected: self.expected_len() as u128,
            actual: len,
            buffer_width: self@.buffer_width,
            buffer_height: self@.buffer_height,
        }
    }

    /// A renderer for `buffer_width` x `buffer_height` buffers, fitted, on black.
    pub fn new(buffer_width: u32, buffer_height: u32) -> (r: Self)
        requires
            buffer_width > 0,
            buffer_height > 0,
        ensures
            r.wf(),
            r@.buffer_width == buffer_width,
            r@.buffer_height == buffer_height,
            r@.scale_mode == ScaleMode::Fit,
            r@.background_color == default_background(),
    {
        let r = PixelRenderer {
            buffer_width,
            buffer_height,
            scale_mode: ScaleMode::Fit,
            bg_color: [0, 0, 0, 255],
        };
        assert(r.bg_color@ =~= default_background());
        r
    }

    /// A renderer built from options; absent ones take their defaults.
    pub fn with_options(options: RenderOptions) -> (r: Self)
        requires
            options.buffer_width > 0,
            options.buffer_height > 0,
        ensures
            r.wf(),
            r@.buffer_width == options.buffer_width,
            r@.buffer_height == options.buffer_height,
            r@.scale_mode == (match options.scale_mode {
                Some(m) => m,
                Option::None => ScaleMode::Fit,
            }),
            r@.background_color == background_from(options.background_color),
    {
        let bg_color: [u8; 4] = match &options.background_color {
            Some(c) => if c.len() >= 4 {
                [c[0], c[1], c[2], c[3]]
            } else {
                [0, 0, 0, 255]
            },
            Option::None => [0, 0, 0, 255],
        };
        let scale_mode = match options.scale_mode {
            Some(m) => m,
            Option::None => ScaleMode::Fit,
        };
        let r = PixelRenderer {
            buffer_width: options.buffer_width,
            buffer_height: options.buffer_height,
            scale_mode,
            bg_color,
        };
        assert(r.bg_color@ =~= background_from(options.background_color));
        r
    }

    /// Sets the scaling mode.
    pub fn set_scale_mode(&mut self, mode: ScaleMode)
        ensures
            final(self)@.scale_mode == mode,
            final(self)@.buffer_width == old(self)@.buffer_width,
            final(self)@.buffer_height == old(self)@.buffer_height,
            final(self)@.background_color == old(self)@.background_color,
    {
        self.scale_mode = mode;
    }

    /// Sets the background color.
    pub fn set_background_color(&mut self, r: u8, g: u8, b: u8, a: u8)
        ensures
            final(self)@.background_color == seq![r, g, b, a],
            final(self)@.buffer_width == old(self)@.buffer_width,
            final(self)@.buffer_height == old(self)@.buffer_height,
            final(self)@.scale_mode == old(self)@.scale_mode,
    {
        self.bg_color = [r, g, b, a];
        assert(self.bg_color@ =~= seq![r, g, b, a]);
    }

    /// Checks that a buffer of `len` bytes holds exactly one RGBA frame.
    pub fn check_buffer_len(&self, len: usize) -> (r: Result<(), RenderError>)
        requires
            self.wf(),
        ensures
            len == self.expected_len() ==> r == Ok::<(), RenderError>(()),
            len != self.expected_len() ==> r == Err::<(), RenderError>(self.mismatch(len)),
    {
        let bw = self.buffer_width as u128;
        let bh = self.buffer_height as u128;
        assert(4 * bw * bh <= 4 * (u32::MAX as int) * (u32::MAX as int)) by (nonlinear_arith)
            requires
                bw <= u32::MAX,
                bh <= u32::MAX,
        ;
        let expected: u128 = 4 * bw * bh;
        if len as u128 == expected {
            Ok(())
        } else {
            Err(
                RenderError::BufferSizeMismatch {
                    expected,
                    actual: len,
                    buffer_width: self.buffer_width,
                    buffer_height: self.buffer_height,
                },
            )
        }
    }

    /// The decisions a render of window `window_id` at `window_width` x
    /// `window_height` makes before drawing: the buffer is checked first, and a
    /// wrong one leaves the cache as it was; then the window's cached state is
    /// reconciled with its size. The caller makes a state where the answer is
    /// `Create` or `Recreate`.
    pub fn begin_render<S>(
        &self,
        cache: &mut RenderStateCache<S>,
        window_id: u64,
        window_width: u32,
        window_height: u32,
        buffer_len: usize,
    ) -> (r: Result<CacheAction, RenderError>)
        requires
            self.wf(),
        ensures
            buffer_len != self.expected_len() ==> r == Err::<CacheAction, RenderError>(
                self.mismatch(buffer_len),
            ) && final(cache)@ == old(cache)@,
            buffer_len == self.expected_len() ==> r == Ok::<CacheAction, RenderError>(
                action_for(old(cache)@, window_id, window_width, window_height),
            ) && final(cache)@ == reconciled(old(cache)@, window_id, window_width, window_height),
    {
        match self.check_buffer_len(buffer_len) {
            Err(e) => Err(e),
            Ok(()) => Ok(cache.reconcile(window_id, window_width, window_height)),
        }
    }

    /// Draws one frame: the background everywhere, then the buffer under the
    /// configured scale mode. Pixels past `window_width * window_height` keep
    /// the background.
    pub fn render_to_buffer(
        &self,
        surface_buffer: &mut [u32],
        buffer: &[u8],
        window_width: u32,
        window_height: u32,
    )
        requires
            self.wf(),
            buffer@.len() == self.expected_len(),
        ensures
            final(surface_buffer)@ == composed_frame(
                buffer@,
                self@.buffer_width as int,
                self@.buffer_height as int,
                window_width as int,
                window_height as int,
                self@.scale_mode,
                self.background_pixel(),
                old(surface_buffer)@.len(),
            ),
    {
        let bw = self.buffer_width;
        let bh = self.buffer_height;
        let background = pack(self.bg_color[0], self.bg_color[1], self.bg_color[2]);
        fill_background(surface_buffer, background);
        match self.scale_mode {
            ScaleMode::Stretch => {
                copy_buffer_stretch(surface_buffer, buffer, bw, bh, window_width, window_height);
            },
            ScaleMode::Unscaled => {
                copy_buffer_centered(surface_buffer, buffer, bw, bh, window_width, window_height);
            },
            _ => {
                let l = calculate_scaled_dimensions(bw, bh, window_width, window_height, self.scale_mode);
                copy_buffer_scaled(
                    surface_buffer,
                    buffer,
                    CopyBufferParams {
                        buffer_width: bw,
                        buffer_height: bh,
                        window_width,
                        window_height,
                        offset_x: l.offset_x,
                        offset_y: l.offset_y,
                        scaled_width: l.scaled_width,
                        scaled_height: l.scaled_height,
                    },
                );
            },
        }
        assert(surface_buffer@ =~= composed_frame(
            buffer@,
            bw as int,
            bh as int,
            window_width as int,
            window_height as int,
            self.scale_mode,
            background,
            surface_buffer@.len(),
        ));
    }

    /// Width of the source buffer in pixels.
    pub fn buffer_width(&self) -> (r: u32)
        ensures
            r == self@.buffer_width,
    {
        self.buffer_width
    }

    /// Height of the source buffer in pixels.
    pub fn buffer_height(&self) -> (r: u32)
        ensures
            r == self@.buffer_height,
    {
        self.buffer_height
    }

    /// The scaling mode.
    pub fn scale_mode(&self) -> (r: ScaleMode)
        ensures
            r == self@.scale_mode,
    {
        self.scale_mode
    }

    /// The background color, `[r, g, b, a]`.
    pub fn background_color(&self) -> (r: [u8; 4])
        ensures
            r@ == self@.background_color,
    {
        self.bg_color
    }
}

} // verus!
