use vstd::prelude::*;
use vstd::arithmetic::div_mod::lemma_fundamental_div_mod_converse;
use crate::state::{BrowserState, FrameStore};

verus! {

/// Which layer of the page a paint belongs to.
#[derive(Clone, Copy, Debug, PartialEq, Eq, Structural)]
pub enum PaintElementType {
    /// The main view.
    View,
    /// A popup drawn over the view.
    Popup,
}

/// A paint that breaks the engine's side of the contract.
#[derive(Clone, Copy, Debug, PartialEq, Eq, Structural)]
pub enum PaintError {
    /// A negative width or height.
    InvalidDimensions,
    /// Fewer than `width * height * 4` bytes.
    BufferTooShort,
}

/// The row of the source that output row `y` comes from.
pub open spec fn source_row(y: int, h: int, bottom_up: bool) -> int {
    if bottom_up { h - 1 - y } else { y }
}

/// The source byte that output byte `i` is copied from. Output pixel `p` is
/// pixel `(p % w, p / w)`; its red, green and blue bytes are bytes 2, 1 and 0
/// of the four-byte source pixel at the same column of `source_row`.
pub open spec fn source_byte(i: int, w: int, h: int, bottom_up: bool) -> int {
    let p = i / 3;
    let c = i % 3;
    (source_row(p / w, h, bottom_up) * w + p % w) * 4 + (2 - c)
}

/// A four-byte-per-pixel frame of `w` by `h` pixels as packed RGB.
pub open spec fn normalized(src: Seq<u8>, w: int, h: int, bottom_up: bool) -> Seq<u8> {
    Seq::new((w * h * 3) as nat, |i: int| src[source_byte(i, w, h, bottom_up)])
}

proof fn lemma_source_byte(w: int, h: int, x: int, y: int, c: int, bottom_up: bool)
    requires
        0 <= x < w,
        0 <= y < h,
        0 <= c < 3,
    ensures
        source_byte((y * w + x) * 3 + c, w, h, bottom_up) == (source_row(y, h, bottom_up) * w + x)
            * 4 + (2 - c),
{
    let p = y * w + x;
    lemma_fundamental_div_mod_converse((p * 3 + c), 3, p, c);
    assert(p >= 0) by (nonlinear_arith)
        requires
            0 <= x,
            0 <= y,
            w > 0,
            p == y * w + x,
    ;
    lemma_fundamental_div_mod_converse(p, w, y, x);
}

proof fn lemma_pixel_bounds(w: int, h: int, x: int, y: int)
    requires
        0 <= x < w,
        0 <= y < h,
    ensures
        0 <= y * w + x,
        (y * w + x) * 4 + 3 < w * h * 4,
        (y * w + x + 1) * 3 <= w * h * 3,
{
    assert(0 <= y * w + x < w * h) by (nonlinear_arith)
        requires
            0 <= x < w,
            0 <= y < h,
    ;
}

/// Converts a four-byte-per-pixel frame (blue, green, red, padding) to packed
/// RGB, reading the rows from the bottom up where `bottom_up` is set.
pub fn bgra_to_rgb(src: &[u8], width: usize, height: usize, bottom_up: bool) -> (r: Vec<u8>)
    requires
        src@.len() >= width * height * 4,
    ensures
        r@ == normalized(src@, width as int, height as int, bottom_up),
{
    let ghost w = width as int;
    let ghost h = height as int;
    let len = src.len();
    let mut out: Vec<u8> = Vec::new();
    let mut y: usize = 0;
    while y < height
        invariant
            src@.len() >= w * h * 4,
            len == src@.len(),
            w == width,
            h == height,
            y <= height,
            out@.len() == y * w * 3,
            forall|i: int| 0 <= i < out@.len() ==> #[trigger] out@[i] == src@[source_byte(i, w, h, bottom_up)],
        decreases height - y,
    {
        let sy = if bottom_up { height - 1 - y } else { y };
        let mut x: usize = 0;
        while x < width
            invariant
                src@.len() >= w * h * 4,
                len == src@.len(),
                w == width,
                h == height,
                y < height,
                sy == source_row(y as int, h, bottom_up),
                x <= width,
                out@.len() == (y * w + x) * 3,
                forall|i: int| 0 <= i < out@.len() ==> #[trigger] out@[i] == src@[source_byte(i, w, h, bottom_up)],
            decreases width - x,
        {
            proof {
                lemma_pixel_bounds(w, h, x as int, sy as int);
                lemma_pixel_bounds(w, h, x as int, y as int);
                lemma_source_byte(w, h, x as int, y as int, 0, bottom_up);
                lemma_source_byte(w, h, x as int, y as int, 1, bottom_up);
                lemma_source_byte(w, h, x as int, y as int, 2, bottom_up);
            }
            let idx = (sy * width + x) * 4;
            out.push(src[idx + 2]);
            out.push(src[idx + 1]);
            out.push(src[idx]);
            x = x + 1;
        }
        y = y + 1;
        proof {
            assert((y - 1) * w + w == y * w) by (nonlinear_arith);
        }
    }
    proof {
        assert(h * w * 3 == w * h * 3) by (nonlinear_arith);
        assert(out@ =~= normalized(src@, w, h, bottom_up));
    }
    out
}

/// The engine-facing side of rendering: answers viewport queries and turns
/// each painted view into a stored RGB frame.
#[derive(Clone, Copy, Debug)]
pub struct TerminalRenderHandler {
    /// Whether the engine's rows run from the bottom of the image up.
    pub bottom_up: bool,
}

impl TerminalRenderHandler {
    /// A handler for an engine whose rows run from the top down, as the
    /// off-screen rendering interface documents its buffers.
    pub fn new() -> (r: TerminalRenderHandler)
        ensures
            !r.bottom_up,
    {
        TerminalRenderHandler { bottom_up: false }
    }

    /// The viewport size to report: that of the last frame, or the default.
    pub fn get_view_rect(&self, state: &BrowserState) -> (r: (i32, i32))
        ensures
            match state.frame.view() {
                Some(v) => r == (v.1 as i32, v.2 as i32),
                None => r == (crate::state::DEFAULT_VIEW_WIDTH, crate::state::DEFAULT_VIEW_HEIGHT),
            },
    {
        state.view_rect()
    }

    /// Handles one paint. A view paint with a valid size and at least
    /// `width * height * 4` bytes is converted and published; any other view
    /// paint is refused and leaves the store untouched; popup paints are
    /// ignored.
    pub fn on_paint(
        &self,
        store: &mut FrameStore,
        kind: PaintElementType,
        buffer: &[u8],
        width: i32,
        height: i32,
    ) -> (r: Result<(), PaintError>)
        requires
            old(store).wf(),
        ensures
            final(store).wf(),
            kind == PaintElementType::Popup ==> r == Ok::<(), PaintError>(()) && *final(store) == *old(store),
            kind == PaintElementType::View && (width < 0 || height < 0) ==> r == Err::<(), PaintError>(
                PaintError::InvalidDimensions,
            ) && *final(store) == *old(store),
            kind == PaintElementType::View && width >= 0 && height >= 0 && buffer@.len() < width
                * height * 4 ==> r == Err::<(), PaintError>(PaintError::BufferTooShort) && *final(store)
                == *old(store),
            kind == PaintElementType::View && width >= 0 && height >= 0 && buffer@.len() >= width
                * height * 4 ==> r == Ok::<(), PaintError>(()) && final(store).view() == Some(
                (normalized(buffer@, width as int, height as int, self.bottom_up), width as int, height as int),
            ),
    {
        match kind {
            PaintElementType::Popup => Ok(()),
            PaintElementType::View => {
                if width < 0 || height < 0 {
                    return Err(PaintError::InvalidDimensions);
                }
                proof {
                    let (wi, hi) = (width as int, height as int);
                    assert(wi * hi * 4 <= 0xFFFF_FFFF_FFFF_FFFF) by (nonlinear_arith)
                        requires
                            0 <= wi <= 0x7FFF_FFFF,
                            0 <= hi <= 0x7FFF_FFFF,
                    ;
                }
                let needed: u64 = width as u64 * height as u64 * 4;
                if needed > buffer.len() as u64 {
                    return Err(PaintError::BufferTooShort);
                }
                let rgb = bgra_to_rgb(buffer, width as usize, height as usize, self.bottom_up);
                proof {
                    assert(rgb@.len() == width * height * 3);
                }
                store.publish(rgb, width, height);
                Ok(())
            },
        }
    }
}

} // verus!
