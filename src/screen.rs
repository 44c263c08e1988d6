use vstd::prelude::*;

verus! {

/// Width of the visible picture in pixels.
pub const SCREEN_WIDTH: usize = 256;

/// Height of the visible picture in pixels.
pub const SCREEN_HEIGHT: usize = 240;

/// Number of pixels in one frame.
pub const SCREEN_PIXELS: usize = 61440;

/// The frame buffer handed to the host: 256 x 240 six-bit palette indices, row-major.
pub struct Screen {
    pub screen: Vec<u8>,
}

/// Whether `pixels` is a grid of 240 rows of 256 entries each.
pub open spec fn is_frame_grid(pixels: Seq<Vec<u8>>) -> bool {
    &&& pixels.len() == SCREEN_HEIGHT
    &&& forall|y: int| 0 <= y < SCREEN_HEIGHT ==> (#[trigger] pixels[y])@.len() == SCREEN_WIDTH
}

/// The grid laid out row after row.
pub open spec fn flatten_grid(pixels: Seq<Vec<u8>>) -> Seq<u8> {
    Seq::new(SCREEN_PIXELS as nat, |i: int| pixels[i / 256]@[i % 256])
}

/// The red, green, blue and alpha bytes that stand for palette index `p` in the
/// host image: two bits of the index for each colour channel, fully opaque.
pub open spec fn rgba_of(p: u8, k: int) -> u8 {
    if k == 0 {
        p & 0x30
    } else if k == 1 {
        p & 0x0c
    } else if k == 2 {
        p & 0x03
    } else {
        255
    }
}

proof fn lemma_row_major(y: int, x: int)
    requires
        0 <= y,
        0 <= x < 256,
    ensures
        (y * 256 + x) / 256 == y,
        (y * 256 + x) % 256 == x,
{
    vstd::arithmetic::div_mod::lemma_fundamental_div_mod_converse(y * 256 + x, 256, y, x);
}

impl Screen {
    /// Whether the buffer holds exactly one frame.
    pub open spec fn wf(&self) -> bool {
        self.screen@.len() == SCREEN_PIXELS
    }

    /// A black frame: every index zero.
    pub fn new() -> (r: Screen)
        ensures
            r.wf(),
            r.screen@ == Seq::new(SCREEN_PIXELS as nat, |i: int| 0u8),
    {
        Screen { screen: crate::wram::zeroed(SCREEN_PIXELS) }
    }

    /// Publishes a composed frame, given as 240 rows of 256 indices.
    pub fn draw(&mut self, pixels: Vec<Vec<u8>>)
        requires
            is_frame_grid(pixels@),
        ensures
            final(self).screen@ == flatten_grid(pixels@),
            final(self).wf(),
    {
        let mut out: Vec<u8> = Vec::with_capacity(SCREEN_PIXELS);
        let mut y: usize = 0;
        while y < SCREEN_HEIGHT
            invariant
                is_frame_grid(pixels@),
                y <= SCREEN_HEIGHT,
                out@.len() == y * 256,
                forall|i: int| 0 <= i < out@.len() ==> #[trigger] out@[i] == pixels@[i / 256]@[i % 256],
            decreases SCREEN_HEIGHT - y,
        {
            let row = &pixels[y];
            let mut x: usize = 0;
            while x < SCREEN_WIDTH
                invariant
                    is_frame_grid(pixels@),
                    y < SCREEN_HEIGHT,
                    x <= SCREEN_WIDTH,
                    *row == pixels@[y as int],
                    out@.len() == y * 256 + x,
                    forall|i: int| 0 <= i < out@.len() ==> #[trigger] out@[i] == pixels@[i / 256]@[i % 256],
                decreases SCREEN_WIDTH - x,
            {
                proof {
                    lemma_row_major(y as int, x as int);
                }
                out.push(row[x]);
                x = x + 1;
            }
            y = y + 1;
        }
        proof {
            assert(out@ =~= flatten_grid(pixels@));
        }
        self.screen = out;
    }

    /// Turns a frame of 240 rows of 256 palette indices into RGBA bytes, four per
    /// pixel, row-major.
    pub fn convert_screen_to_image(&self, pixels: Vec<Vec<u8>>) -> (r: Vec<u8>)
        requires
            is_frame_grid(pixels@),
        ensures
            r@.len() == 4 * SCREEN_PIXELS,
            forall|i: int, k: int|
                0 <= i < SCREEN_PIXELS && 0 <= k < 4 ==> #[trigger] r@[4 * i + k] == rgba_of(
                    pixels@[i / 256]@[i % 256],
                    k,
                ),
    {
        let mut data: Vec<u8> = Vec::with_capacity(4 * SCREEN_PIXELS);
        let mut y: usize = 0;
        while y < SCREEN_HEIGHT
            invariant
                is_frame_grid(pixels@),
                y <= SCREEN_HEIGHT,
                data@.len() == 4 * (y * 256),
                forall|i: int, k: int|
                    0 <= i < y * 256 && 0 <= k < 4 ==> #[trigger] data@[4 * i + k] == rgba_of(
                        pixels@[i / 256]@[i % 256],
                        k,
                    ),
            decreases SCREEN_HEIGHT - y,
        {
            let row = &pixels[y];
            let mut x: usize = 0;
            while x < SCREEN_WIDTH
                invariant
                    is_frame_grid(pixels@),
                    y < SCREEN_HEIGHT,
                    x <= SCREEN_WIDTH,
                    *row == pixels@[y as int],
                    data@.len() == 4 * (y * 256 + x),
                    forall|i: int, k: int|
                        0 <= i < y * 256 + x && 0 <= k < 4 ==> #[trigger] data@[4 * i + k]
                            == rgba_of(pixels@[i / 256]@[i % 256], k),
                decreases SCREEN_WIDTH - x,
            {
                let p = row[x];
                proof {
                    lemma_row_major(y as int, x as int);
                }
                let ghost before = data@;
                data.push(p & 0x30);
                data.push(p & 0x0c);
                data.push(p & 0x03);
                data.push(255);
                proof {
                    let n = y * 256 + x;
                    assert forall|i: int, k: int|
                        0 <= i < n + 1 && 0 <= k < 4 implies #[trigger] data@[4 * i + k]
                            == rgba_of(pixels@[i / 256]@[i % 256], k) by {
                        if i < n {
                            assert(data@[4 * i + k] == before[4 * i + k]);
                        }
                    }
                }
                x = x + 1;
            }
            y = y + 1;
        }
        data
    }
}

} // verus!
