//! The nested backend's window: what it does on a window event, and the test
//! pattern it paints.
use vstd::prelude::*;

verus! {

/// The red, green and blue channels of the test pattern at column `x`, row
/// `y`, packed as `0x00RRGGBB`.
pub open spec fn pattern_color(x: u32, y: u32) -> int {
    (x % 255) * 65536 + (y % 255) * 256 + (x * y) % 255
}

/// The pixel of the test pattern at column `x`, row `y`: red from the column,
/// green from the row, blue from their product, each modulo 255.
pub fn pattern_pixel(x: u32, y: u32) -> (p: u32)
    requires
        x * y <= u32::MAX,
    ensures
        p == pattern_color(x, y),
{
    let red = x % 255;
    let green = y % 255;
    let blue = (x * y) % 255;
    assert(blue | (green << 8u32) | (red << 16u32) == red * 65536 + green * 256 + blue)
        by (bit_vector)
        requires
            red < 255,
            green < 255,
            blue < 255,
    ;
    blue | (green << 8) | (red << 16)
}

/// The channels of a pattern pixel: its high byte is zero, its red byte
/// (bits 16 to 23) is the column modulo 255, its green byte (bits 8 to 15) the
/// row modulo 255, and its blue byte (bits 0 to 7) the product of column and
/// row modulo 255.
pub proof fn lemma_pattern_channels(x: u32, y: u32)
    ensures
        0 <= pattern_color(x, y) < 0x0100_0000,
        pattern_color(x, y) / 65536 == x % 255,
        (pattern_color(x, y) / 256) % 256 == y % 255,
        pattern_color(x, y) % 256 == (x * y) % 255,
{
    lemma_channels((x % 255) as int, (y % 255) as int, (x * y) % 255);
}

proof fn lemma_channels(r: int, g: int, b: int)
    requires
        0 <= r < 255,
        0 <= g < 255,
        0 <= b < 255,
    ensures
        0 <= r * 65536 + g * 256 + b < 0x0100_0000,
        (r * 65536 + g * 256 + b) / 65536 == r,
        ((r * 65536 + g * 256 + b) / 256) % 256 == g,
        (r * 65536 + g * 256 + b) % 256 == b,
{
    assert((r * 65536 + g * 256 + b) / 256 == r * 256 + g) by (nonlinear_arith)
        requires
            0 <= r < 255,
            0 <= g < 255,
            0 <= b < 255,
    ;
    assert((r * 256 + g) % 256 == g) by (nonlinear_arith)
        requires
            0 <= r < 255,
            0 <= g < 255,
    ;
    assert((r * 65536 + g * 256 + b) / 65536 == r) by (nonlinear_arith)
        requires
            0 <= r < 255,
            0 <= g < 255,
            0 <= b < 255,
    ;
    assert((r * 65536 + g * 256 + b) % 256 == b) by (nonlinear_arith)
        requires
            0 <= r < 255,
            0 <= g < 255,
            0 <= b < 255,
    ;
}

/// Whether every product of a column and a row of a `width` by `height` image
/// fits in a word, and the image's pixel count fits in memory.
pub open spec fn pattern_fits(width: u32, height: u32) -> bool {
    &&& width * height <= usize::MAX
    &&& (width == 0 || height == 0 || (width - 1) * (height - 1) <= u32::MAX)
}

proof fn lemma_product_bounds(x: u32, y: u32, width: u32, height: u32)
    requires
        x < width,
        y < height,
        pattern_fits(width, height),
    ensures
        x * y <= u32::MAX,
        y * width + x < width * height,
        y * width + x <= usize::MAX,
{
    assert(x * y <= (width - 1) * (height - 1)) by (nonlinear_arith)
        requires
            x < width,
            y < height,
    ;
    assert(y * width + x < width * height) by (nonlinear_arith)
        requires
            x < width,
            y < height,
    ;
}

/// The test pattern of a `width` by `height` window, row by row: the pixel at
/// column `x`, row `y` stands at `y * width + x`.
pub fn render_pattern(width: u32, height: u32) -> (pixels: Vec<u32>)
    requires
        pattern_fits(width, height),
    ensures
        pixels.len() == width * height,
        forall|x: u32, y: u32|
            x < width && y < height ==> #[trigger] pixels@[y * width + x] == pattern_color(x, y),
{
    let mut pixels: Vec<u32> = Vec::new();
    let mut y: u32 = 0;
    while y < height
        invariant
            y <= height,
            pattern_fits(width, height),
            pixels.len() == y * width,
            forall|i: u32, j: u32|
                i < width && j < y ==> #[trigger] pixels@[j * width + i] == pattern_color(i, j),
        decreases height - y,
    {
        let mut x: u32 = 0;
        while x < width
            invariant
                x <= width,
                y < height,
                pattern_fits(width, height),
                pixels.len() == y * width + x,
                forall|i: u32, j: u32|
                    (j < y && i < width) || (j == y && i < x) ==> #[trigger] pixels@[j * width + i]
                        == pattern_color(i, j),
            decreases width - x,
        {
            proof {
                lemma_product_bounds(x, y, width, height);
            }
            let p = pattern_pixel(x, y);
            let ghost before = pixels@;
            pixels.push(p);
            proof {
                assert forall|i: u32, j: u32|
                    (j < y && i < width) || (j == y && i < x + 1) implies #[trigger] pixels@[j * width
                    + i] == pattern_color(i, j) by {
                    if j == y && i == x {
                    } else {
                        lemma_row_index_before(i, j, x, y, width);
                        assert(pixels@[j * width + i] == before[j * width + i]);
                    }
                }
            }
            x = x + 1;
        }
        proof {
            assert((y + 1) * width == y * width + width) by (nonlinear_arith);
        }
        y = y + 1;
    }
    assert(y * width == width * height) by (nonlinear_arith)
        requires
            y == height,
    ;
    pixels
}

proof fn lemma_row_index_before(i: u32, j: u32, x: u32, y: u32, width: u32)
    requires
        (j < y && i < width) || (j == y && i < x),
        x <= width,
    ensures
        j * width + i < y * width + x,
{
    if j < y {
        assert(j * width + i < (j + 1) * width) by (nonlinear_arith)
            requires
                i < width,
        ;
        assert((j + 1) * width <= y * width) by (nonlinear_arith)
            requires
                j < y,
        ;
    }
}

/// The window events the backend reacts to.
#[derive(Debug, Clone, Copy, PartialEq, Eq, Structural)]
pub enum WindowEventKind {
    RedrawRequested,
    CloseRequested,
    Other,
}

/// What the backend does about a window event.
#[derive(Debug, Clone, Copy, PartialEq, Eq, Structural)]
pub enum WindowAction {
    /// Resize the surface to `width` by `height` and paint the test pattern on it.
    Redraw { width: u32, height: u32 },
    /// Leave the event loop.
    Exit,
    /// Nothing.
    Ignore,
}

/// What to do about `event`, sent for the backend's own window or another
/// one, when the window is `width` by `height`: redraw the own window when it
/// has an area, leave when the own window is closed, and otherwise nothing.
pub fn window_event(event: WindowEventKind, own_window: bool, width: u32, height: u32) -> (a:
    WindowAction)
    ensures
        a == match event {
            WindowEventKind::RedrawRequested => if own_window && width != 0 && height != 0 {
                WindowAction::Redraw { width, height }
            } else {
                WindowAction::Ignore
            },
            WindowEventKind::CloseRequested => if own_window {
                WindowAction::Exit
            } else {
                WindowAction::Ignore
            },
            WindowEventKind::Other => WindowAction::Ignore,
        },
{
    match event {
        WindowEventKind::RedrawRequested => {
            if own_window && width != 0 && height != 0 {
                WindowAction::Redraw { width, height }
            } else {
                WindowAction::Ignore
            }
        },
        WindowEventKind::CloseRequested => {
            if own_window {
                WindowAction::Exit
            } else {
                WindowAction::Ignore
            }
        },
        WindowEventKind::Other => WindowAction::Ignore,
    }
}

} // verus!
