//! Painting the shapes of the access screen onto RGBA pixels.
//!
//! Everything whose geometry is a multiple of half a pixel is painted here,
//! exactly. Text is painted with a built-in bitmap font.

use font8x8::{UnicodeFonts, BASIC_FONTS};
use vstd::prelude::*;

use crate::layout::{Rect, RECT_LIMIT};
use crate::platform::{CapturedFrame, DesktopSize};
use crate::scene::{Color, Shape, ShapeModel};

verus! {

/// A picture of RGBA pixels, one tightly packed row after another.
pub struct Canvas {
    size: DesktopSize,
    rgba: Vec<u8>,
}

/// The column of the pixel that the byte `i` of a picture belongs to.
pub open spec fn column_of(size: DesktopSize, i: int) -> int {
    (i / 4) % (size.width as int)
}

/// The row of the pixel that the byte `i` of a picture belongs to.
pub open spec fn row_of(size: DesktopSize, i: int) -> int {
    (i / 4) / (size.width as int)
}

/// The component of a colour: red, green, blue or the opacity.
pub open spec fn component(color: Color, channel: int) -> u8 {
    if channel == 0 {
        color.red
    } else if channel == 1 {
        color.green
    } else if channel == 2 {
        color.blue
    } else {
        color.alpha
    }
}

/// A byte of a pixel after a colour was laid over it with the given coverage: the
/// colour components are mixed, the pixel becomes opaque.
pub open spec fn blended(byte: u8, color: Color, coverage: u8, channel: int) -> u8 {
    if channel == 3 {
        255
    } else {
        let alpha = color.alpha as int * coverage as int / 255;
        ((component(color, channel) as int * alpha + byte as int * (255 - alpha)) / 255) as u8
    }
}

/// Whether `after` is the picture `before` with a colour laid over the pixels of
/// a region.
pub open spec fn painted(
    before: Seq<u8>,
    after: Seq<u8>,
    size: DesktopSize,
    region: spec_fn(int, int) -> bool,
    color: Color,
    coverage: u8,
) -> bool {
    &&& after.len() == before.len()
    &&& forall|i: int|
        0 <= i < before.len() ==> #[trigger] after[i] == if region(
            column_of(size, i),
            row_of(size, i),
        ) {
            blended(before[i], color, coverage, i % 4)
        } else {
            before[i]
        }
}

/// Whether a point, in half pixels, lies in a rectangle with round corners, the
/// border of the given thickness taken away on each side.
pub open spec fn in_round_rect(rect: Rect, border: int, radius: int, x: int, y: int) -> bool {
    let left = rect.x + border;
    let top = rect.y + border;
    let width = rect.width - 2 * border;
    let height = rect.height - 2 * border;
    let diameter = crate::layout::least(2 * radius, crate::layout::least(width, height));
    let dx = beyond(2 * x, 2 * left + diameter, 2 * left + 2 * width - diameter);
    let dy = beyond(2 * y, 2 * top + diameter, 2 * top + 2 * height - diameter);
    &&& left <= x < left + width
    &&& top <= y < top + height
    &&& dx * dx + dy * dy <= diameter * diameter
}

/// How far a value lies outside a range.
pub open spec fn beyond(value: int, low: int, high: int) -> int {
    if value < low {
        value - low
    } else if value > high {
        value - high
    } else {
        0
    }
}

/// The pixels whose centre lies in a rectangle with round corners.
pub open spec fn fill_region(rect: Rect, radius: int) -> spec_fn(int, int) -> bool {
    |x: int, y: int| in_round_rect(rect, 0, radius, 2 * x + 1, 2 * y + 1)
}

/// The pixels whose centre lies in the border of a rectangle with round corners.
pub open spec fn outline_region(rect: Rect, radius: int, thickness: int) -> spec_fn(
    int,
    int,
) -> bool {
    |x: int, y: int|
        in_round_rect(rect, 0, radius, 2 * x + 1, 2 * y + 1) && !in_round_rect(
            rect,
            thickness,
            crate::layout::greatest(radius - thickness, 0),
            2 * x + 1,
            2 * y + 1,
        )
}

/// The pixels whose centre lies in a disc.
pub open spec fn disc_region(center_x: int, center_y: int, radius: int) -> spec_fn(
    int,
    int,
) -> bool {
    |x: int, y: int|
        (2 * x + 1 - center_x) * (2 * x + 1 - center_x) + (2 * y + 1 - center_y) * (2 * y + 1
            - center_y) <= radius * radius
}

/// The byte of the gradient in the given row.
pub open spec fn gradient_byte(row: int, height: int, channel: int) -> u8 {
    if channel == 0 {
        (7 + 5 * row / height) as u8
    } else if channel == 1 {
        (14 + 10 * row / height) as u8
    } else if channel == 2 {
        (29 + 16 * row / height) as u8
    } else {
        255
    }
}

proof fn lemma_byte_of_pixel(size: DesktopSize, x: int, y: int, i: int)
    requires
        0 <= x < size.width,
        0 <= y,
        0 <= i,
    ensures
        (column_of(size, i) == x && row_of(size, i) == y) <==> (y * size.width + x) * 4 <= i < (y
            * size.width + x) * 4 + 4,
{
    let w = size.width as int;
    let p = i / 4;
    assert((y * w + x) * 4 <= i < (y * w + x) * 4 + 4 <==> p == y * w + x);
    if p == y * w + x {
        vstd::arithmetic::div_mod::lemma_fundamental_div_mod_converse(p, w, y, x);
    }
    if p % w == x && p / w == y {
        vstd::arithmetic::div_mod::lemma_fundamental_div_mod(p, w);
        assert(w * y == y * w) by (nonlinear_arith);
    }
}

proof fn lemma_pixel_in_picture(size: DesktopSize, x: int, y: int)
    requires
        0 <= x < size.width,
        0 <= y < size.height,
    ensures
        0 <= (y * size.width + x) * 4,
        (y * size.width + x) * 4 + 4 <= size.pixels() * 4,
{
    let w = size.width as int;
    let h = size.height as int;
    assert(0 <= y * w && y * w + w <= w * h) by (nonlinear_arith)
        requires
            0 <= y < h,
            0 <= w,
    ;
}

impl Canvas {
    /// The size of the picture.
    pub closed spec fn extent(self) -> DesktopSize {
        self.size
    }

    /// The bytes of the picture.
    pub closed spec fn bytes(self) -> Seq<u8> {
        self.rgba@
    }

    /// Whether the picture holds four bytes for each pixel.
    pub open spec fn complete(self) -> bool {
        self.bytes().len() == self.extent().pixels() * 4
    }

    /// A picture of transparent black pixels.
    pub fn new(size: DesktopSize) -> (canvas: Self)
        requires
            size.pixels() * 4 <= usize::MAX,
        ensures
            canvas.extent() == size,
            canvas.complete(),
            canvas.bytes() == Seq::new(size.pixels() * 4, |i: int| 0u8),
    {
        let width: usize = size.width as usize;
        let height: usize = size.height as usize;
        assert(width * height <= usize::MAX) by {
            assert(size.pixels() <= size.pixels() * 4);
        }
        let rgba: Vec<u8> = vec![0u8; width * height * 4];
        assert(rgba@ =~= Seq::new(size.pixels() * 4, |i: int| 0u8));
        Canvas { size, rgba }
    }

    /// The picture as a frame.
    pub fn into_frame(self) -> (frame: CapturedFrame)
        ensures
            frame.declared_size() == self.extent(),
            frame.rgba@ == self.bytes(),
    {
        CapturedFrame { width: self.size.width, height: self.size.height, rgba: self.rgba }
    }

    /// Lays a colour over one pixel. A pixel outside the picture is ignored.
    pub fn blend_pixel(&mut self, x: i32, y: i32, color: Color, coverage: u8)
        requires
            old(self).complete(),
        ensures
            final(self).extent() == old(self).extent(),
            final(self).complete(),
            painted(
                old(self).bytes(),
                final(self).bytes(),
                old(self).extent(),
                |px: int, py: int| px == x && py == y,
                color,
                coverage,
            ),
    {
        let ghost before = self.rgba@;
        let ghost size = self.size;
        proof {
            assert forall|i: int| 0 <= i < before.len() implies 0 <= #[trigger] column_of(size, i)
                < size.width && 0 <= row_of(size, i) < size.height by {
                lemma_byte_in_rows(size, i);
            }
        }
        if x < 0 || y < 0 || x >= self.size.width as i32 || y >= self.size.height as i32 {
            return;
        }
        proof {
            lemma_pixel_in_picture(size, x as int, y as int);
            assert forall|i: int| 0 <= i implies ((#[trigger] column_of(size, i) == x && row_of(
                size,
                i,
            ) == y) <==> (y * size.width + x) * 4 <= i < (y * size.width + x) * 4 + 4) by {
                lemma_byte_of_pixel(size, x as int, y as int, i);
            }
            assert(0 <= y * size.width) by (nonlinear_arith)
                requires
                    0 <= y,
            ;
            assert(self.rgba.len() <= usize::MAX);
        }
        let offset: usize = (y as usize * self.size.width as usize + x as usize) * 4;
        let alpha: u32 = {
            assert(color.alpha * coverage <= 65025) by (nonlinear_arith)
                requires
                    color.alpha <= 255,
                    coverage <= 255,
            ;
            color.alpha as u32 * coverage as u32 / 255
        };
        self.rgba.set(offset, mix(color.red, self.rgba[offset], alpha));
        self.rgba.set(offset + 1, mix(color.green, self.rgba[offset + 1], alpha));
        self.rgba.set(offset + 2, mix(color.blue, self.rgba[offset + 2], alpha));
        self.rgba.set(offset + 3, 255);
    }
}

fn mix(source: u8, byte: u8, alpha: u32) -> (mixed: u8)
    requires
        alpha <= 255,
    ensures
        mixed == ((source as int * alpha as int + byte as int * (255 - alpha)) / 255) as u8,
{
    let inverse: u32 = 255 - alpha;
    assert(source * alpha <= 255 * alpha && byte * inverse <= 255 * inverse) by (nonlinear_arith)
        requires
            source <= 255,
            byte <= 255,
    ;
    ((source as u32 * alpha + byte as u32 * inverse) / 255) as u8
}

proof fn lemma_byte_in_rows(size: DesktopSize, i: int)
    requires
        0 <= i < size.pixels() * 4,
    ensures
        0 <= column_of(size, i) < size.width,
        0 <= row_of(size, i) < size.height,
{
    let w = size.width as int;
    let h = size.height as int;
    let p = i / 4;
    assert(0 <= p < w * h);
    assert(w > 0) by (nonlinear_arith)
        requires
            0 <= p < w * h,
            0 <= w,
            0 <= h,
    ;
    vstd::arithmetic::div_mod::lemma_fundamental_div_mod(p, w);
    vstd::arithmetic::div_mod::lemma_mod_bound(p, w);
    let q = p / w;
    assert(0 <= q < h) by (nonlinear_arith)
        requires
            p == w * q + p % w,
            0 <= p % w < w,
            0 <= p < w * h,
            0 <= h,
    ;
}

fn distance_beyond(value: i64, low: i64, high: i64) -> (distance: i64)
    requires
        -0x10_0000_0000 <= value <= 0x10_0000_0000,
        -0x10_0000_0000 <= low <= 0x10_0000_0000,
        -0x10_0000_0000 <= high <= 0x10_0000_0000,
    ensures
        distance == beyond(value as int, low as int, high as int),
        -0x20_0000_0000 <= distance <= 0x20_0000_0000,
{
    if value < low {
        value - low
    } else if value > high {
        value - high
    } else {
        0
    }
}

fn square(value: i64) -> (squared: i128)
    requires
        -0x20_0000_0000 <= value <= 0x20_0000_0000,
    ensures
        squared == value as int * value as int,
        0 <= squared <= 0x400_0000_0000_0000_0000,
{
    assert(0 <= value as int * value as int <= 0x400_0000_0000_0000_0000) by (nonlinear_arith)
        requires
            -0x20_0000_0000 <= value <= 0x20_0000_0000,
    ;
    value as i128 * value as i128
}

/// Whether the point lies in the rectangle with round corners, without a border.
fn inside_rounded(rect: Rect, border: i32, radius: i64, x: i64, y: i64) -> (inside: bool)
    requires
        -0x1_0000_0000 <= radius <= 0x1_0000_0000,
        -0x1_0000_0000 <= x <= 0x1_0000_0000,
        -0x1_0000_0000 <= y <= 0x1_0000_0000,
    ensures
        inside == in_round_rect(rect, border as int, radius as int, x as int, y as int),
{
    let left: i64 = rect.x as i64 + border as i64;
    let top: i64 = rect.y as i64 + border as i64;
    let width: i64 = rect.width as i64 - 2 * border as i64;
    let height: i64 = rect.height as i64 - 2 * border as i64;
    if x < left || x >= left + width || y < top || y >= top + height {
        return false;
    }
    let shorter: i64 = if width <= height { width } else { height };
    let diameter: i64 = if 2 * radius <= shorter { 2 * radius } else { shorter };
    let dx: i64 = distance_beyond(2 * x, 2 * left + diameter, 2 * left + 2 * width - diameter);
    let dy: i64 = distance_beyond(2 * y, 2 * top + diameter, 2 * top + 2 * height - diameter);
    square(dx) + square(dy) <= square(diameter)
}

/// The first pixel of a picture whose centre is not before a place, in half pixels.
fn first_pixel(start: i64) -> (pixel: i64)
    requires
        -0x2_0000_0000 <= start <= 0x2_0000_0000,
    ensures
        0 <= pixel <= 0x1_0000_0000,
        start <= 2 * pixel + 1,
        pixel == 0 || 2 * pixel - 1 < start,
{
    if start <= 0 {
        0
    } else {
        start / 2
    }
}

/// The first pixel of a picture that begins at a place or behind it, in half pixels, or
/// the end of the picture.
fn last_pixel(end: i64, extent: u16) -> (pixel: i64)
    requires
        -0x2_0000_0000 <= end <= 0x2_0000_0000,
    ensures
        0 <= pixel <= extent,
        pixel == extent || 2 * pixel >= end,
        pixel == 0 || 2 * (pixel - 1) < end,
{
    if end <= 0 {
        0
    } else if end >= 2 * extent as i64 {
        extent as i64
    } else {
        (end + 1) / 2
    }
}

impl Canvas {
    /// Fills a rectangle with round corners.
    pub fn rounded_rect(&mut self, rect: Rect, radius: i32, color: Color)
        requires
            old(self).complete(),
        ensures
            final(self).extent() == old(self).extent(),
            final(self).complete(),
            painted(
                old(self).bytes(),
                final(self).bytes(),
                old(self).extent(),
                fill_region(rect, radius as int),
                color,
                255,
            ),
    {
        self.paint_round_rect(rect, radius, color, None);
    }

    /// Draws the outline of a rectangle with round corners.
    pub fn rounded_outline(&mut self, rect: Rect, radius: i32, thickness: i32, color: Color)
        requires
            old(self).complete(),
        ensures
            final(self).extent() == old(self).extent(),
            final(self).complete(),
            painted(
                old(self).bytes(),
                final(self).bytes(),
                old(self).extent(),
                outline_region(rect, radius as int, thickness as int),
                color,
                255,
            ),
    {
        self.paint_round_rect(rect, radius, color, Some(thickness));
    }

    fn paint_round_rect(&mut self, rect: Rect, radius: i32, color: Color, thickness: Option<i32>)
        requires
            old(self).complete(),
        ensures
            final(self).extent() == old(self).extent(),
            final(self).complete(),
            painted(
                old(self).bytes(),
                final(self).bytes(),
                old(self).extent(),
                match thickness {
                    Some(thickness) => outline_region(rect, radius as int, thickness as int),
                    None => fill_region(rect, radius as int),
                },
                color,
                255,
            ),
    {
        let ghost before = self.rgba@;
        let ghost size = self.size;
        let ghost region: spec_fn(int, int) -> bool = match thickness {
            Some(thickness) => outline_region(rect, radius as int, thickness as int),
            None => fill_region(rect, radius as int),
        };
        let min_x: i64 = first_pixel(rect.x as i64);
        let min_y: i64 = first_pixel(rect.y as i64);
        let max_x: i64 = last_pixel(rect.x as i64 + rect.width as i64, self.size.width);
        let max_y: i64 = last_pixel(rect.y as i64 + rect.height as i64, self.size.height);
        proof {
            assert forall|i: int| 0 <= i < before.len() implies 0 <= #[trigger] column_of(size, i)
                < size.width && 0 <= row_of(size, i) < size.height by {
                lemma_byte_in_rows(size, i);
            }
        }
        let mut y: i64 = min_y;
        while y < max_y
            invariant
                0 <= min_y <= y,
                0 <= min_x,
                max_x <= size.width,
                max_y <= size.height,
                self.size == size,
                self.rgba@.len() == size.pixels() * 4,
                before.len() == size.pixels() * 4,
                region == (match thickness {
                    Some(thickness) => outline_region(rect, radius as int, thickness as int),
                    None => fill_region(rect, radius as int),
                }),
                forall|px: int, py: int|
                    0 <= px < size.width && 0 <= py < size.height && #[trigger] region(px, py)
                        ==> min_x <= px < max_x && min_y <= py < max_y,
                forall|i: int|
                    0 <= i < before.len() ==> 0 <= #[trigger] column_of(size, i) < size.width && 0
                        <= row_of(size, i) < size.height,
                painted(
                    before,
                    self.rgba@,
                    size,
                    |px: int, py: int| region(px, py) && py < y,
                    color,
                    255,
                ),
            decreases max_y - y,
        {
            let mut x: i64 = min_x;
            while x < max_x
                invariant
                    0 <= min_y <= y < max_y,
                    0 <= min_x <= x,
                    max_x <= size.width,
                    max_y <= size.height,
                    self.size == size,
                    self.rgba@.len() == size.pixels() * 4,
                    before.len() == size.pixels() * 4,
                        region == (match thickness {
                        Some(thickness) => outline_region(rect, radius as int, thickness as int),
                        None => fill_region(rect, radius as int),
                    }),
                    forall|px: int, py: int|
                        0 <= px < size.width && 0 <= py < size.height && #[trigger] region(px, py)
                            ==> min_x <= px < max_x && min_y <= py < max_y,
                    forall|i: int|
                        0 <= i < before.len() ==> 0 <= #[trigger] column_of(size, i) < size.width
                            && 0 <= row_of(size, i) < size.height,
                    painted(
                        before,
                        self.rgba@,
                        size,
                        |px: int, py: int| region(px, py) && (py < y || (py == y && px < x)),
                        color,
                        255,
                    ),
                decreases max_x - x,
            {
                let outer = inside_rounded(rect, 0, radius as i64, 2 * x + 1, 2 * y + 1);
                let inner = match thickness {
                    Some(thickness) => {
                        let rest: i64 = radius as i64 - thickness as i64;
                        let rest: i64 = if rest > 0 { rest } else { 0 };
                        inside_rounded(rect, thickness, rest, 2 * x + 1, 2 * y + 1)
                    },
                    None => false,
                };
                let covered = outer && !inner;
                assert(covered == region(x as int, y as int));
                if covered {
                    self.blend_pixel(x as i32, y as i32, color, 255);
                }
                x = x + 1;
            }
            y = y + 1;
        }
    }
}

impl Canvas {
    /// Fills a disc.
    pub fn circle(&mut self, center_x: i32, center_y: i32, radius: i32, color: Color)
        requires
            old(self).complete(),
            radius >= 0,
        ensures
            final(self).extent() == old(self).extent(),
            final(self).complete(),
            painted(
                old(self).bytes(),
                final(self).bytes(),
                old(self).extent(),
                disc_region(center_x as int, center_y as int, radius as int),
                color,
                255,
            ),
    {
        let ghost before = self.rgba@;
        let ghost size = self.size;
        let ghost region = disc_region(center_x as int, center_y as int, radius as int);
        let min_x: i64 = first_pixel(center_x as i64 - radius as i64);
        let min_y: i64 = first_pixel(center_y as i64 - radius as i64);
        let max_x: i64 = last_pixel(center_x as i64 + radius as i64, self.size.width);
        let max_y: i64 = last_pixel(center_y as i64 + radius as i64, self.size.height);
        proof {
            assert forall|i: int| 0 <= i < before.len() implies 0 <= #[trigger] column_of(size, i)
                < size.width && 0 <= row_of(size, i) < size.height by {
                lemma_byte_in_rows(size, i);
            }
            assert forall|px: int, py: int|
                0 <= px < size.width && 0 <= py < size.height && #[trigger] region(
                    px,
                    py,
                ) implies min_x <= px < max_x && min_y <= py < max_y by {
                let dx = 2 * px + 1 - center_x;
                let dy = 2 * py + 1 - center_y;
                lemma_leg_within_hypotenuse(dx, dy, radius as int);
            }
        }
        let mut y: i64 = min_y;
        while y < max_y
            invariant
                0 <= min_y <= y,
                0 <= min_x,
                max_x <= size.width,
                max_y <= size.height,
                radius >= 0,
                self.size == size,
                self.rgba@.len() == size.pixels() * 4,
                before.len() == size.pixels() * 4,
                region == disc_region(center_x as int, center_y as int, radius as int),
                forall|px: int, py: int|
                    0 <= px < size.width && 0 <= py < size.height && #[trigger] region(px, py)
                        ==> min_x <= px < max_x && min_y <= py < max_y,
                forall|i: int|
                    0 <= i < before.len() ==> 0 <= #[trigger] column_of(size, i) < size.width && 0
                        <= row_of(size, i) < size.height,
                painted(
                    before,
                    self.rgba@,
                    size,
                    |px: int, py: int| region(px, py) && py < y,
                    color,
                    255,
                ),
            decreases max_y - y,
        {
            let mut x: i64 = min_x;
            while x < max_x
                invariant
                    0 <= min_y <= y < max_y,
                    0 <= min_x <= x,
                    max_x <= size.width,
                    max_y <= size.height,
                    radius >= 0,
                    self.size == size,
                    self.rgba@.len() == size.pixels() * 4,
                    before.len() == size.pixels() * 4,
                    region == disc_region(center_x as int, center_y as int, radius as int),
                    forall|px: int, py: int|
                        0 <= px < size.width && 0 <= py < size.height && #[trigger] region(px, py)
                            ==> min_x <= px < max_x && min_y <= py < max_y,
                    forall|i: int|
                        0 <= i < before.len() ==> 0 <= #[trigger] column_of(size, i) < size.width
                            && 0 <= row_of(size, i) < size.height,
                    painted(
                        before,
                        self.rgba@,
                        size,
                        |px: int, py: int| region(px, py) && (py < y || (py == y && px < x)),
                        color,
                        255,
                    ),
                decreases max_x - x,
            {
                let dx: i128 = square(2 * x + 1 - center_x as i64);
                let dy: i128 = square(2 * y + 1 - center_y as i64);
                let covered = dx + dy <= square(radius as i64);
                assert(covered == region(x as int, y as int));
                if covered {
                    self.blend_pixel(x as i32, y as i32, color, 255);
                }
                x = x + 1;
            }
            y = y + 1;
        }
    }

    /// Paints the vertical gradient over the whole picture.
    pub fn gradient(&mut self)
        requires
            old(self).complete(),
        ensures
            final(self).extent() == old(self).extent(),
            final(self).complete(),
            forall|i: int|
                0 <= i < final(self).bytes().len() ==> #[trigger] final(self).bytes()[i]
                    == gradient_byte(
                    row_of(old(self).extent(), i),
                    old(self).extent().height as int,
                    i % 4,
                ),
    {
        let ghost size = self.size;
        let width: usize = self.size.width as usize;
        let height: usize = self.size.height as usize;
        let length: usize = self.rgba.len();
        let mut offset: usize = 0;
        let mut y: usize = 0;
        while y < height
            invariant
                size == self.size,
                width == size.width,
                height == size.height,
                length == size.pixels() * 4,
                self.rgba@.len() == length,
                0 <= y <= height,
                offset == y * width * 4,
                forall|i: int|
                    0 <= i < offset ==> #[trigger] self.rgba@[i] == gradient_byte(
                        row_of(size, i),
                        height as int,
                        i % 4,
                    ),
            decreases height - y,
        {
            assert(0 <= 5 * y / height as int <= 5 && 0 <= 10 * y / height as int <= 10 && 0 <= 16
                * y / height as int <= 16) by (nonlinear_arith)
                requires
                    0 <= y < height,
            ;
            let red: u8 = (7 + 5 * y / height) as u8;
            let green: u8 = (14 + 10 * y / height) as u8;
            let blue: u8 = (29 + 16 * y / height) as u8;
            assert(y * width + width == (y + 1) * width && (y + 1) * width <= width * height)
                by (nonlinear_arith)
                requires
                    0 <= y < height,
                    0 <= width,
            ;
            let mut x: usize = 0;
            while x < width
                invariant
                    size == self.size,
                    width == size.width,
                    height == size.height,
                    length == size.pixels() * 4,
                    self.rgba@.len() == length,
                    0 <= y < height,
                    0 <= x <= width,
                    offset == (y * width + x) * 4,
                    y * width + width <= width * height,
                    red == gradient_byte(y as int, height as int, 0),
                    green == gradient_byte(y as int, height as int, 1),
                    blue == gradient_byte(y as int, height as int, 2),
                    forall|i: int|
                        0 <= i < offset ==> #[trigger] self.rgba@[i] == gradient_byte(
                            row_of(size, i),
                            height as int,
                            i % 4,
                        ),
                decreases width - x,
            {
                proof {
                    assert forall|i: int| offset <= i < offset + 4 implies #[trigger] row_of(
                        size,
                        i,
                    ) == y by {
                        lemma_byte_of_pixel(size, x as int, y as int, i);
                    }
                }
                self.rgba.set(offset, red);
                self.rgba.set(offset + 1, green);
                self.rgba.set(offset + 2, blue);
                self.rgba.set(offset + 3, 255);
                offset = offset + 4;
                x = x + 1;
            }
            y = y + 1;
        }
        assert(height * width == width * height) by (nonlinear_arith);
    }
}

proof fn lemma_leg_within_hypotenuse(dx: int, dy: int, radius: int)
    requires
        0 <= radius,
        dx * dx + dy * dy <= radius * radius,
    ensures
        -radius <= dx <= radius,
        -radius <= dy <= radius,
{
    assert(-radius <= dx <= radius && -radius <= dy <= radius) by (nonlinear_arith)
        requires
            0 <= radius,
            dx * dx + dy * dy <= radius * radius,
    ;
}

/// The rows of the bitmap of a character in the built-in font: eight bytes, the
/// lowest bit on the left.
pub uninterp spec fn glyph_rows(character: char) -> Option<Seq<u8>>;

/// Looks a character up with `BASIC_FONTS.get` of the crate `font8x8`, whose
/// result is the entry of a fixed table, eight rows long, or nothing.
#[verifier::external_body]
fn basic_glyph(character: char) -> (glyph: Option<[u8; 8]>)
    ensures
        glyph is Some <==> glyph_rows(character) is Some,
        glyph matches Some(rows) ==> glyph_rows(character) == Some(rows@),
{
    BASIC_FONTS.get(character)
}

/// Whether a column of a row of a bitmap is set.
pub open spec fn glyph_bit(row: u8, column: int) -> bool {
    row & (1u8 << (column as u8)) != 0
}

/// The square, in half pixels, of one dot of a bitmap.
pub open spec fn dot(x: int, y: int, column: int, row: int, scale: int) -> Rect {
    Rect {
        x: (2 * (x + column * scale)) as i32,
        y: (2 * (y + row * scale)) as i32,
        width: (2 * scale) as i32,
        height: (2 * scale) as i32,
    }
}

/// The first `count` dots of a bitmap that are set, row by row.
pub open spec fn glyph_dots(rows: Seq<u8>, x: int, y: int, scale: int, count: nat) -> Seq<Rect>
    decreases count,
{
    if count == 0 {
        Seq::empty()
    } else {
        let k = count - 1;
        let earlier = glyph_dots(rows, x, y, scale, k as nat);
        if glyph_bit(rows[k / 8], k % 8) {
            earlier.push(dot(x, y, k % 8, k / 8, scale))
        } else {
            earlier
        }
    }
}

/// The dots of a character, none if the font does not have it.
pub open spec fn character_dots(character: char, x: int, y: int, scale: int) -> Seq<Rect> {
    match glyph_rows(character) {
        Some(rows) => glyph_dots(rows, x, y, scale, 64),
        None => Seq::empty(),
    }
}

/// The number of characters of a text that are painted: all of them, or those
/// that begin before `max_x`, the first in any case.
pub open spec fn visible_characters(length: nat, x: int, scale: int, max_x: int) -> nat
    decreases length,
{
    if length == 0 {
        0
    } else if x + 9 * scale >= max_x {
        1
    } else {
        1 + visible_characters((length - 1) as nat, x + 9 * scale, scale, max_x)
    }
}

/// The dots of the first `count` characters of a text.
pub open spec fn text_dots(text: Seq<char>, x: int, y: int, scale: int, count: nat) -> Seq<Rect>
    decreases count,
{
    if count == 0 {
        Seq::empty()
    } else {
        let k = count - 1;
        text_dots(text, x, y, scale, k as nat) + character_dots(
            text[k],
            x + 9 * scale * k,
            y,
            scale,
        )
    }
}

/// The picture with a colour laid over the pixels of a region.
pub open spec fn paint_over(
    before: Seq<u8>,
    size: DesktopSize,
    region: spec_fn(int, int) -> bool,
    color: Color,
) -> Seq<u8> {
    Seq::new(
        before.len(),
        |i: int|
            if region(column_of(size, i), row_of(size, i)) {
                blended(before[i], color, 255, i % 4)
            } else {
                before[i]
            },
    )
}

/// The picture with a colour laid over one rectangle after another.
pub open spec fn paint_rects(before: Seq<u8>, size: DesktopSize, rects: Seq<Rect>, color: Color) -> Seq<
    u8,
>
    decreases rects.len(),
{
    if rects.len() == 0 {
        before
    } else {
        paint_over(
            paint_rects(before, size, rects.drop_last(), color),
            size,
            fill_region(rects.last(), 0),
            color,
        )
    }
}

proof fn lemma_paint_rects_push(
    before: Seq<u8>,
    size: DesktopSize,
    rects: Seq<Rect>,
    rect: Rect,
    color: Color,
)
    ensures
        paint_rects(before, size, rects.push(rect), color) == paint_over(
            paint_rects(before, size, rects, color),
            size,
            fill_region(rect, 0),
            color,
        ),
{
    assert(rects.push(rect).drop_last() =~= rects);
}

impl Canvas {
    /// Paints the dots of one character over those painted before.
    fn paint_glyph(
        &mut self,
        x: usize,
        y: usize,
        glyph: &[u8; 8],
        scale: usize,
        color: Color,
        Ghost(start): Ghost<Seq<u8>>,
        Ghost(earlier): Ghost<Seq<Rect>>,
    )
        requires
            old(self).complete(),
            x <= 0x20_0000,
            y <= 0x20_0000,
            1 <= scale <= 0x1000,
            old(self).bytes() == paint_rects(start, old(self).extent(), earlier, color),
        ensures
            final(self).extent() == old(self).extent(),
            final(self).complete(),
            final(self).bytes() == paint_rects(
                start,
                old(self).extent(),
                earlier + glyph_dots(glyph@, x as int, y as int, scale as int, 64),
                color,
            ),
    {
        let ghost size = self.size;
        assert(earlier + glyph_dots(glyph@, x as int, y as int, scale as int, 0) =~= earlier);
        let mut k: usize = 0;
        while k < 64
            invariant
                k <= 64,
                x <= 0x20_0000,
                y <= 0x20_0000,
                1 <= scale <= 0x1000,
                self.complete(),
                self.size == size,
                self.rgba@ == paint_rects(
                    start,
                    size,
                    earlier + glyph_dots(glyph@, x as int, y as int, scale as int, k as nat),
                    color,
                ),
            decreases 64 - k,
        {
            let row: usize = k / 8;
            let column: usize = k % 8;
            let ghost so_far = earlier + glyph_dots(
                glyph@,
                x as int,
                y as int,
                scale as int,
                k as nat,
            );
            let shift: u8 = column as u8;
            if glyph[row] & (1u8 << shift) != 0 {
                assert(0 <= column * scale <= 7 * 0x1000 && 0 <= row * scale <= 7 * 0x1000)
                    by (nonlinear_arith)
                    requires
                        0 <= column <= 7,
                        0 <= row <= 7,
                        1 <= scale <= 0x1000,
                ;
                let rect = Rect {
                    x: (2 * (x + column * scale)) as i32,
                    y: (2 * (y + row * scale)) as i32,
                    width: (2 * scale) as i32,
                    height: (2 * scale) as i32,
                };
                let ghost before = self.rgba@;
                self.rounded_rect(rect, 0, color);
                proof {
                    assert(self.rgba@ =~= paint_over(before, size, fill_region(rect, 0), color));
                    lemma_paint_rects_push(start, size, so_far, rect, color);
                    assert(so_far.push(rect) =~= earlier + glyph_dots(
                        glyph@,
                        x as int,
                        y as int,
                        scale as int,
                        (k + 1) as nat,
                    ));
                }
            } else {
                assert(so_far =~= earlier + glyph_dots(
                    glyph@,
                    x as int,
                    y as int,
                    scale as int,
                    (k + 1) as nat,
                ));
            }
            k = k + 1;
        }
    }

    /// Paints a line of text with the built-in font, its top left corner at a
    /// pixel. The text is cut off before the first character, other than the very
    /// first, that would begin at `max_x` or behind it.
    pub fn bitmap_text(
        &mut self,
        x: usize,
        y: usize,
        text: &str,
        scale: usize,
        color: Color,
        max_x: usize,
    )
        requires
            old(self).complete(),
            x <= 0x10_0000,
            y <= 0x10_0000,
            max_x <= 0x10_0000,
            1 <= scale <= 0x1000,
        ensures
            final(self).extent() == old(self).extent(),
            final(self).complete(),
            final(self).bytes() == paint_rects(
                old(self).bytes(),
                old(self).extent(),
                text_dots(
                    text@,
                    x as int,
                    y as int,
                    scale as int,
                    visible_characters(text@.len(), x as int, scale as int, max_x as int),
                ),
                color,
            ),
    {
        let ghost start = self.rgba@;
        let ghost size = self.size;
        let length: usize = text.unicode_len();
        let mut cursor: usize = x;
        let mut k: usize = 0;
        let mut more = true;
        while more && k < length
            invariant
                k <= length,
                length == text@.len(),
                y <= 0x10_0000,
                max_x <= 0x10_0000,
                1 <= scale <= 0x1000,
                x <= cursor <= 0x20_0000,
                more ==> cursor <= 0x10_0000,
                cursor == x + 9 * scale * k,
                self.complete(),
                self.size == size,
                self.rgba@ == paint_rects(
                    start,
                    size,
                    text_dots(text@, x as int, y as int, scale as int, k as nat),
                    color,
                ),
                more ==> visible_characters(text@.len(), x as int, scale as int, max_x as int) == k
                    + visible_characters(
                    (length - k) as nat,
                    cursor as int,
                    scale as int,
                    max_x as int,
                ),
                !more ==> visible_characters(text@.len(), x as int, scale as int, max_x as int)
                    == k,
            decreases length - k,
        {
            let ghost earlier = text_dots(text@, x as int, y as int, scale as int, k as nat);
            let character = text.get_char(k);
            match basic_glyph(character) {
                Some(glyph) => {
                    self.paint_glyph(cursor, y, &glyph, scale, color, Ghost(start), Ghost(earlier));
                },
                None => {
                    assert(earlier + Seq::<Rect>::empty() =~= earlier);
                },
            }
            cursor = cursor + 9 * scale;
            assert(9 * scale * (k + 1) == 9 * scale * k + 9 * scale) by (nonlinear_arith);
            k = k + 1;
            if cursor >= max_x {
                more = false;
            }
        }
    }
}

/// The size of a dot, in pixels, for a text of the given size in half pixels: an
/// eighth of the size, rounded, at least 1.
pub open spec fn dot_size(size: int) -> int {
    crate::layout::greatest(1, (size + 8) / 16)
}

/// The pixel in which a place lies, given in fractions of a pixel; the first one
/// for a place before the picture.
pub open spec fn pixel_at(place: int, fraction: int) -> int {
    if place <= 0 {
        0
    } else {
        place / fraction
    }
}

/// The limit of the measures of a text.
pub const TEXT_LIMIT: i32 = 0x4_0000;

/// Whether a shape can be painted here: a glow and the mark are not, as their
/// geometry is no multiple of half a pixel, nor is a text of unreasonable size.
pub open spec fn paintable(shape: ShapeModel) -> bool {
    match shape {
        ShapeModel::Gradient => true,
        ShapeModel::Glow { .. } => false,
        ShapeModel::Mark { .. } => false,
        ShapeModel::Fill { .. } => true,
        ShapeModel::Outline { .. } => true,
        ShapeModel::Disc { radius, .. } => radius >= 0,
        ShapeModel::Text { x, y, size, max_width, .. } => {
            &&& -TEXT_LIMIT <= x <= TEXT_LIMIT
            &&& -TEXT_LIMIT <= y <= TEXT_LIMIT
            &&& 0 <= size <= 0x4000
            &&& -TEXT_LIMIT <= max_width <= TEXT_LIMIT
        },
        ShapeModel::CenteredText { rect, text, size, .. } => {
            &&& rect.bounded()
            &&& 0 <= size <= 0x4000
            &&& text.len() <= 0x1000
        },
    }
}

/// The dots of a line of text whose corner is given in fractions of a pixel.
pub open spec fn line_dots(
    text: Seq<char>,
    left: int,
    top: int,
    fraction: int,
    size: int,
    right: int,
) -> Seq<Rect> {
    let x = pixel_at(left, fraction);
    let max_x = pixel_at(right, fraction);
    text_dots(
        text,
        x,
        pixel_at(top, fraction),
        dot_size(size),
        visible_characters(text.len(), x, dot_size(size), max_x),
    )
}

/// Where a centred text begins, in quarters of a pixel.
pub open spec fn centered_left(rect: Rect, length: int, size: int) -> int {
    2 * rect.x + crate::layout::greatest(rect.width - 2 * (length * 9 * dot_size(size)), 0)
}

/// The top of a centred text, in quarters of a pixel.
pub open spec fn centered_top(rect: Rect, size: int) -> int {
    2 * rect.y + crate::layout::greatest(rect.height - size, 0) - 4
}

/// Whether `after` is the picture `before` with a shape painted over it.
pub open spec fn shape_painted(
    before: Seq<u8>,
    after: Seq<u8>,
    picture: DesktopSize,
    shape: ShapeModel,
) -> bool {
    match shape {
        ShapeModel::Gradient => {
            &&& after.len() == before.len()
            &&& forall|i: int|
                0 <= i < after.len() ==> #[trigger] after[i] == gradient_byte(
                    row_of(picture, i),
                    picture.height as int,
                    i % 4,
                )
        },
        ShapeModel::Fill { rect, radius, color } => painted(
            before,
            after,
            picture,
            fill_region(rect, radius),
            color,
            255,
        ),
        ShapeModel::Outline { rect, radius, thickness, color } => painted(
            before,
            after,
            picture,
            outline_region(rect, radius, thickness),
            color,
            255,
        ),
        ShapeModel::Disc { x, y, radius, color } => painted(
            before,
            after,
            picture,
            disc_region(x, y, radius),
            color,
            255,
        ),
        ShapeModel::Text { x, y, text, size, color, max_width } => after == paint_rects(
            before,
            picture,
            line_dots(text, x, y, 2, size, x + max_width),
            color,
        ),
        ShapeModel::CenteredText { rect, text, size, color } => after == paint_rects(
            before,
            picture,
            line_dots(
                text,
                centered_left(rect, text.len() as int, size),
                centered_top(rect, size),
                4,
                size,
                centered_left(rect, text.len() as int, size) + 2 * rect.width,
            ),
            color,
        ),
        _ => after == before,
    }
}

fn pixel(place: i64, fraction: i64) -> (pixel: usize)
    requires
        place <= 0x20_0000,
        2 <= fraction <= 4,
    ensures
        pixel == pixel_at(place as int, fraction as int),
        pixel <= 0x10_0000,
{
    if place <= 0 {
        0
    } else {
        assert(0 <= place / fraction <= 0x10_0000) by (nonlinear_arith)
            requires
                0 < place <= 0x20_0000,
                2 <= fraction,
        ;
        (place / fraction) as usize
    }
}

fn dots(size: i32) -> (scale: usize)
    requires
        0 <= size <= 0x4000,
    ensures
        scale == dot_size(size as int),
        1 <= scale <= 0x401,
{
    let scale: i32 = (size + 8) / 16;
    if scale >= 1 {
        scale as usize
    } else {
        1
    }
}

impl Canvas {
    /// Paints a shape, with the built-in font where it is a text. Says whether it
    /// was one of those that can be painted here.
    pub fn paint(&mut self, shape: &Shape) -> (done: bool)
        requires
            old(self).complete(),
        ensures
            final(self).extent() == old(self).extent(),
            final(self).complete(),
            done == paintable(shape@),
            done ==> shape_painted(
                old(self).bytes(),
                final(self).bytes(),
                old(self).extent(),
                shape@,
            ),
            !done ==> final(self).bytes() == old(self).bytes(),
    {
        match shape {
            Shape::Gradient => {
                self.gradient();
                true
            },
            Shape::Fill { rect, radius, color } => {
                self.rounded_rect(*rect, *radius, *color);
                true
            },
            Shape::Outline { rect, radius, thickness, color } => {
                self.rounded_outline(*rect, *radius, *thickness, *color);
                true
            },
            Shape::Disc { x, y, radius, color } => {
                if *radius < 0 {
                    return false;
                }
                self.circle(*x, *y, *radius, *color);
                true
            },
            Shape::Text { x, y, text, size, color, max_width } => {
                let outside = *x < -TEXT_LIMIT || *x > TEXT_LIMIT || *y < -TEXT_LIMIT || *y
                    > TEXT_LIMIT || *size < 0 || *size > 0x4000 || *max_width < -TEXT_LIMIT
                    || *max_width > TEXT_LIMIT;
                if outside {
                    return false;
                }
                self.bitmap_text(
                    pixel(*x as i64, 2),
                    pixel(*y as i64, 2),
                    text.as_str(),
                    dots(*size),
                    *color,
                    pixel(*x as i64 + *max_width as i64, 2),
                );
                true
            },
            Shape::CenteredText { rect, text, size, color } => {
                let length: usize = text.as_str().unicode_len();
                if !in_limits(rect) || *size < 0 || *size > 0x4000 || length > 0x1000 {
                    return false;
                }
                let scale: usize = dots(*size);
                assert(0 <= length * 9 * scale <= 0x1000 * 9 * 0x401) by (nonlinear_arith)
                    requires
                        0 <= length <= 0x1000,
                        1 <= scale <= 0x401,
                ;
                let width: i64 = (length * 9 * scale) as i64;
                let slack: i64 = rect.width as i64 - 2 * width;
                let left: i64 = 2 * rect.x as i64 + if slack > 0 { slack } else { 0 };
                let rest: i64 = rect.height as i64 - *size as i64;
                let top: i64 = 2 * rect.y as i64 + (if rest > 0 { rest } else { 0 }) - 4;
                self.bitmap_text(
                    pixel(left, 4),
                    pixel(top, 4),
                    text.as_str(),
                    scale,
                    *color,
                    pixel(left + 2 * rect.width as i64, 4),
                );
                true
            },
            _ => false,
        }
    }
}

fn in_limits(rect: &Rect) -> (within: bool)
    ensures
        within == rect.bounded(),
{
    -RECT_LIMIT <= rect.x && rect.x <= RECT_LIMIT && -RECT_LIMIT <= rect.y && rect.y <= RECT_LIMIT
        && -RECT_LIMIT <= rect.width && rect.width <= RECT_LIMIT && -RECT_LIMIT <= rect.height
        && rect.height <= RECT_LIMIT
}

/// Painting with an opaque colour gives that colour, with a clear one or without coverage
/// nothing but what was there, and in between something in between. Every painted pixel is
/// opaque.
pub proof fn law_paint_lies_between(byte: u8, color: Color, coverage: u8, channel: int)
    requires
        0 <= channel < 3,
    ensures
        ({
            let paint = if channel == 0 {
                color.red
            } else if channel == 1 {
                color.green
            } else {
                color.blue
            };
            let result = blended(byte, color, coverage, channel);
            &&& color.alpha == 255 && coverage == 255 ==> result == paint
            &&& color.alpha == 0 || coverage == 0 ==> result == byte
            &&& paint <= byte ==> paint <= result <= byte
            &&& paint >= byte ==> byte <= result <= paint
            &&& coverage == 255 ==> result as int == (paint * color.alpha + byte * (255
                - color.alpha)) / 255
        }),
        blended(byte, color, coverage, 3) == 255,
{
    let paint = component(color, channel) as int;
    let b = byte as int;
    let a = color.alpha as int;
    let c = coverage as int;
    let alpha = a * c / 255;
    assert(0 <= alpha <= 255) by (nonlinear_arith)
        requires
            alpha == a * c / 255,
            0 <= a <= 255,
            0 <= c <= 255,
    ;
    if a == 0 || c == 0 {
        assert(a * c == 0) by (nonlinear_arith)
            requires
                a == 0 || c == 0,
        ;
    }
    if c == 255 {
        assert(alpha == a) by (nonlinear_arith)
            requires
                alpha == a * c / 255,
                c == 255,
        ;
    }
    let sum = paint * alpha + b * (255 - alpha);
    if paint <= b {
        assert(255 * paint <= sum <= 255 * b) by (nonlinear_arith)
            requires
                sum == paint * alpha + b * (255 - alpha),
                0 <= alpha <= 255,
                paint <= b,
        ;
    } else {
        assert(255 * b <= sum <= 255 * paint) by (nonlinear_arith)
            requires
                sum == paint * alpha + b * (255 - alpha),
                0 <= alpha <= 255,
                b <= paint,
        ;
    }
    if alpha == 255 {
        assert(sum == 255 * paint) by (nonlinear_arith)
            requires
                sum == paint * alpha + b * (255 - alpha),
                alpha == 255,
        ;
    }
    if alpha == 0 {
        assert(sum == 255 * b) by (nonlinear_arith)
            requires
                sum == paint * alpha + b * (255 - alpha),
                alpha == 0,
        ;
    }
}

/// The four bytes of a pixel stand where its row and column say.
pub proof fn law_pixels_stand_in_rows(size: DesktopSize, x: int, y: int, c: int)
    requires
        0 <= x < size.width,
        0 <= y < size.height,
        0 <= c < 4,
    ensures
        column_of(size, (y * size.width + x) * 4 + c) == x,
        row_of(size, (y * size.width + x) * 4 + c) == y,
        ((y * size.width + x) * 4 + c) % 4 == c,
        0 <= (y * size.width + x) * 4 + c < size.width * size.height * 4,
{
    let w = size.width as int;
    let h = size.height as int;
    let i = (y * w + x) * 4 + c;
    assert(0 <= y * w + x < w * h) by (nonlinear_arith)
        requires
            0 <= x < w,
            0 <= y < h,
    ;
    assert(i / 4 == y * w + x);
    vstd::arithmetic::div_mod::lemma_fundamental_div_mod_converse(i / 4, w, y, x);
}

/// A rectangle without round corners is filled exactly where the middle of a pixel lies in
/// it.
pub proof fn law_plain_rectangles_are_filled(rect: Rect, x: int, y: int)
    ensures
        fill_region(rect, 0)(x, y) <==> {
            &&& rect.x <= 2 * x + 1 && 2 * x + 1 < rect.x + rect.width
            &&& rect.y <= 2 * y + 1 && 2 * y + 1 < rect.y + rect.height
        },
{
    assert(0int * 0int == 0int);
}

/// A round corner is a quarter of a disc: what is filled lies in the rectangle; it is all of
/// it but for the corners, and in a corner exactly what is no farther from its centre than
/// the radius, which is half the shorter side at most.
pub proof fn law_round_corners_are_quarters(rect: Rect, radius: int, x: int, y: int)
    requires
        radius >= 0,
    ensures
        ({
            let (px, py) = (2 * x + 1, 2 * y + 1);
            let inside = rect.x <= px && px < rect.x + rect.width && rect.y <= py && py < rect.y
                + rect.height;
            let filled = fill_region(rect, radius)(x, y);
            let diameter = if rect.width <= 2 * radius && rect.width <= rect.height {
                rect.width as int
            } else if rect.height <= 2 * radius && rect.height <= rect.width {
                rect.height as int
            } else {
                2 * radius
            };
            let left = 2 * px < 2 * rect.x + diameter;
            let right = 2 * px > 2 * (rect.x + rect.width) - diameter;
            let upper = 2 * py < 2 * rect.y + diameter;
            let lower = 2 * py > 2 * (rect.y + rect.height) - diameter;
            let cx = if left {
                2 * rect.x + diameter
            } else {
                2 * (rect.x + rect.width) - diameter
            };
            let cy = if upper {
                2 * rect.y + diameter
            } else {
                2 * (rect.y + rect.height) - diameter
            };
            &&& filled ==> inside
            &&& inside && !left && !right ==> filled
            &&& inside && !upper && !lower ==> filled
            &&& inside && (left || right) && (upper || lower) ==> (filled <==> (2 * px - cx) * (2
                * px - cx) + (2 * py - cy) * (2 * py - cy) <= diameter * diameter)
        }),
{
    let (px, py) = (2 * x + 1, 2 * y + 1);
    let diameter = crate::layout::least(
        2 * radius,
        crate::layout::least(rect.width as int, rect.height as int),
    );
    let dx = beyond(2 * px, 2 * rect.x + diameter, 2 * rect.x + 2 * rect.width - diameter);
    let dy = beyond(2 * py, 2 * rect.y + diameter, 2 * rect.y + 2 * rect.height - diameter);
    if rect.x <= px < rect.x + rect.width && rect.y <= py < rect.y + rect.height {
        assert(-diameter <= dx <= diameter && -diameter <= dy <= diameter);
        assert(dx * dx <= diameter * diameter) by (nonlinear_arith)
            requires
                -diameter <= dx <= diameter,
        ;
        assert(dy * dy <= diameter * diameter) by (nonlinear_arith)
            requires
                -diameter <= dy <= diameter,
        ;
        assert(0int * 0int == 0int);
    }
}

/// The outline of a rectangle without round corners is what of it lies no farther from one of
/// its sides than its thickness.
pub proof fn law_outlines_are_frames(rect: Rect, thickness: int, x: int, y: int)
    requires
        thickness >= 0,
    ensures
        ({
            let (px, py) = (2 * x + 1, 2 * y + 1);
            let inside = rect.x <= px && px < rect.x + rect.width && rect.y <= py && py < rect.y
                + rect.height;
            outline_region(rect, 0, thickness)(x, y) <==> inside && (px < rect.x + thickness || px
                >= rect.x + rect.width - thickness || py < rect.y + thickness || py >= rect.y
                + rect.height - thickness)
        }),
{
    assert(0int * 0int == 0int);
}

/// A disc covers the pixels whose middle is no farther from its centre than its radius: the
/// same to all sides.
pub proof fn law_discs_are_round(center_x: int, center_y: int, radius: int, x: int, y: int)
    requires
        radius >= 0,
    ensures
        ({
            let dx = 2 * x + 1 - center_x;
            let dy = 2 * y + 1 - center_y;
            &&& disc_region(center_x, center_y, radius)(x, y) <==> dx * dx + dy * dy <= radius
                * radius
            &&& dx == 0 && dy == 0 ==> disc_region(center_x, center_y, radius)(x, y)
            &&& dx > radius || dx < -radius || dy > radius || dy < -radius ==> !disc_region(
                center_x,
                center_y,
                radius,
            )(x, y)
        }),
{
    let dx = 2 * x + 1 - center_x;
    let dy = 2 * y + 1 - center_y;
    assert(dx * dx >= 0 && dy * dy >= 0 && radius * radius >= 0) by (nonlinear_arith);
    if dx > radius || dx < -radius {
        assert(dx * dx > radius * radius) by (nonlinear_arith)
            requires
                dx > radius || dx < -radius,
                radius >= 0,
        ;
    }
    if dy > radius || dy < -radius {
        assert(dy * dy > radius * radius) by (nonlinear_arith)
            requires
                dy > radius || dy < -radius,
                radius >= 0,
        ;
    }
    if dx == 0 && dy == 0 {
        assert(0int * 0int == 0int);
    }
}

/// The background grows lighter from its first row, (7, 14, 29), to its last, which stays
/// below (12, 24, 45); it is opaque.
pub proof fn law_background_grows_lighter(row: int, next: int, height: int)
    requires
        0 <= row <= next < height,
        height <= 65535,
    ensures
        gradient_byte(0, height, 0) == 7 && gradient_byte(0, height, 1) == 14 && gradient_byte(
            0,
            height,
            2,
        ) == 29,
        7 <= gradient_byte(row, height, 0) <= gradient_byte(next, height, 0) < 12,
        14 <= gradient_byte(row, height, 1) <= gradient_byte(next, height, 1) < 24,
        29 <= gradient_byte(row, height, 2) <= gradient_byte(next, height, 2) < 45,
        gradient_byte(row, height, 3) == 255,
        (gradient_byte(row, height, 0) - 7) * height <= 5 * row < (gradient_byte(row, height, 0) - 6)
            * height,
        (gradient_byte(row, height, 1) - 14) * height <= 10 * row < (gradient_byte(row, height, 1)
            - 13) * height,
        (gradient_byte(row, height, 2) - 29) * height <= 16 * row < (gradient_byte(row, height, 2)
            - 28) * height,
{
    lemma_share(5, 0, row, height);
    lemma_share(10, 0, row, height);
    lemma_share(16, 0, row, height);
    lemma_share(5, row, next, height);
    lemma_share(10, row, next, height);
    lemma_share(16, row, next, height);
    assert(0int / height == 0) by (nonlinear_arith)
        requires
            height > 0,
    ;
}

proof fn lemma_share(steps: int, row: int, next: int, height: int)
    requires
        0 <= row <= next < height,
        0 < steps <= 16,
    ensures
        0 <= steps * row / height <= steps * next / height < steps,
        (steps * next / height) * height <= steps * next < (steps * next / height + 1) * height,
{
    let a = steps * row;
    let b = steps * next;
    assert(0 <= a <= b < steps * height) by (nonlinear_arith)
        requires
            a == steps * row,
            b == steps * next,
            0 <= row <= next < height,
            0 < steps,
    ;
    assert(0 <= a / height <= b / height < steps) by (nonlinear_arith)
        requires
            0 <= a <= b < steps * height,
            height > 0,
    ;
    let q = b / height;
    assert(q * height <= b < (q + 1) * height) by (nonlinear_arith)
        requires
            q == b / height,
            height > 0,
    ;
}

/// A row of a character is eight dots, its lowest bit the leftmost.
pub proof fn law_lowest_bit_is_leftmost(row: u8, column: int)
    requires
        0 <= column < 8,
    ensures
        glyph_bit(row, 0) <==> row % 2 == 1,
        0 < column ==> (glyph_bit(row, column) <==> glyph_bit(row / 2, column - 1)),
        glyph_bit(row, 7) <==> row >= 128,
{
    assert((row & (1u8 << 0u8) != 0) == (row % 2 == 1)) by (bit_vector);
    assert((row & (1u8 << 7u8) != 0) == (row >= 128)) by (bit_vector);
    if 0 < column {
        let bit = column as u8;
        let before = (column - 1) as u8;
        assert((row & (1u8 << bit) != 0) == ((row / 2) & (1u8 << before) != 0)) by (bit_vector)
            requires
                0 < bit < 8,
                before == bit - 1,
        ;
    }
}

/// A text shows its first character, and each further one exactly if it begins before the
/// edge: nine dots behind the one before it.
pub proof fn law_texts_are_cut_at_the_edge(length: nat, x: int, scale: int, max_x: int, k: int)
    requires
        scale > 0,
        length > 0,
    ensures
        ({
            let shown = visible_characters(length, x, scale, max_x);
            &&& 1 <= shown <= length
            &&& 1 <= k < shown ==> x + 9 * scale * k < max_x
            &&& shown < length ==> x + 9 * scale * shown >= max_x
        }),
    decreases length,
{
    let shown = visible_characters(length, x, scale, max_x);
    reveal_with_fuel(visible_characters, 2);
    if length > 1 && x + 9 * scale < max_x {
        let step = x + 9 * scale;
        let rest = visible_characters((length - 1) as nat, step, scale, max_x);
        law_texts_are_cut_at_the_edge((length - 1) as nat, step, scale, max_x, k - 1);
        assert(step + 9 * scale * rest == x + 9 * scale * (rest + 1)) by (nonlinear_arith)
            requires
                step == x + 9 * scale,
        ;
        assert(step + 9 * scale * (k - 1) == x + 9 * scale * k) by (nonlinear_arith)
            requires
                step == x + 9 * scale,
        ;
    }
    if k == 1 {
        assert(9 * scale * 1 == 9 * scale) by (nonlinear_arith);
    }
    if shown == 1 {
        assert(9 * scale * shown == 9 * scale) by (nonlinear_arith)
            requires
                shown == 1,
        ;
    }
}

/// The characters of a text stand nine dots apart on one line, the first at its beginning.
pub proof fn law_characters_stand_side_by_side(
    text: Seq<char>,
    x: int,
    y: int,
    scale: int,
    count: nat,
)
    ensures
        text_dots(text, x, y, scale, 0).len() == 0,
        text_dots(text, x, y, scale, count + 1) == text_dots(text, x, y, scale, count)
            + character_dots(text[count as int], x + 9 * scale * count, y, scale),
        text_dots(text, x, y, scale, 1) == character_dots(text[0], x, y, scale),
{
    reveal_with_fuel(text_dots, 2);
    assert(9 * scale * 0 == 0) by (nonlinear_arith);
    assert(Seq::<Rect>::empty() + character_dots(text[0], x, y, scale) =~= character_dots(
        text[0],
        x,
        y,
        scale,
    ));
}

/// A character's dots are the set bits of its rows: the dot of row `r` and column `c` is a
/// square of its scale, as many scales down and to the right.
pub proof fn law_dots_are_the_set_bits(rows: Seq<u8>, x: int, y: int, scale: int, r: int, c: int)
    requires
        rows.len() == 8,
        0 <= r < 8,
        0 <= c < 8,
        glyph_bit(rows[r], c),
    ensures
        exists|i: int| 0 <= i < glyph_dots(rows, x, y, scale, 64).len() && #[trigger] glyph_dots(
            rows,
            x,
            y,
            scale,
            64,
        )[i] == dot(x, y, c, r, scale),
        glyph_dots(rows, x, y, scale, 64).len() <= 64,
        -100000 <= x + c * scale <= 100000 && -100000 <= y + r * scale <= 100000 && 0 <= scale
            <= 100000 ==> dot(x, y, c, r, scale).x == 2 * (x + c * scale) && dot(
            x,
            y,
            c,
            r,
            scale,
        ).y == 2 * (y + r * scale) && dot(x, y, c, r, scale).width == 2 * scale && dot(
            x,
            y,
            c,
            r,
            scale,
        ).height == 2 * scale,
{
    lemma_dot_is_listed(rows, x, y, scale, 64, 8 * r + c);
    assert((8 * r + c) / 8 == r && (8 * r + c) % 8 == c);
}

proof fn lemma_dot_is_listed(rows: Seq<u8>, x: int, y: int, scale: int, count: nat, k: int)
    requires
        0 <= k,
    ensures
        glyph_dots(rows, x, y, scale, count).len() <= count,
        k < count && glyph_bit(rows[k / 8], k % 8) ==> exists|i: int|
            0 <= i < glyph_dots(rows, x, y, scale, count).len() && #[trigger] glyph_dots(
                rows,
                x,
                y,
                scale,
                count,
            )[i] == dot(x, y, k % 8, k / 8, scale),
    decreases count,
{
    if count > 0 {
        let last = count - 1;
        lemma_dot_is_listed(rows, x, y, scale, last as nat, k);
        let earlier = glyph_dots(rows, x, y, scale, last as nat);
        let all = glyph_dots(rows, x, y, scale, count);
        if k < last && glyph_bit(rows[k / 8], k % 8) {
            let i = choose|i: int|
                0 <= i < earlier.len() && #[trigger] earlier[i] == dot(x, y, k % 8, k / 8, scale);
            assert(all[i] == earlier[i]);
        }
        if k == last && glyph_bit(rows[k / 8], k % 8) {
            assert(all[all.len() - 1] == dot(x, y, k % 8, k / 8, scale));
        }
    }
}

/// Letters have whole dots, a sixteenth of their size in half pixels rounded, and one at
/// least.
pub proof fn law_dots_are_a_sixteenth(size: int)
    requires
        size >= 0,
    ensures
        dot_size(size) >= 1,
        size < 24 ==> dot_size(size) == 1,
        size >= 8 ==> size - 8 < 16 * dot_size(size) <= size + 8,
{
}

/// A text in the middle of a rectangle has as much room to its left as to its right; one that
/// is too long begins at the left.
pub proof fn law_centred_texts_have_equal_margins(rect: Rect, length: int, size: int)
    requires
        length >= 0,
    ensures
        ({
            let left = centered_left(rect, length, size);
            let width = 4 * (length * 9 * dot_size(size));
            &&& width <= 2 * rect.width ==> left - 2 * rect.x == 2 * (rect.x + rect.width) - (left
                + width)
            &&& width > 2 * rect.width ==> left == 2 * rect.x
            &&& size <= rect.height ==> 2 * (centered_top(rect, size) + 4 - 2 * rect.y) == 2
                * rect.height - 2 * size
            &&& size > rect.height ==> centered_top(rect, size) == 2 * rect.y - 4
        }),
{
}

/// Painting a rectangle in an opaque colour changes the pixels whose middle lies in it to that
/// colour, and no others.
pub proof fn law_opaque_rectangles_cover_what_was_there(
    before: Seq<u8>,
    after: Seq<u8>,
    picture: DesktopSize,
    rect: Rect,
    color: Color,
    x: int,
    y: int,
    c: int,
)
    requires
        before.len() == picture.width * picture.height * 4,
        shape_painted(before, after, picture, ShapeModel::Fill { rect, radius: 0, color }),
        color.alpha == 255,
        0 <= x < picture.width,
        0 <= y < picture.height,
        0 <= c < 4,
    ensures
        ({
            let i = (y * picture.width + x) * 4 + c;
            let covered = rect.x <= 2 * x + 1 && 2 * x + 1 < rect.x + rect.width && rect.y <= 2 * y
                + 1 && 2 * y + 1 < rect.y + rect.height;
            &&& after.len() == before.len()
            &&& !covered ==> after[i] == before[i]
            &&& covered ==> after[i] == if c == 0 {
                color.red
            } else if c == 1 {
                color.green
            } else if c == 2 {
                color.blue
            } else {
                255
            }
        }),
{
    let i = (y * picture.width + x) * 4 + c;
    law_pixels_stand_in_rows(picture, x, y, c);
    law_plain_rectangles_are_filled(rect, x, y);
    if c < 3 {
        law_paint_lies_between(before[i], color, 255, c);
    }
    assert(after[i] == if fill_region(rect, 0)(column_of(picture, i), row_of(picture, i)) {
        blended(before[i], color, 255, i % 4)
    } else {
        before[i]
    });
}

/// A pixel that lies in none of the dots of a text stays as it was.
pub proof fn law_texts_leave_the_rest_alone(
    before: Seq<u8>,
    picture: DesktopSize,
    rects: Seq<Rect>,
    color: Color,
    i: int,
)
    requires
        0 <= i < before.len(),
        forall|k: int|
            0 <= k < rects.len() ==> !fill_region(#[trigger] rects[k], 0)(
                column_of(picture, i),
                row_of(picture, i),
            ),
    ensures
        paint_rects(before, picture, rects, color).len() == before.len(),
        paint_rects(before, picture, rects, color)[i] == before[i],
    decreases rects.len(),
{
    if rects.len() > 0 {
        let front = rects.drop_last();
        assert forall|k: int| 0 <= k < front.len() implies !fill_region(#[trigger] front[k], 0)(
            column_of(picture, i),
            row_of(picture, i),
        ) by {
            assert(front[k] == rects[k]);
        }
        law_texts_leave_the_rest_alone(before, picture, front, color, i);
        assert(rects[rects.len() - 1] == rects.last());
    }
}

/// The outline of a rectangle is what is filled of it without what is filled of the smaller
/// one inside, whose corners are as much less round.
pub proof fn law_outlines_leave_the_inside(rect: Rect, radius: int, thickness: int, x: int, y: int)
    requires
        rect.bounded(),
        0 <= thickness <= 0x1_0000,
    ensures
        ({
            let inner = Rect {
                x: (rect.x + thickness) as i32,
                y: (rect.y + thickness) as i32,
                width: (rect.width - 2 * thickness) as i32,
                height: (rect.height - 2 * thickness) as i32,
            };
            let less = if radius >= thickness { radius - thickness } else { 0 };
            outline_region(rect, radius, thickness)(x, y) <==> fill_region(rect, radius)(x, y)
                && !fill_region(inner, less)(x, y)
        }),
{
}

/// A line of text begins at the pixel of its place, or at the edge of the picture where that
/// lies before it, and is cut at the pixel where its room ends.
pub proof fn law_lines_begin_at_their_place(
    before: Seq<u8>,
    after: Seq<u8>,
    picture: DesktopSize,
    x: int,
    y: int,
    text: Seq<char>,
    size: int,
    color: Color,
    max_width: int,
)
    requires
        shape_painted(
            before,
            after,
            picture,
            ShapeModel::Text { x, y, text, size, color, max_width },
        ),
    ensures
        ({
            let left = if x > 0 { x / 2 } else { 0 };
            let top = if y > 0 { y / 2 } else { 0 };
            let right = if x + max_width > 0 { (x + max_width) / 2 } else { 0 };
            let shown = visible_characters(text.len(), left, dot_size(size), right);
            after == paint_rects(
                before,
                picture,
                text_dots(text, left, top, dot_size(size), shown),
                color,
            )
        }),
{
}

/// A text in the middle of a rectangle begins at the quarter pixel that leaves equal margins,
/// and is cut where the rectangle's width ends.
pub proof fn law_centred_lines_begin_at_their_margin(
    before: Seq<u8>,
    after: Seq<u8>,
    picture: DesktopSize,
    rect: Rect,
    text: Seq<char>,
    size: int,
    color: Color,
)
    requires
        shape_painted(before, after, picture, ShapeModel::CenteredText { rect, text, size, color }),
    ensures
        ({
            let place = centered_left(rect, text.len() as int, size);
            let height = centered_top(rect, size);
            let left = if place > 0 { place / 4 } else { 0 };
            let top = if height > 0 { height / 4 } else { 0 };
            let end = place + 2 * rect.width;
            let right = if end > 0 { end / 4 } else { 0 };
            let shown = visible_characters(text.len(), left, dot_size(size), right);
            after == paint_rects(
                before,
                picture,
                text_dots(text, left, top, dot_size(size), shown),
                color,
            )
        }),
{
}

} // verus!
